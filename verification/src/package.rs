use vstd::prelude::*;
use crate::error::Error;
use crate::host::Host;

verus! {

/// The enumerable package-manager identities a target may offer.
#[derive(Clone, Copy, Debug, PartialEq, Eq, Structural)]
pub enum Providers {
    Apt,
    Dnf,
    Homebrew,
    Macports,
    Nix,
    Pkg,
    Yum,
}

impl Providers {
    /// The identifier of this provider on the wire.
    pub open spec fn spec_name(self) -> Seq<char> {
        match self {
            Providers::Apt => "Apt"@,
            Providers::Dnf => "Dnf"@,
            Providers::Homebrew => "Homebrew"@,
            Providers::Macports => "Macports"@,
            Providers::Nix => "Nix"@,
            Providers::Pkg => "Pkg"@,
            Providers::Yum => "Yum"@,
        }
    }

    /// The provider a wire identifier names, if any. Tried in a fixed
    /// order; exactly the seven known identifiers resolve.
    pub open spec fn spec_of_name(s: Seq<char>) -> Option<Providers> {
        if s == "Apt"@ {
            Some(Providers::Apt)
        } else if s == "Dnf"@ {
            Some(Providers::Dnf)
        } else if s == "Homebrew"@ {
            Some(Providers::Homebrew)
        } else if s == "Macports"@ {
            Some(Providers::Macports)
        } else if s == "Nix"@ {
            Some(Providers::Nix)
        } else if s == "Pkg"@ {
            Some(Providers::Pkg)
        } else if s == "Yum"@ {
            Some(Providers::Yum)
        } else {
            None
        }
    }

    /// Writes this provider's wire identifier.
    pub fn name(&self) -> (r: &'static str)
        ensures
            r@ == self.spec_name(),
    {
        match self {
            Providers::Apt => "Apt",
            Providers::Dnf => "Dnf",
            Providers::Homebrew => "Homebrew",
            Providers::Macports => "Macports",
            Providers::Nix => "Nix",
            Providers::Pkg => "Pkg",
            Providers::Yum => "Yum",
        }
    }

    /// Reads a provider identifier from the wire.
    pub fn from_name(s: &str) -> (r: Option<Providers>)
        ensures
            r == Providers::spec_of_name(s@),
    {
        let t: String = s.to_owned();
        if t == "Apt".to_owned() {
            Some(Providers::Apt)
        } else if t == "Dnf".to_owned() {
            Some(Providers::Dnf)
        } else if t == "Homebrew".to_owned() {
            Some(Providers::Homebrew)
        } else if t == "Macports".to_owned() {
            Some(Providers::Macports)
        } else if t == "Nix".to_owned() {
            Some(Providers::Nix)
        } else if t == "Pkg".to_owned() {
            Some(Providers::Pkg)
        } else if t == "Yum".to_owned() {
            Some(Providers::Yum)
        } else {
            None
        }
    }
}

/// Writing a provider's identifier and reading it back names the same
/// provider: the identifier round trip of the provider registry.
pub proof fn lemma_provider_name_round_trip(p: Providers)
    ensures
        Providers::spec_of_name(p.spec_name()) == Some(p),
{
    reveal_strlit("Apt");
    reveal_strlit("Dnf");
    reveal_strlit("Homebrew");
    reveal_strlit("Macports");
    reveal_strlit("Nix");
    reveal_strlit("Pkg");
    reveal_strlit("Yum");
    assert("Apt"@.len() == 3);
    assert("Dnf"@.len() == 3);
    assert("Homebrew"@.len() == 8);
    assert("Macports"@.len() == 8);
    assert("Nix"@.len() == 3);
    assert("Pkg"@.len() == 3);
    assert("Yum"@.len() == 3);
    assert("Apt"@[0] == 'A');
    assert("Dnf"@[0] == 'D');
    assert("Homebrew"@[0] == 'H');
    assert("Macports"@[0] == 'M');
    assert("Nix"@[0] == 'N');
    assert("Pkg"@[0] == 'P');
    assert("Yum"@[0] == 'Y');
}

/// Default-provider resolution over an ordered candidate list: the first
/// candidate whose activity probe succeeded is selected; with no active
/// candidate the resolution fails, and in no other case.
pub fn default_provider(candidates: &Vec<Providers>, active: &Vec<bool>) -> (r: Result<
    Providers,
    Error,
>)
    requires
        candidates@.len() == active@.len(),
    ensures
        r matches Ok(p) ==> exists|i: int|
            0 <= i < active@.len() && active@[i] && p == candidates@[i] && (forall|j: int|
                0 <= j < i ==> !active@[j]),
        r is Err ==> (r matches Err(e) && e is NoProvider) && (forall|i: int|
            0 <= i < active@.len() ==> !active@[i]),
        (exists|i: int| 0 <= i < active@.len() && active@[i]) ==> r is Ok,
{
    let n = candidates.len();
    let mut i: usize = 0;
    while i < n
        invariant
            n == candidates@.len(),
            candidates@.len() == active@.len(),
            i <= n,
            forall|j: int| 0 <= j < i ==> !active@[j],
        decreases n - i,
    {
        if active[i] {
            return Ok(candidates[i]);
        }
        i = i + 1;
    }
    Err(Error::NoProvider)
}

/// The Macports package provider. Activity probing always reports it
/// inactive here: no target in this library selects it.
pub struct Macports;

impl Macports {
    /// The identity this provider registers under.
    pub fn get_providers(&self) -> (r: Providers)
        ensures
            r == Providers::Macports,
    {
        Providers::Macports
    }

    /// The activity probe: Macports is never detected as the active
    /// package manager on the hosts this library drives.
    pub fn is_active(&self, host: &mut Host) -> (r: Result<bool, Error>)
        ensures
            final(host)@ == old(host)@,
            r matches Ok(b) && b == false,
    {
        Ok(false)
    }
}

} // verus!
