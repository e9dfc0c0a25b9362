use vstd::prelude::*;
use crate::package::Providers;

verus! {

/// The concrete distributions this library ships targets for. A target
/// binds every capability to a strategy once, at configuration time; the
/// family-wide rules below are what distinguishes one target from another.
#[derive(Clone, Copy, Debug, PartialEq, Eq, Structural)]
pub enum Target {
    Debian,
    Nixos,
    Ubuntu,
}

/// How a target resolves service actions locally: by `systemctl` alone, or
/// by detecting the init system first and falling back to init scripts.
#[derive(Clone, Copy, Debug, PartialEq, Eq, Structural)]
pub enum ServiceStrategy {
    /// The host always runs systemd; no init-script fallback exists.
    SystemdOnly,
    /// Probe what backs the first process: systemd when it is detected,
    /// init scripts otherwise.
    DetectInit,
}

impl Target {
    /// The ordered package-provider candidates this target prefers;
    /// default-provider resolution probes them first to last.
    pub fn provider_candidates(&self) -> (r: Vec<Providers>)
        ensures
            *self is Nixos ==> r@ == seq![Providers::Nix],
            !(*self is Nixos) ==> r@ == seq![Providers::Apt],
    {
        let mut v: Vec<Providers> = Vec::new();
        match self {
            Target::Nixos => {
                v.push(Providers::Nix);
                assert(v@ =~= seq![Providers::Nix]);
            },
            Target::Debian => {
                v.push(Providers::Apt);
                assert(v@ =~= seq![Providers::Apt]);
            },
            Target::Ubuntu => {
                v.push(Providers::Apt);
                assert(v@ =~= seq![Providers::Apt]);
            },
        }
        v
    }

    /// How this target resolves service actions: NixOS always uses
    /// systemd and never falls back to init scripts; the Debian-family
    /// targets detect the init system first.
    pub fn service_strategy(&self) -> (r: ServiceStrategy)
        ensures
            *self is Nixos ==> r == ServiceStrategy::SystemdOnly,
            !(*self is Nixos) ==> r == ServiceStrategy::DetectInit,
    {
        match self {
            Target::Nixos => ServiceStrategy::SystemdOnly,
            Target::Debian => ServiceStrategy::DetectInit,
            Target::Ubuntu => ServiceStrategy::DetectInit,
        }
    }

    /// The OS-family name this target reports in telemetry.
    pub fn os_family(&self) -> (r: &'static str)
        ensures
            *self is Nixos ==> r@ == "linux"@,
            !(*self is Nixos) ==> r@ == "debian"@,
    {
        match self {
            Target::Nixos => "linux",
            Target::Debian => "debian",
            Target::Ubuntu => "debian",
        }
    }

    /// The platform name this target reports in telemetry.
    pub fn platform_name(&self) -> (r: &'static str)
        ensures
            *self is Nixos ==> r@ == "nixos"@,
            *self is Debian ==> r@ == "debian"@,
            *self is Ubuntu ==> r@ == "ubuntu"@,
    {
        match self {
            Target::Nixos => "nixos",
            Target::Debian => "debian",
            Target::Ubuntu => "ubuntu",
        }
    }
}

} // verus!
