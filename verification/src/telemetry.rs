use vstd::prelude::*;
use crate::num::{dec_val, is_dec_seq, lemma_dec_val_prefix};

verus! {

/// The position of the first dot in `s` at or after `start`; the length of
/// `s` when none follows.
pub open spec fn dot_pos(s: Seq<char>, start: int) -> int
    decreases s.len() - start,
{
    if start < 0 || start >= s.len() {
        s.len() as int
    } else if s[start] == '.' {
        start
    } else {
        dot_pos(s, start + 1)
    }
}

/// A version string's first three dot-separated segments, read as numbers:
/// `major.minor.patch`, each a digit string whose value fits a `u32`;
/// whatever follows a third dot is ignored. Any other shape has no triple.
pub open spec fn spec_version_triple(s: Seq<char>) -> Option<(nat, nat, nat)> {
    let i = dot_pos(s, 0);
    let j = dot_pos(s, i + 1);
    let k = dot_pos(s, j + 1);
    if i < s.len() && j < s.len() && is_dec_seq(s.subrange(0, i)) && is_dec_seq(
        s.subrange(i + 1, j),
    ) && is_dec_seq(s.subrange(j + 1, k)) && dec_val(s.subrange(0, i)) <= u32::MAX as nat
        && dec_val(s.subrange(i + 1, j)) <= u32::MAX as nat && dec_val(
        s.subrange(j + 1, k),
    ) <= u32::MAX as nat {
        Some(
            (
                dec_val(s.subrange(0, i)),
                dec_val(s.subrange(i + 1, j)),
                dec_val(s.subrange(j + 1, k)),
            ),
        )
    } else {
        None
    }
}

proof fn lemma_dot_pos_range(s: Seq<char>, start: int)
    requires
        0 <= start <= s.len(),
    ensures
        start <= dot_pos(s, start) <= s.len(),
        dot_pos(s, start) < s.len() ==> s[dot_pos(s, start)] == '.',
        forall|m: int| start <= m < dot_pos(s, start) ==> s[m] != '.',
    decreases s.len() - start,
{
    if start < s.len() && s[start] != '.' {
        lemma_dot_pos_range(s, start + 1);
    }
}

/// The first dot at or after `start`, as `dot_pos` places it.
fn find_dot(v: &Vec<char>, start: usize) -> (r: usize)
    requires
        start <= v@.len(),
    ensures
        r == dot_pos(v@, start as int),
        start <= r <= v@.len(),
{
    let mut i = start;
    while i < v.len()
        invariant
            start <= i <= v@.len(),
            dot_pos(v@, start as int) == dot_pos(v@, i as int),
        decreases v@.len() - i,
    {
        if v[i] == '.' {
            return i;
        }
        i = i + 1;
    }
    assert(dot_pos(v@, i as int) == v@.len());
    i
}

/// Reads the digit segment `v[start..end]` as a number that must fit a
/// `u32`.
fn parse_u32_seg(v: &Vec<char>, start: usize, end: usize) -> (r: Option<u32>)
    requires
        start <= end <= v@.len(),
    ensures
        r matches Some(x) ==> is_dec_seq(v@.subrange(start as int, end as int)) && dec_val(
            v@.subrange(start as int, end as int),
        ) == x as nat,
        r is None ==> !is_dec_seq(v@.subrange(start as int, end as int)) || dec_val(
            v@.subrange(start as int, end as int),
        ) > u32::MAX as nat,
{
    let ghost t = v@.subrange(start as int, end as int);
    if start == end {
        assert(!is_dec_seq(t));
        return None;
    }
    let mut acc: u64 = 0;
    let mut over = false;
    let mut i = start;
    while i < end
        invariant
            start <= i <= end <= v@.len(),
            t == v@.subrange(start as int, end as int),
            forall|m: int| start <= m < i ==> crate::num::is_digit(#[trigger] v@[m]),
            !over ==> acc as nat == dec_val(v@.subrange(start as int, i as int)) && acc
                <= u32::MAX as u64,
            over ==> dec_val(v@.subrange(start as int, i as int)) > u32::MAX as nat,
        decreases end - i,
    {
        let d = match crate::num::digit_of(v[i]) {
            Some(d) => d,
            None => {
                assert(t[i - start] == v@[i as int]);
                assert(!is_dec_seq(t));
                return None;
            },
        };
        proof {
            assert(v@.subrange(start as int, i as int + 1).drop_last() =~= v@.subrange(
                start as int,
                i as int,
            ));
        }
        if !over {
            let next = acc * 10 + (d as u64);
            if next > 4294967295 {
                over = true;
            } else {
                acc = next;
            }
            proof {
                if over {
                    assert(dec_val(v@.subrange(start as int, i as int + 1)) == next);
                }
            }
        } else {
            proof {
                lemma_dec_val_prefix(v@.subrange(start as int, i as int + 1), i - start);
                assert(v@.subrange(start as int, i as int + 1).subrange(0, i - start)
                    =~= v@.subrange(start as int, i as int));
            }
        }
        i = i + 1;
    }
    assert(v@.subrange(start as int, i as int) =~= t);
    assert(is_dec_seq(t));
    if over {
        None
    } else {
        Some(acc as u32)
    }
}

/// Reads `major.minor.patch` from the front of a version report, exactly
/// as `spec_version_triple` describes it.
pub fn parse_version_triple(s: &str) -> (r: Option<(u32, u32, u32)>)
    ensures
        match r {
            Some((a, b, c)) => spec_version_triple(s@) == Some(
                (a as nat, b as nat, c as nat),
            ),
            None => spec_version_triple(s@) is None,
        },
{
    let v = crate::text::chars_of(s);
    let i = find_dot(&v, 0);
    if i == v.len() {
        return None;
    }
    let j = find_dot(&v, i + 1);
    if j == v.len() {
        return None;
    }
    proof {
        lemma_dot_pos_range(v@, (j + 1) as int);
    }
    let k = find_dot(&v, j + 1);
    let a = match parse_u32_seg(&v, 0, i) {
        Some(x) => x,
        None => {
            return None;
        },
    };
    let b = match parse_u32_seg(&v, i + 1, j) {
        Some(x) => x,
        None => {
            return None;
        },
    };
    let c = match parse_u32_seg(&v, j + 1, k) {
        Some(x) => x,
        None => {
            return None;
        },
    };
    Some((a, b, c))
}

/// Processor identity of a host.
#[derive(Clone, Debug)]
pub struct Cpu {
    pub vendor: String,
    pub brand_string: String,
    pub cores: u32,
}

impl Cpu {
    pub fn new(vendor: &str, brand_string: &str, cores: u32) -> (r: Cpu)
        ensures
            r.vendor@ == vendor@,
            r.brand_string@ == brand_string@,
            r.cores == cores,
    {
        Cpu { vendor: vendor.to_owned(), brand_string: brand_string.to_owned(), cores }
    }
}

/// One mounted filesystem of a host.
#[derive(Clone, Debug)]
pub struct FsMount {
    pub filesystem: String,
    pub mountpoint: String,
    pub size: u64,
    pub used: u64,
    pub available: u64,
}

/// One network interface of a host.
#[derive(Clone, Debug)]
pub struct Netif {
    pub interface: String,
    pub mac: Option<String>,
}

/// Operating-system identity of a host.
#[derive(Clone, Debug)]
pub struct Os {
    pub arch: String,
    pub family: String,
    pub platform: String,
    pub version_str: String,
    pub version_maj: u32,
    pub version_min: u32,
    pub version_patch: u32,
}

impl Os {
    pub fn new(
        arch: &str,
        family: &str,
        platform: &str,
        version_str: &str,
        version_maj: u32,
        version_min: u32,
        version_patch: u32,
    ) -> (r: Os)
        ensures
            r.arch@ == arch@,
            r.family@ == family@,
            r.platform@ == platform@,
            r.version_str@ == version_str@,
            r.version_maj == version_maj,
            r.version_min == version_min,
            r.version_patch == version_patch,
    {
        Os {
            arch: arch.to_owned(),
            family: family.to_owned(),
            platform: platform.to_owned(),
            version_str: version_str.to_owned(),
            version_maj,
            version_min,
            version_patch,
        }
    }
}

/// A point-in-time summary of a host's hardware and software identity.
/// Built once per collection call and never changed afterwards: this
/// library offers no way to alter a constructed snapshot.
#[derive(Clone, Debug)]
pub struct Telemetry {
    pub cpu: Cpu,
    pub fs: Vec<FsMount>,
    pub hostname: String,
    pub memory: u64,
    pub net: Vec<Netif>,
    pub os: Os,
}

impl Telemetry {
    pub fn new(
        cpu: Cpu,
        fs: Vec<FsMount>,
        hostname: &str,
        memory: u64,
        net: Vec<Netif>,
        os: Os,
    ) -> (r: Telemetry)
        ensures
            r.cpu == cpu,
            r.fs == fs,
            r.hostname@ == hostname@,
            r.memory == memory,
            r.net == net,
            r.os == os,
    {
        Telemetry { cpu, fs, hostname: hostname.to_owned(), memory, net, os }
    }
}

} // verus!
