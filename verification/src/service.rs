use vstd::prelude::*;
use vstd::string::StringExecFns;
use crate::error::Error;
use crate::frames::spec_request;
use crate::host::{Host, HostV};
use crate::num::{dec_rep, digit_val, is_digit, u64_to_dec};
use crate::remote::request2;

verus! {

/// A service under management on a host, by name.
#[derive(Clone, Debug)]
pub struct Service {
    pub name: String,
}

impl Service {
    pub fn new(name: &str) -> (r: Service)
        ensures
            r.name@ == name@,
    {
        Service { name: name.to_owned() }
    }

    /// Queues the `service::action` request: the service's name, then the
    /// action. The matching reply is a command result, read with
    /// `command_result_response`.
    pub fn action_request(&self, host: &mut Host, action: &str) -> (r: Result<(), Error>)
        ensures
            old(host)@.api_up ==> r is Ok && final(host)@ == (HostV {
                outbox: old(host)@.outbox + spec_request(
                    "service::action"@,
                    seq![self.name@, action@],
                ),
                ..old(host)@
            }),
            !old(host)@.api_up ==> (r matches Err(e) && e is Connection) && final(host)@
                == old(host)@,
    {
        request2(host, "service::action", self.name.as_str(), action)
    }
}

/// Whether a service action still requires a mutating call, given whether
/// its state probe succeeded: enabling an already-enabled service, or
/// starting one already active, is a no-op, and so are their opposites;
/// any other action always runs.
pub open spec fn spec_needs_change(action: Seq<char>, probe_success: bool) -> bool {
    if action == "enable"@ {
        !probe_success
    } else if action == "disable"@ {
        probe_success
    } else if action == "start"@ {
        !probe_success
    } else if action == "stop"@ {
        probe_success
    } else {
        true
    }
}

/// The `systemctl` subcommand that probes the state an action cares
/// about: enablement for enable/disable, activity for start/stop; other
/// actions have nothing to probe.
pub open spec fn spec_probe_subcommand(action: Seq<char>) -> Option<Seq<char>> {
    if action == "enable"@ || action == "disable"@ {
        Some("is-enabled"@)
    } else if action == "start"@ || action == "stop"@ {
        Some("is-active"@)
    } else {
        None
    }
}

/// Picks the `systemctl` probe subcommand for an action, if one exists.
pub fn systemd_probe_command(action: &str) -> (r: Option<&'static str>)
    ensures
        r is Some <==> spec_probe_subcommand(action@) is Some,
        r matches Some(c) ==> spec_probe_subcommand(action@) == Some(c@),
{
    let a: String = action.to_owned();
    if a == "enable".to_owned() || a == "disable".to_owned() {
        Some("is-enabled")
    } else if a == "start".to_owned() || a == "stop".to_owned() {
        Some("is-active")
    } else {
        None
    }
}

/// Resolves a service action on a systemd host, after its probe: the
/// mutating `systemctl` invocation to run, or nothing when the host is
/// already in the desired state. Exactly one invocation is handed out when
/// a change is needed, none otherwise.
pub fn service_systemd_plan(name: &str, action: &str, probe_success: bool) -> (r: Option<
    String,
>)
    ensures
        r is Some <==> spec_needs_change(action@, probe_success),
        r matches Some(cmd) ==> cmd@ == "systemctl "@ + action@ + " "@ + name@,
{
    let a: String = action.to_owned();
    let needs: bool = if a == "enable".to_owned() {
        !probe_success
    } else if a == "disable".to_owned() {
        probe_success
    } else if a == "start".to_owned() {
        !probe_success
    } else if a == "stop".to_owned() {
        probe_success
    } else {
        true
    };
    if needs {
        let mut cmd: String = "systemctl ".to_owned();
        cmd.append(action);
        cmd.append(" ");
        cmd.append(name);
        assert(cmd@ =~= "systemctl "@ + action@ + " "@ + name@);
        Some(cmd)
    } else {
        None
    }
}

/// A character the runlevel report may end with: the whitespace its
/// printer appends.
pub open spec fn spec_is_space(c: char) -> bool {
    c == ' ' || c == '\t' || c == '\n' || c == '\r' || c == '\u{b}' || c == '\u{c}'
}

/// The current runlevel as the `runlevel` command reports it: an upper-case
/// letter (the previous runlevel or N), a space, one digit, and at most one
/// trailing whitespace character.
pub open spec fn spec_runlevel(s: Seq<char>) -> Option<int> {
    if (s.len() == 3 || s.len() == 4) && 'A' <= s[0] && s[0] <= 'Z' && s[1] == ' '
        && is_digit(s[2]) && (s.len() == 3 || spec_is_space(s[3])) {
        Some(digit_val(s[2]))
    } else {
        None
    }
}

/// Reads the current runlevel from the `runlevel` command's report, or
/// nothing when the report cannot be interpreted.
pub fn parse_runlevel(out: &str) -> (r: Option<u8>)
    ensures
        r matches Some(d) ==> spec_runlevel(out@) == Some(d as int) && d < 10,
        r is None ==> spec_runlevel(out@) is None,
{
    let v = crate::text::chars_of(out);
    if !(v.len() == 3 || v.len() == 4) {
        return None;
    }
    let c0 = v[0];
    if c0 < 'A' || c0 > 'Z' {
        return None;
    }
    if v[1] != ' ' {
        return None;
    }
    if v.len() == 4 {
        let c3 = v[3];
        let ws = c3 == ' ' || c3 == '\t' || c3 == '\n' || c3 == '\r' || c3 == '\u{b}'
            || c3 == '\u{c}';
        if !ws {
            return None;
        }
    }
    match crate::num::digit_of(v[2]) {
        Some(d) => Some(d),
        None => None,
    }
}

/// The directory whose start links configure one runlevel.
pub fn rc_directory(runlevel: u8) -> (r: String)
    requires
        runlevel < 10,
    ensures
        r@ == "/etc/rc"@ + dec_rep(runlevel as nat) + ".d"@,
{
    let mut s: String = "/etc/rc".to_owned();
    let d = u64_to_dec(runlevel as u64);
    s.append(d.as_str());
    s.append(".d");
    assert(s@ =~= "/etc/rc"@ + dec_rep(runlevel as nat) + ".d"@);
    s
}

/// A directory entry that enables a service at boot: its path ends with a
/// start link, `/S`, two digits, then exactly the service's name.
pub open spec fn spec_start_link(entry: Seq<char>, name: Seq<char>) -> bool {
    &&& entry.len() >= name.len() + 4
    &&& entry[entry.len() - name.len() - 4] == '/'
    &&& entry[entry.len() - name.len() - 3] == 'S'
    &&& is_digit(entry[entry.len() - name.len() - 2])
    &&& is_digit(entry[entry.len() - name.len() - 1])
    &&& entry.skip(entry.len() - name.len()) == name
}

/// Whether one directory entry is a start link for the named service.
pub fn is_start_link(entry: &str, name: &str) -> (r: bool)
    ensures
        r == spec_start_link(entry@, name@),
{
    let e = crate::text::chars_of(entry);
    let n = crate::text::chars_of(name);
    if e.len() < 4 || e.len() - 4 < n.len() {
        return false;
    }
    let base = e.len() - n.len();
    if e[base - 4] != '/' {
        return false;
    }
    if e[base - 3] != 'S' {
        return false;
    }
    let d1 = e[base - 2];
    if d1 < '0' || d1 > '9' {
        assert(!is_digit(entry@[base - 2]));
        return false;
    }
    let d2 = e[base - 1];
    if d2 < '0' || d2 > '9' {
        assert(!is_digit(entry@[base - 1]));
        return false;
    }
    let mut i: usize = 0;
    while i < n.len()
        invariant
            e@ == entry@,
            n@ == name@,
            e@.len() <= usize::MAX,
            e@.len() >= n@.len() + 4,
            base == e@.len() - n@.len(),
            i <= n@.len(),
            forall|k: int| 0 <= k < i ==> e@[base + k] == n@[k],
        decreases n@.len() - i,
    {
        if e[base + i] != n[i] {
            proof {
                if entry@.skip(base as int) == name@ {
                    assert(entry@.skip(base as int)[i as int] == name@[i as int]);
                }
            }
            return false;
        }
        i = i + 1;
    }
    assert(entry@.skip(base as int) =~= name@);
    true
}

/// Resolves an enable or disable action on an init-script host, after the
/// start-link scan: the `update-rc.d` invocation to run, or nothing when
/// the service's enablement already matches the desired state.
pub fn service_init_plan(name: &str, action: &str, enabled: bool) -> (r: Option<String>)
    requires
        action@ == "enable"@ || action@ == "disable"@,
    ensures
        r is Some <==> (action@ == "enable"@ && !enabled) || (action@ == "disable"@
            && enabled),
        r matches Some(cmd) ==> cmd@ == "update-rc.d "@ + name@ + " "@ + action@,
{
    proof {
        reveal_strlit("enable");
        reveal_strlit("disable");
        assert("enable"@.len() == 6);
        assert("disable"@.len() == 7);
    }
    let a: String = action.to_owned();
    let needs: bool = if a == "enable".to_owned() {
        !enabled
    } else {
        enabled
    };
    if needs {
        let mut cmd: String = "update-rc.d ".to_owned();
        cmd.append(name);
        cmd.append(" ");
        cmd.append(action);
        assert(cmd@ =~= "update-rc.d "@ + name@ + " "@ + action@);
        Some(cmd)
    } else {
        None
    }
}

} // verus!
