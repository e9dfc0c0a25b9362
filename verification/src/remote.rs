//! The remote strategy: one request builder and one reply reader per
//! endpoint of the agent's API. A request queues the endpoint's exact frame
//! sequence on the host's request/reply channel; after the transport has
//! exchanged the message, the matching reader consumes the reply frames in
//! the order the endpoint contract declares and returns the typed result.
//! An "Err" header always surfaces the remote message as an agent error.
use vstd::prelude::*;
use crate::command::CommandResult;
use crate::error::Error;
use crate::file::{FileOwner, FileOwnerV};
use crate::frames::{spec_command_reply, spec_request, text_frame, FrameData, FrameModel};
use crate::host::{Host, HostV};
use crate::num::{dec_rep, dec_val, is_dec_seq, parse_i32, parse_u64, u64_to_dec};
use crate::package::Providers;

verus! {

/// Connection facts untouched by reading a reply: everything but the inbox
/// and the continuation flag.
pub open spec fn same_connection(a: HostV, b: HostV) -> bool {
    &&& a.hostname == b.hostname
    &&& a.api_up == b.api_up
    &&& a.upload_up == b.upload_up
    &&& a.api_port == b.api_port
    &&& a.upload_port == b.upload_port
    &&& a.download_port == b.download_port
    &&& a.outbox == b.outbox
    &&& a.upload_outbox == b.upload_outbox
}

pub(crate) fn request1(host: &mut Host, endpoint: &str, a0: &str) -> (r: Result<(), Error>)
    ensures
        old(host)@.api_up ==> r is Ok && final(host)@ == (HostV {
            outbox: old(host)@.outbox + spec_request(endpoint@, seq![a0@]),
            ..old(host)@
        }),
        !old(host)@.api_up ==> (r matches Err(e) && e is Connection) && final(host)@
            == old(host)@,
{
    match host.send(endpoint, true) {
        Ok(()) => {},
        Err(e) => {
            return Err(e);
        },
    }
    match host.send(a0, false) {
        Ok(()) => {},
        Err(e) => {
            return Err(e);
        },
    }
    assert(old(host)@.outbox.push(text_frame(endpoint@, true)).push(text_frame(a0@, false))
        =~= old(host)@.outbox + spec_request(endpoint@, seq![a0@]));
    assert(host@ =~= (HostV {
        outbox: old(host)@.outbox + spec_request(endpoint@, seq![a0@]),
        ..old(host)@
    }));
    Ok(())
}

pub(crate) fn request2(host: &mut Host, endpoint: &str, a0: &str, a1: &str) -> (r: Result<
    (),
    Error,
>)
    ensures
        old(host)@.api_up ==> r is Ok && final(host)@ == (HostV {
            outbox: old(host)@.outbox + spec_request(endpoint@, seq![a0@, a1@]),
            ..old(host)@
        }),
        !old(host)@.api_up ==> (r matches Err(e) && e is Connection) && final(host)@
            == old(host)@,
{
    match host.send(endpoint, true) {
        Ok(()) => {},
        Err(e) => {
            return Err(e);
        },
    }
    match host.send(a0, true) {
        Ok(()) => {},
        Err(e) => {
            return Err(e);
        },
    }
    match host.send(a1, false) {
        Ok(()) => {},
        Err(e) => {
            return Err(e);
        },
    }
    assert(old(host)@.outbox.push(text_frame(endpoint@, true)).push(text_frame(a0@, true)).push(
        text_frame(a1@, false),
    ) =~= old(host)@.outbox + spec_request(endpoint@, seq![a0@, a1@]));
    assert(host@ =~= (HostV {
        outbox: old(host)@.outbox + spec_request(endpoint@, seq![a0@, a1@]),
        ..old(host)@
    }));
    Ok(())
}

pub(crate) fn request3(host: &mut Host, endpoint: &str, a0: &str, a1: &str, a2: &str) -> (r:
    Result<(), Error>)
    ensures
        old(host)@.api_up ==> r is Ok && final(host)@ == (HostV {
            outbox: old(host)@.outbox + spec_request(endpoint@, seq![a0@, a1@, a2@]),
            ..old(host)@
        }),
        !old(host)@.api_up ==> (r matches Err(e) && e is Connection) && final(host)@
            == old(host)@,
{
    match host.send(endpoint, true) {
        Ok(()) => {},
        Err(e) => {
            return Err(e);
        },
    }
    match host.send(a0, true) {
        Ok(()) => {},
        Err(e) => {
            return Err(e);
        },
    }
    match host.send(a1, true) {
        Ok(()) => {},
        Err(e) => {
            return Err(e);
        },
    }
    match host.send(a2, false) {
        Ok(()) => {},
        Err(e) => {
            return Err(e);
        },
    }
    assert(old(host)@.outbox.push(text_frame(endpoint@, true)).push(text_frame(a0@, true)).push(
        text_frame(a1@, true),
    ).push(text_frame(a2@, false)) =~= old(host)@.outbox + spec_request(
        endpoint@,
        seq![a0@, a1@, a2@],
    ));
    assert(host@ =~= (HostV {
        outbox: old(host)@.outbox + spec_request(endpoint@, seq![a0@, a1@, a2@]),
        ..old(host)@
    }));
    Ok(())
}

pub(crate) fn request0(host: &mut Host, endpoint: &str) -> (r: Result<(), Error>)
    ensures
        old(host)@.api_up ==> r is Ok && final(host)@ == (HostV {
            outbox: old(host)@.outbox + spec_request(endpoint@, Seq::<Seq<char>>::empty()),
            ..old(host)@
        }),
        !old(host)@.api_up ==> (r matches Err(e) && e is Connection) && final(host)@
            == old(host)@,
{
    match host.send(endpoint, false) {
        Ok(()) => {},
        Err(e) => {
            return Err(e);
        },
    }
    assert(old(host)@.outbox.push(text_frame(endpoint@, false)) =~= old(host)@.outbox
        + spec_request(endpoint@, Seq::<Seq<char>>::empty()));
    assert(host@ =~= (HostV {
        outbox: old(host)@.outbox + spec_request(endpoint@, Seq::<Seq<char>>::empty()),
        ..old(host)@
    }));
    Ok(())
}

/// The success reply of a yes/no endpoint: the "Ok" header announcing a
/// continuation, then one text frame; the answer is whether that frame is
/// exactly "1".
pub open spec fn spec_bool_reply(frames: Seq<FrameModel>) -> Option<bool> {
    if frames.len() >= 2 && frames[0] == text_frame("Ok"@, true) && frames[1].body is Text {
        Some(frames[1].body->Text_0 == "1"@)
    } else {
        None
    }
}

/// The success reply of an endpoint returning one text value.
pub open spec fn spec_string_reply(frames: Seq<FrameModel>) -> Option<Seq<char>> {
    if frames.len() >= 2 && frames[0] == text_frame("Ok"@, true) && frames[1].body is Text {
        Some(frames[1].body->Text_0)
    } else {
        None
    }
}

/// The success reply of the file-mode endpoint: one decimal frame whose
/// value fits a `u16`.
pub open spec fn spec_mode_reply(frames: Seq<FrameModel>) -> Option<u16> {
    match spec_string_reply(frames) {
        Some(t) => if is_dec_seq(t) && dec_val(t) <= u16::MAX as nat {
            Some(dec_val(t) as u16)
        } else {
            None
        },
        None => None,
    }
}

/// The success reply of the ownership endpoint: user name, user id, group
/// name, group id, the ids in decimal.
pub open spec fn spec_owner_reply(frames: Seq<FrameModel>) -> Option<FileOwnerV> {
    if frames.len() >= 5 && frames[0] == text_frame("Ok"@, true) && frames[1].body is Text
        && frames[1].more && frames[2].body is Text && frames[2].more && is_dec_seq(
        frames[2].body->Text_0,
    ) && dec_val(frames[2].body->Text_0) <= u64::MAX as nat && frames[3].body is Text
        && frames[3].more && frames[4].body is Text && is_dec_seq(frames[4].body->Text_0)
        && dec_val(frames[4].body->Text_0) <= u64::MAX as nat {
        Some(
            FileOwnerV {
                user_name: frames[1].body->Text_0,
                user_uid: dec_val(frames[2].body->Text_0) as u64,
                group_name: frames[3].body->Text_0,
                group_gid: dec_val(frames[4].body->Text_0) as u64,
            },
        )
    } else {
        None
    }
}

/// Reads one text frame after a successful header. The shared shape of
/// every single-value reply.
fn one_frame_response(host: &mut Host, name: &str, order: u8) -> (r: Result<String, Error>)
    ensures
        same_connection(old(host)@, final(host)@),
        old(host)@.api_up && spec_string_reply(old(host)@.inbox) is Some ==> (r matches Ok(
            s,
        ) && s@ == spec_string_reply(old(host)@.inbox)->Some_0) && final(host)@.inbox
            == old(host)@.inbox.skip(2) && final(host)@.rcvmore == old(host)@.inbox[1].more,
        r is Ok ==> old(host)@.api_up && spec_string_reply(old(host)@.inbox) is Some && (
        r matches Ok(s) && s@ == spec_string_reply(old(host)@.inbox)->Some_0) && final(host)@.inbox == old(host)@.inbox.skip(2),
        old(host)@.api_up && old(host)@.inbox.len() > 1 && old(host)@.inbox[0]
            == text_frame("Err"@, true) && old(host)@.inbox[1].body is Text ==> (r matches
        Err(Error::Agent(m)) && m@ == old(host)@.inbox[1].body->Text_0),
        !old(host)@.api_up ==> (r matches Err(e) && e is Connection) && final(host)@
            == old(host)@,
{
    match host.recv_header() {
        Ok(()) => {},
        Err(e) => {
            return Err(e);
        },
    }
    let ghost mid = host@;
    proof {
        if mid.inbox.len() > 0 {
            assert(mid.inbox[0] == old(host)@.inbox[1]);
            assert(mid.inbox.drop_first() =~= old(host)@.inbox.skip(2));
        }
    }
    match host.expect_recv(name, order) {
        Ok(s) => Ok(s),
        Err(e) => Err(e),
    }
}

/// Reads a yes/no reply: the answer frame is "1" for yes, anything else
/// for no.
pub fn bool_response(host: &mut Host, name: &str, order: u8) -> (r: Result<bool, Error>)
    ensures
        same_connection(old(host)@, final(host)@),
        old(host)@.api_up && spec_bool_reply(old(host)@.inbox) is Some ==> (r matches Ok(b)
            && b == spec_bool_reply(old(host)@.inbox)->Some_0) && final(host)@.inbox
            == old(host)@.inbox.skip(2),
        r is Ok ==> old(host)@.api_up && spec_bool_reply(old(host)@.inbox) is Some && (
        r matches Ok(b) && b == spec_bool_reply(old(host)@.inbox)->Some_0),
        old(host)@.api_up && old(host)@.inbox.len() > 1 && old(host)@.inbox[0]
            == text_frame("Err"@, true) && old(host)@.inbox[1].body is Text ==> (r matches
        Err(Error::Agent(m)) && m@ == old(host)@.inbox[1].body->Text_0),
        !old(host)@.api_up ==> (r matches Err(e) && e is Connection) && final(host)@
            == old(host)@,
{
    let s = match one_frame_response(host, name, order) {
        Ok(s) => s,
        Err(e) => {
            return Err(e);
        },
    };
    let yes: String = "1".to_owned();
    Ok(s == yes)
}

/// Reads the reply of `file::get_mode`: the mode as a decimal number that
/// must fit a `u16`; malformed content is a parse error.
pub fn mode_response(host: &mut Host) -> (r: Result<u16, Error>)
    ensures
        same_connection(old(host)@, final(host)@),
        old(host)@.api_up && spec_mode_reply(old(host)@.inbox) is Some ==> (r matches Ok(m)
            && m == spec_mode_reply(old(host)@.inbox)->Some_0) && final(host)@.inbox
            == old(host)@.inbox.skip(2),
        r is Ok ==> old(host)@.api_up && spec_mode_reply(old(host)@.inbox) is Some && (
        r matches Ok(m) && m == spec_mode_reply(old(host)@.inbox)->Some_0),
        old(host)@.api_up && old(host)@.inbox.len() > 1 && old(host)@.inbox[0]
            == text_frame("Err"@, true) && old(host)@.inbox[1].body is Text ==> (r matches
        Err(Error::Agent(m)) && m@ == old(host)@.inbox[1].body->Text_0),
        !old(host)@.api_up ==> (r matches Err(e) && e is Connection) && final(host)@
            == old(host)@,
{
    let s = match one_frame_response(host, "mode", 1) {
        Ok(s) => s,
        Err(e) => {
            return Err(e);
        },
    };
    match parse_u64(s.as_str()) {
        Some(v) => {
            if v <= 65535 {
                Ok(v as u16)
            } else {
                Err(Error::Parse(s))
            }
        },
        None => Err(Error::Parse(s)),
    }
}

/// Reads the reply of `file::get_owner`: the four ownership frames in
/// their declared order; a non-numeric id is a parse error.
pub fn owner_response(host: &mut Host) -> (r: Result<FileOwner, Error>)
    ensures
        same_connection(old(host)@, final(host)@),
        old(host)@.api_up && spec_owner_reply(old(host)@.inbox) is Some ==> (r matches Ok(
            o,
        ) && o@ == spec_owner_reply(old(host)@.inbox)->Some_0) && final(host)@.inbox
            == old(host)@.inbox.skip(5),
        r is Ok ==> old(host)@.api_up && spec_owner_reply(old(host)@.inbox) is Some && (
        r matches Ok(o) && o@ == spec_owner_reply(old(host)@.inbox)->Some_0),
        old(host)@.api_up && old(host)@.inbox.len() > 1 && old(host)@.inbox[0]
            == text_frame("Err"@, true) && old(host)@.inbox[1].body is Text ==> (r matches
        Err(Error::Agent(m)) && m@ == old(host)@.inbox[1].body->Text_0),
        !old(host)@.api_up ==> (r matches Err(e) && e is Connection) && final(host)@
            == old(host)@,
{
    match host.recv_header() {
        Ok(()) => {},
        Err(e) => {
            return Err(e);
        },
    }
    let ghost s1 = host@;
    proof {
        if s1.inbox.len() > 0 {
            assert(s1.inbox[0] == old(host)@.inbox[1]);
            assert(s1.inbox.drop_first() =~= old(host)@.inbox.skip(2));
        }
    }
    let user_name = match host.expect_recv("user_name", 1) {
        Ok(s) => s,
        Err(e) => {
            return Err(e);
        },
    };
    let ghost s2 = host@;
    proof {
        if s2.inbox.len() > 0 {
            assert(s2.inbox[0] == old(host)@.inbox[2]);
            assert(s2.inbox.drop_first() =~= old(host)@.inbox.skip(3));
        }
    }
    let uid_text = match host.expect_recv("user_uid", 2) {
        Ok(s) => s,
        Err(e) => {
            return Err(e);
        },
    };
    let user_uid = match parse_u64(uid_text.as_str()) {
        Some(v) => v,
        None => {
            return Err(Error::Parse(uid_text));
        },
    };
    let ghost s3 = host@;
    proof {
        if s3.inbox.len() > 0 {
            assert(s3.inbox[0] == old(host)@.inbox[3]);
            assert(s3.inbox.drop_first() =~= old(host)@.inbox.skip(4));
        }
    }
    let group_name = match host.expect_recv("group_name", 3) {
        Ok(s) => s,
        Err(e) => {
            return Err(e);
        },
    };
    let ghost s4 = host@;
    proof {
        if s4.inbox.len() > 0 {
            assert(s4.inbox[0] == old(host)@.inbox[4]);
            assert(s4.inbox.drop_first() =~= old(host)@.inbox.skip(5));
        }
    }
    let gid_text = match host.expect_recv("group_gid", 4) {
        Ok(s) => s,
        Err(e) => {
            return Err(e);
        },
    };
    let group_gid = match parse_u64(gid_text.as_str()) {
        Some(v) => v,
        None => {
            return Err(Error::Parse(gid_text));
        },
    };
    Ok(FileOwner { user_name, user_uid, group_name, group_gid })
}

/// Reads the reply of a command-style endpoint: exit code (a signed
/// decimal that must fit an `i32`), stdout, stderr. A non-numeric exit
/// code is a parse error.
pub fn command_result_response(host: &mut Host) -> (r: Result<CommandResult, Error>)
    ensures
        same_connection(old(host)@, final(host)@),
        old(host)@.api_up && spec_command_reply(old(host)@.inbox) is Some ==> (r matches
        Ok(c) && c@ == spec_command_reply(old(host)@.inbox)->Some_0) && final(host)@.inbox
            == old(host)@.inbox.skip(4),
        r is Ok ==> old(host)@.api_up && spec_command_reply(old(host)@.inbox) is Some && (
        r matches Ok(c) && c@ == spec_command_reply(old(host)@.inbox)->Some_0),
        old(host)@.api_up && old(host)@.inbox.len() > 1 && old(host)@.inbox[0]
            == text_frame("Err"@, true) && old(host)@.inbox[1].body is Text ==> (r matches
        Err(Error::Agent(m)) && m@ == old(host)@.inbox[1].body->Text_0),
        !old(host)@.api_up ==> (r matches Err(e) && e is Connection) && final(host)@
            == old(host)@,
{
    match host.recv_header() {
        Ok(()) => {},
        Err(e) => {
            return Err(e);
        },
    }
    let ghost s1 = host@;
    proof {
        if s1.inbox.len() > 0 {
            assert(s1.inbox[0] == old(host)@.inbox[1]);
            assert(s1.inbox.drop_first() =~= old(host)@.inbox.skip(2));
        }
    }
    let exit_frame = match host.expect_recvmsg("exit_code", 1) {
        Ok(d) => d,
        Err(e) => {
            return Err(e);
        },
    };
    let exit_code = match exit_frame {
        FrameData::Text(t) => match parse_i32(t.as_str()) {
            Some(v) => v,
            None => {
                return Err(Error::Parse(t));
            },
        },
        FrameData::Bin(_) => {
            return Err(Error::Parse("expected a text frame".to_owned()));
        },
    };
    let ghost s2 = host@;
    proof {
        if s2.inbox.len() > 0 {
            assert(s2.inbox[0] == old(host)@.inbox[2]);
            assert(s2.inbox.drop_first() =~= old(host)@.inbox.skip(3));
        }
    }
    let stdout = match host.expect_recv("stdout", 2) {
        Ok(s) => s,
        Err(e) => {
            return Err(e);
        },
    };
    let ghost s3 = host@;
    proof {
        if s3.inbox.len() > 0 {
            assert(s3.inbox[0] == old(host)@.inbox[3]);
            assert(s3.inbox.drop_first() =~= old(host)@.inbox.skip(4));
        }
    }
    let stderr = match host.expect_recv("stderr", 3) {
        Ok(s) => s,
        Err(e) => {
            return Err(e);
        },
    };
    Ok(CommandResult { exit_code, stdout, stderr })
}

/// Reads the reply of `package::default_provider` and resolves the
/// identifier the agent returned; an unknown identifier is a parse error.
pub fn default_provider_response(host: &mut Host) -> (r: Result<Providers, Error>)
    ensures
        same_connection(old(host)@, final(host)@),
        old(host)@.api_up && spec_string_reply(old(host)@.inbox) is Some
            && Providers::spec_of_name(spec_string_reply(old(host)@.inbox)->Some_0)
            is Some ==> (r matches Ok(p) && Some(p) == Providers::spec_of_name(
            spec_string_reply(old(host)@.inbox)->Some_0,
        )) && final(host)@.inbox == old(host)@.inbox.skip(2),
        r is Ok ==> old(host)@.api_up && spec_string_reply(old(host)@.inbox) is Some && (
        r matches Ok(p) && Some(p) == Providers::spec_of_name(
            spec_string_reply(old(host)@.inbox)->Some_0,
        )),
        old(host)@.api_up && old(host)@.inbox.len() > 1 && old(host)@.inbox[0]
            == text_frame("Err"@, true) && old(host)@.inbox[1].body is Text ==> (r matches
        Err(Error::Agent(m)) && m@ == old(host)@.inbox[1].body->Text_0),
        !old(host)@.api_up ==> (r matches Err(e) && e is Connection) && final(host)@
            == old(host)@,
{
    let s = match one_frame_response(host, "provider", 1) {
        Ok(s) => s,
        Err(e) => {
            return Err(e);
        },
    };
    match Providers::from_name(s.as_str()) {
        Some(p) => Ok(p),
        None => Err(Error::Parse(s)),
    }
}

/// Queues the `command::exec` request: the endpoint frame, then the
/// command text.
pub fn exec_request(host: &mut Host, cmd: &str) -> (r: Result<(), Error>)
    ensures
        old(host)@.api_up ==> r is Ok && final(host)@ == (HostV {
            outbox: old(host)@.outbox + spec_request("command::exec"@, seq![cmd@]),
            ..old(host)@
        }),
        !old(host)@.api_up ==> (r matches Err(e) && e is Connection) && final(host)@
            == old(host)@,
{
    request1(host, "command::exec", cmd)
}

/// Queues the `file::is_file` request.
pub fn file_is_file_request(host: &mut Host, path: &str) -> (r: Result<(), Error>)
    ensures
        old(host)@.api_up ==> r is Ok && final(host)@ == (HostV {
            outbox: old(host)@.outbox + spec_request("file::is_file"@, seq![path@]),
            ..old(host)@
        }),
        !old(host)@.api_up ==> (r matches Err(e) && e is Connection) && final(host)@
            == old(host)@,
{
    request1(host, "file::is_file", path)
}

/// Queues the `file::exists` request.
pub fn file_exists_request(host: &mut Host, path: &str) -> (r: Result<(), Error>)
    ensures
        old(host)@.api_up ==> r is Ok && final(host)@ == (HostV {
            outbox: old(host)@.outbox + spec_request("file::exists"@, seq![path@]),
            ..old(host)@
        }),
        !old(host)@.api_up ==> (r matches Err(e) && e is Connection) && final(host)@
            == old(host)@,
{
    request1(host, "file::exists", path)
}

/// Queues the `file::delete` request.
pub fn file_delete_request(host: &mut Host, path: &str) -> (r: Result<(), Error>)
    ensures
        old(host)@.api_up ==> r is Ok && final(host)@ == (HostV {
            outbox: old(host)@.outbox + spec_request("file::delete"@, seq![path@]),
            ..old(host)@
        }),
        !old(host)@.api_up ==> (r matches Err(e) && e is Connection) && final(host)@
            == old(host)@,
{
    request1(host, "file::delete", path)
}

/// Queues the `file::mv` request: source path, then destination path.
pub fn file_mv_request(host: &mut Host, path: &str, new_path: &str) -> (r: Result<(), Error>)
    ensures
        old(host)@.api_up ==> r is Ok && final(host)@ == (HostV {
            outbox: old(host)@.outbox + spec_request("file::mv"@, seq![path@, new_path@]),
            ..old(host)@
        }),
        !old(host)@.api_up ==> (r matches Err(e) && e is Connection) && final(host)@
            == old(host)@,
{
    request2(host, "file::mv", path, new_path)
}

/// Queues the `file::copy` request: source path, then destination path.
pub fn file_copy_request(host: &mut Host, path: &str, new_path: &str) -> (r: Result<
    (),
    Error,
>)
    ensures
        old(host)@.api_up ==> r is Ok && final(host)@ == (HostV {
            outbox: old(host)@.outbox + spec_request("file::copy"@, seq![path@, new_path@]),
            ..old(host)@
        }),
        !old(host)@.api_up ==> (r matches Err(e) && e is Connection) && final(host)@
            == old(host)@,
{
    request2(host, "file::copy", path, new_path)
}

/// Queues the `file::get_owner` request.
pub fn file_get_owner_request(host: &mut Host, path: &str) -> (r: Result<(), Error>)
    ensures
        old(host)@.api_up ==> r is Ok && final(host)@ == (HostV {
            outbox: old(host)@.outbox + spec_request("file::get_owner"@, seq![path@]),
            ..old(host)@
        }),
        !old(host)@.api_up ==> (r matches Err(e) && e is Connection) && final(host)@
            == old(host)@,
{
    request1(host, "file::get_owner", path)
}

/// Queues the `file::set_owner` request: path, user name, group name.
pub fn file_set_owner_request(host: &mut Host, path: &str, user: &str, group: &str) -> (r:
    Result<(), Error>)
    ensures
        old(host)@.api_up ==> r is Ok && final(host)@ == (HostV {
            outbox: old(host)@.outbox + spec_request(
                "file::set_owner"@,
                seq![path@, user@, group@],
            ),
            ..old(host)@
        }),
        !old(host)@.api_up ==> (r matches Err(e) && e is Connection) && final(host)@
            == old(host)@,
{
    request3(host, "file::set_owner", path, user, group)
}

/// Queues the `file::get_mode` request.
pub fn file_get_mode_request(host: &mut Host, path: &str) -> (r: Result<(), Error>)
    ensures
        old(host)@.api_up ==> r is Ok && final(host)@ == (HostV {
            outbox: old(host)@.outbox + spec_request("file::get_mode"@, seq![path@]),
            ..old(host)@
        }),
        !old(host)@.api_up ==> (r matches Err(e) && e is Connection) && final(host)@
            == old(host)@,
{
    request1(host, "file::get_mode", path)
}

/// Queues the `file::set_mode` request: path, then the mode in decimal.
pub fn file_set_mode_request(host: &mut Host, path: &str, mode: u16) -> (r: Result<
    (),
    Error,
>)
    ensures
        old(host)@.api_up ==> r is Ok && final(host)@ == (HostV {
            outbox: old(host)@.outbox + spec_request(
                "file::set_mode"@,
                seq![path@, dec_rep(mode as nat)],
            ),
            ..old(host)@
        }),
        !old(host)@.api_up ==> (r matches Err(e) && e is Connection) && final(host)@
            == old(host)@,
{
    let mode_text = u64_to_dec(mode as u64);
    request2(host, "file::set_mode", path, mode_text.as_str())
}

/// Queues the `package::default_provider` request; it takes no argument.
pub fn default_provider_request(host: &mut Host) -> (r: Result<(), Error>)
    ensures
        old(host)@.api_up ==> r is Ok && final(host)@ == (HostV {
            outbox: old(host)@.outbox + spec_request(
                "package::default_provider"@,
                Seq::<Seq<char>>::empty(),
            ),
            ..old(host)@
        }),
        !old(host)@.api_up ==> (r matches Err(e) && e is Connection) && final(host)@
            == old(host)@,
{
    request0(host, "package::default_provider")
}

/// Queues the `telemetry::cpu` request; the reply is one serialized frame,
/// read with `one_frame_response`.
pub fn telemetry_cpu_request(host: &mut Host) -> (r: Result<(), Error>)
    ensures
        old(host)@.api_up ==> r is Ok && final(host)@ == (HostV {
            outbox: old(host)@.outbox + spec_request(
                "telemetry::cpu"@,
                Seq::<Seq<char>>::empty(),
            ),
            ..old(host)@
        }),
        !old(host)@.api_up ==> (r matches Err(e) && e is Connection) && final(host)@
            == old(host)@,
{
    request0(host, "telemetry::cpu")
}

/// Queues the `telemetry::fs` request.
pub fn telemetry_fs_request(host: &mut Host) -> (r: Result<(), Error>)
    ensures
        old(host)@.api_up ==> r is Ok && final(host)@ == (HostV {
            outbox: old(host)@.outbox + spec_request(
                "telemetry::fs"@,
                Seq::<Seq<char>>::empty(),
            ),
            ..old(host)@
        }),
        !old(host)@.api_up ==> (r matches Err(e) && e is Connection) && final(host)@
            == old(host)@,
{
    request0(host, "telemetry::fs")
}

/// Queues the `telemetry::net` request.
pub fn telemetry_net_request(host: &mut Host) -> (r: Result<(), Error>)
    ensures
        old(host)@.api_up ==> r is Ok && final(host)@ == (HostV {
            outbox: old(host)@.outbox + spec_request(
                "telemetry::net"@,
                Seq::<Seq<char>>::empty(),
            ),
            ..old(host)@
        }),
        !old(host)@.api_up ==> (r matches Err(e) && e is Connection) && final(host)@
            == old(host)@,
{
    request0(host, "telemetry::net")
}

/// Queues the `telemetry::os` request.
pub fn telemetry_os_request(host: &mut Host) -> (r: Result<(), Error>)
    ensures
        old(host)@.api_up ==> r is Ok && final(host)@ == (HostV {
            outbox: old(host)@.outbox + spec_request(
                "telemetry::os"@,
                Seq::<Seq<char>>::empty(),
            ),
            ..old(host)@
        }),
        !old(host)@.api_up ==> (r matches Err(e) && e is Connection) && final(host)@
            == old(host)@,
{
    request0(host, "telemetry::os")
}

/// Reads the reply of a telemetry endpoint: one frame holding the
/// serialized snapshot, passed through unchanged for a decoder outside
/// this crate.
pub fn telemetry_response(host: &mut Host, name: &str) -> (r: Result<String, Error>)
    ensures
        same_connection(old(host)@, final(host)@),
        old(host)@.api_up && spec_string_reply(old(host)@.inbox) is Some ==> (r matches Ok(
            s,
        ) && s@ == spec_string_reply(old(host)@.inbox)->Some_0) && final(host)@.inbox
            == old(host)@.inbox.skip(2),
        r is Ok ==> old(host)@.api_up && spec_string_reply(old(host)@.inbox) is Some && (
        r matches Ok(s) && s@ == spec_string_reply(old(host)@.inbox)->Some_0),
        old(host)@.api_up && old(host)@.inbox.len() > 1 && old(host)@.inbox[0]
            == text_frame("Err"@, true) && old(host)@.inbox[1].body is Text ==> (r matches
        Err(Error::Agent(m)) && m@ == old(host)@.inbox[1].body->Text_0),
        !old(host)@.api_up ==> (r matches Err(e) && e is Connection) && final(host)@
            == old(host)@,
{
    one_frame_response(host, name, 1)
}

} // verus!
