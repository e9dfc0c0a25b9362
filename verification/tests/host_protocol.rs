//! The connection model end to end: queued request frames, delivered
//! replies, and the receive primitives.

use inapi::error::Error;
use inapi::file::FileOpts;
use inapi::frames::{Frame, FrameData};
use inapi::host::Host;
use inapi::remote::command_result_response;
use inapi::service::Service;

fn text_of(f: &Frame) -> String {
    match &f.data {
        FrameData::Text(s) => s.clone(),
        FrameData::Bin(_) => panic!("expected a text frame"),
    }
}

#[test]
fn test_host_connect() {
    let mut host = Host::new();
    assert!(host.connect("127.0.0.1", 7101, 7102, 7103).is_ok());
}

#[test]
fn test_host_send() {
    let mut host = Host::test_new(None, true, false, None);
    host.send("moo", true).unwrap();
    host.send("cow", false).unwrap();

    let out = host.take_outbox();
    assert_eq!(out.len(), 2);
    assert_eq!(text_of(&out[0]), "moo");
    assert!(out[0].more);
    assert_eq!(text_of(&out[1]), "cow");
    assert!(!out[1].more);
}

#[test]
fn test_send_file_noopts() {
    let mut host = Host::test_new(Some("localhost".to_string()), true, false, Some(7103));
    host.send_file("file::upload", "/tmp/moo", 123, 0, 0, None).unwrap();

    let out = host.take_outbox();
    assert_eq!(out.len(), 5);
    assert_eq!(text_of(&out[0]), "file::upload");
    assert!(out[0].more);
    assert_eq!(text_of(&out[1]), "/tmp/moo");
    assert!(out[1].more);
    assert_eq!(text_of(&out[2]), "123");
    assert!(out[2].more);
    assert_eq!(text_of(&out[3]), "0");
    assert!(out[3].more);
    assert_eq!(text_of(&out[4]), "0");
    assert!(!out[4].more);
}

#[test]
fn test_send_file_opts() {
    let mut host = Host::test_new(Some("localhost".to_string()), true, false, Some(7103));

    let opts = vec![FileOpts::BackupExistingFile("_moo".to_string())];

    host.send_file("file::upload", "/tmp/moo", 123, 0, 0, Some(&opts)).unwrap();

    let out = host.take_outbox();
    assert_eq!(out.len(), 7);
    assert_eq!(text_of(&out[0]), "file::upload");
    assert!(out[0].more);
    assert_eq!(text_of(&out[1]), "/tmp/moo");
    assert!(out[1].more);
    assert_eq!(text_of(&out[2]), "123");
    assert!(out[2].more);
    assert_eq!(text_of(&out[3]), "0");
    assert!(out[3].more);
    assert_eq!(text_of(&out[4]), "0");
    assert!(out[4].more);
    assert_eq!(text_of(&out[5]), "OPT_BackupExistingFile");
    assert!(out[5].more);
    assert_eq!(text_of(&out[6]), "_moo");
    assert!(!out[6].more);
}

#[test]
fn test_host_send_chunk() {
    let mut host = Host::test_new(None, false, true, None);

    let bytes = [1, 2, 3];

    host.send_chunk("/tmp/moo", 0, &bytes).unwrap();

    let out = host.take_upload_outbox();
    assert_eq!(out.len(), 3);
    assert_eq!(text_of(&out[0]), "/tmp/moo");
    assert!(out[0].more);
    assert_eq!(text_of(&out[1]), "0");
    assert!(out[1].more);
    match &out[2].data {
        FrameData::Bin(b) => assert_eq!(b, &vec![1, 2, 3]),
        FrameData::Text(_) => panic!("expected a binary frame"),
    }
    assert!(!out[2].more);
}

#[test]
fn test_host_recv_header_ok() {
    let mut host = Host::test_new(None, true, false, None);
    host.push_response(vec![Frame::text("Ok", false)]);
    assert!(host.recv_header().is_ok());
}

#[test]
fn test_host_recv_header_err() {
    let mut host = Host::test_new(None, true, false, None);
    host.push_response(vec![Frame::text("Err", false)]);
    assert!(host.recv_header().is_err());
}

#[test]
fn test_host_expect_recv_ok() {
    let mut host = Host::test_new(None, true, false, None);
    host.push_response(vec![
        Frame::text("Ok", true),
        Frame::text("Frame 0", true),
        Frame::text("Frame 1", false),
    ]);
    host.recv_header().unwrap();
    assert_eq!(host.expect_recv("Frame 0", 0).unwrap(), "Frame 0");
    assert_eq!(host.expect_recv("Frame 1", 1).unwrap(), "Frame 1");
}

#[test]
fn test_host_expect_recv_err() {
    let mut host = Host::test_new(None, true, false, None);
    host.push_response(vec![Frame::text("Ok", false)]);
    host.recv_header().unwrap();
    assert!(host.expect_recv("Frame 0", 0).is_err());
}

#[test]
fn test_host_expect_recvmsg_ok() {
    let mut host = Host::test_new(None, true, false, None);
    host.push_response(vec![
        Frame::text("Ok", true),
        Frame::text("Frame 0", true),
        Frame::text("Frame 1", false),
    ]);
    host.recv_header().unwrap();
    match host.expect_recvmsg("Frame 0", 0).unwrap() {
        FrameData::Text(s) => assert_eq!(s, "Frame 0"),
        FrameData::Bin(_) => panic!("expected a text frame"),
    }
    match host.expect_recvmsg("Frame 1", 1).unwrap() {
        FrameData::Text(s) => assert_eq!(s, "Frame 1"),
        FrameData::Bin(_) => panic!("expected a text frame"),
    }
}

#[test]
fn test_host_expect_recvmsg_err() {
    let mut host = Host::test_new(None, true, false, None);
    host.push_response(vec![Frame::text("Ok", false)]);
    host.recv_header().unwrap();
    assert!(host.expect_recvmsg("Frame 0", 0).is_err());
}

#[test]
fn test_service_action() {
    let mut host = Host::test_new(None, true, false, None);

    let service = Service::new("nginx");
    service.action_request(&mut host, "start").unwrap();

    let out = host.take_outbox();
    assert_eq!(out.len(), 3);
    assert_eq!(text_of(&out[0]), "service::action");
    assert!(out[0].more);
    assert_eq!(text_of(&out[1]), "nginx");
    assert!(out[1].more);
    assert_eq!(text_of(&out[2]), "start");
    assert!(!out[2].more);

    host.push_response(vec![
        Frame::text("Ok", true),
        Frame::text("0", true),
        Frame::text("Service started...", true),
        Frame::text("", false),
    ]);
    let result = command_result_response(&mut host).unwrap();

    assert_eq!(result.exit_code, 0);
    assert_eq!(result.stdout, "Service started...");
    assert_eq!(result.stderr, "");
}

#[test]
fn missing_frame_names_field_and_position() {
    let mut host = Host::test_new(None, true, false, None);
    host.push_response(vec![Frame::text("Ok", false)]);
    host.recv_header().unwrap();
    match host.expect_recv("stdout", 2) {
        Err(Error::Frame(mf)) => {
            assert_eq!(mf.name, "stdout");
            assert_eq!(mf.order, 2);
        },
        _ => panic!("expected a missing-frame error"),
    }
}

#[test]
fn agent_error_carries_message_verbatim() {
    let mut host = Host::test_new(None, true, false, None);
    host.push_response(vec![
        Frame::text("Err", true),
        Frame::text("could not stat the file", false),
    ]);
    match host.recv_header() {
        Err(Error::Agent(m)) => assert_eq!(m, "could not stat the file"),
        _ => panic!("expected an agent error"),
    }
}

#[test]
fn unknown_header_is_a_protocol_violation() {
    let mut host = Host::test_new(None, true, false, None);
    host.push_response(vec![Frame::text("Maybe", false)]);
    match host.recv_header() {
        Err(Error::Protocol(h)) => assert_eq!(h, "Maybe"),
        _ => panic!("expected a protocol violation"),
    }
}

#[test]
fn operations_before_connect_fail_with_connection_error() {
    let mut host = Host::new();
    assert!(matches!(host.send("x", false), Err(Error::Connection(_))));
    assert!(matches!(host.send_chunk("p", 0, &[1]), Err(Error::Connection(_))));
    assert!(matches!(
        host.send_file("file::upload", "p", 1, 2, 3, None),
        Err(Error::Connection(_))
    ));
    assert!(matches!(host.recv_header(), Err(Error::Connection(_))));
    assert!(matches!(host.expect_recv("a", 0), Err(Error::Connection(_))));
}

#[test]
fn close_discards_channel_state() {
    let mut host = Host::new();
    host.connect("127.0.0.1", 7101, 7102, 7103).unwrap();
    host.send("pending", false).unwrap();
    host.close().unwrap();
    assert!(host.send("x", false).is_err());
    assert_eq!(host.take_outbox().len(), 0);
}

#[test]
fn reconnect_replaces_queued_state() {
    let mut host = Host::new();
    host.connect("a.example", 1, 2, 3).unwrap();
    host.send("stale", false).unwrap();
    host.connect("b.example", 4, 5, 6).unwrap();
    assert_eq!(host.take_outbox().len(), 0);
}

#[test]
fn close_is_idempotent() {
    let mut host = Host::new();
    host.connect("127.0.0.1", 7101, 7102, 7103).unwrap();
    assert!(host.close().is_ok());
    assert!(host.close().is_ok());
}

#[test]
fn empty_option_list_keeps_continuation_flag() {
    // An option list infers its frame count from continuation-flag
    // chaining alone; a present-but-empty list leaves the chunk-count
    // frame announcing a continuation that nothing follows.
    let mut host = Host::test_new(Some("localhost".to_string()), true, false, Some(7103));
    let opts: Vec<FileOpts> = Vec::new();
    host.send_file("file::upload", "/tmp/moo", 123, 0, 0, Some(&opts)).unwrap();
    let out = host.take_outbox();
    assert_eq!(out.len(), 5);
    assert!(out[4].more);
}
