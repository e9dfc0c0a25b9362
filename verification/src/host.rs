use vstd::prelude::*;
use crate::error::{Error, MissingFrame};
use crate::file::{FileOpts, FileOptsV};
use crate::frames::{
    frame_views, spec_chunk_frames, spec_file_request, spec_opt_frames, spec_opts_frames,
    text_frame, Frame, FrameBody, FrameData, FrameModel,
};
use crate::num::u64_to_dec;

verus! {

/// The mathematical image of a `Host`: its connection state, and for each
/// channel the frames queued outward and the frames delivered inward.
#[verifier::ext_equal]
pub struct HostV {
    pub hostname: Option<Seq<char>>,
    pub api_up: bool,
    pub upload_up: bool,
    pub api_port: Option<u32>,
    pub upload_port: Option<u32>,
    pub download_port: Option<u32>,
    /// Frames queued for the request/reply channel, oldest first.
    pub outbox: Seq<FrameModel>,
    /// Frames queued for the upload (publish) channel, oldest first.
    pub upload_outbox: Seq<FrameModel>,
    /// Frames delivered from the request/reply channel and not yet read.
    pub inbox: Seq<FrameModel>,
    /// The continuation flag of the frame read most recently.
    pub rcvmore: bool,
}

/// Representation of a managed host.
///
/// The host is a pure model of the connection: protocol operations queue
/// frames in the outboxes and read frames from the inbox. A transport layer
/// outside this crate moves whole messages between these queues and real
/// sockets; it alone decides how bytes travel.
pub struct Host {
    hostname: Option<String>,
    api_up: bool,
    upload_up: bool,
    api_port: Option<u32>,
    upload_port: Option<u32>,
    download_port: Option<u32>,
    outbox: Vec<Frame>,
    upload_outbox: Vec<Frame>,
    inbox: Vec<Frame>,
    rcvmore: bool,
}

impl View for Host {
    type V = HostV;

    closed spec fn view(&self) -> HostV {
        HostV {
            hostname: match self.hostname {
                Some(h) => Some(h@),
                None => None,
            },
            api_up: self.api_up,
            upload_up: self.upload_up,
            api_port: self.api_port,
            upload_port: self.upload_port,
            download_port: self.download_port,
            outbox: frame_views(self.outbox@),
            upload_outbox: frame_views(self.upload_outbox@),
            inbox: frame_views(self.inbox@),
            rcvmore: self.rcvmore,
        }
    }
}

/// The option list of a file transfer, as mathematics.
pub open spec fn spec_opts_of(options: Option<&Vec<FileOpts>>) -> Option<Seq<FileOptsV>> {
    match options {
        Some(v) => Some(v@.map_values(|o: FileOpts| o@)),
        None => None,
    }
}

fn copy_bytes(b: &[u8]) -> (r: Vec<u8>)
    ensures
        r@ == b@,
{
    let mut v: Vec<u8> = Vec::new();
    let mut i: usize = 0;
    while i < b.len()
        invariant
            i <= b.len(),
            v@ == b@.subrange(0, i as int),
        decreases b.len() - i,
    {
        v.push(b[i]);
        assert(v@ =~= b@.subrange(0, i as int + 1));
        i = i + 1;
    }
    assert(v@ =~= b@);
    v
}

proof fn lemma_views_push(frames: Seq<Frame>, f: Frame)
    ensures
        frame_views(frames.push(f)) =~= frame_views(frames).push(f@),
{
}

proof fn lemma_views_concat(a: Seq<Frame>, b: Seq<Frame>)
    ensures
        frame_views(a + b) =~= frame_views(a) + frame_views(b),
{
}

impl Host {
    /// Creates a host in the uninitialized state: no hostname, no channel
    /// up, nothing queued.
    pub fn new() -> (r: Host)
        ensures
            r@ == (HostV {
                hostname: None,
                api_up: false,
                upload_up: false,
                api_port: None,
                upload_port: None,
                download_port: None,
                outbox: Seq::<FrameModel>::empty(),
                upload_outbox: Seq::<FrameModel>::empty(),
                inbox: Seq::<FrameModel>::empty(),
                rcvmore: false,
            }),
    {
        let r = Host {
            hostname: None,
            api_up: false,
            upload_up: false,
            api_port: None,
            upload_port: None,
            download_port: None,
            outbox: Vec::new(),
            upload_outbox: Vec::new(),
            inbox: Vec::new(),
            rcvmore: false,
        };
        assert(r@ =~= (HostV {
            hostname: None,
            api_up: false,
            upload_up: false,
            api_port: None,
            upload_port: None,
            download_port: None,
            outbox: Seq::<FrameModel>::empty(),
            upload_outbox: Seq::<FrameModel>::empty(),
            inbox: Seq::<FrameModel>::empty(),
            rcvmore: false,
        }));
        r
    }

    /// Creates a host in a chosen connection state, for exercising the
    /// protocol without a transport.
    pub fn test_new(
        hostname: Option<String>,
        api_up: bool,
        upload_up: bool,
        download_port: Option<u32>,
    ) -> (r: Host)
        ensures
            r@ == (HostV {
                hostname: match hostname {
                    Some(h) => Some(h@),
                    None => None,
                },
                api_up,
                upload_up,
                api_port: None,
                upload_port: None,
                download_port,
                outbox: Seq::<FrameModel>::empty(),
                upload_outbox: Seq::<FrameModel>::empty(),
                inbox: Seq::<FrameModel>::empty(),
                rcvmore: false,
            }),
    {
        let ghost hv: Option<Seq<char>> = if hostname is Some {
            Some(hostname->Some_0@)
        } else {
            None
        };
        let r = Host {
            hostname,
            api_up,
            upload_up,
            api_port: None,
            upload_port: None,
            download_port,
            outbox: Vec::new(),
            upload_outbox: Vec::new(),
            inbox: Vec::new(),
            rcvmore: false,
        };
        assert(r@ =~= (HostV {
            hostname: hv,
            api_up,
            upload_up,
            api_port: None,
            upload_port: None,
            download_port,
            outbox: Seq::<FrameModel>::empty(),
            upload_outbox: Seq::<FrameModel>::empty(),
            inbox: Seq::<FrameModel>::empty(),
            rcvmore: false,
        }));
        r
    }

    /// Records a connection to the managed host: both channels come up and
    /// any prior channel state is replaced, never added to. Calling again
    /// replaces the previous connection.
    pub fn connect(
        &mut self,
        hostname: &str,
        api_port: u32,
        upload_port: u32,
        download_port: u32,
    ) -> (r: Result<(), Error>)
        ensures
            r is Ok,
            final(self)@ == (HostV {
                hostname: Some(hostname@),
                api_up: true,
                upload_up: true,
                api_port: Some(api_port),
                upload_port: Some(upload_port),
                download_port: Some(download_port),
                outbox: Seq::<FrameModel>::empty(),
                upload_outbox: Seq::<FrameModel>::empty(),
                inbox: Seq::<FrameModel>::empty(),
                rcvmore: false,
            }),
    {
        self.hostname = Some(hostname.to_owned());
        self.api_up = true;
        self.upload_up = true;
        self.api_port = Some(api_port);
        self.upload_port = Some(upload_port);
        self.download_port = Some(download_port);
        self.outbox = Vec::new();
        self.upload_outbox = Vec::new();
        self.inbox = Vec::new();
        self.rcvmore = false;
        assert(self@ =~= (HostV {
            hostname: Some(hostname@),
            api_up: true,
            upload_up: true,
            api_port: Some(api_port),
            upload_port: Some(upload_port),
            download_port: Some(download_port),
            outbox: Seq::<FrameModel>::empty(),
            upload_outbox: Seq::<FrameModel>::empty(),
            inbox: Seq::<FrameModel>::empty(),
            rcvmore: false,
        }));
        Ok(())
    }

    /// Takes both channels down and discards every queued frame. Idempotent;
    /// the hostname and the recorded ports are kept.
    pub fn close(&mut self) -> (r: Result<(), Error>)
        ensures
            r is Ok,
            final(self)@ == (HostV {
                api_up: false,
                upload_up: false,
                outbox: Seq::<FrameModel>::empty(),
                upload_outbox: Seq::<FrameModel>::empty(),
                inbox: Seq::<FrameModel>::empty(),
                rcvmore: false,
                ..old(self)@
            }),
    {
        self.api_up = false;
        self.upload_up = false;
        self.outbox = Vec::new();
        self.upload_outbox = Vec::new();
        self.inbox = Vec::new();
        self.rcvmore = false;
        assert(self@ =~= (HostV {
            api_up: false,
            upload_up: false,
            outbox: Seq::<FrameModel>::empty(),
            upload_outbox: Seq::<FrameModel>::empty(),
            inbox: Seq::<FrameModel>::empty(),
            rcvmore: false,
            ..old(self)@
        }));
        Ok(())
    }

    /// Queues one frame on the request/reply channel, with its continuation
    /// flag. The queued frame carries `msg` byte for byte. Fails with a
    /// connection error when the channel is not up.
    pub fn send(&mut self, msg: &str, more: bool) -> (r: Result<(), Error>)
        ensures
            old(self)@.api_up ==> r is Ok && final(self)@ == (HostV {
                outbox: old(self)@.outbox.push(text_frame(msg@, more)),
                ..old(self)@
            }),
            !old(self)@.api_up ==> (r matches Err(e) && e is Connection) && final(self)@
                == old(self)@,
    {
        if !self.api_up {
            return Err(Error::Connection("host is not connected".to_owned()));
        }
        let f = Frame::text(msg, more);
        proof {
            lemma_views_push(self.outbox@, f);
        }
        self.outbox.push(f);
        assert(self@ =~= (HostV {
            outbox: old(self)@.outbox.push(text_frame(msg@, more)),
            ..old(self)@
        }));
        Ok(())
    }

    /// Queues the control message that declares a file transfer: endpoint,
    /// path, hash, size and chunk count in decimal, then the flattened
    /// option frames; the final frame of the whole message never carries
    /// the continuation flag. Fails with a connection error unless the
    /// request channel is up and a hostname and download port are recorded.
    pub fn send_file(
        &mut self,
        endpoint: &str,
        path: &str,
        hash: u64,
        size: u64,
        total_chunks: u64,
        options: Option<&Vec<FileOpts>>,
    ) -> (r: Result<(), Error>)
        ensures
            (old(self)@.api_up && old(self)@.hostname is Some && old(self)@.download_port
                is Some) ==> r is Ok && final(self)@ == (HostV {
                outbox: old(self)@.outbox + spec_file_request(
                    endpoint@,
                    path@,
                    hash,
                    size,
                    total_chunks,
                    spec_opts_of(options),
                ),
                ..old(self)@
            }),
            !(old(self)@.api_up && old(self)@.hostname is Some && old(self)@.download_port
                is Some) ==> (r matches Err(e) && e is Connection) && final(self)@ == old(self)@,
    {
        if !self.api_up || self.hostname.is_none() || self.download_port.is_none() {
            return Err(Error::Connection("host is not connected".to_owned()));
        }
        let ghost target = old(self)@.outbox + spec_file_request(
            endpoint@,
            path@,
            hash,
            size,
            total_chunks,
            spec_opts_of(options),
        );
        let has_options = options.is_some();
        let res = self.send(endpoint, true);
        assert(res is Ok);
        let res = self.send(path, true);
        assert(res is Ok);
        let hash_str = u64_to_dec(hash);
        let res = self.send(hash_str.as_str(), true);
        assert(res is Ok);
        let size_str = u64_to_dec(size);
        let res = self.send(size_str.as_str(), true);
        assert(res is Ok);
        let chunks_str = u64_to_dec(total_chunks);
        let res = self.send(chunks_str.as_str(), has_options);
        assert(res is Ok);
        match options {
            None => {
                assert(self@.outbox =~= target);
                assert(self@ =~= (HostV { outbox: target, ..old(self)@ }));
            },
            Some(opts) => {
                let ghost optsv = opts@.map_values(|o: FileOpts| o@);
                assert(self@.outbox + spec_opts_frames(optsv.skip(0)) =~= target) by {
                    assert(optsv.skip(0) =~= optsv);
                };
                let n = opts.len();
                let mut i: usize = 0;
                while i < n
                    invariant
                        n == opts.len(),
                        i <= n,
                        optsv == opts@.map_values(|o: FileOpts| o@),
                        self@.api_up,
                        self@.outbox + spec_opts_frames(optsv.skip(i as int)) == target,
                        self@ == (HostV { outbox: self@.outbox, ..old(self)@ }),
                    decreases n - i,
                {
                    let more_flag = i + 1 < n;
                    let ghost pre = self@.outbox;
                    match &opts[i] {
                        FileOpts::BackupExistingFile(suffix) => {
                            let res = self.send("OPT_BackupExistingFile", true);
                            assert(res is Ok);
                            let res = self.send(suffix.as_str(), more_flag);
                            assert(res is Ok);
                            assert(optsv[i as int] == FileOptsV::BackupExistingFile(
                                suffix@,
                            ));
                            assert(self@.outbox =~= pre + spec_opt_frames(
                                optsv[i as int],
                                more_flag,
                            ));
                        },
                    }
                    proof {
                        let s = optsv.skip(i as int);
                        assert(s[0] == optsv[i as int]);
                        assert(s.drop_first() =~= optsv.skip(i as int + 1));
                        assert(spec_opts_frames(s) == spec_opt_frames(
                            optsv[i as int],
                            i as int + 1 < optsv.len(),
                        ) + spec_opts_frames(optsv.skip(i as int + 1)));
                        assert((pre + spec_opt_frames(optsv[i as int], more_flag))
                            + spec_opts_frames(optsv.skip(i as int + 1)) =~= pre
                            + spec_opts_frames(s));
                    }
                    i = i + 1;
                }
                assert(optsv.skip(n as int) =~= Seq::<FileOptsV>::empty());
                assert(self@.outbox =~= target);
                assert(self@ =~= (HostV { outbox: target, ..old(self)@ }));
            },
        }
        Ok(())
    }

    /// Queues one chunk on the upload channel: path, zero-based index in
    /// decimal, then the raw payload with no continuation flag. Fails with
    /// a connection error when the upload channel is not up.
    pub fn send_chunk(&mut self, path: &str, index: u64, chunk: &[u8]) -> (r: Result<
        (),
        Error,
    >)
        ensures
            old(self)@.upload_up ==> r is Ok && final(self)@ == (HostV {
                upload_outbox: old(self)@.upload_outbox + spec_chunk_frames(
                    path@,
                    index,
                    chunk@,
                ),
                ..old(self)@
            }),
            !old(self)@.upload_up ==> (r matches Err(e) && e is Connection) && final(self)@
                == old(self)@,
    {
        if !self.upload_up {
            return Err(Error::Connection("host is not connected".to_owned()));
        }
        let f0 = Frame::text(path, true);
        let index_str = u64_to_dec(index);
        let f1 = Frame { data: FrameData::Text(index_str), more: true };
        let f2 = Frame::bin(copy_bytes(chunk), false);
        proof {
            lemma_views_push(self.upload_outbox@, f0);
        }
        self.upload_outbox.push(f0);
        proof {
            lemma_views_push(self.upload_outbox@, f1);
        }
        self.upload_outbox.push(f1);
        proof {
            lemma_views_push(self.upload_outbox@, f2);
        }
        self.upload_outbox.push(f2);
        assert(self@.upload_outbox =~= old(self)@.upload_outbox + spec_chunk_frames(
            path@,
            index,
            chunk@,
        ));
        assert(self@ =~= (HostV {
            upload_outbox: old(self)@.upload_outbox + spec_chunk_frames(
                path@,
                index,
                chunk@,
            ),
            ..old(self)@
        }));
        Ok(())
    }

    /// Appends one delivered message's frames to the inbox, oldest first.
    /// The transport calls this with the frames of a whole reply.
    pub fn push_response(&mut self, frames: Vec<Frame>)
        ensures
            final(self)@ == (HostV {
                inbox: old(self)@.inbox + frame_views(frames@),
                ..old(self)@
            }),
    {
        let ghost fv = frames@;
        let mut frames = frames;
        proof {
            lemma_views_concat(self.inbox@, frames@);
        }
        self.inbox.append(&mut frames);
        assert(self@ =~= (HostV {
            inbox: old(self)@.inbox + frame_views(fv),
            ..old(self)@
        }));
    }

    /// Hands the queued request/reply frames to the transport and leaves
    /// the outbox empty.
    pub fn take_outbox(&mut self) -> (r: Vec<Frame>)
        ensures
            frame_views(r@) == old(self)@.outbox,
            final(self)@ == (HostV { outbox: Seq::<FrameModel>::empty(), ..old(self)@ }),
    {
        let mut v: Vec<Frame> = Vec::new();
        core::mem::swap(&mut v, &mut self.outbox);
        assert(frame_views(Seq::<Frame>::empty()) =~= Seq::<FrameModel>::empty());
        assert(self@ =~= (HostV { outbox: Seq::<FrameModel>::empty(), ..old(self)@ }));
        v
    }

    /// Hands the queued upload frames to the transport and leaves the
    /// upload outbox empty.
    pub fn take_upload_outbox(&mut self) -> (r: Vec<Frame>)
        ensures
            frame_views(r@) == old(self)@.upload_outbox,
            final(self)@ == (HostV {
                upload_outbox: Seq::<FrameModel>::empty(),
                ..old(self)@
            }),
    {
        let mut v: Vec<Frame> = Vec::new();
        core::mem::swap(&mut v, &mut self.upload_outbox);
        assert(frame_views(Seq::<Frame>::empty()) =~= Seq::<FrameModel>::empty());
        assert(self@ =~= (HostV {
            upload_outbox: Seq::<FrameModel>::empty(),
            ..old(self)@
        }));
        v
    }

    /// The hostname recorded at connect time, if any.
    pub fn hostname(&self) -> (r: Option<String>)
        ensures
            r is Some <==> self@.hostname is Some,
            r matches Some(h) ==> h@ == self@.hostname->Some_0,
    {
        match &self.hostname {
            Some(h) => Some(h.clone()),
            None => None,
        }
    }

    /// The download port recorded at connect time, if any.
    pub fn download_port(&self) -> (r: Option<u32>)
        ensures
            r == self@.download_port,
    {
        self.download_port
    }

    /// Whether the request/reply channel is up.
    pub fn is_connected(&self) -> (r: bool)
        ensures
            r == self@.api_up,
    {
        self.api_up
    }

    /// Reads the response header. "Ok" means success; on "Err" the
    /// mandatory message frame that follows is read and returned verbatim
    /// as an agent error; any other header is a protocol-invariant
    /// violation, reported as a fatal protocol error, never coerced.
    #[verifier::rlimit(50)]
    pub fn recv_header(&mut self) -> (r: Result<(), Error>)
        ensures
            !old(self)@.api_up ==> (r matches Err(e) && e is Connection) && final(self)@
                == old(self)@,
            old(self)@.api_up && old(self)@.inbox.len() == 0 ==> (r matches Err(
                Error::Frame(mf),
            ) && mf.name@ == "header"@ && mf.order == 0) && final(self)@ == old(self)@,
            old(self)@.api_up && old(self)@.inbox.len() > 0 && old(self)@.inbox[0].body
                is Bin ==> (r matches Err(e) && e is Parse) && final(self)@ == (HostV {
                inbox: old(self)@.inbox.drop_first(),
                rcvmore: old(self)@.inbox[0].more,
                ..old(self)@
            }),
            old(self)@.api_up && old(self)@.inbox.len() > 0 && old(self)@.inbox[0].body
                == FrameBody::Text("Ok"@) ==> r is Ok && final(self)@ == (HostV {
                inbox: old(self)@.inbox.drop_first(),
                rcvmore: old(self)@.inbox[0].more,
                ..old(self)@
            }),
            old(self)@.api_up && old(self)@.inbox.len() > 0 && old(self)@.inbox[0].body
                is Text && old(self)@.inbox[0].body->Text_0 != "Ok"@ && old(
                self,
            )@.inbox[0].body->Text_0 != "Err"@ ==> (r matches Err(Error::Protocol(m))
                && m@ == old(self)@.inbox[0].body->Text_0) && final(self)@ == (HostV {
                inbox: old(self)@.inbox.drop_first(),
                rcvmore: old(self)@.inbox[0].more,
                ..old(self)@
            }),
            old(self)@.api_up && old(self)@.inbox.len() > 0 && old(self)@.inbox[0].body
                == FrameBody::Text("Err"@) && !(old(self)@.inbox[0].more && old(
                self,
            )@.inbox.len() > 1) ==> (r matches Err(Error::Frame(mf)) && mf.name@
                == "err_msg"@ && mf.order == 1) && final(self)@ == (HostV {
                inbox: old(self)@.inbox.drop_first(),
                rcvmore: old(self)@.inbox[0].more,
                ..old(self)@
            }),
            old(self)@.api_up && old(self)@.inbox.len() > 1 && old(self)@.inbox[0].body
                == FrameBody::Text("Err"@) && old(self)@.inbox[0].more && old(
                self,
            )@.inbox[1].body is Text ==> (r matches Err(Error::Agent(m)) && m@ == old(
                self,
            )@.inbox[1].body->Text_0) && final(self)@ == (HostV {
                inbox: old(self)@.inbox.skip(2),
                rcvmore: old(self)@.inbox[1].more,
                ..old(self)@
            }),
            old(self)@.api_up && old(self)@.inbox.len() > 1 && old(self)@.inbox[0].body
                == FrameBody::Text("Err"@) && old(self)@.inbox[0].more && old(
                self,
            )@.inbox[1].body is Bin ==> (r matches Err(e) && e is Parse) && final(self)@
                == (HostV {
                inbox: old(self)@.inbox.skip(2),
                rcvmore: old(self)@.inbox[1].more,
                ..old(self)@
            }),
    {
        proof {
            reveal_strlit("Ok");
            reveal_strlit("Err");
            assert("Ok"@.len() == 2);
            assert("Err"@.len() == 3);
        }
        if !self.api_up {
            return Err(Error::Connection("host is not connected".to_owned()));
        }
        if self.inbox.len() == 0 {
            return Err(Error::Frame(MissingFrame::new("header", 0)));
        }
        let f = self.inbox.remove(0);
        self.rcvmore = f.more;
        assert(self@.inbox =~= old(self)@.inbox.drop_first());
        assert(self@ =~= (HostV {
            inbox: old(self)@.inbox.drop_first(),
            rcvmore: f@.more,
            ..old(self)@
        }));
        match f.data {
            FrameData::Bin(_) => {
                return Err(Error::Parse("expected a text frame".to_owned()));
            },
            FrameData::Text(t) => {
                assert(old(self)@.inbox[0].body == FrameBody::Text(t@));
                let ok_header: String = "Ok".to_owned();
                let err_header: String = "Err".to_owned();
                if t == ok_header {
                    return Ok(());
                }
                if t == err_header {
                    let ghost mid = self@;
                    proof {
                        if mid.inbox.len() > 0 {
                            assert(mid.inbox[0] == old(self)@.inbox[1]);
                            assert(mid.inbox.drop_first() =~= old(self)@.inbox.skip(2));
                        }
                    }
                    match self.expect_recv("err_msg", 1) {
                        Ok(m) => {
                            return Err(Error::Agent(m));
                        },
                        Err(e) => {
                            return Err(e);
                        },
                    }
                }
                return Err(Error::Protocol(t));
            },
        }
    }

    /// Requires the frame read most recently to have announced a
    /// continuation; reads the next frame and returns its text unchanged.
    /// Without the continuation flag (or without a delivered frame) this
    /// fails with a missing-frame error naming the expected field and its
    /// 0-based position, making short responses diagnosable.
    pub fn expect_recv(&mut self, name: &str, order: u8) -> (r: Result<String, Error>)
        ensures
            !old(self)@.api_up ==> (r matches Err(e) && e is Connection) && final(self)@
                == old(self)@,
            old(self)@.api_up && !(old(self)@.rcvmore && old(self)@.inbox.len() > 0) ==> (
            r matches Err(Error::Frame(mf)) && mf.name@ == name@ && mf.order == order)
                && final(self)@ == old(self)@,
            old(self)@.api_up && old(self)@.rcvmore && old(self)@.inbox.len() > 0 ==> {
                let f = old(self)@.inbox[0];
                let after = (HostV {
                    inbox: old(self)@.inbox.drop_first(),
                    rcvmore: f.more,
                    ..old(self)@
                });
                &&& f.body is Text ==> (r matches Ok(s) && s@ == f.body->Text_0) && final(self)@ == after
                &&& f.body is Bin ==> (r matches Err(e) && e is Parse) && final(self)@
                    == after
            },
    {
        if !self.api_up {
            return Err(Error::Connection("host is not connected".to_owned()));
        }
        if !self.rcvmore {
            return Err(Error::Frame(MissingFrame::new(name, order)));
        }
        if self.inbox.len() == 0 {
            return Err(Error::Frame(MissingFrame::new(name, order)));
        }
        let f = self.inbox.remove(0);
        self.rcvmore = f.more;
        assert(self@.inbox =~= old(self)@.inbox.drop_first());
        assert(self@ =~= (HostV {
            inbox: old(self)@.inbox.drop_first(),
            rcvmore: f@.more,
            ..old(self)@
        }));
        match f.data {
            FrameData::Text(t) => Ok(t),
            FrameData::Bin(_) => Err(Error::Parse("expected a text frame".to_owned())),
        }
    }

    /// Like `expect_recv`, but hands back the raw frame payload, textual or
    /// binary, unchanged.
    pub fn expect_recvmsg(&mut self, name: &str, order: u8) -> (r: Result<
        FrameData,
        Error,
    >)
        ensures
            !old(self)@.api_up ==> (r matches Err(e) && e is Connection) && final(self)@
                == old(self)@,
            old(self)@.api_up && !(old(self)@.rcvmore && old(self)@.inbox.len() > 0) ==> (
            r matches Err(Error::Frame(mf)) && mf.name@ == name@ && mf.order == order)
                && final(self)@ == old(self)@,
            old(self)@.api_up && old(self)@.rcvmore && old(self)@.inbox.len() > 0 ==> (
            r matches Ok(d) && d@ == old(self)@.inbox[0].body) && final(self)@ == (HostV {
                inbox: old(self)@.inbox.drop_first(),
                rcvmore: old(self)@.inbox[0].more,
                ..old(self)@
            }),
    {
        if !self.api_up {
            return Err(Error::Connection("host is not connected".to_owned()));
        }
        if !self.rcvmore {
            return Err(Error::Frame(MissingFrame::new(name, order)));
        }
        if self.inbox.len() == 0 {
            return Err(Error::Frame(MissingFrame::new(name, order)));
        }
        let f = self.inbox.remove(0);
        self.rcvmore = f.more;
        assert(self@.inbox =~= old(self)@.inbox.drop_first());
        assert(self@ =~= (HostV {
            inbox: old(self)@.inbox.drop_first(),
            rcvmore: f@.more,
            ..old(self)@
        }));
        Ok(f.data)
    }
}


} // verus!
