use vstd::prelude::*;
use crate::command::{CommandResult, CommandResultV};
use crate::file::FileOptsV;
use crate::num::{dec_rep, int_rep, i32_to_dec, spec_parse_int};

verus! {

/// The payload of one wire frame: textual for control traffic, raw bytes
/// for chunk payloads.
#[derive(Clone, Debug)]
pub enum FrameData {
    Text(String),
    Bin(Vec<u8>),
}

/// The mathematical image of a frame payload.
pub enum FrameBody {
    Text(Seq<char>),
    Bin(Seq<u8>),
}

impl View for FrameData {
    type V = FrameBody;

    open spec fn view(&self) -> FrameBody {
        match self {
            FrameData::Text(s) => FrameBody::Text(s@),
            FrameData::Bin(b) => FrameBody::Bin(b@),
        }
    }
}

/// One unit of a multi-part message: a payload and the continuation flag
/// that tells whether more frames follow in the same message.
#[derive(Clone, Debug)]
pub struct Frame {
    pub data: FrameData,
    pub more: bool,
}

/// The mathematical image of a `Frame`.
pub struct FrameModel {
    pub body: FrameBody,
    pub more: bool,
}

impl View for Frame {
    type V = FrameModel;

    open spec fn view(&self) -> FrameModel {
        FrameModel { body: self.data@, more: self.more }
    }
}

pub open spec fn text_frame(s: Seq<char>, more: bool) -> FrameModel {
    FrameModel { body: FrameBody::Text(s), more }
}

pub open spec fn bin_frame(b: Seq<u8>, more: bool) -> FrameModel {
    FrameModel { body: FrameBody::Bin(b), more }
}

pub open spec fn frame_views(frames: Seq<Frame>) -> Seq<FrameModel> {
    frames.map_values(|f: Frame| f@)
}

impl Frame {
    pub fn text(s: &str, more: bool) -> (r: Frame)
        ensures
            r@ == text_frame(s@, more),
    {
        Frame { data: FrameData::Text(s.to_owned()), more }
    }

    pub fn bin(b: Vec<u8>, more: bool) -> (r: Frame)
        ensures
            r@ == bin_frame(b@, more),
    {
        Frame { data: FrameData::Bin(b), more }
    }
}

/// The request wire format: frame 0 carries the endpoint name, the frames
/// after it the positional arguments; every frame but the last carries the
/// continuation flag.
pub open spec fn spec_request(endpoint: Seq<char>, args: Seq<Seq<char>>) -> Seq<FrameModel> {
    seq![text_frame(endpoint, args.len() > 0)] + Seq::new(
        args.len(),
        |i: int| text_frame(args[i], i + 1 < args.len()),
    )
}

/// The two frames one named option adds to a file-transfer request: the
/// option's name, then its value. `more` is the continuation flag of the
/// value frame.
pub open spec fn spec_opt_frames(o: FileOptsV, more: bool) -> Seq<FrameModel> {
    match o {
        FileOptsV::BackupExistingFile(suffix) => seq![
            text_frame("OPT_BackupExistingFile"@, true),
            text_frame(suffix, more),
        ],
    }
}

/// The frames of an ordered option list, flattened; only the very last
/// value frame drops the continuation flag.
pub open spec fn spec_opts_frames(opts: Seq<FileOptsV>) -> Seq<FrameModel>
    decreases opts.len(),
{
    if opts.len() == 0 {
        seq![]
    } else {
        spec_opt_frames(opts[0], opts.len() > 1) + spec_opts_frames(opts.drop_first())
    }
}

/// The control message that declares a file transfer: endpoint, destination
/// path, content hash, size and chunk count (the numbers written in
/// decimal), then the flattened option frames. The final frame of the whole
/// message never carries the continuation flag.
pub open spec fn spec_file_request(
    endpoint: Seq<char>,
    path: Seq<char>,
    hash: u64,
    size: u64,
    total_chunks: u64,
    opts: Option<Seq<FileOptsV>>,
) -> Seq<FrameModel> {
    let head = seq![
        text_frame(endpoint, true),
        text_frame(path, true),
        text_frame(dec_rep(hash as nat), true),
        text_frame(dec_rep(size as nat), true),
        text_frame(dec_rep(total_chunks as nat), opts is Some),
    ];
    match opts {
        Some(o) => head + spec_opts_frames(o),
        None => head,
    }
}

/// The frame triple that carries one chunk of a file: path, zero-based
/// index in decimal, raw payload, with no continuation flag on the payload.
pub open spec fn spec_chunk_frames(path: Seq<char>, index: u64, chunk: Seq<u8>) -> Seq<
    FrameModel,
> {
    seq![
        text_frame(path, true),
        text_frame(dec_rep(index as nat), true),
        bin_frame(chunk, false),
    ]
}

/// An option list's frames come two per option, and the very last value
/// frame is the only one without the continuation flag.
pub proof fn lemma_opts_frames_shape(opts: Seq<FileOptsV>)
    ensures
        spec_opts_frames(opts).len() == 2 * opts.len(),
        opts.len() > 0 ==> spec_opts_frames(opts).last().more == false,
        opts.len() > 0 ==> forall|m: int|
            0 <= m < spec_opts_frames(opts).len() - 1 ==> (#[trigger] spec_opts_frames(
                opts,
            )[m]).more == true,
    decreases opts.len(),
{
    if opts.len() > 0 {
        lemma_opts_frames_shape(opts.drop_first());
        let head = spec_opt_frames(opts[0], opts.len() > 1);
        let rest = spec_opts_frames(opts.drop_first());
        match opts[0] {
            FileOptsV::BackupExistingFile(_) => {
                assert(head.len() == 2);
            },
        }
        assert(spec_opts_frames(opts) == head + rest);
        if opts.len() == 1 {
            assert(spec_opts_frames(opts).last() == head[1]);
        } else {
            assert(spec_opts_frames(opts).last() == rest.last());
        }
    }
}

/// The shape of a file-transfer control message: exactly five frames plus
/// two per option, and the final frame of the whole message never carries
/// the continuation flag.
pub proof fn lemma_file_request_shape(
    endpoint: Seq<char>,
    path: Seq<char>,
    hash: u64,
    size: u64,
    total_chunks: u64,
    opts: Option<Seq<FileOptsV>>,
)
    ensures
        spec_file_request(endpoint, path, hash, size, total_chunks, opts).len() == 5 + (
        match opts {
            Some(o) => 2 * o.len(),
            None => 0,
        }),
        (match opts {
            Some(o) => o.len() > 0,
            None => true,
        }) ==> spec_file_request(endpoint, path, hash, size, total_chunks, opts).last().more
            == false,
{
    match opts {
        Some(o) => {
            lemma_opts_frames_shape(o);
            let frames = spec_file_request(endpoint, path, hash, size, total_chunks, opts);
            if o.len() > 0 {
                assert(frames.last() == spec_opts_frames(o).last());
            }
        },
        None => {},
    }
}

/// The agent's success reply for a command-style endpoint: the "Ok" header,
/// then exit code (decimal), stdout and stderr.
pub open spec fn spec_command_response(v: CommandResultV) -> Seq<FrameModel> {
    seq![
        text_frame("Ok"@, true),
        text_frame(int_rep(v.exit_code), true),
        text_frame(v.stdout, true),
        text_frame(v.stderr, false),
    ]
}

/// Reads a command-style reply back from its frames: the header must be
/// "Ok" with frames following, the exit code must parse as a signed number
/// that fits an `i32`, and stdout must still announce a continuation.
/// Frames beyond the four consumed are left alone.
pub open spec fn spec_command_reply(frames: Seq<FrameModel>) -> Option<CommandResultV> {
    if frames.len() >= 4 && frames[0] == text_frame("Ok"@, true) && frames[1].body is Text
        && frames[1].more && frames[2].body is Text && frames[2].more && frames[3].body is Text
        && spec_parse_int(frames[1].body->Text_0) is Some && i32::MIN as int <= spec_parse_int(
        frames[1].body->Text_0,
    )->Some_0 <= i32::MAX as int {
        Some(
            CommandResultV {
                exit_code: spec_parse_int(frames[1].body->Text_0)->Some_0,
                stdout: frames[2].body->Text_0,
                stderr: frames[3].body->Text_0,
            },
        )
    } else {
        None
    }
}

/// Writes the success reply an agent sends for a completed command: the
/// frame sequence is exactly `spec_command_response` of the result.
pub fn encode_command_response(r: &CommandResult) -> (frames: Vec<Frame>)
    ensures
        frame_views(frames@) == spec_command_response(r@),
{
    let mut frames: Vec<Frame> = Vec::new();
    frames.push(Frame::text("Ok", true));
    let code = i32_to_dec(r.exit_code);
    frames.push(Frame { data: FrameData::Text(code), more: true });
    frames.push(Frame::text(r.stdout.as_str(), true));
    frames.push(Frame::text(r.stderr.as_str(), false));
    assert(frame_views(frames@) =~= spec_command_response(r@));
    frames
}

/// Decoding a reply written by `spec_command_response` yields the result
/// that was encoded: the encode/decode round trip of the remote protocol.
pub proof fn lemma_command_reply_round_trip(v: CommandResultV)
    requires
        i32::MIN as int <= v.exit_code <= i32::MAX as int,
    ensures
        spec_command_reply(spec_command_response(v)) == Some(v),
{
    crate::num::lemma_int_rep_val(v.exit_code);
    let frames = spec_command_response(v);
    assert(frames[1].body->Text_0 == int_rep(v.exit_code));
}

} // verus!
