//! Wire framing of the control protocol.
//!
//! A framed message is a fixed-width little-endian command tag, optionally
//! followed by a little-endian 8-byte length prefix and that many bytes of a
//! serialized argument payload. Replies that carry a single integer (the
//! enclave CID, the describe handshake confirmation) are one little-endian
//! 8-byte value. All reads are exact: a short frame is a transport error,
//! never a retryable condition.

use vstd::bytes::*;
use vstd::prelude::*;

verus! {

/// Value written back to the client before a describe operation streams its
/// output, so the client knows a long-running routed operation follows.
pub const MSG_ENCLAVE_CONFIRM: u64 = 0xEEC2;

/// The verbs of the control protocol. A command carries no payload itself;
/// the payload, if any, is a separate length-prefixed block whose shape
/// depends on the tag.
#[derive(Clone, Copy, PartialEq, Eq, Structural, Debug)]
pub enum Command {
    /// Launch the enclave; followed by a run-arguments payload.
    Run,
    /// Start asynchronous enclave termination on a worker thread.
    Terminate,
    /// Sent by the termination worker when its work is done.
    TerminateComplete,
    /// Query the enclave's console CID; replied with one 8-byte integer.
    GetEnclaveCID,
    /// Stream a description of the enclave back to the client.
    Describe,
    /// Stop the event loop; injected by the signal bridge or a client.
    ConnectionListenerStop,
}

/// Errors of the framing layer. `ShortFrame` is a transport error (truncated
/// or misdelimited bytes); `UnknownTag` and `TrailingBytes` are decoding
/// errors (the bytes are not a well-formed frame).
#[derive(Clone, Copy, PartialEq, Eq, Structural, Debug)]
pub enum FrameError {
    /// Fewer bytes than the frame's header or declared length require.
    ShortFrame,
    /// The tag code does not name any command.
    UnknownTag,
    /// More bytes than the declared payload length.
    TrailingBytes,
}

/// The tag code of each command on the wire.
pub open spec fn tag_code_spec(c: Command) -> u64 {
    match c {
        Command::Run => 0,
        Command::Terminate => 1,
        Command::TerminateComplete => 2,
        Command::GetEnclaveCID => 3,
        Command::Describe => 4,
        Command::ConnectionListenerStop => 5,
    }
}

/// The command named by a tag code, if any.
pub open spec fn command_of_code(code: u64) -> Option<Command> {
    if code == 0 {
        Some(Command::Run)
    } else if code == 1 {
        Some(Command::Terminate)
    } else if code == 2 {
        Some(Command::TerminateComplete)
    } else if code == 3 {
        Some(Command::GetEnclaveCID)
    } else if code == 4 {
        Some(Command::Describe)
    } else if code == 5 {
        Some(Command::ConnectionListenerStop)
    } else {
        None
    }
}

/// The 8-byte little-endian encoding of a command's tag.
pub open spec fn command_bytes_spec(c: Command) -> Seq<u8> {
    spec_u64_to_le_bytes(tag_code_spec(c))
}

/// What decoding a command frame yields: the command of its tag code, or the
/// error telling why the bytes are not a command frame.
pub open spec fn parse_command_spec(b: Seq<u8>) -> Result<Command, FrameError> {
    if b.len() != 8 {
        Err(FrameError::ShortFrame)
    } else {
        match command_of_code(spec_u64_from_le_bytes(b)) {
            Some(c) => Ok(c),
            None => Err(FrameError::UnknownTag),
        }
    }
}

/// Serialize a command tag as its fixed-size little-endian code.
pub fn write_command(c: Command) -> (r: Vec<u8>)
    ensures
        r@ == command_bytes_spec(c),
        r@.len() == 8,
{
    proof {
        lemma_auto_spec_u64_to_from_le_bytes();
    }
    let code: u64 = match c {
        Command::Run => 0,
        Command::Terminate => 1,
        Command::TerminateComplete => 2,
        Command::GetEnclaveCID => 3,
        Command::Describe => 4,
        Command::ConnectionListenerStop => 5,
    };
    u64_to_le_bytes(code)
}

/// Decode a command tag from an exact 8-byte frame.
pub fn read_command(frame: &Vec<u8>) -> (r: Result<Command, FrameError>)
    ensures
        r == parse_command_spec(frame@),
{
    if frame.len() != 8 {
        return Err(FrameError::ShortFrame);
    }
    let code = u64_from_le_bytes(frame.as_slice());
    if code == 0 {
        Ok(Command::Run)
    } else if code == 1 {
        Ok(Command::Terminate)
    } else if code == 2 {
        Ok(Command::TerminateComplete)
    } else if code == 3 {
        Ok(Command::GetEnclaveCID)
    } else if code == 4 {
        Ok(Command::Describe)
    } else if code == 5 {
        Ok(Command::ConnectionListenerStop)
    } else {
        Err(FrameError::UnknownTag)
    }
}

/// Law: command frames round-trip. Encoding any command and decoding the
/// bytes yields the command back, and decoding any well-formed frame and
/// re-encoding the command yields the identical byte sequence.
pub proof fn lemma_command_round_trip(c: Command, b: Seq<u8>)
    ensures
        parse_command_spec(command_bytes_spec(c)) == Ok::<Command, FrameError>(c),
        parse_command_spec(b) matches Ok(c2) ==> command_bytes_spec(c2) == b,
{
    lemma_auto_spec_u64_to_from_le_bytes();
    if parse_command_spec(b) is Ok {
        let c2 = parse_command_spec(b)->Ok_0;
        assert(tag_code_spec(c2) == spec_u64_from_le_bytes(b));
    }
}

/// The framed form of an argument payload: its byte length as a little-endian
/// 8-byte prefix, then the payload bytes themselves.
pub open spec fn args_frame_spec(payload: Seq<u8>) -> Seq<u8> {
    spec_u64_to_le_bytes(payload.len() as u64) + payload
}

/// What decoding an argument frame yields: the payload bytes when the frame
/// holds exactly the declared length, or the error telling how the frame is
/// misdelimited.
pub open spec fn parse_args_spec(frame: Seq<u8>) -> Result<Seq<u8>, FrameError> {
    if frame.len() < 8 {
        Err(FrameError::ShortFrame)
    } else {
        let n = spec_u64_from_le_bytes(frame.subrange(0, 8));
        if frame.len() - 8 < n {
            Err(FrameError::ShortFrame)
        } else if frame.len() - 8 > n {
            Err(FrameError::TrailingBytes)
        } else {
            Ok(frame.subrange(8, frame.len() as int))
        }
    }
}

/// Frame an argument payload behind its length prefix.
pub fn write_args(payload: &Vec<u8>) -> (r: Vec<u8>)
    ensures
        r@ == args_frame_spec(payload@),
{
    let mut r = u64_to_le_bytes(payload.len() as u64);
    let ghost prefix = r@;
    let mut i: usize = 0;
    while i < payload.len()
        invariant
            i <= payload@.len(),
            r@ == prefix + payload@.subrange(0, i as int),
        decreases payload@.len() - i,
    {
        r.push(payload[i]);
        proof {
            assert(payload@.subrange(0, i + 1 as int) =~= payload@.subrange(0, i as int).push(
                payload@[i as int],
            ));
        }
        i = i + 1;
    }
    proof {
        assert(payload@.subrange(0, payload@.len() as int) =~= payload@);
    }
    r
}

/// Decode an argument frame. Reads are exact: a declared length larger than
/// the bytes present is a transport error, a smaller one leaves trailing
/// bytes and is rejected too.
pub fn read_args(frame: &Vec<u8>) -> (r: Result<Vec<u8>, FrameError>)
    ensures
        match r {
            Ok(p) => parse_args_spec(frame@) == Ok::<Seq<u8>, FrameError>(p@),
            Err(e) => parse_args_spec(frame@) == Err::<Seq<u8>, FrameError>(e),
        },
{
    if frame.len() < 8 {
        return Err(FrameError::ShortFrame);
    }
    let n = u64_from_le_bytes(vstd::slice::slice_subrange(frame.as_slice(), 0, 8));
    let rest: usize = frame.len() - 8;
    if (rest as u64) < n {
        return Err(FrameError::ShortFrame);
    }
    if (rest as u64) > n {
        return Err(FrameError::TrailingBytes);
    }
    let mut p: Vec<u8> = Vec::new();
    let mut i: usize = 8;
    while i < frame.len()
        invariant
            8 <= i <= frame@.len(),
            p@ == frame@.subrange(8, i as int),
        decreases frame@.len() - i,
    {
        p.push(frame[i]);
        proof {
            assert(frame@.subrange(8, i + 1 as int) =~= frame@.subrange(8, i as int).push(
                frame@[i as int],
            ));
        }
        i = i + 1;
    }
    Ok(p)
}

/// Law: argument frames round-trip. Framing any payload and decoding the
/// frame yields the payload back, unchanged.
pub proof fn lemma_args_round_trip(payload: Seq<u8>)
    requires
        payload.len() <= u64::MAX,
    ensures
        parse_args_spec(args_frame_spec(payload)) == Ok::<Seq<u8>, FrameError>(payload),
{
    lemma_auto_spec_u64_to_from_le_bytes();
    let f = args_frame_spec(payload);
    assert(f.subrange(0, 8) =~= spec_u64_to_le_bytes(payload.len() as u64));
    assert(f.subrange(8, f.len() as int) =~= payload);
}

/// A whole framed message: the command tag, then the argument frame where the
/// command carries a payload.
pub open spec fn message_spec(c: Command, payload: Option<Seq<u8>>) -> Seq<u8> {
    match payload {
        Some(p) => command_bytes_spec(c) + args_frame_spec(p),
        None => command_bytes_spec(c),
    }
}

/// Serialize one whole message: the tag, then the framed payload if any.
pub fn write_message(c: Command, payload: Option<&Vec<u8>>) -> (r: Vec<u8>)
    ensures
        r@ == message_spec(
            c,
            match payload {
                Some(p) => Some(p@),
                None => None,
            },
        ),
{
    let mut r = write_command(c);
    match payload {
        Some(p) => {
            let ghost prefix = r@;
            let mut tail = write_args(p);
            let ghost tail_view = tail@;
            r.append(&mut tail);
            proof {
                assert(r@ == prefix + tail_view);
            }
            r
        },
        None => r,
    }
}

/// Serialize an 8-byte little-endian integer, as used for the enclave CID
/// reply and the describe handshake confirmation.
pub fn write_u64_le(v: u64) -> (r: Vec<u8>)
    ensures
        r@ == spec_u64_to_le_bytes(v),
        r@.len() == 8,
{
    proof {
        lemma_auto_spec_u64_to_from_le_bytes();
    }
    u64_to_le_bytes(v)
}

/// Decode an 8-byte little-endian integer from an exact frame.
pub fn read_u64_le(b: &Vec<u8>) -> (r: Result<u64, FrameError>)
    ensures
        b@.len() == 8 ==> r == Ok::<u64, FrameError>(spec_u64_from_le_bytes(b@)),
        b@.len() != 8 ==> r == Err::<u64, FrameError>(FrameError::ShortFrame),
{
    if b.len() != 8 {
        return Err(FrameError::ShortFrame);
    }
    Ok(u64_from_le_bytes(b.as_slice()))
}

} // verus!
