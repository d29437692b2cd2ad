use enclave_proc::protocol::{
    read_args, read_command, read_u64_le, write_args, write_command, write_message, write_u64_le,
    Command, FrameError, MSG_ENCLAVE_CONFIRM,
};

#[test]
fn command_round_trip_all_tags() {
    let commands = vec![
        Command::Run,
        Command::Terminate,
        Command::TerminateComplete,
        Command::GetEnclaveCID,
        Command::Describe,
        Command::ConnectionListenerStop,
    ];
    for cmd in commands {
        let frame = write_command(cmd);
        assert_eq!(frame.len(), 8);
        assert_eq!(read_command(&frame), Ok(cmd));
        // Re-encoding the decoded command yields the identical bytes.
        assert_eq!(write_command(read_command(&frame).unwrap()), frame);
    }
}

#[test]
fn command_frame_exact_bytes() {
    assert_eq!(write_command(Command::Run), vec![0, 0, 0, 0, 0, 0, 0, 0]);
    assert_eq!(write_command(Command::Terminate), vec![1, 0, 0, 0, 0, 0, 0, 0]);
    assert_eq!(write_command(Command::TerminateComplete), vec![2, 0, 0, 0, 0, 0, 0, 0]);
    assert_eq!(write_command(Command::GetEnclaveCID), vec![3, 0, 0, 0, 0, 0, 0, 0]);
    assert_eq!(write_command(Command::Describe), vec![4, 0, 0, 0, 0, 0, 0, 0]);
    assert_eq!(write_command(Command::ConnectionListenerStop), vec![5, 0, 0, 0, 0, 0, 0, 0]);
}

#[test]
fn command_frame_errors() {
    assert_eq!(read_command(&vec![0, 0, 0]), Err(FrameError::ShortFrame));
    assert_eq!(read_command(&vec![]), Err(FrameError::ShortFrame));
    assert_eq!(read_command(&vec![0, 0, 0, 0, 0, 0, 0, 0, 0]), Err(FrameError::ShortFrame));
    assert_eq!(read_command(&vec![9, 0, 0, 0, 0, 0, 0, 0]), Err(FrameError::UnknownTag));
    assert_eq!(read_command(&vec![255, 255, 0, 0, 0, 0, 0, 0]), Err(FrameError::UnknownTag));
}

#[test]
fn args_round_trip() {
    let payload = b"hello enclave".to_vec();
    let frame = write_args(&payload);
    assert_eq!(read_args(&frame), Ok(payload));
}

#[test]
fn args_round_trip_empty() {
    let payload: Vec<u8> = Vec::new();
    let frame = write_args(&payload);
    assert_eq!(frame, vec![0, 0, 0, 0, 0, 0, 0, 0]);
    assert_eq!(read_args(&frame), Ok(payload));
}

#[test]
fn args_frame_exact_bytes() {
    let frame = write_args(&vec![97, 98]);
    assert_eq!(frame, vec![2, 0, 0, 0, 0, 0, 0, 0, 97, 98]);
}

#[test]
fn args_frame_errors() {
    // Shorter than the length prefix itself.
    assert_eq!(read_args(&vec![1, 2, 3]), Err(FrameError::ShortFrame));
    // Declared length larger than the bytes present: a short read is fatal.
    assert_eq!(read_args(&vec![5, 0, 0, 0, 0, 0, 0, 0, 97, 98]), Err(FrameError::ShortFrame));
    // Declared length smaller than the bytes present.
    assert_eq!(read_args(&vec![1, 0, 0, 0, 0, 0, 0, 0, 97, 98]), Err(FrameError::TrailingBytes));
}

#[test]
fn u64_frames() {
    let frame = write_u64_le(MSG_ENCLAVE_CONFIRM);
    assert_eq!(frame, vec![0xC2, 0xEE, 0, 0, 0, 0, 0, 0]);
    assert_eq!(read_u64_le(&frame), Ok(MSG_ENCLAVE_CONFIRM));
    assert_eq!(read_u64_le(&vec![1, 2, 3]), Err(FrameError::ShortFrame));
    let cid = write_u64_le(16);
    assert_eq!(read_u64_le(&cid), Ok(16));
}

#[test]
fn whole_messages() {
    // A bare command: the tag alone.
    assert_eq!(
        write_message(Command::TerminateComplete, None),
        write_command(Command::TerminateComplete)
    );
    // A command with a payload: the tag, then the framed payload.
    let payload = vec![10, 20, 30];
    let msg = write_message(Command::Run, Some(&payload));
    let mut expected = write_command(Command::Run);
    expected.extend_from_slice(&write_args(&payload));
    assert_eq!(msg, expected);
}

#[test]
fn args_round_trip_through_cbor() {
    // A payload produced by the same serializer the clients use round-trips
    // through the framing unchanged.
    let value: (String, u64) = (String::from("i-abc-enc777"), 4096);
    let payload = serde_cbor::to_vec(&value).unwrap();
    let frame = write_args(&payload);
    let recovered = read_args(&frame).unwrap();
    let back: (String, u64) = serde_cbor::from_slice(&recovered).unwrap();
    assert_eq!(back, value);
}
