use bottle_bid::framing::{
    frame_message, send_outcome, MessageReader, MessageSender, ReaderAction, ReaderEvent,
    SenderAction, SenderEvent, MAX_MESSAGE_SIZE, SOCKET_READ_TIMEOUT,
};
use bottle_bid::proto_utils::{MsgType, ServerRequest};
use bottle_bid::BidError;

fn read_bytes(bytes: &[u8]) -> MessageReader {
    let mut reader = MessageReader::new();
    for byte in bytes {
        assert!(matches!(reader.action(), ReaderAction::ReadByte));
        reader = reader.advance(ReaderEvent::ByteRead(Some(*byte)));
    }
    reader
}

fn failure(reader: MessageReader) -> BidError {
    assert!(matches!(reader.action(), ReaderAction::Finish));
    match reader.outcome() {
        Some(Err(e)) => e,
        other => panic!("{:?}", other),
    }
}

#[test]
fn constants_of_the_framing() {
    assert_eq!(SOCKET_READ_TIMEOUT, 500);
    assert_eq!(MAX_MESSAGE_SIZE, i32::MAX as usize);
}

#[test]
fn short_message_is_preceded_by_one_byte() {
    assert_eq!(frame_message(&vec![7, 8, 9]), Ok(vec![3, 7, 8, 9]));
    assert_eq!(frame_message(&vec![]), Ok(vec![0]));
}

#[test]
fn long_message_is_preceded_by_a_varint() {
    let payload: Vec<u8> = vec![0x55; 300];
    let frame = frame_message(&payload).unwrap();
    assert_eq!(frame.len(), 302);
    assert_eq!(frame[0], 0xAC);
    assert_eq!(frame[1], 0x02);
    assert_eq!(&frame[2..], payload.as_slice());
}

#[test]
fn boundary_lengths_are_framed() {
    let frame = frame_message(&vec![1; 127]).unwrap();
    assert_eq!(frame[0], 0x7F);
    assert_eq!(frame.len(), 128);
    let frame = frame_message(&vec![1; 128]).unwrap();
    assert_eq!(&frame[0..2], &[0x80, 0x01]);
    let frame = frame_message(&vec![1; 16384]).unwrap();
    assert_eq!(&frame[0..3], &[0x80, 0x80, 0x01]);
}

#[test]
fn framed_message_is_read_back() {
    for len in vec![1usize, 2, 127, 128, 129, 300, 16383, 16384, 70000] {
        let payload: Vec<u8> = (0..len).map(|i| (i % 251) as u8).collect();
        let frame = frame_message(&payload).unwrap();
        let mut reader = MessageReader::new();
        let mut next: usize = 0;
        while let ReaderAction::ReadByte = reader.action() {
            reader = reader.advance(ReaderEvent::ByteRead(Some(frame[next])));
            next += 1;
        }
        match reader.action() {
            ReaderAction::ReadBody(expected) => assert_eq!(expected, len),
            other => panic!("{:?}", other),
        }
        reader = reader.advance(ReaderEvent::BodyRead(Some(frame[next..].to_vec())));
        match reader.action() {
            ReaderAction::Parse(data) => assert_eq!(data, payload),
            other => panic!("{:?}", other),
        }
    }
}

#[test]
fn parsed_message_is_the_outcome() {
    let reader = read_bytes(&[2])
        .advance(ReaderEvent::BodyRead(Some(vec![1, 2])))
        .advance(ReaderEvent::Parsed(Some(ServerRequest::new(MsgType::Alive))));
    assert!(matches!(reader.action(), ReaderAction::Finish));
    match reader.outcome() {
        Some(Ok(msg)) => assert_eq!(msg.msg_type, MsgType::Alive),
        other => panic!("{:?}", other),
    }
}

#[test]
fn unfinished_reading_has_no_outcome() {
    assert!(read_bytes(&[0x80]).outcome().is_none());
    assert!(read_bytes(&[5]).outcome().is_none());
}

#[test]
fn lost_connection_while_reading_the_length() {
    let reader = MessageReader::new().advance(ReaderEvent::ByteRead(None));
    assert_eq!(failure(reader), BidError::ErrorOnRead);
    let reader = read_bytes(&[0x80]).advance(ReaderEvent::ByteRead(None));
    assert_eq!(failure(reader), BidError::ErrorOnRead);
}

#[test]
fn empty_message_cannot_be_read() {
    assert_eq!(failure(read_bytes(&[0])), BidError::ErrorOnRead);
    assert_eq!(failure(read_bytes(&[0x80, 0])), BidError::ErrorOnRead);
}

#[test]
fn length_that_is_too_great_cannot_be_read() {
    match read_bytes(&[0xFF, 0xFF, 0xFF, 0xFF, 0x07]).action() {
        ReaderAction::ReadBody(len) => assert_eq!(len, MAX_MESSAGE_SIZE),
        other => panic!("{:?}", other),
    }
    assert_eq!(failure(read_bytes(&[0xFF, 0xFF, 0xFF, 0xFF, 0x08])), BidError::ErrorOnRead);
    assert_eq!(failure(read_bytes(&[0x80, 0x80, 0x80, 0x80, 0x80, 0x01])), BidError::ErrorOnRead);
    assert_eq!(
        failure(read_bytes(&[0x80, 0x80, 0x80, 0x80, 0x80, 0x80, 0x81])),
        BidError::ErrorOnRead
    );
}

#[test]
fn length_may_be_longer_than_it_needs() {
    for bytes in vec![
        vec![0x81, 0x00],
        vec![0x81, 0x80, 0x80, 0x80, 0x80, 0x00],
        vec![0x81, 0x80, 0x80, 0x80, 0x80, 0x80, 0x80, 0x80, 0x80, 0x80, 0x80, 0x00],
    ] {
        match read_bytes(&bytes).action() {
            ReaderAction::ReadBody(len) => assert_eq!(len, 1),
            other => panic!("{:?}", other),
        }
    }
    let zero = vec![0x80, 0x80, 0x80, 0x80, 0x80, 0x80, 0x00];
    assert_eq!(failure(read_bytes(&zero)), BidError::ErrorOnRead);
}

#[test]
fn message_of_another_length_is_not_read() {
    let reader = read_bytes(&[3]).advance(ReaderEvent::BodyRead(Some(vec![1, 2])));
    assert_eq!(failure(reader), BidError::PlayerTimedOut);
    let reader = read_bytes(&[3]).advance(ReaderEvent::BodyRead(Some(vec![1, 2, 3, 4])));
    assert_eq!(failure(reader), BidError::PlayerTimedOut);
}

#[test]
fn message_is_sent_whole() {
    let sender = MessageSender::new();
    assert!(matches!(sender.action(), SenderAction::Encode));
    let sender = sender.advance(SenderEvent::Encoded(Some(vec![7, 8, 9])));
    match sender.action() {
        SenderAction::Write(frame) => assert_eq!(frame, vec![3, 7, 8, 9]),
        other => panic!("{:?}", other),
    }
    let sender = sender.advance(SenderEvent::Written { done: true });
    assert!(matches!(sender.action(), SenderAction::Finish(Ok(()))));
}

#[test]
fn message_that_cannot_be_sent() {
    let sender = MessageSender::new().advance(SenderEvent::Encoded(None));
    assert!(matches!(
        sender.action(),
        SenderAction::Finish(Err(BidError::ErrorProtobufEncoding))
    ));
    let sender = MessageSender::new()
        .advance(SenderEvent::Encoded(Some(vec![1])))
        .advance(SenderEvent::Written { done: false });
    assert!(matches!(sender.action(), SenderAction::Finish(Err(BidError::ErrorOnSend))));
}

#[test]
fn outcomes_of_sending() {
    assert_eq!(send_outcome(true, true), Ok(()));
    assert_eq!(send_outcome(true, false), Err(BidError::ErrorOnSend));
    assert_eq!(send_outcome(false, true), Err(BidError::ErrorProtobufEncoding));
    assert_eq!(send_outcome(false, false), Err(BidError::ErrorProtobufEncoding));
}

#[test]
fn events_that_are_not_due_do_not_move_a_sender() {
    let sender = MessageSender::new().advance(SenderEvent::Written { done: true });
    assert!(matches!(sender.action(), SenderAction::Encode));
}

#[test]
fn message_that_does_not_come_is_a_timeout() {
    let reader = read_bytes(&[9]).advance(ReaderEvent::BodyRead(None));
    assert_eq!(failure(reader), BidError::PlayerTimedOut);
}

#[test]
fn message_that_cannot_be_parsed() {
    let reader = read_bytes(&[1])
        .advance(ReaderEvent::BodyRead(Some(vec![0xFF])))
        .advance(ReaderEvent::Parsed(None));
    assert_eq!(failure(reader), BidError::ProtoParseError);
}

#[test]
fn events_that_are_not_due_do_not_move_a_reader() {
    let reader = MessageReader::new()
        .advance(ReaderEvent::BodyRead(Some(vec![1])))
        .advance(ReaderEvent::Parsed(None));
    assert!(matches!(reader.action(), ReaderAction::ReadByte));
}

#[test]
fn reading_goes_forward() {
    let mut reader = MessageReader::new();
    let mut events: u32 = 0;
    loop {
        let event = match reader.action() {
            ReaderAction::ReadByte if events == 0 => ReaderEvent::ByteRead(Some(0x82)),
            ReaderAction::ReadByte if events < 4 => ReaderEvent::ByteRead(Some(0x80)),
            ReaderAction::ReadByte => ReaderEvent::ByteRead(Some(0x00)),
            ReaderAction::ReadBody(len) => ReaderEvent::BodyRead(Some(vec![1; len])),
            ReaderAction::Parse(_) => ReaderEvent::Parsed(None),
            ReaderAction::Finish => break,
        };
        reader = reader.advance(event);
        events += 1;
    }
    assert_eq!(events, 7);
}
