//! How messages are cut out of the stream of bytes between server and clients:
//! each message is preceded by its length, written as a varint.
use crate::error::BidError;
use crate::proto_utils::ServerRequest;
#[allow(unused_imports)]
use crate::proto_utils::ServerRequestView;
use protobuf::CodedOutputStream;
use vstd::prelude::*;

verus! {

/// How long a client may take over a part of a message, in milliseconds.
pub const SOCKET_READ_TIMEOUT: u64 = 500;

/// A message is at most this long.
pub const MAX_MESSAGE_SIZE: usize = 0x7fff_ffff;

/// The first place of a length at which only the digit 0 can stand.
pub const HIGH_PLACE: u32 = 5;

/// A number as a varint: seven bits in each byte, the lowest ones first, and the
/// highest bit set in every byte but the last.
///
/// For more information on varints see:
/// <https://en.wikipedia.org/wiki/Variable-length_quantity>
pub open spec fn varint(n: nat) -> Seq<u8>
    decreases n,
{
    if n < 128 {
        seq![n as u8]
    } else {
        seq![(n % 128 + 128) as u8] + varint(n / 128)
    }
}

/// A message with its length before it.
pub open spec fn framed(payload: Seq<u8>) -> Seq<u8> {
    varint(payload.len()) + payload
}

/// The errors of the `protobuf` crate.
#[verifier::external_type_specification]
#[verifier::external_body]
pub struct ExProtobufError(protobuf::Error);

/// Writes bytes to an empty vector with `CodedOutputStream::write_bytes_no_tag`:
/// first their length as a varint, then the bytes. Writing to a vector does not
/// fail. The crate writes the length as a 32-bit number, so it must be one.
#[verifier::external_body]
fn write_bytes_no_tag(bytes: &[u8]) -> (written: Result<Vec<u8>, protobuf::Error>)
    requires
        bytes@.len() <= u32::MAX,
    ensures
        written matches Ok(written) && written@ == varint(bytes@.len()) + bytes@,
{
    let mut written = Vec::new();
    let mut os = CodedOutputStream::vec(&mut written);
    os.write_bytes_no_tag(bytes)?;
    os.flush()?;
    drop(os);
    Ok(written)
}

/// Puts the length of a message before it, so that it can be sent to a client.
/// A message that is too long for that is an encoding error.
pub fn frame_message(payload: &Vec<u8>) -> (frame: Result<Vec<u8>, BidError>)
    ensures
        match frame {
            Ok(frame) => payload@.len() <= MAX_MESSAGE_SIZE && frame@ == framed(payload@),
            Err(e) => payload@.len() > MAX_MESSAGE_SIZE && e == BidError::ErrorProtobufEncoding,
        },
{
    if payload.len() > MAX_MESSAGE_SIZE {
        return Err(BidError::ErrorProtobufEncoding);
    }
    match write_bytes_no_tag(payload.as_slice()) {
        Ok(frame) => Ok(frame),
        Err(_) => Err(BidError::ErrorProtobufEncoding),
    }
}

/// What the sending of a message comes to: whether it could be encoded, and
/// whether it could then be written.
pub open spec fn sending_result(encoded: bool, written: bool) -> Result<(), BidError> {
    if !encoded {
        Err(BidError::ErrorProtobufEncoding)
    } else if !written {
        Err(BidError::ErrorOnSend)
    } else {
        Ok(())
    }
}

/// Says what the sending of a message comes to.
pub fn send_outcome(encoded: bool, written: bool) -> (outcome: Result<(), BidError>)
    ensures
        outcome == sending_result(encoded, written),
{
    if !encoded {
        Err(BidError::ErrorProtobufEncoding)
    } else if !written {
        Err(BidError::ErrorOnSend)
    } else {
        Ok(())
    }
}

/// Where the sending of a message stands.
#[derive(Debug)]
pub enum SenderPhase {
    /// The message is to be encoded.
    Encoding,
    /// The frame is to be written.
    Writing { frame: Vec<u8> },
    /// There is nothing left to do.
    Finished(Result<(), BidError>),
}

/// A [`SenderPhase`] with the frame as a sequence of bytes.
#[verifier::ext_equal]
pub enum SenderPhaseView {
    Encoding,
    Writing { frame: Seq<u8> },
    Finished(Result<(), BidError>),
}

impl View for SenderPhase {
    type V = SenderPhaseView;

    open spec fn view(&self) -> SenderPhaseView {
        match self {
            SenderPhase::Encoding => SenderPhaseView::Encoding,
            SenderPhase::Writing { frame } => SenderPhaseView::Writing { frame: frame@ },
            SenderPhase::Finished(outcome) => SenderPhaseView::Finished(*outcome),
        }
    }
}

/// What came of an action of a sender.
#[derive(Debug)]
pub enum SenderEvent {
    /// The message was encoded. A failure is `None`.
    Encoded(Option<Vec<u8>>),
    /// The frame was to be written.
    Written { done: bool },
}

/// A [`SenderEvent`] with the message as a sequence of bytes.
#[verifier::ext_equal]
pub enum SenderEventView {
    Encoded(Option<Seq<u8>>),
    Written { done: bool },
}

impl View for SenderEvent {
    type V = SenderEventView;

    open spec fn view(&self) -> SenderEventView {
        match self {
            SenderEvent::Encoded(Some(payload)) => SenderEventView::Encoded(Some(payload@)),
            SenderEvent::Encoded(None) => SenderEventView::Encoded(None),
            SenderEvent::Written { done } => SenderEventView::Written { done: *done },
        }
    }
}

/// What is to be done next to send a message.
#[derive(Debug)]
pub enum SenderAction {
    Encode,
    /// Write the bytes, all of them.
    Write(Vec<u8>),
    Finish(Result<(), BidError>),
}

/// A [`SenderAction`] with its bytes as a sequence.
#[verifier::ext_equal]
pub enum SenderActionView {
    Encode,
    Write(Seq<u8>),
    Finish(Result<(), BidError>),
}

impl View for SenderAction {
    type V = SenderActionView;

    open spec fn view(&self) -> SenderActionView {
        match self {
            SenderAction::Encode => SenderActionView::Encode,
            SenderAction::Write(frame) => SenderActionView::Write(frame@),
            SenderAction::Finish(outcome) => SenderActionView::Finish(*outcome),
        }
    }
}

impl SenderPhaseView {
    /// The sender after an event. A message that is too long counts as not encoded.
    /// An event that was not due changes nothing.
    pub open spec fn next(self, event: SenderEventView) -> SenderPhaseView {
        match (self, event) {
            (SenderPhaseView::Encoding, SenderEventView::Encoded(payload)) => match payload {
                Some(payload) if payload.len() <= MAX_MESSAGE_SIZE => SenderPhaseView::Writing {
                    frame: framed(payload),
                },
                _ => SenderPhaseView::Finished(sending_result(false, false)),
            },
            (SenderPhaseView::Writing { frame }, SenderEventView::Written { done }) => {
                SenderPhaseView::Finished(sending_result(true, done))
            },
            _ => self,
        }
    }

    /// The action that is due.
    pub open spec fn due(self) -> SenderActionView {
        match self {
            SenderPhaseView::Encoding => SenderActionView::Encode,
            SenderPhaseView::Writing { frame } => SenderActionView::Write(frame),
            SenderPhaseView::Finished(outcome) => SenderActionView::Finish(outcome),
        }
    }
}

/// The sending of one message to a client.
#[derive(Debug)]
pub struct MessageSender {
    pub phase: SenderPhase,
}

impl View for MessageSender {
    type V = SenderPhaseView;

    open spec fn view(&self) -> SenderPhaseView {
        self.phase@
    }
}

impl MessageSender {
    /// Starts to send a message.
    pub fn new() -> (sender: MessageSender)
        ensures
            sender@ == SenderPhaseView::Encoding,
    {
        MessageSender { phase: SenderPhase::Encoding }
    }

    /// Says what is to be done next.
    pub fn action(&self) -> (action: SenderAction)
        ensures
            action@ == self@.due(),
    {
        match &self.phase {
            SenderPhase::Encoding => SenderAction::Encode,
            SenderPhase::Writing { frame } => {
                let copy = frame.clone();
                assert(copy@ =~= frame@);
                SenderAction::Write(copy)
            },
            SenderPhase::Finished(outcome) => SenderAction::Finish(*outcome),
        }
    }

    /// Moves on after an event.
    pub fn advance(self, event: SenderEvent) -> (sender: MessageSender)
        ensures
            sender@ == self@.next(event@),
    {
        let phase = match (self.phase, event) {
            (SenderPhase::Encoding, SenderEvent::Encoded(payload)) => match payload {
                Some(payload) => match frame_message(&payload) {
                    Ok(frame) => SenderPhase::Writing { frame },
                    Err(_) => SenderPhase::Finished(send_outcome(false, false)),
                },
                None => SenderPhase::Finished(send_outcome(false, false)),
            },
            (SenderPhase::Writing { .. }, SenderEvent::Written { done }) => {
                SenderPhase::Finished(send_outcome(true, done))
            },
            (phase, _) => phase,
        };
        MessageSender { phase }
    }
}

/// A message is sent whole or not at all. One that cannot be encoded, or is too
/// long, ends the sending with [`BidError::ErrorProtobufEncoding`] before anything
/// is written. Of any other the frame is written, once, and the sending ends with
/// [`BidError::ErrorOnSend`] exactly if that fails, and else well.
pub proof fn law_message_is_sent_whole(payload: Option<Seq<u8>>, done: bool)
    ensures
        ({
            let encoded = SenderPhaseView::Encoding.next(SenderEventView::Encoded(payload));
            let written = encoded.next(SenderEventView::Written { done });
            match payload {
                Some(payload) if payload.len() <= MAX_MESSAGE_SIZE => {
                    &&& encoded.due() == SenderActionView::Write(framed(payload))
                    &&& written.due() == SenderActionView::Finish(
                        if done {
                            Ok(())
                        } else {
                            Err(BidError::ErrorOnSend)
                        },
                    )
                },
                _ => encoded.due() == SenderActionView::Finish(
                    Err(BidError::ErrorProtobufEncoding),
                ),
            }
        }),
{
}

/// What the digit at the given place of a length is worth. From place
/// [`HIGH_PLACE`] on any digit but 0 makes the length too great, whatever it is
/// worth exactly.
pub open spec fn digit_value(place: u32) -> int {
    match place {
        0 => 1,
        1 => 0x80,
        2 => 0x4000,
        3 => 0x20_0000,
        4 => 0x1000_0000,
        _ => 0x8_0000_0000,
    }
}

/// Where the reading of a message stands.
#[derive(Debug)]
pub enum ReaderPhase {
    /// The next byte of the length is awaited. So many of them were read, or
    /// [`HIGH_PLACE`] of them or more, and they are worth the given value.
    Length { value: u32, count: u32 },
    /// The message itself is awaited.
    Body { len: usize },
    /// The message is to be parsed.
    Parsing { data: Vec<u8> },
    /// There is nothing left to do.
    Finished(Result<ServerRequest, BidError>),
}

/// A [`ReaderPhase`] with its parts as their views.
#[verifier::ext_equal]
pub enum ReaderPhaseView {
    Length { value: u32, count: u32 },
    Body { len: usize },
    Parsing { data: Seq<u8> },
    Finished(Result<ServerRequestView, BidError>),
}

impl View for ReaderPhase {
    type V = ReaderPhaseView;

    open spec fn view(&self) -> ReaderPhaseView {
        match self {
            ReaderPhase::Length { value, count } => ReaderPhaseView::Length {
                value: *value,
                count: *count,
            },
            ReaderPhase::Body { len } => ReaderPhaseView::Body { len: *len },
            ReaderPhase::Parsing { data } => ReaderPhaseView::Parsing { data: data@ },
            ReaderPhase::Finished(Ok(msg)) => ReaderPhaseView::Finished(Ok(msg@)),
            ReaderPhase::Finished(Err(e)) => ReaderPhaseView::Finished(Err(*e)),
        }
    }
}

/// What came of an action of a reader. A failure is `None`.
#[derive(Debug)]
pub enum ReaderEvent {
    /// A byte was awaited.
    ByteRead(Option<u8>),
    /// The bytes of a message were awaited.
    BodyRead(Option<Vec<u8>>),
    /// A message was parsed.
    Parsed(Option<ServerRequest>),
}

/// A [`ReaderEvent`] with its parts as their views.
#[verifier::ext_equal]
pub enum ReaderEventView {
    ByteRead(Option<u8>),
    BodyRead(Option<Seq<u8>>),
    Parsed(Option<ServerRequestView>),
}

impl View for ReaderEvent {
    type V = ReaderEventView;

    open spec fn view(&self) -> ReaderEventView {
        match self {
            ReaderEvent::ByteRead(byte) => ReaderEventView::ByteRead(*byte),
            ReaderEvent::BodyRead(Some(data)) => ReaderEventView::BodyRead(Some(data@)),
            ReaderEvent::BodyRead(None) => ReaderEventView::BodyRead(None),
            ReaderEvent::Parsed(Some(msg)) => ReaderEventView::Parsed(Some(msg@)),
            ReaderEvent::Parsed(None) => ReaderEventView::Parsed(None),
        }
    }
}

/// What is to be done next to read a message.
#[derive(Debug)]
pub enum ReaderAction {
    /// Wait for one byte.
    ReadByte,
    /// Wait for so many bytes.
    ReadBody(usize),
    /// Parse a message from its bytes.
    Parse(Vec<u8>),
    /// The message was read, or could not be.
    Finish,
}

/// A [`ReaderAction`] with its parts as their views.
#[verifier::ext_equal]
pub enum ReaderActionView {
    ReadByte,
    ReadBody(usize),
    Parse(Seq<u8>),
    Finish,
}

impl View for ReaderAction {
    type V = ReaderActionView;

    open spec fn view(&self) -> ReaderActionView {
        match self {
            ReaderAction::ReadByte => ReaderActionView::ReadByte,
            ReaderAction::ReadBody(len) => ReaderActionView::ReadBody(*len),
            ReaderAction::Parse(data) => ReaderActionView::Parse(data@),
            ReaderAction::Finish => ReaderActionView::Finish,
        }
    }
}

impl ReaderPhaseView {
    /// A reader before its first action.
    pub open spec fn start() -> ReaderPhaseView {
        ReaderPhaseView::Length { value: 0, count: 0 }
    }

    /// The reader after one more byte of the length. A length that is too great
    /// cannot be read; nor can an empty message.
    pub open spec fn after_byte(value: u32, count: u32, byte: u8) -> ReaderPhaseView {
        let value = value + (byte % 128) * digit_value(count);
        if value > MAX_MESSAGE_SIZE {
            ReaderPhaseView::Finished(Err(BidError::ErrorOnRead))
        } else if byte < 128 {
            if value == 0 {
                ReaderPhaseView::Finished(Err(BidError::ErrorOnRead))
            } else {
                ReaderPhaseView::Body { len: value as usize }
            }
        } else {
            ReaderPhaseView::Length {
                value: value as u32,
                count: if count < HIGH_PLACE { (count + 1) as u32 } else { HIGH_PLACE },
            }
        }
    }

    /// The reader after an event. A message of another length than the awaited one
    /// counts as not read. An event that was not due changes nothing.
    pub open spec fn next(self, event: ReaderEventView) -> ReaderPhaseView {
        match (self, event) {
            (ReaderPhaseView::Length { value, count }, ReaderEventView::ByteRead(byte)) => {
                match byte {
                    Some(byte) => ReaderPhaseView::after_byte(value, count, byte),
                    None => ReaderPhaseView::Finished(Err(BidError::ErrorOnRead)),
                }
            },
            (ReaderPhaseView::Body { len }, ReaderEventView::BodyRead(data)) => match data {
                Some(data) if data.len() == len => ReaderPhaseView::Parsing { data },
                _ => ReaderPhaseView::Finished(Err(BidError::PlayerTimedOut)),
            },
            (ReaderPhaseView::Parsing { data }, ReaderEventView::Parsed(msg)) => match msg {
                Some(msg) => ReaderPhaseView::Finished(Ok(msg)),
                None => ReaderPhaseView::Finished(Err(BidError::ProtoParseError)),
            },
            _ => self,
        }
    }

    /// The action that is due.
    pub open spec fn due(self) -> ReaderActionView {
        match self {
            ReaderPhaseView::Length { value, count } => ReaderActionView::ReadByte,
            ReaderPhaseView::Body { len } => ReaderActionView::ReadBody(len),
            ReaderPhaseView::Parsing { data } => ReaderActionView::Parse(data),
            ReaderPhaseView::Finished(_) => ReaderActionView::Finish,
        }
    }
}

/// The reading of one message from a client.
#[derive(Debug)]
pub struct MessageReader {
    pub phase: ReaderPhase,
}

impl View for MessageReader {
    type V = ReaderPhaseView;

    open spec fn view(&self) -> ReaderPhaseView {
        self.phase@
    }
}

impl MessageReader {
    /// Starts to read a message.
    pub fn new() -> (reader: MessageReader)
        ensures
            reader@ == ReaderPhaseView::start(),
    {
        MessageReader { phase: ReaderPhase::Length { value: 0, count: 0 } }
    }

    /// Says what is to be done next.
    pub fn action(&self) -> (action: ReaderAction)
        ensures
            action@ == self@.due(),
    {
        match &self.phase {
            ReaderPhase::Length { .. } => ReaderAction::ReadByte,
            ReaderPhase::Body { len } => ReaderAction::ReadBody(*len),
            ReaderPhase::Parsing { data } => {
                let copy = data.clone();
                assert(copy@ =~= data@);
                ReaderAction::Parse(copy)
            },
            ReaderPhase::Finished(_) => ReaderAction::Finish,
        }
    }

    fn read_length(value: u32, count: u32, byte: u8) -> (phase: ReaderPhase)
        ensures
            phase@ == ReaderPhaseView::after_byte(value, count, byte),
    {
        let digit: u64 = match count {
            0 => 1,
            1 => 0x80,
            2 => 0x4000,
            3 => 0x20_0000,
            4 => 0x1000_0000,
            _ => 0x8_0000_0000,
        };
        assert(byte & 0x7f == byte % 128) by (bit_vector);
        assert(byte & 0x80 == 0 <==> byte < 128) by (bit_vector);
        let low = (byte & 0x7f) as u64;
        assert(low * digit <= 127 * 0x8_0000_0000) by (nonlinear_arith)
            requires
                low <= 127,
                digit <= 0x8_0000_0000,
        ;
        let value = value as u64 + low * digit;
        if value > MAX_MESSAGE_SIZE as u64 {
            ReaderPhase::Finished(Err(BidError::ErrorOnRead))
        } else if byte & 0x80 == 0 {
            if value == 0 {
                ReaderPhase::Finished(Err(BidError::ErrorOnRead))
            } else {
                ReaderPhase::Body { len: value as usize }
            }
        } else {
            ReaderPhase::Length {
                value: value as u32,
                count: if count < HIGH_PLACE { count + 1 } else { HIGH_PLACE },
            }
        }
    }

    /// Moves on after an event.
    pub fn advance(self, event: ReaderEvent) -> (reader: MessageReader)
        ensures
            reader@ == self@.next(event@),
    {
        let phase = match (self.phase, event) {
            (ReaderPhase::Length { value, count }, ReaderEvent::ByteRead(byte)) => match byte {
                Some(byte) => MessageReader::read_length(value, count, byte),
                None => ReaderPhase::Finished(Err(BidError::ErrorOnRead)),
            },
            (ReaderPhase::Body { len }, ReaderEvent::BodyRead(data)) => match data {
                Some(data) => {
                    if data.len() == len {
                        ReaderPhase::Parsing { data }
                    } else {
                        ReaderPhase::Finished(Err(BidError::PlayerTimedOut))
                    }
                },
                None => ReaderPhase::Finished(Err(BidError::PlayerTimedOut)),
            },
            (ReaderPhase::Parsing { .. }, ReaderEvent::Parsed(msg)) => match msg {
                Some(msg) => ReaderPhase::Finished(Ok(msg)),
                None => ReaderPhase::Finished(Err(BidError::ProtoParseError)),
            },
            (phase, _) => phase,
        };
        MessageReader { phase }
    }

    /// Gives what came of the reading, once it is over.
    pub fn outcome(self) -> (outcome: Option<Result<ServerRequest, BidError>>)
        ensures
            match outcome {
                Some(Ok(msg)) => self@ == ReaderPhaseView::Finished(Ok(msg@)),
                Some(Err(e)) => self@ == ReaderPhaseView::Finished(Err(e)),
                None => !(self@ is Finished),
            },
    {
        match self.phase {
            ReaderPhase::Finished(outcome) => Some(outcome),
            _ => None,
        }
    }
}

/// A reader after it has read some bytes one by one.
pub open spec fn after_bytes(reader: ReaderPhaseView, bytes: Seq<u8>) -> ReaderPhaseView
    decreases bytes.len(),
{
    if bytes.len() == 0 {
        reader
    } else {
        after_bytes(
            reader.next(ReaderEventView::ByteRead(Some(bytes[0]))),
            bytes.drop_first(),
        )
    }
}

/// Whether the bytes are a varint: the highest bit is set in every byte but the
/// last. A varint may be longer than its number needs.
pub open spec fn is_varint(bytes: Seq<u8>) -> bool {
    &&& bytes.len() > 0
    &&& bytes.last() < 128
    &&& forall|i: int| 0 <= i < bytes.len() - 1 ==> #[trigger] bytes[i] >= 128
}

/// The number that a varint stands for.
pub open spec fn varint_value(bytes: Seq<u8>) -> nat
    decreases bytes.len(),
{
    if bytes.len() == 0 {
        0
    } else {
        (bytes[0] % 128) as nat + 128 * varint_value(bytes.drop_first())
    }
}

/// Where a reader stands once it knows the length of a message.
pub open spec fn with_length(len: int) -> ReaderPhaseView {
    if 0 < len <= MAX_MESSAGE_SIZE {
        ReaderPhaseView::Body { len: len as usize }
    } else {
        ReaderPhaseView::Finished(Err(BidError::ErrorOnRead))
    }
}

/// Every varint is read as the number that it stands for, however long it is: the
/// reader awaits a message of that length, or gives up if no message has it.
pub proof fn law_every_varint_is_read(bytes: Seq<u8>)
    requires
        is_varint(bytes),
    ensures
        after_bytes(ReaderPhaseView::start(), bytes) == with_length(varint_value(bytes) as int),
{
    lemma_length_is_read(0, 0, bytes);
}

proof fn lemma_length_is_read(value: u32, count: u32, bytes: Seq<u8>)
    requires
        is_varint(bytes),
        count <= HIGH_PLACE,
        value <= MAX_MESSAGE_SIZE,
    ensures
        after_bytes(ReaderPhaseView::Length { value, count }, bytes) == with_length(
            value + varint_value(bytes) * digit_value(count),
        ),
    decreases bytes.len(),
{
    reveal_with_fuel(after_bytes, 2);
    let start = ReaderPhaseView::Length { value, count };
    let byte = bytes[0];
    let digit = digit_value(count);
    let low = (byte % 128) as int;
    let rest = bytes.drop_first();
    let after = start.next(ReaderEventView::ByteRead(Some(byte)));
    let high = varint_value(rest);
    assert((low + 128 * high) * digit == low * digit + high * (128 * digit)) by (nonlinear_arith);
    assert(high * (128 * digit) >= 0) by (nonlinear_arith)
        requires
            high >= 0,
            digit >= 0,
    ;
    if value + low * digit > MAX_MESSAGE_SIZE {
        lemma_finished_reader_stays(after, rest);
    } else if bytes.len() == 1 {
        assert(rest =~= Seq::empty());
        assert(bytes.last() == byte);
    } else {
        assert(bytes[0] >= 128);
        assert(rest.last() == bytes.last());
        assert forall|i: int| 0 <= i < rest.len() - 1 implies #[trigger] rest[i] >= 128 by {
            assert(rest[i] == bytes[i + 1]);
        }
        let next = if count < HIGH_PLACE { (count + 1) as u32 } else { HIGH_PLACE };
        lemma_length_is_read((value + low * digit) as u32, next, rest);
        if count == HIGH_PLACE && high > 0 {
            assert(high * digit >= digit && high * (128 * digit) >= digit) by (nonlinear_arith)
                requires
                    high > 0,
                    digit > 0,
            ;
        }
    }
}

proof fn lemma_finished_reader_stays(reader: ReaderPhaseView, bytes: Seq<u8>)
    requires
        reader is Finished,
    ensures
        after_bytes(reader, bytes) == reader,
    decreases bytes.len(),
{
    if bytes.len() > 0 {
        lemma_finished_reader_stays(reader, bytes.drop_first());
    }
}

proof fn lemma_varint(n: nat)
    ensures
        is_varint(varint(n)),
        varint_value(varint(n)) == n,
    decreases n,
{
    let bytes = varint(n);
    if n < 128 {
        assert(bytes.drop_first() =~= Seq::empty());
        assert(varint_value(bytes.drop_first()) == 0);
    } else {
        lemma_varint(n / 128);
        assert(bytes.drop_first() =~= varint(n / 128));
        assert(bytes.last() == varint(n / 128).last());
        assert forall|i: int| 0 <= i < bytes.len() - 1 implies #[trigger] bytes[i] >= 128 by {
            if i > 0 {
                assert(bytes[i] == varint(n / 128)[i - 1]);
            }
        }
    }
}

/// A client that sends a message as the server does is understood: the bytes of
/// the length, read one by one, give the length of the message, and what
/// follows them in the frame is the message. An empty message is not read.
pub proof fn law_framed_message_is_read_back(payload: Seq<u8>)
    requires
        payload.len() <= MAX_MESSAGE_SIZE,
    ensures
        ({
            let split = varint(payload.len()).len() as int;
            let reader = after_bytes(ReaderPhaseView::start(), framed(payload).take(split));
            &&& framed(payload).skip(split) == payload
            &&& if payload.len() == 0 {
                reader == ReaderPhaseView::Finished(Err(BidError::ErrorOnRead))
            } else {
                &&& reader.due() == ReaderActionView::ReadBody(payload.len() as usize)
                &&& reader.next(ReaderEventView::BodyRead(Some(payload))).due()
                    == ReaderActionView::Parse(payload)
            }
        }),
{
    let split = varint(payload.len()).len() as int;
    assert(framed(payload).take(split) =~= varint(payload.len()));
    assert(framed(payload).skip(split) =~= payload);
    lemma_varint(payload.len());
    law_every_varint_is_read(varint(payload.len()));
}

impl ReaderPhaseView {
    /// Whether the event answers the action that is due.
    pub open spec fn is_due(self, event: ReaderEventView) -> bool {
        match self.due() {
            ReaderActionView::ReadByte => event is ByteRead,
            ReaderActionView::ReadBody(_) => event is BodyRead,
            ReaderActionView::Parse(_) => event is Parsed,
            ReaderActionView::Finish => false,
        }
    }

    /// How many steps of a reading are left: the length, the message, its parsing.
    pub open spec fn steps_left(self) -> int {
        match self {
            ReaderPhaseView::Length { .. } => 3,
            ReaderPhaseView::Body { .. } => 2,
            ReaderPhaseView::Parsing { .. } => 1,
            ReaderPhaseView::Finished(_) => 0,
        }
    }

    /// What holds of every reader: what it has read of a length is one that a
    /// message can have, and so is the length of a message that it awaits.
    pub open spec fn wf(self) -> bool {
        match self {
            ReaderPhaseView::Length { value, count } => {
                value <= MAX_MESSAGE_SIZE && count <= HIGH_PLACE
            },
            ReaderPhaseView::Body { len } => 0 < len <= MAX_MESSAGE_SIZE,
            _ => true,
        }
    }
}

/// Reading a message goes forward: each answer to an action that is due leads to
/// a later step, unless it is a byte of a length that has more bytes to come. A
/// reader with no steps left is finished, and no message is awaited that is empty
/// or too long.
pub proof fn law_reading_goes_forward(reader: ReaderPhaseView, event: ReaderEventView)
    requires
        reader.wf(),
        reader.is_due(event),
    ensures
        ReaderPhaseView::start().wf(),
        reader.next(event).wf(),
        ({
            let has_more = match event {
                ReaderEventView::ByteRead(Some(byte)) => byte >= 128,
                _ => false,
            };
            if has_more {
                reader.next(event) is Length || reader.next(event) is Finished
            } else {
                0 <= reader.next(event).steps_left() < reader.steps_left()
            }
        }),
        reader.next(event).steps_left() == 0 <==> reader.next(event) is Finished,
{
}

/// What the view of an event or of an action says is what happens.
pub proof fn law_framing_views(
    byte: Option<u8>,
    data: Vec<u8>,
    msg: ServerRequest,
    len: usize,
    done: bool,
    outcome: Result<(), BidError>,
)
    ensures
        ReaderEvent::ByteRead(byte)@ == ReaderEventView::ByteRead(byte),
        ReaderEvent::BodyRead(Some(data))@ == ReaderEventView::BodyRead(Some(data@)),
        ReaderEvent::BodyRead(None)@ == ReaderEventView::BodyRead(None),
        ReaderEvent::Parsed(Some(msg))@ == ReaderEventView::Parsed(Some(msg@)),
        ReaderEvent::Parsed(None)@ == ReaderEventView::Parsed(None),
        ReaderAction::ReadByte@ == ReaderActionView::ReadByte,
        ReaderAction::ReadBody(len)@ == ReaderActionView::ReadBody(len),
        ReaderAction::Parse(data)@ == ReaderActionView::Parse(data@),
        ReaderAction::Finish@ == ReaderActionView::Finish,
        SenderEvent::Encoded(Some(data))@ == SenderEventView::Encoded(Some(data@)),
        SenderEvent::Encoded(None)@ == SenderEventView::Encoded(None),
        (SenderEvent::Written { done })@ == (SenderEventView::Written { done }),
        SenderAction::Encode@ == SenderActionView::Encode,
        SenderAction::Write(data)@ == SenderActionView::Write(data@),
        SenderAction::Finish(outcome)@ == SenderActionView::Finish(outcome),
        (MessageReader { phase: ReaderPhase::Finished(Ok(msg)) })@ == ReaderPhaseView::Finished(
            Ok(msg@),
        ),
{
}

/// A number is written as a varint that stands for it, and in no more bytes than it
/// needs. A frame is that varint of the length and then the message.
pub proof fn law_varint_stands_for_its_number(n: nat, payload: Seq<u8>)
    ensures
        is_varint(varint(n)),
        varint_value(varint(n)) == n,
        varint(n).len() > 1 ==> varint(n).last() != 0,
        framed(payload).take(varint(payload.len()).len() as int) == varint(payload.len()),
        framed(payload).skip(varint(payload.len()).len() as int) == payload,
{
    lemma_varint(n);
    lemma_varint_is_short(n);
    let split = varint(payload.len()).len() as int;
    assert(framed(payload).take(split) =~= varint(payload.len()));
    assert(framed(payload).skip(split) =~= payload);
}

proof fn lemma_varint_is_short(n: nat)
    ensures
        n > 0 ==> varint(n).last() != 0,
        varint(n).len() > 1 ==> n > 0,
        varint(n).len() > 0,
    decreases n,
{
    if n >= 128 {
        lemma_varint_is_short(n / 128);
        assert(varint(n).last() == varint(n / 128).last());
    }
}

/// What came of a read decides how a reading goes on, and nothing else does. A byte
/// that does not come ends it with [`BidError::ErrorOnRead`]. A message of the
/// awaited length is parsed as it is, and any other, or none, ends the reading with
/// [`BidError::PlayerTimedOut`]. If its bytes parse to a message, the reading ends
/// with exactly that message, whatever it holds, and with
/// [`BidError::ProtoParseError`] only if they do not parse.
pub proof fn law_what_is_parsed_is_read(
    reader: ReaderPhaseView,
    data: Seq<u8>,
    msg: ServerRequestView,
)
    ensures
        reader.due() == ReaderActionView::ReadByte ==> reader.next(ReaderEventView::ByteRead(None))
            == ReaderPhaseView::Finished(Err(BidError::ErrorOnRead)),
        reader.due() matches ReaderActionView::ReadBody(len) ==> {
            &&& reader.next(ReaderEventView::BodyRead(None)) == ReaderPhaseView::Finished(
                Err(BidError::PlayerTimedOut),
            )
            &&& data.len() == len ==> reader.next(ReaderEventView::BodyRead(Some(data))).due()
                == ReaderActionView::Parse(data)
            &&& data.len() != len ==> reader.next(ReaderEventView::BodyRead(Some(data)))
                == ReaderPhaseView::Finished(Err(BidError::PlayerTimedOut))
        },
        reader.due() is Parse ==> {
            &&& reader.next(ReaderEventView::Parsed(Some(msg))) == ReaderPhaseView::Finished(
                Ok(msg),
            )
            &&& reader.next(ReaderEventView::Parsed(None)) == ReaderPhaseView::Finished(
                Err(BidError::ProtoParseError),
            )
        },
        ReaderPhaseView::start().due() == ReaderActionView::ReadByte,
        reader.due() == ReaderActionView::Finish <==> reader is Finished,
{
}

/// Only what is due moves a reading or a sending on, and nothing moves one that is
/// over.
pub proof fn law_framing_waits_for_what_is_due(
    reader: ReaderPhaseView,
    read: ReaderEventView,
    sender: SenderPhaseView,
    sent: SenderEventView,
)
    ensures
        !reader.is_due(read) ==> reader.next(read) == reader,
        reader.is_due(read) <==> {
            ||| reader.due() == ReaderActionView::ReadByte && read is ByteRead
            ||| reader.due() is ReadBody && read is BodyRead
            ||| reader.due() is Parse && read is Parsed
        },
        !(sender.due() is Encode && sent is Encoded) && !(sender.due() is Write && sent is Written)
            ==> sender.next(sent) == sender,
{
}

/// The view of a reader or of a sender says where it stands, and with which error it
/// ended.
pub proof fn law_views_of_reader_and_sender(
    reader: MessageReader,
    sender: MessageSender,
)
    ensures
        match reader.phase {
            ReaderPhase::Length { value, count } => reader@ == (ReaderPhaseView::Length {
                value,
                count,
            }),
            ReaderPhase::Body { len } => reader@ == (ReaderPhaseView::Body { len }),
            ReaderPhase::Parsing { data } => reader@ == (ReaderPhaseView::Parsing { data: data@ }),
            ReaderPhase::Finished(Ok(msg)) => reader@ == ReaderPhaseView::Finished(Ok(msg@)),
            ReaderPhase::Finished(Err(e)) => reader@ == ReaderPhaseView::Finished(Err(e)),
        },
        match sender.phase {
            SenderPhase::Encoding => sender@ == SenderPhaseView::Encoding,
            SenderPhase::Writing { frame } => sender@ == (SenderPhaseView::Writing {
                frame: frame@,
            }),
            SenderPhase::Finished(outcome) => sender@ == SenderPhaseView::Finished(outcome),
        },
{
}

/// What is written is the frame that is held, and what is parsed are the bytes that
/// are held. Whether a frame could be written decides how the sending ends; a message
/// that was not encoded is an encoding error, whatever is said of its writing.
pub proof fn law_what_is_held_is_used(
    frame: Seq<u8>,
    len: usize,
    value: u32,
    count: u32,
    outcome: Result<(), BidError>,
    flag: bool,
)
    ensures
        SenderPhaseView::Encoding.due() == SenderActionView::Encode,
        (SenderPhaseView::Writing { frame }).due() == SenderActionView::Write(frame),
        (SenderPhaseView::Writing { frame }).next(SenderEventView::Written { done: false }).due()
            == SenderActionView::Finish(Err(BidError::ErrorOnSend)),
        (SenderPhaseView::Writing { frame }).next(
            SenderEventView::Written { done: true },
        ).due() matches SenderActionView::Finish(ended) && ended is Ok,
        SenderPhaseView::Finished(outcome).due() == SenderActionView::Finish(outcome),
        sending_result(false, flag) == Err::<(), BidError>(BidError::ErrorProtobufEncoding),
        sending_result(true, false) == Err::<(), BidError>(BidError::ErrorOnSend),
        sending_result(true, true) is Ok,
        (ReaderPhaseView::Length { value, count }).due() == ReaderActionView::ReadByte,
        (ReaderPhaseView::Body { len }).due() == ReaderActionView::ReadBody(len),
        (ReaderPhaseView::Parsing { data: frame }).due() == ReaderActionView::Parse(frame),
{
}

/// Each byte of a length adds its lower seven bits, worth 128 times as much as those
/// of the byte before it. A length above 2147483647 ends the reading with
/// [`BidError::ErrorOnRead`] at once, and so does a length of 0 that is complete. A
/// byte from 128 on is followed by another one, and one below completes the length.
pub proof fn law_length_is_read_byte_by_byte(value: u32, count: u32, byte: u8, place: u32)
    ensures
        digit_value(0) == 1,
        place < 5 ==> digit_value((place + 1) as u32) == 128 * digit_value(place),
        place > 5 ==> digit_value(place) == digit_value(5),
        ({
            let reader = ReaderPhaseView::Length { value, count };
            let after = reader.next(ReaderEventView::ByteRead(Some(byte)));
            let total = value + (byte % 128) * digit_value(count);
            if total > 2147483647 || (byte < 128 && total == 0) {
                after == ReaderPhaseView::Finished(Err(BidError::ErrorOnRead))
            } else if byte < 128 {
                after.due() == ReaderActionView::ReadBody(total as usize)
            } else {
                &&& after.due() == ReaderActionView::ReadByte
                &&& after matches ReaderPhaseView::Length { value: so_far, count: read } && so_far
                    == total && (count < 5 ==> read == count + 1) && (count >= 5 ==> read == 5)
            }
        }),
{
}

} // verus!
