//! Messages exchanged between the native host and the embedded webview, and
//! their wire form: a compact binary encoding wrapped in standard base64 text.
//!
//! Every message is a tree of enum variants over `u32` fields. On the wire a
//! variant is its index and a field is its value, each written as a variable
//! length integer of seven bits per byte, low bits first. The integers are
//! written and read by `postcard`, the text by `base64`; the framing of the
//! messages around them is verified here.

use base64::Engine;
use vstd::prelude::*;

verus! {

/// A command sent by the webview to the host.
#[derive(Clone, Copy, Debug, PartialEq, Eq, Structural)]
pub enum FrontendCommand {
    Ready,
    RequestRandomNumber { request_id: u32 },
}

/// Events raised by the webview. None is defined: the only variant holds a
/// value of a type without values, so no event can be built.
#[derive(Clone, Copy, Debug, PartialEq, Eq)]
pub enum FrontendEvent {
    Never(core::convert::Infallible),
}

/// Commands sent by the host to the webview. None is defined: the only variant
/// holds a value of a type without values, so no command can be built.
#[derive(Clone, Copy, Debug, PartialEq, Eq)]
pub enum BackendCommand {
    Never(core::convert::Infallible),
}

/// An event sent by the host to the webview.
#[derive(Clone, Copy, Debug, PartialEq, Eq, Structural)]
pub enum BackendEvent {
    Connected,
    RandomNumber { request_id: u32, value: u32 },
}

/// A message travelling from the webview to the host.
#[derive(Clone, Copy, Debug, PartialEq, Eq)]
pub enum FrontendMessage {
    Command(FrontendCommand),
    Event(FrontendEvent),
}

/// A message travelling from the host to the webview.
#[derive(Clone, Copy, Debug, PartialEq, Eq)]
pub enum BackendMessage {
    Command(BackendCommand),
    Event(BackendEvent),
}

/// Why a message could not be turned into bytes.
#[derive(Debug)]
pub enum EncodeError {
    /// The integer encoder refused a value; its own report is kept.
    Integer(postcard::Error),
}

#[verifier::external_type_specification]
#[verifier::external_body]
pub struct ExPostcardError(postcard::Error);

/// The variable length form of `n`: seven bits per byte, low bits first, the
/// high bit of a byte set when more bytes follow.
pub open spec fn varint(n: nat) -> Seq<u8>
    decreases n,
{
    if n < 128 {
        seq![n as u8]
    } else {
        seq![(n % 128 + 128) as u8] + varint(n / 128)
    }
}

/// Reads one variable length integer of at most 32 bits from the front of
/// `bytes`, of which `taken` bytes were read before: the value of the bytes
/// from here on and what follows them. There is none when the bytes end
/// early, when a fifth byte announces a sixth, or when the fifth byte holds
/// more than the four bits that are left. Forms longer than needed are read.
pub open spec fn varint_prefix(bytes: Seq<u8>, taken: nat) -> Option<(nat, Seq<u8>)>
    decreases 5 - taken,
{
    if taken >= 5 || bytes.len() == 0 {
        None
    } else if bytes[0] < 128 {
        if taken == 4 && bytes[0] > 15 {
            None
        } else {
            Some((bytes[0] as nat, bytes.skip(1)))
        }
    } else {
        match varint_prefix(bytes.skip(1), taken + 1) {
            Some((high, rest)) => Some(((bytes[0] - 128 + 128 * high) as nat, rest)),
            None => None,
        }
    }
}

/// The integer at the front of `bytes` and the bytes behind it.
pub open spec fn take_varint(bytes: Seq<u8>) -> Option<(nat, Seq<u8>)> {
    varint_prefix(bytes, 0)
}

/// The number of values that the bytes from the `taken`-th on can still hold.
pub open spec fn varint_room(taken: nat) -> nat {
    if taken == 0 {
        0x1_0000_0000
    } else if taken == 1 {
        0x200_0000
    } else if taken == 2 {
        0x4_0000
    } else if taken == 3 {
        0x800
    } else if taken == 4 {
        0x10
    } else {
        0
    }
}

/// Reading inverts writing at every depth: the written form of a value that
/// still fits, followed by anything, reads back as the value and what followed.
pub proof fn lemma_varint_prefix_of_varint(n: nat, rest: Seq<u8>, taken: nat)
    requires
        n < varint_room(taken),
    ensures
        varint_prefix(varint(n) + rest, taken) == Some((n, rest)),
    decreases n,
{
    let bytes = varint(n) + rest;
    if n < 128 {
        assert(bytes[0] == n as u8);
        assert(bytes.skip(1) =~= rest);
    } else {
        assert(taken < 4);
        assert(bytes[0] == (n % 128 + 128) as u8);
        assert(bytes.skip(1) =~= varint(n / 128) + rest);
        lemma_varint_prefix_of_varint(n / 128, rest, taken + 1);
    }
}

/// A 32-bit value written and read back is the value, whatever follows it.
pub proof fn lemma_take_varint_of_varint(value: u32, rest: Seq<u8>)
    ensures
        take_varint(varint(value as nat) + rest) == Some((value as nat, rest)),
{
    lemma_varint_prefix_of_varint(value as nat, rest, 0);
}

/// What is read fits the room that was left, and the rest is a tail of the
/// input.
pub proof fn lemma_varint_prefix_bounds(bytes: Seq<u8>, taken: nat)
    ensures
        varint_prefix(bytes, taken) matches Some((value, rest)) ==> value < varint_room(taken)
            && rest.len() < bytes.len(),
    decreases 5 - taken,
{
    if taken < 5 && bytes.len() > 0 && bytes[0] >= 128 {
        lemma_varint_prefix_bounds(bytes.skip(1), taken + 1);
    }
}

/// The written form of a 32-bit value has one to five bytes.
pub proof fn lemma_varint_len(n: nat, taken: nat)
    requires
        n < varint_room(taken),
    ensures
        1 <= varint(n).len() <= 5 - taken,
    decreases n,
{
    if n >= 128 {
        lemma_varint_len(n / 128, taken + 1);
    }
}

/// `postcard::to_allocvec` on a `u32`: postcard writes such a value as the
/// variable length integer that `varint` describes. It writes into a vector
/// that grows, which takes every byte, so the call does not fail.
#[verifier::external_body]
fn write_u32(value: u32) -> (r: Result<Vec<u8>, postcard::Error>)
    ensures
        match r {
            Ok(bytes) => bytes@ == varint(value as nat),
            Err(_) => false,
        },
{
    postcard::to_allocvec(&value)
}

/// `postcard::take_from_bytes` for a `u32`: postcard reads the variable length
/// integer at the front of the bytes as `varint_prefix` describes and returns
/// it with the unread bytes, and fails exactly where that function has none.
#[verifier::external_body]
fn read_u32(bytes: &[u8]) -> (r: Option<(u32, &[u8])>)
    ensures
        match r {
            Some((value, rest)) => take_varint(bytes@) == Some((value as nat, rest@)),
            None => take_varint(bytes@) is None,
        },
{
    postcard::take_from_bytes::<u32>(bytes).ok()
}

/// The text that the standard base64 alphabet with padding gives for `bytes`.
pub uninterp spec fn base64_text(bytes: Seq<u8>) -> Seq<char>;

/// The bytes that `text` stands for in standard base64 with canonical padding,
/// if it is such a text.
pub uninterp spec fn base64_bytes(text: Seq<char>) -> Option<Seq<u8>>;

/// `Engine::encode` of `base64::engine::general_purpose::STANDARD`. The text
/// is named, not spelled out. The engine decodes what it encoded to the same
/// bytes, which the second clause records. The call panics when the length of
/// the text would overflow `usize`; the precondition keeps such input away.
#[verifier::external_body]
fn base64_encode(bytes: &[u8]) -> (text: String)
    requires
        bytes@.len() / 3 * 4 + 4 <= usize::MAX,
    ensures
        text@ == base64_text(bytes@),
        base64_bytes(text@) == Some(bytes@),
{
    base64::engine::general_purpose::STANDARD.encode(bytes)
}

/// `Engine::decode` of `base64::engine::general_purpose::STANDARD`: the bytes
/// of a well-formed text, nothing for any other text.
#[verifier::external_body]
fn base64_decode(text: &str) -> (r: Option<Vec<u8>>)
    ensures
        match r {
            Some(bytes) => base64_bytes(text@) == Some(bytes@),
            None => base64_bytes(text@) is None,
        },
{
    base64::engine::general_purpose::STANDARD.decode(text).ok()
}

/// The written forms of the integers in `values`, one behind the other.
pub open spec fn varints(values: Seq<u32>) -> Seq<u8>
    decreases values.len(),
{
    if values.len() == 0 {
        Seq::empty()
    } else {
        varint(values[0] as nat) + varints(values.skip(1))
    }
}

/// The written forms of up to four integers, spelled out.
pub proof fn lemma_varints(values: Seq<u32>)
    requires
        values.len() <= 4,
    ensures
        values.len() == 0 ==> varints(values) == Seq::<u8>::empty(),
        values.len() == 1 ==> varints(values) == varint(values[0] as nat),
        values.len() == 2 ==> varints(values) == varint(values[0] as nat) + varint(
            values[1] as nat,
        ),
        values.len() == 3 ==> varints(values) == varint(values[0] as nat) + varint(
            values[1] as nat,
        ) + varint(values[2] as nat),
        values.len() == 4 ==> varints(values) == varint(values[0] as nat) + varint(
            values[1] as nat,
        ) + varint(values[2] as nat) + varint(values[3] as nat),
    decreases values.len(),
{
    if values.len() > 0 {
        let rest = values.skip(1);
        lemma_varints(rest);
        if values.len() == 1 {
            assert(varints(values) =~= varint(values[0] as nat));
        } else if values.len() == 2 {
            assert(varints(values) =~= varint(values[0] as nat) + varint(values[1] as nat));
        } else if values.len() == 3 {
            assert(varints(values) =~= varint(values[0] as nat) + varint(values[1] as nat)
                + varint(values[2] as nat));
        } else {
            assert(varints(values) =~= varint(values[0] as nat) + varint(values[1] as nat)
                + varint(values[2] as nat) + varint(values[3] as nat));
        }
    }
}

/// The bytes of the parts that were written, one behind the other; a part
/// that failed adds none.
pub open spec fn joined(parts: Seq<Result<Vec<u8>, postcard::Error>>) -> Seq<u8>
    decreases parts.len(),
{
    if parts.len() == 0 {
        Seq::empty()
    } else {
        (match parts[0] {
            Ok(bytes) => bytes@,
            Err(_) => Seq::empty(),
        }) + joined(parts.skip(1))
    }
}

/// The failure of the first part that failed, if one did.
pub open spec fn first_failure(parts: Seq<Result<Vec<u8>, postcard::Error>>) -> Option<
    postcard::Error,
>
    decreases parts.len(),
{
    if parts.len() == 0 {
        None
    } else {
        match parts[0] {
            Ok(_) => first_failure(parts.skip(1)),
            Err(error) => Some(error),
        }
    }
}

/// Whether each part is the written form of the integer at its place in
/// `values`.
pub open spec fn written_from(
    parts: Seq<Result<Vec<u8>, postcard::Error>>,
    values: Seq<u32>,
) -> bool {
    &&& parts.len() == values.len()
    &&& forall|i: int|
        0 <= i < parts.len() ==> ((#[trigger] parts[i]) matches Ok(bytes) && bytes@ == varint(
            values[i] as nat,
        ))
}

/// Parts that were written from integers hold no failure and join to the
/// written forms of the integers.
pub proof fn lemma_joined_written(parts: Seq<Result<Vec<u8>, postcard::Error>>, values: Seq<u32>)
    requires
        written_from(parts, values),
    ensures
        first_failure(parts) is None,
        joined(parts) == varints(values),
    decreases parts.len(),
{
    if parts.len() > 0 {
        assert(parts[0] is Ok);
        assert forall|i: int| 0 <= i < parts.skip(1).len() implies ((#[trigger] parts.skip(
            1,
        )[i]) matches Ok(bytes) && bytes@ == varint(values.skip(1)[i] as nat)) by {
            assert(parts.skip(1)[i] == parts[i + 1]);
        }
        lemma_joined_written(parts.skip(1), values.skip(1));
    }
}

/// Makes one message of parts that the integer encoder wrote one by one:
/// their bytes in their order, or the failure of the first part that the
/// encoder could not write.
pub fn assemble(parts: Vec<Result<Vec<u8>, postcard::Error>>) -> (r: Result<Vec<u8>, EncodeError>)
    ensures
        match first_failure(parts@) {
            None => r matches Ok(bytes) && bytes@ == joined(parts@),
            Some(failure) => r matches Err(EncodeError::Integer(error)) && error == failure,
        },
{
    let mut left = parts;
    let mut bytes: Vec<u8> = Vec::new();
    while left.len() > 0
        invariant
            first_failure(parts@) == first_failure(left@),
            joined(parts@) == bytes@ + joined(left@),
        decreases left@.len(),
    {
        let ghost before = left@;
        let ghost so_far = bytes@;
        let part = left.remove(0);
        assert(left@ =~= before.skip(1));
        match part {
            Ok(mut written) => {
                bytes.append(&mut written);
                assert(bytes@ + joined(left@) =~= so_far + joined(before));
            },
            Err(error) => {
                return Err(EncodeError::Integer(error));
            },
        }
    }
    assert(bytes@ + joined(left@) =~= bytes@);
    Ok(bytes)
}

fn write_all(values: &Vec<u32>) -> (parts: Vec<Result<Vec<u8>, postcard::Error>>)
    ensures
        written_from(parts@, values@),
{
    let mut parts: Vec<Result<Vec<u8>, postcard::Error>> = Vec::new();
    let mut index: usize = 0;
    while index < values.len()
        invariant
            index <= values@.len(),
            written_from(parts@, values@.take(index as int)),
        decreases values@.len() - index,
    {
        parts.push(write_u32(values[index]));
        index = index + 1;
    }
    assert(values@.take(index as int) =~= values@);
    parts
}

/// Writes the integers of a message as its bytes.
fn write_numbers(values: &Vec<u32>) -> (r: Result<Vec<u8>, EncodeError>)
    ensures
        r matches Ok(bytes) && bytes@ == varints(values@),
{
    let parts = write_all(values);
    proof {
        lemma_joined_written(parts@, values@);
    }
    assemble(parts)
}

impl FrontendCommand {
    /// The bytes of the command: the index of its variant, then its fields.
    pub open spec fn wire(self) -> Seq<u8> {
        match self {
            FrontendCommand::Ready => varint(0),
            FrontendCommand::RequestRandomNumber { request_id } => varint(1) + varint(
                request_id as nat,
            ),
        }
    }

    /// The command at the front of `bytes`; bytes behind it are not looked at.
    pub open spec fn parse(bytes: Seq<u8>) -> Option<FrontendCommand> {
        match take_varint(bytes) {
            Some((index, fields)) => if index == 0 {
                Some(FrontendCommand::Ready)
            } else if index == 1 {
                match take_varint(fields) {
                    Some((request_id, _)) => Some(
                        FrontendCommand::RequestRandomNumber { request_id: request_id as u32 },
                    ),
                    None => None,
                }
            } else {
                None
            },
            None => None,
        }
    }

    /// The integers that the command is made of.
    pub open spec fn numbers(self) -> Seq<u32> {
        match self {
            FrontendCommand::Ready => seq![0u32],
            FrontendCommand::RequestRandomNumber { request_id } => seq![1u32, request_id],
        }
    }

    fn to_numbers(&self) -> (numbers: Vec<u32>)
        ensures
            numbers@ == self.numbers(),
            varints(numbers@) == self.wire(),
    {
        let mut numbers: Vec<u32> = Vec::new();
        match self {
            FrontendCommand::Ready => {
                numbers.push(0);
            },
            FrontendCommand::RequestRandomNumber { request_id } => {
                numbers.push(1);
                numbers.push(*request_id);
            },
        }
        proof {
            assert(numbers@ =~= self.numbers());
            lemma_varints(numbers@);
        }
        numbers
    }

    fn read(bytes: &[u8]) -> (r: Option<FrontendCommand>)
        ensures
            r == Self::parse(bytes@),
    {
        match read_u32(bytes) {
            Some((index, fields)) => if index == 0 {
                Some(FrontendCommand::Ready)
            } else if index == 1 {
                match read_u32(fields) {
                    Some((request_id, _)) => Some(
                        FrontendCommand::RequestRandomNumber { request_id },
                    ),
                    None => None,
                }
            } else {
                None
            },
            None => None,
        }
    }
}

impl BackendEvent {
    /// The bytes of the event: the index of its variant, then its fields in
    /// the order of their declaration.
    pub open spec fn wire(self) -> Seq<u8> {
        match self {
            BackendEvent::Connected => varint(0),
            BackendEvent::RandomNumber { request_id, value } => varint(1) + varint(
                request_id as nat,
            ) + varint(value as nat),
        }
    }

    /// The event at the front of `bytes`; bytes behind it are not looked at.
    pub open spec fn parse(bytes: Seq<u8>) -> Option<BackendEvent> {
        match take_varint(bytes) {
            Some((index, fields)) => if index == 0 {
                Some(BackendEvent::Connected)
            } else if index == 1 {
                match take_varint(fields) {
                    Some((request_id, more)) => match take_varint(more) {
                        Some((value, _)) => Some(
                            BackendEvent::RandomNumber {
                                request_id: request_id as u32,
                                value: value as u32,
                            },
                        ),
                        None => None,
                    },
                    None => None,
                }
            } else {
                None
            },
            None => None,
        }
    }

    /// The integers that the event is made of.
    pub open spec fn numbers(self) -> Seq<u32> {
        match self {
            BackendEvent::Connected => seq![0u32],
            BackendEvent::RandomNumber { request_id, value } => seq![1u32, request_id, value],
        }
    }

    fn to_numbers(&self) -> (numbers: Vec<u32>)
        ensures
            numbers@ == self.numbers(),
            varints(numbers@) == self.wire(),
    {
        let mut numbers: Vec<u32> = Vec::new();
        match self {
            BackendEvent::Connected => {
                numbers.push(0);
            },
            BackendEvent::RandomNumber { request_id, value } => {
                numbers.push(1);
                numbers.push(*request_id);
                numbers.push(*value);
            },
        }
        proof {
            assert(numbers@ =~= self.numbers());
            lemma_varints(numbers@);
        }
        numbers
    }

    fn read(bytes: &[u8]) -> (r: Option<BackendEvent>)
        ensures
            r == Self::parse(bytes@),
    {
        match read_u32(bytes) {
            Some((index, fields)) => if index == 0 {
                Some(BackendEvent::Connected)
            } else if index == 1 {
                match read_u32(fields) {
                    Some((request_id, more)) => match read_u32(more) {
                        Some((value, _)) => Some(BackendEvent::RandomNumber { request_id, value }),
                        None => None,
                    },
                    None => None,
                }
            } else {
                None
            },
            None => None,
        }
    }
}

/// Reading inverts writing: the bytes of a command, followed by any bytes,
/// parse as that command. A command has at most six bytes.
pub proof fn lemma_command_wire_roundtrip(command: FrontendCommand, tail: Seq<u8>)
    ensures
        FrontendCommand::parse(command.wire() + tail) == Some(command),
        1 <= command.wire().len() <= 6,
{
    reveal_with_fuel(varint, 2);
    match command {
        FrontendCommand::Ready => {
            lemma_varint_prefix_of_varint(0, tail, 0);
        },
        FrontendCommand::RequestRandomNumber { request_id } => {
            let field = varint(request_id as nat);
            lemma_varint_prefix_of_varint(1, field + tail, 0);
            assert(command.wire() + tail =~= varint(1) + (field + tail));
            lemma_varint_prefix_of_varint(request_id as nat, tail, 0);
            lemma_varint_len(request_id as nat, 0);
        },
    }
}

/// Reading inverts writing: the bytes of an event, followed by any bytes,
/// parse as that event. An event has at most eleven bytes.
pub proof fn lemma_event_wire_roundtrip(event: BackendEvent, tail: Seq<u8>)
    ensures
        BackendEvent::parse(event.wire() + tail) == Some(event),
        1 <= event.wire().len() <= 11,
{
    reveal_with_fuel(varint, 2);
    match event {
        BackendEvent::Connected => {
            lemma_varint_prefix_of_varint(0, tail, 0);
        },
        BackendEvent::RandomNumber { request_id, value } => {
            let first = varint(request_id as nat);
            let second = varint(value as nat);
            lemma_varint_prefix_of_varint(1, first + (second + tail), 0);
            assert(event.wire() + tail =~= varint(1) + (first + (second + tail)));
            lemma_varint_prefix_of_varint(request_id as nat, second + tail, 0);
            lemma_varint_prefix_of_varint(value as nat, tail, 0);
            lemma_varint_len(request_id as nat, 0);
            lemma_varint_len(value as nat, 0);
        },
    }
}

/// Reading inverts writing: the bytes of a command message, followed by any
/// bytes, parse as that message.
pub proof fn lemma_frontend_wire_roundtrip(message: FrontendMessage, tail: Seq<u8>)
    requires
        message is Command,
    ensures
        FrontendMessage::parse(message.wire() + tail) == Some(message),
{
    let command = message->Command_0;
    lemma_varint_prefix_of_varint(0, command.wire() + tail, 0);
    assert(message.wire() + tail =~= varint(0) + (command.wire() + tail));
    lemma_command_wire_roundtrip(command, tail);
}

/// Reading inverts writing: the bytes of an event message, followed by any
/// bytes, parse as that message.
pub proof fn lemma_backend_wire_roundtrip(message: BackendMessage, tail: Seq<u8>)
    requires
        message is Event,
    ensures
        BackendMessage::parse(message.wire() + tail) == Some(message),
{
    let event = message->Event_0;
    lemma_varint_prefix_of_varint(1, event.wire() + tail, 0);
    assert(message.wire() + tail =~= varint(1) + (event.wire() + tail));
    lemma_event_wire_roundtrip(event, tail);
}

/// A frontend message has at most seven bytes.
pub proof fn lemma_frontend_wire_len(message: FrontendMessage)
    ensures
        1 <= message.wire().len() <= 7,
{
    reveal_with_fuel(varint, 2);
    match message {
        FrontendMessage::Command(command) => {
            lemma_command_wire_roundtrip(command, Seq::empty());
        },
        _ => {},
    }
}

/// A backend message has at most twelve bytes.
pub proof fn lemma_backend_wire_len(message: BackendMessage)
    ensures
        1 <= message.wire().len() <= 12,
{
    reveal_with_fuel(varint, 2);
    match message {
        BackendMessage::Event(event) => {
            lemma_event_wire_roundtrip(event, Seq::empty());
        },
        _ => {},
    }
}

impl FrontendMessage {
    /// The bytes of the message: index 0 and the command. An event would be
    /// index 1 and the event's own bytes, of which there are none.
    pub open spec fn wire(self) -> Seq<u8> {
        match self {
            FrontendMessage::Command(command) => varint(0) + command.wire(),
            FrontendMessage::Event(_) => varint(1),
        }
    }

    /// The message at the front of `bytes`. Only index 0 leads to one: under
    /// index 1 an event would have to follow, and no bytes stand for one.
    pub open spec fn parse(bytes: Seq<u8>) -> Option<FrontendMessage> {
        match take_varint(bytes) {
            Some((index, body)) => if index == 0 {
                match FrontendCommand::parse(body) {
                    Some(command) => Some(FrontendMessage::Command(command)),
                    None => None,
                }
            } else {
                None
            },
            None => None,
        }
    }

    /// The text that carries the message.
    pub open spec fn text(self) -> Seq<char> {
        base64_text(self.wire())
    }

    /// The message that `text` carries: its base64 content, parsed. A text
    /// that is not base64, or whose bytes are no message, carries none.
    pub open spec fn parse_text(text: Seq<char>) -> Option<FrontendMessage> {
        match base64_bytes(text) {
            Some(bytes) => Self::parse(bytes),
            None => None,
        }
    }

    /// The integers that the message is made of.
    pub open spec fn numbers(self) -> Seq<u32> {
        match self {
            FrontendMessage::Command(command) => seq![0u32] + command.numbers(),
            FrontendMessage::Event(_) => seq![1u32],
        }
    }

    fn to_numbers(&self) -> (numbers: Vec<u32>)
        ensures
            numbers@ == self.numbers(),
            varints(numbers@) == self.wire(),
    {
        let mut numbers: Vec<u32> = Vec::new();
        match self {
            FrontendMessage::Command(command) => {
                numbers.push(0);
                let mut rest = command.to_numbers();
                numbers.append(&mut rest);
            },
            FrontendMessage::Event(_) => {
                numbers.push(1);
            },
        }
        proof {
            assert(numbers@ =~= self.numbers());
            lemma_varints(numbers@);
            if self is Command {
                lemma_varints(self->Command_0.numbers());
                assert(varints(numbers@) =~= self.wire());
            }
        }
        numbers
    }

    /// Writes the message as bytes. An error could come from the integer
    /// encoder alone, and it gives none.
    pub fn to_bytes(&self) -> (r: Result<Vec<u8>, EncodeError>)
        ensures
            r matches Ok(bytes) && bytes@ == self.wire(),
    {
        let numbers = self.to_numbers();
        write_numbers(&numbers)
    }

    /// Reads a message from the front of `bytes`; trailing bytes are ignored.
    pub fn from_bytes(bytes: &[u8]) -> (r: Option<FrontendMessage>)
        ensures
            r == Self::parse(bytes@),
    {
        match read_u32(bytes) {
            Some((index, body)) => if index == 0 {
                match FrontendCommand::read(body) {
                    Some(command) => Some(FrontendMessage::Command(command)),
                    None => None,
                }
            } else {
                None
            },
            None => None,
        }
    }

    /// The message as base64 text; there would be none if it could not be
    /// written as bytes. The text of a command reads back as that command.
    pub fn to_base64(&self) -> (r: Option<String>)
        ensures
            r matches Some(text) && text@ == self.text() && (self is Command ==> Self::parse_text(
                text@,
            ) == Some(*self)),
    {
        match self.to_bytes() {
            Ok(bytes) => {
                proof {
                    lemma_frontend_wire_len(*self);
                    if self is Command {
                        lemma_frontend_wire_roundtrip(*self, Seq::empty());
                        assert(self.wire() + Seq::<u8>::empty() =~= self.wire());
                    }
                }
                Some(base64_encode(bytes.as_slice()))
            },
            Err(_) => None,
        }
    }

    /// The message that `encoded` carries, or nothing for a malformed text.
    pub fn from_base64(encoded: &str) -> (r: Option<FrontendMessage>)
        ensures
            r == Self::parse_text(encoded@),
    {
        match base64_decode(encoded) {
            Some(bytes) => Self::from_bytes(bytes.as_slice()),
            None => None,
        }
    }
}

impl BackendMessage {
    /// The bytes of the message: index 1 and the event. A command would be
    /// index 0 and the command's own bytes, of which there are none.
    pub open spec fn wire(self) -> Seq<u8> {
        match self {
            BackendMessage::Command(_) => varint(0),
            BackendMessage::Event(event) => varint(1) + event.wire(),
        }
    }

    /// The message at the front of `bytes`. Only index 1 leads to one: under
    /// index 0 a command would have to follow, and no bytes stand for one.
    pub open spec fn parse(bytes: Seq<u8>) -> Option<BackendMessage> {
        match take_varint(bytes) {
            Some((index, body)) => if index == 1 {
                match BackendEvent::parse(body) {
                    Some(event) => Some(BackendMessage::Event(event)),
                    None => None,
                }
            } else {
                None
            },
            None => None,
        }
    }

    /// The text that carries the message.
    pub open spec fn text(self) -> Seq<char> {
        base64_text(self.wire())
    }

    /// The message that `text` carries: its base64 content, parsed. A text
    /// that is not base64, or whose bytes are no message, carries none.
    pub open spec fn parse_text(text: Seq<char>) -> Option<BackendMessage> {
        match base64_bytes(text) {
            Some(bytes) => Self::parse(bytes),
            None => None,
        }
    }

    /// The integers that the message is made of.
    pub open spec fn numbers(self) -> Seq<u32> {
        match self {
            BackendMessage::Command(_) => seq![0u32],
            BackendMessage::Event(event) => seq![1u32] + event.numbers(),
        }
    }

    fn to_numbers(&self) -> (numbers: Vec<u32>)
        ensures
            numbers@ == self.numbers(),
            varints(numbers@) == self.wire(),
    {
        let mut numbers: Vec<u32> = Vec::new();
        match self {
            BackendMessage::Command(_) => {
                numbers.push(0);
            },
            BackendMessage::Event(event) => {
                numbers.push(1);
                let mut rest = event.to_numbers();
                numbers.append(&mut rest);
            },
        }
        proof {
            assert(numbers@ =~= self.numbers());
            lemma_varints(numbers@);
            if self is Event {
                lemma_varints(self->Event_0.numbers());
                assert(varints(numbers@) =~= self.wire());
            }
        }
        numbers
    }

    /// Writes the message as bytes. An error could come from the integer
    /// encoder alone, and it gives none.
    pub fn to_bytes(&self) -> (r: Result<Vec<u8>, EncodeError>)
        ensures
            r matches Ok(bytes) && bytes@ == self.wire(),
    {
        let numbers = self.to_numbers();
        write_numbers(&numbers)
    }

    /// Reads a message from the front of `bytes`; trailing bytes are ignored.
    pub fn from_bytes(bytes: &[u8]) -> (r: Option<BackendMessage>)
        ensures
            r == Self::parse(bytes@),
    {
        match read_u32(bytes) {
            Some((index, body)) => if index == 1 {
                match BackendEvent::read(body) {
                    Some(event) => Some(BackendMessage::Event(event)),
                    None => None,
                }
            } else {
                None
            },
            None => None,
        }
    }

    /// The message as base64 text; there would be none if it could not be
    /// written as bytes. The text of an event reads back as that event.
    pub fn to_base64(&self) -> (r: Option<String>)
        ensures
            r matches Some(text) && text@ == self.text() && (self is Event ==> Self::parse_text(
                text@,
            ) == Some(*self)),
    {
        match self.to_bytes() {
            Ok(bytes) => {
                proof {
                    lemma_backend_wire_len(*self);
                    if self is Event {
                        lemma_backend_wire_roundtrip(*self, Seq::empty());
                        assert(self.wire() + Seq::<u8>::empty() =~= self.wire());
                    }
                }
                Some(base64_encode(bytes.as_slice()))
            },
            Err(_) => None,
        }
    }

    /// The message that `encoded` carries, or nothing for a malformed text.
    pub fn from_base64(encoded: &str) -> (r: Option<BackendMessage>)
        ensures
            r == Self::parse_text(encoded@),
    {
        match base64_decode(encoded) {
            Some(bytes) => Self::from_bytes(bytes.as_slice()),
            None => None,
        }
    }
}

impl FrontendCommand {
    /// The text that carries the command on its own, outside a message.
    pub open spec fn text(self) -> Seq<char> {
        base64_text(self.wire())
    }

    /// The command that `text` carries on its own: its base64 content,
    /// parsed. A text that is not base64, or whose bytes are no command,
    /// carries none.
    pub open spec fn parse_text(text: Seq<char>) -> Option<FrontendCommand> {
        match base64_bytes(text) {
            Some(bytes) => Self::parse(bytes),
            None => None,
        }
    }

    /// The command as base64 text; there would be none if it could not be
    /// written as bytes. The text reads back as the command.
    pub fn to_base64(&self) -> (r: Option<String>)
        ensures
            r matches Some(text) && text@ == self.text() && Self::parse_text(text@) == Some(*self),
    {
        let numbers = self.to_numbers();
        match write_numbers(&numbers) {
            Ok(bytes) => {
                proof {
                    lemma_command_wire_roundtrip(*self, Seq::empty());
                    assert(self.wire() + Seq::<u8>::empty() =~= self.wire());
                }
                Some(base64_encode(bytes.as_slice()))
            },
            Err(_) => None,
        }
    }

    /// The command that `encoded` carries, or nothing for a malformed text.
    pub fn from_base64(encoded: &str) -> (r: Option<FrontendCommand>)
        ensures
            r == Self::parse_text(encoded@),
    {
        match base64_decode(encoded) {
            Some(bytes) => Self::read(bytes.as_slice()),
            None => None,
        }
    }
}

impl BackendEvent {
    /// The text that carries the event on its own, outside a message.
    pub open spec fn text(self) -> Seq<char> {
        base64_text(self.wire())
    }

    /// The event that `text` carries on its own: its base64 content, parsed.
    /// A text that is not base64, or whose bytes are no event, carries none.
    pub open spec fn parse_text(text: Seq<char>) -> Option<BackendEvent> {
        match base64_bytes(text) {
            Some(bytes) => Self::parse(bytes),
            None => None,
        }
    }

    /// The event as base64 text; there would be none if it could not be
    /// written as bytes. The text reads back as the event.
    pub fn to_base64(&self) -> (r: Option<String>)
        ensures
            r matches Some(text) && text@ == self.text() && Self::parse_text(text@) == Some(*self),
    {
        let numbers = self.to_numbers();
        match write_numbers(&numbers) {
            Ok(bytes) => {
                proof {
                    lemma_event_wire_roundtrip(*self, Seq::empty());
                    assert(self.wire() + Seq::<u8>::empty() =~= self.wire());
                }
                Some(base64_encode(bytes.as_slice()))
            },
            Err(_) => None,
        }
    }

    /// The event that `encoded` carries, or nothing for a malformed text.
    pub fn from_base64(encoded: &str) -> (r: Option<BackendEvent>)
        ensures
            r == Self::parse_text(encoded@),
    {
        match base64_decode(encoded) {
            Some(bytes) => Self::read(bytes.as_slice()),
            None => None,
        }
    }
}

/// A malformed text is no message: a text that is not base64, or whose bytes
/// are none at all, carries neither a message nor a bare command or event.
pub proof fn lemma_malformed_text_is_no_message(text: Seq<char>)
    requires
        base64_bytes(text) is None || base64_bytes(text) == Some(Seq::<u8>::empty()),
    ensures
        FrontendMessage::parse_text(text) is None,
        BackendMessage::parse_text(text) is None,
        FrontendCommand::parse_text(text) is None,
        BackendEvent::parse_text(text) is None,
{
}

} // verus!
