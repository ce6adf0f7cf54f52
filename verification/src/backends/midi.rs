//! The device sink's side of an event: the payload read as a note, and the
//! note framed as a three-byte message.

use crate::event::Event;
use vstd::prelude::*;
use vstd::string::*;

verus! {

/// The status byte of a message that switches a note on.
pub const NOTE_ON_MSG: u8 = 0x90;

/// The status byte of a message that switches a note off. No event asks for
/// one; the constant is there for the sake of the protocol.
pub const NOTE_OFF_MSG: u8 = 0x80;

/// The velocity that every note is played with.
pub const VELOCITY: u8 = 0x64;

/// The highest note that a message can carry.
pub const MAX_NOTE: u8 = 127;

/// Why a payload is not a note.
#[derive(Clone, Copy, Debug, PartialEq, Eq, Structural)]
pub enum ParseError {
    /// The payload is not a decimal number: one or more digits, with or
    /// without a plus sign before them.
    Malformed,
    /// The payload is a number above `MAX_NOTE`.
    OutOfRange,
}

/// Whether `c` is one of the ten decimal digits.
pub open spec fn is_digit(c: char) -> bool {
    '0' <= c <= '9'
}

/// The part of a payload that holds its digits: all of it but a plus sign at
/// the front.
pub open spec fn digits_of(payload: Seq<char>) -> Seq<char> {
    if payload.len() > 0 && payload[0] == '+' {
        payload.skip(1)
    } else {
        payload
    }
}

/// Whether a payload is a decimal number.
pub open spec fn is_number(payload: Seq<char>) -> bool {
    let digits = digits_of(payload);
    digits.len() > 0 && forall|i: int| 0 <= i < digits.len() ==> is_digit(#[trigger] digits[i])
}

/// The number that a sequence of digits writes, leading zeros and all.
pub open spec fn decimal_value(digits: Seq<char>) -> nat
    decreases digits.len(),
{
    if digits.len() == 0 {
        0
    } else {
        decimal_value(digits.drop_last()) * 10 + (digits.last() as nat - '0' as nat) as nat
    }
}

/// The note that a payload names, or why it names none.
pub open spec fn note_of(payload: Seq<char>) -> Result<u8, ParseError> {
    if !is_number(payload) {
        Err(ParseError::Malformed)
    } else if decimal_value(digits_of(payload)) > MAX_NOTE {
        Err(ParseError::OutOfRange)
    } else {
        Ok(decimal_value(digits_of(payload)) as u8)
    }
}

/// The message that switches `note` on.
pub open spec fn note_on(note: u8) -> Seq<u8> {
    seq![NOTE_ON_MSG, note, VELOCITY]
}

/// A payload with a character outside ASCII is no number.
proof fn lemma_number_is_ascii(payload: Seq<char>)
    requires
        is_number(payload),
    ensures
        vstd::utf8::is_ascii_chars(payload),
{
    let digits = digits_of(payload);
    assert forall|i: int| 0 <= i < payload.len() implies '\0' <= #[trigger] payload[i]
        <= '\u{7f}' by {
        if digits.len() == payload.len() {
            assert(is_digit(digits[i]));
        } else if i > 0 {
            assert(is_digit(digits[i - 1]));
        }
    }
}

/// Reads a payload as a note.
pub fn parse_note(payload: &str) -> (res: Result<u8, ParseError>)
    ensures
        res == note_of(payload@),
{
    if !payload.is_ascii() {
        proof {
            if is_number(payload@) {
                lemma_number_is_ascii(payload@);
            }
        }
        return Err(ParseError::Malformed);
    }
    proof {
        is_ascii_spec_bytes(payload);
    }
    let bytes = payload.as_bytes();
    let len: usize = bytes.len();
    let first: usize = if len > 0 && bytes[0] == 43 {
        1
    } else {
        0
    };
    let ghost digits = digits_of(payload@);
    assert(len > 0 ==> '\0' <= payload@[0] <= '\u{7f}');
    assert(digits =~= payload@.skip(first as int));
    if first == len {
        return Err(ParseError::Malformed);
    }
    // The value read so far, or 128 for every value above 127.
    let mut value: u8 = 0;
    let mut i: usize = first;
    while i < len
        invariant
            first <= i <= len,
            len == payload@.len(),
            is_ascii(payload),
            bytes@ =~= Seq::new(payload@.len(), |k: int| payload@[k] as u8),
            digits == digits_of(payload@),
            digits =~= payload@.skip(first as int),
            forall|j: int| 0 <= j < i - first ==> is_digit(#[trigger] digits[j]),
            value <= 128,
            value <= MAX_NOTE ==> value == decimal_value(digits.take(i - first)),
            value > MAX_NOTE ==> decimal_value(digits.take(i - first)) > MAX_NOTE,
        decreases len - i,
    {
        let byte: u8 = bytes[i];
        let ghost c = payload@[i as int];
        assert(c == digits[i - first]);
        assert('\0' <= c <= '\u{7f}' && c as u8 == byte);
        if byte < 48 || byte > 57 {
            assert(!is_digit(c));
            return Err(ParseError::Malformed);
        }
        assert(is_digit(c));
        assert(digits.take(i + 1 - first).drop_last() =~= digits.take(i - first));
        assert(digits.take(i + 1 - first).last() == c);
        assert(c as nat - '0' as nat == byte - 48);
        if value > MAX_NOTE {
            value = 128;
        } else {
            let next: u16 = value as u16 * 10 + (byte - 48) as u16;
            value = if next > 127 {
                128
            } else {
                next as u8
            };
        }
        i = i + 1;
    }
    assert(digits.take(len - first) =~= digits);
    if value > MAX_NOTE {
        Err(ParseError::OutOfRange)
    } else {
        Ok(value)
    }
}

impl Event {
    /// The message that switches on the note that the payload names. A
    /// payload that names no note gives no message.
    pub fn to_midi(&self) -> (res: Result<[u8; 3], ParseError>)
        ensures
            match note_of(self.value@) {
                Ok(note) => res matches Ok(message) && message@ == note_on(note),
                Err(error) => res == Err::<[u8; 3], ParseError>(error),
            },
    {
        match parse_note(self.value.as_str()) {
            Ok(note) => {
                let message: [u8; 3] = [NOTE_ON_MSG, note, VELOCITY];
                assert(message@ =~= note_on(note));
                Ok(message)
            },
            Err(error) => Err(error),
        }
    }
}

/// What a device sink does next with what its channel gave it.
#[derive(Clone, Copy, Debug, PartialEq, Eq)]
pub enum DeviceStep {
    /// Write this message to the device and go on.
    Write([u8; 3]),
    /// Drop the event, whose payload is no note, and go on.
    Skip(ParseError),
    /// The channel is closed: stop.
    Stop,
}

/// The step of a device sink: an event whose payload names a note is written
/// as that note's message, any other event is dropped with the reason, and
/// the end of the channel ends the sink. One event that fails stops nothing.
pub fn device_step(received: Option<&Event>) -> (step: DeviceStep)
    ensures
        match received {
            None => step == DeviceStep::Stop,
            Some(event) => match note_of(event.value@) {
                Ok(note) => step matches DeviceStep::Write(message) && message@ == note_on(note),
                Err(error) => step == DeviceStep::Skip(error),
            },
        },
{
    match received {
        None => DeviceStep::Stop,
        Some(event) => match event.to_midi() {
            Ok(message) => DeviceStep::Write(message),
            Err(error) => DeviceStep::Skip(error),
        },
    }
}

} // verus!
