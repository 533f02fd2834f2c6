//! The bytes that go to and come from the controller.

use vstd::prelude::*;
use midly::live::LiveEvent;
use midly::num::u4;
use midly::num::u7;
use midly::MidiMessage;
use crate::events::classify;
use crate::events::event_of;
use crate::events::ControlEvent;
use crate::events::Message;

verus! {

/// The channel that the controller's lights listen on.
pub const CHANNEL: u8 = 1;

/// The bytes of `message` on `channel`: a status byte made of the
/// message's kind and the channel's low four bits, then the two fields'
/// low seven bits.
pub open spec fn wire_bytes(channel: u8, message: Message) -> Seq<u8> {
    match message {
        Message::NoteOff { key, vel } => seq![0x80u8 | (channel & 0x0f), key & 0x7f, vel & 0x7f],
        Message::NoteOn { key, vel } => seq![0x90u8 | (channel & 0x0f), key & 0x7f, vel & 0x7f],
        Message::Controller { controller, value } => seq![
            0xb0u8 | (channel & 0x0f),
            controller & 0x7f,
            value & 0x7f,
        ],
    }
}

/// The message that `raw` holds, if it holds one of the three kinds: a
/// status byte of that kind, then two data bytes below `0x80`. Bytes
/// after these are not looked at.
pub open spec fn parsed(raw: Seq<u8>) -> Option<Message> {
    if raw.len() >= 3 && raw[1] < 0x80 && raw[2] < 0x80 {
        if raw[0] >> 4 == 0x8 {
            Some(Message::NoteOff { key: raw[1], vel: raw[2] })
        } else if raw[0] >> 4 == 0x9 {
            Some(Message::NoteOn { key: raw[1], vel: raw[2] })
        } else if raw[0] >> 4 == 0xb {
            Some(Message::Controller { controller: raw[1], value: raw[2] })
        } else {
            None
        }
    } else {
        None
    }
}

/// Writes `message` on `channel` as the controller expects it.
///
/// Calls `midly::live::LiveEvent::write` on a `Vec<u8>`, which cannot
/// fail. The contract claims what midly's source shows: the channel and
/// the fields are masked to four and seven bits, and the status byte
/// comes first.
#[verifier::external_body]
fn encode(channel: u8, message: Message) -> (out: Vec<u8>)
    ensures
        out@ == wire_bytes(channel, message),
{
    let message = match message {
        Message::NoteOff { key, vel } => MidiMessage::NoteOff { key: u7::new(key), vel: u7::new(vel) },
        Message::NoteOn { key, vel } => MidiMessage::NoteOn { key: u7::new(key), vel: u7::new(vel) },
        Message::Controller { controller, value } => MidiMessage::Controller { controller: u7::new(controller), value: u7::new(value) },
    };
    let mut out: Vec<u8> = Vec::new();
    let _ = LiveEvent::Midi { channel: u4::new(channel), message }.write(&mut out);
    out
}

/// Reads one message of the controller from its raw bytes.
///
/// Calls `midly::live::LiveEvent::parse`. The contract claims what
/// midly's source shows of the three kinds that are kept: the status
/// byte's high four bits give the kind, its low four bits (the channel)
/// are dropped, and two data bytes below `0x80` must follow. Everything
/// else, midly's errors included, is `None`.
#[verifier::external_body]
fn parse(raw: &[u8]) -> (r: Option<Message>)
    ensures
        r == parsed(raw@),
{
    match LiveEvent::parse(raw) {
        Ok(LiveEvent::Midi { message: MidiMessage::NoteOff { key, vel }, .. }) => Some(Message::NoteOff { key: key.as_int(), vel: vel.as_int() }),
        Ok(LiveEvent::Midi { message: MidiMessage::NoteOn { key, vel }, .. }) => Some(Message::NoteOn { key: key.as_int(), vel: vel.as_int() }),
        Ok(LiveEvent::Midi { message: MidiMessage::Controller { controller, value }, .. }) => Some(Message::Controller { controller: controller.as_int(), value: value.as_int() }),
        _ => None,
    }
}

/// The bytes that open every system-exclusive frame for the controller.
pub open spec fn sysex_header() -> Seq<u8> {
    seq![0xf0u8, 0x00u8, 0x21u8, 0x1du8, 0x01u8, 0x01u8]
}

/// The frame that switches the controller to user mode.
pub open spec fn user_mode() -> Seq<u8> {
    sysex_header() + seq![0x0au8, 0x01u8, 0xf7u8]
}

/// The frame that sets entry `index` of the controller's palette to a
/// color: each channel as its low seven bits, then its top bit; white is
/// always zero.
pub open spec fn palette_entry(index: u8, red: u8, green: u8, blue: u8) -> Seq<u8> {
    sysex_header() + seq![
        0x03u8,
        index,
        red & 0x7f,
        red >> 7,
        green & 0x7f,
        green >> 7,
        blue & 0x7f,
        blue >> 7,
        0u8,
        0u8,
        0xf7u8,
    ]
}

/// A frame that starts with the system-exclusive header.
fn sysex_frame() -> (r: Vec<u8>)
    ensures
        r@ == sysex_header(),
{
    let mut out: Vec<u8> = Vec::new();
    out.push(0xf0);
    out.push(0x00);
    out.push(0x21);
    out.push(0x1d);
    out.push(0x01);
    out.push(0x01);
    assert(out@ =~= sysex_header());
    out
}

/// The frame that switches the controller to user mode.
pub fn user_mode_frame() -> (r: Vec<u8>)
    ensures
        r@ == user_mode(),
{
    let mut out: Vec<u8> = sysex_frame();
    out.push(0x0a);
    out.push(0x01);
    out.push(0xf7);
    assert(out@ =~= user_mode());
    out
}

/// The frame that sets entry `index` of the controller's palette to the
/// color `(red, green, blue)`.
pub fn palette_frame(index: u8, red: u8, green: u8, blue: u8) -> (r: Vec<u8>)
    ensures
        r@ == palette_entry(index, red, green, blue),
{
    let mut out: Vec<u8> = sysex_frame();
    out.push(0x03);
    out.push(index);
    out.push(red & 0x7f);
    out.push(red >> 7);
    out.push(green & 0x7f);
    out.push(green >> 7);
    out.push(blue & 0x7f);
    out.push(blue >> 7);
    out.push(0);
    out.push(0);
    out.push(0xf7);
    assert(out@ =~= palette_entry(index, red, green, blue));
    out
}

/// Every byte of a palette frame but the first and the last is a data
/// byte: below `0x80`, as long as the index is.
pub proof fn lemma_palette_entry_is_data(index: u8, red: u8, green: u8, blue: u8)
    requires
        index < 0x80,
    ensures
        palette_entry(index, red, green, blue).len() == 17,
        palette_entry(index, red, green, blue)[0] == 0xf0,
        palette_entry(index, red, green, blue)[16] == 0xf7,
        forall|i: int| 1 <= i < 16 ==> #[trigger] palette_entry(index, red, green, blue)[i] < 0x80,
{
    assert(red & 0x7f < 0x80 && red >> 7 < 0x80) by (bit_vector);
    assert(green & 0x7f < 0x80 && green >> 7 < 0x80) by (bit_vector);
    assert(blue & 0x7f < 0x80 && blue >> 7 < 0x80) by (bit_vector);
}

/// The messages that light the controller up at the start, in the order
/// in which they are sent: the upper row of buttons, the lower row, then
/// the pads.
pub open spec fn startup_messages() -> Seq<Message> {
    Seq::new(
        80,
        |i: int|
            if i < 8 {
                Message::Controller { controller: (20 + i) as u8, value: (65 + i) as u8 }
            } else if i < 16 {
                Message::Controller { controller: (102 + i - 8) as u8, value: (73 + i - 8) as u8 }
            } else {
                Message::NoteOn { key: (36 + i - 16) as u8, vel: (1 + i - 16) as u8 }
            },
    )
}

/// The frames that are sent at the start: the switch to user mode, then
/// each startup message on the lights' channel.
pub open spec fn startup() -> Seq<Seq<u8>> {
    seq![user_mode()] + startup_messages().map_values(|m: Message| wire_bytes(CHANNEL, m))
}

/// The frames to send at the start, in order.
pub fn initialise() -> (r: Vec<Vec<u8>>)
    ensures
        r@.len() == startup().len(),
        forall|i: int| 0 <= i < r@.len() ==> (#[trigger] r@[i])@ == startup()[i],
{
    let mut out: Vec<Vec<u8>> = Vec::new();
    out.push(user_mode_frame());
    let mut i: u8 = 0;
    while i < 8
        invariant
            i <= 8,
            out@.len() == 1 + i,
            forall|k: int| 0 <= k < out@.len() ==> (#[trigger] out@[k])@ == startup()[k],
        decreases 8 - i,
    {
        let message: Message = Message::Controller { controller: 20 + i, value: 65 + i };
        assert(startup_messages()[i as int] == message);
        out.push(encode(CHANNEL, message));
        i = i + 1;
    }
    let mut i: u8 = 0;
    while i < 8
        invariant
            i <= 8,
            out@.len() == 9 + i,
            forall|k: int| 0 <= k < out@.len() ==> (#[trigger] out@[k])@ == startup()[k],
        decreases 8 - i,
    {
        let message: Message = Message::Controller { controller: 102 + i, value: 73 + i };
        assert(startup_messages()[8 + i as int] == message);
        out.push(encode(CHANNEL, message));
        i = i + 1;
    }
    let mut i: u8 = 0;
    while i < 64
        invariant
            i <= 64,
            out@.len() == 17 + i,
            forall|k: int| 0 <= k < out@.len() ==> (#[trigger] out@[k])@ == startup()[k],
        decreases 64 - i,
    {
        let message: Message = Message::NoteOn { key: 36 + i, vel: 1 + i };
        assert(startup_messages()[16 + i as int] == message);
        out.push(encode(CHANNEL, message));
        i = i + 1;
    }
    out
}

/// The control event that the raw bytes `raw` stand for: that of the
/// message they hold, and nothing to react to where they hold none.
pub open spec fn event_in(raw: Seq<u8>) -> ControlEvent {
    match parsed(raw) {
        Some(message) => event_of(message),
        None => ControlEvent::Ignored,
    }
}

/// Reads the raw bytes of one message from the controller as a control
/// event.
pub fn decode(raw: &[u8]) -> (r: ControlEvent)
    ensures
        r == event_in(raw@),
{
    match parse(raw) {
        Some(message) => classify(message),
        None => ControlEvent::Ignored,
    }
}

/// What is written can be read back: the bytes of a message with
/// seven-bit fields hold that message, on every channel.
pub proof fn lemma_wire_round_trip(channel: u8, message: Message)
    requires
        match message {
            Message::NoteOff { key, vel } => key < 0x80 && vel < 0x80,
            Message::NoteOn { key, vel } => key < 0x80 && vel < 0x80,
            Message::Controller { controller, value } => controller < 0x80 && value < 0x80,
        },
    ensures
        parsed(wire_bytes(channel, message)) == Some(message),
{
    assert((0x80u8 | (channel & 0x0f)) >> 4 == 0x8) by (bit_vector);
    assert((0x90u8 | (channel & 0x0f)) >> 4 == 0x9) by (bit_vector);
    assert((0xb0u8 | (channel & 0x0f)) >> 4 == 0xb) by (bit_vector);
    assert(forall|v: u8| v < 0x80 ==> #[trigger] (v & 0x7f) == v) by (bit_vector);
}

} // verus!
