//! Wire encoding of the channel messages this engine emits.
use midi_convert::render_slice::MidiRenderSlice;
use midi_types::{Channel, Control, MidiMessage, Note, Value7};
use vstd::prelude::*;

verus! {

/// Status nibble of a note-off message.
pub const NOTE_OFF_STATUS: u8 = 0x80;

/// Status nibble of a note-on message.
pub const NOTE_ON_STATUS: u8 = 0x90;

/// Status nibble of a control-change message.
pub const CONTROL_CHANGE_STATUS: u8 = 0xB0;

/// A logical channel message, before encoding.
#[derive(Clone, Copy, Debug, PartialEq, Eq, Structural)]
pub enum Message {
    ControlChange { channel: u8, control: u8, value: u8 },
    NoteOn { channel: u8, note: u8, velocity: u8 },
    NoteOff { channel: u8, note: u8, velocity: u8 },
}

impl Message {
    /// Every field lies in its legal range: a four-bit channel and seven-bit data.
    pub open spec fn wf(self) -> bool {
        match self {
            Message::ControlChange { channel, control, value } => channel < 16 && control < 128
                && value < 128,
            Message::NoteOn { channel, note, velocity } => channel < 16 && note < 128 && velocity
                < 128,
            Message::NoteOff { channel, note, velocity } => channel < 16 && note < 128 && velocity
                < 128,
        }
    }

    /// The three bytes on the wire: status (kind in the high nibble, channel in
    /// the low one), then the two data bytes.
    pub open spec fn bytes(self) -> Seq<u8> {
        match self {
            Message::ControlChange { channel, control, value } => seq![
                (CONTROL_CHANGE_STATUS + channel) as u8,
                control,
                value,
            ],
            Message::NoteOn { channel, note, velocity } => seq![
                (NOTE_ON_STATUS + channel) as u8,
                note,
                velocity,
            ],
            Message::NoteOff { channel, note, velocity } => seq![
                (NOTE_OFF_STATUS + channel) as u8,
                note,
                velocity,
            ],
        }
    }
}

/// Relies on `MidiRenderSlice::render_slice` of midi-convert for the three
/// channel-voice messages: it writes `status | channel`, then the two data
/// bytes, into a buffer of at least three bytes. `Channel::new`, `Control::new`,
/// `Note::new` and `Value7::new` of midi-types keep in-range values as they are.
#[verifier::external_body]
fn render(m: Message) -> (r: [u8; 3])
    requires
        m.wf(),
    ensures
        r@ == m.bytes(),
{
    let msg = match m {
        Message::ControlChange { channel, control, value } => MidiMessage::ControlChange(
            Channel::new(channel), Control::new(control), Value7::new(value)),
        Message::NoteOn { channel, note, velocity } => MidiMessage::NoteOn(
            Channel::new(channel), Note::new(note), Value7::new(velocity)),
        Message::NoteOff { channel, note, velocity } => MidiMessage::NoteOff(
            Channel::new(channel), Note::new(note), Value7::new(velocity)),
    };
    let mut buf = [0u8; 3];
    msg.render_slice(&mut buf);
    buf
}

/// Encodes a well-formed message into its three wire bytes.
pub fn encode(m: Message) -> (r: [u8; 3])
    requires
        m.wf(),
    ensures
        r@ == m.bytes(),
        r[0] >= 0x80,
        r[1] < 0x80,
        r[2] < 0x80,
{
    proof {
        lemma_status_then_data(m);
    }
    render(m)
}

/// `0xB<channel> <controller_id> <value>`.
pub fn encode_control_change(channel: u8, controller_id: u8, value: u8) -> (r: [u8; 3])
    requires
        channel < 16,
        controller_id < 128,
        value < 128,
    ensures
        r@ == seq![(0xB0 + channel) as u8, controller_id, value],
{
    encode(Message::ControlChange { channel, control: controller_id, value })
}

/// `0x9<channel> <note> <velocity>`.
pub fn encode_note_on(channel: u8, note: u8, velocity: u8) -> (r: [u8; 3])
    requires
        channel < 16,
        note < 128,
        velocity < 128,
    ensures
        r@ == seq![(0x90 + channel) as u8, note, velocity],
{
    encode(Message::NoteOn { channel, note, velocity })
}

/// `0x8<channel> <note> <velocity>`.
pub fn encode_note_off(channel: u8, note: u8, velocity: u8) -> (r: [u8; 3])
    requires
        channel < 16,
        note < 128,
        velocity < 128,
    ensures
        r@ == seq![(0x80 + channel) as u8, note, velocity],
{
    encode(Message::NoteOff { channel, note, velocity })
}

/// Every encoded message is exactly three bytes long; its first byte has the
/// high bit set (a status byte) and the other two have it clear (data bytes).
pub proof fn lemma_status_then_data(m: Message)
    requires
        m.wf(),
    ensures
        m.bytes().len() == 3,
        m.bytes()[0] >= 0x80,
        m.bytes()[1] < 0x80,
        m.bytes()[2] < 0x80,
{
}

/// Common continuous-controller numbers.
#[derive(Clone, Copy, Debug, PartialEq, Eq, Structural)]
pub enum MidiCC {
    ModulationWheel,
    BreathController,
    FootController,
    PortamentoTime,
    Volume,
    Balance,
    Pan,
    Expression,
    SustainPedal,
    Portamento,
    ReverbLevel,
    ChorusLevel,
    ResetAllControllers,
}

/// The controller number that the protocol assigns to each named controller.
pub open spec fn cc_number(cc: MidiCC) -> u8 {
    match cc {
        MidiCC::ModulationWheel => 1,
        MidiCC::BreathController => 2,
        MidiCC::FootController => 4,
        MidiCC::PortamentoTime => 5,
        MidiCC::Volume => 7,
        MidiCC::Balance => 8,
        MidiCC::Pan => 10,
        MidiCC::Expression => 11,
        MidiCC::SustainPedal => 64,
        MidiCC::Portamento => 65,
        MidiCC::ReverbLevel => 91,
        MidiCC::ChorusLevel => 93,
        MidiCC::ResetAllControllers => 121,
    }
}

impl MidiCC {
    /// The controller number of this controller.
    pub fn number(self) -> (r: u8)
        ensures
            r == cc_number(self),
            r < 128,
    {
        match self {
            MidiCC::ModulationWheel => 1,
            MidiCC::BreathController => 2,
            MidiCC::FootController => 4,
            MidiCC::PortamentoTime => 5,
            MidiCC::Volume => 7,
            MidiCC::Balance => 8,
            MidiCC::Pan => 10,
            MidiCC::Expression => 11,
            MidiCC::SustainPedal => 64,
            MidiCC::Portamento => 65,
            MidiCC::ReverbLevel => 91,
            MidiCC::ChorusLevel => 93,
            MidiCC::ResetAllControllers => 121,
        }
    }
}

} // verus!
