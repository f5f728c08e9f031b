use joystick_midi::midi::{
    encode, encode_control_change, encode_note_off, encode_note_on, Message, MidiCC,
};

#[test]
fn control_change_bytes() {
    assert_eq!(encode_control_change(0, 0x0A, 0x60), [0xB0, 0x0A, 0x60]);
    assert_eq!(encode_control_change(15, 127, 0), [0xBF, 127, 0]);
}

#[test]
fn note_bytes() {
    assert_eq!(encode_note_on(3, 60, 127), [0x93, 60, 127]);
    assert_eq!(encode_note_off(3, 60, 0), [0x83, 60, 0]);
    assert_eq!(encode_note_on(0, 0, 1), [0x90, 0, 1]);
}

#[test]
fn encode_matches_the_helpers() {
    let m = Message::NoteOn { channel: 9, note: 36, velocity: 100 };
    assert_eq!(encode(m), encode_note_on(9, 36, 100));
    let m = Message::ControlChange { channel: 2, control: 7, value: 5 };
    assert_eq!(encode(m), [0xB2, 7, 5]);
}

#[test]
fn status_byte_then_data_bytes() {
    for channel in 0u8..16 {
        for data in [0u8, 1, 63, 64, 126, 127] {
            let all = [
                encode_control_change(channel, data, 127 - data),
                encode_note_on(channel, data, 127 - data),
                encode_note_off(channel, data, 127 - data),
            ];
            for bytes in all.iter() {
                assert!(bytes[0] & 0x80 != 0);
                assert!(bytes[1] & 0x80 == 0);
                assert!(bytes[2] & 0x80 == 0);
                assert_eq!(bytes[0] & 0x0F, channel);
            }
        }
    }
}

#[test]
fn controller_numbers() {
    assert_eq!(MidiCC::ModulationWheel.number(), 1);
    assert_eq!(MidiCC::BreathController.number(), 2);
    assert_eq!(MidiCC::FootController.number(), 4);
    assert_eq!(MidiCC::PortamentoTime.number(), 5);
    assert_eq!(MidiCC::Volume.number(), 7);
    assert_eq!(MidiCC::Balance.number(), 8);
    assert_eq!(MidiCC::Pan.number(), 10);
    assert_eq!(MidiCC::Expression.number(), 11);
    assert_eq!(MidiCC::SustainPedal.number(), 64);
    assert_eq!(MidiCC::Portamento.number(), 65);
    assert_eq!(MidiCC::ReverbLevel.number(), 91);
    assert_eq!(MidiCC::ChorusLevel.number(), 93);
    assert_eq!(MidiCC::ResetAllControllers.number(), 121);
}
