use pad_visuals::compositor::Compositor;
use pad_visuals::config::EntityConfig;
use pad_visuals::entity::Entity;
use pad_visuals::events::classify;
use pad_visuals::events::ControlEvent;
use pad_visuals::events::Message;
use pad_visuals::table::ParameterTable;
use pad_visuals::wire::decode;
use pad_visuals::wire::initialise;
use pad_visuals::wire::palette_frame;
use pad_visuals::wire::user_mode_frame;
use pad_visuals::wire::CHANNEL;

#[test]
fn user_mode_frame_bytes() {
    assert_eq!(user_mode_frame(), vec![0xF0, 0x00, 0x21, 0x1D, 0x01, 0x01, 0x0A, 0x01, 0xF7]);
}

#[test]
fn palette_frame_splits_each_channel() {
    assert_eq!(
        palette_frame(5, 255, 128, 127),
        vec![
            0xF0, 0x00, 0x21, 0x1D, 0x01, 0x01, 0x03, 5, 0x7F, 1, 0x00, 1, 0x7F, 0, 0, 0, 0xF7
        ]
    );
    assert_eq!(
        palette_frame(64, 0, 1, 200),
        vec![0xF0, 0x00, 0x21, 0x1D, 0x01, 0x01, 0x03, 64, 0, 0, 1, 0, 72, 1, 0, 0, 0xF7]
    );
}

#[test]
fn startup_frames_light_buttons_and_pads() {
    let frames = initialise();
    assert_eq!(CHANNEL, 1);
    assert_eq!(frames.len(), 81);
    assert_eq!(frames[0], user_mode_frame());
    for i in 0..8u8 {
        assert_eq!(frames[1 + i as usize], vec![0xB1, 20 + i, 65 + i]);
        assert_eq!(frames[9 + i as usize], vec![0xB1, 102 + i, 73 + i]);
    }
    for i in 0..64u8 {
        assert_eq!(frames[17 + i as usize], vec![0x91, 36 + i, 1 + i]);
    }
}

#[test]
fn decode_reads_knob_turns() {
    assert_eq!(decode(&[0xB0, 14, 1]), ControlEvent::KnobTurn { knob: 14, clockwise: true });
    assert_eq!(decode(&[0xB0, 14, 127]), ControlEvent::KnobTurn { knob: 14, clockwise: false });
    assert_eq!(decode(&[0xB5, 79, 3]), ControlEvent::KnobTurn { knob: 79, clockwise: true });
    assert_eq!(decode(&[0xB0, 72, 127]), ControlEvent::KnobTurn { knob: 72, clockwise: false });
    assert_eq!(decode(&[0xB0, 3, 1]), ControlEvent::KnobTurn { knob: 3, clockwise: true });
    assert_eq!(decode(&[0xB0, 9, 1]), ControlEvent::KnobTurn { knob: 9, clockwise: true });
    assert_eq!(decode(&[0xB0, 71, 1]), ControlEvent::Ignored);
    assert_eq!(decode(&[0xB0, 80, 1]), ControlEvent::Ignored);
}

#[test]
fn decode_reads_touches_and_pads() {
    assert_eq!(decode(&[0x90, 0, 127]), ControlEvent::KnobTouch { knob: 0, pressed: true });
    assert_eq!(decode(&[0x90, 10, 0]), ControlEvent::KnobTouch { knob: 10, pressed: false });
    assert_eq!(decode(&[0x90, 11, 127]), ControlEvent::Ignored);
    assert_eq!(decode(&[0x90, 35, 127]), ControlEvent::Ignored);
    assert_eq!(decode(&[0x90, 36, 1]), ControlEvent::PadPress { pad: 0 });
    assert_eq!(decode(&[0x9F, 99, 64]), ControlEvent::PadPress { pad: 63 });
    assert_eq!(decode(&[0x90, 100, 64]), ControlEvent::Ignored);
    assert_eq!(decode(&[0x80, 45, 0]), ControlEvent::PadRelease { pad: 9 });
    assert_eq!(decode(&[0x80, 5, 0]), ControlEvent::Ignored);
    assert_eq!(decode(&[0x80, 100, 0]), ControlEvent::Ignored);
}

#[test]
fn decode_reads_the_assign_button() {
    assert_eq!(decode(&[0xB0, 86, 127]), ControlEvent::AssignMode { pressed: true });
    assert_eq!(decode(&[0xB0, 86, 0]), ControlEvent::AssignMode { pressed: false });
}

#[test]
fn decode_ignores_what_is_no_message() {
    assert_eq!(decode(&[]), ControlEvent::Ignored);
    assert_eq!(decode(&[0x90]), ControlEvent::Ignored);
    assert_eq!(decode(&[0x90, 36]), ControlEvent::Ignored);
    assert_eq!(decode(&[0x90, 0x80, 1]), ControlEvent::Ignored);
    assert_eq!(decode(&[0x90, 36, 0x80]), ControlEvent::Ignored);
    assert_eq!(decode(&[0x10, 36, 1]), ControlEvent::Ignored);
    assert_eq!(decode(&[0xA0, 36, 1]), ControlEvent::Ignored);
    assert_eq!(decode(&[0xC0, 36]), ControlEvent::Ignored);
    assert_eq!(decode(&[0xE0, 36, 1]), ControlEvent::Ignored);
    assert_eq!(decode(&[0xF8]), ControlEvent::Ignored);
    assert_eq!(decode(&[0xF0, 1, 2, 0xF7]), ControlEvent::Ignored);
}

#[test]
fn decode_does_not_look_past_the_message() {
    assert_eq!(decode(&[0x90, 36, 1, 0xFF, 3]), ControlEvent::PadPress { pad: 0 });
}

#[test]
fn startup_frames_read_back() {
    let frames = initialise();
    for i in 0..64u8 {
        assert_eq!(decode(&frames[17 + i as usize]), ControlEvent::PadPress { pad: i });
    }
    for i in 0..16usize {
        assert_eq!(decode(&frames[1 + i]), ControlEvent::Ignored);
    }
}

#[test]
fn classify_reads_messages() {
    assert_eq!(
        classify(Message::Controller { controller: 78, value: 127 }),
        ControlEvent::KnobTurn { knob: 78, clockwise: false }
    );
    assert_eq!(
        classify(Message::Controller { controller: 86, value: 5 }),
        ControlEvent::AssignMode { pressed: false }
    );
    assert_eq!(classify(Message::Controller { controller: 87, value: 127 }), ControlEvent::Ignored);
    assert_eq!(classify(Message::NoteOn { key: 50, vel: 0 }), ControlEvent::PadPress { pad: 14 });
    assert_eq!(
        classify(Message::NoteOn { key: 7, vel: 126 }),
        ControlEvent::KnobTouch { knob: 7, pressed: false }
    );
    assert_eq!(classify(Message::NoteOff { key: 99, vel: 0 }), ControlEvent::PadRelease { pad: 63 });
    assert_eq!(classify(Message::NoteOff { key: 35, vel: 0 }), ControlEvent::Ignored);
    assert_eq!(classify(Message::NoteOn { key: 200, vel: 0 }), ControlEvent::Ignored);
}

#[test]
fn receive_applies_raw_bytes() {
    let mut c = Compositor::new(ParameterTable::new());
    c.receive(&[0x90, 36 + 9, 100]);
    assert_eq!(c.active(), 9);
    assert_eq!(c.entities(), vec![Entity::new(&EntityConfig::default(), 0, 1, 1)]);
    c.receive(&[0xB0, 86, 127]);
    assert!(c.assigning());
    c.receive(&[0x90, 36]);
    c.receive(&[0xF8]);
    assert_eq!(c.entities().len(), 1);
    c.receive(&[0x90, 5, 127]);
    assert!(c.is_focused(5));
}
