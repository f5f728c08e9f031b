use joystick_midi::binding::{BindError, Binding, BindingTable, ControlKey, ControlKind, Target};
use joystick_midi::midi::MidiCC;

fn key(device: u32, kind: ControlKind, index: u16) -> ControlKey {
    ControlKey { device, kind, index }
}

fn cc(id: u8) -> Binding {
    Binding::new(Target::control_change(id).unwrap(), 0, 127).unwrap()
}

#[test]
fn last_bind_wins() {
    let mut t = BindingTable::new();
    let k = key(1, ControlKind::Axis, 0);
    assert_eq!(t.bind(k, cc(10)), Ok(()));
    assert_eq!(t.bind(k, cc(11)), Ok(()));
    assert_eq!(t.lookup(k), Some(cc(11)));
}

#[test]
fn keys_are_independent() {
    let mut t = BindingTable::new();
    t.bind(key(1, ControlKind::Axis, 0), cc(1)).unwrap();
    t.bind(key(1, ControlKind::Button, 0), cc(2)).unwrap();
    t.bind(key(2, ControlKind::Axis, 0), cc(3)).unwrap();
    t.bind(key(1, ControlKind::Axis, 65535), cc(4)).unwrap();
    t.bind(key(u32::MAX, ControlKind::Hat, 65535), cc(5)).unwrap();
    assert_eq!(t.lookup(key(1, ControlKind::Axis, 0)), Some(cc(1)));
    assert_eq!(t.lookup(key(1, ControlKind::Button, 0)), Some(cc(2)));
    assert_eq!(t.lookup(key(2, ControlKind::Axis, 0)), Some(cc(3)));
    assert_eq!(t.lookup(key(1, ControlKind::Axis, 65535)), Some(cc(4)));
    assert_eq!(t.lookup(key(u32::MAX, ControlKind::Hat, 65535)), Some(cc(5)));
    assert_eq!(t.lookup(key(1, ControlKind::Hat, 0)), None);
}

#[test]
fn two_controls_may_share_a_target() {
    let mut t = BindingTable::new();
    t.bind(key(1, ControlKind::Axis, 0), cc(7)).unwrap();
    t.bind(key(1, ControlKind::Axis, 1), cc(7)).unwrap();
    assert_eq!(t.lookup(key(1, ControlKind::Axis, 0)), Some(cc(7)));
    assert_eq!(t.lookup(key(1, ControlKind::Axis, 1)), Some(cc(7)));
}

#[test]
fn unbind_returns_the_binding() {
    let mut t = BindingTable::new();
    let k = key(1, ControlKind::Button, 3);
    t.bind(k, cc(20)).unwrap();
    assert_eq!(t.unbind(k), Some(cc(20)));
    assert_eq!(t.lookup(k), None);
    assert_eq!(t.unbind(k), None);
}

#[test]
fn targets_are_range_checked() {
    assert_eq!(Target::control_change(127), Ok(Target::ContinuousControl { controller_id: 127 }));
    assert_eq!(Target::control_change(128), Err(BindError::ControllerOutOfRange));
    assert_eq!(Target::note(0), Ok(Target::NoteTrigger { note_number: 0 }));
    assert_eq!(Target::note(200), Err(BindError::NoteOutOfRange));
    assert_eq!(Target::from_cc(MidiCC::Pan), Target::ContinuousControl { controller_id: 10 });
}

#[test]
fn bindings_are_range_checked() {
    let t = Target::NoteTrigger { note_number: 60 };
    assert_eq!(Binding::new(t, 16, 100), Err(BindError::ChannelOutOfRange));
    assert_eq!(Binding::new(t, 15, 128), Err(BindError::VelocityOutOfRange));
    assert_eq!(
        Binding::new(Target::ContinuousControl { controller_id: 130 }, 0, 0),
        Err(BindError::ControllerOutOfRange)
    );
    assert_eq!(
        Binding::new(Target::NoteTrigger { note_number: 128 }, 99, 0),
        Err(BindError::NoteOutOfRange)
    );
    assert_eq!(Binding::new(t, 15, 127), Ok(Binding { target: t, channel: 15, velocity: 127 }));
}

#[test]
fn refused_bind_leaves_the_table_unchanged() {
    let mut t = BindingTable::new();
    let k = key(4, ControlKind::Axis, 2);
    t.bind(k, cc(1)).unwrap();
    let bad = Binding { target: Target::ContinuousControl { controller_id: 200 }, channel: 0, velocity: 0 };
    assert_eq!(t.bind(k, bad), Err(BindError::ControllerOutOfRange));
    let bad = Binding { target: Target::NoteTrigger { note_number: 1 }, channel: 20, velocity: 0 };
    assert_eq!(t.bind(k, bad), Err(BindError::ChannelOutOfRange));
    assert_eq!(t.lookup(k), Some(cc(1)));
}

#[test]
fn default_layout() {
    let mut t = BindingTable::new();
    t.bind_default_layout(5);
    let ctrl = |id: u8| Some(Binding { target: Target::ContinuousControl { controller_id: id }, channel: 0, velocity: 127 });
    assert_eq!(t.lookup(key(5, ControlKind::Axis, 0)), ctrl(10));
    assert_eq!(t.lookup(key(5, ControlKind::Axis, 1)), ctrl(7));
    assert_eq!(t.lookup(key(5, ControlKind::Axis, 2)), None);
    assert_eq!(t.lookup(key(5, ControlKind::Axis, 3)), ctrl(1));
    assert_eq!(t.lookup(key(5, ControlKind::Axis, 4)), ctrl(11));
    assert_eq!(
        t.lookup(key(5, ControlKind::Button, 0)),
        Some(Binding { target: Target::NoteTrigger { note_number: 60 }, channel: 0, velocity: 127 })
    );
    assert_eq!(t.lookup(key(6, ControlKind::Axis, 0)), None);
}
