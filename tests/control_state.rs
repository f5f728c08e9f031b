use joystick_midi::binding::{ControlKey, ControlKind};
use joystick_midi::convert::AxisRange;
use joystick_midi::state::{
    AttachError, ControlState, ControlValue, Delta, DeviceInfo, HatDirection, InputEvent,
};

fn device(id: u32, axes: usize, buttons: u16, hats: u16) -> DeviceInfo {
    DeviceInfo {
        id,
        name: format!("device {}", id),
        axes: vec![AxisRange { min: -32768, max: 32767 }; axes],
        buttons,
        hats,
    }
}

fn key(device: u32, kind: ControlKind, index: u16) -> ControlKey {
    ControlKey { device, kind, index }
}

#[test]
fn attach_sets_neutral_values() {
    let mut s = ControlState::new();
    assert_eq!(s.attach(device(1, 2, 3, 1)), Ok(()));
    assert_eq!(s.device_count(), 1);
    assert_eq!(s.read(key(1, ControlKind::Axis, 0)), Some(ControlValue::Axis(0)));
    assert_eq!(s.read(key(1, ControlKind::Axis, 1)), Some(ControlValue::Axis(0)));
    assert_eq!(s.read(key(1, ControlKind::Axis, 2)), None);
    assert_eq!(s.read(key(1, ControlKind::Button, 2)), Some(ControlValue::Button(false)));
    assert_eq!(s.read(key(1, ControlKind::Button, 3)), None);
    assert_eq!(s.read(key(1, ControlKind::Hat, 0)), Some(ControlValue::Hat(HatDirection::Centered)));
    assert_eq!(s.device_name(1), Some("device 1"));
    assert_eq!(s.axis_range(1, 1), Some(AxisRange { min: -32768, max: 32767 }));
    assert_eq!(s.axis_range(1, 2), None);
}

#[test]
fn attach_refuses_duplicates_and_oversized_devices() {
    let mut s = ControlState::new();
    s.attach(device(1, 1, 1, 0)).unwrap();
    assert_eq!(s.attach(device(1, 4, 4, 4)), Err(AttachError::DuplicateDevice));
    assert_eq!(s.read(key(1, ControlKind::Axis, 1)), None);
    assert_eq!(s.attach(device(2, 65536, 0, 0)), Err(AttachError::TooManyAxes));
    assert_eq!(s.device_count(), 1);
    assert_eq!(s.attach(device(2, 65535, 0, 0)), Ok(()));
    assert_eq!(s.read(key(2, ControlKind::Axis, 65534)), Some(ControlValue::Axis(0)));
}

#[test]
fn stale_events_are_ignored() {
    let mut s = ControlState::new();
    s.attach(device(1, 1, 1, 0)).unwrap();
    let ev = InputEvent { device: 9, index: 0, value: ControlValue::Axis(100) };
    assert_eq!(s.update(ev), None);
    let ev = InputEvent { device: 1, index: 5, value: ControlValue::Button(true) };
    assert_eq!(s.update(ev), None);
    let ev = InputEvent { device: 1, index: 0, value: ControlValue::Hat(HatDirection::Up) };
    assert_eq!(s.update(ev), None);
    assert_eq!(s.read(key(9, ControlKind::Axis, 0)), None);
}

#[test]
fn detached_devices_are_gone() {
    let mut s = ControlState::new();
    s.attach(device(1, 1, 0, 0)).unwrap();
    s.attach(device(2, 1, 0, 0)).unwrap();
    assert!(s.detach(1));
    assert!(!s.detach(1));
    assert_eq!(s.read(key(1, ControlKind::Axis, 0)), None);
    assert_eq!(s.update(InputEvent { device: 1, index: 0, value: ControlValue::Axis(5) }), None);
    assert_eq!(s.read(key(2, ControlKind::Axis, 0)), Some(ControlValue::Axis(0)));
    assert_eq!(s.position(2), Some(0));
    assert_eq!(s.attach(device(1, 1, 0, 0)), Ok(()));
    assert_eq!(s.position(1), Some(1));
}

#[test]
fn updates_report_changes_that_matter() {
    let mut s = ControlState::new();
    s.attach(device(1, 1, 1, 1)).unwrap();
    // 10 raw steps stay within one output step: stored, not reported.
    let ev = InputEvent { device: 1, index: 0, value: ControlValue::Axis(10) };
    assert_eq!(s.update(ev), None);
    assert_eq!(s.read(key(1, ControlKind::Axis, 0)), Some(ControlValue::Axis(10)));
    let ev = InputEvent { device: 1, index: 0, value: ControlValue::Axis(32767) };
    assert_eq!(
        s.update(ev),
        Some(Delta { old: ControlValue::Axis(10), new: ControlValue::Axis(32767) })
    );
    let ev = InputEvent { device: 1, index: 0, value: ControlValue::Button(true) };
    assert_eq!(
        s.update(ev),
        Some(Delta { old: ControlValue::Button(false), new: ControlValue::Button(true) })
    );
    assert_eq!(s.update(ev), None);
    let ev = InputEvent { device: 1, index: 0, value: ControlValue::Hat(HatDirection::LeftUp) };
    assert_eq!(
        s.update(ev),
        Some(Delta {
            old: ControlValue::Hat(HatDirection::Centered),
            new: ControlValue::Hat(HatDirection::LeftUp)
        })
    );
}
