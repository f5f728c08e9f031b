//! Canonical per-device record of the last observed value of every control.
use crate::binding::{ControlKey, ControlKind};
use crate::convert::{axis_output, convert_axis, AxisRange};
use vstd::prelude::*;

verus! {

/// Position of a hat switch.
#[derive(Clone, Copy, Debug, PartialEq, Eq, Structural)]
pub enum HatDirection {
    Centered,
    Up,
    RightUp,
    Right,
    RightDown,
    Down,
    LeftDown,
    Left,
    LeftUp,
}

/// A raw sample of one control.
#[derive(Clone, Copy, Debug, PartialEq, Eq, Structural)]
pub enum ControlValue {
    Axis(i32),
    Button(bool),
    Hat(HatDirection),
}

impl ControlValue {
    pub open spec fn kind_spec(&self) -> ControlKind {
        match self {
            ControlValue::Axis(_) => ControlKind::Axis,
            ControlValue::Button(_) => ControlKind::Button,
            ControlValue::Hat(_) => ControlKind::Hat,
        }
    }

    /// The kind of control that produces samples of this shape.
    #[verifier::when_used_as_spec(kind_spec)]
    pub fn kind(&self) -> (r: ControlKind)
        ensures
            r == self.kind_spec(),
    {
        match self {
            ControlValue::Axis(_) => ControlKind::Axis,
            ControlValue::Button(_) => ControlKind::Button,
            ControlValue::Hat(_) => ControlKind::Hat,
        }
    }
}

/// A raw input event: a new sample for control `index` of `device`; the kind
/// of control is that of the sample.
#[derive(Clone, Copy, Debug, PartialEq, Eq, Structural)]
pub struct InputEvent {
    pub device: u32,
    pub index: u16,
    pub value: ControlValue,
}

impl InputEvent {
    pub open spec fn key_spec(&self) -> ControlKey {
        ControlKey { device: self.device, kind: self.value.kind_spec(), index: self.index }
    }

    /// The control this event is about.
    #[verifier::when_used_as_spec(key_spec)]
    pub fn key(&self) -> (r: ControlKey)
        ensures
            r == self.key_spec(),
    {
        ControlKey { device: self.device, kind: self.value.kind(), index: self.index }
    }
}

/// An observed change of a control: its value before and after the event.
#[derive(Clone, Copy, Debug, PartialEq, Eq, Structural)]
pub struct Delta {
    pub old: ControlValue,
    pub new: ControlValue,
}

/// What an attach event reports of a device.
pub struct DeviceInfo {
    pub id: u32,
    pub name: String,
    pub axes: Vec<AxisRange>,
    pub buttons: u16,
    pub hats: u16,
}

/// Why a device was not attached.
#[derive(Clone, Copy, Debug, PartialEq, Eq, Structural)]
pub enum AttachError {
    DuplicateDevice,
    TooManyAxes,
}

/// The most controls of one kind a device may declare: each must be
/// addressable by a 16-bit index.
pub const MAX_CONTROLS: usize = 65535;

/// The state of one attached device, as the contracts see it.
pub struct DeviceView {
    pub id: u32,
    pub name: Seq<char>,
    pub ranges: Seq<AxisRange>,
    pub axes: Seq<i32>,
    pub buttons: Seq<bool>,
    pub hats: Seq<HatDirection>,
}

/// A freshly attached device: every control at its neutral value.
pub open spec fn fresh_device(
    id: u32,
    name: Seq<char>,
    ranges: Seq<AxisRange>,
    buttons: nat,
    hats: nat,
) -> DeviceView {
    DeviceView {
        id,
        name,
        ranges,
        axes: Seq::new(ranges.len(), |i: int| 0i32),
        buttons: Seq::new(buttons, |i: int| false),
        hats: Seq::new(hats, |i: int| HatDirection::Centered),
    }
}

/// One value per declared axis, and every control addressable by a 16-bit
/// index.
pub open spec fn device_wf(d: DeviceView) -> bool {
    &&& d.axes.len() == d.ranges.len()
    &&& d.axes.len() <= MAX_CONTROLS
    &&& d.buttons.len() <= MAX_CONTROLS
    &&& d.hats.len() <= MAX_CONTROLS
}

/// The ids of the attached devices, in attach order.
pub open spec fn ids(devs: Seq<DeviceView>) -> Seq<u32> {
    devs.map_values(|d: DeviceView| d.id)
}

/// Every device is well formed and no two share an id.
pub open spec fn devices_wf(devs: Seq<DeviceView>) -> bool {
    &&& forall|p: int| 0 <= p < devs.len() ==> device_wf(#[trigger] devs[p])
    &&& ids(devs).no_duplicates()
}

/// The position of the device with id `id`, if one is attached.
pub open spec fn find_id(ids: Seq<u32>, id: u32) -> Option<int>
    decreases ids.len(),
{
    if ids.len() == 0 {
        None
    } else if ids.last() == id {
        Some(ids.len() - 1)
    } else {
        find_id(ids.drop_last(), id)
    }
}

pub open spec fn find_device(devs: Seq<DeviceView>, id: u32) -> Option<int> {
    find_id(ids(devs), id)
}

pub proof fn lemma_find_id(s: Seq<u32>, id: u32)
    ensures
        find_id(s, id) matches Some(p) ==> 0 <= p < s.len() && s[p] == id,
        find_id(s, id) is None ==> !s.contains(id),
    decreases s.len(),
{
    if s.len() > 0 && s.last() != id {
        lemma_find_id(s.drop_last(), id);
        if find_id(s, id) is None {
            assert forall|i: int| 0 <= i < s.len() implies s[i] != id by {
                if i < s.len() - 1 {
                    assert(s.drop_last()[i] == s[i]);
                }
            }
        }
    }
}

/// The stored value of control `index` of kind `kind` of a device.
pub open spec fn value_at(d: DeviceView, kind: ControlKind, index: u16) -> Option<ControlValue> {
    match kind {
        ControlKind::Axis => if index < d.axes.len() {
            Some(ControlValue::Axis(d.axes[index as int]))
        } else {
            None
        },
        ControlKind::Button => if index < d.buttons.len() {
            Some(ControlValue::Button(d.buttons[index as int]))
        } else {
            None
        },
        ControlKind::Hat => if index < d.hats.len() {
            Some(ControlValue::Hat(d.hats[index as int]))
        } else {
            None
        },
    }
}

/// The device with `value` stored for control `index` of the value's kind.
pub open spec fn store(d: DeviceView, index: u16, value: ControlValue) -> DeviceView {
    match value {
        ControlValue::Axis(v) => DeviceView { axes: d.axes.update(index as int, v), ..d },
        ControlValue::Button(v) => DeviceView { buttons: d.buttons.update(index as int, v), ..d },
        ControlValue::Hat(v) => DeviceView { hats: d.hats.update(index as int, v), ..d },
    }
}

/// Whether a change from `old` to `new` of control `index` matters: axes
/// compare by converted output value, buttons and hats by value.
pub open spec fn differs(d: DeviceView, index: u16, old: ControlValue, new: ControlValue) -> bool {
    match (old, new) {
        (ControlValue::Axis(a), ControlValue::Axis(b)) => {
            let r = d.ranges[index as int];
            axis_output(a as int, r.min as int, r.max as int) != axis_output(
                b as int,
                r.min as int,
                r.max as int,
            )
        },
        _ => old != new,
    }
}

/// The value recorded for `key`, if its device is attached and declares it.
pub open spec fn read_spec(devs: Seq<DeviceView>, key: ControlKey) -> Option<ControlValue> {
    match find_device(devs, key.device) {
        None => None,
        Some(p) => value_at(devs[p], key.kind, key.index),
    }
}

/// The devices after an event, and the change it reports. An event for an
/// unknown device or an undeclared control changes nothing and reports
/// nothing; otherwise the value is stored, and the change is reported when it
/// matters (see `differs`).
pub open spec fn update_spec(devs: Seq<DeviceView>, ev: InputEvent) -> (Seq<DeviceView>, Option<
    Delta,
>) {
    match find_device(devs, ev.device) {
        None => (devs, None),
        Some(p) => match value_at(devs[p], ev.value.kind_spec(), ev.index) {
            None => (devs, None),
            Some(old) => (
                devs.update(p, store(devs[p], ev.index, ev.value)),
                if differs(devs[p], ev.index, old, ev.value) {
                    Some(Delta { old, new: ev.value })
                } else {
                    None
                },
            ),
        },
    }
}

/// The declared range of axis `index` of device `device`, if both exist.
pub open spec fn axis_range_spec(devs: Seq<DeviceView>, device: u32, index: u16) -> Option<
    AxisRange,
> {
    match find_device(devs, device) {
        Some(p) => if index < devs[p].ranges.len() {
            Some(devs[p].ranges[index as int])
        } else {
            None
        },
        None => None,
    }
}

/// The number of controls of kind `kind` that a device declares.
pub open spec fn control_count(d: DeviceView, kind: ControlKind) -> nat {
    match kind {
        ControlKind::Axis => d.axes.len(),
        ControlKind::Button => d.buttons.len(),
        ControlKind::Hat => d.hats.len(),
    }
}

struct DeviceState {
    id: u32,
    name: String,
    ranges: Vec<AxisRange>,
    axes: Vec<i32>,
    buttons: Vec<bool>,
    hats: Vec<HatDirection>,
}

impl DeviceState {
    spec fn view(&self) -> DeviceView {
        DeviceView {
            id: self.id,
            name: self.name@,
            ranges: self.ranges@,
            axes: self.axes@,
            buttons: self.buttons@,
            hats: self.hats@,
        }
    }

    fn value(&self, kind: ControlKind, index: u16) -> (r: Option<ControlValue>)
        ensures
            r == value_at(self.view(), kind, index),
    {
        let i = index as usize;
        match kind {
            ControlKind::Axis => if i < self.axes.len() {
                Some(ControlValue::Axis(self.axes[i]))
            } else {
                None
            },
            ControlKind::Button => if i < self.buttons.len() {
                Some(ControlValue::Button(self.buttons[i]))
            } else {
                None
            },
            ControlKind::Hat => if i < self.hats.len() {
                Some(ControlValue::Hat(self.hats[i]))
            } else {
                None
            },
        }
    }

    fn differs(&self, index: u16, old: ControlValue, new: ControlValue) -> (r: bool)
        requires
            device_wf(self.view()),
            value_at(self.view(), old.kind_spec(), index) is Some,
        ensures
            r == differs(self.view(), index, old, new),
    {
        match (old, new) {
            (ControlValue::Axis(a), ControlValue::Axis(b)) => {
                let r = self.ranges[index as usize];
                convert_axis(a, r) != convert_axis(b, r)
            },
            _ => old != new,
        }
    }

    fn store(&mut self, index: u16, value: ControlValue)
        requires
            value_at(old(self).view(), value.kind_spec(), index) is Some,
        ensures
            final(self).view() == store(old(self).view(), index, value),
    {
        let i = index as usize;
        match value {
            ControlValue::Axis(v) => self.axes.set(i, v),
            ControlValue::Button(v) => self.buttons.set(i, v),
            ControlValue::Hat(v) => self.hats.set(i, v),
        }
    }
}

/// The last known value of every control of every attached device.
pub struct ControlState {
    devices: Vec<DeviceState>,
}

impl View for ControlState {
    type V = Seq<DeviceView>;

    closed spec fn view(&self) -> Seq<DeviceView> {
        self.devices@.map_values(|d: DeviceState| d.view())
    }
}

impl ControlState {
    pub open spec fn wf(&self) -> bool {
        devices_wf(self@)
    }

    pub fn new() -> (r: ControlState)
        ensures
            r@ == Seq::<DeviceView>::empty(),
            r.wf(),
    {
        let r = ControlState { devices: Vec::new() };
        assert(r@ =~= Seq::<DeviceView>::empty());
        assert(ids(r@) =~= Seq::<u32>::empty());
        r
    }

    /// The number of attached devices.
    pub fn device_count(&self) -> (r: usize)
        ensures
            r == self@.len(),
    {
        self.devices.len()
    }

    /// The position, in attach order, of the device with id `id`.
    pub fn position(&self, id: u32) -> (r: Option<usize>)
        ensures
            match r {
                Some(p) => find_device(self@, id) == Some(p as int),
                None => find_device(self@, id) is None,
            },
    {
        let ghost s = ids(self@);
        let mut i = self.devices.len();
        assert(s.take(i as int) =~= s);
        while i > 0
            invariant
                i <= self.devices.len(),
                s == ids(self@),
                s.len() == self.devices.len(),
                find_id(s.take(i as int), id) == find_id(s, id),
            decreases i,
        {
            assert(s.take(i as int).drop_last() =~= s.take(i - 1));
            assert(s[i - 1] == self.devices@[i - 1].id);
            if self.devices[i - 1].id == id {
                return Some(i - 1);
            }
            i -= 1;
        }
        None
    }

    /// The recorded value of `key`, or `None` for an unknown device or an
    /// undeclared control.
    pub fn read(&self, key: ControlKey) -> (r: Option<ControlValue>)
        ensures
            r == read_spec(self@, key),
    {
        proof {
            lemma_find_id(ids(self@), key.device);
        }
        match self.position(key.device) {
            None => None,
            Some(p) => self.devices[p].value(key.kind, key.index),
        }
    }

    /// The display name of the device with id `id`.
    pub fn device_name(&self, id: u32) -> (r: Option<&str>)
        ensures
            match find_device(self@, id) {
                Some(p) => r matches Some(n) && n@ == self@[p].name,
                None => r is None,
            },
    {
        proof {
            lemma_find_id(ids(self@), id);
        }
        match self.position(id) {
            None => None,
            Some(p) => Some(self.devices[p].name.as_str()),
        }
    }

    /// Attaches a device with every control at its neutral value: axes at
    /// zero, buttons released, hats centered. A device whose id is already
    /// attached, or that declares more axes than an index can address, is
    /// refused and nothing changes.
    pub fn attach(&mut self, info: DeviceInfo) -> (r: Result<(), AttachError>)
        requires
            old(self).wf(),
        ensures
            final(self).wf(),
            find_device(old(self)@, info.id) is Some ==> r == Err::<(), AttachError>(
                AttachError::DuplicateDevice,
            ) && final(self)@ == old(self)@,
            find_device(old(self)@, info.id) is None && info.axes.len() > MAX_CONTROLS ==> r
                == Err::<(), AttachError>(AttachError::TooManyAxes) && final(self)@ == old(
                self,
            )@,
            find_device(old(self)@, info.id) is None && info.axes.len() <= MAX_CONTROLS ==> r
                is Ok && final(self)@ == old(self)@.push(
                fresh_device(info.id, info.name@, info.axes@, info.buttons as nat, info.hats as nat),
            ),
    {
        if self.position(info.id).is_some() {
            return Err(AttachError::DuplicateDevice);
        }
        if info.axes.len() > MAX_CONTROLS {
            return Err(AttachError::TooManyAxes);
        }
        proof {
            lemma_find_id(ids(self@), info.id);
        }
        let ghost before = self@;
        let n = info.axes.len();
        let axes: Vec<i32> = vec![0i32; n];
        let buttons: Vec<bool> = vec![false; info.buttons as usize];
        let hats: Vec<HatDirection> = vec![HatDirection::Centered; info.hats as usize];
        let ghost fresh = fresh_device(info.id, info.name@, info.axes@, info.buttons as nat, info.hats as nat);
        let d = DeviceState { id: info.id, name: info.name, ranges: info.axes, axes, buttons, hats };
        assert(d.view().axes =~= fresh.axes);
        assert(d.view().buttons =~= fresh.buttons);
        assert(d.view().hats =~= fresh.hats);
        self.devices.push(d);
        assert(self@ =~= before.push(fresh));
        assert(ids(self@) =~= ids(before).push(info.id));
        Ok(())
    }

    /// Detaches the device with id `id`; its controls can no longer be read
    /// or updated. Returns whether such a device was attached.
    pub fn detach(&mut self, id: u32) -> (r: bool)
        requires
            old(self).wf(),
        ensures
            final(self).wf(),
            match find_device(old(self)@, id) {
                None => !r && final(self)@ == old(self)@,
                Some(p) => r && final(self)@ == old(self)@.remove(p),
            },
    {
        proof {
            lemma_find_id(ids(self@), id);
        }
        match self.position(id) {
            None => false,
            Some(p) => {
                let ghost before = self@;
                self.devices.remove(p);
                assert(self@ =~= before.remove(p as int));
                assert(ids(self@) =~= ids(before).remove(p as int));
                true
            },
        }
    }

    /// Records a new sample for a control and reports whether it changed in a
    /// way that matters (see `update_spec`). An event for an unknown device or
    /// an undeclared control is ignored.
    pub fn update(&mut self, ev: InputEvent) -> (r: Option<Delta>)
        requires
            old(self).wf(),
        ensures
            final(self).wf(),
            (final(self)@, r) == update_spec(old(self)@, ev),
    {
        proof {
            lemma_find_id(ids(self@), ev.device);
        }
        match self.position(ev.device) {
            None => None,
            Some(p) => match self.devices[p].value(ev.value.kind(), ev.index) {
                None => None,
                Some(old) => {
                    let ghost before = self@;
                    assert(before[p as int] == self.devices@[p as int].view());
                    let changed = self.devices[p].differs(ev.index, old, ev.value);
                    self.devices[p].store(ev.index, ev.value);
                    assert(self@ =~= before.update(
                        p as int,
                        store(before[p as int], ev.index, ev.value),
                    ));
                    assert(ids(self@) =~= ids(before));
                    assert(device_wf(self@[p as int]));
                    if changed {
                        Some(Delta { old, new: ev.value })
                    } else {
                        None
                    }
                },
            },
        }
    }

    /// The declared native range of an axis.
    pub fn axis_range(&self, device: u32, index: u16) -> (r: Option<AxisRange>)
        ensures
            r == axis_range_spec(self@, device, index),
    {
        proof {
            lemma_find_id(ids(self@), device);
        }
        match self.position(device) {
            None => None,
            Some(p) => if (index as usize) < self.devices[p].ranges.len() {
                Some(self.devices[p].ranges[index as usize])
            } else {
                None
            },
        }
    }

    /// The id of the device at position `p` in attach order.
    pub fn id_at(&self, p: usize) -> (r: u32)
        requires
            p < self@.len(),
        ensures
            r == self@[p as int].id,
    {
        self.devices[p].id
    }

    /// How many controls of kind `kind` the device at position `p` declares.
    pub fn count_at(&self, p: usize, kind: ControlKind) -> (r: usize)
        requires
            p < self@.len(),
        ensures
            r == control_count(self@[p as int], kind),
    {
        match kind {
            ControlKind::Axis => self.devices[p].axes.len(),
            ControlKind::Button => self.devices[p].buttons.len(),
            ControlKind::Hat => self.devices[p].hats.len(),
        }
    }

    /// The recorded value of a control of the device at position `p`.
    pub fn value_at_position(&self, p: usize, kind: ControlKind, index: u16) -> (r: Option<
        ControlValue,
    >)
        requires
            p < self@.len(),
        ensures
            r == value_at(self@[p as int], kind, index),
    {
        self.devices[p].value(kind, index)
    }
}

} // verus!
