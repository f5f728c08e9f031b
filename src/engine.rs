//! The input-to-protocol translation step.
use crate::binding::{lookup_spec, Binding, BindingTable, ControlKey, Target};
use crate::convert::{axis_output, button_output, button_value, convert_axis, AxisRange};
use crate::midi::{encode, Message};
use crate::router::{Delivery, OutputRouter, SendError};
use crate::state::{
    axis_range_spec, lemma_find_id, devices_wf, find_device, ids, read_spec, update_spec, ControlState,
    ControlValue, DeviceView, InputEvent,
};
use vstd::prelude::*;

verus! {

/// The message a change of a bound control produces, from its binding, the
/// control's declared range (for axes) and its new value.
///
/// An axis drives a controller with its converted value. A button drives a
/// note (note-on with the binding's velocity on press, note-off with velocity
/// zero on release) or a controller (the binding's velocity while pressed, zero
/// once released). An axis bound to a note, and any hat, send nothing.
pub open spec fn message_for(b: Binding, range: Option<AxisRange>, new: ControlValue) -> Option<
    Message,
> {
    match new {
        ControlValue::Axis(v) => match (b.target, range) {
            (Target::ContinuousControl { controller_id }, Some(r)) => Some(
                Message::ControlChange {
                    channel: b.channel,
                    control: controller_id,
                    value: axis_output(v as int, r.min as int, r.max as int) as u8,
                },
            ),
            _ => None,
        },
        ControlValue::Button(pressed) => match b.target {
            Target::NoteTrigger { note_number } => if pressed {
                Some(
                    Message::NoteOn {
                        channel: b.channel,
                        note: note_number,
                        velocity: b.velocity,
                    },
                )
            } else {
                Some(Message::NoteOff { channel: b.channel, note: note_number, velocity: 0 })
            },
            Target::ContinuousControl { controller_id } => Some(
                Message::ControlChange {
                    channel: b.channel,
                    control: controller_id,
                    value: button_output(pressed, b.velocity),
                },
            ),
        },
        ControlValue::Hat(_) => None,
    }
}

/// One event: the devices after it, and the message it produces. The state
/// is updated whatever the bindings say; a message comes only from a change
/// that matters (see `update_spec`) of a bound control.
pub open spec fn step_spec(
    devs: Seq<DeviceView>,
    table: Map<ControlKey, Binding>,
    ev: InputEvent,
) -> (Seq<DeviceView>, Option<Message>) {
    let (next, delta) = update_spec(devs, ev);
    let out = match delta {
        None => None,
        Some(_) => match lookup_spec(table, ev.key_spec()) {
            None => None,
            Some(b) => message_for(b, axis_range_spec(devs, ev.device, ev.index), ev.value),
        },
    };
    (next, out)
}

fn axis_message(b: Binding, range: Option<AxisRange>, v: i32) -> (r: Option<Message>)
    requires
        b.wf(),
    ensures
        r == message_for(b, range, ControlValue::Axis(v)),
        r matches Some(m) ==> m.wf(),
{
    match (b.target, range) {
        (Target::ContinuousControl { controller_id }, Some(r)) => {
            let value = convert_axis(v, r);
            Some(Message::ControlChange { channel: b.channel, control: controller_id, value })
        },
        _ => None,
    }
}

fn button_message(b: Binding, pressed: bool) -> (r: Option<Message>)
    requires
        b.wf(),
    ensures
        r == message_for(b, None, ControlValue::Button(pressed)),
        r matches Some(m) ==> m.wf(),
{
    match b.target {
        Target::NoteTrigger { note_number } => if pressed {
            Some(Message::NoteOn { channel: b.channel, note: note_number, velocity: b.velocity })
        } else {
            Some(Message::NoteOff { channel: b.channel, note: note_number, velocity: 0 })
        },
        Target::ContinuousControl { controller_id } => Some(
            Message::ControlChange {
                channel: b.channel,
                control: controller_id,
                value: button_value(pressed, b.velocity),
            },
        ),
    }
}

/// The engine: control state, bindings and output routing, owned together.
pub struct Engine {
    pub state: ControlState,
    pub bindings: BindingTable,
    pub router: OutputRouter,
}

impl Engine {
    pub open spec fn wf(&self) -> bool {
        self.state.wf() && self.bindings.wf()
    }

    /// An engine with no device, no binding and no endpoint.
    pub fn new() -> (r: Engine)
        ensures
            r.wf(),
            r.state@ == Seq::<DeviceView>::empty(),
            r.bindings@ == Map::<ControlKey, Binding>::empty(),
            r.router == (OutputRouter { selected: None, sent: 0, failed: 0 }),
    {
        Engine { state: ControlState::new(), bindings: BindingTable::new(), router: OutputRouter::new() }
    }

    /// Processes one raw input event: records the new value, then encodes the
    /// message it produces, if any (see `step_spec`). The bindings and the
    /// router are left as they are.
    pub fn translate(&mut self, ev: InputEvent) -> (r: Option<[u8; 3]>)
        requires
            old(self).wf(),
        ensures
            final(self).wf(),
            final(self).bindings@ == old(self).bindings@,
            final(self).router == old(self).router,
            final(self).state@ == step_spec(old(self).state@, old(self).bindings@, ev).0,
            match step_spec(old(self).state@, old(self).bindings@, ev).1 {
                None => r is None,
                Some(m) => r matches Some(bytes) && bytes@ == m.bytes(),
            },
            lookup_spec(old(self).bindings@, ev.key()) is None ==> r is None,
    {
        let range = self.state.axis_range(ev.device, ev.index);
        let delta = self.state.update(ev);
        if delta.is_none() {
            return None;
        }
        let b = match self.bindings.lookup(ev.key()) {
            None => return None,
            Some(b) => b,
        };
        let m = match ev.value {
            ControlValue::Axis(v) => axis_message(b, range, v),
            ControlValue::Button(pressed) => button_message(b, pressed),
            ControlValue::Hat(_) => None,
        };
        match m {
            None => None,
            Some(m) => Some(encode(m)),
        }
    }

    /// Translates one event and addresses the resulting bytes, if any, to the
    /// endpoint selected at this moment.
    pub fn process(&mut self, ev: InputEvent) -> (r: Option<Result<Delivery, SendError>>)
        requires
            old(self).wf(),
        ensures
            final(self).wf(),
            final(self).bindings@ == old(self).bindings@,
            final(self).router == old(self).router,
            final(self).state@ == step_spec(old(self).state@, old(self).bindings@, ev).0,
            match step_spec(old(self).state@, old(self).bindings@, ev).1 {
                None => r is None,
                Some(m) => match old(self).router.selected {
                    Some(e) => r matches Some(Ok(d)) && d.endpoint == e && d.bytes@ == m.bytes(),
                    None => r == Some(Err::<Delivery, SendError>(SendError::NoEndpoint)),
                },
            },
    {
        match self.translate(ev) {
            None => None,
            Some(bytes) => Some(self.router.route(bytes)),
        }
    }
}

/// An event for an unbound control emits nothing; the control state is
/// updated all the same: when the device is attached and declares the
/// control, the control then reads as the event's value.
pub proof fn lemma_unbound_is_silent(
    devs: Seq<DeviceView>,
    table: Map<ControlKey, Binding>,
    ev: InputEvent,
)
    requires
        lookup_spec(table, ev.key_spec()) is None,
    ensures
        step_spec(devs, table, ev).1 is None,
        step_spec(devs, table, ev).0 == update_spec(devs, ev).0,
        read_spec(devs, ev.key_spec()) is Some ==> read_spec(
            step_spec(devs, table, ev).0,
            ev.key_spec(),
        ) == Some(ev.value),
{
    let next = step_spec(devs, table, ev).0;
    lemma_find_id(ids(devs), ev.device);
    if read_spec(devs, ev.key_spec()) is Some {
        let p = find_device(devs, ev.device).unwrap();
        assert(ids(next) =~= ids(devs));
        assert(next[p] == crate::state::store(devs[p], ev.index, ev.value));
    }
}

/// The controller message an axis bound to `b` sends for output `value`.
pub open spec fn axis_cc(b: Binding, value: int) -> Option<Message> {
    match b.target {
        Target::ContinuousControl { controller_id } => Some(
            Message::ControlChange { channel: b.channel, control: controller_id, value: value as u8 },
        ),
        Target::NoteTrigger { .. } => None,
    }
}

/// Change suppression, for two consecutive events of one axis with samples
/// `a` then `b`. When both convert to the same output, the second event emits
/// nothing, so the pair emits at most one message. When the first converts to
/// an output other than that of the value recorded before it, and the second
/// to yet another one, an axis bound to a controller emits two messages, in
/// event order, carrying the two outputs.
pub proof fn lemma_axis_suppression(
    devs: Seq<DeviceView>,
    table: Map<ControlKey, Binding>,
    first: InputEvent,
    second: InputEvent,
    a: i32,
    b: i32,
)
    requires
        devices_wf(devs),
        second.device == first.device,
        second.index == first.index,
        first.value == ControlValue::Axis(a),
        second.value == ControlValue::Axis(b),
    ensures
        ({
            let (s1, o1) = step_spec(devs, table, first);
            let (s2, o2) = step_spec(s1, table, second);
            match axis_range_spec(devs, first.device, first.index) {
                None => o1 is None && o2 is None,
                Some(r) => {
                    let out_a = axis_output(a as int, r.min as int, r.max as int);
                    let out_b = axis_output(b as int, r.min as int, r.max as int);
                    &&& out_a == out_b ==> o2 is None
                    &&& match (read_spec(devs, first.key_spec()), lookup_spec(table, first.key_spec())) {
                        (Some(ControlValue::Axis(prev)), Some(bd)) => (bd.target is ContinuousControl
                            && axis_output(prev as int, r.min as int, r.max as int) != out_a
                            && out_a != out_b) ==> o1 == axis_cc(bd, out_a) && o2 == axis_cc(
                            bd,
                            out_b,
                        ),
                        _ => true,
                    }
                },
            }
        }),
{
    let s1 = step_spec(devs, table, first).0;
    lemma_find_id(ids(devs), first.device);
    match find_device(devs, first.device) {
        None => {},
        Some(p) => {
            if (first.index as int) < devs[p].axes.len() {
                assert(ids(s1) =~= ids(devs));
                assert(s1[p].ranges == devs[p].ranges);
            }
        },
    }
}

} // verus!
