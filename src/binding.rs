//! Control keys, protocol targets and the table that binds one to the other.
use crate::midi::{cc_number, MidiCC};
use std::collections::HashMap;
use vstd::prelude::*;

verus! {

broadcast use vstd::std_specs::hash::group_hash_axioms;

/// The kind of an addressable input element.
#[derive(Clone, Copy, Debug, PartialEq, Eq, Structural)]
pub enum ControlKind {
    Axis,
    Button,
    Hat,
}

impl ControlKind {
    pub open spec fn code(self) -> u64 {
        match self {
            ControlKind::Axis => 0,
            ControlKind::Button => 1,
            ControlKind::Hat => 2,
        }
    }

    /// A small number that tells the kinds apart.
    pub fn kind_code(self) -> (r: u64)
        ensures
            r == self.code(),
    {
        match self {
            ControlKind::Axis => 0,
            ControlKind::Button => 1,
            ControlKind::Hat => 2,
        }
    }
}

/// One control of one device: `(device id, kind, index)`.
#[derive(Clone, Copy, Debug, PartialEq, Eq, Structural)]
pub struct ControlKey {
    pub device: u32,
    pub kind: ControlKind,
    pub index: u16,
}

impl ControlKey {
    /// A packing of the key into one integer: device, kind and index occupy
    /// disjoint bit ranges.
    pub open spec fn code(self) -> u64 {
        (self.device as int * 0x40000 + self.kind.code() as int * 0x10000
            + self.index as int) as u64
    }

    pub fn key_code(&self) -> (r: u64)
        ensures
            r == self.code(),
    {
        (self.device as u64) * 0x40000 + self.kind.kind_code() * 0x10000 + (self.index as u64)
    }
}

/// Distinct keys have distinct codes.
proof fn lemma_code_injective(a: ControlKey, b: ControlKey)
    requires
        a.code() == b.code(),
    ensures
        a == b,
{
    let ca = a.kind.code() as int * 0x10000 + a.index as int;
    let cb = b.kind.code() as int * 0x10000 + b.index as int;
    assert(a.device as int * 0x40000 + ca == b.device as int * 0x40000 + cb);
    assert(a.device == b.device);
    assert(a.kind.code() == b.kind.code());
    assert(a.index == b.index);
}

/// Why a binding was refused.
#[derive(Clone, Copy, Debug, PartialEq, Eq, Structural)]
pub enum BindError {
    ControllerOutOfRange,
    NoteOutOfRange,
    ChannelOutOfRange,
    VelocityOutOfRange,
}

/// What a control drives on the protocol side.
#[derive(Clone, Copy, Debug, PartialEq, Eq, Structural)]
pub enum Target {
    ContinuousControl { controller_id: u8 },
    NoteTrigger { note_number: u8 },
}

impl Target {
    pub open spec fn wf(self) -> bool {
        match self {
            Target::ContinuousControl { controller_id } => controller_id < 128,
            Target::NoteTrigger { note_number } => note_number < 128,
        }
    }

    /// A continuous-controller target, refused outside `0 ..= 127`.
    pub fn control_change(controller_id: u8) -> (r: Result<Target, BindError>)
        ensures
            controller_id < 128 ==> r == Ok::<Target, BindError>(
                Target::ContinuousControl { controller_id },
            ),
            controller_id >= 128 ==> r == Err::<Target, BindError>(
                BindError::ControllerOutOfRange,
            ),
    {
        if controller_id < 128 {
            Ok(Target::ContinuousControl { controller_id })
        } else {
            Err(BindError::ControllerOutOfRange)
        }
    }

    /// A note target, refused outside `0 ..= 127`.
    pub fn note(note_number: u8) -> (r: Result<Target, BindError>)
        ensures
            note_number < 128 ==> r == Ok::<Target, BindError>(
                Target::NoteTrigger { note_number },
            ),
            note_number >= 128 ==> r == Err::<Target, BindError>(BindError::NoteOutOfRange),
    {
        if note_number < 128 {
            Ok(Target::NoteTrigger { note_number })
        } else {
            Err(BindError::NoteOutOfRange)
        }
    }

    /// The continuous-controller target of a named controller.
    pub fn from_cc(cc: MidiCC) -> (r: Target)
        ensures
            r == (Target::ContinuousControl { controller_id: cc_number(cc) }),
            r.wf(),
    {
        Target::ContinuousControl { controller_id: cc.number() }
    }
}

/// A target together with its conversion parameters: the channel to send on
/// and the value sent while a button is held (note velocity, or controller
/// value for a button bound to a controller).
#[derive(Clone, Copy, Debug, PartialEq, Eq, Structural)]
pub struct Binding {
    pub target: Target,
    pub channel: u8,
    pub velocity: u8,
}

/// The first reason, if any, for which a binding is refused.
pub open spec fn binding_error(b: Binding) -> Option<BindError> {
    match b.target {
        Target::ContinuousControl { controller_id } if controller_id >= 128 => Some(
            BindError::ControllerOutOfRange,
        ),
        Target::NoteTrigger { note_number } if note_number >= 128 => Some(
            BindError::NoteOutOfRange,
        ),
        _ => if b.channel >= 16 {
            Some(BindError::ChannelOutOfRange)
        } else if b.velocity >= 128 {
            Some(BindError::VelocityOutOfRange)
        } else {
            None
        },
    }
}

impl Binding {
    pub open spec fn wf(self) -> bool {
        self.target.wf() && self.channel < 16 && self.velocity < 128
    }

    /// Checks every field against its legal range.
    pub fn check(&self) -> (r: Result<(), BindError>)
        ensures
            r is Ok <==> self.wf(),
            r is Ok <==> binding_error(*self) is None,
            r matches Err(e) ==> binding_error(*self) == Some(e),
    {
        match self.target {
            Target::ContinuousControl { controller_id } => {
                if controller_id >= 128 {
                    return Err(BindError::ControllerOutOfRange);
                }
            },
            Target::NoteTrigger { note_number } => {
                if note_number >= 128 {
                    return Err(BindError::NoteOutOfRange);
                }
            },
        }
        if self.channel >= 16 {
            Err(BindError::ChannelOutOfRange)
        } else if self.velocity >= 128 {
            Err(BindError::VelocityOutOfRange)
        } else {
            Ok(())
        }
    }

    /// A range-checked binding.
    pub fn new(target: Target, channel: u8, velocity: u8) -> (r: Result<Binding, BindError>)
        ensures
            ({
                let b = Binding { target, channel, velocity };
                match binding_error(b) {
                    None => r == Ok::<Binding, BindError>(b),
                    Some(e) => r == Err::<Binding, BindError>(e),
                }
            }),
    {
        let b = Binding { target, channel, velocity };
        match b.check() {
            Ok(()) => Ok(b),
            Err(e) => Err(e),
        }
    }
}

/// The binding of `key` in a table, if any.
pub open spec fn lookup_spec(m: Map<ControlKey, Binding>, key: ControlKey) -> Option<Binding> {
    if m.contains_key(key) {
        Some(m[key])
    } else {
        None
    }
}

/// A table after a bind: the key now maps to the binding, when the binding is
/// legal; otherwise nothing changes.
pub open spec fn bind_spec(m: Map<ControlKey, Binding>, key: ControlKey, b: Binding) -> Map<
    ControlKey,
    Binding,
> {
    if b.wf() {
        m.insert(key, b)
    } else {
        m
    }
}

/// All bindings of the engine, keyed by control.
pub struct BindingTable {
    map: HashMap<u64, Binding>,
}

impl View for BindingTable {
    type V = Map<ControlKey, Binding>;

    closed spec fn view(&self) -> Map<ControlKey, Binding> {
        Map::new(|k: ControlKey| self.map@.contains_key(k.code()), |k: ControlKey| self.map@[k.code()])
    }
}

impl BindingTable {
    /// Every binding in the table is legal.
    pub open spec fn wf(&self) -> bool {
        forall|k: ControlKey| #[trigger] self@.contains_key(k) ==> self@[k].wf()
    }

    pub fn new() -> (r: BindingTable)
        ensures
            r@ == Map::<ControlKey, Binding>::empty(),
            r.wf(),
    {
        let r = BindingTable { map: HashMap::new() };
        assert(r@ =~= Map::<ControlKey, Binding>::empty());
        r
    }

    /// The binding of `key`, if any.
    pub fn lookup(&self, key: ControlKey) -> (r: Option<Binding>)
        ensures
            r == lookup_spec(self@, key),
    {
        match self.map.get(&key.key_code()) {
            Some(b) => Some(*b),
            None => None,
        }
    }

    /// Binds `key` to `binding`, replacing any earlier binding of that key.
    /// A binding with a field out of range is refused and the table is left
    /// as it was.
    pub fn bind(&mut self, key: ControlKey, binding: Binding) -> (r: Result<(), BindError>)
        requires
            old(self).wf(),
        ensures
            final(self).wf(),
            final(self)@ == bind_spec(old(self)@, key, binding),
            r is Ok <==> binding.wf(),
            r matches Err(e) ==> binding_error(binding) == Some(e),
    {
        match binding.check() {
            Err(e) => Err(e),
            Ok(()) => {
                let ghost before = self@;
                self.map.insert(key.key_code(), binding);
                proof {
                    assert forall|k: ControlKey| #[trigger] self@.contains_key(k) == before.insert(
                        key,
                        binding,
                    ).contains_key(k) by {
                        if k.code() == key.code() {
                            lemma_code_injective(k, key);
                        }
                    }
                    assert forall|k: ControlKey| #[trigger] self@.contains_key(k) implies self@[k]
                        == before.insert(key, binding)[k] by {
                        if k.code() == key.code() {
                            lemma_code_injective(k, key);
                        }
                    }
                    assert(self@ =~= before.insert(key, binding));
                }
                Ok(())
            },
        }
    }

    /// Removes the binding of `key` and returns it.
    pub fn unbind(&mut self, key: ControlKey) -> (r: Option<Binding>)
        requires
            old(self).wf(),
        ensures
            final(self).wf(),
            final(self)@ == old(self)@.remove(key),
            r == lookup_spec(old(self)@, key),
    {
        let ghost before = self@;
        let r = self.map.remove(&key.key_code());
        proof {
            assert forall|k: ControlKey| #[trigger] self@.contains_key(k) == before.remove(
                key,
            ).contains_key(k) by {
                if k.code() == key.code() {
                    lemma_code_injective(k, key);
                }
            }
            assert(self@ =~= before.remove(key));
        }
        r
    }
}

/// Channel of the default layout.
pub const DEFAULT_CHANNEL: u8 = 0;

/// Note of the default layout's button.
pub const DEFAULT_NOTE: u8 = 60;

/// Note-on velocity of the default layout's button.
pub const DEFAULT_VELOCITY: u8 = 127;

pub open spec fn axis_key(device: u32, index: u16) -> ControlKey {
    ControlKey { device, kind: ControlKind::Axis, index }
}

pub open spec fn cc_binding(cc: MidiCC) -> Binding {
    Binding {
        target: Target::ContinuousControl { controller_id: cc_number(cc) },
        channel: DEFAULT_CHANNEL,
        velocity: DEFAULT_VELOCITY,
    }
}

/// The default layout of a device, on channel zero: axes 0, 1, 3 and 4 drive
/// pan, volume, modulation wheel and expression; button 0 plays note 60 at
/// full velocity.
pub open spec fn default_layout(m: Map<ControlKey, Binding>, device: u32) -> Map<
    ControlKey,
    Binding,
> {
    m.insert(axis_key(device, 0), cc_binding(MidiCC::Pan)).insert(
        axis_key(device, 1),
        cc_binding(MidiCC::Volume),
    ).insert(axis_key(device, 3), cc_binding(MidiCC::ModulationWheel)).insert(
        axis_key(device, 4),
        cc_binding(MidiCC::Expression),
    ).insert(
        ControlKey { device, kind: ControlKind::Button, index: 0 },
        Binding {
            target: Target::NoteTrigger { note_number: DEFAULT_NOTE },
            channel: DEFAULT_CHANNEL,
            velocity: DEFAULT_VELOCITY,
        },
    )
}

impl BindingTable {
    fn bind_cc(&mut self, device: u32, index: u16, cc: MidiCC)
        requires
            old(self).wf(),
        ensures
            final(self).wf(),
            final(self)@ == old(self)@.insert(axis_key(device, index), cc_binding(cc)),
    {
        let b = Binding { target: Target::from_cc(cc), channel: DEFAULT_CHANNEL, velocity: DEFAULT_VELOCITY };
        let _ = self.bind(ControlKey { device, kind: ControlKind::Axis, index }, b);
    }

    /// Installs the default layout for `device` (see `default_layout`),
    /// replacing any binding of those controls.
    pub fn bind_default_layout(&mut self, device: u32)
        requires
            old(self).wf(),
        ensures
            final(self).wf(),
            final(self)@ == default_layout(old(self)@, device),
    {
        self.bind_cc(device, 0, MidiCC::Pan);
        self.bind_cc(device, 1, MidiCC::Volume);
        self.bind_cc(device, 3, MidiCC::ModulationWheel);
        self.bind_cc(device, 4, MidiCC::Expression);
        let note = Binding {
            target: Target::NoteTrigger { note_number: DEFAULT_NOTE },
            channel: DEFAULT_CHANNEL,
            velocity: DEFAULT_VELOCITY,
        };
        let _ = self.bind(ControlKey { device, kind: ControlKind::Button, index: 0 }, note);
    }
}

/// Binding one key twice leaves exactly the second binding in effect.
pub proof fn lemma_last_bind_wins(
    m: Map<ControlKey, Binding>,
    key: ControlKey,
    first: Binding,
    second: Binding,
)
    requires
        second.wf(),
    ensures
        bind_spec(bind_spec(m, key, first), key, second) == bind_spec(m, key, second),
        lookup_spec(bind_spec(bind_spec(m, key, first), key, second), key) == Some(second),
{
    assert(bind_spec(bind_spec(m, key, first), key, second) =~= bind_spec(m, key, second));
}

} // verus!
