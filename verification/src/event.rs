//! Decoding what the kernel reported into an event.

use vstd::prelude::*;
use vstd::string::{is_ascii_spec_bytes, StringSliceAdditionalSpecFns};
use crate::device::{Device, DeviceView};

verus! {

/// What happened to a device.
#[derive(Clone, Copy, Debug, PartialEq, Eq, Hash, Structural)]
pub enum EventType {
    Add,
    Remove,
    Change,
    Online,
    Offline,
    Bind,
    Unbind,
    Move,
    /// The kernel named something that this crate does not know. The set of
    /// names may grow, and a stream goes on when it meets a new one.
    Unknown,
}

impl EventType {
    /// The bytes by which the kernel names a kind of event. `Unknown` stands
    /// for every other name and has none of its own; it is given the name
    /// under which it is shown.
    pub open spec fn name(self) -> Seq<u8> {
        match self {
            EventType::Add => "add".spec_bytes(),
            EventType::Remove => "remove".spec_bytes(),
            EventType::Change => "change".spec_bytes(),
            EventType::Online => "online".spec_bytes(),
            EventType::Offline => "offline".spec_bytes(),
            EventType::Bind => "bind".spec_bytes(),
            EventType::Unbind => "unbind".spec_bytes(),
            EventType::Move => "move".spec_bytes(),
            EventType::Unknown => "unknown".spec_bytes(),
        }
    }

    /// The kind that the kernel names by `action`: the one whose name it is,
    /// and `Unknown` where it is the name of none.
    pub open spec fn named(action: Seq<u8>) -> EventType {
        if action == EventType::Add.name() {
            EventType::Add
        } else if action == EventType::Remove.name() {
            EventType::Remove
        } else if action == EventType::Change.name() {
            EventType::Change
        } else if action == EventType::Online.name() {
            EventType::Online
        } else if action == EventType::Offline.name() {
            EventType::Offline
        } else if action == EventType::Bind.name() {
            EventType::Bind
        } else if action == EventType::Unbind.name() {
            EventType::Unbind
        } else if action == EventType::Move.name() {
            EventType::Move
        } else {
            EventType::Unknown
        }
    }

    /// The kind of an event whose name may be absent.
    pub open spec fn of(action: Option<Seq<u8>>) -> EventType {
        match action {
            Some(name) => EventType::named(name),
            None => EventType::Unknown,
        }
    }

    /// The name of the kind as text.
    pub fn as_str(self) -> (s: &'static str)
        ensures
            s.spec_bytes() == self.name(),
    {
        match self {
            EventType::Add => "add",
            EventType::Remove => "remove",
            EventType::Change => "change",
            EventType::Online => "online",
            EventType::Offline => "offline",
            EventType::Bind => "bind",
            EventType::Unbind => "unbind",
            EventType::Move => "move",
            EventType::Unknown => "unknown",
        }
    }

    /// Decodes the name of a kind. No name fails: one that is not known
    /// gives `Unknown`.
    pub fn from_bytes(action: &[u8]) -> (kind: EventType)
        ensures
            kind == EventType::named(action@),
    {
        if bytes_equal(action, "add".as_bytes()) {
            EventType::Add
        } else if bytes_equal(action, "remove".as_bytes()) {
            EventType::Remove
        } else if bytes_equal(action, "change".as_bytes()) {
            EventType::Change
        } else if bytes_equal(action, "online".as_bytes()) {
            EventType::Online
        } else if bytes_equal(action, "offline".as_bytes()) {
            EventType::Offline
        } else if bytes_equal(action, "bind".as_bytes()) {
            EventType::Bind
        } else if bytes_equal(action, "unbind".as_bytes()) {
            EventType::Unbind
        } else if bytes_equal(action, "move".as_bytes()) {
            EventType::Move
        } else {
            EventType::Unknown
        }
    }
}

/// Whether two byte strings are the same.
pub fn bytes_equal(a: &[u8], b: &[u8]) -> (r: bool)
    ensures
        r == (a@ == b@),
{
    if a.len() != b.len() {
        return false;
    }
    let mut i: usize = 0;
    while i < a.len()
        invariant
            i <= a.len(),
            a.len() == b.len(),
            forall|j: int| 0 <= j < i ==> a@[j] == b@[j],
        decreases a.len() - i,
    {
        if a[i] != b[i] {
            return false;
        }
        i = i + 1;
    }
    assert(a@ =~= b@);
    true
}

/// The bytes of each name, spelled out.
pub proof fn lemma_names()
    ensures
        EventType::Add.name() == seq![97u8, 100, 100],
        EventType::Remove.name() == seq![114u8, 101, 109, 111, 118, 101],
        EventType::Change.name() == seq![99u8, 104, 97, 110, 103, 101],
        EventType::Online.name() == seq![111u8, 110, 108, 105, 110, 101],
        EventType::Offline.name() == seq![111u8, 102, 102, 108, 105, 110, 101],
        EventType::Bind.name() == seq![98u8, 105, 110, 100],
        EventType::Unbind.name() == seq![117u8, 110, 98, 105, 110, 100],
        EventType::Move.name() == seq![109u8, 111, 118, 101],
        EventType::Unknown.name() == seq![117u8, 110, 107, 110, 111, 119, 110],
{
    reveal_strlit("add");
    reveal_strlit("remove");
    reveal_strlit("change");
    reveal_strlit("online");
    reveal_strlit("offline");
    reveal_strlit("bind");
    reveal_strlit("unbind");
    reveal_strlit("move");
    reveal_strlit("unknown");
    is_ascii_spec_bytes("add");
    is_ascii_spec_bytes("remove");
    is_ascii_spec_bytes("change");
    is_ascii_spec_bytes("online");
    is_ascii_spec_bytes("offline");
    is_ascii_spec_bytes("bind");
    is_ascii_spec_bytes("unbind");
    is_ascii_spec_bytes("move");
    is_ascii_spec_bytes("unknown");
    assert(EventType::Add.name() =~= seq![97u8, 100, 100]);
    assert(EventType::Remove.name() =~= seq![114u8, 101, 109, 111, 118, 101]);
    assert(EventType::Change.name() =~= seq![99u8, 104, 97, 110, 103, 101]);
    assert(EventType::Online.name() =~= seq![111u8, 110, 108, 105, 110, 101]);
    assert(EventType::Offline.name() =~= seq![111u8, 102, 102, 108, 105, 110, 101]);
    assert(EventType::Bind.name() =~= seq![98u8, 105, 110, 100]);
    assert(EventType::Unbind.name() =~= seq![117u8, 110, 98, 105, 110, 100]);
    assert(EventType::Move.name() =~= seq![109u8, 111, 118, 101]);
    assert(EventType::Unknown.name() =~= seq![117u8, 110, 107, 110, 111, 119, 110]);
}

/// Every kind but `Unknown` is decoded from its own name, so no two kinds
/// share a name; and the name under which `Unknown` is shown is not the name
/// of a kind, so that it decodes to `Unknown` too.
pub proof fn law_name_decodes_to_its_kind(kind: EventType)
    ensures
        EventType::named(kind.name()) == kind,
{
    lemma_names();
    let n = kind.name();
    assert(EventType::Add.name().len() == 3);
    assert(EventType::Remove.name().len() == 6);
    assert(EventType::Change.name().len() == 6);
    assert(EventType::Online.name().len() == 6);
    assert(EventType::Offline.name().len() == 7);
    assert(EventType::Bind.name().len() == 4);
    assert(EventType::Unbind.name().len() == 6);
    assert(EventType::Move.name().len() == 4);
    assert(EventType::Unknown.name().len() == 7);
    assert(EventType::Remove.name()[0] == 114u8);
    assert(EventType::Change.name()[0] == 99u8);
    assert(EventType::Online.name()[0] == 111u8);
    assert(EventType::Unbind.name()[0] == 117u8);
    assert(EventType::Bind.name()[0] == 98u8);
    assert(EventType::Move.name()[0] == 109u8);
    assert(EventType::Offline.name()[0] == 111u8);
    assert(EventType::Unknown.name()[0] == 117u8);
}

/// An event: what happened, and to which device.
#[derive(Debug)]
pub struct Event {
    kind: EventType,
    device: Device,
}

/// What an [`Event`] is, as plain values.
pub struct EventView {
    pub kind: EventType,
    pub device: DeviceView,
}

impl EventView {
    /// The event that a received device decodes to.
    pub open spec fn decode(device: DeviceView) -> EventView {
        EventView { kind: EventType::of(device.action), device }
    }
}

impl View for Event {
    type V = EventView;

    closed spec fn view(&self) -> EventView {
        EventView { kind: self.kind, device: self.device@ }
    }
}

impl Event {
    /// Decodes one received device into an event. The kind is read from the
    /// name that the kernel gave; the device is kept as it came.
    pub fn decode(device: Device) -> (event: Event)
        ensures
            event@ == EventView::decode(device@),
    {
        let kind = match device.action_bytes() {
            Some(name) => EventType::from_bytes(name),
            None => EventType::Unknown,
        };
        Event { kind, device }
    }

    /// What happened.
    pub fn event_type(&self) -> (kind: EventType)
        ensures
            kind == self@.kind,
    {
        self.kind
    }

    /// The device that it happened to.
    pub fn device(&self) -> (device: &Device)
        ensures
            device@ == self@.device,
    {
        &self.device
    }

    /// Gives up the event for its device.
    pub fn into_device(self) -> (device: Device)
        ensures
            device@ == self@.device,
    {
        self.device
    }
}

impl Clone for Event {
    fn clone(&self) -> (e: Event)
        ensures
            e@ == self@,
    {
        Event { kind: self.kind, device: self.device.clone() }
    }
}

} // verus!
