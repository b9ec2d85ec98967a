use vstd::prelude::*;

use crate::dnd::{release_notice, DragNotice, DragPhase, DragSession};
use crate::selection::{distinct_ids, DeviceRecord, SeatData};

verus! {

/// What a pointer grab is doing.
#[derive(Clone, Debug)]
pub enum GrabKind {
    /// The implicit grab that a button press establishes.
    Implicit,
    /// A drag started by a client, from `origin`, with an optional source,
    /// and the session that the grab drives.
    ClientDrag { source: Option<u64>, origin: u64, session: DragSession },
    /// A drag started by the compositor, and the session that the grab drives.
    ServerDrag { session: DragSession },
}

/// The drag session that a grab drives, if it is a drag.
pub open spec fn grab_session(g: Option<Grab>) -> Option<DragSession> {
    match g {
        Some(Grab { kind: GrabKind::ClientDrag { session, .. }, .. }) => Some(session),
        Some(Grab { kind: GrabKind::ServerDrag { session }, .. }) => Some(session),
        _ => None,
    }
}

/// Whether the grab drives a drag that goes on.
pub open spec fn drag_in_progress(g: Option<Grab>) -> bool {
    grab_session(g) is Some && grab_session(g)->0.phase == DragPhase::Dragging
}


/// An active pointer grab and the serial of the event that started it.
#[derive(Clone, Debug)]
pub struct Grab {
    pub serial: u32,
    pub kind: GrabKind,
}

/// A seat's pointer.
#[derive(Clone, Debug)]
pub struct Pointer {
    pub grab: Option<Grab>,
}

/// A seat's keyboard, with the client that holds its focus.
#[derive(Clone, Copy, Debug, PartialEq, Eq, Structural)]
pub struct Keyboard {
    pub focus: Option<u64>,
}

/// A seat: its selection registry and its input devices.
pub struct Seat {
    pub data: SeatData,
    pub pointer: Option<Pointer>,
    pub keyboard: Option<Keyboard>,
}

impl Pointer {
    pub open spec fn spec_has_grab(&self, serial: u32) -> bool {
        self.grab is Some && self.grab->0.serial == serial
    }

    /// Whether an active grab was started by the event with this serial.
    pub fn has_grab(&self, serial: u32) -> (r: bool)
        ensures
            r == self.spec_has_grab(serial),
    {
        match &self.grab {
            Some(g) => g.serial == serial,
            None => false,
        }
    }

    /// Whether the active grab drives a drag that goes on.
    pub fn drag_in_progress(&self) -> (r: bool)
        ensures
            r == drag_in_progress(self.grab),
    {
        match &self.grab {
            Some(Grab { kind: GrabKind::ClientDrag { session, .. }, .. }) => session.phase
                == DragPhase::Dragging,
            Some(Grab { kind: GrabKind::ServerDrag { session }, .. }) => session.phase
                == DragPhase::Dragging,
            _ => false,
        }
    }

    /// The button is released. A drag grab hands the release to its session,
    /// which drops or cancels the drag, and the grab ends; any other grab is
    /// left as it is.
    pub fn release_button(&mut self) -> (r: Option<DragNotice>)
        ensures
            grab_session(old(self).grab) is Some ==> r == release_notice(
                grab_session(old(self).grab)->0,
            ) && final(self).grab == None::<Grab>,
            grab_session(old(self).grab) is None ==> r == None::<DragNotice> && *final(self) == *old(
                self,
            ),
    {
        let r = match &mut self.grab {
            Some(Grab { kind: GrabKind::ClientDrag { session, .. }, .. }) => session.button_release(),
            Some(Grab { kind: GrabKind::ServerDrag { session }, .. }) => session.button_release(),
            _ => {
                return None;
            },
        };
        self.grab = None;
        r
    }

    /// Installs a grab, replacing any active one.
    pub fn set_grab(&mut self, kind: GrabKind, serial: u32)
        ensures
            final(self).grab == Some(Grab { serial, kind }),
    {
        self.grab = Some(Grab { serial, kind });
    }
}

impl Keyboard {
    pub open spec fn spec_has_focus(&self, client: u64) -> bool {
        self.focus == Some(client)
    }

    /// Whether `client` holds the keyboard focus.
    pub fn has_focus(&self, client: u64) -> (r: bool)
        ensures
            r == self.spec_has_focus(client),
    {
        match self.focus {
            Some(c) => c == client,
            None => false,
        }
    }
}

/// The devices of `devs` that a release of `device` keeps: the others that
/// are still alive, in order.
pub open spec fn kept_devices(devs: Seq<DeviceRecord>, device: u64, live: Seq<u64>) -> Seq<
    DeviceRecord,
>
    decreases devs.len(),
{
    if devs.len() == 0 {
        Seq::empty()
    } else {
        let rest = kept_devices(devs.drop_last(), device, live);
        if devs.last().id != device && live.contains(devs.last().id) {
            rest.push(devs.last())
        } else {
            rest
        }
    }
}

proof fn lemma_kept_devices_distinct(devs: Seq<DeviceRecord>, device: u64, live: Seq<u64>)
    ensures
        forall|k: int|
            0 <= k < kept_devices(devs, device, live).len() ==> devs.contains(
                #[trigger] kept_devices(devs, device, live)[k],
            ),
        distinct_ids(devs) ==> distinct_ids(kept_devices(devs, device, live)),
    decreases devs.len(),
{
    if devs.len() > 0 {
        let rest = devs.drop_last();
        let kr = kept_devices(rest, device, live);
        lemma_kept_devices_distinct(rest, device, live);
        assert forall|k: int|
            0 <= k < kept_devices(devs, device, live).len() implies devs.contains(
            #[trigger] kept_devices(devs, device, live)[k],
        ) by {
            if k < kr.len() {
                let j = choose|j: int| 0 <= j < rest.len() && rest[j] == kr[k];
                assert(devs[j] == kr[k]);
            } else {
                assert(devs[devs.len() - 1] == devs.last());
            }
        }
        if distinct_ids(devs) {
            assert(distinct_ids(rest)) by {
                assert forall|i: int, j: int|
                    0 <= i < rest.len() && 0 <= j < rest.len() && i != j implies #[trigger] rest[i].id
                    != #[trigger] rest[j].id by {
                    assert(rest[i] == devs[i] && rest[j] == devs[j]);
                }
            }
            assert forall|k: int| 0 <= k < kr.len() implies (#[trigger] kr[k]).id != devs.last().id by {
                let j = choose|j: int| 0 <= j < rest.len() && rest[j] == kr[k];
                assert(devs[j] == kr[k]);
                assert(devs[devs.len() - 1] == devs.last());
            }
        }
    }
}

fn contains_id(v: &Vec<u64>, x: u64) -> (r: bool)
    ensures
        r == v@.contains(x),
{
    let mut i: usize = 0;
    while i < v.len()
        invariant
            i <= v@.len(),
            forall|k: int| 0 <= k < i ==> v@[k] != x,
        decreases v@.len() - i,
    {
        if v[i] == x {
            return true;
        }
        i = i + 1;
    }
    false
}

impl Seat {
    /// A seat with a fresh registry, with or without a pointer and a keyboard.
    pub fn new(has_pointer: bool, has_keyboard: bool) -> (r: Seat)
        ensures
            r.data.known_devices@.len() == 0,
            r.data.selection == crate::selection::Selection::Empty,
            r.data.current_focus == None::<u64>,
            r.pointer == (if has_pointer {
                Some(Pointer { grab: None })
            } else {
                None
            }),
            r.keyboard == (if has_keyboard {
                Some(Keyboard { focus: None })
            } else {
                None
            }),
    {
        Seat {
            data: SeatData::new(),
            pointer: if has_pointer {
                Some(Pointer { grab: None })
            } else {
                None
            },
            keyboard: if has_keyboard {
                Some(Keyboard { focus: None })
            } else {
                None
            },
        }
    }

    /// Registers a new data device on this seat, under an id that no known
    /// device has.
    pub fn register_device(&mut self, device: DeviceRecord)
        requires
            forall|i: int|
                0 <= i < old(self).data.known_devices@.len() ==> (#[trigger] old(
                    self,
                ).data.known_devices@[i]).id != device.id,
        ensures
            distinct_ids(old(self).data.known_devices@) ==> distinct_ids(
                final(self).data.known_devices@,
            ),
            final(self).data.known_devices@ == old(self).data.known_devices@.push(device),
            final(self).data.selection == old(self).data.selection,
            final(self).data.current_focus == old(self).data.current_focus,
            final(self).pointer == old(self).pointer,
            final(self).keyboard == old(self).keyboard,
    {
        self.data.known_devices.push(device);
    }

    /// Removes a released device, and every device that is no longer in
    /// `live`, from the known devices.
    pub fn release_device(&mut self, device: u64, live: &Vec<u64>)
        ensures
            final(self).data.known_devices@ == kept_devices(
                old(self).data.known_devices@,
                device,
                live@,
            ),
            distinct_ids(old(self).data.known_devices@) ==> distinct_ids(
                final(self).data.known_devices@,
            ),
            final(self).data.selection == old(self).data.selection,
            final(self).data.current_focus == old(self).data.current_focus,
            final(self).pointer == old(self).pointer,
            final(self).keyboard == old(self).keyboard,
    {
        let mut kept: Vec<DeviceRecord> = Vec::new();
        let mut i: usize = 0;
        while i < self.data.known_devices.len()
            invariant
                i <= self.data.known_devices@.len(),
                self.data.known_devices@ == old(self).data.known_devices@,
                kept@ == kept_devices(
                    self.data.known_devices@.subrange(0, i as int),
                    device,
                    live@,
                ),
            decreases self.data.known_devices@.len() - i,
        {
            let d = self.data.known_devices[i];
            let ghost devs = self.data.known_devices@;
            assert(devs.subrange(0, i + 1).drop_last() =~= devs.subrange(0, i as int));
            assert(devs.subrange(0, i + 1).last() == d);
            if d.id != device && contains_id(live, d.id) {
                kept.push(d);
            }
            i = i + 1;
        }
        assert(self.data.known_devices@.subrange(0, i as int) =~= self.data.known_devices@);
        proof {
            lemma_kept_devices_distinct(self.data.known_devices@, device, live@);
        }
        self.data.known_devices = kept;
    }
}

} // verus!
