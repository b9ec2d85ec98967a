use vstd::prelude::*;

use crate::action::DndAction;

verus! {

/// What a content provider offers: its mime types, in the order they were
/// added, and the drag-and-drop actions it supports.
#[derive(Clone, Debug)]
pub struct SourceMetadata {
    pub mime_types: Vec<String>,
    pub dnd_action: DndAction,
}

/// A data source owned by a client, known by its resource id.
#[derive(Clone, Debug)]
pub struct DataSource {
    pub id: u64,
    pub metadata: SourceMetadata,
}

/// The current selection of a seat.
#[derive(Clone, Debug)]
pub enum Selection {
    Empty,
    Client(DataSource),
    Compositor(SourceMetadata),
}

/// A data device registered on a seat, with the client that owns it, if that
/// client is still connected.
#[derive(Clone, Copy, Debug, PartialEq, Eq, Structural)]
pub struct DeviceRecord {
    pub id: u64,
    pub client: Option<u64>,
}

/// Who answers the receive requests made on an offer.
#[derive(Clone, Copy, Debug, PartialEq, Eq, Structural)]
pub enum OfferOrigin {
    /// The client source with this id.
    Client(u64),
    /// The compositor's own callback.
    Compositor,
    /// No one: a drag without a source, whose content only its own client
    /// reads; every receive request is denied.
    Nobody,
}

/// A fresh offer describing the selection to one data device.
#[derive(Clone, Debug)]
pub struct SelectionOffer {
    pub device: u64,
    pub mime_types: Vec<String>,
    pub origin: OfferOrigin,
}

/// What a broadcast sends to one data device.
#[derive(Clone, Debug)]
pub enum SelectionEvent {
    /// The device is told that the selection is empty.
    Cleared { device: u64 },
    /// The device receives a new offer, its mime types, then the offer as the
    /// selection.
    Offered(SelectionOffer),
}

/// The per-seat selection registry.
pub struct SeatData {
    pub known_devices: Vec<DeviceRecord>,
    pub selection: Selection,
    pub current_focus: Option<u64>,
}

/// The devices of `devs` that belong to `client`, in order.
pub open spec fn focused_devices(devs: Seq<DeviceRecord>, client: u64) -> Seq<DeviceRecord>
    decreases devs.len(),
{
    if devs.len() == 0 {
        Seq::empty()
    } else {
        let rest = focused_devices(devs.drop_last(), client);
        if devs.last().client == Some(client) {
            rest.push(devs.last())
        } else {
            rest
        }
    }
}

/// The selection as a broadcast sees it: a client selection whose source is
/// dead counts as empty.
pub open spec fn sanitized(sel: Selection, source_alive: bool) -> Selection {
    match sel {
        Selection::Client(_) => if source_alive {
            sel
        } else {
            Selection::Empty
        },
        _ => sel,
    }
}

/// The device that an event is sent to.
pub open spec fn event_device(e: SelectionEvent) -> u64 {
    match e {
        SelectionEvent::Cleared { device } => device,
        SelectionEvent::Offered(o) => o.device,
    }
}

/// Whether `e` is what device `d` is sent for selection `sel`.
pub open spec fn event_for(e: SelectionEvent, d: DeviceRecord, sel: Selection) -> bool {
    match sel {
        Selection::Empty => e == (SelectionEvent::Cleared { device: d.id }),
        Selection::Client(src) => match e {
            SelectionEvent::Offered(o) => o.device == d.id && o.mime_types@
                == src.metadata.mime_types@ && o.origin == OfferOrigin::Client(src.id),
            _ => false,
        },
        Selection::Compositor(meta) => match e {
            SelectionEvent::Offered(o) => o.device == d.id && o.mime_types@ == meta.mime_types@
                && o.origin == OfferOrigin::Compositor,
            _ => false,
        },
    }
}

/// Whether `events` are, one for one and in order, what the devices of
/// `client` are sent for selection `sel`.
pub open spec fn broadcast_of(
    events: Seq<SelectionEvent>,
    devs: Seq<DeviceRecord>,
    client: u64,
    sel: Selection,
) -> bool {
    &&& events.len() == focused_devices(devs, client).len()
    &&& forall|i: int|
        0 <= i < events.len() ==> event_for(
            #[trigger] events[i],
            focused_devices(devs, client)[i],
            sel,
        )
}

/// Whether a broadcast from `old` gave `new` and `events`: nothing happens
/// without a focused client; otherwise a dead client source is dropped and the
/// focused client's devices, and only those, are sent the selection.
pub open spec fn broadcast_step(
    old: SeatData,
    source_alive: bool,
    new: SeatData,
    events: Seq<SelectionEvent>,
) -> bool {
    &&& new.known_devices@ == old.known_devices@
    &&& new.current_focus == old.current_focus
    &&& match old.current_focus {
        None => new.selection == old.selection && events.len() == 0,
        Some(c) => new.selection == sanitized(old.selection, source_alive) && broadcast_of(
            events,
            old.known_devices@,
            c,
            new.selection,
        ),
    }
}

proof fn lemma_focused_devices_owned(devs: Seq<DeviceRecord>, client: u64)
    ensures
        forall|i: int|
            0 <= i < focused_devices(devs, client).len() ==> (#[trigger] focused_devices(
                devs,
                client,
            )[i]).client == Some(client) && devs.contains(focused_devices(devs, client)[i]),
    decreases devs.len(),
{
    if devs.len() > 0 {
        let rest = devs.drop_last();
        lemma_focused_devices_owned(rest, client);
        assert forall|i: int|
            0 <= i < focused_devices(devs, client).len() implies devs.contains(
            #[trigger] focused_devices(devs, client)[i],
        ) by {
            if i < focused_devices(rest, client).len() {
                let d = focused_devices(rest, client)[i];
                let j = choose|j: int| 0 <= j < rest.len() && rest[j] == d;
                assert(devs[j] == d);
            } else {
                assert(devs[devs.len() - 1] == devs.last());
            }
        }
    }
}

/// Whether `devs` holds a device with id `id` that `client` owns.
pub open spec fn is_device_of(devs: Seq<DeviceRecord>, client: u64, id: u64) -> bool {
    exists|j: int| 0 <= j < devs.len() && #[trigger] devs[j].id == id && devs[j].client == Some(client)
}

/// A broadcast sends the selection to devices of the focused client only:
/// each event goes to a known device that the focused client owns, so no
/// other client is ever sent an offer.
pub proof fn lemma_broadcast_reaches_only_focus(
    old: SeatData,
    source_alive: bool,
    new: SeatData,
    events: Seq<SelectionEvent>,
)
    requires
        broadcast_step(old, source_alive, new, events),
    ensures
        forall|i: int|
            0 <= i < events.len() ==> old.current_focus is Some && is_device_of(
                old.known_devices@,
                old.current_focus->0,
                event_device(#[trigger] events[i]),
            ),
{
    if let Some(c) = old.current_focus {
        lemma_focused_devices_owned(old.known_devices@, c);
        assert forall|i: int| 0 <= i < events.len() implies is_device_of(
            old.known_devices@,
            c,
            event_device(#[trigger] events[i]),
        ) by {
            let d = focused_devices(old.known_devices@, c)[i];
            assert(event_for(events[i], d, new.selection));
            assert(old.known_devices@.contains(d));
            let j = choose|j: int| 0 <= j < old.known_devices@.len() && old.known_devices@[j] == d;
            assert(old.known_devices@[j].id == event_device(events[i]));
        }
    }
}

/// Whether no two records of `devs` share an id.
pub open spec fn distinct_ids(devs: Seq<DeviceRecord>) -> bool {
    forall|i: int, j: int|
        0 <= i < devs.len() && 0 <= j < devs.len() && i != j ==> #[trigger] devs[i].id
            != #[trigger] devs[j].id
}

/// When device ids are distinct, a broadcast addresses no device of any
/// client but the focused one: no event names a device record whose owner is
/// another client, or no client at all.
pub proof fn lemma_broadcast_skips_other_clients(
    old: SeatData,
    source_alive: bool,
    new: SeatData,
    events: Seq<SelectionEvent>,
)
    requires
        broadcast_step(old, source_alive, new, events),
        distinct_ids(old.known_devices@),
    ensures
        forall|i: int, j: int|
            0 <= i < events.len() && 0 <= j < old.known_devices@.len()
                && old.known_devices@[j].client != old.current_focus ==> event_device(
                #[trigger] events[i],
            ) != (#[trigger] old.known_devices@[j]).id,
{
    lemma_broadcast_reaches_only_focus(old, source_alive, new, events);
    let devs = old.known_devices@;
    assert forall|i: int, j: int|
        0 <= i < events.len() && 0 <= j < devs.len() && devs[j].client
            != old.current_focus implies event_device(#[trigger] events[i]) != (#[trigger] devs[j]).id by {
        let c = old.current_focus->0;
        assert(is_device_of(devs, c, event_device(events[i])));
        let k = choose|k: int|
            0 <= k < devs.len() && #[trigger] devs[k].id == event_device(events[i]) && devs[k].client
                == Some(c);
        if devs[j].id == event_device(events[i]) {
            assert(k != j);
        }
    }
}

/// Once the source of a client selection is dead, the next broadcast to a
/// focused client presents the selection as empty: the registry drops the
/// selection and every event sent clears it.
pub proof fn lemma_dead_source_broadcasts_empty(
    old: SeatData,
    new: SeatData,
    events: Seq<SelectionEvent>,
)
    requires
        broadcast_step(old, false, new, events),
        old.selection is Client,
        old.current_focus is Some,
    ensures
        new.selection == Selection::Empty,
        forall|i: int| 0 <= i < events.len() ==> #[trigger] events[i] is Cleared,
{
    assert forall|i: int| 0 <= i < events.len() implies #[trigger] events[i] is Cleared by {
        let c = old.current_focus->0;
        assert(event_for(events[i], focused_devices(old.known_devices@, c)[i], new.selection));
    }
}

/// Copies a list of mime types.
pub fn clone_mime_types(v: &Vec<String>) -> (r: Vec<String>)
    ensures
        r@ == v@,
{
    let mut r: Vec<String> = Vec::new();
    let mut i: usize = 0;
    while i < v.len()
        invariant
            i <= v.len(),
            r@ == v@.subrange(0, i as int),
        decreases v.len() - i,
    {
        r.push(v[i].clone());
        i = i + 1;
    }
    assert(r@ =~= v@);
    r
}

/// The event that device `d` is sent for the selection `sel`.
fn make_event(d: &DeviceRecord, sel: &Selection) -> (e: SelectionEvent)
    ensures
        event_for(e, *d, *sel),
{
    match sel {
        Selection::Empty => SelectionEvent::Cleared { device: d.id },
        Selection::Client(src) => SelectionEvent::Offered(
            SelectionOffer {
                device: d.id,
                mime_types: clone_mime_types(&src.metadata.mime_types),
                origin: OfferOrigin::Client(src.id),
            },
        ),
        Selection::Compositor(meta) => SelectionEvent::Offered(
            SelectionOffer {
                device: d.id,
                mime_types: clone_mime_types(&meta.mime_types),
                origin: OfferOrigin::Compositor,
            },
        ),
    }
}

impl SeatData {
    /// A registry with no device, an empty selection and no focus.
    pub fn new() -> (r: SeatData)
        ensures
            r.known_devices@.len() == 0,
            r.selection == Selection::Empty,
            r.current_focus == None::<u64>,
    {
        SeatData { known_devices: Vec::new(), selection: Selection::Empty, current_focus: None }
    }

    /// Sends the current selection to the devices of the focused client.
    ///
    /// `source_alive` tells whether the source of a client selection is still
    /// alive; it is ignored for other selections.
    pub fn send_selection(&mut self, source_alive: bool) -> (events: Vec<SelectionEvent>)
        ensures
            broadcast_step(*old(self), source_alive, *final(self), events@),
    {
        let client = match self.current_focus {
            Some(c) => c,
            None => return Vec::new(),
        };
        let cleanup = match self.selection {
            Selection::Client(_) => !source_alive,
            _ => false,
        };
        if cleanup {
            self.selection = Selection::Empty;
        }
        let mut events: Vec<SelectionEvent> = Vec::new();
        let mut i: usize = 0;
        while i < self.known_devices.len()
            invariant
                i <= self.known_devices@.len(),
                self.known_devices@ == old(self).known_devices@,
                self.current_focus == Some(client),
                self.selection == sanitized(old(self).selection, source_alive),
                broadcast_of(
                    events@,
                    self.known_devices@.subrange(0, i as int),
                    client,
                    self.selection,
                ),
            decreases self.known_devices@.len() - i,
        {
            let d = self.known_devices[i];
            let ghost devs = self.known_devices@;
            assert(devs.subrange(0, i + 1).drop_last() =~= devs.subrange(0, i as int));
            assert(devs.subrange(0, i + 1).last() == d);
            let owned = match d.client {
                Some(c) => c == client,
                None => false,
            };
            if owned {
                let e = make_event(&d, &self.selection);
                let ghost before = events@;
                events.push(e);
                assert(forall|k: int|
                    0 <= k < before.len() ==> #[trigger] events@[k] == before[k]);
            }
            i = i + 1;
        }
        assert(self.known_devices@.subrange(0, i as int) =~= self.known_devices@);
        events
    }

    /// Replaces the selection, then sends it to the focused client.
    pub fn set_selection(&mut self, new_selection: Selection, source_alive: bool) -> (events: Vec<
        SelectionEvent,
    >)
        ensures
            broadcast_step(
                SeatData {
                    known_devices: old(self).known_devices,
                    selection: new_selection,
                    current_focus: old(self).current_focus,
                },
                source_alive,
                *final(self),
                events@,
            ),
    {
        self.selection = new_selection;
        self.send_selection(source_alive)
    }

    /// Replaces the focused client, then sends it the selection.
    pub fn set_focus(&mut self, new_focus: Option<u64>, source_alive: bool) -> (events: Vec<
        SelectionEvent,
    >)
        ensures
            broadcast_step(
                SeatData {
                    known_devices: old(self).known_devices,
                    selection: old(self).selection,
                    current_focus: new_focus,
                },
                source_alive,
                *final(self),
                events@,
            ),
    {
        self.current_focus = new_focus;
        self.send_selection(source_alive)
    }
}

} // verus!
