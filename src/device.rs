use vstd::prelude::*;

use crate::action::DndAction;
use crate::dnd::{fresh_session, DragNotice, DragPhase, DragSession, DragTarget};
use crate::seat::{drag_in_progress, Grab, GrabKind, Pointer, Seat};
use crate::selection::{broadcast_step, DataSource, OfferOrigin, SeatData, Selection, SelectionEvent, SourceMetadata};

verus! {

/// Events that the interactions of clients with their data devices generate
/// for the compositor.
#[derive(Clone, Debug)]
pub enum DataDeviceEvent {
    /// A client has set the selection, to the source with this id or to none.
    NewSelection(Option<u64>),
    /// A client started a drag-and-drop in response to a pointer action.
    DnDStarted(Option<u64>),
    /// A client asked to read the selection that the compositor set.
    SendSelection { mime_type: String, fd: i32 },
}

/// The selection that a `SetSelection` request with this source asks for.
pub open spec fn requested_selection(source: Option<DataSource>) -> Selection {
    match source {
        Some(s) => Selection::Client(s),
        None => Selection::Empty,
    }
}

/// The source id of an optional source.
pub open spec fn source_id(source: Option<DataSource>) -> Option<u64> {
    match source {
        Some(s) => Some(s.id),
        None => None,
    }
}

/// Whether the seat's pointer holds an active grab started by `serial`.
pub open spec fn drag_allowed(seat: Seat, serial: u32) -> bool {
    seat.pointer is Some && seat.pointer->0.spec_has_grab(serial)
}

/// Whether `requester` holds the keyboard focus of the seat.
pub open spec fn selection_allowed(seat: Seat, requester: Option<u64>) -> bool {
    &&& seat.keyboard is Some
    &&& requester is Some
    &&& seat.keyboard->0.spec_has_focus(requester->0)
}

/// Whether `g` is the grab of a client drag that has just started with this
/// serial, source and origin.
pub open spec fn client_drag_started(
    g: Option<Grab>,
    serial: u32,
    source: Option<DataSource>,
    origin: u64,
) -> bool {
    match g {
        Some(Grab { serial: s, kind: GrabKind::ClientDrag { source: src, origin: o, session } }) => {
            &&& s == serial
            &&& src == source_id(source)
            &&& o == origin
            &&& match source {
                Some(d) => session == fresh_session(d.metadata, OfferOrigin::Client(d.id)),
                None => {
                    &&& session.metadata.mime_types@.len() == 0
                    &&& session.metadata.dnd_action.bits == 0
                    &&& session.origin == OfferOrigin::Nobody
                    &&& session.target == None::<DragTarget>
                    &&& session.phase == DragPhase::Dragging
                    &&& session.next_offer == 0
                },
            }
        },
        _ => false,
    }
}

/// What replacing the pointer's grab reports: a drag that went on is
/// cancelled.
pub open spec fn replaced_notice(p: Pointer) -> Option<DragNotice> {
    if drag_in_progress(p.grab) {
        Some(DragNotice::Cancelled)
    } else {
        None
    }
}

/// Handles a `StartDrag` request from a client.
///
/// The drag starts only in response to the pointer's active grab with the same
/// serial: the compositor is told, and a client drag grab, driving a fresh
/// session over the source's content, replaces the active grab. A drag that
/// this replaces is cancelled, and the second result reports it. Otherwise the
/// request is denied and the seat is unchanged.
pub fn request_start_drag(
    seat: &mut Seat,
    source: Option<DataSource>,
    origin: u64,
    serial: u32,
) -> (r: (Option<DataDeviceEvent>, Option<DragNotice>))
    ensures
        drag_allowed(*old(seat), serial) ==> {
            &&& r.0 == Some(DataDeviceEvent::DnDStarted(source_id(source)))
            &&& r.1 == replaced_notice(old(seat).pointer->0)
            &&& final(seat).pointer is Some
            &&& client_drag_started(final(seat).pointer->0.grab, serial, source, origin)
            &&& final(seat).data == old(seat).data
            &&& final(seat).keyboard == old(seat).keyboard
        },
        !drag_allowed(*old(seat), serial) ==> {
            &&& r.0 == None::<DataDeviceEvent>
            &&& r.1 == None::<DragNotice>
            &&& *final(seat) == *old(seat)
        },
{
    if let Some(pointer) = &mut seat.pointer {
        if pointer.has_grab(serial) {
            let replaced = if pointer.drag_in_progress() {
                Some(DragNotice::Cancelled)
            } else {
                None
            };
            let (id, session) = match source {
                Some(d) => (Some(d.id), DragSession::new(d.metadata, OfferOrigin::Client(d.id))),
                None => (
                    None,
                    DragSession::new(
                        SourceMetadata { mime_types: Vec::new(), dnd_action: DndAction::empty() },
                        OfferOrigin::Nobody,
                    ),
                ),
            };
            pointer.set_grab(GrabKind::ClientDrag { source: id, origin, session }, serial);
            return (Some(DataDeviceEvent::DnDStarted(id)), replaced);
        }
    }
    (None, None)
}

/// Handles a `SetSelection` request from a client.
///
/// Only the client with keyboard focus may set the selection: the compositor
/// is told, then the registry takes the new selection and sends it to the
/// focused client. A request from another client is denied and the seat is
/// unchanged. `source_alive` tells whether the new source is still alive.
pub fn request_set_selection(
    seat: &mut Seat,
    requester: Option<u64>,
    source: Option<DataSource>,
    source_alive: bool,
) -> (r: (Option<DataDeviceEvent>, Vec<SelectionEvent>))
    ensures
        selection_allowed(*old(seat), requester) ==> {
            &&& r.0 == Some(DataDeviceEvent::NewSelection(source_id(source)))
            &&& broadcast_step(
                SeatData {
                    known_devices: old(seat).data.known_devices,
                    selection: requested_selection(source),
                    current_focus: old(seat).data.current_focus,
                },
                source_alive,
                final(seat).data,
                r.1@,
            )
            &&& final(seat).pointer == old(seat).pointer
            &&& final(seat).keyboard == old(seat).keyboard
        },
        !selection_allowed(*old(seat), requester) ==> {
            &&& r.0 == None::<DataDeviceEvent>
            &&& r.1@.len() == 0
            &&& *final(seat) == *old(seat)
        },
{
    let allowed = match (&seat.keyboard, requester) {
        (Some(k), Some(c)) => k.has_focus(c),
        _ => false,
    };
    if !allowed {
        return (None, Vec::new());
    }
    let (id, new_selection) = match source {
        Some(s) => (Some(s.id), Selection::Client(s)),
        None => (None, Selection::Empty),
    };
    let events = seat.data.set_selection(new_selection, source_alive);
    (Some(DataDeviceEvent::NewSelection(id)), events)
}

/// Sets the data device focus of a seat to a client, or to none, and sends
/// that client the selection.
///
/// `source_alive` tells whether the source of a client selection is still
/// alive.
pub fn set_data_device_focus(seat: &mut Seat, client: Option<u64>, source_alive: bool) -> (r: Vec<
    SelectionEvent,
>)
    ensures
        broadcast_step(
            SeatData {
                known_devices: old(seat).data.known_devices,
                selection: old(seat).data.selection,
                current_focus: client,
            },
            source_alive,
            final(seat).data,
            r@,
        ),
        final(seat).pointer == old(seat).pointer,
        final(seat).keyboard == old(seat).keyboard,
{
    seat.data.set_focus(client, source_alive)
}

/// Sets a selection provided by the compositor, with these mime types, and
/// sends it to the focused client.
pub fn set_data_device_selection(seat: &mut Seat, mime_types: Vec<String>) -> (r: Vec<
    SelectionEvent,
>)
    ensures
        final(seat).data.selection == (Selection::Compositor(
            SourceMetadata { mime_types, dnd_action: DndAction { bits: 0 } },
        )),
        broadcast_step(
            SeatData {
                known_devices: old(seat).data.known_devices,
                selection: final(seat).data.selection,
                current_focus: old(seat).data.current_focus,
            },
            true,
            final(seat).data,
            r@,
        ),
        final(seat).pointer == old(seat).pointer,
        final(seat).keyboard == old(seat).keyboard,
{
    let meta = SourceMetadata { mime_types, dnd_action: DndAction::empty() };
    seat.data.set_selection(Selection::Compositor(meta), true)
}

/// Starts a drag-and-drop of content provided by the compositor: its grab,
/// driving a fresh session over that content, replaces the pointer's active
/// grab with this serial. A drag that this replaces is cancelled, and the
/// result reports it. A seat without a pointer is left unchanged.
pub fn start_dnd(seat: &mut Seat, serial: u32, metadata: SourceMetadata) -> (r: Option<DragNotice>)
    ensures
        old(seat).pointer is Some ==> {
            &&& final(seat).pointer is Some
            &&& final(seat).pointer->0.grab == Some(
                Grab {
                    serial,
                    kind: GrabKind::ServerDrag {
                        session: fresh_session(metadata, OfferOrigin::Compositor),
                    },
                },
            )
            &&& r == replaced_notice(old(seat).pointer->0)
        },
        old(seat).pointer is None ==> final(seat).pointer is None && r == None::<DragNotice>,
        final(seat).data == old(seat).data,
        final(seat).keyboard == old(seat).keyboard,
{
    if let Some(pointer) = &mut seat.pointer {
        let replaced = if pointer.drag_in_progress() {
            Some(DragNotice::Cancelled)
        } else {
            None
        };
        let session = DragSession::new(metadata, OfferOrigin::Compositor);
        pointer.set_grab(GrabKind::ServerDrag { session }, serial);
        return replaced;
    }
    None
}

} // verus!
