use data_device::offer::ReceiveOutcome;
use data_device::dnd::{DragNotice, DragPhase};
use data_device::seat::{GrabKind, Keyboard, Seat};
use data_device::selection::{
    DataSource, DeviceRecord, OfferOrigin, SeatData, Selection, SelectionEvent, SourceMetadata,
};
use data_device::{
    request_set_selection, request_start_drag, set_data_device_focus, set_data_device_selection,
    start_dnd, DataDeviceEvent, DndAction,
};

const CLIENT_A: u64 = 10;
const CLIENT_B: u64 = 20;
const DEVICE_A: u64 = 100;
const DEVICE_B: u64 = 200;
const SOURCE_A: u64 = 1000;

fn text_source(id: u64) -> DataSource {
    DataSource {
        id,
        metadata: SourceMetadata {
            mime_types: vec!["text/plain".to_string()],
            dnd_action: DndAction::copy(),
        },
    }
}

fn seat_with_two_clients() -> Seat {
    let mut seat = Seat::new(true, true);
    seat.register_device(DeviceRecord { id: DEVICE_A, client: Some(CLIENT_A) });
    seat.register_device(DeviceRecord { id: DEVICE_B, client: Some(CLIENT_B) });
    seat
}

fn focus_keyboard(seat: &mut Seat, client: u64) {
    seat.keyboard = Some(Keyboard { focus: Some(client) });
}

fn offer_of(e: &SelectionEvent) -> &data_device::selection::SelectionOffer {
    match e {
        SelectionEvent::Offered(o) => o,
        SelectionEvent::Cleared { .. } => panic!("expected an offer"),
    }
}

#[test]
fn end_to_end_selection_follows_focus() {
    let mut seat = seat_with_two_clients();
    focus_keyboard(&mut seat, CLIENT_A);
    let events = set_data_device_focus(&mut seat, Some(CLIENT_A), true);
    assert_eq!(events.len(), 1);
    assert!(matches!(events[0], SelectionEvent::Cleared { device: DEVICE_A }));

    let (notice, events) =
        request_set_selection(&mut seat, Some(CLIENT_A), Some(text_source(SOURCE_A)), true);
    assert!(matches!(notice, Some(DataDeviceEvent::NewSelection(Some(SOURCE_A)))));
    assert_eq!(events.len(), 1);
    let offer = offer_of(&events[0]);
    assert_eq!(offer.device, DEVICE_A);
    assert_eq!(offer.mime_types, vec!["text/plain".to_string()]);

    focus_keyboard(&mut seat, CLIENT_B);
    let events = set_data_device_focus(&mut seat, Some(CLIENT_B), true);
    assert_eq!(events.len(), 1);
    let offer = offer_of(&events[0]);
    assert_eq!(offer.device, DEVICE_B);
    assert_eq!(offer.mime_types, vec!["text/plain".to_string()]);
    assert_eq!(offer.origin, OfferOrigin::Client(SOURCE_A));

    match offer.receive("text/plain".to_string(), 42, true) {
        ReceiveOutcome::ForwardedToSource { source, mime_type, fd } => {
            assert_eq!(source, SOURCE_A);
            assert_eq!(mime_type, "text/plain");
            assert_eq!(fd, 42);
        }
        other => panic!("unexpected outcome {:?}", other),
    }
}

#[test]
fn only_focused_client_devices_get_offers() {
    let mut seat = seat_with_two_clients();
    seat.register_device(DeviceRecord { id: 300, client: Some(CLIENT_A) });
    seat.register_device(DeviceRecord { id: 400, client: None });
    let _ = set_data_device_focus(&mut seat, Some(CLIENT_A), true);
    let events = set_data_device_selection(&mut seat, vec!["a".to_string(), "b".to_string()]);
    assert_eq!(events.len(), 2);
    assert_eq!(offer_of(&events[0]).device, DEVICE_A);
    assert_eq!(offer_of(&events[1]).device, 300);
    assert_eq!(offer_of(&events[1]).origin, OfferOrigin::Compositor);
    assert_eq!(offer_of(&events[1]).mime_types, vec!["a".to_string(), "b".to_string()]);
}

#[test]
fn no_focus_sends_nothing() {
    let mut seat = seat_with_two_clients();
    let events = set_data_device_selection(&mut seat, vec!["a".to_string()]);
    assert!(events.is_empty());
    assert!(matches!(seat.data.selection, Selection::Compositor(_)));
    let events = set_data_device_focus(&mut seat, None, true);
    assert!(events.is_empty());
}

#[test]
fn dead_source_is_presented_as_empty() {
    let mut data = SeatData::new();
    data.known_devices.push(DeviceRecord { id: DEVICE_A, client: Some(CLIENT_A) });
    let _ = data.set_selection(Selection::Client(text_source(SOURCE_A)), true);
    let events = data.set_focus(Some(CLIENT_A), false);
    assert!(matches!(data.selection, Selection::Empty));
    assert_eq!(events.len(), 1);
    assert!(matches!(events[0], SelectionEvent::Cleared { device: DEVICE_A }));
}

#[test]
fn live_source_is_kept() {
    let mut data = SeatData::new();
    data.known_devices.push(DeviceRecord { id: DEVICE_A, client: Some(CLIENT_A) });
    let _ = data.set_selection(Selection::Client(text_source(SOURCE_A)), true);
    let events = data.send_selection(true);
    assert!(events.is_empty());
    let events = data.set_focus(Some(CLIENT_A), true);
    assert!(matches!(data.selection, Selection::Client(_)));
    assert_eq!(offer_of(&events[0]).origin, OfferOrigin::Client(SOURCE_A));
}

#[test]
fn unadvertised_mime_type_is_denied() {
    let mut seat = seat_with_two_clients();
    let _ = set_data_device_focus(&mut seat, Some(CLIENT_A), true);
    let events = set_data_device_selection(&mut seat, vec!["text/plain".to_string()]);
    let offer = offer_of(&events[0]);
    let outcome = offer.receive("image/png".to_string(), 7, true);
    assert!(matches!(outcome, ReceiveOutcome::Denied { fd: 7 }));
    assert!(outcome.closes_fd());
    let outcome = offer.receive("text/plain".to_string(), 8, true);
    assert!(matches!(outcome, ReceiveOutcome::ForwardedToCompositor { fd: 8, .. }));
    assert!(!outcome.closes_fd());
}

#[test]
fn receive_from_dead_source_is_denied() {
    let mut seat = seat_with_two_clients();
    focus_keyboard(&mut seat, CLIENT_A);
    let _ = set_data_device_focus(&mut seat, Some(CLIENT_A), true);
    let (_, events) =
        request_set_selection(&mut seat, Some(CLIENT_A), Some(text_source(SOURCE_A)), true);
    let offer = offer_of(&events[0]);
    let outcome = offer.receive("text/plain".to_string(), 9, false);
    assert!(matches!(outcome, ReceiveOutcome::Denied { fd: 9 }));
    let outcome = offer.receive("text/plain".to_string(), 9, true);
    assert!(matches!(outcome, ReceiveOutcome::ForwardedToSource { .. }));
    assert!(outcome.closes_fd());
}

#[test]
fn set_selection_without_focus_is_denied() {
    let mut seat = seat_with_two_clients();
    focus_keyboard(&mut seat, CLIENT_A);
    let _ = set_data_device_focus(&mut seat, Some(CLIENT_A), true);
    let (notice, events) =
        request_set_selection(&mut seat, Some(CLIENT_B), Some(text_source(SOURCE_A)), true);
    assert!(notice.is_none());
    assert!(events.is_empty());
    assert!(matches!(seat.data.selection, Selection::Empty));

    let (notice, _) = request_set_selection(&mut seat, None, None, true);
    assert!(notice.is_none());

    let mut no_keyboard = Seat::new(true, false);
    let (notice, _) =
        request_set_selection(&mut no_keyboard, Some(CLIENT_A), Some(text_source(1)), true);
    assert!(notice.is_none());
    assert!(matches!(no_keyboard.data.selection, Selection::Empty));
}

#[test]
fn focused_client_may_clear_selection() {
    let mut seat = seat_with_two_clients();
    focus_keyboard(&mut seat, CLIENT_A);
    let _ = set_data_device_focus(&mut seat, Some(CLIENT_A), true);
    let _ = request_set_selection(&mut seat, Some(CLIENT_A), Some(text_source(SOURCE_A)), true);
    let (notice, events) = request_set_selection(&mut seat, Some(CLIENT_A), None, true);
    assert!(matches!(notice, Some(DataDeviceEvent::NewSelection(None))));
    assert!(matches!(events[0], SelectionEvent::Cleared { device: DEVICE_A }));
    assert!(matches!(seat.data.selection, Selection::Empty));
}

#[test]
fn start_drag_needs_matching_grab() {
    let mut seat = seat_with_two_clients();
    assert!(request_start_drag(&mut seat, Some(text_source(SOURCE_A)), 5, 3).0.is_none());
    assert!(seat.pointer.as_ref().unwrap().grab.is_none());

    seat.pointer.as_mut().unwrap().set_grab(GrabKind::Implicit, 3);
    let denied = request_start_drag(&mut seat, Some(text_source(SOURCE_A)), 5, 4);
    assert!(denied.0.is_none() && denied.1.is_none());
    let grab = seat.pointer.as_ref().unwrap().grab.as_ref().unwrap();
    assert_eq!(grab.serial, 3);
    assert!(matches!(grab.kind, GrabKind::Implicit));

    let (started, replaced) = request_start_drag(&mut seat, Some(text_source(SOURCE_A)), 5, 3);
    assert!(matches!(started, Some(DataDeviceEvent::DnDStarted(Some(SOURCE_A)))));
    assert!(replaced.is_none());
    let grab = seat.pointer.as_ref().unwrap().grab.as_ref().unwrap();
    assert_eq!(grab.serial, 3);
    match &grab.kind {
        GrabKind::ClientDrag { source, origin, session } => {
            assert_eq!((*source, *origin), (Some(SOURCE_A), 5));
            assert_eq!(session.origin, OfferOrigin::Client(SOURCE_A));
            assert_eq!(session.metadata.mime_types, vec!["text/plain".to_string()]);
            assert_eq!(session.phase, DragPhase::Dragging);
        }
        other => panic!("unexpected grab {:?}", other),
    }
}

#[test]
fn start_drag_without_pointer_is_denied() {
    let mut seat = Seat::new(false, true);
    assert!(request_start_drag(&mut seat, None, 5, 3).0.is_none());
    assert!(seat.pointer.is_none());
}

#[test]
fn compositor_drag_replaces_grab() {
    let mut seat = seat_with_two_clients();
    let meta = SourceMetadata { mime_types: vec!["x".to_string()], dnd_action: DndAction::move_() };
    assert!(start_dnd(&mut seat, 9, meta).is_none());
    let grab = seat.pointer.as_ref().unwrap().grab.as_ref().unwrap();
    assert_eq!(grab.serial, 9);
    match &grab.kind {
        GrabKind::ServerDrag { session } => {
            assert_eq!(session.origin, OfferOrigin::Compositor);
            assert_eq!(session.metadata.mime_types, vec!["x".to_string()]);
        }
        other => panic!("unexpected grab {:?}", other),
    }

    let mut no_pointer = Seat::new(false, true);
    let meta = SourceMetadata { mime_types: vec![], dnd_action: DndAction::empty() };
    assert!(start_dnd(&mut no_pointer, 9, meta).is_none());
    assert!(no_pointer.pointer.is_none());
}

#[test]
fn compositor_drag_released_without_target_is_cancelled() {
    let mut seat = seat_with_two_clients();
    let meta = SourceMetadata { mime_types: vec!["x".to_string()], dnd_action: DndAction::copy() };
    let _ = start_dnd(&mut seat, 9, meta);
    let pointer = seat.pointer.as_mut().unwrap();
    assert!(matches!(pointer.release_button(), Some(DragNotice::Cancelled)));
    assert!(pointer.grab.is_none());
    assert!(pointer.release_button().is_none());
}

#[test]
fn implicit_grab_is_kept_on_release() {
    let mut seat = seat_with_two_clients();
    let pointer = seat.pointer.as_mut().unwrap();
    pointer.set_grab(GrabKind::Implicit, 2);
    assert!(pointer.release_button().is_none());
    assert!(pointer.has_grab(2));
}

#[test]
fn released_and_dead_devices_are_pruned() {
    let mut seat = seat_with_two_clients();
    seat.register_device(DeviceRecord { id: 300, client: Some(CLIENT_A) });
    seat.release_device(DEVICE_A, &vec![DEVICE_A, 300]);
    assert_eq!(seat.data.known_devices, vec![DeviceRecord { id: 300, client: Some(CLIENT_A) }]);
}

#[test]
fn second_drag_cancels_active_drag() {
    let mut seat = seat_with_two_clients();
    seat.pointer.as_mut().unwrap().set_grab(GrabKind::Implicit, 3);
    assert!(request_start_drag(&mut seat, Some(text_source(SOURCE_A)), 5, 3).0.is_some());
    let (again, replaced) = request_start_drag(&mut seat, None, 6, 3);
    assert!(matches!(again, Some(DataDeviceEvent::DnDStarted(None))));
    assert!(matches!(replaced, Some(DragNotice::Cancelled)));
    let grab = seat.pointer.as_ref().unwrap().grab.as_ref().unwrap();
    match &grab.kind {
        GrabKind::ClientDrag { source: None, origin: 6, session } => {
            assert_eq!(session.origin, OfferOrigin::Nobody);
            assert!(session.metadata.mime_types.is_empty());
        }
        other => panic!("unexpected grab {:?}", other),
    }
}
