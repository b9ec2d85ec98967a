//! Compositor-side state of the data devices: selection (copy and paste) and
//! drag-and-drop between clients of a seat.
//!
//! Protocol objects are known here by plain ids: clients, data devices,
//! sources and surfaces. Every operation returns what must be sent, and the
//! embedder sends it.
use vstd::prelude::*;

pub mod action;
pub mod device;
pub mod dnd;
pub mod offer;
pub mod seat;
pub mod selection;

pub use action::{default_action_chooser, DndAction};
pub use device::{
    request_set_selection, request_start_drag, set_data_device_focus, set_data_device_selection,
    start_dnd, DataDeviceEvent,
};
pub use selection::SourceMetadata;

verus! {

} // verus!
