use vstd::prelude::*;

use crate::selection::{OfferOrigin, SelectionOffer};

verus! {

/// What becomes of a `receive(mime_type, fd)` request made on a selection
/// offer.
#[derive(Clone, Debug)]
pub enum ReceiveOutcome {
    /// The request is denied and the descriptor is closed.
    Denied { fd: i32 },
    /// The source is sent `Send { mime_type, fd }`, then the compositor closes
    /// its own copy of the descriptor.
    ForwardedToSource { source: u64, mime_type: String, fd: i32 },
    /// The compositor's callback is handed `SendSelection { mime_type, fd }`,
    /// which takes over the descriptor.
    ForwardedToCompositor { mime_type: String, fd: i32 },
}

impl ReceiveOutcome {
    pub open spec fn spec_closes_fd(&self) -> bool {
        !(self is ForwardedToCompositor)
    }

    /// Whether the compositor closes its copy of the descriptor once the
    /// request is handled.
    pub fn closes_fd(&self) -> (r: bool)
        ensures
            r == self.spec_closes_fd(),
    {
        match self {
            ReceiveOutcome::ForwardedToCompositor { .. } => false,
            _ => true,
        }
    }
}

/// Whether one of `mime_types` is the text `m`.
pub open spec fn advertises(mime_types: Seq<String>, m: Seq<char>) -> bool {
    exists|k: int| 0 <= k < mime_types.len() && (#[trigger] mime_types[k])@ == m
}

/// Whether `mime_types` holds `m`.
pub fn has_mime_type(mime_types: &Vec<String>, m: &String) -> (r: bool)
    ensures
        r == advertises(mime_types@, m@),
{
    let mut i: usize = 0;
    while i < mime_types.len()
        invariant
            i <= mime_types@.len(),
            forall|k: int| 0 <= k < i ==> (#[trigger] mime_types@[k])@ != m@,
        decreases mime_types@.len() - i,
    {
        if mime_types[i] == *m {
            assert(mime_types@[i as int]@ == m@);
            return true;
        }
        i = i + 1;
    }
    false
}

/// The outcome that the model assigns to a receive request.
pub open spec fn receive_outcome(
    offer: SelectionOffer,
    mime_type: String,
    fd: i32,
    source_alive: bool,
    r: ReceiveOutcome,
) -> bool {
    if !advertises(offer.mime_types@, mime_type@) {
        r == ReceiveOutcome::Denied { fd }
    } else {
        match offer.origin {
            OfferOrigin::Client(source) => if source_alive {
                r == ReceiveOutcome::ForwardedToSource { source, mime_type, fd }
            } else {
                r == ReceiveOutcome::Denied { fd }
            },
            OfferOrigin::Compositor => r == ReceiveOutcome::ForwardedToCompositor { mime_type, fd },
            OfferOrigin::Nobody => r == ReceiveOutcome::Denied { fd },
        }
    }
}

impl SelectionOffer {
    /// Handles a `receive(mime_type, fd)` request made on this offer.
    ///
    /// A mime type that the offer does not advertise is denied. For a client
    /// source, `source_alive` tells whether the source is still alive: a dead
    /// source is denied too.
    pub fn receive(&self, mime_type: String, fd: i32, source_alive: bool) -> (r: ReceiveOutcome)
        ensures
            receive_outcome(*self, mime_type, fd, source_alive, r),
    {
        if !has_mime_type(&self.mime_types, &mime_type) {
            return ReceiveOutcome::Denied { fd };
        }
        match self.origin {
            OfferOrigin::Client(source) => {
                if source_alive {
                    ReceiveOutcome::ForwardedToSource { source, mime_type, fd }
                } else {
                    ReceiveOutcome::Denied { fd }
                }
            },
            OfferOrigin::Compositor => ReceiveOutcome::ForwardedToCompositor { mime_type, fd },
            OfferOrigin::Nobody => ReceiveOutcome::Denied { fd },
        }
    }
}

/// A request for a mime type that the offer does not advertise is denied,
/// whoever owns the content, and its descriptor is closed, never forwarded.
pub proof fn lemma_unadvertised_mime_denied(
    offer: SelectionOffer,
    mime_type: String,
    fd: i32,
    source_alive: bool,
    r: ReceiveOutcome,
)
    requires
        receive_outcome(offer, mime_type, fd, source_alive, r),
        !advertises(offer.mime_types@, mime_type@),
    ensures
        r == (ReceiveOutcome::Denied { fd }),
        r.spec_closes_fd(),
{
}

} // verus!
