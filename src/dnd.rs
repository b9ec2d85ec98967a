use vstd::prelude::*;

use crate::action::DndAction;
use crate::offer::{advertises, has_mime_type, ReceiveOutcome};
use crate::selection::{clone_mime_types, OfferOrigin, SourceMetadata};

verus! {

/// Where a drag session stands.
#[derive(Clone, Copy, Debug, PartialEq, Eq, Structural)]
pub enum DragPhase {
    Dragging,
    Dropped,
    Cancelled,
}

/// The surface that the pointer is over during a drag, with the state of
/// its negotiation.
#[derive(Clone, Copy, Debug, PartialEq, Eq, Structural)]
pub struct DragTarget {
    pub surface: u64,
    pub client: u64,
    /// The id of the offer made to this target.
    pub offer: u64,
    /// Whether the target accepted one of the mime types.
    pub accepted: bool,
    /// The action that the negotiation agreed on.
    pub chosen: DndAction,
}

/// What a drag session asks its owner to send.
#[derive(Clone, Debug)]
pub enum DragNotice {
    /// Create offer `offer` with these mime types for `client`, and send it a
    /// drag-enter on `surface`.
    Entered { surface: u64, client: u64, offer: u64, mime_types: Vec<String> },
    /// The pointer left `surface`; its offer is stale from now on.
    Left { surface: u64 },
    /// The agreed action changed; both source and target are told.
    ActionChosen { action: DndAction },
    /// The content was dropped on `surface` with this action.
    Dropped { surface: u64, action: DndAction },
    /// The drag ended without a drop.
    Cancelled,
}

/// A drag-and-drop in progress, owned by the pointer grab.
#[derive(Clone, Debug)]
pub struct DragSession {
    pub metadata: SourceMetadata,
    pub origin: OfferOrigin,
    pub target: Option<DragTarget>,
    pub phase: DragPhase,
    /// The id given to the next offer.
    pub next_offer: u64,
}

/// A drag of this content that has just started, over no target yet.
pub open spec fn fresh_session(metadata: SourceMetadata, origin: OfferOrigin) -> DragSession {
    DragSession { metadata, origin, target: None, phase: DragPhase::Dragging, next_offer: 0 }
}

/// What a release of the button reports for a session.
pub open spec fn release_notice(s: DragSession) -> Option<DragNotice> {
    if s.phase != DragPhase::Dragging {
        None
    } else if drop_succeeds(s.target) {
        Some(DragNotice::Dropped { surface: s.target->0.surface, action: s.target->0.chosen })
    } else {
        Some(DragNotice::Cancelled)
    }
}

/// Whether a release of the button over `target` drops the content.
pub open spec fn drop_succeeds(target: Option<DragTarget>) -> bool {
    target is Some && target->0.accepted && target->0.chosen.bits != 0
}

impl DragTarget {
    pub open spec fn with_accepted(self, accepted: bool) -> DragTarget {
        DragTarget { accepted, ..self }
    }

    pub open spec fn with_chosen(self, chosen: DndAction) -> DragTarget {
        DragTarget { chosen, ..self }
    }
}

impl DragSession {
    /// Whether the drag goes on over a target.
    pub open spec fn over_target(self) -> bool {
        self.phase == DragPhase::Dragging && self.target is Some
    }

    /// Starts a drag of this content, over no target yet.
    pub fn new(metadata: SourceMetadata, origin: OfferOrigin) -> (r: DragSession)
        ensures
            r == fresh_session(metadata, origin),
    {
        DragSession { metadata, origin, target: None, phase: DragPhase::Dragging, next_offer: 0 }
    }

    /// The pointer enters `surface` of `client`; `aware` tells whether that
    /// client has a data device. A current target is left first, and an aware
    /// client is made a fresh offer.
    pub fn enter(&mut self, surface: u64, client: u64, aware: bool) -> (r: Vec<DragNotice>)
        requires
            old(self).next_offer < u64::MAX,
        ensures
            old(self).phase != DragPhase::Dragging ==> r@.len() == 0 && final(self).target == old(
                self,
            ).target && final(self).next_offer == old(self).next_offer,
            old(self).phase == DragPhase::Dragging ==> {
                let left: int = if old(self).target is Some {
                    1
                } else {
                    0
                };
                &&& old(self).target is Some ==> r@[0] == (DragNotice::Left {
                    surface: old(self).target->0.surface,
                })
                &&& aware ==> {
                    &&& r@.len() == left + 1
                    &&& final(self).target == Some(
                        DragTarget {
                            surface,
                            client,
                            offer: old(self).next_offer,
                            accepted: false,
                            chosen: DndAction { bits: 0 },
                        },
                    )
                    &&& final(self).next_offer == old(self).next_offer + 1
                    &&& r@[left] matches DragNotice::Entered { surface: s, client: c, offer: o, mime_types: m }
                        && s == surface && c == client && o == old(self).next_offer
                        && m@ == old(self).metadata.mime_types@
                }
                &&& !aware ==> r@.len() == left && final(self).target == None::<DragTarget>
                    && final(self).next_offer == old(self).next_offer
            },
            final(self).phase == old(self).phase,
            final(self).metadata == old(self).metadata,
            final(self).origin == old(self).origin,
    {
        let mut notices: Vec<DragNotice> = Vec::new();
        if self.phase != DragPhase::Dragging {
            return notices;
        }
        if let Some(t) = self.target {
            notices.push(DragNotice::Left { surface: t.surface });
        }
        if aware {
            let offer = self.next_offer;
            self.next_offer = self.next_offer + 1;
            self.target = Some(
                DragTarget { surface, client, offer, accepted: false, chosen: DndAction::empty() },
            );
            notices.push(
                DragNotice::Entered {
                    surface,
                    client,
                    offer,
                    mime_types: clone_mime_types(&self.metadata.mime_types),
                },
            );
        } else {
            self.target = None;
        }
        notices
    }

    /// The pointer leaves the current target, whose offer becomes stale.
    pub fn leave(&mut self) -> (r: Option<DragNotice>)
        ensures
            old(self).over_target() ==> r == Some(
                DragNotice::Left { surface: old(self).target->0.surface },
            ) && final(self).target == None::<DragTarget>,
            !old(self).over_target() ==> r == None::<
                DragNotice,
            > && final(self).target == old(self).target,
            final(self).phase == old(self).phase,
            final(self).next_offer == old(self).next_offer,
            final(self).metadata == old(self).metadata,
            final(self).origin == old(self).origin,
    {
        if self.phase != DragPhase::Dragging {
            return None;
        }
        match self.target {
            Some(t) => {
                self.target = None;
                Some(DragNotice::Left { surface: t.surface })
            },
            None => None,
        }
    }

    /// The target accepts a mime type, or none.
    pub fn accept(&mut self, mime_type: Option<String>)
        ensures
            old(self).over_target() ==> final(self).target == Some(
                old(self).target->0.with_accepted(
                    mime_type is Some && advertises(old(self).metadata.mime_types@, mime_type->0@),
                ),
            ),
            !old(self).over_target() ==> final(self).target == old(self).target,
            final(self).phase == old(self).phase,
            final(self).next_offer == old(self).next_offer,
            final(self).metadata == old(self).metadata,
            final(self).origin == old(self).origin,
    {
        if self.phase != DragPhase::Dragging {
            return;
        }
        if let Some(t) = self.target {
            let accepted = match &mime_type {
                Some(m) => has_mime_type(&self.metadata.mime_types, m),
                None => false,
            };
            self.target = Some(DragTarget { accepted, ..t });
        }
    }

    /// The target states the actions it supports and the one it prefers;
    /// `chooser` picks the agreed action from the actions that both sides
    /// support and the preferred one, as the compositor's policy decides
    /// (`default_action_chooser` is the reference policy).
    pub fn set_actions<F: Fn(DndAction, DndAction) -> DndAction>(
        &mut self,
        target_actions: DndAction,
        preferred: DndAction,
        chooser: F,
    ) -> (r: Option<DragNotice>)
        requires
            forall|a: DndAction, p: DndAction| chooser.requires((a, p)),
        ensures
            old(self).over_target() ==> {
                &&& final(self).target is Some
                &&& final(self).target == Some(
                    old(self).target->0.with_chosen(final(self).target->0.chosen),
                )
                &&& chooser.ensures(
                    (
                        DndAction {
                            bits: old(self).metadata.dnd_action.bits & target_actions.bits,
                        },
                        preferred,
                    ),
                    final(self).target->0.chosen,
                )
                &&& r == Some(DragNotice::ActionChosen { action: final(self).target->0.chosen })
            },
            !old(self).over_target() ==> r == None::<DragNotice> && final(self).target == old(
                self,
            ).target,
            final(self).phase == old(self).phase,
            final(self).next_offer == old(self).next_offer,
            final(self).metadata == old(self).metadata,
            final(self).origin == old(self).origin,
    {
        if self.phase != DragPhase::Dragging {
            return None;
        }
        match self.target {
            Some(t) => {
                let available = self.metadata.dnd_action.intersection(target_actions);
                let chosen = chooser(available, preferred);
                self.target = Some(DragTarget { chosen, ..t });
                Some(DragNotice::ActionChosen { action: chosen })
            },
            None => None,
        }
    }

    /// The button is released: the content is dropped on a target that
    /// accepted a mime type and agreed on an action, else the drag is
    /// cancelled. Either way the drag ends.
    pub fn button_release(&mut self) -> (r: Option<DragNotice>)
        ensures
            old(self).phase != DragPhase::Dragging ==> r == None::<DragNotice> && final(self).phase
                == old(self).phase,
            old(self).phase == DragPhase::Dragging && drop_succeeds(old(self).target) ==> r == Some(
                DragNotice::Dropped {
                    surface: old(self).target->0.surface,
                    action: old(self).target->0.chosen,
                },
            ) && final(self).phase == DragPhase::Dropped,
            old(self).phase == DragPhase::Dragging && !drop_succeeds(old(self).target) ==> r
                == Some(DragNotice::Cancelled) && final(self).phase == DragPhase::Cancelled,
            final(self).target == old(self).target,
            final(self).next_offer == old(self).next_offer,
            final(self).metadata == old(self).metadata,
            final(self).origin == old(self).origin,
    {
        if self.phase != DragPhase::Dragging {
            return None;
        }
        match self.target {
            Some(t) => {
                if t.accepted && !t.chosen.is_empty() {
                    self.phase = DragPhase::Dropped;
                    return Some(DragNotice::Dropped { surface: t.surface, action: t.chosen });
                }
            },
            None => {},
        }
        self.phase = DragPhase::Cancelled;
        Some(DragNotice::Cancelled)
    }

    /// Cancels the drag, as an escape or the death of its source does.
    pub fn cancel(&mut self) -> (r: Option<DragNotice>)
        ensures
            old(self).phase == DragPhase::Dragging ==> r == Some(DragNotice::Cancelled) && final(self).phase == DragPhase::Cancelled,
            old(self).phase != DragPhase::Dragging ==> r == None::<DragNotice> && final(self).phase
                == old(self).phase,
            final(self).target == old(self).target,
            final(self).next_offer == old(self).next_offer,
            final(self).metadata == old(self).metadata,
            final(self).origin == old(self).origin,
    {
        if self.phase != DragPhase::Dragging {
            return None;
        }
        self.phase = DragPhase::Cancelled;
        Some(DragNotice::Cancelled)
    }

    /// Handles a `receive(mime_type, fd)` request made on drag offer `offer`.
    ///
    /// Only the offer of the current target is answered, while the drag goes
    /// on or after its drop, and only for an advertised mime type; a client
    /// source must still be alive. Any other request is denied.
    pub fn receive(&self, offer: u64, mime_type: String, fd: i32, source_alive: bool) -> (r:
        ReceiveOutcome)
        ensures
            ({
                let live = self.phase != DragPhase::Cancelled && self.target is Some
                    && self.target->0.offer == offer && advertises(
                    self.metadata.mime_types@,
                    mime_type@,
                );
                if !live {
                    r == ReceiveOutcome::Denied { fd }
                } else {
                    match self.origin {
                        OfferOrigin::Client(source) => if source_alive {
                            r == ReceiveOutcome::ForwardedToSource { source, mime_type, fd }
                        } else {
                            r == ReceiveOutcome::Denied { fd }
                        },
                        OfferOrigin::Compositor => r == ReceiveOutcome::ForwardedToCompositor {
                            mime_type,
                            fd,
                        },
                        OfferOrigin::Nobody => r == ReceiveOutcome::Denied { fd },
                    }
                }
            }),
    {
        let current = match self.target {
            Some(t) => t.offer == offer,
            None => false,
        };
        if self.phase == DragPhase::Cancelled || !current || !has_mime_type(
            &self.metadata.mime_types,
            &mime_type,
        ) {
            return ReceiveOutcome::Denied { fd };
        }
        match self.origin {
            OfferOrigin::Client(source) => {
                if source_alive {
                    ReceiveOutcome::ForwardedToSource { source, mime_type, fd }
                } else {
                    ReceiveOutcome::Denied { fd }
                }
            },
            OfferOrigin::Compositor => ReceiveOutcome::ForwardedToCompositor { mime_type, fd },
            OfferOrigin::Nobody => ReceiveOutcome::Denied { fd },
        }
    }
}

} // verus!
