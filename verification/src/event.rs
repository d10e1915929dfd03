use vstd::prelude::*;
use crate::change::ChangeKind;
use crate::descriptor::EndpointDescriptor;
use crate::descriptor::EndpointDescriptorView;
use crate::descriptor::opt_descriptor_view;

verus! {

/// One published change event: the classified kind together with the
/// descriptors extracted from whichever handles the triggering notification
/// carried.  `previous` is populated iff a previous handle was present in
/// that notification; likewise `current`.
#[derive(Debug, Clone, PartialEq, Eq)]
pub struct ChangeEvent {
    pub kind: ChangeKind,
    pub previous: Option<EndpointDescriptor>,
    pub current: Option<EndpointDescriptor>,
}

/// Mathematical model of a [`ChangeEvent`].
pub struct ChangeEventView {
    pub kind: ChangeKind,
    pub previous: Option<EndpointDescriptorView>,
    pub current: Option<EndpointDescriptorView>,
}

impl View for ChangeEvent {
    type V = ChangeEventView;

    open spec fn view(&self) -> ChangeEventView {
        ChangeEventView {
            kind: self.kind,
            previous: opt_descriptor_view(self.previous),
            current: opt_descriptor_view(self.current),
        }
    }
}

/// Model of an optional event, used by contracts over session deliveries.
pub open spec fn opt_event_view(event: Option<ChangeEvent>) -> Option<ChangeEventView> {
    match event {
        Some(e) => Some(e@),
        None => None,
    }
}

/// The event normalized from a classified pair and its extracted
/// descriptors.
pub open spec fn normalized(
    kind: ChangeKind,
    previous: Option<EndpointDescriptorView>,
    current: Option<EndpointDescriptorView>,
) -> ChangeEventView {
    ChangeEventView { kind, previous, current }
}

/// Builds the immutable event record for one classified notification.  Pure
/// construction with no failure path: by the time normalization runs,
/// descriptor extraction has already happened and cannot fail further.
pub fn normalize(
    kind: ChangeKind,
    previous: Option<EndpointDescriptor>,
    current: Option<EndpointDescriptor>,
) -> (event: ChangeEvent)
    ensures
        event@ == normalized(kind, opt_descriptor_view(previous), opt_descriptor_view(current)),
{
    ChangeEvent { kind, previous, current }
}

/// Normalization is deterministic: two events normalized from identical
/// inputs are structurally equal.
pub proof fn lemma_normalize_idempotent(
    kind: ChangeKind,
    previous: Option<EndpointDescriptorView>,
    current: Option<EndpointDescriptorView>,
    first: ChangeEventView,
    second: ChangeEventView,
)
    requires
        first == normalized(kind, previous, current),
        second == normalized(kind, previous, current),
    ensures
        first == second,
{
}

} // verus!
