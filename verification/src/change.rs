use vstd::prelude::*;
use crate::descriptor::DiscoveryResultHandle;

verus! {

/// The transport's native diff bit for a newly added service.
pub const ADDED_CHANGE_BITS: u64 = 2;

/// The transport's native diff bit for a removed service.
pub const REMOVED_CHANGE_BITS: u64 = 4;

/// A diff value of the transport's native "get changes" primitive that this
/// crate recognizes.  The transport may report further combinations; those
/// are deliberately not special-cased and classify as unknown.
#[derive(Debug, Clone, Copy, PartialEq, Eq, Structural)]
pub enum BrowseResultChange {
    Added,
    Removed,
}

/// The classification of one notification: how the current snapshot of a
/// service relates to the previous one.
#[derive(Debug, Clone, Copy, PartialEq, Eq, Structural)]
pub enum ChangeKind {
    Added,
    Removed,
    Unknown,
}

/// Which recognized change, if any, a native diff value decodes to.
pub open spec fn spec_change_from_bits(bits: u64) -> Option<BrowseResultChange> {
    if bits == ADDED_CHANGE_BITS {
        Some(BrowseResultChange::Added)
    } else if bits == REMOVED_CHANGE_BITS {
        Some(BrowseResultChange::Removed)
    } else {
        None
    }
}

/// The label under which a recognized change is reported.
pub open spec fn spec_change_label(change: BrowseResultChange) -> Seq<char> {
    match change {
        BrowseResultChange::Added => "ADDED"@,
        BrowseResultChange::Removed => "REMOVED"@,
    }
}

impl BrowseResultChange {
    /// Decodes the transport's native diff value.  Any value other than the
    /// two recognized bits fails to decode.
    pub fn from_bits(bits: u64) -> (r: Option<BrowseResultChange>)
        ensures
            r == spec_change_from_bits(bits),
    {
        if bits == ADDED_CHANGE_BITS {
            Some(BrowseResultChange::Added)
        } else if bits == REMOVED_CHANGE_BITS {
            Some(BrowseResultChange::Removed)
        } else {
            None
        }
    }

    /// The label under which this change is reported.
    pub fn label(&self) -> (s: &'static str)
        ensures
            s@ == spec_change_label(*self),
    {
        match self {
            BrowseResultChange::Added => "ADDED",
            BrowseResultChange::Removed => "REMOVED",
        }
    }
}

/// The change kind of one notification, as a function of which handles the
/// notification carried and of the optional native diff value.
///
/// A notification carrying only a current handle is an addition and one
/// carrying only a previous handle is a removal, whatever the diff value
/// says.  A notification carrying both handles is classified by the diff
/// value alone: an unavailable diff, or one that decodes to no recognized
/// change, degrades to `Unknown` rather than guessing.
pub open spec fn spec_classify(
    previous_present: bool,
    current_present: bool,
    diff: Option<u64>,
) -> ChangeKind {
    if !previous_present && current_present {
        ChangeKind::Added
    } else if previous_present && !current_present {
        ChangeKind::Removed
    } else {
        match diff {
            Some(bits) => match spec_change_from_bits(bits) {
                Some(BrowseResultChange::Added) => ChangeKind::Added,
                Some(BrowseResultChange::Removed) => ChangeKind::Removed,
                None => ChangeKind::Unknown,
            },
            None => ChangeKind::Unknown,
        }
    }
}

/// Classifies one notification.  `diff` is the transport's native diff value
/// where that primitive is available and decodable delivery-side; `None`
/// falls back to positional inference.  Classification never fails a
/// notification: an unrecognized diff degrades to `ChangeKind::Unknown`.
///
/// A valid delivery carries at least one handle.
pub fn classify(
    previous: Option<&DiscoveryResultHandle>,
    current: Option<&DiscoveryResultHandle>,
    diff: Option<u64>,
) -> (kind: ChangeKind)
    requires
        previous.is_some() || current.is_some(),
    ensures
        kind == spec_classify(previous.is_some(), current.is_some(), diff),
{
    match (previous, current) {
        (None, Some(_)) => ChangeKind::Added,
        (Some(_), None) => ChangeKind::Removed,
        _ => match diff {
            Some(bits) => match BrowseResultChange::from_bits(bits) {
                Some(BrowseResultChange::Added) => ChangeKind::Added,
                Some(BrowseResultChange::Removed) => ChangeKind::Removed,
                None => ChangeKind::Unknown,
            },
            None => ChangeKind::Unknown,
        },
    }
}

/// Positional inference is authoritative for asymmetric notifications, and a
/// pair of handles with no recognized decodable diff stays unclassified:
/// a notification with only a current handle classifies as `Added`, one with
/// only a previous handle classifies as `Removed`, and one with both handles
/// classifies as `Unknown` whenever the diff is absent or decodes to no
/// recognized change.
pub proof fn lemma_classify_positional(diff: Option<u64>)
    ensures
        spec_classify(false, true, diff) == ChangeKind::Added,
        spec_classify(true, false, diff) == ChangeKind::Removed,
        spec_classify(true, true, None) == ChangeKind::Unknown,
        forall|bits: u64|
            spec_change_from_bits(bits).is_none() ==> spec_classify(
                true,
                true,
                Some(bits),
            ) == ChangeKind::Unknown,
{
}

} // verus!
