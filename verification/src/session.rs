use vstd::prelude::*;
use vstd::string::StrSliceExecFns;
use crate::change::classify;
use crate::change::spec_classify;
use crate::descriptor::DiscoveryResultHandle;
use crate::descriptor::DiscoveryResultHandleView;
use crate::descriptor::describe;
use crate::descriptor::described;
use crate::event::ChangeEvent;
use crate::event::ChangeEventView;
use crate::event::normalize;
use crate::event::normalized;
use crate::event::opt_event_view;

verus! {

/// A failure that aborts a lifecycle operation.  Everything encountered
/// during steady-state notification processing is degraded into a
/// best-effort event instead and never surfaces here.
#[derive(Debug, Clone, Copy, PartialEq, Eq, Structural)]
pub enum SessionError {
    /// The configuration input cannot be represented as a transport string.
    InvalidSelector,
    /// Delivery was started on a session that is already active.
    AlreadyActive,
}

/// The lifecycle state of a browse session.
#[derive(Debug, Clone, Copy, PartialEq, Eq, Structural)]
pub enum SessionState {
    Unconfigured,
    Configured,
    Active,
    Terminated,
}

/// What the session browses for: a service type, and either one domain or
/// all domains (`None`).
#[derive(Debug, Clone, PartialEq, Eq)]
pub struct ServiceSelector {
    pub service_type: String,
    pub domain: Option<String>,
}

/// Mathematical model of a [`ServiceSelector`].
pub struct ServiceSelectorView {
    pub service_type: Seq<char>,
    pub domain: Option<Seq<char>>,
}

impl View for ServiceSelector {
    type V = ServiceSelectorView;

    open spec fn view(&self) -> ServiceSelectorView {
        ServiceSelectorView {
            service_type: self.service_type@,
            domain: match self.domain {
                Some(d) => Some(d@),
                None => None,
            },
        }
    }
}

/// Whether a string can cross the transport boundary: the transport's string
/// representation is terminator-delimited, so an embedded NUL character
/// cannot be represented.
pub open spec fn valid_transport_string(s: Seq<char>) -> bool {
    forall|i: int| 0 <= i < s.len() ==> s[i] != '\0'
}

/// Model of the optional domain input.
pub open spec fn opt_string_view(s: Option<String>) -> Option<Seq<char>> {
    match s {
        Some(d) => Some(d@),
        None => None,
    }
}

/// Whether a selector input is acceptable: both the service type and the
/// domain, where one is given, must be representable transport strings.
pub open spec fn selector_input_valid(service_type: Seq<char>, domain: Option<Seq<char>>) -> bool {
    valid_transport_string(service_type) && match domain {
        Some(d) => valid_transport_string(d),
        None => true,
    }
}

/// Whether `s` holds an embedded NUL character.
fn has_embedded_nul(s: &str) -> (r: bool)
    ensures
        r == !valid_transport_string(s@),
{
    let len = s.unicode_len();
    let mut i: usize = 0;
    while i < len
        invariant
            i <= len,
            len == s@.len(),
            forall|j: int| 0 <= j < i ==> s@[j] != '\0',
        decreases len - i,
    {
        if s.get_char(i) == '\0' {
            return true;
        }
        i = i + 1;
    }
    false
}

/// Model of an optional borrowed handle, used by delivery contracts.
pub open spec fn opt_handle_view(handle: Option<&DiscoveryResultHandle>) -> Option<
    DiscoveryResultHandleView,
> {
    match handle {
        Some(h) => Some(h@),
        None => None,
    }
}

/// The event that one notification produces: the classified kind, and the
/// descriptor of whichever handles the notification carried.  The batch flag
/// delivered with the notification says that no further results are pending,
/// so each descriptor records its negation.
pub open spec fn notification_event(
    previous: Option<DiscoveryResultHandleView>,
    current: Option<DiscoveryResultHandleView>,
    no_more_expected: bool,
    diff: Option<u64>,
) -> ChangeEventView {
    normalized(
        spec_classify(previous.is_some(), current.is_some(), diff),
        match previous {
            Some(h) => Some(described(h, !no_more_expected)),
            None => None,
        },
        match current {
            Some(h) => Some(described(h, !no_more_expected)),
            None => None,
        },
    )
}

/// What one delivery yields: while the session is active, exactly the
/// normalized event of the notification; in every other state, nothing.
pub open spec fn spec_deliver(
    state: SessionState,
    previous: Option<DiscoveryResultHandleView>,
    current: Option<DiscoveryResultHandleView>,
    no_more_expected: bool,
    diff: Option<u64>,
) -> Option<ChangeEventView> {
    if state == SessionState::Active {
        Some(notification_event(previous, current, no_more_expected, diff))
    } else {
        None
    }
}

/// Mathematical model of a [`BrowseSession`].
pub struct SessionView {
    pub state: SessionState,
    pub selector: Option<ServiceSelectorView>,
}

/// Teardown releases the subscription and the sink, whatever the state was,
/// and the terminal state is absorbing.
pub open spec fn spec_stop(session: SessionView) -> SessionView {
    SessionView { state: SessionState::Terminated, selector: None }
}

/// The owner of one discovery subscription.  A session is configured with a
/// selector, started at most once into active delivery, and torn down into
/// the absorbing terminated state.  While active it turns each delivered
/// notification into one change event.
pub struct BrowseSession {
    state: SessionState,
    selector: Option<ServiceSelector>,
}

impl View for BrowseSession {
    type V = SessionView;

    closed spec fn view(&self) -> SessionView {
        SessionView {
            state: self.state,
            selector: match self.selector {
                Some(s) => Some(s@),
                None => None,
            },
        }
    }
}

impl BrowseSession {
    /// A session starts unconfigured, holding no subscription.
    pub fn new() -> (session: BrowseSession)
        ensures
            session@.state == SessionState::Unconfigured,
            session@.selector.is_none(),
    {
        BrowseSession { state: SessionState::Unconfigured, selector: None }
    }

    /// The session's current lifecycle state.
    pub fn state(&self) -> (state: SessionState)
        ensures
            state == self@.state,
    {
        self.state
    }

    /// Supplies the service selector and constructs the subscription.
    /// Succeeds, and moves the session to `Configured`, exactly when both
    /// selector strings are representable transport strings; otherwise the
    /// session is left unchanged and `InvalidSelector` is returned.
    pub fn configure(&mut self, service_type: String, domain: Option<String>) -> (r: Result<
        (),
        SessionError,
    >)
        requires
            old(self)@.state == SessionState::Unconfigured,
        ensures
            r.is_ok() <==> selector_input_valid(service_type@, opt_string_view(domain)),
            r.is_ok() ==> final(self)@ == (SessionView {
                state: SessionState::Configured,
                selector: Some(ServiceSelectorView {
                    service_type: service_type@,
                    domain: opt_string_view(domain),
                }),
            }),
            r.is_err() ==> final(self)@ == old(self)@ && r == Err::<(), SessionError>(
                SessionError::InvalidSelector,
            ),
    {
        if has_embedded_nul(service_type.as_str()) {
            return Err(SessionError::InvalidSelector);
        }
        if let Some(d) = &domain {
            if has_embedded_nul(d.as_str()) {
                return Err(SessionError::InvalidSelector);
            }
        }
        self.selector = Some(ServiceSelector { service_type, domain });
        self.state = SessionState::Configured;
        Ok(())
    }

    /// Registers the notification sink and starts delivery.  From a
    /// configured session this succeeds and moves it to `Active`; starting
    /// an already active session is refused with `AlreadyActive` and changes
    /// nothing.
    pub fn start(&mut self) -> (r: Result<(), SessionError>)
        requires
            old(self)@.state == SessionState::Configured || old(self)@.state
                == SessionState::Active,
        ensures
            old(self)@.state == SessionState::Configured ==> r.is_ok() && final(self)@ == (
            SessionView { state: SessionState::Active, selector: old(self)@.selector }),
            old(self)@.state == SessionState::Active ==> final(self)@ == old(self)@ && r == Err::<
                (),
                SessionError,
            >(SessionError::AlreadyActive),
    {
        if let SessionState::Active = self.state {
            return Err(SessionError::AlreadyActive);
        }
        self.state = SessionState::Active;
        Ok(())
    }

    /// Turns one delivered notification into its change event.  A valid
    /// delivery carries at least one handle.  While the session is active
    /// this yields exactly one event — classification and extraction degrade
    /// rather than fail, so no notification is ever dropped; in every other
    /// state nothing is delivered.
    pub fn deliver(
        &self,
        previous: Option<&DiscoveryResultHandle>,
        current: Option<&DiscoveryResultHandle>,
        no_more_expected: bool,
        diff: Option<u64>,
    ) -> (event: Option<ChangeEvent>)
        requires
            previous.is_some() || current.is_some(),
        ensures
            opt_event_view(event) == spec_deliver(
                self@.state,
                opt_handle_view(previous),
                opt_handle_view(current),
                no_more_expected,
                diff,
            ),
    {
        if let SessionState::Active = self.state {
            let kind = classify(previous, current, diff);
            let previous_descriptor = match previous {
                Some(h) => Some(describe(h, !no_more_expected)),
                None => None,
            };
            let current_descriptor = match current {
                Some(h) => Some(describe(h, !no_more_expected)),
                None => None,
            };
            Some(normalize(kind, previous_descriptor, current_descriptor))
        } else {
            None
        }
    }

    /// Stops delivery and releases the subscription and the sink.  Safe to
    /// call from any state and from a context other than the one that
    /// started the session; repeated stops are no-ops.
    pub fn stop(&mut self)
        ensures
            final(self)@ == spec_stop(old(self)@),
    {
        self.state = SessionState::Terminated;
        self.selector = None;
    }
}

/// Teardown is drain-safe in the serialized delivery model: a notification
/// delivered while the session is still active yields exactly one event, and
/// once the session has been stopped — whatever state it was in — no
/// notification yields any event, so nothing reaches the sink after it is
/// released.
pub proof fn lemma_drain_safe(
    session: SessionView,
    previous: Option<DiscoveryResultHandleView>,
    current: Option<DiscoveryResultHandleView>,
    no_more_expected: bool,
    diff: Option<u64>,
)
    ensures
        session.state == SessionState::Active ==> spec_deliver(
            session.state,
            previous,
            current,
            no_more_expected,
            diff,
        ) == Some(notification_event(previous, current, no_more_expected, diff)),
        spec_deliver(
            spec_stop(session).state,
            previous,
            current,
            no_more_expected,
            diff,
        ).is_none(),
{
}

} // verus!
