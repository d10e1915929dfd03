use vstd::prelude::*;
use vstd::string::StringExecFns;

verus! {

/// One snapshot of one advertised service, as resolved from a transport
/// result handle.  The transport's attribute accessors may report no value;
/// `None` records such an absent attribute.  A value of this type owns its
/// strings, independent of the lifetime of the native handle it came from.
#[derive(Debug, Clone, PartialEq, Eq)]
pub struct DiscoveryResultHandle {
    pub service_name: Option<String>,
    pub service_domain: Option<String>,
}

/// Mathematical model of a [`DiscoveryResultHandle`].
pub struct DiscoveryResultHandleView {
    pub service_name: Option<Seq<char>>,
    pub service_domain: Option<Seq<char>>,
}

impl View for DiscoveryResultHandle {
    type V = DiscoveryResultHandleView;

    open spec fn view(&self) -> DiscoveryResultHandleView {
        DiscoveryResultHandleView {
            service_name: match self.service_name {
                Some(s) => Some(s@),
                None => None,
            },
            service_domain: match self.service_domain {
                Some(s) => Some(s@),
                None => None,
            },
        }
    }
}

/// Immutable endpoint attributes extracted from one result handle: service
/// name, service domain, and whether more results of the current batch are
/// still pending.  An absent attribute is carried as the `"[NULL]"` sentinel.
#[derive(Debug, Clone, PartialEq, Eq)]
pub struct EndpointDescriptor {
    pub service_name: String,
    pub service_domain: String,
    pub has_more_pending: bool,
}

/// Mathematical model of an [`EndpointDescriptor`].
pub struct EndpointDescriptorView {
    pub service_name: Seq<char>,
    pub service_domain: Seq<char>,
    pub has_more_pending: bool,
}

impl View for EndpointDescriptor {
    type V = EndpointDescriptorView;

    open spec fn view(&self) -> EndpointDescriptorView {
        EndpointDescriptorView {
            service_name: self.service_name@,
            service_domain: self.service_domain@,
            has_more_pending: self.has_more_pending,
        }
    }
}

/// The placeholder recorded for an attribute the transport reported no value
/// for.  It is a deliberate user-visible sentinel, not silent data loss.
pub open spec fn absent_sentinel() -> Seq<char> {
    "[NULL]"@
}

/// What one resolved attribute contributes to a descriptor: the attribute's
/// own characters, or the sentinel when the transport reported no value.
pub open spec fn resolved_or_sentinel(attribute: Option<Seq<char>>) -> Seq<char> {
    match attribute {
        Some(s) => s,
        None => absent_sentinel(),
    }
}

/// The descriptor extracted from one handle snapshot.
pub open spec fn described(handle: DiscoveryResultHandleView, has_more_pending: bool) -> EndpointDescriptorView {
    EndpointDescriptorView {
        service_name: resolved_or_sentinel(handle.service_name),
        service_domain: resolved_or_sentinel(handle.service_domain),
        has_more_pending,
    }
}

/// Model of an optional descriptor, used by contracts over notification pairs.
pub open spec fn opt_descriptor_view(descriptor: Option<EndpointDescriptor>) -> Option<EndpointDescriptorView> {
    match descriptor {
        Some(d) => Some(d@),
        None => None,
    }
}

fn owned_or_sentinel(attribute: &Option<String>) -> (s: String)
    ensures
        s@ == resolved_or_sentinel(match *attribute {
            Some(a) => Some(a@),
            None => None,
        }),
{
    match attribute {
        Some(a) => a.clone(),
        None => String::from_str("[NULL]"),
    }
}

/// Extracts the endpoint attributes of one handle into an owned descriptor.
/// Extraction never fails: an attribute the transport reports no value for
/// becomes the `"[NULL]"` sentinel in the produced descriptor.
pub fn describe(handle: &DiscoveryResultHandle, has_more_pending: bool) -> (d: EndpointDescriptor)
    ensures
        d@ == described(handle@, has_more_pending),
{
    EndpointDescriptor {
        service_name: owned_or_sentinel(&handle.service_name),
        service_domain: owned_or_sentinel(&handle.service_domain),
        has_more_pending,
    }
}

} // verus!
