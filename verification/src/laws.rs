use vstd::prelude::*;

use crate::assoc::lemma_find_by_unique;
use crate::directory::{endpoint_key, Directory};
use crate::duplex::spec_resolve_duplex;
use crate::errors::RelayError;
use crate::events::spec_subscribe_decision;
use crate::hub::Hub;
use crate::relay::spec_resolve_http;

verus! {

/// A registered endpoint that has no duplex URL refuses a duplex-open
/// request with `UnsupportedTransport`, whatever else the directory holds.
pub proof fn lemma_http_only_endpoint_rejects_duplex(d: Directory, i: int)
    requires
        d.wf(),
        0 <= i < d.endpoints@.len(),
        d.endpoints@[i].rpc_ws is None,
    ensures
        spec_resolve_duplex(d, d.endpoints@[i].id@) == Err::<Seq<char>, RelayError>(
            RelayError::UnsupportedTransport,
        ),
{
    assert(endpoint_key()(d.endpoints@[i]) == d.endpoints@[i].id@);
    lemma_find_by_unique(d.endpoints@, endpoint_key(), d.endpoints@[i].id@, i);
}

/// An identifier that no endpoint is registered under fails on all three
/// surfaces — HTTP relay, duplex relay, and subscription — with
/// `EndpointNotFound`.
pub proof fn lemma_unknown_endpoint_rejected(d: Directory, hub: Hub, x: Seq<char>)
    requires
        !d.has_endpoint(x),
    ensures
        spec_resolve_http(d, x) == Err::<Seq<char>, RelayError>(RelayError::EndpointNotFound),
        spec_resolve_duplex(d, x) == Err::<Seq<char>, RelayError>(RelayError::EndpointNotFound),
        spec_subscribe_decision(d, hub, x) == Err::<(), RelayError>(RelayError::EndpointNotFound),
{
}

} // verus!
