use vstd::prelude::*;

verus! {

/// The ways a relay or subscription operation can fail, as surfaced to the
/// caller that triggered it.
#[derive(Clone, Copy, Debug, PartialEq, Eq, Structural)]
pub enum RelayError {
    /// No endpoint descriptor exists for the requested identifier.
    EndpointNotFound,
    /// A duplex session was requested on an endpoint that has no duplex URL.
    UnsupportedTransport,
    /// The upstream node could not be reached.
    UpstreamUnreachable,
    /// A subscription was requested before any relay activity ever created a
    /// fan-out entry for the endpoint.
    EndpointNotPublishing,
    /// A subscriber fell behind and missed messages; its stream is ended
    /// rather than delivering an in-band error payload.
    ConsumerLagged,
}

impl RelayError {
    /// The HTTP status under which this failure is reported to the caller:
    /// addressing errors are client errors, an unreachable upstream is a
    /// gateway error. A lagged consumer is normally surfaced by ending its
    /// stream; if it must be reported at all, it is a server-side condition.
    pub open spec fn spec_status_code(self) -> u16 {
        match self {
            RelayError::EndpointNotFound => 404,
            RelayError::UnsupportedTransport => 400,
            RelayError::UpstreamUnreachable => 502,
            RelayError::EndpointNotPublishing => 404,
            RelayError::ConsumerLagged => 500,
        }
    }

    /// The HTTP status code for this failure.
    pub fn status_code(&self) -> (code: u16)
        ensures
            code == self.spec_status_code(),
    {
        match self {
            RelayError::EndpointNotFound => 404,
            RelayError::UnsupportedTransport => 400,
            RelayError::UpstreamUnreachable => 502,
            RelayError::EndpointNotPublishing => 404,
            RelayError::ConsumerLagged => 500,
        }
    }

    /// A short human-readable description of this failure.
    pub fn describe(&self) -> (msg: String)
        ensures
            msg@ == self.spec_describe(),
    {
        match self {
            RelayError::EndpointNotFound => "endpoint not found".to_owned(),
            RelayError::UnsupportedTransport => "endpoint does not support duplex RPC".to_owned(),
            RelayError::UpstreamUnreachable => "upstream endpoint unreachable".to_owned(),
            RelayError::EndpointNotPublishing => "no event publisher exists for this endpoint".to_owned(),
            RelayError::ConsumerLagged => "subscriber lagged behind the publisher".to_owned(),
        }
    }

    /// The text that `describe` returns for each variant.
    pub open spec fn spec_describe(self) -> Seq<char> {
        match self {
            RelayError::EndpointNotFound => "endpoint not found"@,
            RelayError::UnsupportedTransport => "endpoint does not support duplex RPC"@,
            RelayError::UpstreamUnreachable => "upstream endpoint unreachable"@,
            RelayError::EndpointNotPublishing => "no event publisher exists for this endpoint"@,
            RelayError::ConsumerLagged => "subscriber lagged behind the publisher"@,
        }
    }
}

/// The ways a registry mutation can fail.
#[derive(Clone, Copy, Debug, PartialEq, Eq, Structural)]
pub enum RegistryError {
    /// Another endpoint already carries this name, compared
    /// case-insensitively after trimming whitespace.
    DuplicateName,
    /// Another endpoint already carries this identifier.
    DuplicateId,
}

impl RegistryError {
    /// A short human-readable description of this failure.
    pub fn describe(&self) -> (msg: String)
        ensures
            msg@ == self.spec_describe(),
    {
        match self {
            RegistryError::DuplicateName => "an endpoint with that name already exists".to_owned(),
            RegistryError::DuplicateId => "an endpoint with that identifier already exists".to_owned(),
        }
    }

    /// The text that `describe` returns for each variant.
    pub open spec fn spec_describe(self) -> Seq<char> {
        match self {
            RegistryError::DuplicateName => "an endpoint with that name already exists"@,
            RegistryError::DuplicateId => "an endpoint with that identifier already exists"@,
        }
    }
}

} // verus!
