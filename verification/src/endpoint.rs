use vstd::prelude::*;

verus! {

/// A registered endpoint descriptor: one remote RPC-speaking node that the
/// relay can forward traffic to.
///
/// An endpoint is addressable by `id` only; the relay never resolves by
/// `name`. `rpc_http` is the required URL for request/response calls;
/// `rpc_ws`, when present, is the URL for duplex calls — its absence means
/// duplex relay is unsupported for this endpoint. The remaining fields are
/// descriptive and are not consulted by the relay logic.
#[derive(Debug)]
pub struct Endpoint {
    pub id: String,
    pub name: String,
    pub rpc_http: String,
    pub rpc_ws: Option<String>,
    pub enabled: bool,
    pub is_dev: bool,
    pub date_added: String,
    pub explorer_url: Option<String>,
}

impl Endpoint {
    /// Whether this endpoint supports duplex relay at all.
    pub open spec fn spec_supports_duplex(self) -> bool {
        self.rpc_ws is Some
    }

    /// An equal copy of this descriptor.
    pub fn duplicate(&self) -> (r: Endpoint)
        ensures
            r == *self,
    {
        Endpoint {
            id: self.id.clone(),
            name: self.name.clone(),
            rpc_http: self.rpc_http.clone(),
            rpc_ws: match &self.rpc_ws {
                Some(u) => Some(u.clone()),
                None => None,
            },
            enabled: self.enabled,
            is_dev: self.is_dev,
            date_added: self.date_added.clone(),
            explorer_url: match &self.explorer_url {
                Some(u) => Some(u.clone()),
                None => None,
            },
        }
    }

    /// Field-level validation of the descriptor. The shape of the URLs is
    /// not checked here; every descriptor passes.
    pub fn validate(&self) -> (r: Result<bool, String>)
        ensures
            r == Ok::<bool, String>(true),
    {
        Ok(true)
    }

    /// Reachability probe of the descriptor's upstream URLs. No probe is
    /// performed here; every descriptor passes.
    pub fn test_connection(&self) -> (r: Result<bool, String>)
        ensures
            r == Ok::<bool, String>(true),
    {
        Ok(true)
    }
}

} // verus!
