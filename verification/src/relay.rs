use vstd::prelude::*;

use crate::ascii::{copy_bytes, eq_ignore_case, lower};
use crate::directory::Directory;
use crate::errors::RelayError;
use crate::hub::Hub;

verus! {

/// An inbound request as handed to the relay: its method, its headers as
/// name/value byte pairs, and its body, all as plain bytes.
pub struct RelayRequest {
    pub method: String,
    pub headers: Vec<(Vec<u8>, Vec<u8>)>,
    pub body: Vec<u8>,
}

/// A request ready to be issued to the upstream node: the endpoint's HTTP
/// RPC URL as target, with the inbound method, surviving headers, and body
/// carried over verbatim.
pub struct PreparedRequest {
    pub url: String,
    pub method: String,
    pub headers: Vec<(Vec<u8>, Vec<u8>)>,
    pub body: Vec<u8>,
}

/// An upstream response: its status code and its raw body bytes.
pub struct HttpResponse {
    pub status: u16,
    pub body: Vec<u8>,
}

/// The view of a header list: each name and value as a byte sequence.
pub open spec fn header_views(hs: Seq<(Vec<u8>, Vec<u8>)>) -> Seq<(Seq<u8>, Seq<u8>)> {
    Seq::new(hs.len(), |i: int| (hs[i].0@, hs[i].1@))
}

/// The bytes of the header name `host`, lowercase.
pub open spec fn host_header_name() -> Seq<u8> {
    seq![104u8, 111u8, 115u8, 116u8]
}

/// The bytes of the header name `content-length`, lowercase.
pub open spec fn content_length_header_name() -> Seq<u8> {
    seq![
        99u8,
        111u8,
        110u8,
        116u8,
        101u8,
        110u8,
        116u8,
        45u8,
        108u8,
        101u8,
        110u8,
        103u8,
        116u8,
        104u8,
    ]
}

/// Whether `name` is a hop-by-hop header that would corrupt the proxied
/// request and must be stripped before forwarding: `host` and
/// `content-length`, compared without regard to ASCII case.
pub open spec fn is_hop_header(name: Seq<u8>) -> bool {
    lower(name) == host_header_name() || lower(name) == content_length_header_name()
}

/// The headers that survive stripping: all but the hop-by-hop ones, in
/// their original order.
pub open spec fn spec_strip(hs: Seq<(Seq<u8>, Seq<u8>)>) -> Seq<(Seq<u8>, Seq<u8>)> {
    hs.filter(|h: (Seq<u8>, Seq<u8>)| !is_hop_header(h.0))
}

/// The target resolution of the HTTP relay surface: the endpoint's HTTP
/// RPC URL, or the failure to address it.
pub open spec fn spec_resolve_http(d: Directory, id: Seq<char>) -> Result<Seq<char>, RelayError> {
    match d.spec_get(id) {
        Some(e) => Ok(e.rpc_http@),
        None => Err(RelayError::EndpointNotFound),
    }
}

/// Whether `name` is a hop-by-hop header name.
fn is_hop_name(name: &[u8]) -> (r: bool)
    ensures
        r == is_hop_header(name@),
{
    let host: [u8; 4] = [104, 111, 115, 116];
    let content_length: [u8; 14] = [99, 111, 110, 116, 101, 110, 116, 45, 108, 101, 110, 103, 116, 104];
    let matches_host = eq_ignore_case(name, host.as_slice());
    let matches_content_length = eq_ignore_case(name, content_length.as_slice());
    proof {
        assert(host@ =~= host_header_name());
        assert(content_length@ =~= content_length_header_name());
        assert(lower(host_header_name()) =~= host_header_name());
        assert(lower(content_length_header_name()) =~= content_length_header_name());
    }
    matches_host || matches_content_length
}

/// Resolve an inbound request on the HTTP relay surface: look the endpoint
/// up, strip the hop-by-hop headers, and rewrite the target to the
/// endpoint's HTTP RPC URL, keeping method, remaining headers, and body
/// verbatim. Fails exactly when the endpoint identifier is unknown.
pub fn prepare_http_relay(directory: &Directory, endpoint_id: &String, req: RelayRequest) -> (r:
    Result<PreparedRequest, RelayError>)
    ensures
        r is Ok <==> spec_resolve_http(*directory, endpoint_id@) is Ok,
        r matches Err(e) ==> Err::<Seq<char>, RelayError>(e) == spec_resolve_http(
            *directory,
            endpoint_id@,
        ),
        r matches Ok(p) ==> Ok::<Seq<char>, RelayError>(p.url@) == spec_resolve_http(
            *directory,
            endpoint_id@,
        ) && p.method@ == req.method@ && p.body@ == req.body@ && header_views(p.headers@)
            == spec_strip(header_views(req.headers@)),
{
    let target = match directory.get(endpoint_id) {
        Ok(e) => e.rpc_http.clone(),
        Err(err) => {
            return Err(err);
        },
    };
    let ghost orig = req.headers@;
    let mut rest = req.headers;
    let mut kept: Vec<(Vec<u8>, Vec<u8>)> = Vec::new();
    proof {
        assert(orig.skip(0) =~= orig);
        assert(header_views(orig).take(0) =~= Seq::<(Seq<u8>, Seq<u8>)>::empty());
        reveal(Seq::filter);
        assert(header_views(kept@) =~= spec_strip(header_views(orig).take(0)));
    }
    while rest.len() > 0
        invariant
            rest@ == orig.skip(orig.len() - rest@.len()),
            rest@.len() <= orig.len(),
            header_views(kept@) == spec_strip(header_views(orig).take(orig.len() - rest@.len())),
        decreases rest@.len(),
    {
        let ghost k = orig.len() - rest@.len();
        let h = rest.remove(0);
        proof {
            assert(h == orig[k]);
            assert(rest@ =~= orig.skip(k + 1));
        }
        let hop = is_hop_name(h.0.as_slice());
        proof {
            let hv = header_views(orig);
            let t = hv.take(k + 1);
            assert(t.drop_last() =~= hv.take(k));
            assert(t.last() == hv[k]);
            assert(hv[k] == (orig[k].0@, orig[k].1@));
            reveal(Seq::filter);
            assert(spec_strip(t) == spec_strip(hv.take(k)) + if !is_hop_header(hv[k].0) {
                seq![hv[k]]
            } else {
                Seq::<(Seq<u8>, Seq<u8>)>::empty()
            });
        }
        if !hop {
            let ghost kept0 = kept@;
            kept.push(h);
            proof {
                assert(header_views(kept@) =~= header_views(kept0).push((h.0@, h.1@)));
                assert(header_views(kept@) =~= spec_strip(header_views(orig).take(k + 1)));
            }
        } else {
            proof {
                assert(spec_strip(header_views(orig).take(k + 1)) =~= spec_strip(
                    header_views(orig).take(k),
                ));
            }
        }
    }
    proof {
        assert(header_views(orig).take(orig.len() as int) =~= header_views(orig));
    }
    Ok(PreparedRequest { url: target, method: req.method, headers: kept, body: req.body })
}

/// Complete an HTTP relay with the outcome of the upstream call: a
/// transport failure is surfaced as `UpstreamUnreachable` and publishes
/// nothing; a response — whatever its status — is republished to the
/// endpoint's fan-out entry (creating it on first touch) and returned to
/// the caller unchanged, byte for byte.
pub fn complete_http_relay(hub: &mut Hub, endpoint_id: &String, upstream: Option<HttpResponse>)
    -> (r: Result<HttpResponse, RelayError>)
    requires
        old(hub).wf(),
    ensures
        final(hub).wf(),
        final(hub).capacity == old(hub).capacity,
        upstream is None ==> r == Err::<HttpResponse, RelayError>(RelayError::UpstreamUnreachable)
            && *final(hub) == *old(hub),
        (match upstream {
            Some(resp) => (r matches Ok(out) && out.status == resp.status && out.body@
                == resp.body@) && crate::hub::published_one(
                *old(hub),
                *final(hub),
                endpoint_id@,
                resp.body@,
            ),
            None => true,
        }),
{
    match upstream {
        Some(resp) => {
            let copy = copy_bytes(&resp.body);
            hub.publish(endpoint_id, copy);
            Ok(resp)
        },
        None => Err(RelayError::UpstreamUnreachable),
    }
}


} // verus!
