use vstd::prelude::*;

use crate::ascii::{lower, trimmed, names_match};
use crate::assoc::{
    find_by, unique_keys, lemma_find_by_skip, lemma_find_by_none, lemma_find_by_update,
    lemma_find_by_remove, lemma_unique_push, lemma_unique_update, lemma_unique_remove,
};
use crate::endpoint::Endpoint;
use crate::errors::{RegistryError, RelayError};
use vstd::utf8::encode_utf8;

verus! {

/// The key under which the directory resolves an endpoint: its identifier.
pub open spec fn endpoint_key() -> spec_fn(Endpoint) -> Seq<char> {
    |e: Endpoint| e.id@
}

/// The key under which endpoint names are compared for uniqueness: the
/// UTF-8 bytes of the name, trimmed of ASCII whitespace and folded to ASCII
/// lowercase.
pub open spec fn name_key(name: Seq<char>) -> Seq<u8> {
    lower(trimmed(encode_utf8(name)))
}

/// Whether some endpoint in `eps` carries `name`, compared by `name_key`.
pub open spec fn spec_has_name(eps: Seq<Endpoint>, name: Seq<char>) -> bool {
    exists|i: int| 0 <= i < eps.len() && name_key(#[trigger] eps[i].name@) == name_key(name)
}

/// The endpoint directory: the set of registered endpoint descriptors,
/// resolved by identifier. Identifiers are unique; names are kept unique by
/// `create` (case-insensitively, after trimming).
pub struct Directory {
    pub endpoints: Vec<Endpoint>,
}

impl Directory {
    /// The directory's invariant: identifiers are pairwise distinct.
    pub open spec fn wf(self) -> bool {
        unique_keys(self.endpoints@, endpoint_key())
    }

    /// The descriptor registered under `id`, if any.
    pub open spec fn spec_get(self, id: Seq<char>) -> Option<Endpoint> {
        find_by(self.endpoints@, endpoint_key(), id)
    }

    /// Whether any descriptor is registered under `id`.
    pub open spec fn has_endpoint(self, id: Seq<char>) -> bool {
        self.spec_get(id) is Some
    }

    /// An empty directory.
    pub fn new() -> (r: Directory)
        ensures
            r.wf(),
            r.endpoints@ == Seq::<Endpoint>::empty(),
            forall|id: Seq<char>| !r.has_endpoint(id),
    {
        let d = Directory { endpoints: Vec::new() };
        proof {
            assert forall|id: Seq<char>| !d.has_endpoint(id) by {
                assert(find_by(d.endpoints@, endpoint_key(), id) is None);
            }
        }
        d
    }

    /// The index of the descriptor registered under `id`, if any.
    fn find_index(&self, id: &String) -> (r: Option<usize>)
        ensures
            match r {
                Some(i) => i < self.endpoints@.len() && self.endpoints@[i as int].id@ == id@
                    && self.spec_get(id@) == Some(self.endpoints@[i as int]) && (forall|j: int|
                    0 <= j < i ==> (#[trigger] self.endpoints@[j]).id@ != id@),
                None => self.spec_get(id@) is None,
            },
    {
        let ghost eps = self.endpoints@;
        let n = self.endpoints.len();
        let mut i: usize = 0;
        proof {
            assert(eps.skip(0) =~= eps);
        }
        while i < n
            invariant
                i <= n,
                n == eps.len(),
                eps == self.endpoints@,
                forall|j: int| 0 <= j < i ==> (#[trigger] eps[j]).id@ != id@,
                find_by(eps, endpoint_key(), id@) == find_by(
                    eps.skip(i as int),
                    endpoint_key(),
                    id@,
                ),
            decreases n - i,
        {
            proof {
                lemma_find_by_skip(eps, endpoint_key(), id@, i as int);
                assert(endpoint_key()(eps[i as int]) == eps[i as int].id@);
            }
            if self.endpoints[i].id == *id {
                return Some(i);
            }
            i += 1;
        }
        proof {
            assert(eps.skip(n as int) =~= Seq::<Endpoint>::empty());
            assert(find_by(Seq::<Endpoint>::empty(), endpoint_key(), id@) is None);
        }
        None
    }

    /// Resolve `id` to its registered descriptor; the only directory
    /// operation the relay itself performs.
    pub fn get<'a>(&'a self, id: &String) -> (r: Result<&'a Endpoint, RelayError>)
        ensures
            match r {
                Ok(e) => self.spec_get(id@) == Some(*e),
                Err(err) => !self.has_endpoint(id@) && err == RelayError::EndpointNotFound,
            },
    {
        match self.find_index(id) {
            Some(i) => Ok(&self.endpoints[i]),
            None => Err(RelayError::EndpointNotFound),
        }
    }

    /// All registered descriptors.
    pub fn list(&self) -> (r: &Vec<Endpoint>)
        ensures
            r@ == self.endpoints@,
    {
        &self.endpoints
    }

    /// Register a new descriptor. The name must be new among all registered
    /// endpoints — compared case-insensitively after trimming, as the
    /// original uniqueness rule demands — and the identifier must be new.
    pub fn create(&mut self, ep: Endpoint) -> (r: Result<(), RegistryError>)
        requires
            old(self).wf(),
        ensures
            final(self).wf(),
            (r == Err::<(), RegistryError>(RegistryError::DuplicateName)) <==> spec_has_name(
                old(self).endpoints@,
                ep.name@,
            ),
            (r == Err::<(), RegistryError>(RegistryError::DuplicateId)) <==> (!spec_has_name(
                old(self).endpoints@,
                ep.name@,
            ) && old(self).has_endpoint(ep.id@)),
            r is Ok <==> (!spec_has_name(old(self).endpoints@, ep.name@) && !old(self).has_endpoint(
                ep.id@,
            )),
            r is Ok ==> final(self).endpoints@ == old(self).endpoints@.push(ep),
            r is Err ==> *final(self) == *old(self),
    {
        let ghost eps = self.endpoints@;
        let n = self.endpoints.len();
        let mut i: usize = 0;
        while i < n
            invariant
                i <= n,
                n == eps.len(),
                eps == self.endpoints@,
                *self == *old(self),
                old(self).wf(),
                forall|j: int| 0 <= j < i ==> name_key((#[trigger] eps[j]).name@) != name_key(
                    ep.name@,
                ),
            decreases n - i,
        {
            if names_match(self.endpoints[i].name.as_str().as_bytes(), ep.name.as_str().as_bytes())
            {
                proof {
                    assert(name_key(eps[i as int].name@) == name_key(ep.name@));
                }
                return Err(RegistryError::DuplicateName);
            }
            i += 1;
        }
        assert(!spec_has_name(eps, ep.name@));
        match self.find_index(&ep.id) {
            Some(_) => Err(RegistryError::DuplicateId),
            None => {
                proof {
                    lemma_find_by_none(eps, endpoint_key(), ep.id@);
                    assert forall|j: int| 0 <= j < eps.len() implies endpoint_key()(
                        #[trigger] eps[j],
                    ) != endpoint_key()(ep) by {
                        assert(endpoint_key()(eps[j]) == eps[j].id@);
                    }
                    lemma_unique_push(eps, endpoint_key(), ep);
                }
                self.endpoints.push(ep);
                Ok(())
            },
        }
    }

    /// Replace the descriptor registered under `id`.
    pub fn update(&mut self, id: &String, ep: Endpoint) -> (r: Result<(), RelayError>)
        requires
            old(self).wf(),
            ep.id@ == id@,
        ensures
            final(self).wf(),
            r is Ok <==> old(self).has_endpoint(id@),
            r is Err ==> r == Err::<(), RelayError>(RelayError::EndpointNotFound)
                && *final(self) == *old(self),
            r is Ok ==> final(self).spec_get(id@) == Some(ep) && (forall|k: Seq<char>|
                k != id@ ==> final(self).spec_get(k) == old(self).spec_get(k))
                && final(self).endpoints@.len() == old(self).endpoints@.len(),
    {
        let ghost eps = self.endpoints@;
        match self.find_index(id) {
            Some(i) => {
                proof {
                    assert(endpoint_key()(ep) == ep.id@);
                    assert(endpoint_key()(eps[i as int]) == eps[i as int].id@);
                    assert forall|j: int| 0 <= j < i implies endpoint_key()(#[trigger] eps[j])
                        != endpoint_key()(eps[i as int]) by {
                        assert(endpoint_key()(eps[j]) == eps[j].id@);
                    }
                    lemma_unique_update(eps, endpoint_key(), i as int, ep);
                    assert forall|k: Seq<char>| true implies find_by(
                        eps.update(i as int, ep),
                        endpoint_key(),
                        k,
                    ) == if k == id@ {
                        Some(ep)
                    } else {
                        find_by(eps, endpoint_key(), k)
                    } by {
                        lemma_find_by_update(eps, endpoint_key(), k, i as int, ep);
                    }
                }
                self.endpoints[i] = ep;
                Ok(())
            },
            None => Err(RelayError::EndpointNotFound),
        }
    }

    /// Remove the descriptor registered under `id`.
    pub fn delete(&mut self, id: &String) -> (r: Result<(), RelayError>)
        requires
            old(self).wf(),
        ensures
            final(self).wf(),
            r is Ok <==> old(self).has_endpoint(id@),
            r is Err ==> r == Err::<(), RelayError>(RelayError::EndpointNotFound)
                && *final(self) == *old(self),
            r is Ok ==> !final(self).has_endpoint(id@) && (forall|k: Seq<char>|
                k != id@ ==> final(self).spec_get(k) == old(self).spec_get(k))
                && final(self).endpoints@.len() == old(self).endpoints@.len() - 1,
    {
        let ghost eps = self.endpoints@;
        match self.find_index(id) {
            Some(i) => {
                proof {
                    lemma_unique_remove(eps, endpoint_key(), i as int);
                    assert(endpoint_key()(eps[i as int]) == eps[i as int].id@);
                    assert forall|k: Seq<char>| true implies find_by(
                        eps.remove(i as int),
                        endpoint_key(),
                        k,
                    ) == if k == id@ {
                        None::<Endpoint>
                    } else {
                        find_by(eps, endpoint_key(), k)
                    } by {
                        lemma_find_by_remove(eps, endpoint_key(), k, i as int);
                    }
                }
                self.endpoints.remove(i);
                Ok(())
            },
            None => Err(RelayError::EndpointNotFound),
        }
    }
}

} // verus!
