use vstd::prelude::*;

use crate::ascii::{bytes_eq, lemma_encode_utf8_injective};
use crate::endpoint::Endpoint;
use crate::errors::RelayError;
use vstd::string::StringExecFns;
use vstd::utf8::encode_utf8;

verus! {

/// A name for the base64 encoding — standard alphabet, padded — that the
/// outside encoder produces for a byte sequence.
pub uninterp spec fn base64_of(bytes: Seq<u8>) -> Seq<char>;

/// Relies on base64::encode: the deterministic standard-alphabet, padded
/// encoding of the input bytes, four output characters for every started
/// group of three input bytes.
#[verifier::external_body]
fn encode_base64(bytes: &Vec<u8>) -> (r: String)
    ensures
        r@ == base64_of(bytes@),
        r@.len() == 4 * ((bytes@.len() + 2) / 3),
{
    base64::encode(bytes)
}

/// The byte sequence that basic authentication encodes: the user name and
/// the password joined by a colon.
pub open spec fn credential_bytes(user: Seq<u8>, pass: Seq<u8>) -> Seq<u8> {
    user + seq![58u8] + pass
}

/// The value of the `Authorization` header for the given credentials.
pub open spec fn spec_auth_value(user: Seq<char>, pass: Seq<char>) -> Seq<char> {
    "Basic "@ + base64_of(credential_bytes(encode_utf8(user), encode_utf8(pass)))
}

/// The query that fetches one endpoint record by identifier.
pub open spec fn spec_endpoint_query(id: Seq<char>) -> Seq<char> {
    "SELECT * FROM endpoint WHERE id == "@ + id + ";"@
}

/// Whether some name in `names` reads `t`.
pub open spec fn spec_contains_name(names: Seq<String>, t: Seq<char>) -> bool {
    exists|i: int| 0 <= i < names.len() && (#[trigger] names[i])@ == t
}

/// The connection settings of the backing store: where to reach it and the
/// credentials and namespace to present. The store speaks HTTP; the
/// request headers it requires are computed here, the transport itself is
/// the caller's concern.
#[derive(Clone, Debug)]
pub struct StoreConfig {
    pub url: String,
    pub username: String,
    pub password: String,
    pub namespace: String,
    pub database: String,
}

/// What is missing from the backing store's schema and must be defined
/// before first use.
pub struct SetupPlan {
    pub create_user_table: bool,
    pub create_scope: bool,
    pub create_endpoint_table: bool,
}

impl StoreConfig {
    /// A configuration from its parts.
    pub fn new(url: &str, username: &str, password: &str, namespace: &str, database: &str) -> (r:
        StoreConfig)
        ensures
            r.url@ == url@,
            r.username@ == username@,
            r.password@ == password@,
            r.namespace@ == namespace@,
            r.database@ == database@,
    {
        StoreConfig {
            url: url.to_owned(),
            username: username.to_owned(),
            password: password.to_owned(),
            namespace: namespace.to_owned(),
            database: database.to_owned(),
        }
    }

    /// The basic-authentication `Authorization` header value for this
    /// configuration's credentials.
    pub fn auth_header_value(&self) -> (r: String)
        ensures
            r@ == spec_auth_value(self.username@, self.password@),
    {
        let mut creds: Vec<u8> = Vec::new();
        creds.extend_from_slice(self.username.as_str().as_bytes());
        creds.push(58);
        creds.extend_from_slice(self.password.as_str().as_bytes());
        proof {
            assert(creds@ =~= credential_bytes(
                encode_utf8(self.username@),
                encode_utf8(self.password@),
            ));
        }
        let encoded = encode_base64(&creds);
        let mut r = "Basic ".to_owned();
        r.append(encoded.as_str());
        r
    }

    /// The headers that every request to the backing store carries: the
    /// accepted content type, the namespace and database to use, and the
    /// credentials.
    pub fn query_headers(&self) -> (r: Vec<(String, String)>)
        ensures
            r@.len() == 4,
            r@[0].0@ == "Accept"@ && r@[0].1@ == "application/json"@,
            r@[1].0@ == "NS"@ && r@[1].1@ == self.namespace@,
            r@[2].0@ == "DB"@ && r@[2].1@ == self.database@,
            r@[3].0@ == "Authorization"@ && r@[3].1@ == spec_auth_value(
                self.username@,
                self.password@,
            ),
    {
        let mut r: Vec<(String, String)> = Vec::new();
        r.push(("Accept".to_owned(), "application/json".to_owned()));
        r.push(("NS".to_owned(), self.namespace.clone()));
        r.push(("DB".to_owned(), self.database.clone()));
        r.push(("Authorization".to_owned(), self.auth_header_value()));
        r
    }
}

/// The store query that fetches one endpoint record by its identifier.
pub fn endpoint_query(id: &String) -> (r: String)
    ensures
        r@ == spec_endpoint_query(id@),
{
    let mut q = "SELECT * FROM endpoint WHERE id == ".to_owned();
    q.append(id.as_str());
    q.append(";");
    q
}

/// The endpoint a store lookup resolved to: the first returned record, or
/// `EndpointNotFound` if the query matched nothing.
pub fn first_endpoint(results: Vec<Endpoint>) -> (r: Result<Endpoint, RelayError>)
    ensures
        match r {
            Ok(e) => results@.len() > 0 && e == results@[0],
            Err(err) => results@.len() == 0 && err == RelayError::EndpointNotFound,
        },
{
    let mut results = results;
    if results.len() == 0 {
        Err(RelayError::EndpointNotFound)
    } else {
        Ok(results.remove(0))
    }
}

/// Whether `names` holds an entry reading `t`.
fn contains_name(names: &Vec<String>, t: &str) -> (r: bool)
    ensures
        r == spec_contains_name(names@, t@),
{
    let n = names.len();
    let mut i: usize = 0;
    while i < n
        invariant
            i <= n,
            n == names@.len(),
            forall|j: int| 0 <= j < i ==> (#[trigger] names@[j])@ != t@,
        decreases n - i,
    {
        if bytes_eq(names[i].as_str().as_bytes(), t.as_bytes()) {
            proof {
                lemma_encode_utf8_injective(names@[i as int]@, t@);
            }
            return true;
        }
        proof {
            if names@[i as int]@ == t@ {
                assert(encode_utf8(names@[i as int]@) == encode_utf8(t@));
            }
        }
        i += 1;
    }
    false
}

/// Decide what schema definitions the backing store still needs, given the
/// names of the tables and scopes it already has: a `user` table, an
/// `allusers` scope, and an `endpoint` table are each created exactly when
/// absent.
pub fn missing_definitions(tables: &Vec<String>, scopes: &Vec<String>) -> (r: SetupPlan)
    ensures
        r.create_user_table == !spec_contains_name(tables@, "user"@),
        r.create_scope == !spec_contains_name(scopes@, "allusers"@),
        r.create_endpoint_table == !spec_contains_name(tables@, "endpoint"@),
{
    SetupPlan {
        create_user_table: !contains_name(tables, "user"),
        create_scope: !contains_name(scopes, "allusers"),
        create_endpoint_table: !contains_name(tables, "endpoint"),
    }
}

} // verus!
