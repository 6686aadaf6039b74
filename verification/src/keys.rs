//! The key cache: the tenant's current signing-key set, looked up by key
//! identifier and replaced wholesale on refresh.
//!
//! Fetching the set is network work and stays with the caller; this module
//! holds the verified data logic: projecting a fetched document into key
//! components, lookup by identifier, and the atomic swap-on-success refresh.

use vstd::prelude::*;

verus! {

/// A public key's modulus, base64url-encoded.
pub struct Modulus(pub String);

/// A public key's exponent, base64url-encoded.
pub struct Exponent(pub String);

/// One key entry of the tenant's published key-set document.
pub struct TenantKey {
    pub alg: String,
    pub kty: String,
    pub key_use: String,
    pub x5c: Vec<String>,
    pub n: Modulus,
    pub e: Exponent,
    pub kid: String,
    pub x5t: String,
}

/// The tenant's published key-set document.
pub struct TenantKeysResponse {
    pub keys: Vec<TenantKey>,
}

/// What a token needs from one signing key.
pub struct KeyComponents {
    pub modulus: Modulus,
    pub exponent: Exponent,
    pub kid: String,
}

/// Why a fetch of the key set failed.
#[derive(Debug)]
pub enum FetchErr {
    /// The key endpoint could not be reached.
    Network(String),
    /// The endpoint answered but the document did not parse whole; a single
    /// malformed entry fails the whole fetch.
    Parse(String),
}

impl TenantKeysResponse {
    /// Project every entry of the document to its key components, in order.
    pub fn into_components(self) -> (r: Vec<KeyComponents>)
        ensures
            r@.len() == self.keys@.len(),
            forall|i: int|
                0 <= i < r@.len() ==> {
                    &&& (#[trigger] r@[i]).kid == self.keys@[i].kid
                    &&& r@[i].modulus == self.keys@[i].n
                    &&& r@[i].exponent == self.keys@[i].e
                },
    {
        let ghost orig = self.keys@;
        let mut keys = self.keys;
        let mut out: Vec<KeyComponents> = Vec::new();
        while keys.len() > 0
            invariant
                keys@ =~= orig.subrange(out@.len() as int, orig.len() as int),
                out@.len() <= orig.len(),
                forall|i: int|
                    0 <= i < out@.len() ==> {
                        &&& (#[trigger] out@[i]).kid == orig[i].kid
                        &&& out@[i].modulus == orig[i].n
                        &&& out@[i].exponent == orig[i].e
                    },
            decreases keys.len(),
        {
            let key = keys.remove(0);
            out.push(KeyComponents { modulus: key.n, exponent: key.e, kid: key.kid });
            proof {
                assert(keys@ =~= orig.subrange(out@.len() as int, orig.len() as int));
            }
        }
        out
    }
}

/// The "kid" field of a token's header, a function of the token text alone.
pub uninterp spec fn kid_of(token: Seq<char>) -> Option<Seq<char>>;

/// Relies on jsonwebtokens::raw::decode_header_only, which base64-decodes
/// and JSON-parses the token's header segment, and on serde_json's field
/// lookup: together they yield the header's "kid" string, if the token has
/// a decodable header with a string "kid".
#[verifier::external_body]
fn token_kid(token: &str) -> (r: Option<String>)
    ensures
        r is Some <==> kid_of(token@) is Some,
        r matches Some(k) ==> kid_of(token@) == Some(k@),
{
    match jsonwebtokens::raw::decode_header_only(token) {
        Ok(header) => match header.get("kid").and_then(|v| v.as_str()) {
            Some(kid) => Some(kid.to_string()),
            None => None,
        },
        Err(_) => None,
    }
}

/// Does the key list hold a key with this identifier?
pub open spec fn has_kid(keys: Seq<KeyComponents>, kid: Seq<char>) -> bool {
    exists|i: int| 0 <= i < keys.len() && keys[i].kid@ == kid
}

/// What a successful or failed refresh leaves behind: the fetched set on
/// success, the previous set untouched on failure.
pub open spec fn refresh_spec(
    old_keys: Seq<KeyComponents>,
    fetched: Result<Vec<KeyComponents>, FetchErr>,
) -> Seq<KeyComponents> {
    match fetched {
        Ok(v) => v@,
        Err(_) => old_keys,
    }
}

/// Refreshing twice in a row with an unchanged fetched key set leaves
/// exactly the key set one refresh leaves.
pub proof fn lemma_refresh_idempotent(
    old_keys: Seq<KeyComponents>,
    fetched: Result<Vec<KeyComponents>, FetchErr>,
)
    ensures
        refresh_spec(refresh_spec(old_keys, fetched), fetched) == refresh_spec(old_keys, fetched),
{
}

/// The locally held copy of the tenant's signing keys.
pub struct KeySet {
    keys: Vec<KeyComponents>,
}

impl KeySet {
    /// The held key components, in fetch order.
    pub closed spec fn view_keys(&self) -> Seq<KeyComponents> {
        self.keys@
    }

    /// Hold a freshly fetched set.
    pub fn new(keys: Vec<KeyComponents>) -> (r: KeySet)
        ensures
            r.view_keys() == keys@,
    {
        KeySet { keys }
    }

    /// How many keys are held.
    pub fn len(&self) -> (r: usize)
        ensures
            r == self.view_keys().len(),
    {
        self.keys.len()
    }

    /// Look up the first key with the given identifier.
    pub fn get_components(&self, kid: &str) -> (r: Option<&KeyComponents>)
        ensures
            r is Some <==> has_kid(self.view_keys(), kid@),
            r matches Some(k) ==> exists|i: int|
                {
                    &&& 0 <= i < self.view_keys().len()
                    &&& *k == #[trigger] self.view_keys()[i]
                    &&& self.view_keys()[i].kid@ == kid@
                    &&& forall|j: int| 0 <= j < i ==> self.view_keys()[j].kid@ != kid@
                },
    {
        let mut i: usize = 0;
        while i < self.keys.len()
            invariant
                0 <= i <= self.keys@.len(),
                forall|j: int| 0 <= j < i ==> self.keys@[j].kid@ != kid@,
            decreases self.keys@.len() - i,
        {
            if crate::strutil::str_eq(self.keys[i].kid.as_str(), kid) {
                return Some(&self.keys[i]);
            }
            i = i + 1;
        }
        None
    }

    /// Decode a token's header and look up the key its "kid" names.
    pub fn get_components_by_kid(&self, jwt: &str) -> (r: Option<&KeyComponents>)
        ensures
            kid_of(jwt@) is None ==> r is None,
            kid_of(jwt@) matches Some(kid) ==> (r is Some <==> has_kid(self.view_keys(), kid)),
            r matches Some(k) ==> kid_of(jwt@) matches Some(kid) && k.kid@ == kid
                && exists|i: int|
                {
                    &&& 0 <= i < self.view_keys().len()
                    &&& *k == #[trigger] self.view_keys()[i]
                    &&& forall|j: int| 0 <= j < i ==> self.view_keys()[j].kid@ != kid
                },
    {
        match token_kid(jwt) {
            None => None,
            Some(kid) => self.get_components(kid.as_str()),
        }
    }

    /// Swap in a fetched key set; on a failed fetch keep the previous set
    /// untouched and surface the error.
    pub fn refetch_keys(&mut self, fetched: Result<Vec<KeyComponents>, FetchErr>) -> (r: Result<
        (),
        FetchErr,
    >)
        ensures
            final(self).view_keys() == refresh_spec(old(self).view_keys(), fetched),
            r is Ok <==> fetched is Ok,
            r matches Err(e) ==> fetched matches Err(f) && e == f,
    {
        match fetched {
            Ok(keys) => {
                self.keys = keys;
                Ok(())
            },
            Err(e) => Err(e),
        }
    }
}

} // verus!
