//! The key under which connections are pooled and reused: the target URI and
//! the enforced HTTP version, with its hash computed once and cached.

use std::collections::hash_map::DefaultHasher;
use std::hash::Hasher;
use vstd::prelude::*;
use vstd::std_specs::cmp::PartialEqSpec;
use vstd::std_specs::hash::DefaultHasherAdditionalSpecFns;
use vstd::utf8::encode_utf8;

use crate::tls::{http1_token, http2_token, AlpnProtocol};

verus! {

/// An HTTP protocol version.
#[allow(non_camel_case_types)]
#[derive(Debug, Clone, Copy, Hash, PartialEq, Eq, Structural)]
pub enum HttpVersion {
    /// HTTP/0.9
    HTTP_09,
    /// HTTP/1.0
    HTTP_10,
    /// HTTP/1.1
    HTTP_11,
    /// HTTP/2
    HTTP_2,
    /// HTTP/3
    HTTP_3,
}

/// The byte that stands for an enforced version (or for none) in the hash.
pub open spec fn version_tag(version: Option<HttpVersion>) -> u8 {
    match version {
        None => 0,
        Some(HttpVersion::HTTP_09) => 1,
        Some(HttpVersion::HTTP_10) => 2,
        Some(HttpVersion::HTTP_11) => 3,
        Some(HttpVersion::HTTP_2) => 4,
        Some(HttpVersion::HTTP_3) => 5,
    }
}

/// The structural hash of an identity: std's `DefaultHasher` fed the URI's
/// UTF-8 bytes, then the version's tag byte.
pub open spec fn identity_hash(id: (Seq<char>, Option<HttpVersion>)) -> u64 {
    DefaultHasher::spec_finish(seq![encode_utf8(id.0), seq![version_tag(id.1)]])
}

/// The ALPN token that an enforced version asks for: HTTP/1.x asks for
/// `http/1.1`, HTTP/2 for `h2`, and anything else leaves negotiation open.
pub open spec fn desired_alpn(version: Option<HttpVersion>) -> Option<Seq<u8>> {
    match version {
        Some(HttpVersion::HTTP_09) | Some(HttpVersion::HTTP_10) | Some(HttpVersion::HTTP_11) => Some(
            http1_token(),
        ),
        Some(HttpVersion::HTTP_2) => Some(http2_token()),
        _ => None,
    }
}

/// What makes a connection reusable for a request: its target URI, as text,
/// and the HTTP version it is forced to, if any. Distinct texts are distinct
/// targets: callers canonicalise URIs first.
#[must_use]
#[derive(Debug, Clone, Hash, Eq)]
pub struct ConnectExtra {
    uri: String,
    enforced_version: Option<HttpVersion>,
}

impl View for ConnectExtra {
    type V = (Seq<char>, Option<HttpVersion>);

    closed spec fn view(&self) -> (Seq<char>, Option<HttpVersion>) {
        (self.uri@, self.enforced_version)
    }
}

impl PartialEq for ConnectExtra {
    fn eq(&self, other: &ConnectExtra) -> (r: bool) {
        let same_version = match (self.enforced_version, other.enforced_version) {
            (None, None) => true,
            (Some(a), Some(b)) => a == b,
            _ => false,
        };
        same_version && self.uri == other.uri
    }
}

impl vstd::std_specs::cmp::PartialEqSpecImpl for ConnectExtra {
    open spec fn obeys_eq_spec() -> bool {
        true
    }

    open spec fn eq_spec(&self, other: &ConnectExtra) -> bool {
        self@ == other@
    }
}

impl ConnectExtra {
    /// Create a new `ConnectExtra` with the given URI and enforced version.
    pub fn new(uri: String, enforced_version: Option<HttpVersion>) -> (r: ConnectExtra)
        ensures
            r@ == (uri@, enforced_version),
    {
        ConnectExtra { uri, enforced_version }
    }

    /// Get the URI.
    pub fn uri(&self) -> (r: &str)
        ensures
            r@ == self@.0,
    {
        self.uri.as_str()
    }

    /// Get the enforced version, if any.
    pub fn enforced_version(&self) -> (r: Option<HttpVersion>)
        ensures
            r == self@.1,
    {
        self.enforced_version
    }

    /// Return the ALPN protocol that the enforced version asks for.
    pub fn alpn_protocol(&self) -> (r: Option<AlpnProtocol>)
        ensures
            match r {
                Some(p) => desired_alpn(self@.1) == Some(p@),
                None => desired_alpn(self@.1) is None,
            },
    {
        match self.enforced_version {
            Some(HttpVersion::HTTP_11) | Some(HttpVersion::HTTP_10) | Some(HttpVersion::HTTP_09) => {
                Some(AlpnProtocol::http1())
            },
            Some(HttpVersion::HTTP_2) => Some(AlpnProtocol::http2()),
            _ => None,
        }
    }

    /// The structural hash of this identity, computed afresh.
    pub fn hash_value(&self) -> (r: u64)
        ensures
            r == identity_hash(self@),
    {
        let tag: u8 = match self.enforced_version {
            None => 0,
            Some(HttpVersion::HTTP_09) => 1,
            Some(HttpVersion::HTTP_10) => 2,
            Some(HttpVersion::HTTP_11) => 3,
            Some(HttpVersion::HTTP_2) => 4,
            Some(HttpVersion::HTTP_3) => 5,
        };
        let text = self.uri.as_str();
        let bytes = text.as_bytes();
        assert(bytes@ == encode_utf8(self@.0));
        let tag_bytes: [u8; 1] = [tag];
        let mut hasher = DefaultHasher::new();
        hasher.write(bytes);
        let tag_slice = tag_bytes.as_slice();
        assert(tag_slice@ =~= seq![version_tag(self@.1)]);
        hasher.write(tag_slice);
        let r = hasher.finish();
        proof {
            assert(hasher@ =~= seq![encode_utf8(self@.0), seq![version_tag(self@.1)]]);
        }
        r
    }
}

/// Equal identities hash alike, and two identities are equal exactly when
/// their URIs and enforced versions are.
pub proof fn identity_eq_and_hash_agree(a: ConnectExtra, b: ConnectExtra)
    ensures
        a.eq_spec(&b) <==> (a@.0 == b@.0 && a@.1 == b@.1),
        a.eq_spec(&b) ==> identity_hash(a@) == identity_hash(b@),
{
}

/// A `ConnectExtra` with its hash, computed once when wrapped and never again.
/// Nothing mutates it after construction, so it can be shared freely.
#[derive(Debug)]
pub struct Identifier {
    extra: ConnectExtra,
    hash: u64,
}

impl View for Identifier {
    type V = (Seq<char>, Option<HttpVersion>);

    closed spec fn view(&self) -> (Seq<char>, Option<HttpVersion>) {
        self.extra@
    }
}

impl Identifier {
    /// The cached hash always matches the wrapped value.
    #[verifier::type_invariant]
    spec fn hash_matches(self) -> bool {
        self.hash == identity_hash(self.extra@)
    }

    /// Wrap `extra`, computing its hash now.
    pub fn new(extra: ConnectExtra) -> (r: Identifier)
        ensures
            r@ == extra@,
    {
        let hash = extra.hash_value();
        Identifier { extra, hash }
    }

    /// The wrapped value.
    pub fn get(&self) -> (r: &ConnectExtra)
        ensures
            r@ == self@,
    {
        &self.extra
    }

    /// The cached hash: the structural hash of the wrapped value, not
    /// recomputed.
    pub fn hash_value(&self) -> (r: u64)
        ensures
            r == identity_hash(self@),
    {
        proof {
            use_type_invariant(self);
        }
        self.hash
    }
}

impl PartialEq for Identifier {
    /// Compares the cached hashes first, then the wrapped values: unequal
    /// hashes settle it, equal ones never do.
    fn eq(&self, other: &Identifier) -> (r: bool) {
        proof {
            use_type_invariant(self);
            use_type_invariant(other);
        }
        self.hash == other.hash && self.extra == other.extra
    }
}

impl vstd::std_specs::cmp::PartialEqSpecImpl for Identifier {
    open spec fn obeys_eq_spec() -> bool {
        true
    }

    open spec fn eq_spec(&self, other: &Identifier) -> bool {
        self@ == other@
    }
}

impl Eq for Identifier {
}

} // verus!
