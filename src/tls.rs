//! ALPN and ALPS protocol tokens and their wire encodings.

use vstd::prelude::*;

verus! {

/// The token `http/1.1`.
pub open spec fn http1_token() -> Seq<u8> {
    seq![104u8, 116u8, 116u8, 112u8, 47u8, 49u8, 46u8, 49u8]
}

/// The token `h2`.
pub open spec fn http2_token() -> Seq<u8> {
    seq![104u8, 50u8]
}

/// The token `h3`.
pub open spec fn http3_token() -> Seq<u8> {
    seq![104u8, 51u8]
}

/// One ALPN entry on the wire: a length byte, then the token itself.
pub open spec fn alpn_entry(token: Seq<u8>) -> Seq<u8> {
    seq![token.len() as u8] + token
}

/// The ALPN entries of `tokens`, concatenated in the order given.
pub open spec fn alpn_entries(tokens: Seq<AlpnProtocol>) -> Seq<u8>
    decreases tokens.len(),
{
    if tokens.len() == 0 {
        Seq::empty()
    } else {
        alpn_entries(tokens.drop_last()) + alpn_entry(tokens.last()@)
    }
}

/// A TLS ALPN advertisement payload, already length-prefixed.
#[derive(Debug, Clone, Copy, Hash, PartialEq, Eq)]
pub struct AlpnProtos(&'static [u8]);

impl View for AlpnProtos {
    type V = Seq<u8>;

    closed spec fn view(&self) -> Seq<u8> {
        self.0@
    }
}

impl AlpnProtos {
    /// Prefer HTTP/1.1
    pub fn http1() -> (r: AlpnProtos)
        ensures
            r@ == alpn_entry(http1_token()),
    {
        let r = AlpnProtos(&[8u8, 104u8, 116u8, 116u8, 112u8, 47u8, 49u8, 46u8, 49u8]);
        proof {
            assert(r@ =~= alpn_entry(http1_token()));
        }
        r
    }

    /// Prefer HTTP/2
    pub fn http2() -> (r: AlpnProtos)
        ensures
            r@ == alpn_entry(http2_token()),
    {
        let r = AlpnProtos(&[2u8, 104u8, 50u8]);
        proof {
            assert(r@ =~= alpn_entry(http2_token()));
        }
        r
    }

    /// Prefer HTTP/2, then accept HTTP/1.1
    pub fn all() -> (r: AlpnProtos)
        ensures
            r@ == alpn_entry(http2_token()) + alpn_entry(http1_token()),
    {
        let r = AlpnProtos(&[2u8, 104u8, 50u8, 8u8, 104u8, 116u8, 116u8, 112u8, 47u8, 49u8, 46u8, 49u8]);
        proof {
            assert(r@ =~= alpn_entry(http2_token()) + alpn_entry(http1_token()));
        }
        r
    }

    /// The payload as it goes into the TLS ALPN extension.
    pub fn as_bytes(&self) -> (r: &'static [u8])
        ensures
            r@ == self@,
    {
        self.0
    }
}

impl Default for AlpnProtos {
    fn default() -> (r: AlpnProtos)
        ensures
            r@ == alpn_entry(http2_token()) + alpn_entry(http1_token()),
    {
        AlpnProtos::all()
    }
}

/// A bare ALPN protocol token, before length-prefixing.
#[derive(Debug, Clone, Copy, Hash, PartialEq, Eq)]
pub struct AlpnProtocol(&'static [u8]);

impl View for AlpnProtocol {
    type V = Seq<u8>;

    closed spec fn view(&self) -> Seq<u8> {
        self.0@
    }
}

impl AlpnProtocol {
    /// HTTP/1.1 ALPN protocol
    pub fn http1() -> (r: AlpnProtocol)
        ensures
            r@ == http1_token(),
    {
        let r = AlpnProtocol(&[104u8, 116u8, 116u8, 112u8, 47u8, 49u8, 46u8, 49u8]);
        proof {
            assert(r@ =~= http1_token());
        }
        r
    }

    /// HTTP/2 ALPN protocol
    pub fn http2() -> (r: AlpnProtocol)
        ensures
            r@ == http2_token(),
    {
        let r = AlpnProtocol(&[104u8, 50u8]);
        proof {
            assert(r@ =~= http2_token());
        }
        r
    }

    /// HTTP/3 ALPN protocol
    pub fn http3() -> (r: AlpnProtocol)
        ensures
            r@ == http3_token(),
    {
        let r = AlpnProtocol(&[104u8, 51u8]);
        proof {
            assert(r@ =~= http3_token());
        }
        r
    }

    /// Create a new `AlpnProtocol` from a static byte slice.
    pub fn new(value: &'static [u8]) -> (r: AlpnProtocol)
        ensures
            r@ == value@,
    {
        AlpnProtocol(value)
    }

    /// Encode this protocol identifier with its length prefix.
    pub fn encode(&self) -> (r: Vec<u8>)
        ensures
            r@ == alpn_entry(self@),
    {
        let mut buf: Vec<u8> = Vec::new();
        buf.push(#[verifier::truncate] (self.0.len() as u8));
        buf.extend_from_slice(self.0);
        assert(buf@ =~= alpn_entry(self@));
        buf
    }

    /// Encode a sequence of ALPN protocols into a single buffer, keeping
    /// their order: the first is the most preferred.
    pub fn encode_sequence(protocols: &[AlpnProtocol]) -> (r: Vec<u8>)
        ensures
            r@ == alpn_entries(protocols@),
    {
        let mut buf: Vec<u8> = Vec::new();
        let mut i: usize = 0;
        while i < protocols.len()
            invariant
                0 <= i <= protocols@.len(),
                buf@ == alpn_entries(protocols@.subrange(0, i as int)),
            decreases protocols@.len() - i,
        {
            let protocol = protocols[i];
            buf.push(#[verifier::truncate] (protocol.0.len() as u8));
            buf.extend_from_slice(protocol.0);
            proof {
                let done = protocols@.subrange(0, i + 1);
                assert(done.drop_last() =~= protocols@.subrange(0, i as int));
                assert(buf@ =~= alpn_entries(done.drop_last()) + alpn_entry(done.last()@));
            }
            i += 1;
        }
        assert(protocols@.subrange(0, protocols@.len() as int) =~= protocols@);
        buf
    }
}

/// Encoding a single token gives its length, as one byte, followed by the
/// token: `L + 1` bytes in all for a token of length `L` (at most 255).
pub proof fn alpn_entry_round_trip(protocol: AlpnProtocol)
    requires
        protocol@.len() <= 255,
    ensures
        alpn_entry(protocol@).len() == protocol@.len() + 1,
        alpn_entry(protocol@)[0] == protocol@.len(),
        alpn_entry(protocol@).subrange(1, protocol@.len() + 1int) == protocol@,
{
    assert(alpn_entry(protocol@).subrange(1, protocol@.len() + 1int) =~= protocol@);
}

/// Encoding a sequence keeps the caller's order: the encoding of `a` followed
/// by `b` is the encoding of `a` followed by the encoding of `b`, and a
/// sequence of one token is that token's entry.
pub proof fn alpn_entries_concat(a: Seq<AlpnProtocol>, b: Seq<AlpnProtocol>)
    ensures
        alpn_entries(a + b) == alpn_entries(a) + alpn_entries(b),
        alpn_entries(Seq::<AlpnProtocol>::empty()).len() == 0,
        forall|p: AlpnProtocol| alpn_entries(seq![p]) == alpn_entry(p@),
    decreases b.len(),
{
    if b.len() == 0 {
        assert(a + b =~= a);
        assert(alpn_entries(a) + alpn_entries(b) =~= alpn_entries(a));
    } else {
        alpn_entries_concat(a, b.drop_last());
        assert((a + b).drop_last() =~= a + b.drop_last());
        assert((a + b).last() == b.last());
        assert(alpn_entries(a + b) =~= alpn_entries(a) + alpn_entries(b));
    }
    assert forall|p: AlpnProtocol| alpn_entries(seq![p]) == alpn_entry(p@) by {
        assert(seq![p].drop_last() =~= Seq::<AlpnProtocol>::empty());
        assert(seq![p].last() == p);
        assert(alpn_entries(Seq::<AlpnProtocol>::empty()) =~= Seq::<u8>::empty());
        assert(alpn_entries(seq![p]) =~= alpn_entry(p@));
    }
}

/// Application-layer protocol settings token, bare (no length prefix).
#[derive(Debug, Clone, Copy, PartialEq, Eq)]
pub struct AlpsProtos(&'static [u8]);

impl View for AlpsProtos {
    type V = Seq<u8>;

    closed spec fn view(&self) -> Seq<u8> {
        self.0@
    }
}

impl AlpsProtos {
    /// Application Settings protocol for HTTP/1.1
    pub fn http1() -> (r: AlpsProtos)
        ensures
            r@ == http1_token(),
    {
        let r = AlpsProtos(&[104u8, 116u8, 116u8, 112u8, 47u8, 49u8, 46u8, 49u8]);
        proof {
            assert(r@ =~= http1_token());
        }
        r
    }

    /// Application Settings protocol for HTTP/2
    pub fn http2() -> (r: AlpsProtos)
        ensures
            r@ == http2_token(),
    {
        let r = AlpsProtos(&[104u8, 50u8]);
        proof {
            assert(r@ =~= http2_token());
        }
        r
    }

    /// The bare token as it goes into the TLS ALPS extension.
    pub fn as_bytes(&self) -> (r: &'static [u8])
        ensures
            r@ == self@,
    {
        self.0
    }
}

/// A TLS protocol version.
#[allow(non_camel_case_types)]
#[derive(Debug, Clone, Copy, PartialEq, Eq)]
pub enum TlsVersion {
    /// Version 1.0 of the TLS protocol.
    TLS_1_0,
    /// Version 1.1 of the TLS protocol.
    TLS_1_1,
    /// Version 1.2 of the TLS protocol.
    TLS_1_2,
    /// Version 1.3 of the TLS protocol.
    TLS_1_3,
}

/// Extra TLS-layer information made available on responses.
#[derive(Debug, Clone)]
pub struct TlsInfo {
    peer_certificate: Option<Vec<u8>>,
}

impl View for TlsInfo {
    type V = Option<Seq<u8>>;

    closed spec fn view(&self) -> Option<Seq<u8>> {
        match &self.peer_certificate {
            Some(der) => Some(der@),
            None => None,
        }
    }
}

impl TlsInfo {
    /// Record what the handshake gave: the peer's DER leaf certificate, if any.
    pub fn new(peer_certificate: Option<Vec<u8>>) -> (r: TlsInfo)
        ensures
            r@ == (match peer_certificate {
                Some(der) => Some(der@),
                None => None,
            }),
    {
        TlsInfo { peer_certificate }
    }

    /// Get the DER encoded leaf certificate of the peer.
    pub fn peer_certificate(&self) -> (r: Option<&[u8]>)
        ensures
            r matches Some(der) <==> self@ is Some,
            r matches Some(der) ==> der@ == self@->Some_0,
    {
        match &self.peer_certificate {
            Some(der) => Some(der.as_slice()),
            None => None,
        }
    }
}

} // verus!
