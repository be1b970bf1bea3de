use wreq::identity::{ConnectExtra, HttpVersion, Identifier};
use wreq::tls::AlpnProtocol;

fn extra(uri: &str, v: Option<HttpVersion>) -> ConnectExtra {
    ConnectExtra::new(uri.to_string(), v)
}

#[test]
fn alpn_for_http1_versions() {
    for v in [HttpVersion::HTTP_09, HttpVersion::HTTP_10, HttpVersion::HTTP_11] {
        assert_eq!(extra("https://a.example/", Some(v)).alpn_protocol(), Some(AlpnProtocol::http1()));
    }
}

#[test]
fn alpn_for_http2() {
    assert_eq!(
        extra("https://a.example/", Some(HttpVersion::HTTP_2)).alpn_protocol(),
        Some(AlpnProtocol::http2())
    );
}

#[test]
fn alpn_unconstrained() {
    assert_eq!(extra("https://a.example/", None).alpn_protocol(), None);
    assert_eq!(extra("https://a.example/", Some(HttpVersion::HTTP_3)).alpn_protocol(), None);
}

#[test]
fn accessors() {
    let e = extra("https://a.example/x", Some(HttpVersion::HTTP_2));
    assert_eq!(e.uri(), "https://a.example/x");
    assert_eq!(e.enforced_version(), Some(HttpVersion::HTTP_2));
}

#[test]
fn equality_is_structural() {
    let a = extra("https://a.example/", Some(HttpVersion::HTTP_11));
    let b = extra("https://a.example/", Some(HttpVersion::HTTP_11));
    assert_eq!(a, b);
    assert_eq!(a.hash_value(), b.hash_value());
    assert_ne!(a, extra("https://b.example/", Some(HttpVersion::HTTP_11)));
    assert_ne!(a, extra("https://a.example/", None));
    assert_ne!(a, extra("HTTPS://a.example/", Some(HttpVersion::HTTP_11)));
}

#[test]
fn versions_make_distinct_identities() {
    let h2 = Identifier::new(extra("https://a.example/", Some(HttpVersion::HTTP_2)));
    let h11 = Identifier::new(extra("https://a.example/", Some(HttpVersion::HTTP_11)));
    assert!(h2 != h11);
    assert_ne!(h2.hash_value(), h11.hash_value());
}

#[test]
fn memoized_hash_is_stable_and_structural() {
    let e = extra("https://a.example/", Some(HttpVersion::HTTP_2));
    let expected = e.hash_value();
    let id = Identifier::new(e);
    assert_eq!(id.hash_value(), id.hash_value());
    assert_eq!(id.hash_value(), expected);
    assert_eq!(id.hash_value(), id.get().hash_value());
}

#[test]
fn wrapped_identities_compare_values() {
    let a = Identifier::new(extra("https://a.example/", None));
    let b = Identifier::new(extra("https://a.example/", None));
    let c = Identifier::new(extra("https://a.example/other", None));
    assert!(a == b);
    assert!(a != c);
    assert_eq!(a.get(), b.get());
}
