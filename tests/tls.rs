use wreq::tls::{AlpnProtocol, AlpnProtos, AlpsProtos, TlsInfo};

#[test]
fn encode_single_token() {
    assert_eq!(AlpnProtocol::http2().encode(), vec![2u8, b'h', b'2']);
    assert_eq!(AlpnProtocol::http1().encode(), b"\x08http/1.1".to_vec());
    assert_eq!(AlpnProtocol::http3().encode(), b"\x02h3".to_vec());
}

#[test]
fn encode_length_plus_one() {
    let token: &'static [u8] = b"spdy/3.1";
    let e = AlpnProtocol::new(token).encode();
    assert_eq!(e.len(), token.len() + 1);
    assert_eq!(e[0] as usize, token.len());
    assert_eq!(&e[1..], token);
}

#[test]
fn encode_longest_token() {
    let token: &'static [u8] = Box::leak(vec![b'x'; 255].into_boxed_slice());
    let e = AlpnProtocol::new(token).encode();
    assert_eq!(e.len(), 256);
    assert_eq!(e[0], 255);
    assert_eq!(&e[1..], token);
}

#[test]
fn encode_sequence_matches_all() {
    let e = AlpnProtocol::encode_sequence(&[AlpnProtocol::http2(), AlpnProtocol::http1()]);
    assert_eq!(e.as_slice(), AlpnProtos::all().as_bytes());
    assert_eq!(e.as_slice(), AlpnProtos::default().as_bytes());
}

#[test]
fn encode_sequence_empty() {
    assert!(AlpnProtocol::encode_sequence(&[]).is_empty());
}

#[test]
fn encode_sequence_keeps_order() {
    let e = AlpnProtocol::encode_sequence(&[AlpnProtocol::http1(), AlpnProtocol::http2()]);
    assert_eq!(e, b"\x08http/1.1\x02h2".to_vec());
    let single = AlpnProtocol::encode_sequence(&[AlpnProtocol::http3()]);
    assert_eq!(single, AlpnProtocol::http3().encode());
}

#[test]
fn single_protocol_payloads() {
    assert_eq!(AlpnProtos::http1().as_bytes(), b"\x08http/1.1");
    assert_eq!(AlpnProtos::http2().as_bytes(), b"\x02h2");
    assert_eq!(AlpnProtos::http1().as_bytes(), AlpnProtocol::http1().encode().as_slice());
}

#[test]
fn alps_tokens_are_bare() {
    assert_eq!(AlpsProtos::http1().as_bytes(), b"http/1.1");
    assert_eq!(AlpsProtos::http2().as_bytes(), b"h2");
    assert_ne!(AlpsProtos::http2().as_bytes(), AlpnProtos::http2().as_bytes());
}

#[test]
fn peer_certificate_exposed() {
    let info = TlsInfo::new(Some(vec![0x30, 0x82, 0x01]));
    assert_eq!(info.peer_certificate(), Some(&[0x30u8, 0x82, 0x01][..]));
    assert_eq!(TlsInfo::new(None).peer_certificate(), None);
}
