use storm_grok::error::ErrorKind;
use storm_grok::handshake::{
    encode_request, encode_response, heartbeat_payload, is_heartbeat, parse_request,
    parse_response, Endpoint, HEARTBEAT_INTERVAL_SECS, MAX_REQUEST_LEN, MAX_RESPONSE_LEN,
    MAX_UNI_PAYLOAD_LEN,
};
use storm_grok::mode::Mode;
use storm_grok::tunnel_id::TunnelId;

#[test]
fn request_is_mode_byte_then_token() {
    assert_eq!(encode_request(Mode::Tcp, b"abc"), b"tabc".to_vec());
    assert_eq!(encode_request(Mode::Http, b"abc"), b"habc".to_vec());
    assert_eq!(encode_request(Mode::Http, b""), b"h".to_vec());
}

#[test]
fn request_parses_back() {
    let request = parse_request(&encode_request(Mode::Tcp, b"a.b.c")).unwrap();
    assert_eq!(request.mode, Mode::Tcp);
    assert_eq!(request.token, b"a.b.c".to_vec());
    let request = parse_request(b"x").unwrap();
    assert_eq!(request.mode, Mode::Http);
    assert_eq!(request.token, Vec::<u8>::new());
}

#[test]
fn empty_request_is_malformed() {
    assert_eq!(parse_request(b"").err(), Some(ErrorKind::HandshakeMalformed));
}

#[test]
fn request_over_limit_is_malformed() {
    let at_limit = vec![b't'; MAX_REQUEST_LEN];
    assert!(parse_request(&at_limit).is_ok());
    let over = vec![b't'; MAX_REQUEST_LEN + 1];
    assert_eq!(parse_request(&over).err(), Some(ErrorKind::HandshakeMalformed));
}

#[test]
fn limits_are_as_documented() {
    assert_eq!(MAX_REQUEST_LEN, 8192);
    assert_eq!(MAX_RESPONSE_LEN, 16);
    assert_eq!(MAX_UNI_PAYLOAD_LEN, 100);
    assert_eq!(HEARTBEAT_INTERVAL_SECS, 4);
}

#[test]
fn tcp_response_is_two_big_endian_bytes() {
    let id = TunnelId::new(5);
    assert_eq!(encode_response(Mode::Tcp, 0x1f90, id), vec![0x1fu8, 0x90]);
    assert_eq!(encode_response(Mode::Tcp, 1025, id), 1025u16.to_be_bytes().to_vec());
    assert_eq!(encode_response(Mode::Tcp, 0, id), vec![0u8, 0]);
    assert_eq!(encode_response(Mode::Tcp, 65535, id), vec![0xffu8, 0xff]);
}

#[test]
fn http_response_is_the_sixteen_id_bytes() {
    let id = TunnelId::new(0x0102030405060708090a0b0c0d0e0f10);
    assert_eq!(
        encode_response(Mode::Http, 4040, id),
        vec![1u8, 2, 3, 4, 5, 6, 7, 8, 9, 10, 11, 12, 13, 14, 15, 16]
    );
}

#[test]
fn response_length_follows_the_mode_byte() {
    let id = TunnelId::new(99);
    for b in 0u8..=255 {
        let len = encode_response(Mode::from_byte(b), 3000, id).len();
        assert_eq!(len == 2, b == 0x74);
        assert_eq!(len == 16, b != 0x74);
    }
}

#[test]
fn response_parses_back() {
    let id = TunnelId::new(0xfeed_0000_0000_0000_0000_0000_0000_beef);
    assert_eq!(
        parse_response(Mode::Tcp, &encode_response(Mode::Tcp, 40404, id)),
        Ok(Endpoint::Port(40404))
    );
    assert_eq!(
        parse_response(Mode::Http, &encode_response(Mode::Http, 40404, id)),
        Ok(Endpoint::Tunnel(id))
    );
}

#[test]
fn response_of_wrong_length_is_malformed() {
    assert_eq!(parse_response(Mode::Tcp, &[0u8; 16]), Err(ErrorKind::HandshakeMalformed));
    assert_eq!(parse_response(Mode::Tcp, &[]), Err(ErrorKind::HandshakeMalformed));
    assert_eq!(parse_response(Mode::Http, &[0u8; 2]), Err(ErrorKind::HandshakeMalformed));
    assert_eq!(parse_response(Mode::Http, &[0u8; 15]), Err(ErrorKind::HandshakeMalformed));
}

#[test]
fn heartbeat_is_ping() {
    assert_eq!(heartbeat_payload(), b"ping".to_vec());
    assert!(is_heartbeat(b"ping"));
    assert!(!is_heartbeat(b"pong"));
    assert!(!is_heartbeat(b"pin"));
    assert!(!is_heartbeat(b"pings"));
    assert!(!is_heartbeat(b""));
}
