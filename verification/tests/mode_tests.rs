use storm_grok::mode::Mode;

#[test]
fn mode_byte_t_selects_tcp() {
    assert_eq!(Mode::from_byte(0x74), Mode::Tcp);
    assert_eq!(Mode::from(116u8), Mode::Tcp);
}

#[test]
fn every_other_mode_byte_selects_http() {
    for b in 0u8..=255 {
        if b != 0x74 {
            assert_eq!(Mode::from_byte(b), Mode::Http);
        }
    }
}

#[test]
fn mode_bytes_are_t_and_h() {
    assert_eq!(Mode::Tcp.to_byte(), b't');
    assert_eq!(Mode::Http.to_byte(), b'h');
    assert_eq!(Mode::from_byte(Mode::Tcp.to_byte()), Mode::Tcp);
    assert_eq!(Mode::from_byte(Mode::Http.to_byte()), Mode::Http);
}

#[test]
fn mode_converts_to_its_one_byte() {
    assert_eq!(<[u8; 1]>::from(Mode::Tcp), [116u8]);
    assert_eq!(<[u8; 1]>::from(Mode::Http), [104u8]);
}
