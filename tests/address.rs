use ads_client::{parse_net_id, parse_port_open_reply, port_open_request, ERR_INTERNAL, ERR_PORTDISABLED};

#[test]
fn net_id_parses() {
    assert_eq!(parse_net_id("5.80.201.232.1.1").unwrap(), [5, 80, 201, 232, 1, 1]);
    assert_eq!(parse_net_id("0.0.0.0.255.255").unwrap(), [0, 0, 0, 0, 255, 255]);
    assert_eq!(parse_net_id("+5.080.201.232.1.1").unwrap(), [5, 80, 201, 232, 1, 1]);
}

#[test]
fn malformed_net_id_is_internal_error() {
    for bad in [
        "5.80.201.x.1.1",
        "5.80.201.232.1",
        "5.80.201.232.1.1.1",
        "5.80.201.256.1.1",
        "5.80..232.1.1",
        "",
        "5.80.201.232.1.",
        "+.80.201.232.1.1",
        "-5.80.201.232.1.1",
        "5.80.201.232.1.1 ",
    ] {
        assert_eq!(parse_net_id(bad).unwrap_err().n_error, ERR_INTERNAL, "{}", bad);
    }
}

#[test]
fn handshake_request_bytes() {
    assert_eq!(port_open_request(), [0x00, 0x10, 0x02, 0x00, 0x00, 0x00, 0x00, 0x00]);
}

#[test]
fn handshake_reply_gives_source_address() {
    let reply = [0, 0, 8, 0, 0, 0, 192, 168, 0, 10, 1, 1, 0x2B, 0x80];
    let a = parse_port_open_reply(&reply).unwrap();
    assert_eq!(a.net_id, [192, 168, 0, 10, 1, 1]);
    assert_eq!(a.port, 0x802B);
}

#[test]
fn handshake_reply_of_wrong_length_is_port_disabled() {
    let reply = [0u8; 15];
    assert_eq!(parse_port_open_reply(&reply).unwrap_err().n_error, ERR_PORTDISABLED);
    assert_eq!(parse_port_open_reply(&reply[..13]).unwrap_err().n_error, ERR_PORTDISABLED);
    assert_eq!(parse_port_open_reply(&[]).unwrap_err().n_error, ERR_PORTDISABLED);
}
