use natpmp_async::{
    check_sent, decode_response, port_mapping_request, public_address_request, Error,
    GatewayResponse, MappingResponse, Protocol, RecvEvent, RecvRetry, RecvStep, Response,
    NATPMP_MAX_ATTEMPS,
};

fn area(bytes: &[u8]) -> [u8; 16] {
    let mut buf = [0u8; 16];
    buf[..bytes.len()].copy_from_slice(bytes);
    buf
}

fn reply_with_code(opcode: u8, code: u16) -> [u8; 16] {
    area(&[0, opcode, (code >> 8) as u8, (code & 0xff) as u8, 0, 0, 0, 1])
}

#[test]
fn public_address_request_is_two_zero_bytes() {
    assert_eq!(public_address_request(), [0u8, 0u8]);
}

#[test]
fn udp_mapping_request_layout() {
    let r = port_mapping_request(Protocol::UDP, 0x1234, 0xabcd, 7200);
    assert_eq!(r, [0, 1, 0, 0, 0x12, 0x34, 0xab, 0xcd, 0, 0, 0x1c, 0x20]);
}

#[test]
fn tcp_mapping_request_layout() {
    let r = port_mapping_request(Protocol::TCP, 80, 8080, 0x0102_0304);
    assert_eq!(r, [0, 2, 0, 0, 0, 80, 0x1f, 0x90, 1, 2, 3, 4]);
}

#[test]
fn mapping_request_extremes() {
    let r = port_mapping_request(Protocol::UDP, u16::MAX, 0, u32::MAX);
    assert_eq!(r, [0, 1, 0, 0, 0xff, 0xff, 0, 0, 0xff, 0xff, 0xff, 0xff]);
}

#[test]
fn mapping_request_fields_read_back() {
    let r = port_mapping_request(Protocol::TCP, 51413, 6881, 3600);
    assert_eq!(u16::from_be_bytes([r[4], r[5]]), 51413);
    assert_eq!(u16::from_be_bytes([r[6], r[7]]), 6881);
    assert_eq!(u32::from_be_bytes([r[8], r[9], r[10], r[11]]), 3600);
}

#[test]
fn gateway_reply_decodes() {
    let buf = area(&[0, 128, 0, 0, 0, 0, 0x0e, 0x10, 192, 168, 1, 10]);
    assert_eq!(
        decode_response(&buf),
        Ok(Response::Gateway(GatewayResponse { epoch: 3600, public_address: 0xc0a8_010a }))
    );
}

#[test]
fn gateway_reply_ignores_trailing_bytes() {
    let mut buf = area(&[0, 128, 0, 0, 0x01, 0x02, 0x03, 0x04, 10, 0, 0, 1]);
    buf[12..].copy_from_slice(&[9, 9, 9, 9]);
    assert_eq!(
        decode_response(&buf),
        Ok(Response::Gateway(GatewayResponse { epoch: 0x0102_0304, public_address: 0x0a00_0001 }))
    );
}

#[test]
fn udp_mapping_reply_decodes() {
    let buf = area(&[0, 129, 0, 0, 0, 0, 0, 42, 0x1f, 0x90, 0x23, 0x28, 0, 0, 0x1c, 0x20]);
    let m = MappingResponse { epoch: 42, private_port: 8080, public_port: 9000, lifetime: 7200 };
    assert_eq!(decode_response(&buf), Ok(Response::UDP(m)));
}

#[test]
fn tcp_mapping_reply_decodes() {
    let buf = area(&[0, 130, 0, 0, 0xff, 0xff, 0xff, 0xff, 0, 22, 0xff, 0xff, 0, 1, 0, 0]);
    let m = MappingResponse {
        epoch: u32::MAX,
        private_port: 22,
        public_port: u16::MAX,
        lifetime: 65536,
    };
    assert_eq!(decode_response(&buf), Ok(Response::TCP(m)));
}

#[test]
fn result_codes_map_to_errors() {
    let expected = [
        (1u16, Error::NATPMP_ERR_UNSUPPORTEDVERSION),
        (2, Error::NATPMP_ERR_NOTAUTHORIZED),
        (3, Error::NATPMP_ERR_NETWORKFAILURE),
        (4, Error::NATPMP_ERR_OUTOFRESOURCES),
        (5, Error::NATPMP_ERR_UNSUPPORTEDOPCODE),
        (6, Error::NATPMP_ERR_UNDEFINEDERROR),
        (256, Error::NATPMP_ERR_UNDEFINEDERROR),
        (u16::MAX, Error::NATPMP_ERR_UNDEFINEDERROR),
    ];
    for opcode in [128u8, 129, 130] {
        for (code, err) in expected {
            assert_eq!(decode_response(&reply_with_code(opcode, code)), Err(err));
        }
    }
}

#[test]
fn nonzero_version_is_unsupported() {
    for version in [1u8, 2, 0x80, 0xff] {
        for opcode in [0u8, 128, 129, 130, 200] {
            for code in [0u16, 3, 77] {
                let mut buf = reply_with_code(opcode, code);
                buf[0] = version;
                assert_eq!(decode_response(&buf), Err(Error::NATPMP_ERR_UNSUPPORTEDVERSION));
            }
        }
    }
}

#[test]
fn opcode_outside_reply_range_is_unsupported() {
    for opcode in [0u8, 1, 2, 127, 131, 255] {
        for code in [0u16, 2, 9] {
            assert_eq!(
                decode_response(&reply_with_code(opcode, code)),
                Err(Error::NATPMP_ERR_UNSUPPORTEDOPCODE)
            );
        }
    }
}

#[test]
fn retry_gives_up_after_max_failures() {
    let mut retry = RecvRetry::new();
    for _ in 1..NATPMP_MAX_ATTEMPS {
        assert!(matches!(retry.on_event(RecvEvent::Failed), RecvStep::Receive));
    }
    assert!(matches!(
        retry.on_event(RecvEvent::Failed),
        RecvStep::Done(Err(Error::NATPMP_ERR_RECVFROM))
    ));
}

#[test]
fn retry_returns_first_datagram() {
    let buf = area(&[0, 128, 0, 0, 0, 0, 0, 7, 1, 2, 3, 4]);
    let mut retry = RecvRetry::new();
    assert!(matches!(retry.on_event(RecvEvent::Failed), RecvStep::Receive));
    assert!(matches!(retry.on_event(RecvEvent::Failed), RecvStep::Receive));
    match retry.on_event(RecvEvent::Received(buf)) {
        RecvStep::Done(r) => assert_eq!(
            r,
            Ok(Response::Gateway(GatewayResponse { epoch: 7, public_address: 0x0102_0304 }))
        ),
        RecvStep::Receive => panic!("a datagram must end the loop"),
    }
}

#[test]
fn retry_accepts_datagram_on_last_attempt() {
    let buf = area(&[0, 129, 0, 0, 0, 0, 0, 1, 0, 80, 0, 81, 0, 0, 0, 60]);
    let mut retry = RecvRetry::new();
    for _ in 1..NATPMP_MAX_ATTEMPS {
        assert!(matches!(retry.on_event(RecvEvent::Failed), RecvStep::Receive));
    }
    let m = MappingResponse { epoch: 1, private_port: 80, public_port: 81, lifetime: 60 };
    assert!(matches!(
        retry.on_event(RecvEvent::Received(buf)),
        RecvStep::Done(Ok(Response::UDP(got))) if got == m
    ));
}

#[test]
fn retry_does_not_retry_decode_errors() {
    let mut retry = RecvRetry::new();
    let buf = reply_with_code(128, 2);
    assert!(matches!(
        retry.on_event(RecvEvent::Received(buf)),
        RecvStep::Done(Err(Error::NATPMP_ERR_NOTAUTHORIZED))
    ));
}

#[test]
fn send_outcome_checks_length() {
    assert_eq!(check_sent(&Ok(12), 12), Ok(()));
    assert_eq!(check_sent(&Ok(2), 2), Ok(()));
    assert_eq!(check_sent(&Ok(1), 2), Err(Error::NATPMP_ERR_NETWORKFAILURE));
    assert_eq!(check_sent(&Ok(0), 12), Err(Error::NATPMP_ERR_NETWORKFAILURE));
    let failed = Err(std::io::Error::new(std::io::ErrorKind::Other, "unreachable"));
    assert_eq!(check_sent(&failed, 2), Err(Error::NATPMP_ERR_NETWORKFAILURE));
}
