use freighter::endpoint::{Endpoint, IpAddress};
use freighter::socks5::{
    decode_greeting, decode_request, method_reply, success_reply, GreetingOutcome, RequestOutcome,
    Socks5Error, Socks5MidHandshake,
};

#[test]
fn socks5_ipv4_connect() {
    // greeting: version 5, one method, no-auth
    let greeting = vec![0x05u8, 0x01, 0x00];
    match decode_greeting(&greeting) {
        GreetingOutcome::Accepted(consumed) => assert_eq!(consumed, 3),
        other => panic!("greeting not accepted: {:?}", other),
    }
    assert_eq!(method_reply(), vec![0x05u8, 0x00]);

    // request: CONNECT 127.0.0.1:80
    let request = vec![0x05u8, 0x01, 0x00, 0x01, 0x7F, 0x00, 0x00, 0x01, 0x00, 0x50];
    match decode_request(&request) {
        RequestOutcome::Accepted(ep, consumed) => {
            assert_eq!(consumed, 10);
            match ep {
                Endpoint::Ip(sa) => {
                    assert_eq!(sa.port, 80);
                    match sa.ip {
                        IpAddress::V4(b) => assert_eq!(b, [127, 0, 0, 1]),
                        _ => panic!("expected an IPv4 address"),
                    }
                }
                _ => panic!("expected an Ip endpoint"),
            }
        }
        other => panic!("request not accepted: {:?}", other),
    }
    assert_eq!(
        success_reply(),
        vec![0x05u8, 0x00, 0x00, 0x01, 0x00, 0x00, 0x00, 0x00, 0x00, 0x00]
    );
}

#[test]
fn socks5_domain_connect() {
    let mut request = vec![0x05u8, 0x01, 0x00, 0x03, 0x0B];
    request.extend_from_slice(b"example.com");
    request.extend_from_slice(&[0x01, 0xBB]);
    match decode_request(&request) {
        RequestOutcome::Accepted(ep, consumed) => {
            assert_eq!(consumed, 18);
            match ep {
                Endpoint::HostName(host, port) => {
                    assert_eq!(host, "example.com");
                    assert_eq!(port, 443);
                }
                _ => panic!("expected a HostName endpoint"),
            }
        }
        other => panic!("request not accepted: {:?}", other),
    }
}

#[test]
fn socks5_rejected_version() {
    let greeting = vec![0x04u8, 0x01, 0x00];
    match decode_greeting(&greeting) {
        GreetingOutcome::Rejected(e) => assert_eq!(e, Socks5Error::UnsupportedVersion),
        other => panic!("expected rejection: {:?}", other),
    }
}

#[test]
fn socks5_ipv6_connect() {
    let mut request = vec![0x05u8, 0x01, 0x00, 0x04];
    let addr: [u8; 16] = [0, 0, 0, 0, 0, 0, 0, 0, 0, 0, 0, 0, 0, 0, 0, 1];
    request.extend_from_slice(&addr);
    request.extend_from_slice(&[0x1F, 0x90]); // 8080
    match decode_request(&request) {
        RequestOutcome::Accepted(ep, consumed) => {
            assert_eq!(consumed, 22);
            match ep {
                Endpoint::Ip(sa) => {
                    assert_eq!(sa.port, 8080);
                    match sa.ip {
                        IpAddress::V6(b) => assert_eq!(b, addr),
                        _ => panic!("expected an IPv6 address"),
                    }
                }
                _ => panic!("expected an Ip endpoint"),
            }
        }
        other => panic!("request not accepted: {:?}", other),
    }
}

#[test]
fn socks5_port_is_big_endian() {
    // port bytes 0x01 0xBB decode to 443 = 1 * 256 + 187
    let request = vec![0x05u8, 0x01, 0x00, 0x01, 10, 0, 0, 1, 0x01, 0xBB];
    match decode_request(&request) {
        RequestOutcome::Accepted(ep, _) => assert_eq!(ep.port(), 443),
        other => panic!("request not accepted: {:?}", other),
    }
}

#[test]
fn socks5_greeting_incomplete() {
    assert!(matches!(
        decode_greeting(&vec![]),
        GreetingOutcome::Incomplete(2)
    ));
    assert!(matches!(
        decode_greeting(&vec![0x05u8]),
        GreetingOutcome::Incomplete(2)
    ));
    // two methods announced, only one present
    assert!(matches!(
        decode_greeting(&vec![0x05u8, 0x02, 0x00]),
        GreetingOutcome::Incomplete(4)
    ));
}

#[test]
fn socks5_zero_methods() {
    match decode_greeting(&vec![0x05u8, 0x00]) {
        GreetingOutcome::Rejected(e) => assert_eq!(e, Socks5Error::InvalidMethodCount),
        other => panic!("expected rejection: {:?}", other),
    }
}

#[test]
fn socks5_no_auth_method_missing() {
    match decode_greeting(&vec![0x05u8, 0x02, 0x01, 0x02]) {
        GreetingOutcome::Rejected(e) => assert_eq!(e, Socks5Error::UnsupportedAuthMethod),
        other => panic!("expected rejection: {:?}", other),
    }
}

#[test]
fn socks5_request_rejections() {
    match decode_request(&vec![0x04u8, 0x01, 0x00, 0x01]) {
        RequestOutcome::Rejected(e) => assert_eq!(e, Socks5Error::UnsupportedVersion),
        other => panic!("expected rejection: {:?}", other),
    }
    // BIND is not implemented
    match decode_request(&vec![0x05u8, 0x02, 0x00, 0x01]) {
        RequestOutcome::Rejected(e) => assert_eq!(e, Socks5Error::UnsupportedCommand),
        other => panic!("expected rejection: {:?}", other),
    }
    match decode_request(&vec![0x05u8, 0x01, 0x00, 0x09]) {
        RequestOutcome::Rejected(e) => assert_eq!(e, Socks5Error::UnsupportedAddressType),
        other => panic!("expected rejection: {:?}", other),
    }
}

#[test]
fn socks5_request_incomplete() {
    assert!(matches!(
        decode_request(&vec![0x05u8, 0x01, 0x00]),
        RequestOutcome::Incomplete(4)
    ));
    assert!(matches!(
        decode_request(&vec![0x05u8, 0x01, 0x00, 0x03]),
        RequestOutcome::Incomplete(5)
    ));
    // domain of length 4: 5 header bytes + 4 + 2 port bytes
    assert!(matches!(
        decode_request(&vec![0x05u8, 0x01, 0x00, 0x03, 0x04, b'h']),
        RequestOutcome::Incomplete(11)
    ));
    assert!(matches!(
        decode_request(&vec![0x05u8, 0x01, 0x00, 0x01, 1, 2, 3]),
        RequestOutcome::Incomplete(10)
    ));
}

#[test]
fn socks5_empty_domain_and_zero_port() {
    // a zero-length domain and a zero port are on-wire representable and
    // decode exactly as sent
    let request = vec![0x05u8, 0x01, 0x00, 0x03, 0x00, 0x00, 0x00];
    match decode_request(&request) {
        RequestOutcome::Accepted(ep, consumed) => {
            assert_eq!(consumed, 7);
            match ep {
                Endpoint::HostName(host, port) => {
                    assert_eq!(host, "");
                    assert_eq!(port, 0);
                }
                _ => panic!("expected a HostName endpoint"),
            }
        }
        other => panic!("request not accepted: {:?}", other),
    }
}

#[test]
fn socks5_domain_not_utf8() {
    let request = vec![0x05u8, 0x01, 0x00, 0x03, 0x02, 0xFF, 0xFE, 0x00, 0x50];
    assert!(matches!(
        decode_request(&request),
        RequestOutcome::DomainNotUtf8
    ));
}

#[test]
fn socks5_surplus_bytes_belong_to_tunnel() {
    // the client pipelined tunnel payload after the request
    let mut request = vec![0x05u8, 0x01, 0x00, 0x01, 127, 0, 0, 1, 0x00, 0x50];
    request.extend_from_slice(b"early payload");
    match decode_request(&request) {
        RequestOutcome::Accepted(ep, consumed) => {
            assert_eq!(consumed, 10);
            let residue = request[consumed..].to_vec();
            let mid = Socks5MidHandshake::new(ep, residue);
            assert_eq!(mid.residue, b"early payload");
            // target_endpoint is idempotent: any number of reads agree
            let first = mid.target_endpoint().port();
            let second = mid.target_endpoint().port();
            assert_eq!(first, 80);
            assert_eq!(second, 80);
        }
        other => panic!("request not accepted: {:?}", other),
    }
}
