use freighter::connector::first_address;
use freighter::endpoint::{Endpoint, IpAddress, SocketAddress};
use freighter::resolver::{pair_with_port, resolve_endpoint_plan, ResolutionPlan};
use freighter::router::{select_route, RouteError};
use freighter::session::Session;

#[test]
fn route_picks_first_success() {
    assert_eq!(select_route(&vec![false, true, true]), Ok(1));
    assert_eq!(select_route(&vec![true, false]), Ok(0));
}

#[test]
fn route_fails_when_all_fail() {
    assert_eq!(
        select_route(&vec![false, false]),
        Err(RouteError::NoRouteToDestination)
    );
    assert_eq!(select_route(&vec![]), Err(RouteError::NoRouteToDestination));
}

#[test]
fn resolve_ip_endpoint_is_ready() {
    let sa = SocketAddress {
        ip: IpAddress::V4([127, 0, 0, 1]),
        port: 8080,
    };
    match resolve_endpoint_plan(&Endpoint::Ip(sa)) {
        ResolutionPlan::Ready(addrs) => {
            assert_eq!(addrs.len(), 1);
            assert_eq!(addrs[0].port, 8080);
            match addrs[0].ip {
                IpAddress::V4(b) => assert_eq!(b, [127, 0, 0, 1]),
                _ => panic!("expected an IPv4 address"),
            }
        }
        _ => panic!("an Ip endpoint needs no lookup"),
    }
}

#[test]
fn resolve_hostname_endpoint_needs_lookup() {
    match resolve_endpoint_plan(&Endpoint::HostName("example.com".to_string(), 443)) {
        ResolutionPlan::Lookup(host, port) => {
            assert_eq!(host, "example.com");
            assert_eq!(port, 443);
        }
        _ => panic!("a HostName endpoint needs a lookup"),
    }
}

#[test]
fn resolved_addresses_are_paired_with_port() {
    let ips = vec![IpAddress::V4([1, 2, 3, 4]), IpAddress::V4([5, 6, 7, 8])];
    let addrs = pair_with_port(&ips, 443);
    assert_eq!(addrs.len(), 2);
    assert!(addrs.iter().all(|a| a.port == 443));
    match (addrs[0].ip, addrs[1].ip) {
        (IpAddress::V4(a), IpAddress::V4(b)) => {
            assert_eq!(a, [1, 2, 3, 4]);
            assert_eq!(b, [5, 6, 7, 8]);
        }
        _ => panic!("expected IPv4 addresses"),
    }
}

#[test]
fn connector_dials_first_address() {
    let addrs = vec![
        SocketAddress {
            ip: IpAddress::V4([1, 1, 1, 1]),
            port: 80,
        },
        SocketAddress {
            ip: IpAddress::V4([2, 2, 2, 2]),
            port: 80,
        },
    ];
    match first_address(&addrs) {
        Some(a) => match a.ip {
            IpAddress::V4(b) => assert_eq!(b, [1, 1, 1, 1]),
            _ => panic!("expected an IPv4 address"),
        },
        None => panic!("addresses were available"),
    }
    assert!(first_address(&Vec::new()).is_none());
}

#[test]
fn new_session_has_no_endpoint() {
    let s = Session::new();
    assert!(s.endpoint.is_none());
}

#[test]
fn endpoint_constructors() {
    let ep = Endpoint::new_from_hostname("example.com", 443);
    match &ep {
        Endpoint::HostName(h, p) => {
            assert_eq!(h, "example.com");
            assert_eq!(*p, 443);
        }
        _ => panic!("expected a HostName endpoint"),
    }
    assert_eq!(ep.port(), 443);

    let sa = SocketAddress {
        ip: IpAddress::V6([0; 16]),
        port: 53,
    };
    let ep = Endpoint::new_from_addr(sa);
    assert_eq!(ep.port(), 53);
}
