use powerhouse::network::{order_interfaces, NetworkInterface};
use powerhouse::monitoring::list_interfaces;
use powerhouse::network::{
    parse_endpoint, parse_hex, parse_socket_line, AnalysisLimits, EndpointAddress, NetworkScan,
    SocketObservation, SocketProtocol,
};

#[test]
fn parses_ipv4_tcp_endpoint() {
    let endpoint = parse_endpoint("0100007F:1F90", SocketProtocol::Tcp).unwrap();
    assert_eq!(endpoint, (EndpointAddress::V4("127.0.0.1".to_owned()), 8080));
}

#[test]
fn parses_ipv6_tcp_endpoint_bytes() {
    let (address, port) =
        parse_endpoint("00000000000000000000000001000000:0016", SocketProtocol::Tcp6).unwrap();
    assert_eq!(port, 22);
    let mut bytes = vec![0u8; 16];
    bytes[12] = 1;
    assert_eq!(address, EndpointAddress::V6(bytes));
}

#[test]
fn malformed_endpoints_are_rejected() {
    assert_eq!(parse_endpoint("0100007F", SocketProtocol::Tcp), None);
    assert_eq!(parse_endpoint("100007F:1F90", SocketProtocol::Tcp), None);
    assert_eq!(parse_endpoint("0100007F:10000", SocketProtocol::Tcp), None);
    assert_eq!(parse_endpoint("0100007G:0001", SocketProtocol::Tcp), None);
    assert_eq!(parse_endpoint("0100007F:0001", SocketProtocol::Tcp6), None);
}

#[test]
fn hexadecimal_numbers_follow_from_str_radix() {
    for s in ["0", "ff", "FF", "+1f", "10000", "", "+", "-1", "g", "ffffffffffffffffff"] {
        assert_eq!(parse_hex(s, 0xffff), u16::from_str_radix(s, 16).ok().map(u64::from), "{s}");
        assert_eq!(parse_hex(s, 0xff), u8::from_str_radix(s, 16).ok().map(u64::from), "{s}");
    }
}

const LINE: &str =
    "   0: 0100007F:1F90 00000000:0000 0A 00000000:00000000 00:00000000 00000000  1000        0 1";

#[test]
fn socket_lines_are_read() {
    let socket = parse_socket_line(LINE, SocketProtocol::Tcp).unwrap();
    assert_eq!(socket.local_port, 8080);
    assert_eq!(socket.remote_address, EndpointAddress::V4("0.0.0.0".to_owned()));
    assert_eq!(socket.state, "0A");
    assert_eq!(socket.uid, 1000);
    assert!(parse_socket_line("  sl  local_address rem_address   st", SocketProtocol::Tcp).is_none());
}

fn observation(address: &str, port: u16, state: &str) -> SocketObservation {
    SocketObservation {
        protocol: SocketProtocol::Tcp,
        local_address: address.to_owned(),
        local_port: port,
        remote_address: "0.0.0.0".to_owned(),
        remote_port: 0,
        state: state.to_owned(),
        uid: 0,
    }
}

#[test]
fn listeners_are_ordered_by_port_then_address() {
    let limits = AnalysisLimits { max_sockets: 10, top_n: 2 };
    let mut scan = NetworkScan::new(limits);
    for o in [
        observation("10.0.0.1", 80, "0A"),
        observation("127.0.0.1", 22, "0A"),
        observation("0.0.0.0", 80, "0A"),
        observation("1.1.1.1", 443, "01"),
    ] {
        assert!(scan.may_continue());
        scan.keep(o);
    }
    scan.skip();
    let analysis = scan.finish();
    assert_eq!(analysis.sockets_scanned, 4);
    assert_eq!(analysis.skipped_entries, 1);
    assert_eq!(analysis.established_connections, 1);
    let ports: Vec<(u16, &str)> =
        analysis.listening_ports.iter().map(|s| (s.local_port, s.local_address.as_str())).collect();
    assert_eq!(ports, vec![(22, "127.0.0.1"), (80, "0.0.0.0")]);
    assert!(analysis.anomalies.is_empty());
}

#[test]
fn scans_stop_at_their_bound_and_report_anomalies() {
    let limits = AnalysisLimits { max_sockets: 2, top_n: 0 };
    let mut scan = NetworkScan::new(limits);
    scan.keep(observation("0.0.0.0", 0, "0A"));
    scan.keep(observation("1.2.3.4", 5, "01"));
    assert!(!scan.may_continue());
    let analysis = scan.finish();
    assert!(analysis.truncated);
    assert!(analysis.listening_ports.is_empty());
    assert!(analysis.anomalies.is_empty());

    let limits = AnalysisLimits { max_sockets: 100, top_n: 1 };
    let mut scan = NetworkScan::new(limits);
    scan.keep(observation("0.0.0.0", 0, "0A"));
    for _ in 0..11 {
        scan.keep(observation("1.2.3.4", 5, "01"));
    }
    let analysis = scan.finish();
    assert_eq!(analysis.anomalies.len(), 1);
    assert_eq!(analysis.anomalies[0].kind, "invalid-listener");
    assert_eq!(analysis.anomalies[0].description, "A listening socket reported port 0.");
    let limits = AnalysisLimits { max_sockets: 100, top_n: 5 };
    let mut scan = NetworkScan::new(limits);
    for _ in 0..51 {
        scan.keep(observation("1.2.3.4", 5, "01"));
    }
    let analysis = scan.finish();
    assert_eq!(
        analysis.anomalies[0].description,
        "Observed 51 established TCP connections in the bounded scan."
    );
}

#[test]
fn interfaces_are_listed_and_ordered_by_name() {
    let content = "h1\nh2\n eth0: 1 0 0 0 0 0 0 0 2\n  lo: 3 0 0 0 0 0 0 0 4\n";
    let entries = list_interfaces(content);
    assert_eq!(entries.len(), 2);
    assert_eq!(entries[0].0, "eth0");
    let interfaces: Vec<NetworkInterface> = entries
        .iter()
        .map(|(name, c)| NetworkInterface { name: name.clone(), is_up: true, rx_bytes: c.rx, tx_bytes: c.tx })
        .rev()
        .collect();
    let ordered = order_interfaces(&interfaces);
    let names: Vec<&str> = ordered.iter().map(|i| i.name.as_str()).collect();
    assert_eq!(names, vec!["eth0", "lo"]);
}
