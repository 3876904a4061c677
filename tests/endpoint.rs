use chess_link::endpoint::{parse_endpoint, parse_port, EndpointError, ServerOrClient};

#[test]
fn port_alone_listens() {
    assert_eq!(parse_endpoint("9000"), Ok(ServerOrClient::Server(9000)));
    assert_eq!(parse_endpoint("+80"), Ok(ServerOrClient::Server(80)));
    assert_eq!(parse_endpoint("65535"), Ok(ServerOrClient::Server(65535)));
}

#[test]
fn host_and_port_connect() {
    assert_eq!(
        parse_endpoint("localhost:9000"),
        Ok(ServerOrClient::Client("localhost".to_string(), 9000))
    );
    assert_eq!(parse_endpoint(":7"), Ok(ServerOrClient::Client(String::new(), 7)));
    assert_eq!(parse_endpoint("h:1:2"), Ok(ServerOrClient::Client("h".to_string(), 1)));
}

#[test]
fn bad_ports_are_refused() {
    assert_eq!(parse_endpoint(""), Err(EndpointError::InvalidPort));
    assert_eq!(parse_endpoint("65536"), Err(EndpointError::InvalidPort));
    assert_eq!(parse_endpoint("a:b"), Err(EndpointError::InvalidPort));
    assert_eq!(parse_endpoint("host:"), Err(EndpointError::InvalidPort));
    assert_eq!(parse_endpoint("-1"), Err(EndpointError::InvalidPort));
}

#[test]
fn port_digits() {
    assert_eq!(parse_port("0"), Some(0));
    assert_eq!(parse_port("00080"), Some(80));
    assert_eq!(parse_port("+"), None);
    assert_eq!(parse_port("99999999999"), None);
    assert_eq!(parse_port("12a"), None);
}
