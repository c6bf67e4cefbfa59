use p4rti::resolve::{lookup_query, resolve, IpAddress, ResolutionError, ResolvedTarget};

#[test]
fn lookup_query_adds_the_port_placeholder() {
    assert_eq!(lookup_query("127.0.0.1"), Ok("127.0.0.1:0".to_string()));
    assert_eq!(lookup_query("localhost"), Ok("localhost:0".to_string()));
    assert_eq!(lookup_query("::1"), Ok("::1:0".to_string()));
    assert_eq!(lookup_query("x"), Ok("x:0".to_string()));
}

#[test]
fn lookup_query_keeps_non_ascii_targets() {
    assert_eq!(lookup_query("b\u{fc}cher.example"), Ok("b\u{fc}cher.example:0".to_string()));
}

#[test]
fn lookup_query_refuses_an_empty_target() {
    assert_eq!(lookup_query(""), Err(ResolutionError::EmptyTarget));
}

#[test]
fn resolve_takes_the_first_address() {
    let answer = vec![IpAddress::V6(1), IpAddress::V4(0x7f00_0001), IpAddress::V4(0x0a00_0001)];
    assert_eq!(resolve(Some(answer)), Ok(ResolvedTarget { address: IpAddress::V6(1) }));
    let single = vec![IpAddress::V4(0xc0a8_0001)];
    assert_eq!(resolve(Some(single)), Ok(ResolvedTarget { address: IpAddress::V4(0xc0a8_0001) }));
}

#[test]
fn resolve_fails_on_an_empty_answer() {
    assert_eq!(resolve(Some(Vec::new())), Err(ResolutionError::NoAddresses));
}

#[test]
fn resolve_fails_on_a_failed_lookup() {
    assert_eq!(resolve(None), Err(ResolutionError::LookupFailed));
}

#[test]
fn resolution_errors_describe_themselves() {
    assert_eq!(ResolutionError::EmptyTarget.message(), "The target is empty");
    assert_eq!(ResolutionError::LookupFailed.message(), "The target could not be resolved");
    assert_eq!(ResolutionError::NoAddresses.message(), "Socket_addresses list is empty");
}
