use visual_check::endpoint::driver_url;

#[test]
fn driver_url_names_loopback_and_port() {
    assert_eq!(driver_url(4444), "http://127.0.0.1:4444");
    assert_eq!(driver_url(0), "http://127.0.0.1:0");
    assert_eq!(driver_url(7), "http://127.0.0.1:7");
    assert_eq!(driver_url(10), "http://127.0.0.1:10");
    assert_eq!(driver_url(100), "http://127.0.0.1:100");
    assert_eq!(driver_url(1009), "http://127.0.0.1:1009");
    assert_eq!(driver_url(40_000), "http://127.0.0.1:40000");
    assert_eq!(driver_url(u16::MAX), "http://127.0.0.1:65535");
}

#[test]
fn driver_url_agrees_with_the_standard_formatting() {
    for port in [1u16, 9, 11, 99, 101, 999, 1_000, 9_999, 10_000, 12_345, 65_534] {
        assert_eq!(driver_url(port), format!("http://127.0.0.1:{}", port));
    }
}
