use epson_bridge::config::{
    find_serial_port, parse_http_port, parse_timeout, Config, ConfigError, DEFAULT_HTTP_PORT,
    DEFAULT_TIMEOUT_SECS,
};
use std::time::Duration;

fn text(value: &str) -> Option<String> {
    Some(value.to_string())
}

fn ports(names: &[&str]) -> Vec<String> {
    names.iter().map(|n| n.to_string()).collect()
}

#[test]
fn http_port_defaults_and_parses() {
    assert_eq!(DEFAULT_HTTP_PORT, 8080);
    assert_eq!(parse_http_port(None), Ok(8080));
    assert_eq!(parse_http_port(text("80")), Ok(80));
    assert_eq!(parse_http_port(text("+443")), Ok(443));
    assert_eq!(parse_http_port(text("0")), Ok(0));
    assert_eq!(parse_http_port(text("00080")), Ok(80));
    assert_eq!(parse_http_port(text("65535")), Ok(65535));
}

#[test]
fn http_port_rejects_what_is_no_port() {
    for bad in ["", "+", "65536", "-1", "80 ", " 80", "8o", "0x50", "++1", "1+", "99999999999999999999999"] {
        assert_eq!(parse_http_port(text(bad)), Err(ConfigError::InvalidHttpPort(bad.to_string())));
        assert!(bad.parse::<u16>().is_err());
    }
}

#[test]
fn numbers_are_read_as_the_standard_library_reads_them() {
    for value in ["0", "7", "+7", "007", "65535", "65536", "", "+", "-", "-0", "1e3", "12a", "\u{663}"] {
        assert_eq!(parse_http_port(text(value)).ok(), value.parse::<u16>().ok());
        assert_eq!(parse_timeout(text(value)).ok(), value.parse::<u64>().ok());
    }
}

#[test]
fn timeout_defaults_and_parses() {
    assert_eq!(DEFAULT_TIMEOUT_SECS, 3);
    assert_eq!(parse_timeout(None), Ok(3));
    assert_eq!(parse_timeout(text("10")), Ok(10));
    assert_eq!(parse_timeout(text("18446744073709551615")), Ok(u64::MAX));
    assert_eq!(
        parse_timeout(text("18446744073709551616")),
        Err(ConfigError::InvalidTimeout("18446744073709551616".to_string()))
    );
    assert_eq!(parse_timeout(text("soon")), Err(ConfigError::InvalidTimeout("soon".to_string())));
}

#[test]
fn a_configured_serial_port_is_taken_as_it_is() {
    assert_eq!(find_serial_port(text("/dev/ttyUSB7"), &ports(&[])), Ok("/dev/ttyUSB7".to_string()));
    assert_eq!(
        find_serial_port(text("/dev/ttyAMA0"), &ports(&["/dev/ttyUSB0", "/dev/ttyUSB1"])),
        Ok("/dev/ttyAMA0".to_string())
    );
}

#[test]
fn the_only_candidate_is_found() {
    assert_eq!(find_serial_port(None, &ports(&["/dev/ttyUSB0"])), Ok("/dev/ttyUSB0".to_string()));
    assert_eq!(
        find_serial_port(None, &ports(&["/dev/ttyAMA0", "/dev/ttyUSB0"])),
        Ok("/dev/ttyUSB0".to_string())
    );
    assert_eq!(
        find_serial_port(None, &ports(&["/dev/ttyUSB0", "/dev/ttyAMA0", "/dev/ttyAMA0"])),
        Ok("/dev/ttyUSB0".to_string())
    );
}

#[test]
fn no_candidate_and_several_candidates_are_errors() {
    assert_eq!(find_serial_port(None, &ports(&[])), Err(ConfigError::NoSerialPort));
    assert_eq!(find_serial_port(None, &ports(&["/dev/ttyAMA0"])), Err(ConfigError::NoSerialPort));
    assert_eq!(
        find_serial_port(None, &ports(&["/dev/ttyUSB0", "/dev/ttyUSB1"])),
        Err(ConfigError::MultipleSerialPorts)
    );
    assert_eq!(
        find_serial_port(None, &ports(&["/dev/ttyUSB0", "/dev/ttyAMA0", "/dev/ttyUSB0"])),
        Err(ConfigError::MultipleSerialPorts)
    );
}

#[test]
fn config_from_defaults() {
    let config = Config::new(None, None, None, &ports(&["/dev/ttyUSB0"])).unwrap();
    assert_eq!(config.http_port, 8080);
    assert_eq!(config.serial_port, "/dev/ttyUSB0");
    assert_eq!(config.read_timeout, Duration::from_secs(3));
}

#[test]
fn config_from_settings() {
    let config = Config::new(text("9000"), text("12"), text("/dev/ttyS1"), &ports(&[])).unwrap();
    assert_eq!(config.http_port, 9000);
    assert_eq!(config.serial_port, "/dev/ttyS1");
    assert_eq!(config.read_timeout, Duration::from_secs(12));
    assert_eq!(config.read_timeout.subsec_nanos(), 0);
}

#[test]
fn config_reports_the_first_fault() {
    let none = ports(&[]);
    assert_eq!(
        Config::new(text("x"), text("y"), None, &none).err(),
        Some(ConfigError::InvalidHttpPort("x".to_string()))
    );
    assert_eq!(
        Config::new(text("1"), text("y"), None, &none).err(),
        Some(ConfigError::InvalidTimeout("y".to_string()))
    );
    assert_eq!(Config::new(text("1"), text("2"), None, &none).err(), Some(ConfigError::NoSerialPort));
}
