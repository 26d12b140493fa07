//! Process configuration: the rules by which the settings of the process
//! are read from the text of its environment and from the serial ports that
//! the machine offers.
//!
//! Nothing here reads the environment or the machine. The caller does, and
//! hands in what it found.

use std::time::Duration;
use vstd::prelude::*;
use vstd::string::{StringExecFns, StringSliceAdditionalSpecFns};

verus! {

/// The port of the HTTP server where none is configured.
pub const DEFAULT_HTTP_PORT: u16 = 8080;

/// The read timeout in seconds where none is configured.
pub const DEFAULT_TIMEOUT_SECS: u64 = 3;

/// The settings of the process.
pub struct Config {
    pub http_port: u16,
    pub serial_port: String,
    pub read_timeout: Duration,
}

/// Why the settings could not be made out.
#[derive(Debug, PartialEq, Eq)]
pub enum ConfigError {
    /// The configured HTTP port is no number that fits a port; holds the text.
    InvalidHttpPort(String),
    /// The configured timeout is no number of seconds that fits; holds the
    /// text.
    InvalidTimeout(String),
    /// No serial port is configured and the machine offers more than one.
    MultipleSerialPorts,
    /// No serial port is configured and the machine offers none.
    NoSerialPort,
}

/// The duration of a whole number of seconds.
pub uninterp spec fn duration_of_secs(secs: u64) -> Duration;

/// `Duration::from_secs`: the duration of `secs` whole seconds.
#[verifier::external_body]
fn duration_from_secs(secs: u64) -> (duration: Duration)
    ensures
        duration == duration_of_secs(secs),
{
    Duration::from_secs(secs)
}

// ---------------------------------------------------------------------------
// Decimal numbers
// ---------------------------------------------------------------------------
/// Whether a byte is an ASCII decimal digit.
pub open spec fn is_digit(byte: u8) -> bool {
    ('0' as u8) <= byte <= ('9' as u8)
}

/// Whether every byte is an ASCII decimal digit.
pub open spec fn all_digits(bytes: Seq<u8>) -> bool {
    forall|i: int| 0 <= i < bytes.len() ==> is_digit(#[trigger] bytes[i])
}

/// The number that decimal digits spell, most significant digit first.
pub open spec fn decimal_value(digits: Seq<u8>) -> nat
    decreases digits.len(),
{
    if digits.len() == 0 {
        0
    } else {
        (10 * decimal_value(digits.drop_last()) + (digits.last() - ('0' as u8))) as nat
    }
}

/// The digits of a number's text: the text without its plus sign, if it
/// begins with one.
pub open spec fn unsigned_digits(text: Seq<u8>) -> Seq<u8> {
    if text.len() > 0 && text[0] == ('+' as u8) {
        text.skip(1)
    } else {
        text
    }
}

/// The number up to `max` that a text spells: at least one decimal digit,
/// after at most one plus sign and with nothing else around, and a value that
/// does not exceed `max`. Any other text spells none.
pub open spec fn parse_unsigned(text: Seq<u8>, max: nat) -> Option<nat> {
    let digits = unsigned_digits(text);
    if digits.len() > 0 && all_digits(digits) && decimal_value(digits) <= max {
        Some(decimal_value(digits))
    } else {
        None
    }
}

/// A number's digits spell at least what any of their prefixes spells.
proof fn lemma_decimal_prefix(digits: Seq<u8>, len: int)
    requires
        0 <= len <= digits.len(),
        all_digits(digits),
    ensures
        decimal_value(digits.take(len)) <= decimal_value(digits),
    decreases digits.len() - len,
{
    if len == digits.len() {
        assert(digits.take(len) =~= digits);
    } else {
        lemma_decimal_prefix(digits, len + 1);
        let longer = digits.take(len + 1);
        assert(longer.drop_last() =~= digits.take(len));
        assert(longer.last() == digits[len]);
        assert(is_digit(digits[len]));
    }
}

/// The number up to `max` that `text` spells, if it spells one.
fn parse_number(text: &str, max: u64) -> (value: Option<u64>)
    ensures
        match value {
            Some(number) => parse_unsigned(text.spec_bytes(), max as nat) == Some(number as nat),
            None => parse_unsigned(text.spec_bytes(), max as nat) is None,
        },
{
    let bytes = text.as_bytes();
    let start: usize = if bytes.len() > 0 && bytes[0] == ('+' as u8) {
        1
    } else {
        0
    };
    let ghost digits = unsigned_digits(bytes@);
    proof {
        assert(bytes@.skip(0) =~= bytes@);
        assert(digits.take(0) =~= Seq::<u8>::empty());
    }
    if start == bytes.len() {
        return None;
    }
    let mut value: u64 = 0;
    let mut index: usize = start;
    while index < bytes.len()
        invariant
            start <= index <= bytes.len(),
            bytes@ == text.spec_bytes(),
            digits == unsigned_digits(bytes@),
            digits == bytes@.skip(start as int),
            all_digits(digits.take(index - start)),
            value == decimal_value(digits.take(index - start)),
            value <= max,
        decreases bytes.len() - index,
    {
        let byte = bytes[index];
        let ghost seen = digits.take(index - start);
        let ghost next = digits.take(index - start + 1);
        proof {
            assert(next.drop_last() =~= seen);
            assert(next.last() == byte);
        }
        if byte < ('0' as u8) || byte > ('9' as u8) {
            proof {
                assert(digits[index - start] == byte);
                assert(!is_digit(digits[index - start]));
            }
            return None;
        }
        let digit = (byte - ('0' as u8)) as u64;
        if value > max / 10 || digit > max - value * 10 {
            proof {
                assert(decimal_value(next) > max);
                if all_digits(digits) {
                    lemma_decimal_prefix(digits, index - start + 1);
                }
            }
            return None;
        }
        value = value * 10 + digit;
        proof {
            assert forall|i: int| 0 <= i < next.len() implies is_digit(#[trigger] next[i]) by {
                if i < seen.len() {
                    assert(next[i] == seen[i]);
                }
            }
        }
        index += 1;
    }
    proof {
        assert(digits.take(index - start) =~= digits);
    }
    Some(value)
}

// ---------------------------------------------------------------------------
// Settings
// ---------------------------------------------------------------------------
/// The name of the port that is never chosen by itself: the machine's own
/// console.
pub open spec fn reserved_port() -> Seq<char> {
    "/dev/ttyAMA0"@
}

/// Whether a port may be chosen: any but the reserved one.
pub open spec fn is_candidate() -> spec_fn(String) -> bool {
    |name: String| name@ != reserved_port()
}

/// The ports among which one is chosen: all that the machine offers but the
/// reserved one, in the order in which it offers them.
pub open spec fn candidates(available: Seq<String>) -> Seq<String> {
    available.filter(is_candidate())
}

/// The HTTP port that the configured text stands for: the default where
/// nothing is configured, and otherwise the number up to 65535 that the text
/// spells.
pub open spec fn http_port_of(configured: Option<String>) -> Result<u16, ConfigError> {
    match configured {
        None => Ok(DEFAULT_HTTP_PORT),
        Some(text) => match parse_unsigned(vstd::utf8::encode_utf8(text@), u16::MAX as nat) {
            Some(port) => Ok(port as u16),
            None => Err(ConfigError::InvalidHttpPort(text)),
        },
    }
}

/// The read timeout in seconds that the configured text stands for: the
/// default where nothing is configured, and otherwise the number that the
/// text spells.
pub open spec fn timeout_secs_of(configured: Option<String>) -> Result<u64, ConfigError> {
    match configured {
        None => Ok(DEFAULT_TIMEOUT_SECS),
        Some(text) => match parse_unsigned(vstd::utf8::encode_utf8(text@), u64::MAX as nat) {
            Some(secs) => Ok(secs as u64),
            None => Err(ConfigError::InvalidTimeout(text)),
        },
    }
}

/// The serial port to open: the configured one, and where none is configured
/// the one candidate that the machine offers. With several candidates, or
/// with none, there is no choice.
pub open spec fn serial_port_of(configured: Option<String>, available: Seq<String>) -> Result<
    String,
    ConfigError,
> {
    match configured {
        Some(name) => Ok(name),
        None => if candidates(available).len() == 0 {
            Err(ConfigError::NoSerialPort)
        } else if candidates(available).len() == 1 {
            Ok(candidates(available)[0])
        } else {
            Err(ConfigError::MultipleSerialPorts)
        },
    }
}

/// The settings that the configured texts and the offered ports stand for.
/// Where several of them are at fault, the error is that of the HTTP port
/// before that of the timeout, and that of the timeout before that of the
/// serial port.
pub open spec fn config_of(
    http_port: Option<String>,
    timeout: Option<String>,
    serial_port: Option<String>,
    available: Seq<String>,
) -> Result<Config, ConfigError> {
    match http_port_of(http_port) {
        Err(error) => Err(error),
        Ok(port) => match timeout_secs_of(timeout) {
            Err(error) => Err(error),
            Ok(secs) => match serial_port_of(serial_port, available) {
                Err(error) => Err(error),
                Ok(name) => Ok(
                    Config {
                        http_port: port,
                        serial_port: name,
                        read_timeout: duration_of_secs(secs),
                    },
                ),
            },
        },
    }
}

/// The HTTP port to listen on, from the text configured for it.
pub fn parse_http_port(configured: Option<String>) -> (port: Result<u16, ConfigError>)
    ensures
        port == http_port_of(configured),
{
    match configured {
        None => Ok(DEFAULT_HTTP_PORT),
        Some(text) => match parse_number(text.as_str(), 65535) {
            Some(port) => Ok(port as u16),
            None => Err(ConfigError::InvalidHttpPort(text)),
        },
    }
}

/// The read timeout in seconds, from the text configured for it.
pub fn parse_timeout(configured: Option<String>) -> (secs: Result<u64, ConfigError>)
    ensures
        secs == timeout_secs_of(configured),
{
    match configured {
        None => Ok(DEFAULT_TIMEOUT_SECS),
        Some(text) => match parse_number(text.as_str(), u64::MAX) {
            Some(secs) => Ok(secs),
            None => Err(ConfigError::InvalidTimeout(text)),
        },
    }
}

/// The serial port to open. A configured port is taken as it is, and
/// `available` is not looked at. Otherwise the port is the one that the
/// machine offers besides the reserved port, if it offers exactly one.
pub fn find_serial_port(configured: Option<String>, available: &Vec<String>) -> (port: Result<
    String,
    ConfigError,
>)
    ensures
        port == serial_port_of(configured, available@),
{
    if let Some(name) = configured {
        return Ok(name);
    }
    let reserved = String::from_str("/dev/ttyAMA0");
    let ghost wanted = is_candidate();
    let mut found: Option<String> = None;
    let mut index: usize = 0;
    proof {
        assert(available@.take(0) =~= Seq::<String>::empty());
        reveal(Seq::filter);
    }
    while index < available.len()
        invariant
            index <= available.len(),
            configured is None,
            reserved@ == reserved_port(),
            wanted == is_candidate(),
            match found {
                None => available@.take(index as int).filter(wanted).len() == 0,
                Some(name) => available@.take(index as int).filter(wanted) == seq![name],
            },
        decreases available.len() - index,
    {
        let ghost seen = available@.take(index as int);
        proof {
            assert(available@.take(index + 1) =~= seen.push(available@[index as int]));
            seen.lemma_filter_push(available@[index as int], wanted);
        }
        if available[index] != reserved {
            if found.is_some() {
                proof {
                    lemma_candidates_grow(available@, index + 1);
                }
                return Err(ConfigError::MultipleSerialPorts);
            }
            found = Some(available[index].clone());
            proof {
                assert(Seq::<String>::empty().push(available@[index as int]) =~= seq![
                    available@[index as int],
                ]);
                assert(seen.filter(wanted) =~= Seq::<String>::empty());
            }
        }
        index += 1;
    }
    proof {
        assert(available@.take(index as int) =~= available@);
    }
    match found {
        Some(name) => Ok(name),
        None => Err(ConfigError::NoSerialPort),
    }
}

/// The candidates among all ports are at least as many as those among the
/// first `len` of them.
proof fn lemma_candidates_grow(available: Seq<String>, len: int)
    requires
        0 <= len <= available.len(),
    ensures
        candidates(available.take(len)).len() <= candidates(available).len(),
    decreases available.len() - len,
{
    if len == available.len() {
        assert(available.take(len) =~= available);
    } else {
        lemma_candidates_grow(available, len + 1);
        let wanted = is_candidate();
        assert(available.take(len + 1) =~= available.take(len).push(available[len]));
        available.take(len).lemma_filter_push(available[len], wanted);
    }
}

impl Config {
    /// The settings of the process, from the texts configured for the HTTP
    /// port, for the read timeout and for the serial port, and from the names
    /// of the serial ports that the machine offers.
    ///
    /// The HTTP port defaults to 8080 and the timeout to 3 seconds. A
    /// configured serial port is taken as it is; without one, the machine
    /// must offer exactly one port besides the reserved one.
    pub fn new(
        http_port: Option<String>,
        timeout: Option<String>,
        serial_port: Option<String>,
        available: &Vec<String>,
    ) -> (config: Result<Config, ConfigError>)
        ensures
            config == config_of(http_port, timeout, serial_port, available@),
    {
        let http_port = match parse_http_port(http_port) {
            Ok(port) => port,
            Err(error) => {
                return Err(error);
            },
        };
        let secs = match parse_timeout(timeout) {
            Ok(secs) => secs,
            Err(error) => {
                return Err(error);
            },
        };
        let serial_port = match find_serial_port(serial_port, available) {
            Ok(name) => name,
            Err(error) => {
                return Err(error);
            },
        };
        Ok(Config { http_port, serial_port, read_timeout: duration_from_secs(secs) })
    }
}

} // verus!
