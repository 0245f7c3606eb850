//! Start-up configuration: the port the server listens on.

use vstd::prelude::*;
use vstd::string::*;
use crate::text::{decimal_text, push_decimal};

verus! {

/// The port used when the environment names none.
pub const DEFAULT_PORT: u16 = 3000;

/// Whether `b` is an ASCII decimal digit.
pub open spec fn is_digit(b: u8) -> bool {
    48 <= b <= 57
}

/// The value of one ASCII digit; zero for any other byte.
pub open spec fn digit_value(b: u8) -> nat {
    if is_digit(b) {
        (b - 48) as nat
    } else {
        0
    }
}

/// Whether every byte of `s` is an ASCII decimal digit.
pub open spec fn all_digits(s: Seq<u8>) -> bool {
    forall|i: int| 0 <= i < s.len() ==> is_digit(#[trigger] s[i])
}

/// The number that a sequence of ASCII digits writes in base ten.
pub open spec fn digits_value(s: Seq<u8>) -> nat
    decreases s.len(),
{
    if s.len() == 0 {
        0
    } else {
        digits_value(s.drop_last()) * 10 + digit_value(s.last())
    }
}

/// `s` without one leading plus sign, if it has one.
pub open spec fn unsigned_part(s: Seq<u8>) -> Seq<u8> {
    if s.len() > 0 && s[0] == 43 {
        s.subrange(1, s.len() as int)
    } else {
        s
    }
}

/// The port that the bytes `s` name: an optional plus sign, then one or more
/// ASCII digits (leading zeros allowed) whose value is at most 65535.
/// Anything else names no port.
pub open spec fn port_value(s: Seq<u8>) -> Option<u16> {
    let digits = unsigned_part(s);
    if digits.len() > 0 && all_digits(digits) && digits_value(digits) <= 65535 {
        Some(digits_value(digits) as u16)
    } else {
        None
    }
}

/// A longer run of digits never writes a smaller number than its prefix.
pub proof fn lemma_digits_value_prefix(s: Seq<u8>, n: int)
    requires
        0 <= n <= s.len(),
    ensures
        digits_value(s.take(n)) <= digits_value(s),
    decreases s.len(),
{
    if n == s.len() {
        assert(s.take(n) =~= s);
    } else {
        lemma_digits_value_prefix(s.drop_last(), n);
        assert(s.drop_last().take(n) =~= s.take(n));
    }
}

/// Reads a port number from bytes.
pub fn parse_port_bytes(bytes: &[u8]) -> (port: Option<u16>)
    ensures
        port == port_value(bytes@),
{
    let len = bytes.len();
    let start: usize = if len > 0 && bytes[0] == 43 {
        1
    } else {
        0
    };
    let ghost digits = unsigned_part(bytes@);
    assert(digits =~= bytes@.subrange(start as int, len as int));
    if start == len {
        return None;
    }
    let mut value: u32 = 0;
    let mut i: usize = start;
    while i < len
        invariant
            start <= i <= len,
            len == bytes@.len(),
            digits == unsigned_part(bytes@),
            digits == bytes@.subrange(start as int, len as int),
            all_digits(digits.take(i - start)),
            value == digits_value(digits.take(i - start)),
            value <= 65535,
        decreases len - i,
    {
        let b = bytes[i];
        let ghost before = digits.take(i - start);
        let ghost after = digits.take(i - start + 1);
        assert(after.drop_last() =~= before);
        assert(after.last() == b);
        if b < 48 || b > 57 {
            assert(!is_digit(digits[i - start]));
            return None;
        }
        value = value * 10 + (b - 48) as u32;
        if value > 65535 {
            proof {
                lemma_digits_value_prefix(digits, i - start + 1);
            }
            return None;
        }
        assert forall|k: int| 0 <= k < after.len() implies is_digit(#[trigger] after[k]) by {
            if k < before.len() {
                assert(after[k] == before[k]);
            }
        }
        i += 1;
    }
    assert(digits.take(len - start) =~= digits);
    Some(value as u16)
}

/// Reads a port number from text, as the decimal integer it writes.
pub fn parse_port(text: &str) -> (port: Option<u16>)
    ensures
        port == port_value(text.spec_bytes()),
{
    parse_port_bytes(text.as_bytes())
}

/// Why no configuration could be made.
#[derive(Clone, Copy, Debug, PartialEq, Eq, Structural)]
pub enum ConfigError {
    /// The port variable is set, and its value names no port.
    InvalidPort,
}

impl ConfigError {
    /// What to tell the operator.
    pub fn message(&self) -> (text: &'static str)
        ensures
            text@ == "PORT must be a valid number"@,
    {
        "PORT must be a valid number"
    }
}

/// What the server needs to know before it starts.
#[derive(Clone, Copy, Debug, PartialEq, Eq, Structural)]
pub struct Config {
    /// The TCP port to listen on, on every interface.
    pub port: u16,
}

/// The configuration that the value of the port variable asks for: the
/// default port where the variable is absent, the port it names where it
/// names one, and an error otherwise.
pub open spec fn config_of(variable: Option<Seq<u8>>) -> Result<Config, ConfigError> {
    match variable {
        None => Ok(Config { port: DEFAULT_PORT }),
        Some(bytes) => match port_value(bytes) {
            Some(port) => Ok(Config { port }),
            None => Err(ConfigError::InvalidPort),
        },
    }
}

/// The bytes of the variable's value, where it has one.
pub open spec fn variable_bytes(variable: Option<&str>) -> Option<Seq<u8>> {
    match variable {
        None => None,
        Some(text) => Some(text.spec_bytes()),
    }
}

/// The bytes of the variable's value as a sequence, where it has one.
pub open spec fn bytes_view(variable: Option<&[u8]>) -> Option<Seq<u8>> {
    match variable {
        None => None,
        Some(bytes) => Some(bytes@),
    }
}

impl Config {
    /// Loads the configuration from the value of the port variable as the
    /// environment holds it, text or not, `None` standing for a variable
    /// that is not set.
    pub fn from_port_bytes(variable: Option<&[u8]>) -> (config: Result<Config, ConfigError>)
        ensures
            config == config_of(bytes_view(variable)),
    {
        match variable {
            None => Ok(Config { port: DEFAULT_PORT }),
            Some(bytes) => match parse_port_bytes(bytes) {
                Some(port) => Ok(Config { port }),
                None => Err(ConfigError::InvalidPort),
            },
        }
    }

    /// Loads the configuration from the value of the port variable as text,
    /// `None` standing for a variable that is not set.
    pub fn from_port_variable(variable: Option<&str>) -> (config: Result<Config, ConfigError>)
        ensures
            config == config_of(variable_bytes(variable)),
    {
        match variable {
            None => Config::from_port_bytes(None),
            Some(text) => Config::from_port_bytes(Some(text.as_bytes())),
        }
    }

    /// The socket address to bind: every interface, at the configured port.
    pub fn bind_address(&self) -> (address: String)
        ensures
            address@ == "0.0.0.0:"@ + decimal_text(self.port as nat),
    {
        let mut address = String::from_str("0.0.0.0:");
        push_decimal(&mut address, self.port as u64);
        address
    }
}

/// A variable that is set never gives the default port: either it names a
/// port, and that port is configured, or there is no configuration at all.
pub proof fn set_variable_is_never_defaulted(bytes: Seq<u8>)
    ensures
        match config_of(Some(bytes)) {
            Ok(config) => port_value(bytes) == Some(config.port),
            Err(error) => port_value(bytes) is None && error == ConfigError::InvalidPort,
        },
{
}

/// A value that holds a byte which is no digit, one plus sign in front
/// aside, gives no configuration: the server has no port to listen on, and
/// the start ends there.
pub proof fn value_that_is_no_number_gives_no_configuration(bytes: Seq<u8>, at: int)
    requires
        0 <= at < unsigned_part(bytes).len(),
        !is_digit(unsigned_part(bytes)[at]),
    ensures
        config_of(Some(bytes)) == Err::<Config, ConfigError>(ConfigError::InvalidPort),
{
}

/// An empty value, and a value beyond the largest port, give no
/// configuration either.
pub proof fn value_out_of_range_gives_no_configuration(bytes: Seq<u8>)
    requires
        unsigned_part(bytes).len() == 0 || digits_value(unsigned_part(bytes)) > 65535,
    ensures
        config_of(Some(bytes)) == Err::<Config, ConfigError>(ConfigError::InvalidPort),
{
}

} // verus!
