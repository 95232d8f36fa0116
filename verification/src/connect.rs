//! Validation of a connection request.
//!
//! A request names a host and a decimal port string. The port must be one
//! or more decimal digits whose value fits in a sixteen-bit port number;
//! otherwise the request is rejected with [`ConnectError::InvalidPort`]
//! before any network activity takes place. Opening the socket itself is
//! the surrounding program's work; when it fails, the program reports
//! [`ConnectError::ConnectionError`] with the underlying cause.

use vstd::prelude::*;

verus! {

/// Size in bytes of the read/write window a session is opened with.
pub const SESSION_WINDOW: usize = 7024;

/// Why a connection request failed.
pub enum ConnectError {
    /// The port string is not a decimal number in range; reported before
    /// any network activity.
    InvalidPort,
    /// The socket could not be established; carries the underlying cause.
    ConnectionError(String),
}

/// A validated connection request: everything a session is opened with.
pub struct ConnectParams {
    /// The host to reach, as given by the caller.
    pub host: String,
    /// The parsed port number.
    pub port: u16,
    /// The session's read/write window size, always [`SESSION_WINDOW`].
    pub window: usize,
}

/// Whether `c` is a decimal digit.
pub open spec fn is_decimal_digit(c: char) -> bool {
    '0' <= c && c <= '9'
}

/// Whether every character of `s` is a decimal digit.
pub open spec fn all_decimal_digits(s: Seq<char>) -> bool {
    forall|i: int| 0 <= i < s.len() ==> is_decimal_digit(#[trigger] s[i])
}

/// The value of `s` read as a decimal numeral (0 when `s` is empty).
pub open spec fn decimal_value(s: Seq<char>) -> int
    decreases s.len(),
{
    if s.len() == 0 {
        0
    } else {
        decimal_value(s.drop_last()) * 10 + (s.last() as int - '0' as int)
    }
}

/// Whether `s` is an acceptable port string: one or more decimal digits
/// whose value fits in a port number.
pub open spec fn valid_port_string(s: Seq<char>) -> bool {
    s.len() > 0 && all_decimal_digits(s) && decimal_value(s) <= u16::MAX
}

proof fn lemma_decimal_value_nonneg(s: Seq<char>)
    requires
        all_decimal_digits(s),
    ensures
        decimal_value(s) >= 0,
    decreases s.len(),
{
    if s.len() > 0 {
        assert(all_decimal_digits(s.drop_last()));
        lemma_decimal_value_nonneg(s.drop_last());
    }
}

/// Reading more digits never decreases the value: the value of a prefix is
/// at most the value of the whole numeral.
proof fn lemma_decimal_value_prefix_le(s: Seq<char>, i: int)
    requires
        all_decimal_digits(s),
        0 <= i <= s.len(),
    ensures
        decimal_value(s.take(i)) <= decimal_value(s),
    decreases s.len() - i,
{
    if i < s.len() {
        lemma_decimal_value_prefix_le(s, i + 1);
        assert(s.take(i + 1).drop_last() =~= s.take(i));
        assert(s.take(i + 1).last() == s[i]);
        assert(all_decimal_digits(s.take(i)));
        lemma_decimal_value_nonneg(s.take(i));
        assert(decimal_value(s.take(i)) <= decimal_value(s.take(i + 1)));
    } else {
        assert(s.take(i) =~= s);
    }
}

/// Parses a port string: `Some(n)` exactly when the string is one or more
/// decimal digits with value `n <= u16::MAX`, and `None` otherwise.
pub fn parse_port(port: &str) -> (parsed: Option<u16>)
    ensures
        parsed is Some <==> valid_port_string(port@),
        parsed matches Some(n) ==> n == decimal_value(port@),
{
    let length = port.unicode_len();
    if length == 0 {
        return None;
    }
    let mut value: u32 = 0;
    let mut i: usize = 0;
    while i < length
        invariant
            0 < length == port@.len(),
            0 <= i <= length,
            all_decimal_digits(port@.take(i as int)),
            value == decimal_value(port@.take(i as int)),
            value <= u16::MAX,
        decreases length - i,
    {
        let c = port.get_char(i);
        if c < '0' || c > '9' {
            proof {
                assert(!is_decimal_digit(port@[i as int]));
            }
            return None;
        }
        let digit: u32 = c as u32 - '0' as u32;
        let next: u32 = value * 10 + digit;
        proof {
            assert(port@.take(i as int + 1).drop_last() =~= port@.take(i as int));
            assert(port@.take(i as int + 1).last() == port@[i as int]);
            assert(all_decimal_digits(port@.take(i as int + 1)));
            assert(next == decimal_value(port@.take(i as int + 1)));
        }
        if next > u16::MAX as u32 {
            proof {
                if valid_port_string(port@) {
                    lemma_decimal_value_prefix_le(port@, i as int + 1);
                }
            }
            return None;
        }
        value = next;
        i = i + 1;
    }
    proof {
        assert(port@.take(length as int) =~= port@);
    }
    Some(value as u16)
}

/// Validates a connection request. Succeeds exactly when the port string
/// is acceptable, handing back the parameters a session is opened with;
/// otherwise rejects the request with [`ConnectError::InvalidPort`] and no
/// network activity has taken place.
pub fn connect_request(host: String, port: &str) -> (request: Result<ConnectParams, ConnectError>)
    ensures
        request is Ok <==> valid_port_string(port@),
        request matches Ok(params) ==> params.host@ == host@
            && params.port == decimal_value(port@) && params.window == SESSION_WINDOW,
        request is Err ==> request->Err_0 is InvalidPort,
{
    match parse_port(port) {
        Some(port_number) => Ok(ConnectParams { host, port: port_number, window: SESSION_WINDOW }),
        None => Err(ConnectError::InvalidPort),
    }
}

impl ConnectError {
    /// The error as the string message reported to the caller.
    pub fn message(&self) -> (message: String)
        ensures
            self is InvalidPort ==> message@ == "invalid port"@,
            self matches ConnectError::ConnectionError(cause) ==> message@ == cause@,
    {
        match self {
            ConnectError::InvalidPort => "invalid port".to_owned(),
            ConnectError::ConnectionError(cause) => cause.clone(),
        }
    }
}

} // verus!
