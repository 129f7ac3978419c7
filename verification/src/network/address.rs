//! Ports and socket addresses as the connection set-up reads them.
use vstd::prelude::*;

use crate::text::{digit_char, spec_decimal};

verus! {

/// Why a port number could not be read; the same cases as the standard
/// library's integer parsing reports.
#[derive(Debug, Clone, Copy, PartialEq, Eq, Structural)]
pub enum PortParseError {
    /// The text is empty.
    Empty,
    /// The text holds something other than decimal digits after an
    /// optional leading `+`.
    InvalidDigit,
    /// The number is larger than 65535.
    PosOverflow,
}

pub open spec fn is_ascii_digit(c: char) -> bool {
    '0' <= c && c <= '9'
}

pub open spec fn digit_value(c: char) -> nat {
    ((c as u32) - 48) as nat
}

/// Reads decimal digits left to right onto `acc`, stopping at the first
/// character that is no digit or that takes the value past 65535.
pub open spec fn spec_scan_u16(d: Seq<char>, acc: nat) -> Result<u16, PortParseError>
    decreases d.len(),
{
    if d.len() == 0 {
        Ok(acc as u16)
    } else if !is_ascii_digit(d[0]) {
        Err(PortParseError::InvalidDigit)
    } else if acc * 10 + digit_value(d[0]) > 65535 {
        Err(PortParseError::PosOverflow)
    } else {
        spec_scan_u16(d.drop_first(), acc * 10 + digit_value(d[0]))
    }
}

/// What parsing `s` as a `u16` gives: an optional `+`, then decimal digits.
pub open spec fn spec_parse_u16(s: Seq<char>) -> Result<u16, PortParseError> {
    if s.len() == 0 {
        Err(PortParseError::Empty)
    } else if s.len() == 1 && (s[0] == '+' || s[0] == '-') {
        Err(PortParseError::InvalidDigit)
    } else if s[0] == '+' {
        spec_scan_u16(s.drop_first(), 0)
    } else {
        spec_scan_u16(s, 0)
    }
}

/// Reads a port number from text, with the rules of the standard library's
/// `u16` parsing.
pub fn parse_port(s: &str) -> (r: Result<u16, PortParseError>)
    ensures
        r == spec_parse_u16(s@),
{
    let n = s.unicode_len();
    if n == 0 {
        return Err(PortParseError::Empty);
    }
    let c0 = s.get_char(0);
    if n == 1 && (c0 == '+' || c0 == '-') {
        return Err(PortParseError::InvalidDigit);
    }
    let start: usize = if c0 == '+' {
        1
    } else {
        0
    };
    proof {
        if start == 1 {
            assert(s@.drop_first() =~= s@.skip(1));
        } else {
            assert(s@ =~= s@.skip(0));
        }
    }
    let mut acc: u32 = 0;
    let mut i: usize = start;
    while i < n
        invariant
            n == s@.len(),
            start <= i <= n,
            acc <= 65535,
            spec_parse_u16(s@) == spec_scan_u16(s@.skip(i as int), acc as nat),
        decreases n - i,
    {
        let c = s.get_char(i);
        let ghost rest = s@.skip(i as int);
        assert(rest[0] == c);
        assert(rest.drop_first() =~= s@.skip(i + 1));
        if !(c >= '0' && c <= '9') {
            return Err(PortParseError::InvalidDigit);
        }
        let d: u32 = (c as u32) - 48;
        if acc * 10 + d > 65535 {
            return Err(PortParseError::PosOverflow);
        }
        acc = acc * 10 + d;
        i = i + 1;
    }
    assert(s@.skip(i as int).len() == 0);
    Ok(acc as u16)
}

/// Scanning further characters after a complete scan goes on from the value
/// read so far.
proof fn lemma_scan_push(s: Seq<char>, c: char, acc: nat)
    requires
        acc <= 65535,
    ensures
        spec_scan_u16(s.push(c), acc) == match spec_scan_u16(s, acc) {
            Ok(v) => spec_scan_u16(seq![c], v as nat),
            Err(e) => Err(e),
        },
    decreases s.len(),
{
    if s.len() == 0 {
        assert(s.push(c) =~= seq![c]);
    } else {
        assert(s.push(c)[0] == s[0]);
        assert(s.push(c).drop_first() =~= s.drop_first().push(c));
        if is_ascii_digit(s[0]) && acc * 10 + digit_value(s[0]) <= 65535 {
            lemma_scan_push(s.drop_first(), c, acc * 10 + digit_value(s[0]));
        }
    }
}

/// Decimal notation of a number scans back to that number.
proof fn lemma_scan_decimal(n: nat)
    requires
        n <= 65535,
    ensures
        spec_scan_u16(spec_decimal(n), 0) == Ok::<u16, PortParseError>(n as u16),
        spec_decimal(n).len() >= 1,
        is_ascii_digit(spec_decimal(n)[0]),
    decreases n,
{
    if n < 10 {
        assert(digit_value(digit_char(n)) == n);
        assert(seq![digit_char(n)].drop_first() =~= Seq::<char>::empty());
        assert(spec_scan_u16(Seq::<char>::empty(), n) == Ok::<u16, PortParseError>(n as u16));
    } else {
        lemma_scan_decimal(n / 10);
        lemma_scan_push(spec_decimal(n / 10), digit_char(n % 10), 0);
        let c = digit_char(n % 10);
        assert(digit_value(c) == n % 10);
        assert(seq![c].drop_first() =~= Seq::<char>::empty());
        assert((n / 10) * 10 + n % 10 == n);
        assert(seq![c][0] == c);
        assert(spec_scan_u16(Seq::<char>::empty(), n) == Ok::<u16, PortParseError>(n as u16));
        assert(spec_scan_u16(seq![c], (n / 10) as u16 as nat) == spec_scan_u16(
            Seq::<char>::empty(),
            n,
        ));
    }
}

/// A port written out in decimal, as the connection set-up writes it into
/// an address, reads back as the same port.
pub proof fn law_port_text_roundtrip(port: u16)
    ensures
        spec_parse_u16(spec_decimal(port as nat)) == Ok::<u16, PortParseError>(port),
{
    lemma_scan_decimal(port as nat);
}

/// An IP address, version 4 or 6.
#[derive(Debug, Clone, Copy, PartialEq, Eq)]
pub enum IpAddress {
    V4([u8; 4]),
    V6([u16; 8]),
}

/// An IP address with a port.
#[derive(Debug, Clone, Copy, PartialEq, Eq)]
pub struct SocketAddress {
    pub ip: IpAddress,
    pub port: u16,
}

impl SocketAddress {
    /// The socket address of `ip` and `port`.
    pub fn new(ip: IpAddress, port: u16) -> (a: Self)
        ensures
            a.ip == ip,
            a.port == port,
    {
        SocketAddress { ip, port }
    }

    /// The IP address part.
    pub fn ip(&self) -> (ip: IpAddress)
        ensures
            ip == self.ip,
    {
        self.ip
    }
}

} // verus!
