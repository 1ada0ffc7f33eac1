//! The socket addresses the coordinator binds and keys its registry by,
//! and the parser for their textual `host:port` form.

use vstd::prelude::*;

verus! {

/// A socket address as plain values: an IPv4 address as four octets plus a
/// port. The textual form the library accepts is a dotted quad followed by
/// `:` and a decimal port, as in `0.0.0.0:4096`.
#[derive(Clone, Copy, PartialEq, Eq, Structural, Hash, Debug)]
pub struct SockAddr {
    pub o1: u8,
    pub o2: u8,
    pub o3: u8,
    pub o4: u8,
    pub port: u16,
}

/// `c` is an ASCII decimal digit.
pub open spec fn is_digit(c: char) -> bool {
    48 <= c as u32 && c as u32 <= 57
}

/// The numeric value of a decimal digit.
pub open spec fn digit_val(c: char) -> int {
    c as u32 - 48
}

/// Every character of `s` is a decimal digit.
pub open spec fn all_digits(s: Seq<char>) -> bool {
    forall|i: int| 0 <= i < s.len() ==> is_digit(#[trigger] s[i])
}

/// The value of `s` read as a decimal numeral, most significant digit first.
pub open spec fn dec_val(s: Seq<char>) -> int
    decreases s.len(),
{
    if s.len() == 0 {
        0
    } else {
        dec_val(s.drop_last()) * 10 + digit_val(s.last())
    }
}

/// Ten to the `n`th, for bounding partial numerals while they are read.
spec fn pow10(n: nat) -> int
    decreases n,
{
    if n == 0 {
        1
    } else {
        10 * pow10((n - 1) as nat)
    }
}

proof fn lemma_pow10_pos(n: nat)
    ensures
        pow10(n) >= 1,
    decreases n,
{
    if n > 0 {
        lemma_pow10_pos((n - 1) as nat);
    }
}

proof fn lemma_pow10_mono(a: nat, b: nat)
    requires
        a <= b,
    ensures
        pow10(a) <= pow10(b),
    decreases b,
{
    if a < b {
        lemma_pow10_mono(a, (b - 1) as nat);
        lemma_pow10_pos((b - 1) as nat);
    }
}

/// The index of the first `.` in `s` at or after `i`, or -1 if there is none.
pub open spec fn first_dot_from(s: Seq<char>, i: int) -> int
    decreases s.len() - i,
{
    if i < 0 || i >= s.len() {
        -1
    } else if s[i] == '.' {
        i
    } else {
        first_dot_from(s, i + 1)
    }
}

proof fn lemma_first_dot_props(s: Seq<char>, i: int)
    ensures
        first_dot_from(s, i) == -1 || (i <= first_dot_from(s, i) < s.len() && s[first_dot_from(
            s,
            i,
        )] == '.'),
    decreases s.len() - i,
{
    if i < 0 || i >= s.len() {
    } else if s[i] == '.' {
    } else {
        lemma_first_dot_props(s, i + 1);
    }
}

/// The index of the last `:` in `s` strictly before `i`, or -1 if there is none.
pub open spec fn last_colon_before(s: Seq<char>, i: int) -> int
    decreases i,
{
    if i <= 0 || i > s.len() {
        -1
    } else if s[i - 1] == ':' {
        i - 1
    } else {
        last_colon_before(s, i - 1)
    }
}

proof fn lemma_last_colon_props(s: Seq<char>, i: int)
    ensures
        last_colon_before(s, i) == -1 || (0 <= last_colon_before(s, i) < i
            && last_colon_before(s, i) < s.len() && s[last_colon_before(s, i)] == ':'),
    decreases i,
{
    if i <= 0 || i > s.len() {
    } else if s[i - 1] == ':' {
    } else {
        lemma_last_colon_props(s, i - 1);
    }
}

/// `s` is a well-formed decimal octet: one to three digits with value at most
/// 255. Leading zeros are accepted; `01` reads as 1.
pub open spec fn octet_ok(s: Seq<char>) -> bool {
    1 <= s.len() <= 3 && all_digits(s) && dec_val(s) <= 255
}

/// What a dotted-quad host denotes: exactly three dots, and the four pieces
/// between them are well-formed octets.
pub open spec fn spec_parse_ipv4(s: Seq<char>) -> Option<(u8, u8, u8, u8)> {
    let d1 = first_dot_from(s, 0);
    let d2 = first_dot_from(s, d1 + 1);
    let d3 = first_dot_from(s, d2 + 1);
    if d1 < 0 || d2 < 0 || d3 < 0 || first_dot_from(s, d3 + 1) >= 0 {
        None
    } else {
        let p1 = s.subrange(0, d1);
        let p2 = s.subrange(d1 + 1, d2);
        let p3 = s.subrange(d2 + 1, d3);
        let p4 = s.subrange(d3 + 1, s.len() as int);
        if octet_ok(p1) && octet_ok(p2) && octet_ok(p3) && octet_ok(p4) {
            Some(
                (dec_val(p1) as u8, dec_val(p2) as u8, dec_val(p3) as u8, dec_val(p4) as u8),
            )
        } else {
            None
        }
    }
}

/// What a port part denotes: one to five digits with value at most 65535.
/// Leading zeros are accepted.
pub open spec fn spec_parse_port(s: Seq<char>) -> Option<u16> {
    if 1 <= s.len() <= 5 && all_digits(s) && dec_val(s) <= 65535 {
        Some(dec_val(s) as u16)
    } else {
        None
    }
}

/// What a full address string denotes: the part after the last `:` is the
/// port, everything before it is the dotted-quad host.
pub open spec fn spec_parse_sock_addr(s: Seq<char>) -> Option<SockAddr> {
    let lc = last_colon_before(s, s.len() as int);
    if lc < 0 {
        None
    } else {
        match (spec_parse_ipv4(s.subrange(0, lc)), spec_parse_port(
            s.subrange(lc + 1, s.len() as int),
        )) {
            (Some(q), Some(p)) => Some(
                SockAddr { o1: q.0, o2: q.1, o3: q.2, o4: q.3, port: p },
            ),
            _ => None,
        }
    }
}

/// The index of the first string in `l` at or after `i` that is not a valid
/// address, or -1 if every one from `i` on parses.
pub open spec fn first_bad_from(l: Seq<&str>, i: int) -> int
    decreases l.len() - i,
{
    if i < 0 || i >= l.len() {
        -1
    } else if spec_parse_sock_addr(l[i]@) is None {
        i
    } else {
        first_bad_from(l, i + 1)
    }
}

/// Scans `s` from the end for its last `:`.
fn find_last_colon(s: &str) -> (r: Option<usize>)
    ensures
        match r {
            Some(k) => last_colon_before(s@, s@.len() as int) == k,
            None => last_colon_before(s@, s@.len() as int) == -1,
        },
{
    let n: usize = s.unicode_len();
    let mut i: usize = n;
    while i > 0
        invariant
            i <= n,
            n == s@.len(),
            last_colon_before(s@, n as int) == last_colon_before(s@, i as int),
        decreases i,
    {
        if s.get_char(i - 1) == ':' {
            return Some(i - 1);
        }
        i = i - 1;
    }
    None
}

/// Scans `s` forward from `from` for its first `.`.
fn find_first_dot(s: &str, from: usize) -> (r: Option<usize>)
    ensures
        match r {
            Some(k) => first_dot_from(s@, from as int) == k,
            None => first_dot_from(s@, from as int) == -1,
        },
{
    let n: usize = s.unicode_len();
    let mut i: usize = from;
    while i < n
        invariant
            n == s@.len(),
            from <= i,
            first_dot_from(s@, from as int) == first_dot_from(s@, i as int),
        decreases n - i,
    {
        if s.get_char(i) == '.' {
            return Some(i);
        }
        i = i + 1;
    }
    None
}

/// Reads the whole of `s` as a decimal numeral of at most five digits.
fn parse_decimal(s: &str) -> (r: Option<u32>)
    requires
        s@.len() <= 5,
    ensures
        match r {
            Some(v) => 1 <= s@.len() && all_digits(s@) && v == dec_val(s@),
            None => s@.len() == 0 || !all_digits(s@),
        },
{
    let n: usize = s.unicode_len();
    if n == 0 {
        return None;
    }
    let mut val: u32 = 0;
    let mut i: usize = 0;
    while i < n
        invariant
            n == s@.len(),
            n <= 5,
            i <= n,
            forall|j: int| 0 <= j < i ==> is_digit(#[trigger] s@[j]),
            val == dec_val(s@.subrange(0, i as int)),
            val < pow10(i as nat),
        decreases n - i,
    {
        let c = s.get_char(i);
        let u = c as u32;
        if u < 48 || u > 57 {
            proof {
                assert(!is_digit(s@[i as int]));
            }
            return None;
        }
        let d = u - 48;
        proof {
            lemma_pow10_mono(i as nat, 4);
            assert(pow10(4) == 10000) by {
                reveal_with_fuel(pow10, 6);
            }
        }
        val = val * 10 + d;
        i = i + 1;
        proof {
            assert(s@.subrange(0, i as int).drop_last() =~= s@.subrange(0, i as int - 1));
            assert(s@.subrange(0, i as int).last() == s@[i as int - 1]);
        }
    }
    proof {
        assert(s@.subrange(0, n as int) =~= s@);
    }
    Some(val)
}

/// Reads `s` as one octet of a dotted quad.
fn parse_octet(s: &str) -> (r: Option<u8>)
    ensures
        match r {
            Some(v) => octet_ok(s@) && v == dec_val(s@),
            None => !octet_ok(s@),
        },
{
    let n: usize = s.unicode_len();
    if n == 0 || n > 3 {
        return None;
    }
    match parse_decimal(s) {
        None => None,
        Some(v) => if v <= 255 {
            Some(v as u8)
        } else {
            None
        },
    }
}

/// Reads `s` as a port number.
fn parse_port(s: &str) -> (r: Option<u16>)
    ensures
        r == spec_parse_port(s@),
{
    let n: usize = s.unicode_len();
    if n == 0 || n > 5 {
        return None;
    }
    match parse_decimal(s) {
        None => None,
        Some(v) => if v <= 65535 {
            Some(v as u16)
        } else {
            None
        },
    }
}

/// Reads `s` as a dotted-quad IPv4 host.
fn parse_ipv4(s: &str) -> (r: Option<(u8, u8, u8, u8)>)
    ensures
        r == spec_parse_ipv4(s@),
{
    let n: usize = s.unicode_len();
    proof {
        lemma_first_dot_props(s@, 0);
    }
    let d1 = match find_first_dot(s, 0) {
        None => {
            return None;
        },
        Some(k) => k,
    };
    proof {
        lemma_first_dot_props(s@, d1 + 1);
    }
    let d2 = match find_first_dot(s, d1 + 1) {
        None => {
            return None;
        },
        Some(k) => k,
    };
    proof {
        lemma_first_dot_props(s@, d2 + 1);
    }
    let d3 = match find_first_dot(s, d2 + 1) {
        None => {
            return None;
        },
        Some(k) => k,
    };
    if find_first_dot(s, d3 + 1).is_some() {
        return None;
    }
    let p1 = s.substring_char(0, d1);
    let p2 = s.substring_char(d1 + 1, d2);
    let p3 = s.substring_char(d2 + 1, d3);
    let p4 = s.substring_char(d3 + 1, n);
    let a = match parse_octet(p1) {
        None => {
            return None;
        },
        Some(v) => v,
    };
    let b = match parse_octet(p2) {
        None => {
            return None;
        },
        Some(v) => v,
    };
    let c = match parse_octet(p3) {
        None => {
            return None;
        },
        Some(v) => v,
    };
    let d = match parse_octet(p4) {
        None => {
            return None;
        },
        Some(v) => v,
    };
    Some((a, b, c, d))
}

/// Parses an address string of the form `host:port`. Returns `None` exactly
/// when the string does not match the grammar of `spec_parse_sock_addr`.
pub fn parse_sock_addr(s: &str) -> (r: Option<SockAddr>)
    ensures
        r == spec_parse_sock_addr(s@),
{
    let n: usize = s.unicode_len();
    proof {
        lemma_last_colon_props(s@, s@.len() as int);
    }
    let lc = match find_last_colon(s) {
        None => {
            return None;
        },
        Some(k) => k,
    };
    let host = s.substring_char(0, lc);
    let ports = s.substring_char(lc + 1, n);
    let quad = match parse_ipv4(host) {
        None => {
            return None;
        },
        Some(q) => q,
    };
    let port = match parse_port(ports) {
        None => {
            return None;
        },
        Some(p) => p,
    };
    Some(SockAddr { o1: quad.0, o2: quad.1, o3: quad.2, o4: quad.3, port: port })
}

} // verus!
