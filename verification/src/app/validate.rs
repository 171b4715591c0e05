//! Checks of the network-rule inputs typed into the create dialog: IP
//! addresses, CIDR blocks and port ranges.
use vstd::prelude::*;

use crate::text::{
    all_digits, chars_of, digits_value, has_char, contains_char, is_digit, is_digit_spec,
    parse_unsigned, parse_unsigned_chars, parse_unsigned_str, split, split_chars, split_once,
    split_once_chars, string_from_chars, trim, trim_str, decimal, index_of, lemma_index_of,
    lemma_parse_decimal, lemma_decimal_digits, lemma_split_concat, lemma_split_single,
};

verus! {

//----------------------------------------------------------------------
// IP addresses
//----------------------------------------------------------------------

/// An ASCII hexadecimal digit.
pub open spec fn is_hex_spec(c: char) -> bool {
    ('0' <= c && c <= '9') || ('a' <= c && c <= 'f') || ('A' <= c && c <= 'F')
}

/// One dotted-quad part of an IPv4 address: one to three decimal digits
/// without a leading zero (a lone `0` is fine), at most 255.
pub open spec fn is_v4_octet(p: Seq<char>) -> bool {
    &&& 1 <= p.len() <= 3
    &&& all_digits(p)
    &&& (p.len() == 1 || p[0] != '0')
    &&& digits_value(p) <= 255
}

/// An IPv4 address as `Ipv4Addr` reads it: four octets joined by dots.
pub open spec fn is_ipv4(s: Seq<char>) -> bool {
    let parts = split(s, '.');
    parts.len() == 4 && forall|k: int| 0 <= k < 4 ==> is_v4_octet(#[trigger] parts[k])
}

/// One group of an IPv6 address: one to four hexadecimal digits.
pub open spec fn is_hex_group(g: Seq<char>) -> bool {
    1 <= g.len() <= 4 && forall|i: int| 0 <= i < g.len() ==> is_hex_spec(#[trigger] g[i])
}

/// The 16-bit slots taken by `t`, a non-empty run of IPv6 groups joined by
/// colons; the last part may be an IPv4 address (two slots) when
/// `allow_v4` holds. `None` when `t` is no such run.
pub open spec fn slots(t: Seq<char>, allow_v4: bool) -> Option<nat> {
    let parts = split(t, ':');
    let n = parts.len();
    if n > 0 && forall|k: int| 0 <= k < n - 1 ==> is_hex_group(#[trigger] parts[k]) {
        if is_hex_group(parts[n - 1]) {
            Some(n)
        } else if allow_v4 && is_ipv4(parts[n - 1]) {
            Some(n + 1)
        } else {
            None
        }
    } else {
        None
    }
}

/// `s` holds `::` at `j`.
pub open spec fn dcolon_at(s: Seq<char>, j: int) -> bool {
    s[j] == ':' && s[j + 1] == ':'
}

/// Index of the first `::` in `s`, or -1.
pub open spec fn first_dcolon(s: Seq<char>) -> int
    decreases s.len(),
{
    if s.len() < 2 {
        -1
    } else if s[0] == ':' && s[1] == ':' {
        0
    } else {
        let r = first_dcolon(s.drop_first());
        if r < 0 {
            -1
        } else {
            r + 1
        }
    }
}

/// The slots of one side of a `::`: none for an empty side.
pub open spec fn side_slots(t: Seq<char>, allow_v4: bool) -> Option<nat> {
    if t.len() == 0 {
        Some(0)
    } else {
        slots(t, allow_v4)
    }
}

/// An IPv6 address as `Ipv6Addr` reads it: eight groups, the last two of
/// which may be written as an IPv4 address; or groups before and after
/// one `::` (which stands for at least one zero group), with an IPv4 tail
/// allowed only after it.
pub open spec fn is_ipv6(s: Seq<char>) -> bool {
    let i = first_dcolon(s);
    if 0 <= i <= s.len() - 2 {
        match (side_slots(s.take(i), false), side_slots(s.skip(i + 2), true)) {
            (Some(h), Some(t)) => h + t <= 7,
            _ => false,
        }
    } else {
        slots(s, true) == Some(8nat)
    }
}

/// An IP address as `IpAddr` reads it: IPv4 or IPv6.
pub open spec fn is_ip_addr(s: Seq<char>) -> bool {
    is_ipv4(s) || is_ipv6(s)
}

fn is_hex(c: char) -> (r: bool)
    ensures
        r == is_hex_spec(c),
{
    ('0' <= c && c <= '9') || ('a' <= c && c <= 'f') || ('A' <= c && c <= 'F')
}

fn v4_octet_ok(p: &Vec<char>) -> (r: bool)
    ensures
        r == is_v4_octet(p@),
{
    let n = p.len();
    if n < 1 || n > 3 {
        return false;
    }
    for i in 0..n
        invariant
            n == p@.len(),
            forall|j: int| 0 <= j < i ==> is_digit_spec(#[trigger] p@[j]),
    {
        if !is_digit(p[i]) {
            return false;
        }
    }
    if n > 1 && p[0] == '0' {
        return false;
    }
    assert(p@[0] != '+');
    match parse_unsigned_chars(p, 255) {
        Some(_) => true,
        None => false,
    }
}

fn ipv4_ok(cs: &Vec<char>) -> (r: bool)
    ensures
        r == is_ipv4(cs@),
{
    let parts = split_chars(cs, '.');
    if parts.len() != 4 {
        return false;
    }
    for k in 0..4
        invariant
            parts@.len() == 4,
            parts@.len() == split(cs@, '.').len(),
            forall|j: int| 0 <= j < 4 ==> (#[trigger] parts@[j])@ == split(cs@, '.')[j],
            forall|j: int| 0 <= j < k ==> is_v4_octet(#[trigger] split(cs@, '.')[j]),
    {
        if !v4_octet_ok(&parts[k]) {
            assert(!is_v4_octet(split(cs@, '.')[k as int]));
            return false;
        }
    }
    true
}

fn hex_group_ok(g: &Vec<char>) -> (r: bool)
    ensures
        r == is_hex_group(g@),
{
    let n = g.len();
    if n < 1 || n > 4 {
        return false;
    }
    for i in 0..n
        invariant
            n == g@.len(),
            forall|j: int| 0 <= j < i ==> is_hex_spec(#[trigger] g@[j]),
    {
        if !is_hex(g[i]) {
            return false;
        }
    }
    true
}

proof fn lemma_split_nonempty(s: Seq<char>, c: char)
    ensures
        split(s, c).len() > 0,
    decreases s.len(),
{
    let i = crate::text::index_of(s, c);
    crate::text::lemma_index_of_bounds(s, c);
    if !(i < 0 || i >= s.len()) {
        lemma_split_nonempty(s.skip(i + 1), c);
    }
}

/// The slots of `cs` (see [`slots`]), when there are at most nine.
fn slots_of(cs: &Vec<char>, allow_v4: bool) -> (r: Option<usize>)
    ensures
        r matches Some(v) ==> slots(cs@, allow_v4) == Some(v as nat) && v <= 10,
        r is None ==> (slots(cs@, allow_v4) matches Some(v) ==> v > 9),
{
    let parts = split_chars(cs, ':');
    proof {
        lemma_split_nonempty(cs@, ':');
    }
    let n = parts.len();
    if n > 9 {
        return None;
    }
    for k in 0..n - 1
        invariant
            n == parts@.len(),
            0 < n <= 9,
            n == split(cs@, ':').len(),
            forall|j: int| 0 <= j < n ==> (#[trigger] parts@[j])@ == split(cs@, ':')[j],
            forall|j: int| 0 <= j < k ==> is_hex_group(#[trigger] split(cs@, ':')[j]),
    {
        if !hex_group_ok(&parts[k]) {
            assert(!is_hex_group(split(cs@, ':')[k as int]));
            return None;
        }
    }
    if hex_group_ok(&parts[n - 1]) {
        Some(n)
    } else if allow_v4 && ipv4_ok(&parts[n - 1]) {
        Some(n + 1)
    } else {
        None
    }
}

/// The slots of one side of a `::` (see [`side_slots`]), when at most
/// nine.
fn side_slots_of(cs: &Vec<char>, allow_v4: bool) -> (r: Option<usize>)
    ensures
        r matches Some(v) ==> side_slots(cs@, allow_v4) == Some(v as nat) && v <= 10,
        r is None ==> (side_slots(cs@, allow_v4) matches Some(v) ==> v > 9),
{
    if cs.len() == 0 {
        Some(0)
    } else {
        slots_of(cs, allow_v4)
    }
}

proof fn lemma_first_dcolon(s: Seq<char>, i: int)
    requires
        0 <= i,
        i + 1 <= s.len(),
        forall|j: int| 0 <= j < i ==> !dcolon_at(s, j),
    ensures
        i + 1 < s.len() && s[i] == ':' && s[i + 1] == ':' ==> first_dcolon(s) == i,
        i + 1 == s.len() ==> first_dcolon(s) == -1,
    decreases i,
{
    if i > 0 {
        assert(!dcolon_at(s, 0));
        assert forall|j: int| 0 <= j < i - 1 implies !dcolon_at(s.drop_first(), j) by {
            assert(!dcolon_at(s, j + 1));
            assert(s.drop_first()[j] == s[j + 1]);
            assert(s.drop_first()[j + 1] == s[j + 2]);
        }
        lemma_first_dcolon(s.drop_first(), i - 1);
    }
}

/// Index of the first `::` in `cs`, if any.
fn find_dcolon(cs: &Vec<char>) -> (r: Option<usize>)
    ensures
        r matches Some(i) ==> i + 1 < cs@.len() && first_dcolon(cs@) == i,
        r is None ==> first_dcolon(cs@) == -1,
{
    let n = cs.len();
    if n < 2 {
        return None;
    }
    for i in 0..n - 1
        invariant
            n == cs@.len(),
            n >= 2,
            forall|j: int| 0 <= j < i ==> !dcolon_at(cs@, j),
    {
        if cs[i] == ':' && cs[i + 1] == ':' {
            proof {
                lemma_first_dcolon(cs@, i as int);
            }
            return Some(i);
        }
    }
    proof {
        lemma_first_dcolon(cs@, (n - 1) as int);
    }
    None
}

fn ipv6_ok(cs: &Vec<char>) -> (r: bool)
    ensures
        r == is_ipv6(cs@),
{
    let n = cs.len();
    let at = find_dcolon(cs);
    match at {
        Some(i) => {
            let head = crate::text::subvec(cs, 0, i);
            let tail = crate::text::subvec(cs, i + 2, n);
            assert(head@ =~= cs@.take(i as int));
            assert(tail@ =~= cs@.skip(i + 2));
            match (side_slots_of(&head, false), side_slots_of(&tail, true)) {
                (Some(h), Some(t)) => h + t <= 7,
                _ => false,
            }
        },
        None => {
            match slots_of(cs, true) {
                Some(v) => v == 8,
                None => false,
            }
        },
    }
}

/// True if `s` is an IP address (see [`is_ip_addr`]).
pub fn is_ip_address(s: &str) -> (r: bool)
    ensures
        r == is_ip_addr(s@),
{
    let cs = chars_of(s);
    ipv4_ok(&cs) || ipv6_ok(&cs)
}

//----------------------------------------------------------------------
// CIDR blocks and port ranges
//----------------------------------------------------------------------

/// Every dot-separated part of `addr` is a number from 0 to 255, and
/// there are four of them.
pub open spec fn loose_ipv4(addr: Seq<char>) -> bool {
    let parts = split(addr, '.');
    parts.len() == 4 && forall|k: int|
        0 <= k < parts.len() ==> parse_unsigned(#[trigger] parts[k], 255) is Some
}

/// Why `s` is not a CIDR block `addr/prefix`, or `None` when it is one.
/// This is a shape check: an address holding `:` is taken as IPv6 and
/// only its prefix (at most 128) is checked; otherwise the address must
/// be four numbers from 0 to 255 joined by dots and the prefix at most 32.
pub open spec fn cidr_error(s: Seq<char>) -> Option<Seq<char>> {
    match split_once(s, '/') {
        None => Some("CIDR must be `addr/prefix`"@),
        Some((addr, prefix)) => if addr.len() == 0 {
            Some("CIDR address cannot be empty"@)
        } else {
            match parse_unsigned(prefix, 255) {
                None => Some("CIDR prefix must be a number"@),
                Some(p) => if has_char(addr, ':') {
                    if p > 128 {
                        Some("IPv6 prefix must be 0–128"@)
                    } else {
                        None
                    }
                } else if !loose_ipv4(addr) {
                    Some("Invalid IPv4 address"@)
                } else if p > 32 {
                    Some("IPv4 prefix must be 0–32"@)
                } else {
                    None
                },
            }
        },
    }
}

/// The parts of `addr`, a slash and the decimal text of `p`.
proof fn lemma_cidr_split(addr: Seq<char>, p: nat)
    requires
        !has_char(addr, '/'),
    ensures
        split_once(addr + seq!['/'] + decimal(p), '/') == Some((addr, decimal(p))),
{
    let s = addr + seq!['/'] + decimal(p);
    lemma_index_of(s, '/', addr.len() as int);
    assert(s.take(addr.len() as int) =~= addr);
    assert(s.skip(addr.len() as int + 1) =~= decimal(p));
}

/// An IPv6 block (an address holding `:`) is accepted exactly when its
/// prefix is at most 128.
pub proof fn law_cidr_ipv6_prefix(addr: Seq<char>, p: nat)
    requires
        has_char(addr, ':'),
        !has_char(addr, '/'),
    ensures
        (cidr_error(addr + seq!['/'] + decimal(p)) is None) == (p <= 128),
{
    lemma_cidr_split(addr, p);
    lemma_parse_decimal(p, 255);
}

/// An IPv4 block (four numbers from 0 to 255 joined by dots) is accepted
/// exactly when its prefix is at most 32.
pub proof fn law_cidr_ipv4_prefix(addr: Seq<char>, p: nat)
    requires
        !has_char(addr, ':'),
        !has_char(addr, '/'),
        loose_ipv4(addr),
    ensures
        (cidr_error(addr + seq!['/'] + decimal(p)) is None) == (p <= 32),
{
    lemma_cidr_split(addr, p);
    lemma_parse_decimal(p, 255);
    assert(addr.len() > 0) by {
        if addr.len() == 0 {
            assert(split(addr, '.') =~= seq![addr]) by {
                assert(index_of(addr, '.') == -1);
            }
        }
    }
}

/// `a.b.c.d`, the four numbers written in decimal.
pub open spec fn dotted_quad(a: nat, b: nat, c: nat, d: nat) -> Seq<char> {
    decimal(a) + seq!['.'] + (decimal(b) + seq!['.'] + (decimal(c) + seq!['.'] + decimal(d)))
}

proof fn lemma_decimal_no_char(n: nat, c: char)
    requires
        !is_digit_spec(c),
    ensures
        !has_char(decimal(n), c),
{
    lemma_decimal_digits(n);
}

/// A dotted quad `a.b.c.d` followed by `/p` is accepted exactly when the
/// four numbers are at most 255 and the prefix at most 32.
pub proof fn law_cidr_dotted_quad(a: nat, b: nat, c: nat, d: nat, p: nat)
    ensures
        (cidr_error(dotted_quad(a, b, c, d) + seq!['/'] + decimal(p)) is None) == (a <= 255
            && b <= 255 && c <= 255 && d <= 255 && p <= 32),
{
    let q = dotted_quad(a, b, c, d);
    lemma_decimal_no_char(a, '.');
    lemma_decimal_no_char(b, '.');
    lemma_decimal_no_char(c, '.');
    lemma_decimal_no_char(d, '.');
    lemma_decimal_no_char(a, ':');
    lemma_decimal_no_char(b, ':');
    lemma_decimal_no_char(c, ':');
    lemma_decimal_no_char(d, ':');
    lemma_decimal_no_char(a, '/');
    lemma_decimal_no_char(b, '/');
    lemma_decimal_no_char(c, '/');
    lemma_decimal_no_char(d, '/');
    let cd = decimal(c) + seq!['.'] + decimal(d);
    let bcd = decimal(b) + seq!['.'] + cd;
    lemma_split_single(decimal(d), '.');
    lemma_split_concat(decimal(c), decimal(d), '.');
    lemma_split_single(decimal(c), '.');
    lemma_split_concat(decimal(b), cd, '.');
    lemma_split_single(decimal(b), '.');
    lemma_split_concat(decimal(a), bcd, '.');
    lemma_split_single(decimal(a), '.');
    let parts = split(q, '.');
    assert(parts =~= seq![decimal(a), decimal(b), decimal(c), decimal(d)]);
    lemma_parse_decimal(a, 255);
    lemma_parse_decimal(b, 255);
    lemma_parse_decimal(c, 255);
    lemma_parse_decimal(d, 255);
    assert(!has_char(q, ':')) by {
        if has_char(q, ':') {
            let j = choose|j: int| 0 <= j < q.len() && q[j] == ':';
            assert(false);
        }
    }
    assert(!has_char(q, '/')) by {
        if has_char(q, '/') {
            let j = choose|j: int| 0 <= j < q.len() && q[j] == '/';
            assert(false);
        }
    }
    lemma_cidr_split(q, p);
    lemma_parse_decimal(p, 255);
    if a <= 255 && b <= 255 && c <= 255 && d <= 255 {
        assert(loose_ipv4(q));
    } else {
        assert(!loose_ipv4(q)) by {
            if a > 255 {
                assert(parse_unsigned(parts[0], 255) is None);
            } else if b > 255 {
                assert(parse_unsigned(parts[1], 255) is None);
            } else if c > 255 {
                assert(parse_unsigned(parts[2], 255) is None);
            } else {
                assert(parse_unsigned(parts[3], 255) is None);
            }
        }
    }
}

fn loose_ipv4_ok(addr: &Vec<char>) -> (r: bool)
    ensures
        r == loose_ipv4(addr@),
{
    let parts = split_chars(addr, '.');
    let n = parts.len();
    for k in 0..n
        invariant
            n == parts@.len(),
            n == split(addr@, '.').len(),
            forall|j: int| 0 <= j < n ==> (#[trigger] parts@[j])@ == split(addr@, '.')[j],
            forall|j: int| 0 <= j < k ==> parse_unsigned(#[trigger] split(addr@, '.')[j], 255) is Some,
    {
        if parse_unsigned_chars(&parts[k], 255).is_none() {
            assert(parse_unsigned(split(addr@, '.')[k as int], 255) is None);
            return false;
        }
    }
    n == 4
}

/// Check the shape of a CIDR block (see [`cidr_error`]).
pub fn validate_cidr(input: &str) -> (r: Result<(), &'static str>)
    ensures
        match cidr_error(input@) {
            Some(e) => r matches Err(m) && m@ == e,
            None => r is Ok,
        },
{
    let cs = chars_of(input);
    let (addr, prefix) = match split_once_chars(&cs, '/') {
        Some(pair) => pair,
        None => return Err("CIDR must be `addr/prefix`"),
    };
    if addr.len() == 0 {
        return Err("CIDR address cannot be empty");
    }
    let p = match parse_unsigned_chars(&prefix, 255) {
        Some(v) => v,
        None => return Err("CIDR prefix must be a number"),
    };
    if contains_char(&addr, ':') {
        if p > 128 {
            return Err("IPv6 prefix must be 0–128");
        }
    } else {
        if !loose_ipv4_ok(&addr) {
            return Err("Invalid IPv4 address");
        }
        if p > 32 {
            return Err("IPv4 prefix must be 0–32");
        }
    }
    Ok(())
}

/// What a port filter reads as: `"lo-hi"` (each side trimmed, `lo <= hi`)
/// or a single port `"p"` (trimmed), meaning `p-p`.
pub open spec fn port_range_parse(s: Seq<char>) -> Result<(u16, u16), Seq<char>> {
    match split_once(s, '-') {
        Some((lo, hi)) => match (parse_unsigned(trim(lo), 65535), parse_unsigned(trim(hi), 65535)) {
            (Some(l), Some(h)) => if l > h {
                Err("Range start must be <= end"@)
            } else {
                Ok((l as u16, h as u16))
            },
            _ => Err("Invalid port range"@),
        },
        None => match parse_unsigned(trim(s), 65535) {
            Some(p) => Ok((p as u16, p as u16)),
            None => Err("Invalid port"@),
        },
    }
}

/// Parse a single port (`"8080"`) or a port range (`"1000-2000"`).
pub fn parse_port_range(input: &str) -> (r: Result<(u16, u16), &'static str>)
    ensures
        match port_range_parse(input@) {
            Ok(pr) => r == Ok::<(u16, u16), &'static str>(pr),
            Err(e) => r matches Err(m) && m@ == e,
        },
{
    let cs = chars_of(input);
    match split_once_chars(&cs, '-') {
        Some((lo, hi)) => {
            let lo_s = string_from_chars(&lo);
            let hi_s = string_from_chars(&hi);
            let lo_t = trim_str(lo_s.as_str());
            let hi_t = trim_str(hi_s.as_str());
            let l = match parse_unsigned_str(lo_t.as_str(), 65535) {
                Some(v) => v,
                None => return Err("Invalid port range"),
            };
            let h = match parse_unsigned_str(hi_t.as_str(), 65535) {
                Some(v) => v,
                None => return Err("Invalid port range"),
            };
            if l > h {
                return Err("Range start must be <= end");
            }
            Ok((l as u16, h as u16))
        },
        None => {
            let t = trim_str(input);
            match parse_unsigned_str(t.as_str(), 65535) {
                Some(p) => Ok((p as u16, p as u16)),
                None => Err("Invalid port"),
            }
        },
    }
}

} // verus!
