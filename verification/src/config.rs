//! Address resolution: the server's listen address and the client's target
//! address are derived from two optionally-set configuration inputs (host and
//! port), each with a validated default. The host must be an IP literal (v4
//! or v6) and the port an integer between 1 and 65535; anything else is a
//! fatal configuration error for the process that needed the address.

use vstd::prelude::*;
use vstd::string::StrSliceExecFns;
use vstd::string::StringExecFns;

verus! {

/// A decimal digit.
pub open spec fn is_dec_digit(c: char) -> bool {
    '0' <= c && c <= '9'
}

/// The value of a decimal digit.
pub open spec fn dec_digit_val(c: char) -> nat {
    ((c as int) - ('0' as int)) as nat
}

/// Every character of the text is a decimal digit.
pub open spec fn all_dec_digits(s: Seq<char>) -> bool {
    forall|i: int| 0 <= i < s.len() ==> is_dec_digit(s[i])
}

/// The numeric value of a decimal numeral (most significant digit first).
pub open spec fn dec_val(s: Seq<char>) -> nat
    decreases s.len(),
{
    if s.len() == 0 {
        0
    } else {
        dec_val(s.drop_last()) * 10 + dec_digit_val(s.last())
    }
}

/// One dotted-quad component: one to three decimal digits, value at most
/// 255, with no leading zero (a lone `0` is the only numeral starting in
/// `0`).
pub open spec fn is_octet_text(s: Seq<char>) -> bool {
    1 <= s.len() <= 3 && all_dec_digits(s) && dec_val(s) <= 255 && (s.len() > 1 ==> s[0] != '0')
}

/// The index of the first occurrence of `c` in `s`, or `s.len()` when `c`
/// does not occur.
pub open spec fn find_char(s: Seq<char>, c: char) -> int
    decreases s.len(),
{
    if s.len() == 0 {
        0
    } else if s[0] == c {
        0
    } else {
        1 + find_char(s.subrange(1, s.len() as int), c)
    }
}

/// The number of dot-separated octets the text consists of, when it is a
/// non-empty sequence of octet numerals separated by single dots; `None`
/// otherwise.
pub open spec fn octets_count(s: Seq<char>) -> Option<nat>
    decreases s.len(),
{
    let i = find_char(s, '.');
    if 0 <= i < s.len() {
        if is_octet_text(s.subrange(0, i)) {
            match octets_count(s.subrange(i + 1, s.len() as int)) {
                Some(n) => Some((n + 1) as nat),
                None => None,
            }
        } else {
            None
        }
    } else {
        if is_octet_text(s) {
            Some(1 as nat)
        } else {
            None
        }
    }
}

/// An IPv4 literal: exactly four octet numerals separated by dots.
pub open spec fn is_ipv4_text(s: Seq<char>) -> bool {
    octets_count(s) == Some(4 as nat)
}

/// Whether one character is a decimal digit.
pub fn char_is_dec_digit(c: char) -> (r: bool)
    ensures
        r == is_dec_digit(c),
{
    '0' <= c && c <= '9'
}

/// The value of a decimal digit character.
pub fn char_dec_val(c: char) -> (r: u8)
    requires
        is_dec_digit(c),
    ensures
        r as nat == dec_digit_val(c),
        r <= 9,
{
    match c {
        '0' => 0,
        '1' => 1,
        '2' => 2,
        '3' => 3,
        '4' => 4,
        '5' => 5,
        '6' => 6,
        '7' => 7,
        '8' => 8,
        _ => 9,
    }
}

/// Whether the text is one dotted-quad component.
pub fn octet_text_is_valid(s: &str) -> (r: bool)
    ensures
        r == is_octet_text(s@),
{
    let n: usize = s.unicode_len();
    if n == 0 || n > 3 {
        return false;
    }
    let c0 = s.get_char(0);
    if !char_is_dec_digit(c0) {
        return false;
    }
    if n > 1 && c0 == '0' {
        return false;
    }
    proof {
        reveal_with_fuel(dec_val, 4);
    }
    if n == 1 {
        proof {
            assert(s@.drop_last() =~= Seq::<char>::empty());
        }
        true
    } else if n == 2 {
        let c1 = s.get_char(1);
        if !char_is_dec_digit(c1) {
            return false;
        }
        proof {
            assert(s@.drop_last().drop_last() =~= Seq::<char>::empty());
            assert(s@.drop_last().last() == s@[0]);
        }
        true
    } else {
        let c1 = s.get_char(1);
        if !char_is_dec_digit(c1) {
            return false;
        }
        let c2 = s.get_char(2);
        if !char_is_dec_digit(c2) {
            return false;
        }
        let v: u32 = char_dec_val(c0) as u32 * 100 + char_dec_val(c1) as u32 * 10
            + char_dec_val(c2) as u32;
        proof {
            assert(s@.drop_last().drop_last().drop_last() =~= Seq::<char>::empty());
            assert(s@.drop_last().drop_last().last() == s@[0]);
            assert(s@.drop_last().last() == s@[1]);
        }
        v <= 255
    }
}

/// The index of the first occurrence of `c` in `s`, or the character length
/// of `s` when `c` does not occur.
pub fn find_char_at(s: &str, c: char) -> (r: usize)
    ensures
        r as int == find_char(s@, c),
        r <= s@.len(),
    decreases s@.len(),
{
    let n: usize = s.unicode_len();
    if n == 0 {
        0
    } else if s.get_char(0) == c {
        0
    } else {
        let rest = s.substring_char(1, n);
        let k = find_char_at(rest, c);
        1 + k
    }
}

/// The number of dot-separated octets the text consists of, where it is a
/// well-formed dotted numeral sequence.
pub fn count_octets(s: &str) -> (r: Option<usize>)
    ensures
        match r {
            Some(n) => octets_count(s@) == Some(n as nat) && n <= s@.len(),
            None => octets_count(s@) is None,
        },
    decreases s@.len(),
{
    let n: usize = s.unicode_len();
    let i = find_char_at(s, '.');
    if i == n {
        if octet_text_is_valid(s) {
            Some(1)
        } else {
            None
        }
    } else {
        let head = s.substring_char(0, i);
        if !octet_text_is_valid(head) {
            return None;
        }
        let rest = s.substring_char(i + 1, n);
        match count_octets(rest) {
            Some(k) => Some(1 + k),
            None => None,
        }
    }
}

/// Whether the text is an IPv4 literal.
pub fn ipv4_text_is_valid(s: &str) -> (r: bool)
    ensures
        r == is_ipv4_text(s@),
{
    match count_octets(s) {
        Some(k) => k == 4,
        None => false,
    }
}

/// A hexadecimal digit.
pub open spec fn is_hex_digit(c: char) -> bool {
    ('0' <= c && c <= '9') || ('a' <= c && c <= 'f') || ('A' <= c && c <= 'F')
}

/// One colon-separated group of an IPv6 literal: one to four hexadecimal
/// digits.
pub open spec fn is_h16_text(s: Seq<char>) -> bool {
    1 <= s.len() <= 4 && (forall|i: int| 0 <= i < s.len() ==> is_hex_digit(s[i]))
}

/// The index of the first occurrence of a double colon in `s`, or `s.len()`
/// when none occurs.
pub open spec fn find_dcolon(s: Seq<char>) -> int
    decreases s.len(),
{
    if s.len() < 2 {
        s.len() as int
    } else if s[0] == ':' && s[1] == ':' {
        0
    } else {
        1 + find_dcolon(s.subrange(1, s.len() as int))
    }
}

/// The number of colon-separated hexadecimal groups the text consists of,
/// when it is a non-empty sequence of such groups separated by single
/// colons; `None` otherwise.
pub open spec fn groups_count(s: Seq<char>) -> Option<nat>
    decreases s.len(),
{
    let i = find_char(s, ':');
    if 0 <= i < s.len() {
        if is_h16_text(s.subrange(0, i)) {
            match groups_count(s.subrange(i + 1, s.len() as int)) {
                Some(n) => Some((n + 1) as nat),
                None => None,
            }
        } else {
            None
        }
    } else {
        if is_h16_text(s) {
            Some(1 as nat)
        } else {
            None
        }
    }
}

/// As `groups_count`, but the final piece may instead be an embedded IPv4
/// literal, which stands for two groups.
pub open spec fn groups_count_v4_tail(s: Seq<char>) -> Option<nat>
    decreases s.len(),
{
    let i = find_char(s, ':');
    if 0 <= i < s.len() {
        if is_h16_text(s.subrange(0, i)) {
            match groups_count_v4_tail(s.subrange(i + 1, s.len() as int)) {
                Some(n) => Some((n + 1) as nat),
                None => None,
            }
        } else {
            None
        }
    } else {
        if is_h16_text(s) {
            Some(1 as nat)
        } else if is_ipv4_text(s) {
            Some(2 as nat)
        } else {
            None
        }
    }
}

/// An IPv6 literal: eight groups, or a single double colon standing for the
/// missing groups (at least one), with an embedded IPv4 literal allowed as
/// the final two groups.
pub open spec fn is_ipv6_text(s: Seq<char>) -> bool {
    let m = find_dcolon(s);
    if m + 2 <= s.len() {
        let left = s.subrange(0, m);
        let right = s.subrange(m + 2, s.len() as int);
        let a = if m == 0 {
            Some(0 as nat)
        } else {
            groups_count(left)
        };
        let b = if right.len() == 0 {
            Some(0 as nat)
        } else {
            groups_count_v4_tail(right)
        };
        match (a, b) {
            (Some(x), Some(y)) => x + y <= 7,
            _ => false,
        }
    } else {
        groups_count_v4_tail(s) == Some(8 as nat)
    }
}

/// An IP literal of either family.
pub open spec fn is_ip_literal(s: Seq<char>) -> bool {
    is_ipv4_text(s) || is_ipv6_text(s)
}

/// Whether one character is a hexadecimal digit.
pub fn char_is_hex_digit(c: char) -> (r: bool)
    ensures
        r == is_hex_digit(c),
{
    ('0' <= c && c <= '9') || ('a' <= c && c <= 'f') || ('A' <= c && c <= 'F')
}

/// Whether the text is one hexadecimal group.
pub fn h16_text_is_valid(s: &str) -> (r: bool)
    ensures
        r == is_h16_text(s@),
{
    let n: usize = s.unicode_len();
    if n == 0 || n > 4 {
        return false;
    }
    let mut i: usize = 0;
    while i < n
        invariant
            n == s@.len(),
            i <= n,
            forall|j: int| 0 <= j < i ==> is_hex_digit(s@[j]),
        decreases n - i,
    {
        if !char_is_hex_digit(s.get_char(i)) {
            return false;
        }
        i += 1;
    }
    true
}

/// The index of the first double colon in the text, or its character length
/// when none occurs.
pub fn find_dcolon_at(s: &str) -> (r: usize)
    ensures
        r as int == find_dcolon(s@),
        r <= s@.len(),
    decreases s@.len(),
{
    let n: usize = s.unicode_len();
    if n < 2 {
        n
    } else if s.get_char(0) == ':' && s.get_char(1) == ':' {
        0
    } else {
        let rest = s.substring_char(1, n);
        let k = find_dcolon_at(rest);
        1 + k
    }
}

/// The number of colon-separated hexadecimal groups the text consists of,
/// where it is a well-formed group sequence.
pub fn count_groups(s: &str) -> (r: Option<usize>)
    ensures
        match r {
            Some(n) => groups_count(s@) == Some(n as nat) && n <= s@.len(),
            None => groups_count(s@) is None,
        },
    decreases s@.len(),
{
    let n: usize = s.unicode_len();
    let i = find_char_at(s, ':');
    if i == n {
        if h16_text_is_valid(s) {
            Some(1)
        } else {
            None
        }
    } else {
        let head = s.substring_char(0, i);
        if !h16_text_is_valid(head) {
            return None;
        }
        let rest = s.substring_char(i + 1, n);
        match count_groups(rest) {
            Some(k) => Some(1 + k),
            None => None,
        }
    }
}

/// As `count_groups`, but accepting an embedded IPv4 literal as the final
/// piece, counted as two groups.
pub fn count_groups_v4_tail(s: &str) -> (r: Option<usize>)
    ensures
        match r {
            Some(n) => groups_count_v4_tail(s@) == Some(n as nat) && n <= s@.len() + 1,
            None => groups_count_v4_tail(s@) is None,
        },
    decreases s@.len(),
{
    let n: usize = s.unicode_len();
    let i = find_char_at(s, ':');
    if i == n {
        if h16_text_is_valid(s) {
            Some(1)
        } else if ipv4_text_is_valid(s) {
            Some(2)
        } else {
            None
        }
    } else {
        let head = s.substring_char(0, i);
        if !h16_text_is_valid(head) {
            return None;
        }
        let rest = s.substring_char(i + 1, n);
        match count_groups_v4_tail(rest) {
            Some(k) => Some(1 + k),
            None => None,
        }
    }
}

/// Whether the text is an IPv6 literal.
pub fn ipv6_text_is_valid(s: &str) -> (r: bool)
    ensures
        r == is_ipv6_text(s@),
{
    let n: usize = s.unicode_len();
    let m = find_dcolon_at(s);
    if n >= 2 && m <= n - 2 {
        let a: Option<usize> = if m == 0 {
            Some(0)
        } else {
            let left = s.substring_char(0, m);
            count_groups(left)
        };
        let b: Option<usize> = if m + 2 == n {
            Some(0)
        } else {
            let right = s.substring_char(m + 2, n);
            count_groups_v4_tail(right)
        };
        match (a, b) {
            (Some(x), Some(y)) => x <= 7 && y <= 7 - x,
            _ => false,
        }
    } else {
        match count_groups_v4_tail(s) {
            Some(k) => k == 8,
            None => false,
        }
    }
}

/// Whether the text is an IP literal of either family.
pub fn ip_literal_is_valid(s: &str) -> (r: bool)
    ensures
        r == is_ip_literal(s@),
{
    ipv4_text_is_valid(s) || ipv6_text_is_valid(s)
}

/// A port numeral: a non-empty string of decimal digits whose value lies
/// between 1 and 65535.
pub open spec fn is_port_text(s: Seq<char>) -> bool {
    s.len() >= 1 && all_dec_digits(s) && 1 <= dec_val(s) <= 65535
}

/// Parses a port numeral, returning its value exactly when the text is a
/// valid port: decimal digits naming an integer between 1 and 65535.
pub fn parse_port(s: &str) -> (r: Option<u16>)
    ensures
        r is Some <==> is_port_text(s@),
        r matches Some(p) ==> p as nat == dec_val(s@) && 1 <= p,
{
    let n: usize = s.unicode_len();
    let mut i: usize = 0;
    let mut acc: u32 = 0;
    while i < n
        invariant
            n == s@.len(),
            i <= n,
            forall|j: int| 0 <= j < i ==> is_dec_digit(s@[j]),
            acc <= 65535 ==> acc as nat == dec_val(s@.subrange(0, i as int)),
            acc > 65535 ==> dec_val(s@.subrange(0, i as int)) > 65535,
            acc <= 655359,
        decreases n - i,
    {
        let c = s.get_char(i);
        if !char_is_dec_digit(c) {
            return None;
        }
        let d = char_dec_val(c);
        proof {
            assert(s@.subrange(0, (i + 1) as int).drop_last() =~= s@.subrange(0, i as int));
            assert(s@.subrange(0, (i + 1) as int).last() == s@[i as int]);
        }
        if acc <= 65535 {
            acc = acc * 10 + d as u32;
        }
        i += 1;
    }
    proof {
        assert(s@.subrange(0, n as int) =~= s@);
    }
    if 1 <= acc && acc <= 65535 {
        Some(acc as u16)
    } else {
        None
    }
}

/// The host an address defaults to when the host input is unset.
pub open spec fn spec_default_host() -> Seq<char> {
    "127.0.0.1"@
}

/// The port an address defaults to when the port input is unset.
pub const DEFAULT_PORT: u16 = 8099;

/// A resolved address: a validated IP literal and a port between 1 and
/// 65535. Derived from configuration, never cached across calls.
#[derive(Debug)]
pub struct Address {
    pub host: String,
    pub port: u16,
}

/// A well-formed address: the host text is an IP literal and the port is
/// positive.
pub open spec fn address_wf(a: Address) -> bool {
    is_ip_literal(a.host@) && 1 <= a.port
}

/// Why address resolution failed.
#[derive(Debug, PartialEq, Eq, Structural)]
pub enum ConfigError {
    /// The host input is not an IP literal.
    InvalidHost,
    /// The port input is not an integer between 1 and 65535.
    InvalidPort,
}

/// The host text resolution works on: the given input, or the default.
pub open spec fn resolved_host_text(host: Option<&str>) -> Seq<char> {
    match host {
        Some(h) => h@,
        None => spec_default_host(),
    }
}

/// The port value resolution produces: the numeral's value, or the default.
pub open spec fn resolved_port_val(port: Option<&str>) -> nat {
    match port {
        Some(p) => dec_val(p@),
        None => DEFAULT_PORT as nat,
    }
}

/// Whether the optional port input is acceptable.
pub open spec fn port_input_ok(port: Option<&str>) -> bool {
    match port {
        Some(p) => is_port_text(p@),
        None => true,
    }
}

/// Resolves the server address from the two optional configuration inputs,
/// applying the defaults where an input is unset. Returns the address
/// exactly when the (defaulted) host is an IP literal and the (defaulted)
/// port names an integer between 1 and 65535; an invalid host is reported
/// before an invalid port. The caller that needed the address treats an
/// error as fatal.
pub fn get_spawn_server_addr(host: Option<&str>, port: Option<&str>) -> (r: Result<
    Address,
    ConfigError,
>)
    ensures
        !is_ip_literal(resolved_host_text(host)) ==> r == Err::<Address, ConfigError>(
            ConfigError::InvalidHost,
        ),
        is_ip_literal(resolved_host_text(host)) && !port_input_ok(port) ==> r == Err::<
            Address,
            ConfigError,
        >(ConfigError::InvalidPort),
        is_ip_literal(resolved_host_text(host)) && port_input_ok(port) ==> (r matches Ok(a)
            && a.host@ == resolved_host_text(host) && a.port as nat == resolved_port_val(port)
            && address_wf(a)),
{
    let host_text: &str = match host {
        Some(h) => h,
        None => "127.0.0.1",
    };
    if !ip_literal_is_valid(host_text) {
        return Err(ConfigError::InvalidHost);
    }
    let port_val: u16 = match port {
        Some(p) => match parse_port(p) {
            Some(v) => v,
            None => {
                return Err(ConfigError::InvalidPort);
            },
        },
        None => DEFAULT_PORT,
    };
    Ok(Address { host: host_text.to_owned(), port: port_val })
}

/// The decimal numeral of a number, most significant digit first, with no
/// leading zeros.
pub open spec fn dec_str(n: nat) -> Seq<char>
    decreases n,
{
    if n < 10 {
        seq![dec_digit_char(n)]
    } else {
        dec_str(n / 10) + seq![dec_digit_char(n % 10)]
    }
}

/// The character of a decimal digit value.
pub open spec fn dec_digit_char(n: nat) -> char {
    if n == 0 {
        '0'
    } else if n == 1 {
        '1'
    } else if n == 2 {
        '2'
    } else if n == 3 {
        '3'
    } else if n == 4 {
        '4'
    } else if n == 5 {
        '5'
    } else if n == 6 {
        '6'
    } else if n == 7 {
        '7'
    } else if n == 8 {
        '8'
    } else {
        '9'
    }
}

/// The text of one decimal digit value.
fn dec_digit_text(d: u16) -> (r: &'static str)
    requires
        d < 10,
    ensures
        r@ =~= seq![dec_digit_char(d as nat)],
{
    proof {
        reveal_strlit("0");
        reveal_strlit("1");
        reveal_strlit("2");
        reveal_strlit("3");
        reveal_strlit("4");
        reveal_strlit("5");
        reveal_strlit("6");
        reveal_strlit("7");
        reveal_strlit("8");
        reveal_strlit("9");
    }
    match d {
        0 => "0",
        1 => "1",
        2 => "2",
        3 => "3",
        4 => "4",
        5 => "5",
        6 => "6",
        7 => "7",
        8 => "8",
        _ => "9",
    }
}

/// The decimal numeral of a port value.
pub fn port_to_decimal(n: u16) -> (r: String)
    ensures
        r@ == dec_str(n as nat),
    decreases n,
{
    if n < 10 {
        String::from_str(dec_digit_text(n))
    } else {
        let high = port_to_decimal(n / 10);
        high.concat(dec_digit_text(n % 10))
    }
}

/// The text of an address: the host literal and the port numeral separated
/// by a colon, with an IPv6 host in brackets.
pub open spec fn addr_text(a: Address) -> Seq<char> {
    if is_ipv4_text(a.host@) {
        a.host@ + ":"@ + dec_str(a.port as nat)
    } else {
        "["@ + a.host@ + "]:"@ + dec_str(a.port as nat)
    }
}

/// The URL the client posts a command to: the address text followed by the
/// command path.
pub fn get_spawner_command_url(addr: &Address) -> (r: String)
    ensures
        r@ == addr_text(*addr) + "/command"@,
{
    let port_text = port_to_decimal(addr.port);
    let r: String;
    if ipv4_text_is_valid(addr.host.as_str()) {
        r = addr.host.clone().concat(":").concat(port_text.as_str()).concat("/command");
    } else {
        r = String::from_str("[").concat(addr.host.as_str()).concat("]:").concat(
            port_text.as_str(),
        ).concat("/command");
    }
    proof {
        assert(r@ =~= addr_text(*addr) + "/command"@);
    }
    r
}

} // verus!
