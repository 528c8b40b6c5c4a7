//! Verified parsing of the numeric values a lifecycle event may carry: a
//! decimal port number, or a socket address whose port part is wanted.

use vstd::prelude::*;
use vstd::string::*;

verus! {

/// Whether a character is a decimal digit.
pub open spec fn is_digit(c: char) -> bool {
    '0' <= c && c <= '9'
}

/// The numeric value of a decimal digit.
pub open spec fn digit_val(c: char) -> int {
    c as int - '0' as int
}

/// Whether a sequence is one or more decimal digits.
pub open spec fn all_digits(s: Seq<char>) -> bool {
    s.len() > 0 && forall|i: int| 0 <= i < s.len() ==> is_digit(s[i])
}

/// The value of a digit sequence read in base ten.
pub open spec fn digits_val(s: Seq<char>) -> int
    decreases s.len(),
{
    if s.len() == 0 {
        0
    } else {
        digits_val(s.drop_last()) * 10 + digit_val(s.last())
    }
}

/// The value of a digit sequence is never negative.
pub proof fn lemma_digits_val_nonneg(s: Seq<char>)
    requires
        forall|i: int| 0 <= i < s.len() ==> is_digit(s[i]),
    ensures
        digits_val(s) >= 0,
    decreases s.len(),
{
    if s.len() > 0 {
        lemma_digits_val_nonneg(s.drop_last());
    }
}

/// Reading more digits never shrinks the value: a prefix reads at most as
/// much as the whole.
pub proof fn lemma_digits_val_prefix_le(s: Seq<char>, k: int)
    requires
        0 <= k <= s.len(),
        forall|i: int| 0 <= i < s.len() ==> is_digit(s[i]),
    ensures
        0 <= digits_val(s.subrange(0, k)) <= digits_val(s),
    decreases s.len() - k,
{
    lemma_digits_val_nonneg(s.subrange(0, k));
    if k < s.len() {
        let t = s.subrange(0, k + 1);
        assert(t.drop_last() =~= s.subrange(0, k));
        assert(digits_val(t) == digits_val(s.subrange(0, k)) * 10 + digit_val(t.last()));
        lemma_digits_val_nonneg(s.subrange(0, k));
        lemma_digits_val_prefix_le(s, k + 1);
    } else {
        assert(s.subrange(0, k) =~= s);
    }
}

/// How a string reads as a signed 32-bit decimal integer: an optional sign,
/// then one or more digits, with the signed value in range; anything else
/// reads as nothing.
pub open spec fn parse_i32_spec(s: Seq<char>) -> Option<int> {
    let negative = s.len() > 0 && s[0] == '-';
    let digits = if s.len() > 0 && (s[0] == '-' || s[0] == '+') {
        s.subrange(1, s.len() as int)
    } else {
        s
    };
    if all_digits(digits) {
        let magnitude = digits_val(digits);
        let value = if negative {
            -magnitude
        } else {
            magnitude
        };
        if i32::MIN <= value <= i32::MAX {
            Some(value)
        } else {
            None
        }
    } else {
        None
    }
}

/// Read the digits of `s` from position `from` on, in base ten. Stops with
/// nothing on a non-digit, an empty range, or a value that left 32 bits.
fn read_digits(s: &str, from: usize) -> (r: Option<i64>)
    requires
        from <= s@.len(),
    ensures
        match r {
            Some(v) => all_digits(s@.subrange(from as int, s@.len() as int)) && v == digits_val(
                s@.subrange(from as int, s@.len() as int),
            ) && 0 <= v <= 0x8000_0000i64,
            None => !all_digits(s@.subrange(from as int, s@.len() as int)) || digits_val(
                s@.subrange(from as int, s@.len() as int),
            ) > 0x8000_0000,
        },
{
    let len = s.unicode_len();
    let ghost digits = s@.subrange(from as int, s@.len() as int);
    if from == len {
        return None;
    }
    let mut acc: i64 = 0;
    let mut i: usize = from;
    while i < len
        invariant
            from <= i <= len,
            len == s@.len(),
            digits == s@.subrange(from as int, s@.len() as int),
            forall|j: int| from <= j < i ==> is_digit(s@[j]),
            acc == digits_val(s@.subrange(from as int, i as int)),
            0 <= acc <= 0x8000_0000i64,
        decreases len - i,
    {
        let c = s.get_char(i);
        if c < '0' || c > '9' {
            assert(digits[i - from] == s@[i as int]);
            return None;
        }
        let d: i64 = (c as u32 as i64) - ('0' as u32 as i64);
        assert(d == digit_val(c));
        let next = acc * 10 + d;
        proof {
            assert(s@.subrange(from as int, i + 1).drop_last() =~= s@.subrange(
                from as int,
                i as int,
            ));
        }
        if next > 0x8000_0000i64 {
            proof {
                assert(forall|j: int| 0 <= j < digits.len() ==> digits[j] == s@[from + j]);
                if all_digits(digits) {
                    lemma_digits_val_prefix_le(digits, i + 1 - from);
                    assert(s@.subrange(from as int, i + 1) =~= digits.subrange(0, i + 1 - from));
                }
            }
            return None;
        }
        acc = next;
        i += 1;
    }
    proof {
        assert(s@.subrange(from as int, i as int) =~= digits);
        assert(forall|j: int| 0 <= j < digits.len() ==> digits[j] == s@[from + j]);
    }
    Some(acc)
}

/// Read a string as a signed 32-bit decimal integer: an optional sign, then
/// one or more digits, rejecting anything else and any value out of range.
pub fn parse_i32(s: &str) -> (r: Option<i32>)
    ensures
        match r {
            Some(v) => parse_i32_spec(s@) == Some(v as int),
            None => parse_i32_spec(s@) is None,
        },
{
    let len = s.unicode_len();
    if len == 0 {
        return None;
    }
    let first = s.get_char(0);
    let negative = first == '-';
    let skip: usize = if first == '-' || first == '+' {
        1
    } else {
        0
    };
    proof {
        if skip == 0 {
            assert(s@.subrange(0, s@.len() as int) =~= s@);
        }
    }
    match read_digits(s, skip) {
        Some(v) => {
            if negative {
                if v > 0x8000_0000i64 {
                    return None;
                }
                Some((-v) as i32)
            } else {
                if v > 0x7fff_ffffi64 {
                    return None;
                }
                Some(v as i32)
            }
        },
        None => None,
    }
}

/// How a string reads as one or more digits naming a 16-bit port.
pub open spec fn parse_port_spec(s: Seq<char>) -> Option<int> {
    if all_digits(s) && digits_val(s) <= 0xffff {
        Some(digits_val(s))
    } else {
        None
    }
}

/// Whether a character is a hexadecimal digit.
pub open spec fn hexish(c: char) -> bool {
    ||| is_digit(c)
    ||| 'a' <= c && c <= 'f'
    ||| 'A' <= c && c <= 'F'
}

/// The characters a bracketed host's address part may hold: hexadecimal
/// digits, the group separator, and the dots of an embedded quad.
pub open spec fn addr_char(c: char) -> bool {
    hexish(c) || c == ':' || c == '.'
}

/// Whether a double colon starts at position `i`.
pub open spec fn dc_start(a: Seq<char>, i: int) -> bool {
    0 <= i && i + 1 < a.len() && a[i] == ':' && a[i + 1] == ':'
}

/// Whether five hexadecimal digits run from position `i` on: one more
/// than any group may hold.
pub open spec fn hex_run5(a: Seq<char>, i: int) -> bool {
    0 <= i && i + 4 < a.len() && (forall|k: int| i <= k <= i + 4 ==> hexish(#[trigger] a[k]))
}

/// Whether a sequence is acceptable as a bracketed host's address part:
/// non-empty, over the address alphabet, no group of more than four
/// hexadecimal digits, and at most one double colon. Group counts are not
/// checked, so this stays more lenient than a full address grammar.
pub open spec fn addr_part_ok(a: Seq<char>) -> bool {
    &&& a.len() > 0
    &&& forall|i: int| 0 <= i < a.len() ==> addr_char(#[trigger] a[i])
    &&& forall|i: int| !#[trigger] hex_run5(a, i)
    &&& forall|i: int, j: int| i < j ==> !(#[trigger] dc_start(a, i) && #[trigger] dc_start(a, j))
}

/// Whether a sequence is acceptable between a host's brackets: an address
/// part, optionally followed by a percent sign and a numeric zone index.
pub open spec fn bracket_interior_ok(b: Seq<char>) -> bool {
    if exists|p: int| 0 <= p < b.len() && b[p] == '%' {
        exists|p: int|
            {
                &&& 0 <= p < b.len() && b[p] == '%'
                &&& forall|k: int| 0 <= k < p ==> b[k] != '%'
                &&& p + 1 < b.len()
                &&& forall|k: int| p < k < b.len() ==> is_digit(#[trigger] b[k])
                &&& addr_part_ok(b.subrange(0, p))
            }
    } else {
        addr_part_ok(b)
    }
}

/// Whether a sequence reads as a strict dotted-quad host: exactly three
/// dots, and the four runs of characters between them each an octet group.
pub open spec fn is_dotted_quad(s: Seq<char>) -> bool {
    exists|a: int, b: int, c: int|
        {
            &&& 0 <= a < b < c < s.len()
            &&& #[trigger] s[a] == '.' && #[trigger] s[b] == '.' && #[trigger] s[c] == '.'
            &&& forall|j: int| 0 <= j < s.len() && j != a && j != b && j != c ==> s[j] != '.'
            &&& is_octet_group(s.subrange(0, a))
            &&& is_octet_group(s.subrange(a + 1, b))
            &&& is_octet_group(s.subrange(b + 1, c))
            &&& is_octet_group(s.subrange(c + 1, s.len() as int))
        }
}

/// Whether a sequence is one octet group: one to three digits, value at
/// most 255, no leading zero unless the group is exactly `0`.
pub open spec fn is_octet_group(s: Seq<char>) -> bool {
    &&& all_digits(s)
    &&& s.len() <= 3
    &&& digits_val(s) <= 255
    &&& (s.len() > 1 ==> s[0] != '0')
}

/// How a socket-address string yields its port: the digits after the last
/// colon, provided what precedes that colon is a plausible host — a strict
/// dotted quad, or a bracketed form whose interior passes the rules above.
/// This names the accepted grammar exactly; the bracketed form does not
/// count groups, so it stays more lenient than a full address grammar.
pub open spec fn addr_port_spec(s: Seq<char>) -> Option<int> {
    if exists|i: int| 0 <= i < s.len() && s[i] == ':' {
        let i = last_colon(s);
        let host = s.subrange(0, i);
        let port = s.subrange(i + 1, s.len() as int);
        if host_ok(host) {
            parse_port_spec(port)
        } else {
            None
        }
    } else {
        None
    }
}

/// The position of the last colon in `s`.
pub open spec fn last_colon(s: Seq<char>) -> int {
    choose|i: int|
        0 <= i < s.len() && s[i] == ':' && (forall|j: int| i < j < s.len() ==> s[j] != ':')
}

/// Whether a host part is acceptable: a strict dotted quad, or a
/// bracketed form with an acceptable interior.
pub open spec fn host_ok(host: Seq<char>) -> bool {
    ||| is_dotted_quad(host)
    ||| (host.len() > 2 && host[0] == '[' && host[host.len() - 1] == ']'
        && bracket_interior_ok(host.subrange(1, host.len() - 1)))
}

/// Find the last colon of `s`, if any.
fn find_last_colon(s: &str) -> (r: Option<usize>)
    ensures
        match r {
            Some(i) => i < s@.len() && s@[i as int] == ':' && (forall|j: int|
                i < j < s@.len() ==> s@[j] != ':') && last_colon(s@) == i as int,
            None => forall|j: int| 0 <= j < s@.len() ==> s@[j] != ':',
        },
{
    let len = s.unicode_len();
    let mut i: usize = len;
    while i > 0
        invariant
            i <= len,
            len == s@.len(),
            forall|j: int| i <= j < s@.len() ==> s@[j] != ':',
        decreases i,
    {
        i -= 1;
        if s.get_char(i) == ':' {
            proof {
                let w = i as int;
                assert(0 <= w < s@.len() && s@[w] == ':' && (forall|j: int|
                    w < j < s@.len() ==> s@[j] != ':'));
                let c = last_colon(s@);
                if c != w {
                    assert(s@[c] == ':');
                }
            }
            return Some(i);
        }
    }
    None
}

/// Whether the digits from `from` to `to` form one octet group.
fn check_octet_group(s: &str, from: usize, to: usize) -> (r: bool)
    requires
        from <= to <= s@.len(),
    ensures
        r == is_octet_group(s@.subrange(from as int, to as int)),
{
    let ghost g = s@.subrange(from as int, to as int);
    if to == from || to - from > 3 {
        return false;
    }
    let mut i: usize = from;
    let mut val: u32 = 0;
    while i < to
        invariant
            from <= i <= to <= s@.len(),
            g == s@.subrange(from as int, to as int),
            to - from <= 3,
            forall|j: int| from <= j < i ==> is_digit(s@[j]),
            val == digits_val(s@.subrange(from as int, i as int)),
            i - from == 0 ==> val == 0,
            i - from == 1 ==> val <= 9,
            i - from == 2 ==> val <= 99,
            i - from == 3 ==> val <= 999,
        decreases to - i,
    {
        let c = s.get_char(i);
        if c < '0' || c > '9' {
            assert(g[i - from] == s@[i as int]);
            return false;
        }
        proof {
            assert(s@.subrange(from as int, i + 1).drop_last() =~= s@.subrange(
                from as int,
                i as int,
            ));
            lemma_digits_val_prefix_le(s@.subrange(from as int, i + 1), i as int + 1 - from);
        }
        val = val * 10 + (c as u32 - '0' as u32);
        i += 1;
        proof {
            if i - from == 3 {
                assert(s@.subrange(from as int, i as int) =~= g);
            }
        }
    }
    proof {
        assert(s@.subrange(from as int, to as int) =~= g);
        assert(forall|j: int| 0 <= j < g.len() ==> g[j] == s@[from + j]);
    }
    if val > 255 {
        return false;
    }
    if to - from > 1 && s.get_char(from) == '0' {
        assert(g[0] == s@[from as int]);
        return false;
    }
    true
}

/// Whether a host string is a strict dotted quad.
fn check_dotted_quad(h: &str) -> (r: bool)
    ensures
        r == is_dotted_quad(h@),
{
    let len = h.unicode_len();
    let mut dots: Vec<usize> = Vec::new();
    let mut i: usize = 0;
    while i < len
        invariant
            i <= len,
            len == h@.len(),
            forall|k: int|
                0 <= k < dots@.len() ==> (#[trigger] dots@[k]) < i && h@[dots@[k] as int] == '.',
            forall|j: int|
                0 <= j < i && h@[j] == '.' ==> exists|k: int|
                    0 <= k < dots@.len() && #[trigger] dots@[k] == j,
            forall|k1: int, k2: int| 0 <= k1 < k2 < dots@.len() ==> dots@[k1] < dots@[k2],
        decreases len - i,
    {
        if h.get_char(i) == '.' {
            let ghost old_dots = dots@;
            dots.push(i);
            proof {
                assert(dots@ == old_dots.push(i));
                assert(dots@[dots@.len() - 1] == i);
                assert forall|j: int|
                    0 <= j < i + 1 && h@[j] == '.' implies exists|k: int|
                    0 <= k < dots@.len() && #[trigger] dots@[k] == j by {
                    if j == i as int {
                        assert(dots@[dots@.len() - 1] == j);
                    } else {
                        let k = choose|k: int| 0 <= k < old_dots.len() && #[trigger] old_dots[k] == j;
                        assert(dots@[k] == j);
                    }
                }
            }
        }
        i += 1;
    }
    let three = dots.len() == 3;
    let all = if three {
        let a = dots[0];
        let b = dots[1];
        let c = dots[2];
        let g0 = check_octet_group(h, 0, a);
        let g1 = check_octet_group(h, a + 1, b);
        let g2 = check_octet_group(h, b + 1, c);
        let g3 = check_octet_group(h, c + 1, len);
        g0 && g1 && g2 && g3
    } else {
        false
    };
    proof {
        if is_dotted_quad(h@) {
            let (x, y, z) = choose|x: int, y: int, z: int|
                {
                    &&& 0 <= x < y < z < h@.len()
                    &&& #[trigger] h@[x] == '.' && #[trigger] h@[y] == '.' && #[trigger] h@[z]
                        == '.'
                    &&& forall|j: int|
                        0 <= j < h@.len() && j != x && j != y && j != z ==> h@[j] != '.'
                    &&& is_octet_group(h@.subrange(0, x))
                    &&& is_octet_group(h@.subrange(x + 1, y))
                    &&& is_octet_group(h@.subrange(y + 1, z))
                    &&& is_octet_group(h@.subrange(z + 1, h@.len() as int))
                };
            let kx = choose|k: int| 0 <= k < dots@.len() && #[trigger] dots@[k] == x;
            let ky = choose|k: int| 0 <= k < dots@.len() && #[trigger] dots@[k] == y;
            let kz = choose|k: int| 0 <= k < dots@.len() && #[trigger] dots@[k] == z;
            assert(kx != ky && ky != kz && kx != kz);
            assert(dots@.len() >= 3);
            assert forall|k: int| 0 <= k < dots@.len() implies dots@[k] == x || dots@[k] == y
                || dots@[k] == z by {
                assert(h@[dots@[k] as int] == '.');
            }
            if dots@.len() > 3 {
                assert(dots@[0] < dots@[1] < dots@[2] < dots@[3]);
                assert(false);
            }
            assert(dots@[0] == x && dots@[1] == y && dots@[2] == z) by {
                assert(dots@[kx] == x && dots@[ky] == y && dots@[kz] == z);
                assert(forall|k1: int, k2: int|
                    0 <= k1 < k2 < dots@.len() ==> dots@[k1] < dots@[k2]);
            }
            assert(three);
            assert(all);
        }
        if all {
            let a = dots@[0];
            let b = dots@[1];
            let c = dots@[2];
            assert forall|j: int|
                0 <= j < h@.len() && j != a as int && j != b as int && j != c as int implies h@[j]
                != '.' by {
                if h@[j] == '.' {
                    let k = choose|k: int| 0 <= k < dots@.len() && #[trigger] dots@[k] == j;
                    assert(k == 0 || k == 1 || k == 2);
                }
            }
            assert(is_dotted_quad(h@)) by {
                assert(h@[a as int] == '.' && h@[b as int] == '.' && h@[c as int] == '.');
            }
        }
    }
    all
}

/// Whether a string is acceptable as a bracketed host's address part.
fn check_addr_part(a: &str) -> (r: bool)
    ensures
        r == addr_part_ok(a@),
{
    let len = a.unicode_len();
    if len == 0 {
        return false;
    }
    let mut i: usize = 0;
    let mut run: usize = 0;
    let mut dc: Option<usize> = None;
    while i < len
        invariant
            i <= len,
            len == a@.len(),
            forall|k: int| 0 <= k < i ==> addr_char(#[trigger] a@[k]),
            run <= i,
            run <= 4,
            forall|k: int| i - run <= k < i ==> hexish(#[trigger] a@[k]),
            run < i ==> !hexish(a@[i - run - 1]),
            forall|k: int| 0 <= k && k + 4 < i ==> !#[trigger] hex_run5(a@, k),
            match dc {
                None => forall|k: int| k + 1 < i ==> !#[trigger] dc_start(a@, k),
                Some(p) => p + 1 < i && dc_start(a@, p as int) && (forall|k: int|
                    k + 1 < i && k != p ==> !#[trigger] dc_start(a@, k)),
            },
        decreases len - i,
    {
        let c = a.get_char(i);
        let hex = (c >= '0' && c <= '9') || (c >= 'a' && c <= 'f') || (c >= 'A' && c <= 'F');
        if !(hex || c == ':' || c == '.') {
            return false;
        }
        if hex {
            if run == 4 {
                proof {
                    assert(hex_run5(a@, i - 4));
                }
                return false;
            }
            run += 1;
        } else {
            if c == ':' && i > 0 && a.get_char(i - 1) == ':' {
                match dc {
                    None => {
                        dc = Some(i - 1);
                    },
                    Some(p) => {
                        proof {
                            assert(dc_start(a@, p as int) && dc_start(a@, i - 1));
                        }
                        return false;
                    },
                }
            }
            run = 0;
        }
        i += 1;
    }
    proof {
        assert(forall|k: int| !#[trigger] hex_run5(a@, k)) by {
            assert forall|k: int| !#[trigger] hex_run5(a@, k) by {
                if hex_run5(a@, k) {
                    assert(0 <= k && k + 4 < i);
                }
            }
        }
    }
    true
}

/// Whether a string is acceptable between a host's brackets.
fn check_interior(b: &str) -> (r: bool)
    ensures
        r == bracket_interior_ok(b@),
{
    let len = b.unicode_len();
    match crate::strtools::find_char(b, '%') {
        None => {
            proof {
                if exists|p: int| 0 <= p < b@.len() && b@[p] == '%' {
                    let p = choose|p: int| 0 <= p < b@.len() && b@[p] == '%';
                    assert(b@[p] != '%');
                }
            }
            let ok = check_addr_part(b);
            proof {
                assert(b@.subrange(0, b@.len() as int) =~= b@);
            }
            ok
        },
        Some(p) => {
            proof {
                assert(exists|q: int| 0 <= q < b@.len() && b@[q] == '%') by {
                    assert(b@[p as int] == '%');
                }
            }
            if p == 0 || p + 1 >= len {
                proof {
                    if bracket_interior_ok(b@) {
                        let q = choose|q: int|
                            {
                                &&& 0 <= q < b@.len() && b@[q] == '%'
                                &&& forall|k: int| 0 <= k < q ==> b@[k] != '%'
                                &&& q + 1 < b@.len()
                                &&& forall|k: int| q < k < b@.len() ==> is_digit(#[trigger] b@[k])
                                &&& addr_part_ok(b@.subrange(0, q))
                            };
                        assert(q == p as int);
                        assert(addr_part_ok(b@.subrange(0, q)));
                    }
                }
                return false;
            }
            let mut k: usize = p + 1;
            while k < len
                invariant
                    p + 1 <= k <= len,
                    len == b@.len(),
                    b@[p as int] == '%',
                    forall|j: int| 0 <= j < p ==> b@[j] != '%',
                    forall|j: int| p < j < k ==> is_digit(#[trigger] b@[j]),
                decreases len - k,
            {
                let c = b.get_char(k);
                if c < '0' || c > '9' {
                    proof {
                        if bracket_interior_ok(b@) {
                            let q = choose|q: int|
                                {
                                    &&& 0 <= q < b@.len() && b@[q] == '%'
                                    &&& forall|j: int| 0 <= j < q ==> b@[j] != '%'
                                    &&& q + 1 < b@.len()
                                    &&& forall|j: int|
                                        q < j < b@.len() ==> is_digit(#[trigger] b@[j])
                                    &&& addr_part_ok(b@.subrange(0, q))
                                };
                            assert(q == p as int);
                        }
                    }
                    return false;
                }
                k += 1;
            }
            let addr = b.substring_char(0, p);
            let ok = check_addr_part(addr);
            proof {
                if bracket_interior_ok(b@) {
                    let q = choose|q: int|
                        {
                            &&& 0 <= q < b@.len() && b@[q] == '%'
                            &&& forall|j: int| 0 <= j < q ==> b@[j] != '%'
                            &&& q + 1 < b@.len()
                            &&& forall|j: int| q < j < b@.len() ==> is_digit(#[trigger] b@[j])
                            &&& addr_part_ok(b@.subrange(0, q))
                        };
                    assert(q == p as int);
                }
            }
            ok
        },
    }
}

/// Whether a host string is a bracketed form with an acceptable interior.
fn check_bracket_host(h: &str) -> (r: bool)
    ensures
        r == (h@.len() > 2 && h@[0] == '[' && h@[h@.len() - 1] == ']' && bracket_interior_ok(
            h@.subrange(1, h@.len() - 1),
        )),
{
    let len = h.unicode_len();
    if len <= 2 {
        return false;
    }
    if h.get_char(0) != '[' || h.get_char(len - 1) != ']' {
        return false;
    }
    let inner = h.substring_char(1, len - 1);
    check_interior(inner)
}

/// Read a string as a decimal 16-bit port: one or more digits, at most
/// 65535.
pub fn parse_port(s: &str) -> (r: Option<u16>)
    ensures
        match r {
            Some(v) => parse_port_spec(s@) == Some(v as int),
            None => parse_port_spec(s@) is None,
        },
{
    proof {
        assert(s@.subrange(0, s@.len() as int) =~= s@);
    }
    match read_digits(s, 0) {
        Some(v) => {
            if v <= 0xffff {
                Some(v as u16)
            } else {
                None
            }
        },
        None => None,
    }
}

/// Extract the port of a socket-address string: the digits after the last
/// colon, with the host part before it checked against the accepted
/// grammar.
pub fn parse_addr_port(s: &str) -> (r: Option<u16>)
    ensures
        match r {
            Some(v) => addr_port_spec(s@) == Some(v as int),
            None => addr_port_spec(s@) is None,
        },
{
    let len = s.unicode_len();
    let i = match find_last_colon(s) {
        Some(i) => i,
        None => {
            proof {
                if exists|k: int| 0 <= k < s@.len() && s@[k] == ':' {
                    let k = choose|k: int| 0 <= k < s@.len() && s@[k] == ':';
                    assert(s@[k] != ':');
                }
            }
            return None;
        },
    };
    let host = s.substring_char(0, i);
    let port = s.substring_char(i + 1, len);
    proof {
        assert(exists|k: int| 0 <= k < s@.len() && #[trigger] s@[k] == ':') by {
            assert(s@[i as int] == ':');
        }
    }
    let host_fine = if check_dotted_quad(host) {
        true
    } else {
        check_bracket_host(host)
    };
    if !host_fine {
        return None;
    }
    parse_port(port)
}

} // verus!
