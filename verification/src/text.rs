//! Character-level facts about names and the loops that decide them.
use vstd::prelude::*;
use vstd::string::*;

verus! {

/// The Unicode `White_Space` property, which `char::is_whitespace` reports.
pub open spec fn is_space(c: char) -> bool {
    ||| ('\u{9}' <= c && c <= '\u{D}')
    ||| c == ' '
    ||| c == '\u{85}'
    ||| c == '\u{A0}'
    ||| c == '\u{1680}'
    ||| ('\u{2000}' <= c && c <= '\u{200A}')
    ||| c == '\u{2028}'
    ||| c == '\u{2029}'
    ||| c == '\u{202F}'
    ||| c == '\u{205F}'
    ||| c == '\u{3000}'
}

/// Every character of `s` is white space (so trimming `s` leaves nothing).
pub open spec fn all_space(s: Seq<char>) -> bool {
    forall|i: int| 0 <= i < s.len() ==> #[trigger] is_space(s[i])
}

/// Some character of `s` is white space.
pub open spec fn any_space(s: Seq<char>) -> bool {
    exists|i: int| 0 <= i < s.len() && #[trigger] is_space(s[i])
}

/// `a` is directly followed by `b` somewhere in `s`.
pub open spec fn has_pair(s: Seq<char>, a: char, b: char) -> bool {
    exists|i: int| 0 <= i && i + 1 < s.len() && #[trigger] s[i] == a && s[i + 1] == b
}

/// `s` begins with the character `c`.
pub open spec fn starts_with(s: Seq<char>, c: char) -> bool {
    s.len() > 0 && s[0] == c
}

/// `s` ends with the character `c`.
pub open spec fn ends_with(s: Seq<char>, c: char) -> bool {
    s.len() > 0 && s[s.len() - 1] == c
}

/// `k` is the position of the first `c` in `s`.
pub open spec fn is_first_index(s: Seq<char>, c: char, k: int) -> bool {
    &&& 0 <= k < s.len()
    &&& s[k] == c
    &&& forall|j: int| 0 <= j < k ==> #[trigger] s[j] != c
}

/// `k` is the length of the run of `c` that `s` begins with.
pub open spec fn is_leading_run(s: Seq<char>, c: char, k: int) -> bool {
    &&& 0 <= k <= s.len()
    &&& forall|j: int| 0 <= j < k ==> #[trigger] s[j] == c
    &&& (k == s.len() || s[k] != c)
}

/// Position of the first `c` in `s` (meaningful when `s` contains `c`).
pub open spec fn first_index(s: Seq<char>, c: char) -> int {
    choose|k: int| is_first_index(s, c, k)
}

/// `s` without the run of `c` it begins with (what `trim_start_matches(c)` gives).
pub open spec fn strip_leading(s: Seq<char>, c: char) -> Seq<char> {
    s.skip(choose|k: int| is_leading_run(s, c, k))
}

/// There is one first position of `c`.
pub proof fn lemma_first_index_unique(s: Seq<char>, c: char, k: int)
    requires
        is_first_index(s, c, k),
    ensures
        first_index(s, c) == k,
{
    let m = first_index(s, c);
    assert(is_first_index(s, c, m));
    if m < k {
        assert(s[m] != c);
    } else if k < m {
        assert(s[k] != c);
    }
}

/// A string that contains `c` has a first position of `c`.
pub proof fn lemma_first_index_exists(s: Seq<char>, c: char)
    requires
        s.contains(c),
    ensures
        is_first_index(s, c, first_index(s, c)),
    decreases s.len(),
{
    if s[0] == c {
        assert(is_first_index(s, c, 0));
    } else {
        let t = s.skip(1);
        let i = choose|i: int| 0 <= i < s.len() && s[i] == c;
        assert(t[i - 1] == c);
        lemma_first_index_exists(t, c);
        let k = first_index(t, c);
        assert forall|j: int| 0 <= j < k + 1 implies #[trigger] s[j] != c by {
            if j > 0 {
                assert(s[j] == t[j - 1]);
            }
        }
        assert(is_first_index(s, c, k + 1));
    }
}

/// There is one length of the leading run of `c`.
pub proof fn lemma_strip_leading(s: Seq<char>, c: char, k: int)
    requires
        is_leading_run(s, c, k),
    ensures
        strip_leading(s, c) == s.skip(k),
{
    let m = choose|m: int| is_leading_run(s, c, m);
    assert(is_leading_run(s, c, m));
    if m < k {
        assert(s[m] == c);
    } else if k < m {
        assert(s[k] == c);
    }
}

/// `char::is_whitespace`, decided by the code points of the `White_Space` property.
pub fn char_is_space(c: char) -> (b: bool)
    ensures
        b == is_space(c),
{
    ('\u{9}' <= c && c <= '\u{D}') || c == ' ' || c == '\u{85}' || c == '\u{A0}' || c
        == '\u{1680}' || ('\u{2000}' <= c && c <= '\u{200A}') || c == '\u{2028}' || c
        == '\u{2029}' || c == '\u{202F}' || c == '\u{205F}' || c == '\u{3000}'
}

/// Whether `s` contains the character `c`.
pub fn str_contains_char(s: &str, c: char) -> (b: bool)
    ensures
        b == s@.contains(c),
{
    let n: usize = s.unicode_len();
    let mut i: usize = 0;
    while i < n
        invariant
            n == s@.len(),
            i <= n,
            forall|j: int| 0 <= j < i ==> s@[j] != c,
        decreases n - i,
    {
        if s.get_char(i) == c {
            assert(s@[i as int] == c);
            return true;
        }
        i = i + 1;
    }
    false
}

/// Whether some character of `s` is white space.
pub fn str_any_space(s: &str) -> (b: bool)
    ensures
        b == any_space(s@),
{
    let n: usize = s.unicode_len();
    let mut i: usize = 0;
    while i < n
        invariant
            n == s@.len(),
            i <= n,
            forall|j: int| 0 <= j < i ==> !is_space(#[trigger] s@[j]),
        decreases n - i,
    {
        if char_is_space(s.get_char(i)) {
            return true;
        }
        i = i + 1;
    }
    false
}

/// Whether every character of `s` is white space.
pub fn str_all_space(s: &str) -> (b: bool)
    ensures
        b == all_space(s@),
{
    let n: usize = s.unicode_len();
    let mut i: usize = 0;
    while i < n
        invariant
            n == s@.len(),
            i <= n,
            forall|j: int| 0 <= j < i ==> is_space(#[trigger] s@[j]),
        decreases n - i,
    {
        if !char_is_space(s.get_char(i)) {
            return false;
        }
        i = i + 1;
    }
    true
}

/// Whether `a` is directly followed by `b` somewhere in `s`.
pub fn str_has_pair(s: &str, a: char, b: char) -> (r: bool)
    ensures
        r == has_pair(s@, a, b),
{
    let n: usize = s.unicode_len();
    if n < 2 {
        return false;
    }
    let mut i: usize = 0;
    while i + 1 < n
        invariant
            n == s@.len(),
            n >= 2,
            i + 1 <= n,
            forall|j: int| 0 <= j < i ==> !(#[trigger] s@[j] == a && s@[j + 1] == b),
        decreases n - i,
    {
        if s.get_char(i) == a && s.get_char(i + 1) == b {
            return true;
        }
        i = i + 1;
    }
    false
}

/// Position of the first `c` in `s`, if any.
pub fn str_find_char(s: &str, c: char) -> (r: Option<usize>)
    ensures
        match r {
            Some(k) => is_first_index(s@, c, k as int) && k == first_index(s@, c),
            None => !s@.contains(c),
        },
{
    let n: usize = s.unicode_len();
    let mut i: usize = 0;
    while i < n
        invariant
            n == s@.len(),
            i <= n,
            forall|j: int| 0 <= j < i ==> #[trigger] s@[j] != c,
        decreases n - i,
    {
        if s.get_char(i) == c {
            proof {
                lemma_first_index_unique(s@, c, i as int);
            }
            return Some(i);
        }
        i = i + 1;
    }
    None
}

/// Length of the run of `c` that `s` begins with.
pub fn str_leading_run(s: &str, c: char) -> (r: usize)
    ensures
        is_leading_run(s@, c, r as int),
        strip_leading(s@, c) == s@.skip(r as int),
{
    let n: usize = s.unicode_len();
    let mut i: usize = 0;
    while i < n && s.get_char(i) == c
        invariant
            n == s@.len(),
            i <= n,
            forall|j: int| 0 <= j < i ==> #[trigger] s@[j] == c,
        decreases n - i,
    {
        i = i + 1;
    }
    proof {
        lemma_strip_leading(s@, c, i as int);
    }
    i
}

/// Whether `s` begins with `c`.
pub fn str_starts_with_char(s: &str, c: char) -> (b: bool)
    ensures
        b == starts_with(s@, c),
{
    let n: usize = s.unicode_len();
    n > 0 && s.get_char(0) == c
}

/// Whether `s` ends with `c`.
pub fn str_ends_with_char(s: &str, c: char) -> (b: bool)
    ensures
        b == ends_with(s@, c),
{
    let n: usize = s.unicode_len();
    n > 0 && s.get_char(n - 1) == c
}


/// The decimal digit character of `d` (for `d < 10`).
pub open spec fn digit_char(d: nat) -> char {
    if d == 0 {
        '0'
    } else if d == 1 {
        '1'
    } else if d == 2 {
        '2'
    } else if d == 3 {
        '3'
    } else if d == 4 {
        '4'
    } else if d == 5 {
        '5'
    } else if d == 6 {
        '6'
    } else if d == 7 {
        '7'
    } else if d == 8 {
        '8'
    } else {
        '9'
    }
}

/// The decimal text of `n`, without leading zeros (what `Display` prints for an integer).
pub open spec fn decimal(n: nat) -> Seq<char>
    decreases n,
{
    if n < 10 {
        seq![digit_char(n)]
    } else {
        decimal(n / 10) + seq![digit_char(n % 10)]
    }
}

fn digit_text(d: u32) -> (r: &'static str)
    requires
        d < 10,
    ensures
        r@ == seq![digit_char(d as nat)],
{
    proof {
        reveal_strlit("0");
        reveal_strlit("1");
        reveal_strlit("2");
        reveal_strlit("3");
        reveal_strlit("4");
        reveal_strlit("5");
        reveal_strlit("6");
        reveal_strlit("7");
        reveal_strlit("8");
        reveal_strlit("9");
    }
    if d == 0 {
        "0"
    } else if d == 1 {
        "1"
    } else if d == 2 {
        "2"
    } else if d == 3 {
        "3"
    } else if d == 4 {
        "4"
    } else if d == 5 {
        "5"
    } else if d == 6 {
        "6"
    } else if d == 7 {
        "7"
    } else if d == 8 {
        "8"
    } else {
        "9"
    }
}

/// The decimal text of `n`.
pub fn decimal_text(n: u32) -> (r: String)
    ensures
        r@ == decimal(n as nat),
    decreases n,
{
    if n < 10 {
        String::from_str(digit_text(n))
    } else {
        let mut r = decimal_text(n / 10);
        r.append(digit_text(n % 10));
        r
    }
}

/// `k` is the position of the last `c` in `s`.
pub open spec fn is_last_index(s: Seq<char>, c: char, k: int) -> bool {
    &&& 0 <= k < s.len()
    &&& s[k] == c
    &&& forall|j: int| k < j < s.len() ==> #[trigger] s[j] != c
}

/// What follows the last `c` in `s`, or all of `s` if it holds no `c`
/// (what `s.rsplit(c).next()` gives).
pub open spec fn after_last(s: Seq<char>, c: char) -> Seq<char> {
    if s.contains(c) {
        s.skip((choose|k: int| is_last_index(s, c, k)) + 1)
    } else {
        s
    }
}

/// What precedes the first `c` in `s`, or all of `s` if it holds no `c`
/// (what `s.split(c).next()` gives).
pub open spec fn before_first(s: Seq<char>, c: char) -> Seq<char> {
    if s.contains(c) {
        s.take(first_index(s, c))
    } else {
        s
    }
}

/// Position of the last `c` in `s`, if any.
pub fn str_rfind_char(s: &str, c: char) -> (r: Option<usize>)
    ensures
        match r {
            Some(k) => is_last_index(s@, c, k as int),
            None => !s@.contains(c),
        },
{
    let n: usize = s.unicode_len();
    let mut i: usize = n;
    while i > 0
        invariant
            n == s@.len(),
            i <= n,
            forall|j: int| i <= j < n ==> #[trigger] s@[j] != c,
        decreases i,
    {
        if s.get_char(i - 1) == c {
            return Some(i - 1);
        }
        i = i - 1;
    }
    None
}

/// What follows the last `c` in `s`, or all of `s`.
pub fn str_after_last(s: &str, c: char) -> (r: String)
    ensures
        r@ == after_last(s@, c),
{
    let n: usize = s.unicode_len();
    match str_rfind_char(s, c) {
        Some(k) => {
            proof {
                let m = choose|m: int| is_last_index(s@, c, m);
                assert(is_last_index(s@, c, m));
                if m < k {
                    assert(s@[k as int] == c);
                } else if k < m {
                    assert(s@[m] == c);
                }
                assert(s@.contains(c));
            }
            let t = s.substring_char(k + 1, n);
            assert(t@ =~= s@.skip(k + 1));
            t.to_owned()
        },
        None => s.to_owned(),
    }
}

/// What precedes the first `c` in `s`, or all of `s`.
pub fn str_before_first(s: &str, c: char) -> (r: String)
    ensures
        r@ == before_first(s@, c),
{
    match str_find_char(s, c) {
        Some(k) => {
            let t = s.substring_char(0, k);
            assert(t@ =~= s@.take(k as int));
            t.to_owned()
        },
        None => s.to_owned(),
    }
}

/// Whether `s` begins with the characters of `prefix`.
pub fn str_starts_with(s: &str, prefix: &str) -> (b: bool)
    ensures
        b == (prefix@.len() <= s@.len() && s@.take(prefix@.len() as int) == prefix@),
{
    let n: usize = s.unicode_len();
    let m: usize = prefix.unicode_len();
    if m > n {
        return false;
    }
    let mut i: usize = 0;
    while i < m
        invariant
            n == s@.len(),
            m == prefix@.len(),
            m <= n,
            i <= m,
            forall|j: int| 0 <= j < i ==> #[trigger] s@[j] == prefix@[j],
        decreases m - i,
    {
        if s.get_char(i) != prefix.get_char(i) {
            assert(s@.take(m as int)[i as int] != prefix@[i as int]);
            return false;
        }
        i = i + 1;
    }
    assert(s@.take(m as int) =~= prefix@);
    true
}

/// Whether two strings have the same characters.
pub fn str_eq(a: &str, b: &str) -> (r: bool)
    ensures
        r == (a@ == b@),
{
    let n: usize = a.unicode_len();
    let m: usize = b.unicode_len();
    if n != m {
        return false;
    }
    let r = str_starts_with(a, b);
    assert(a@.take(m as int) =~= a@);
    r
}


/// An ASCII decimal digit.
pub open spec fn is_digit(c: char) -> bool {
    '0' <= c && c <= '9'
}

/// Every character of `s` is an ASCII decimal digit.
pub open spec fn all_digits(s: Seq<char>) -> bool {
    forall|i: int| 0 <= i < s.len() ==> #[trigger] is_digit(s[i])
}

/// The value of a digit character.
pub open spec fn digit_value(c: char) -> int {
    c as int - '0' as int
}

/// The value of a run of decimal digits.
pub open spec fn digits_value(s: Seq<char>) -> int
    decreases s.len(),
{
    if s.len() == 0 {
        0
    } else {
        digits_value(s.drop_last()) * 10 + digit_value(s.last())
    }
}

/// What `str::parse::<u16>` accepts: an optional `+`, then one or more ASCII digits
/// whose value fits in a `u16`.
pub open spec fn parse_u16_text(s: Seq<char>) -> Option<u16> {
    let d = if s.len() > 0 && s[0] == '+' {
        s.skip(1)
    } else {
        s
    };
    if d.len() == 0 || !all_digits(d) || digits_value(d) > 65535 {
        None
    } else {
        Some(digits_value(d) as u16)
    }
}

/// Read a decimal `u16` as `str::parse::<u16>` does.
pub fn parse_u16(s: &str) -> (r: Option<u16>)
    ensures
        r == parse_u16_text(s@),
{
    let n: usize = s.unicode_len();
    let start: usize = if n > 0 && s.get_char(0) == '+' {
        1
    } else {
        0
    };
    let d = s.substring_char(start, n);
    assert(d@ =~= (if s@.len() > 0 && s@[0] == '+' {
        s@.skip(1)
    } else {
        s@
    }));
    let m: usize = n - start;
    if m == 0 {
        return None;
    }
    let mut v: u32 = 0;
    let mut i: usize = 0;
    while i < m
        invariant
            m == d@.len(),
            d@ == (if s@.len() > 0 && s@[0] == '+' {
                s@.skip(1)
            } else {
                s@
            }),
            i <= m,
            all_digits(d@.take(i as int)),
            v as int == (if digits_value(d@.take(i as int)) >= 70000 {
                70000
            } else {
                digits_value(d@.take(i as int))
            }),
            digits_value(d@.take(i as int)) >= 0,
        decreases m - i,
    {
        let c = d.get_char(i);
        if !('0' <= c && c <= '9') {
            assert(!is_digit(d@[i as int]));
            return None;
        }
        let dv: u32 = (c as u32) - ('0' as u32);
        proof {
            let t = d@.take(i + 1);
            assert(t.drop_last() =~= d@.take(i as int));
            assert(t.last() == c);
            assert(digits_value(t) == digits_value(d@.take(i as int)) * 10 + dv);
            assert(all_digits(t)) by {
                assert forall|j: int| 0 <= j < t.len() implies #[trigger] is_digit(t[j]) by {
                    if j < i {
                        assert(t[j] == d@.take(i as int)[j]);
                    }
                }
            }
        }
        let next: u32 = v * 10 + dv;
        v = if next >= 70000 {
            70000
        } else {
            next
        };
        i = i + 1;
    }
    assert(d@.take(m as int) =~= d@);
    if v > 65535 {
        None
    } else {
        Some(v as u16)
    }
}


/// A dotted-decimal octet as `Ipv4Addr`'s parser accepts it: one to three ASCII
/// digits, no leading zero unless it is `0`, a value of at most 255.
pub open spec fn octet_ok(g: Seq<char>) -> bool {
    &&& 1 <= g.len() <= 3
    &&& all_digits(g)
    &&& (g.len() == 1 || g[0] != '0')
    &&& digits_value(g) <= 255
}

/// `s` is four octets separated by dots at positions `a`, `b` and `c`.
pub open spec fn is_ipv4_split(s: Seq<char>, a: int, b: int, c: int) -> bool {
    &&& 0 <= a < b < c < s.len()
    &&& s[a] == '.' && s[b] == '.' && s[c] == '.'
    &&& octet_ok(s.take(a))
    &&& octet_ok(s.subrange(a + 1, b))
    &&& octet_ok(s.subrange(b + 1, c))
    &&& octet_ok(s.skip(c + 1))
}

/// The address of a dotted-decimal IPv4 text as a big-endian `u32`, when the text is
/// four valid octets separated by dots (what `str::parse::<Ipv4Addr>` accepts).
pub open spec fn parse_ipv4_text(s: Seq<char>) -> Option<u32> {
    if exists|a: int, b: int, c: int| is_ipv4_split(s, a, b, c) {
        let (a, b, c) = choose|a: int, b: int, c: int| is_ipv4_split(s, a, b, c);
        Some(
            (digits_value(s.take(a)) * 0x100_0000 + digits_value(s.subrange(a + 1, b)) * 0x1_0000
                + digits_value(s.subrange(b + 1, c)) * 0x100 + digits_value(s.skip(c + 1))) as u32,
        )
    } else {
        None
    }
}

/// `k` is the first `c` of `s` at or after `start`.
pub open spec fn is_first_from(s: Seq<char>, c: char, start: int, k: int) -> bool {
    &&& start <= k < s.len()
    &&& s[k] == c
    &&& forall|j: int| start <= j < k ==> #[trigger] s[j] != c
}

/// Position of the first `c` of `s` at or after `start`.
pub fn str_find_from(s: &str, c: char, start: usize) -> (r: Option<usize>)
    ensures
        match r {
            Some(k) => is_first_from(s@, c, start as int, k as int),
            None => forall|j: int| start <= j < s@.len() ==> #[trigger] s@[j] != c,
        },
{
    let n: usize = s.unicode_len();
    let mut i: usize = start;
    while i < n
        invariant
            n == s@.len(),
            start <= i,
            forall|j: int| start <= j < i && j < n ==> #[trigger] s@[j] != c,
        decreases n - i,
    {
        if s.get_char(i) == c {
            return Some(i);
        }
        i = i + 1;
    }
    None
}

/// A digit is not a dot.
proof fn lemma_digits_no_dot(g: Seq<char>, j: int)
    requires
        all_digits(g),
        0 <= j < g.len(),
    ensures
        g[j] != '.',
{
    assert(is_digit(g[j]));
}

/// The dots of a split are the first dots after each other.
proof fn lemma_split_unique(s: Seq<char>, a: int, b: int, c: int, a2: int, b2: int, c2: int)
    requires
        is_ipv4_split(s, a2, b2, c2),
        is_first_from(s, '.', 0, a),
        is_first_from(s, '.', a + 1, b),
        is_first_from(s, '.', b + 1, c),
    ensures
        a2 == a && b2 == b && c2 == c,
{
    if a < a2 {
        lemma_digits_no_dot(s.take(a2), a);
    } else if a2 < a {
        assert(s[a2] != '.');
    }
    if b < b2 {
        lemma_digits_no_dot(s.subrange(a + 1, b2), b - a - 1);
    } else if b2 < b {
        assert(s[b2] != '.');
    }
    if c < c2 {
        lemma_digits_no_dot(s.subrange(b + 1, c2), c - b - 1);
    } else if c2 < c {
        assert(s[c2] != '.');
    }
}

/// Read an octet; its value when it is valid.
fn parse_octet(g: &str) -> (r: Option<u32>)
    ensures
        r is Some <==> octet_ok(g@),
        r matches Some(v) ==> v == digits_value(g@),
{
    let n: usize = g.unicode_len();
    if n < 1 || n > 3 {
        return None;
    }
    let mut v: u32 = 0;
    let mut i: usize = 0;
    while i < n
        invariant
            n == g@.len(),
            1 <= n <= 3,
            i <= n,
            all_digits(g@.take(i as int)),
            v as int == digits_value(g@.take(i as int)),
            0 <= v < 1000,
            (i == 0 ==> v < 1) && (i == 1 ==> v < 10) && (i == 2 ==> v < 100),
        decreases n - i,
    {
        let c = g.get_char(i);
        if !('0' <= c && c <= '9') {
            assert(!is_digit(g@[i as int]));
            return None;
        }
        let dv: u32 = (c as u32) - ('0' as u32);
        proof {
            let t = g@.take(i + 1);
            assert(t.drop_last() =~= g@.take(i as int));
            assert(t.last() == c);
            assert forall|j: int| 0 <= j < t.len() implies #[trigger] is_digit(t[j]) by {
                if j < i {
                    assert(t[j] == g@.take(i as int)[j]);
                }
            }
        }
        v = v * 10 + dv;
        i = i + 1;
    }
    assert(g@.take(n as int) =~= g@);
    if n > 1 && g.get_char(0) == '0' {
        return None;
    }
    if v > 255 {
        return None;
    }
    Some(v)
}

/// Read a dotted-decimal IPv4 address as `str::parse::<Ipv4Addr>` does; the address
/// as a big-endian `u32`.
pub fn parse_ipv4(s: &str) -> (r: Option<u32>)
    ensures
        r == parse_ipv4_text(s@),
{
    let n: usize = s.unicode_len();
    let ghost sv = s@;
    let a = match str_find_from(s, '.', 0) {
        Some(a) => a,
        None => {
            proof {
                if exists|a: int, b: int, c: int| is_ipv4_split(sv, a, b, c) {
                    let (a2, b2, c2) = choose|a: int, b: int, c: int| is_ipv4_split(sv, a, b, c);
                    assert(sv[a2] == '.');
                }
            }
            return None;
        },
    };
    let b = match str_find_from(s, '.', a + 1) {
        Some(b) => b,
        None => {
            proof {
                if exists|a: int, b: int, c: int| is_ipv4_split(sv, a, b, c) {
                    let (a2, b2, c2) = choose|a: int, b: int, c: int| is_ipv4_split(sv, a, b, c);
                    if a < a2 {
                        lemma_digits_no_dot(sv.take(a2), a as int);
                    } else if a2 < a {
                        assert(sv[a2] != '.');
                    }
                    assert(sv[b2] == '.');
                }
            }
            return None;
        },
    };
    let c = match str_find_from(s, '.', b + 1) {
        Some(c) => c,
        None => {
            proof {
                if exists|a: int, b: int, c: int| is_ipv4_split(sv, a, b, c) {
                    let (a2, b2, c2) = choose|a: int, b: int, c: int| is_ipv4_split(sv, a, b, c);
                    if a < a2 {
                        lemma_digits_no_dot(sv.take(a2), a as int);
                    } else if a2 < a {
                        assert(sv[a2] != '.');
                    }
                    if b < b2 {
                        lemma_digits_no_dot(sv.subrange(a + 1, b2), b - a - 1);
                    } else if b2 < b {
                        assert(sv[b2] != '.');
                    }
                    assert(sv[c2] == '.');
                }
            }
            return None;
        },
    };
    let g0 = s.substring_char(0, a);
    let g1 = s.substring_char(a + 1, b);
    let g2 = s.substring_char(b + 1, c);
    let g3 = s.substring_char(c + 1, n);
    assert(g0@ =~= sv.take(a as int));
    assert(g3@ =~= sv.skip(c + 1));
    let o0 = parse_octet(g0);
    let o1 = parse_octet(g1);
    let o2 = parse_octet(g2);
    let o3 = parse_octet(g3);
    proof {
        if exists|a: int, b: int, c: int| is_ipv4_split(sv, a, b, c) {
            let (a2, b2, c2) = choose|a: int, b: int, c: int| is_ipv4_split(sv, a, b, c);
            lemma_split_unique(sv, a as int, b as int, c as int, a2, b2, c2);
        }
    }
    match (o0, o1, o2, o3) {
        (Some(v0), Some(v1), Some(v2), Some(v3)) => {
            assert(is_ipv4_split(sv, a as int, b as int, c as int));
            Some(v0 * 0x100_0000 + v1 * 0x1_0000 + v2 * 0x100 + v3)
        },
        _ => None,
    }
}

} // verus!
