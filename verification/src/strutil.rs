//! Verified string helpers: equality, prefix/suffix tests, searching,
//! trimming and integer parsing over the character view of a string.

use vstd::prelude::*;

verus! {

/// Exact string equality, by characters.
pub fn str_eq(a: &str, b: &str) -> (r: bool)
    ensures
        r == (a@ == b@),
{
    let alen = a.unicode_len();
    let blen = b.unicode_len();
    if alen != blen {
        return false;
    }
    let mut i: usize = 0;
    while i < alen
        invariant
            alen == a@.len(),
            blen == b@.len(),
            alen == blen,
            i <= alen,
            forall|j: int| 0 <= j < i ==> a@[j] == b@[j],
        decreases alen - i,
    {
        if a.get_char(i) != b.get_char(i) {
            return false;
        }
        i = i + 1;
    }
    proof {
        assert(a@ =~= b@);
    }
    true
}

/// Whether `s` begins with `prefix`, over character views.
pub open spec fn spec_starts_with(s: Seq<char>, prefix: Seq<char>) -> bool {
    s.len() >= prefix.len() && s.subrange(0, prefix.len() as int) == prefix
}

/// Whether the string begins with the given prefix.
pub fn str_starts_with(s: &str, prefix: &str) -> (r: bool)
    ensures
        r == spec_starts_with(s@, prefix@),
{
    let slen = s.unicode_len();
    let plen = prefix.unicode_len();
    if slen < plen {
        return false;
    }
    let mut i: usize = 0;
    while i < plen
        invariant
            slen == s@.len(),
            plen == prefix@.len(),
            plen <= slen,
            i <= plen,
            forall|j: int| 0 <= j < i ==> s@[j] == prefix@[j],
        decreases plen - i,
    {
        if s.get_char(i) != prefix.get_char(i) {
            proof {
                assert(s@.subrange(0, plen as int)[i as int] != prefix@[i as int]);
            }
            return false;
        }
        i = i + 1;
    }
    proof {
        assert(s@.subrange(0, plen as int) =~= prefix@);
    }
    true
}

/// Whether `s` ends with `suffix`, over character views.
pub open spec fn spec_ends_with(s: Seq<char>, suffix: Seq<char>) -> bool {
    s.len() >= suffix.len() && s.subrange(s.len() - suffix.len(), s.len() as int) == suffix
}

/// Whether the string ends with the given suffix.
pub fn str_ends_with(s: &str, suffix: &str) -> (r: bool)
    ensures
        r == spec_ends_with(s@, suffix@),
{
    let slen = s.unicode_len();
    let xlen = suffix.unicode_len();
    if slen < xlen {
        return false;
    }
    let base = slen - xlen;
    let mut i: usize = 0;
    while i < xlen
        invariant
            slen == s@.len(),
            xlen == suffix@.len(),
            xlen <= slen,
            base == slen - xlen,
            i <= xlen,
            forall|j: int| 0 <= j < i ==> s@[base + j] == suffix@[j],
        decreases xlen - i,
    {
        if s.get_char(base + i) != suffix.get_char(i) {
            proof {
                assert(s@.subrange(base as int, slen as int)[i as int] != suffix@[i as int]);
            }
            return false;
        }
        i = i + 1;
    }
    proof {
        assert(s@.subrange(base as int, slen as int) =~= suffix@);
    }
    true
}

/// The least index at which character `c` occurs in `s`, if any.
pub open spec fn spec_find_char(s: Seq<char>, c: char) -> Option<int>
    decreases s.len(),
{
    if s.len() == 0 {
        None
    } else if s[0] == c {
        Some(0int)
    } else {
        match spec_find_char(s.drop_first(), c) {
            Some(j) => Some(j + 1),
            None => None,
        }
    }
}

/// The found index is in range, holds `c`, and nothing before it does.
pub proof fn lemma_find_char_props(s: Seq<char>, c: char)
    ensures
        spec_find_char(s, c) matches Some(j) ==> 0 <= j < s.len() && s[j] == c && forall|k: int|
            0 <= k < j ==> s[k] != c,
        spec_find_char(s, c) is None ==> forall|k: int| 0 <= k < s.len() ==> s[k] != c,
    decreases s.len(),
{
    if s.len() > 0 && s[0] != c {
        lemma_find_char_props(s.drop_first(), c);
        match spec_find_char(s.drop_first(), c) {
            Some(j) => {
                assert(spec_find_char(s, c) == Some(j + 1));
                assert(s[j + 1] == s.drop_first()[j]);
                assert forall|k: int| 0 <= k < j + 1 implies s[k] != c by {
                    if k > 0 {
                        assert(s.drop_first()[k - 1] != c);
                    }
                }
            },
            None => {
                assert forall|k: int| 0 <= k < s.len() implies s[k] != c by {
                    if k > 0 {
                        assert(s.drop_first()[k - 1] != c);
                    }
                }
            },
        }
    }
}

/// Find the first occurrence of a character in a string.
pub fn find_char(s: &str, c: char) -> (r: Option<usize>)
    ensures
        r matches Some(i) ==> spec_find_char(s@, c) == Some(i as int),
        r is None ==> spec_find_char(s@, c) is None,
{
    let len = s.unicode_len();
    let mut i: usize = 0;
    while i < len
        invariant
            len == s@.len(),
            i <= len,
            forall|k: int| 0 <= k < i ==> s@[k] != c,
        decreases len - i,
    {
        if s.get_char(i) == c {
            proof {
                lemma_find_char_props(s@, c);
                if spec_find_char(s@, c) is None {
                    assert(s@[i as int] != c);
                }
                let j = spec_find_char(s@, c)->Some_0;
                if j < i {
                    assert(s@[j] != c);
                }
                if j > i {
                    assert(s@[i as int] != c);
                }
            }
            return Some(i);
        }
        i = i + 1;
    }
    proof {
        lemma_find_char_props(s@, c);
        if spec_find_char(s@, c) is Some {
            let j = spec_find_char(s@, c)->Some_0;
            assert(s@[j] != c);
        }
    }
    None
}

/// A copy of the substring of `s` from `from` (inclusive) to `to` (exclusive).
pub fn substring(s: &str, from: usize, to: usize) -> (r: String)
    requires
        from <= to <= s@.len(),
    ensures
        r@ == s@.subrange(from as int, to as int),
{
    let sub = s.substring_char(from, to);
    sub.to_owned()
}

/// The rest of `s` after `prefix`, when `s` begins with it.
pub fn strip_prefix(s: &str, prefix: &str) -> (r: Option<String>)
    ensures
        spec_starts_with(s@, prefix@) ==> (r matches Some(rest) && rest@ == s@.subrange(
            prefix@.len() as int,
            s@.len() as int,
        )),
        !spec_starts_with(s@, prefix@) ==> r is None,
{
    if str_starts_with(s, prefix) {
        let plen = prefix.unicode_len();
        let slen = s.unicode_len();
        Some(substring(s, plen, slen))
    } else {
        None
    }
}

/// The front of `s` before `suffix`, when `s` ends with it.
pub fn strip_suffix(s: &str, suffix: &str) -> (r: Option<String>)
    ensures
        spec_ends_with(s@, suffix@) ==> (r matches Some(front) && front@ == s@.subrange(
            0,
            s@.len() - suffix@.len(),
        )),
        !spec_ends_with(s@, suffix@) ==> r is None,
{
    if str_ends_with(s, suffix) {
        let xlen = suffix.unicode_len();
        let slen = s.unicode_len();
        Some(substring(s, 0, slen - xlen))
    } else {
        None
    }
}

/// Whether `pat` occurs anywhere in `s`, over character views.
pub open spec fn spec_contains(s: Seq<char>, pat: Seq<char>) -> bool {
    exists|i: int|
        0 <= i <= s.len() - pat.len() && #[trigger] s.subrange(i, i + pat.len() as int) == pat
}

/// Whether the string contains the given pattern anywhere.
pub fn str_contains(s: &str, pat: &str) -> (r: bool)
    ensures
        r == spec_contains(s@, pat@),
{
    let slen = s.unicode_len();
    let plen = pat.unicode_len();
    if plen > slen {
        return false;
    }
    if plen == 0 {
        proof {
            assert(s@.subrange(0, 0 + pat@.len() as int) =~= pat@);
        }
        return true;
    }
    let last = slen - plen;
    let mut i: usize = 0;
    while i <= last
        invariant
            slen == s@.len(),
            plen == pat@.len(),
            1 <= plen <= slen,
            last == slen - plen,
            i <= last + 1,
            forall|k: int| 0 <= k < i ==> #[trigger] s@.subrange(k, k + pat@.len() as int)
                != pat@,
        decreases last + 1 - i,
    {
        let mut j: usize = 0;
        let mut matches_here = true;
        while j < plen
            invariant
                slen == s@.len(),
                plen == pat@.len(),
                plen <= slen,
                i <= slen - plen,
                last == slen - plen,
                j <= plen,
                matches_here ==> forall|k: int| 0 <= k < j ==> s@[i + k] == pat@[k],
                !matches_here ==> s@.subrange(i as int, i + pat@.len() as int) != pat@,
            decreases plen - j,
        {
            if s.get_char(i + j) != pat.get_char(j) {
                proof {
                    assert(s@.subrange(i as int, i + pat@.len() as int)[j as int] != pat@[
                    j as int]);
                }
                matches_here = false;
                j = plen;
            } else {
                j = j + 1;
            }
        }
        if matches_here {
            proof {
                assert(s@.subrange(i as int, i + pat@.len() as int) =~= pat@);
            }
            return true;
        }
        i = i + 1;
    }
    false
}

} // verus!
// Trimming, numeric parsing and decimal rendering.

verus! {

/// Whether a character is ASCII whitespace, as trimmed from sysfs text.
pub open spec fn spec_is_space(c: char) -> bool {
    c == ' ' || c == '\t' || c == '\n' || c == '\r'
}

/// Whether the character is ASCII whitespace.
pub fn is_space(c: char) -> (r: bool)
    ensures
        r == spec_is_space(c),
{
    c == ' ' || c == '\t' || c == '\n' || c == '\r'
}

/// The sequence with leading whitespace removed.
pub open spec fn spec_trim_start(s: Seq<char>) -> Seq<char>
    decreases s.len(),
{
    if s.len() > 0 && spec_is_space(s[0]) {
        spec_trim_start(s.drop_first())
    } else {
        s
    }
}

/// The sequence with trailing whitespace removed.
pub open spec fn spec_trim_end(s: Seq<char>) -> Seq<char>
    decreases s.len(),
{
    if s.len() > 0 && spec_is_space(s[s.len() - 1]) {
        spec_trim_end(s.drop_last())
    } else {
        s
    }
}

/// The sequence with whitespace removed from both ends.
pub open spec fn spec_trim(s: Seq<char>) -> Seq<char> {
    spec_trim_end(spec_trim_start(s))
}

/// Skipping a fully-whitespace front does not change the trimmed-start view.
proof fn lemma_trim_start_skip(s: Seq<char>, i: int)
    requires
        0 <= i <= s.len(),
        forall|j: int| 0 <= j < i ==> spec_is_space(s[j]),
    ensures
        spec_trim_start(s) == spec_trim_start(s.subrange(i, s.len() as int)),
    decreases i,
{
    if i == 0 {
        assert(s.subrange(0, s.len() as int) =~= s);
    } else {
        assert(spec_is_space(s[0]));
        assert(s.drop_first() =~= s.subrange(1, s.len() as int));
        lemma_trim_start_skip(s.drop_first(), i - 1);
        assert(s.drop_first().subrange(i - 1, s.drop_first().len() as int) =~= s.subrange(
            i,
            s.len() as int,
        ));
    }
}

/// Dropping a fully-whitespace tail does not change the trimmed-end view.
proof fn lemma_trim_end_skip(s: Seq<char>, i: int)
    requires
        0 <= i <= s.len(),
        forall|j: int| i <= j < s.len() ==> spec_is_space(s[j]),
    ensures
        spec_trim_end(s) == spec_trim_end(s.subrange(0, i)),
    decreases s.len() - i,
{
    if i == s.len() {
        assert(s.subrange(0, s.len() as int) =~= s);
    } else {
        assert(spec_is_space(s[s.len() - 1]));
        assert(s.drop_last() =~= s.subrange(0, s.len() - 1));
        lemma_trim_end_skip(s.drop_last(), i);
        assert(s.drop_last().subrange(0, i) =~= s.subrange(0, i));
    }
}

/// A copy of the string with ASCII whitespace removed from both ends.
pub fn str_trim(s: &str) -> (r: String)
    ensures
        r@ == spec_trim(s@),
{
    let len = s.unicode_len();
    let mut a: usize = 0;
    while a < len && is_space(s.get_char(a))
        invariant
            len == s@.len(),
            a <= len,
            forall|j: int| 0 <= j < a ==> spec_is_space(s@[j]),
        decreases len - a,
    {
        a = a + 1;
    }
    proof {
        lemma_trim_start_skip(s@, a as int);
    }
    if a == len {
        proof {
            assert(s@.subrange(a as int, len as int) =~= Seq::<char>::empty());
            assert(spec_trim_start(s@) =~= Seq::<char>::empty());
        }
        return String::new();
    }
    let mut b: usize = len;
    while b > a && is_space(s.get_char(b - 1))
        invariant
            len == s@.len(),
            a <= b <= len,
            forall|j: int| b <= j < len ==> spec_is_space(s@[j]),
        decreases b,
    {
        b = b - 1;
    }
    // The character at `a` is not whitespace, so `b` stopped above `a`.
    proof {
        let front = s@.subrange(a as int, len as int);
        if b == a {
            assert(!spec_is_space(s@[a as int]));
            assert(spec_is_space(s@[a as int]));
        }
        assert(!spec_is_space(s@[b - 1]));
        assert(spec_trim_start(s@) == front);
        assert forall|j: int| (b - a) <= j < front.len() implies spec_is_space(front[j]) by {
            assert(front[j] == s@[a + j]);
        }
        lemma_trim_end_skip(front, b - a);
        assert(front.subrange(0, b - a) =~= s@.subrange(a as int, b as int));
        let mid = s@.subrange(a as int, b as int);
        assert(mid[mid.len() - 1] == s@[b - 1]);
        assert(spec_trim_end(mid) == mid);
    }
    substring(s, a, b)
}

/// The numeric value of a character as a digit in the given radix (10 or 16,
/// with both letter cases accepted for 16), if it is one.
pub open spec fn spec_digit(radix: u64, c: char) -> Option<u64> {
    let v = c as u32;
    if 48 <= v <= 57 {
        Some((v - 48) as u64)
    } else if radix == 16 && 97 <= v <= 102 {
        Some((v - 87) as u64)
    } else if radix == 16 && 65 <= v <= 70 {
        Some((v - 55) as u64)
    } else {
        None
    }
}

/// The numeric value of a character as a digit in the given radix.
pub fn digit_value(radix: u64, c: char) -> (r: Option<u64>)
    requires
        radix == 10 || radix == 16,
    ensures
        r == spec_digit(radix, c),
{
    let v = c as u32;
    if 48 <= v && v <= 57 {
        Some((v - 48) as u64)
    } else if radix == 16 && 97 <= v && v <= 102 {
        Some((v - 87) as u64)
    } else if radix == 16 && 65 <= v && v <= 70 {
        Some((v - 55) as u64)
    } else {
        None
    }
}

/// Left-to-right accumulation of digits in the given radix: `None` once a
/// non-digit is met or the value exceeds the 64-bit range.
pub open spec fn spec_parse_digits(s: Seq<char>, radix: u64, acc: Option<u64>) -> Option<u64>
    decreases s.len(),
{
    if s.len() == 0 {
        acc
    } else {
        let next = match acc {
            None => None,
            Some(a) => match spec_digit(radix, s[0]) {
                None => None,
                Some(d) => if a * radix + d <= u64::MAX {
                    Some((a * radix + d) as u64)
                } else {
                    None
                },
            },
        };
        spec_parse_digits(s.drop_first(), radix, next)
    }
}

/// A failed accumulation never recovers.
proof fn lemma_parse_digits_none(s: Seq<char>, radix: u64)
    ensures
        spec_parse_digits(s, radix, None) is None,
    decreases s.len(),
{
    if s.len() > 0 {
        lemma_parse_digits_none(s.drop_first(), radix);
    }
}

/// The unsigned value of a digit string in the given radix: `None` when the
/// string is empty, holds any non-digit, or exceeds the 64-bit range.
pub open spec fn spec_parse_u64(s: Seq<char>, radix: u64) -> Option<u64> {
    if s.len() == 0 {
        None
    } else {
        spec_parse_digits(s, radix, Some(0u64))
    }
}

/// Parse an unsigned 64-bit number written in the given radix.
pub fn parse_u64_radix(s: &str, radix: u64) -> (r: Option<u64>)
    requires
        radix == 10 || radix == 16,
    ensures
        r == spec_parse_u64(s@, radix),
{
    let len = s.unicode_len();
    if len == 0 {
        return None;
    }
    let mut acc: u64 = 0;
    let mut i: usize = 0;
    proof {
        assert(s@.subrange(0, len as int) =~= s@);
    }
    while i < len
        invariant
            len == s@.len(),
            radix == 10 || radix == 16,
            i <= len,
            spec_parse_digits(s@, radix, Some(0u64)) == spec_parse_digits(
                s@.subrange(i as int, len as int),
                radix,
                Some(acc),
            ),
        decreases len - i,
    {
        let ghost pending = s@.subrange(i as int, len as int);
        proof {
            assert(pending.len() > 0);
            assert(pending[0] == s@[i as int]);
            assert(pending.drop_first() =~= s@.subrange(i + 1, len as int));
        }
        let c = s.get_char(i);
        match digit_value(radix, c) {
            None => {
                proof {
                    lemma_parse_digits_none(pending.drop_first(), radix);
                }
                return None;
            },
            Some(d) => {
                let widened = match acc.checked_mul(radix) {
                    Some(m) => m.checked_add(d),
                    None => None,
                };
                match widened {
                    Some(v) => {
                        acc = v;
                    },
                    None => {
                        proof {
                            lemma_parse_digits_none(pending.drop_first(), radix);
                        }
                        return None;
                    },
                }
            },
        }
        i = i + 1;
    }
    proof {
        assert(s@.subrange(i as int, len as int) =~= Seq::<char>::empty());
    }
    Some(acc)
}

/// The value of a decimal digit string.
pub open spec fn spec_parse_u64_dec(s: Seq<char>) -> Option<u64> {
    spec_parse_u64(s, 10)
}

/// Parse an unsigned decimal number.
pub fn parse_u64_dec(s: &str) -> (r: Option<u64>)
    ensures
        r == spec_parse_u64_dec(s@),
{
    parse_u64_radix(s, 10)
}

/// The value of a string that is either hexadecimal with a `0x`/`0X` prefix
/// or plain decimal, after trimming surrounding whitespace.
pub open spec fn spec_parse_hex_or_dec(s: Seq<char>) -> Option<u64> {
    let t = spec_trim(s);
    if spec_starts_with(t, "0x"@) || spec_starts_with(t, "0X"@) {
        spec_parse_u64(t.subrange(2, t.len() as int), 16)
    } else {
        spec_parse_u64(t, 10)
    }
}

/// Parse a hexadecimal (`0x`-prefixed) or decimal number, ignoring
/// surrounding whitespace.
pub fn parse_hex_or_dec(s: &str) -> (r: Option<u64>)
    ensures
        r == spec_parse_hex_or_dec(s@),
{
    proof {
        reveal_strlit("0x");
        reveal_strlit("0X");
    }
    let t = str_trim(s);
    let t = t.as_str();
    match strip_prefix(t, "0x") {
        Some(rest) => parse_u64_radix(rest.as_str(), 16),
        None => match strip_prefix(t, "0X") {
            Some(rest) => parse_u64_radix(rest.as_str(), 16),
            None => parse_u64_radix(t, 10),
        },
    }
}

/// The signed value of a decimal string with an optional leading minus:
/// `None` when the magnitude does not fit in the positive 63-bit range.
pub open spec fn spec_parse_i64_dec(s: Seq<char>) -> Option<i64> {
    if s.len() > 0 && s[0] == '-' {
        match spec_parse_u64_dec(s.subrange(1, s.len() as int)) {
            Some(v) => if v <= i64::MAX as u64 {
                Some((-(v as int)) as i64)
            } else {
                None
            },
            None => None,
        }
    } else {
        match spec_parse_u64_dec(s) {
            Some(v) => if v <= i64::MAX as u64 {
                Some(v as i64)
            } else {
                None
            },
            None => None,
        }
    }
}

/// Parse a signed decimal number with an optional leading minus.
pub fn parse_i64_dec(s: &str) -> (r: Option<i64>)
    ensures
        r == spec_parse_i64_dec(s@),
{
    let len = s.unicode_len();
    if len > 0 && s.get_char(0) == '-' {
        let rest = substring(s, 1, len);
        match parse_u64_dec(rest.as_str()) {
            Some(v) => if v <= i64::MAX as u64 {
                Some(-(v as i64))
            } else {
                None
            },
            None => None,
        }
    } else {
        match parse_u64_dec(s) {
            Some(v) => if v <= i64::MAX as u64 {
                Some(v as i64)
            } else {
                None
            },
            None => None,
        }
    }
}

/// The character for a single digit value.
pub open spec fn spec_digit_char(d: u64) -> char {
    if d == 0 {
        '0'
    } else if d == 1 {
        '1'
    } else if d == 2 {
        '2'
    } else if d == 3 {
        '3'
    } else if d == 4 {
        '4'
    } else if d == 5 {
        '5'
    } else if d == 6 {
        '6'
    } else if d == 7 {
        '7'
    } else if d == 8 {
        '8'
    } else {
        '9'
    }
}

/// The decimal rendering of an unsigned number, most significant digit first.
pub open spec fn spec_u64_dec(n: u64) -> Seq<char>
    decreases n,
{
    if n < 10 {
        seq![spec_digit_char(n)]
    } else {
        spec_u64_dec(n / 10).push(spec_digit_char(n % 10))
    }
}

/// The one-character string for a single digit value.
fn digit_str(d: u64) -> (r: &'static str)
    requires
        d < 10,
    ensures
        r@ =~= seq![spec_digit_char(d)],
{
    proof {
        reveal_strlit("0");
        reveal_strlit("1");
        reveal_strlit("2");
        reveal_strlit("3");
        reveal_strlit("4");
        reveal_strlit("5");
        reveal_strlit("6");
        reveal_strlit("7");
        reveal_strlit("8");
        reveal_strlit("9");
    }
    if d == 0 {
        "0"
    } else if d == 1 {
        "1"
    } else if d == 2 {
        "2"
    } else if d == 3 {
        "3"
    } else if d == 4 {
        "4"
    } else if d == 5 {
        "5"
    } else if d == 6 {
        "6"
    } else if d == 7 {
        "7"
    } else if d == 8 {
        "8"
    } else {
        "9"
    }
}

/// Render an unsigned number in decimal.
pub fn u64_to_dec(n: u64) -> (r: String)
    ensures
        r@ == spec_u64_dec(n),
    decreases n,
{
    if n < 10 {
        digit_str(n).to_owned()
    } else {
        let front = u64_to_dec(n / 10);
        let r = front.concat(digit_str(n % 10));
        proof {
            assert(r@ =~= spec_u64_dec(n / 10).push(spec_digit_char(n % 10)));
        }
        r
    }
}

} // verus!
// Token extraction: the first whitespace-separated token of a string.

verus! {

/// The least index holding whitespace, if any.
pub open spec fn spec_find_space(s: Seq<char>) -> Option<int>
    decreases s.len(),
{
    if s.len() == 0 {
        None
    } else if spec_is_space(s[0]) {
        Some(0int)
    } else {
        match spec_find_space(s.drop_first()) {
            Some(j) => Some(j + 1),
            None => None,
        }
    }
}

/// The found index is in range, holds whitespace, and nothing before it does.
pub proof fn lemma_find_space_props(s: Seq<char>)
    ensures
        spec_find_space(s) matches Some(j) ==> 0 <= j < s.len() && spec_is_space(s[j]) && forall|
            k: int,
        | 0 <= k < j ==> !spec_is_space(s[k]),
        spec_find_space(s) is None ==> forall|k: int| 0 <= k < s.len() ==> !spec_is_space(s[k]),
    decreases s.len(),
{
    if s.len() > 0 && !spec_is_space(s[0]) {
        lemma_find_space_props(s.drop_first());
        match spec_find_space(s.drop_first()) {
            Some(j) => {
                assert(s[j + 1] == s.drop_first()[j]);
                assert forall|k: int| 0 <= k < j + 1 implies !spec_is_space(s[k]) by {
                    if k > 0 {
                        assert(!spec_is_space(s.drop_first()[k - 1]));
                    }
                }
            },
            None => {
                assert forall|k: int| 0 <= k < s.len() implies !spec_is_space(s[k]) by {
                    if k > 0 {
                        assert(!spec_is_space(s.drop_first()[k - 1]));
                    }
                }
            },
        }
    }
}

/// The first whitespace-separated token: what remains of the start-trimmed
/// text up to the next whitespace; empty when the text is all whitespace.
pub open spec fn spec_first_token(s: Seq<char>) -> Seq<char> {
    let st = spec_trim_start(s);
    match spec_find_space(st) {
        Some(j) => if 0 <= j <= st.len() {
            st.subrange(0, j)
        } else {
            st
        },
        None => st,
    }
}

/// Extract the first whitespace-separated token of a string.
pub fn first_token(s: &str) -> (r: String)
    ensures
        r@ == spec_first_token(s@),
{
    let len = s.unicode_len();
    let mut a: usize = 0;
    while a < len && is_space(s.get_char(a))
        invariant
            len == s@.len(),
            a <= len,
            forall|j: int| 0 <= j < a ==> spec_is_space(s@[j]),
        decreases len - a,
    {
        a = a + 1;
    }
    proof {
        lemma_trim_start_skip(s@, a as int);
    }
    let ghost st = spec_trim_start(s@);
    proof {
        assert(st == s@.subrange(a as int, len as int));
    }
    let mut b: usize = a;
    while b < len && !is_space(s.get_char(b))
        invariant
            len == s@.len(),
            a <= b <= len,
            forall|j: int| a <= j < b ==> !spec_is_space(s@[j]),
        decreases len - b,
    {
        b = b + 1;
    }
    proof {
        lemma_find_space_props(st);
        assert forall|k: int| 0 <= k < b - a implies !spec_is_space(st[k]) by {
            assert(st[k] == s@[a + k]);
        }
        if b < len {
            assert(st[b - a] == s@[b as int]);
            assert(spec_is_space(st[b - a]));
            match spec_find_space(st) {
                Some(j) => {
                    if j < b - a {
                        assert(!spec_is_space(st[j]));
                    }
                    if j > b - a {
                        assert(!spec_is_space(st[b - a]));
                    }
                    assert(j == b - a);
                },
                None => {
                    assert(!spec_is_space(st[b - a]));
                },
            }
            assert(st.subrange(0, b - a) =~= s@.subrange(a as int, b as int));
        } else {
            match spec_find_space(st) {
                Some(j) => {
                    assert(spec_is_space(st[j]));
                    assert(st[j] == s@[a + j]);
                },
                None => {},
            }
            assert(st =~= s@.subrange(a as int, b as int));
        }
    }
    substring(s, a, b)
}

} // verus!
// Fixed-width hexadecimal rendering.

verus! {

/// The character for a single hexadecimal digit value, lower case.
pub open spec fn spec_hex_digit_char(d: u64) -> char {
    if d < 10 {
        spec_digit_char(d)
    } else if d == 10 {
        'a'
    } else if d == 11 {
        'b'
    } else if d == 12 {
        'c'
    } else if d == 13 {
        'd'
    } else if d == 14 {
        'e'
    } else {
        'f'
    }
}

/// The one-character string for a single hexadecimal digit value.
fn hex_digit_str(d: u64) -> (r: &'static str)
    requires
        d < 16,
    ensures
        r@ =~= seq![spec_hex_digit_char(d)],
{
    if d < 10 {
        digit_str(d)
    } else {
        proof {
            reveal_strlit("a");
            reveal_strlit("b");
            reveal_strlit("c");
            reveal_strlit("d");
            reveal_strlit("e");
            reveal_strlit("f");
        }
        if d == 10 {
            "a"
        } else if d == 11 {
            "b"
        } else if d == 12 {
            "c"
        } else if d == 13 {
            "d"
        } else if d == 14 {
            "e"
        } else {
            "f"
        }
    }
}

/// The hexadecimal rendering of an unsigned number in exactly `digits`
/// places, most significant digit first, zero padded.
pub open spec fn spec_u64_hex_pad(n: u64, digits: nat) -> Seq<char>
    decreases digits,
{
    if digits == 0 {
        Seq::empty()
    } else {
        spec_u64_hex_pad(n / 16, (digits - 1) as nat).push(spec_hex_digit_char(n % 16))
    }
}

/// Render an unsigned number in hexadecimal with a fixed digit count.
pub fn u64_to_hex_pad(n: u64, digits: usize) -> (r: String)
    ensures
        r@ == spec_u64_hex_pad(n, digits as nat),
    decreases digits,
{
    if digits == 0 {
        String::new()
    } else {
        let front = u64_to_hex_pad(n / 16, digits - 1);
        let r = front.concat(hex_digit_str(n % 16));
        proof {
            assert(r@ =~= spec_u64_hex_pad(n / 16, (digits - 1) as nat).push(
                spec_hex_digit_char(n % 16),
            ));
        }
        r
    }
}

} // verus!
