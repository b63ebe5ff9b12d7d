use vstd::prelude::*;
use vstd::string::*;
use vstd::utf8::{decode_utf8, encode_utf8, is_char_boundary, encode_utf8_decode_utf8};
use crate::errors::errors::{Error, ErrorView, error_of};
use crate::lexer::address::Address;
use crate::text::{debug_str, debug_text, push_char, string_of};

verus! {

// ---------------------------------------------------------------------------
// What the string natives compute.
// ---------------------------------------------------------------------------

/// `s` with its first `n` non-overlapping matches of `what`, found from the
/// left, replaced by `to`. An empty `what` matches before every character
/// and at the end.
pub open spec fn replaced_n(s: Seq<char>, what: Seq<char>, to: Seq<char>, n: nat) -> Seq<char>
    decreases s.len(),
{
    if n == 0 {
        s
    } else if what.len() == 0 {
        if s.len() == 0 {
            to
        } else {
            to + seq![s[0]] + replaced_n(s.drop_first(), what, to, (n - 1) as nat)
        }
    } else if s.len() < what.len() {
        s
    } else if s.subrange(0, what.len() as int) == what {
        to + replaced_n(s.subrange(what.len() as int, s.len() as int), what, to, (n - 1) as nat)
    } else {
        seq![s[0]] + replaced_n(s.drop_first(), what, to, n)
    }
}

/// `s` with every non-overlapping match of `what`, found from the left,
/// replaced by `to`. An empty `what` matches before every character and at
/// the end.
pub open spec fn replaced(s: Seq<char>, what: Seq<char>, to: Seq<char>) -> Seq<char>
    decreases s.len(),
{
    if what.len() == 0 {
        if s.len() == 0 {
            to
        } else {
            to + seq![s[0]] + replaced(s.drop_first(), what, to)
        }
    } else if s.len() < what.len() {
        s
    } else if s.subrange(0, what.len() as int) == what {
        to + replaced(s.subrange(what.len() as int, s.len() as int), what, to)
    } else {
        seq![s[0]] + replaced(s.drop_first(), what, to)
    }
}

/// The pieces of `s` between the non-overlapping matches of the non-empty
/// delimiter `d`, `cur` being the piece begun so far.
pub open spec fn split_from(s: Seq<char>, d: Seq<char>, cur: Seq<char>) -> Seq<Seq<char>>
    decreases s.len(),
{
    if d.len() == 0 || s.len() < d.len() {
        seq![cur + s]
    } else if s.subrange(0, d.len() as int) == d {
        seq![cur] + split_from(s.subrange(d.len() as int, s.len() as int), d, Seq::empty())
    } else {
        split_from(s.drop_first(), d, cur.push(s[0]))
    }
}

/// The pieces `str::split` gives for an empty delimiter: an empty piece,
/// each character, then an empty piece.
pub open spec fn split_chars(s: Seq<char>) -> Seq<Seq<char>> {
    seq![Seq::<char>::empty()] + s.map_values(|c: char| seq![c]) + seq![Seq::<char>::empty()]
}

/// The pieces of `s` split at `d`.
pub open spec fn split_pieces(s: Seq<char>, d: Seq<char>) -> Seq<Seq<char>> {
    if d.len() == 0 {
        split_chars(s)
    } else {
        split_from(s, d, Seq::empty())
    }
}

/// Whether `v` occurs in `s`.
pub open spec fn occurs(s: Seq<char>, v: Seq<char>) -> bool {
    exists|i: int| 0 <= i <= s.len() - v.len() && #[trigger] s.subrange(i, i + v.len()) == v
}

/// The index of the first `c` in `s` at or after `i`, or -1.
pub open spec fn index_from(s: Seq<char>, c: char, i: int) -> int
    decreases s.len() - i,
{
    if i < 0 || i >= s.len() {
        -1
    } else if s[i] == c {
        i
    } else {
        index_from(s, c, i + 1)
    }
}

/// How far from the end the last `c` in `s` stands (0 for the last
/// character), looking from `k` on, or -1.
pub open spec fn index_from_end(s: Seq<char>, c: char, k: int) -> int
    decreases s.len() - k,
{
    if k < 0 || k >= s.len() {
        -1
    } else if s[s.len() - 1 - k] == c {
        k
    } else {
        index_from_end(s, c, k + 1)
    }
}

/// The value of a digit character in bases up to 36, or 36 for others.
pub open spec fn digit_value(c: char) -> int {
    let v = c as u32 as int;
    if '0' as u32 as int <= v <= '9' as u32 as int {
        v - '0' as u32 as int
    } else if 'a' as u32 as int <= v <= 'z' as u32 as int {
        v - 'a' as u32 as int + 10
    } else if 'A' as u32 as int <= v <= 'Z' as u32 as int {
        v - 'A' as u32 as int + 10
    } else {
        36
    }
}

/// The decimal digits of `n`.
pub open spec fn digits_of(n: nat) -> Seq<char>
    decreases n,
{
    if n < 10 {
        seq!["0123456789"@[n as int]]
    } else {
        digits_of(n / 10).push("0123456789"@[(n % 10) as int])
    }
}

/// The decimal text of an integer, with a leading `-` when negative.
pub open spec fn decimal(i: int) -> Seq<char> {
    if i < 0 {
        seq!['-'] + digits_of((-i) as nat)
    } else {
        digits_of(i as nat)
    }
}

/// The text between two byte offsets of `s`.
pub open spec fn byte_slice(s: Seq<char>, from: int, to: int) -> Seq<char> {
    decode_utf8(encode_utf8(s).subrange(from, to))
}

/// `s` without leading and trailing white space, as `str::trim` gives it.
pub uninterp spec fn trimmed(s: Seq<char>) -> Seq<char>;

/// `s` in lower case, as `str::to_lowercase` gives it.
pub uninterp spec fn lowercase_of(s: Seq<char>) -> Seq<char>;

/// `s` in upper case, as `str::to_uppercase` gives it.
pub uninterp spec fn uppercase_of(s: Seq<char>) -> Seq<char>;

// ---------------------------------------------------------------------------
// The std functions they use, each behind one trusted item.
// ---------------------------------------------------------------------------

/// `str::replace` (std): every non-overlapping match, found from the left,
/// replaced; an empty pattern matches before each character and at the end.
/// Trusted: the result is `replaced`.
#[verifier::external_body]
fn std_replace(s: &str, what: &str, to: &str) -> (r: String)
    ensures
        r@ == replaced(s@, what@, to@),
{
    s.replace(what, to)
}

/// `str::replacen` (std): the first `count` matches replaced. Trusted: the
/// result is `replaced_n`.
#[verifier::external_body]
fn std_replacen(s: &str, what: &str, to: &str, count: usize) -> (r: String)
    ensures
        r@ == replaced_n(s@, what@, to@, count as nat),
{
    s.replacen(what, to, count)
}

/// `str::split` (std) with a string delimiter, each piece as a `String`.
/// Trusted: the pieces are those of `split_pieces`.
#[verifier::external_body]
fn std_split(s: &str, delimiter: &str) -> (r: Vec<String>)
    ensures
        r@.map_values(|p: String| p@) == split_pieces(s@, delimiter@),
{
    s.split(delimiter).map(|p| p.to_string()).collect()
}

/// `str::contains` (std) with a string pattern. Trusted: true exactly when
/// the pattern occurs in the text.
#[verifier::external_body]
fn std_contains(s: &str, value: &str) -> (r: bool)
    ensures
        r == occurs(s@, value@),
{
    s.contains(value)
}

/// `str::trim` (std), as a `String`. Trusted: the result is the named
/// function `trimmed`.
#[verifier::external_body]
fn std_trim(s: &str) -> (r: String)
    ensures
        r@ == trimmed(s@),
{
    s.trim().to_string()
}

/// `str::to_lowercase` (std). Trusted: the result is the named function
/// `lowercase_of`.
#[verifier::external_body]
fn std_lowercase(s: &str) -> (r: String)
    ensures
        r@ == lowercase_of(s@),
{
    s.to_lowercase()
}

/// `str::to_uppercase` (std). Trusted: the result is the named function
/// `uppercase_of`.
#[verifier::external_body]
fn std_uppercase(s: &str) -> (r: String)
    ensures
        r@ == uppercase_of(s@),
{
    s.to_uppercase()
}

/// `char::is_digit` (std): whether `c` is a digit in base `radix`, digits
/// being `0`-`9`, then `a`-`z` or `A`-`Z`. Trusted as documented; the
/// radix lies in 2..=36, outside which std panics.
#[verifier::external_body]
fn std_is_digit(c: char, radix: u32) -> (r: bool)
    requires
        2 <= radix <= 36,
    ensures
        r == (digit_value(c) < radix as int),
{
    c.is_digit(radix)
}

/// `format!("{}", i)` (std `Display` of `i64`). Trusted: the decimal text.
#[verifier::external_body]
pub(crate) fn decimal_text(i: i64) -> (r: String)
    ensures
        r@ == decimal(i as int),
{
    format!("{}", i)
}

// ---------------------------------------------------------------------------
// The `strings@...` and `char@...` natives.
// ---------------------------------------------------------------------------

/// `strings@replace`: every match of `what` replaced by `to`.
pub fn replace(s: &str, what: &str, to: &str) -> (r: String)
    ensures
        r@ == replaced(s@, what@, to@),
{
    std_replace(s, what, to)
}

/// The number of replacements `strings@replace_n` makes for the count `n`:
/// a negative count (or one past `usize`), taken as an unsigned one, is at
/// least as large as any number of matches, so it counts as `usize::MAX`.
pub open spec fn replace_count(n: i64) -> nat {
    if n < 0 || n > usize::MAX { usize::MAX as nat } else { n as nat }
}

/// `strings@replace_n`: the first `n` matches of `what` replaced by `to`.
pub fn replace_n(s: &str, what: &str, to: &str, n: i64) -> (r: String)
    ensures
        r@ == replaced_n(s@, what@, to@, replace_count(n)),
{
    let count: usize = if n < 0 || n as u64 > usize::MAX as u64 {
        usize::MAX
    } else {
        n as usize
    };
    std_replacen(s, what, to, count)
}

/// `strings@replace_range`: the bytes from `a` to `b` replaced by `to`.
/// `a` lies on a character boundary of the text and `b` on one of the text
/// after `a`, with `a <= b` (std panics otherwise).
pub fn replace_range(s: &str, a: i64, b: i64, to: &str) -> (r: String)
    requires
        0 <= a <= b <= s.spec_bytes().len(),
        s.spec_bytes().len() <= usize::MAX,
        is_char_boundary(s.spec_bytes(), a as int),
        is_char_boundary(s.spec_bytes().subrange(a as int, s.spec_bytes().len() as int), (b - a) as int),
    ensures
        r@ == byte_slice(s@, 0, a as int) + to@ + byte_slice(s@, b as int, s.spec_bytes().len() as int),
{
    let (left, rest) = s.split_at(a as usize);
    let (_, right) = rest.split_at((b - a) as usize);
    let mut r = string_of(left);
    r.append(to);
    r.append(right);
    proof {
        encode_utf8_decode_utf8(left@);
        encode_utf8_decode_utf8(right@);
        assert(rest.spec_bytes().subrange((b - a) as int, rest.spec_bytes().len() as int)
            =~= s.spec_bytes().subrange(b as int, s.spec_bytes().len() as int));
    }
    r
}

/// `strings@substring`: the text between the byte offsets `from` and `to`;
/// `from` lies on a character boundary of the text and `to` on one of the
/// text after `from`, with `from <= to` (std panics otherwise).
pub fn substring(s: &str, from: i64, to: i64) -> (r: String)
    requires
        0 <= from <= to <= s.spec_bytes().len(),
        s.spec_bytes().len() <= usize::MAX,
        is_char_boundary(s.spec_bytes(), from as int),
        is_char_boundary(s.spec_bytes().subrange(from as int, s.spec_bytes().len() as int), (to - from) as int),
    ensures
        r@ == byte_slice(s@, from as int, to as int),
{
    let (_, rest) = s.split_at(from as usize);
    let (mid, _) = rest.split_at((to - from) as usize);
    proof {
        encode_utf8_decode_utf8(mid@);
        assert(rest.spec_bytes().subrange(0, (to - from) as int) =~= s.spec_bytes().subrange(from as int, to as int));
    }
    string_of(mid)
}

/// `strings@char_at`: the character at index `i` as a text.
pub fn char_at(s: &str, i: i64) -> (r: String)
    requires
        0 <= i < s@.len(),
    ensures
        r@ == seq![s@[i as int]],
{
    let n = s.unicode_len();
    let idx: usize = i as usize;
    let c = s.get_char(idx);
    let mut r = String::new();
    push_char(&mut r, c);
    proof {
        assert(r@ =~= seq![s@[i as int]]);
    }
    r
}

/// `strings@chars`: each character as a text of its own.
pub fn chars(s: &str) -> (r: Vec<String>)
    ensures
        r@.len() == s@.len(),
        forall|i: int| 0 <= i < s@.len() ==> #[trigger] r@[i]@ == seq![s@[i]],
{
    let n = s.unicode_len();
    let mut r: Vec<String> = Vec::new();
    let mut i: usize = 0;
    while i < n
        invariant
            n == s@.len(),
            i <= n,
            r@.len() == i,
            forall|j: int| 0 <= j < i ==> #[trigger] r@[j]@ == seq![s@[j]],
        decreases n - i,
    {
        let mut one = String::new();
        push_char(&mut one, s.get_char(i));
        proof {
            assert(one@ =~= seq![s@[i as int]]);
        }
        r.push(one);
        i = i + 1;
    }
    r
}

/// `strings@trim`: the text without leading and trailing white space.
pub fn trim(s: &str) -> (r: String)
    ensures
        r@ == trimmed(s@),
{
    std_trim(s)
}

/// `strings@split`: the pieces between the matches of the delimiter.
pub fn split(s: &str, delimiter: &str) -> (r: Vec<String>)
    ensures
        r@.map_values(|p: String| p@) == split_pieces(s@, delimiter@),
{
    std_split(s, delimiter)
}

/// `strings@contains`: whether `value` occurs in the text.
pub fn contains(s: &str, value: &str) -> (r: bool)
    ensures
        r == occurs(s@, value@),
{
    std_contains(s, value)
}

/// The error for a text that should hold exactly one one-byte character.
pub open spec fn not_a_char(addr: Address, hint: Seq<char>) -> ErrorView {
    error_of(addr, "could not represent string as char."@, hint)
}

/// `strings@find`: the index of the first occurrence of the character
/// `raw_ch` (a one-byte text), or -1.
pub fn find(s: &str, raw_ch: &str, addr: Address) -> (r: Result<i64, Error>)
    requires
        s@.len() < i64::MAX,
        raw_ch.spec_bytes().len() <= usize::MAX,
    ensures
        match r {
            Ok(i) => raw_ch.spec_bytes().len() == 1 && raw_ch@.len() > 0 && i == index_from(s@, raw_ch@[0], 0),
            Err(e) => raw_ch.spec_bytes().len() != 1 && e@ == not_a_char(addr, "string: "@ + raw_ch@),
        },
{
    if raw_ch.len() != 1 {
        let mut hint = string_of("string: ");
        hint.append(raw_ch);
        return Err(Error::own_hint(addr, "could not represent string as char.", hint));
    }
    proof {
        if raw_ch@.len() == 0 {
            assert(raw_ch@ =~= Seq::<char>::empty());
        }
    }
    let ch = raw_ch.get_char(0);
    let n = s.unicode_len();
    let mut i: usize = 0;
    while i < n
        invariant
            n == s@.len(),
            i <= n,
            index_from(s@, ch, 0) == index_from(s@, ch, i as int),
            n < i64::MAX,
            ch == raw_ch@[0],
            raw_ch.spec_bytes().len() == 1,
            raw_ch@.len() > 0,
        decreases n - i,
    {
        if s.get_char(i) == ch {
            return Ok(i as i64);
        }
        i = i + 1;
    }
    Ok(-1)
}

/// `strings@rfind`: how far from the end the last occurrence of the
/// character `raw_ch` (a one-byte text) stands, 0 for the last character,
/// or -1.
pub fn rfind(s: &str, raw_ch: &str, addr: Address) -> (r: Result<i64, Error>)
    requires
        s@.len() < i64::MAX,
        raw_ch.spec_bytes().len() <= usize::MAX,
    ensures
        match r {
            Ok(i) => raw_ch.spec_bytes().len() == 1 && raw_ch@.len() > 0 && i == index_from_end(s@, raw_ch@[0], 0),
            Err(e) => raw_ch.spec_bytes().len() != 1 && e@ == not_a_char(addr, "string: "@ + debug_str(raw_ch@)),
        },
{
    if raw_ch.len() != 1 {
        let mut hint = string_of("string: ");
        hint.append(debug_text(raw_ch).as_str());
        return Err(Error::own_hint(addr, "could not represent string as char.", hint));
    }
    proof {
        if raw_ch@.len() == 0 {
            assert(raw_ch@ =~= Seq::<char>::empty());
        }
    }
    let ch = raw_ch.get_char(0);
    let n = s.unicode_len();
    let mut k: usize = 0;
    while k < n
        invariant
            n == s@.len(),
            k <= n,
            index_from_end(s@, ch, 0) == index_from_end(s@, ch, k as int),
            n < i64::MAX,
            ch == raw_ch@[0],
            raw_ch.spec_bytes().len() == 1,
            raw_ch@.len() > 0,
        decreases n - k,
    {
        if s.get_char(n - 1 - k) == ch {
            return Ok(k as i64);
        }
        k = k + 1;
    }
    Ok(-1)
}

/// `strings@push`: appends `what` to the text.
pub fn push(target: &mut String, what: &str)
    ensures
        final(target)@ == old(target)@ + what@,
{
    target.append(what);
}

/// `strings@length`: the length of the text in bytes.
pub fn length(s: &str) -> (r: i64)
    requires
        s.spec_bytes().len() <= i64::MAX,
        s.spec_bytes().len() <= usize::MAX,
    ensures
        r == s.spec_bytes().len(),
{
    s.len() as i64
}

/// `char@is_ascii_letter`: whether the whole text is ASCII.
pub fn is_ascii_letter(raw_ch: &str) -> (r: bool)
    ensures
        r == is_ascii(raw_ch),
{
    raw_ch.is_ascii()
}

/// `char@is_digit`: whether the character `raw_ch` (a one-byte text) is a
/// digit in base `radix`, which lies in 2..=36.
pub fn is_digit(raw_ch: &str, radix: i64, addr: Address) -> (r: Result<bool, Error>)
    requires
        raw_ch.spec_bytes().len() <= usize::MAX,
    ensures
        match r {
            Ok(b) => 2 <= radix <= 36 && raw_ch.spec_bytes().len() == 1 && raw_ch@.len() > 0
                && b == (digit_value(raw_ch@[0]) < radix),
            Err(e) => if radix > 36 || radix < 2 {
                e@ == error_of(addr, "invalid radix: "@ + decimal(radix as int), "radix should be in 2..36 range."@)
            } else {
                raw_ch.spec_bytes().len() != 1 && e@ == not_a_char(addr, "string: "@ + debug_str(raw_ch@))
            },
        },
{
    if radix > 36 || radix < 2 {
        let mut text = string_of("invalid radix: ");
        text.append(decimal_text(radix).as_str());
        return Err(Error::own_text(addr, text, "radix should be in 2..36 range."));
    }
    if raw_ch.len() != 1 {
        let mut hint = string_of("string: ");
        hint.append(debug_text(raw_ch).as_str());
        return Err(Error::own_hint(addr, "could not represent string as char.", hint));
    }
    proof {
        if raw_ch@.len() == 0 {
            assert(raw_ch@ =~= Seq::<char>::empty());
        }
    }
    let ch = raw_ch.get_char(0);
    Ok(std_is_digit(ch, radix as u32))
}

/// `char@as_int`: the code point of the character `raw_ch` (a one-byte text).
pub fn as_int(raw_ch: &str, addr: Address) -> (r: Result<i64, Error>)
    requires
        raw_ch.spec_bytes().len() <= usize::MAX,
    ensures
        match r {
            Ok(i) => raw_ch.spec_bytes().len() == 1 && raw_ch@.len() > 0 && i == raw_ch@[0] as u32 as int,
            Err(e) => raw_ch.spec_bytes().len() != 1 && e@ == not_a_char(addr, "string: "@ + debug_str(raw_ch@)),
        },
{
    if raw_ch.len() != 1 {
        let mut hint = string_of("string: ");
        hint.append(debug_text(raw_ch).as_str());
        return Err(Error::own_hint(addr, "could not represent string as char.", hint));
    }
    proof {
        if raw_ch@.len() == 0 {
            assert(raw_ch@ =~= Seq::<char>::empty());
        }
    }
    let ch = raw_ch.get_char(0);
    Ok((ch as u32) as i64)
}

/// `strings@lower`: the text in lower case.
pub fn lower(s: &str) -> (r: String)
    ensures
        r@ == lowercase_of(s@),
{
    std_lowercase(s)
}

/// `strings@upper`: the text in upper case.
pub fn upper(s: &str) -> (r: String)
    ensures
        r@ == uppercase_of(s@),
{
    std_uppercase(s)
}

/// The decimal digits of an unsigned number.
pub fn nat_text(n: u64) -> (r: String)
    ensures
        r@ == digits_of(n as nat),
    decreases n,
{
    let digits = "0123456789";
    proof {
        reveal_strlit("0123456789");
    }
    if n < 10 {
        let mut r = String::new();
        push_char(&mut r, digits.get_char(n as usize));
        proof {
            assert(r@ =~= digits_of(n as nat));
        }
        r
    } else {
        let mut r = nat_text(n / 10);
        push_char(&mut r, digits.get_char((n % 10) as usize));
        r
    }
}

} // verus!
