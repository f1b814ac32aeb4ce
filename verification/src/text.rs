use vstd::prelude::*;

verus! {

/// The character of a decimal digit.
pub open spec fn digit_char(d: nat) -> char {
    (48 + d) as char
}

/// The shortest decimal representation of a natural number.
pub open spec fn decimal(n: nat) -> Seq<char>
    decreases n,
{
    if n < 10 {
        seq![digit_char(n)]
    } else {
        decimal(n / 10).push(digit_char(n % 10))
    }
}

/// The decimal representation of an integer, with a leading `-` when negative.
pub open spec fn signed_decimal(i: int) -> Seq<char> {
    if i < 0 {
        seq!['-'].add(decimal((-i) as nat))
    } else {
        decimal(i as nat)
    }
}

fn digit(d: u128) -> (s: &'static str)
    requires
        d < 10,
    ensures
        s@ == seq![digit_char(d as nat)],
{
    let s = match d {
        0 => "0",
        1 => "1",
        2 => "2",
        3 => "3",
        4 => "4",
        5 => "5",
        6 => "6",
        7 => "7",
        8 => "8",
        _ => "9",
    };
    proof {
        reveal_strlit("0");
        reveal_strlit("1");
        reveal_strlit("2");
        reveal_strlit("3");
        reveal_strlit("4");
        reveal_strlit("5");
        reveal_strlit("6");
        reveal_strlit("7");
        reveal_strlit("8");
        reveal_strlit("9");
        assert(s@ =~= seq![digit_char(d as nat)]);
    }
    s
}

pub(crate) fn push_decimal(s: &mut String, n: u128)
    ensures
        final(s)@ == old(s)@ + decimal(n as nat),
    decreases n,
{
    if n >= 10 {
        push_decimal(s, n / 10);
    }
    push_str(s, digit(n % 10));
}

/// Formats an unsigned number in decimal, as `to_string` does.
pub fn fmt_u128(n: u128) -> (s: String)
    ensures
        s@ == decimal(n as nat),
{
    let mut s = String::new();
    push_decimal(&mut s, n);
    s
}

/// Formats a signed number in decimal, as `to_string` does.
pub fn fmt_i64(i: i64) -> (s: String)
    ensures
        s@ == signed_decimal(i as int),
{
    let mut s = String::new();
    if i < 0 {
        push_str(&mut s, "-");
        proof {
            reveal_strlit("-");
        }
        let m: u128 = (0i128 - (i as i128)) as u128;
        push_decimal(&mut s, m);
    } else {
        push_decimal(&mut s, i as u128);
    }
    s
}

/// Appends a string slice to a string.
pub(crate) fn push_str(s: &mut String, t: &str)
    ensures
        final(s)@ == old(s)@ + t@,
{
    s.append(t);
}

/// Unicode White_Space, the set that `char::is_whitespace` tests.
pub open spec fn is_space(c: char) -> bool {
    ||| '\t' <= c <= '\r'
    ||| c == ' '
    ||| c == '\u{85}'
    ||| c == '\u{a0}'
    ||| c == '\u{1680}'
    ||| '\u{2000}' <= c <= '\u{200a}'
    ||| c == '\u{2028}'
    ||| c == '\u{2029}'
    ||| c == '\u{202f}'
    ||| c == '\u{205f}'
    ||| c == '\u{3000}'
}

pub fn char_is_space(c: char) -> (b: bool)
    ensures
        b == is_space(c),
{
    ('\t' <= c && c <= '\r') || c == ' ' || c == '\u{85}' || c == '\u{a0}' || c == '\u{1680}'
        || ('\u{2000}' <= c && c <= '\u{200a}') || c == '\u{2028}' || c == '\u{2029}'
        || c == '\u{202f}' || c == '\u{205f}' || c == '\u{3000}'
}

/// The index of the first character at or after `i` that is not white space.
pub open spec fn space_prefix(s: Seq<char>, i: int) -> int
    decreases s.len() - i,
{
    if 0 <= i < s.len() && is_space(s[i]) {
        space_prefix(s, i + 1)
    } else {
        i
    }
}

/// The end of `s[lo..j]` once its trailing white space is dropped.
pub open spec fn space_suffix(s: Seq<char>, lo: int, j: int) -> int
    decreases j - lo,
{
    if lo < j && is_space(s[j - 1]) {
        space_suffix(s, lo, j - 1)
    } else {
        j
    }
}

/// A sequence without leading and trailing white space, as `str::trim` gives it.
pub open spec fn trim(s: Seq<char>) -> Seq<char> {
    let lo = space_prefix(s, 0);
    s.subrange(lo, space_suffix(s, lo, s.len() as int))
}

/// The bounds, in characters, of `text` without its surrounding white space.
pub fn trim_bounds(text: &str) -> (r: (usize, usize))
    ensures
        r.0 == space_prefix(text@, 0),
        r.1 == space_suffix(text@, r.0 as int, text@.len() as int),
        r.0 <= r.1 <= text@.len(),
        text@.subrange(r.0 as int, r.1 as int) == trim(text@),
{
    let n = text.unicode_len();
    let mut lo: usize = 0;
    while lo < n && char_is_space(text.get_char(lo))
        invariant
            n == text@.len(),
            lo <= n,
            space_prefix(text@, 0) == space_prefix(text@, lo as int),
        decreases n - lo,
    {
        lo = lo + 1;
    }
    let mut hi: usize = n;
    while hi > lo && char_is_space(text.get_char(hi - 1))
        invariant
            n == text@.len(),
            lo <= hi <= n,
            lo == space_prefix(text@, 0),
            space_suffix(text@, lo as int, n as int) == space_suffix(text@, lo as int, hi as int),
        decreases hi,
    {
        hi = hi - 1;
    }
    (lo, hi)
}

/// The text without its surrounding white space, as `str::trim` gives it.
pub fn trim_str(text: &str) -> (t: &str)
    ensures
        t@ == trim(text@),
{
    let (lo, hi) = trim_bounds(text);
    text.substring_char(lo, hi)
}

/// The index of the first `\n` at or after `i`, or the length when there is none.
pub open spec fn line_end(s: Seq<char>, i: int) -> int
    decreases s.len() - i,
{
    if i < 0 || i >= s.len() {
        s.len() as int
    } else if s[i] == '\n' {
        i
    } else {
        line_end(s, i + 1)
    }
}

/// The first line of a text as `str::lines` yields it: up to the first `\n`,
/// without a `\r` just before that `\n`; none for an empty text.
pub open spec fn first_line_spec(s: Seq<char>) -> Option<Seq<char>> {
    if s.len() == 0 {
        None
    } else {
        let e = line_end(s, 0);
        if e < s.len() && e > 0 && s[e - 1] == '\r' {
            Some(s.take(e - 1))
        } else {
            Some(s.take(e))
        }
    }
}

/// The first line of a text, as `text.lines().next()` gives it.
pub fn first_line(text: &str) -> (r: Option<String>)
    ensures
        r matches Some(l) ==> first_line_spec(text@) == Some(l@),
        r is None <==> first_line_spec(text@) is None,
{
    let n = text.unicode_len();
    if n == 0 {
        return None;
    }
    let mut e: usize = 0;
    while e < n && text.get_char(e) != '\n'
        invariant
            n == text@.len(),
            e <= n,
            line_end(text@, 0) == line_end(text@, e as int),
        decreases n - e,
    {
        e = e + 1;
    }
    let end = if e < n && e > 0 && text.get_char(e - 1) == '\r' {
        e - 1
    } else {
        e
    };
    proof {
        assert(text@.take(end as int) =~= text@.subrange(0, end as int));
    }
    Some(String::from_str(text.substring_char(0, end)))
}

/// Whether a text ends with a line feed.
pub fn ends_with_newline(text: &str) -> (b: bool)
    ensures
        b == (text@.len() > 0 && text@.last() == '\n'),
{
    let n = text.unicode_len();
    n > 0 && text.get_char(n - 1) == '\n'
}

pub open spec fn is_digit(c: char) -> bool {
    '0' <= c <= '9'
}

/// The number that a sequence of decimal digits denotes.
pub open spec fn digits_value(s: Seq<char>) -> nat
    decreases s.len(),
{
    if s.len() == 0 {
        0
    } else {
        digits_value(s.drop_last()) * 10 + (s.last() as nat - 48) as nat
    }
}

pub open spec fn all_digits(s: Seq<char>) -> bool {
    forall|i: int| 0 <= i < s.len() ==> is_digit(#[trigger] s[i])
}

/// The digits of an unsigned number, after one optional `+`.
pub open spec fn unsigned_digits(s: Seq<char>) -> Seq<char> {
    if s.len() > 0 && s[0] == '+' {
        s.drop_first()
    } else {
        s
    }
}

/// What `str::parse::<u32>` gives: an optional `+`, then at least one decimal
/// digit and nothing else, denoting a value that fits.
pub open spec fn parse_u32_spec(s: Seq<char>) -> Option<u32> {
    let d = unsigned_digits(s);
    if d.len() > 0 && all_digits(d) && digits_value(d) <= u32::MAX {
        Some(digits_value(d) as u32)
    } else {
        None
    }
}

proof fn lemma_take_last(s: Seq<char>, i: int)
    requires
        0 <= i < s.len(),
    ensures
        s.take(i + 1).drop_last() == s.take(i),
        s.take(i + 1).last() == s[i],
{
    assert(s.take(i + 1).drop_last() =~= s.take(i));
}

proof fn lemma_digits_value_grows(s: Seq<char>, i: int)
    requires
        0 <= i <= s.len(),
        all_digits(s),
    ensures
        digits_value(s.take(i)) <= digits_value(s),
    decreases s.len() - i,
{
    if i < s.len() {
        lemma_digits_value_grows(s, i + 1);
        lemma_take_last(s, i);
        assert(digits_value(s.take(i + 1)) == digits_value(s.take(i)) * 10 + (s[i] as nat - 48) as nat);
    } else {
        assert(s.take(i) =~= s);
    }
}

/// Parses a `u32` as `str::parse` does.
pub fn parse_u32(text: &str) -> (r: Option<u32>)
    ensures
        r == parse_u32_spec(text@),
{
    let n = text.unicode_len();
    let mut i: usize = 0;
    if n > 0 && text.get_char(0) == '+' {
        i = 1;
    }
    let ghost d = unsigned_digits(text@);
    assert(d =~= text@.skip(i as int));
    if i == n {
        return None;
    }
    let start = i;
    let mut v: u64 = 0;
    while i < n
        invariant
            start <= i <= n,
            n == text@.len(),
            d == text@.skip(start as int),
            d == unsigned_digits(text@),
            d.len() > 0,
            all_digits(d.take(i - start)),
            v == digits_value(d.take(i - start)),
            v <= u32::MAX,
        decreases n - i,
    {
        let c = text.get_char(i);
        proof {
            lemma_take_last(d, i - start);
        }
        if !('0' <= c && c <= '9') {
            assert(!is_digit(d[i - start]));
            return None;
        }
        let dv: u64 = match c {
            '0' => 0,
            '1' => 1,
            '2' => 2,
            '3' => 3,
            '4' => 4,
            '5' => 5,
            '6' => 6,
            '7' => 7,
            '8' => 8,
            _ => 9,
        };
        assert(dv == c as nat - 48);
        v = v * 10 + dv;
        i = i + 1;
        assert(all_digits(d.take(i - start))) by {
            assert forall|k: int| 0 <= k < i - start implies is_digit(#[trigger] d.take(i - start)[k]) by {
                if k < i - 1 - start {
                    assert(d.take(i - start)[k] == d.take(i - 1 - start)[k]);
                }
            }
        }
        if v > 0xffff_ffff {
            proof {
                if all_digits(d) {
                    lemma_digits_value_grows(d, i - start);
                }
            }
            return None;
        }
    }
    assert(d.take(i - start) =~= d);
    Some(v as u32)
}

/// The decimal form of a number consists of digits that denote it.
pub proof fn lemma_decimal_denotes(n: nat)
    ensures
        decimal(n).len() >= 1,
        all_digits(decimal(n)),
        digits_value(decimal(n)) == n,
    decreases n,
{
    if n < 10 {
        assert(decimal(n) =~= seq![digit_char(n)]);
        assert(decimal(n).drop_last() =~= Seq::<char>::empty());
        assert(digit_char(n) as nat == 48 + n);
        assert(digits_value(decimal(n)) == digits_value(Seq::<char>::empty()) * 10 + (decimal(n).last() as nat - 48) as nat);
    } else {
        lemma_decimal_denotes(n / 10);
        let s = decimal(n / 10);
        assert(decimal(n).drop_last() =~= s);
        vstd::arithmetic::div_mod::lemma_fundamental_div_mod(n as int, 10);
        assert(digit_char(n % 10) as nat == 48 + n % 10);
        assert(digits_value(decimal(n)) == digits_value(s) * 10 + (decimal(n).last() as nat - 48) as nat);
        assert(all_digits(decimal(n))) by {
            assert forall|i: int| 0 <= i < decimal(n).len() implies is_digit(#[trigger] decimal(n)[i]) by {
                if i < s.len() {
                    assert(decimal(n)[i] == s[i]);
                }
            }
        }
    }
}

/// Reading back the decimal form of a number gives the number: `str::parse`
/// undoes `to_string`.
pub proof fn law_parse_reads_back_decimal(n: u32)
    ensures
        parse_u32_spec(decimal(n as nat)) == Some(n),
{
    lemma_decimal_denotes(n as nat);
    let d = decimal(n as nat);
    assert(is_digit(d[0]));
    assert(unsigned_digits(d) == d);
}

/// Distinct numbers have distinct decimal forms.
pub proof fn lemma_decimal_injective(m: nat, n: nat)
    requires
        decimal(m) == decimal(n),
    ensures
        m == n,
{
    lemma_decimal_denotes(m);
    lemma_decimal_denotes(n);
}

/// Command output without one final line feed, as `strip_suffix(b"\n")` leaves it.
pub open spec fn without_final_newline(s: Seq<u8>) -> Seq<u8> {
    if s.len() > 0 && s.last() == 10 {
        s.drop_last()
    } else {
        s
    }
}

/// The path that `mktemp` printed, as bytes.
pub fn work_dir_bytes(stdout: &Vec<u8>) -> (r: Vec<u8>)
    ensures
        r@ == without_final_newline(stdout@),
{
    let mut r: Vec<u8> = Vec::new();
    let n = stdout.len();
    let end = if n > 0 && stdout[n - 1] == 10 {
        n - 1
    } else {
        n
    };
    let mut i: usize = 0;
    while i < end
        invariant
            end <= n == stdout@.len(),
            i <= end,
            r@ == stdout@.take(i as int),
        decreases end - i,
    {
        r.push(stdout[i]);
        i = i + 1;
        assert(r@ =~= stdout@.take(i as int));
    }
    assert(r@ =~= without_final_newline(stdout@));
    r
}

} // verus!
