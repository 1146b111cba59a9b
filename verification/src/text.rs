//! Plain-text helpers shared by the engine: decimal rendering of the numbers
//! that appear in rendered scenes, and parsing of the one-line numeric
//! commands that clients send.

use vstd::prelude::*;

verus! {

/// True for the four ASCII whitespace characters that line-based input can
/// reasonably carry (space, tab, line feed, carriage return).
pub open spec fn is_space_char(c: char) -> bool {
    c == ' ' || c == '\t' || c == '\n' || c == '\r'
}

/// True for the ASCII decimal digits `'0'` through `'9'`.
pub open spec fn is_digit_char(c: char) -> bool {
    48 <= c as u32 && c as u32 <= 57
}

/// Numeric value of a decimal digit character.
pub open spec fn digit_val(c: char) -> nat {
    (c as u32 - 48) as nat
}

/// The decimal digit character with value `d` (meaningful for `0 <= d <= 9`).
pub open spec fn digit_char(d: int) -> char {
    if d == 0 {
        '0'
    } else if d == 1 {
        '1'
    } else if d == 2 {
        '2'
    } else if d == 3 {
        '3'
    } else if d == 4 {
        '4'
    } else if d == 5 {
        '5'
    } else if d == 6 {
        '6'
    } else if d == 7 {
        '7'
    } else if d == 8 {
        '8'
    } else {
        '9'
    }
}

/// Decimal text of `n`, most significant digit first, no sign and no leading
/// zeros (except for `n == 0` itself).
pub open spec fn dec_digits(n: nat) -> Seq<char>
    decreases n,
{
    if n < 10 {
        seq![digit_char(n as int)]
    } else {
        dec_digits(n / 10) + seq![digit_char(n as int % 10)]
    }
}

/// Decimal text of a possibly negative number: a leading `'-'` for negatives.
pub open spec fn int_digits(n: int) -> Seq<char> {
    if n < 0 {
        seq!['-'] + dec_digits((-n) as nat)
    } else {
        dec_digits(n as nat)
    }
}

/// Value of a digit string, most significant digit first.
pub open spec fn digits_val(s: Seq<char>) -> nat
    decreases s.len(),
{
    if s.len() == 0 {
        0
    } else {
        digits_val(s.drop_last()) * 10 + digit_val(s.last())
    }
}

/// True when every character of `s` is a decimal digit.
pub open spec fn all_digits(s: Seq<char>) -> bool {
    forall|i: int| 0 <= i < s.len() ==> is_digit_char(#[trigger] s[i])
}

/// `s` with leading and trailing whitespace removed.
pub open spec fn trim_spec(s: Seq<char>) -> Seq<char>
    decreases s.len(),
{
    if s.len() == 0 {
        s
    } else if is_space_char(s.first()) {
        trim_spec(s.drop_first())
    } else if is_space_char(s.last()) {
        trim_spec(s.drop_last())
    } else {
        s
    }
}

/// What `parse_u32` returns: the value of the trimmed input read as a base-10
/// unsigned integer with an optional leading `'+'`, or `None` when the
/// trimmed input is not one or more digits, or its value does not fit `u32`.
pub open spec fn parse_u32_spec(s: Seq<char>) -> Option<u32> {
    let t = trim_spec(s);
    let d = if t.len() > 0 && t.first() == '+' {
        t.drop_first()
    } else {
        t
    };
    if d.len() > 0 && all_digits(d) && digits_val(d) <= u32::MAX {
        Some(digits_val(d) as u32)
    } else {
        None
    }
}

proof fn lemma_trim_all_spaces(s: Seq<char>)
    requires
        forall|i: int| 0 <= i < s.len() ==> is_space_char(#[trigger] s[i]),
    ensures
        trim_spec(s) =~= Seq::<char>::empty(),
    decreases s.len(),
{
    if s.len() > 0 {
        lemma_trim_all_spaces(s.drop_first());
    }
}

proof fn lemma_trim_subrange(s: Seq<char>, start: int, end: int)
    requires
        0 <= start < end <= s.len(),
        forall|i: int| 0 <= i < start ==> is_space_char(#[trigger] s[i]),
        forall|i: int| end <= i < s.len() ==> is_space_char(#[trigger] s[i]),
        !is_space_char(s[start]),
        !is_space_char(s[end - 1]),
    ensures
        trim_spec(s) =~= s.subrange(start, end),
    decreases s.len(),
{
    if start > 0 {
        let t = s.drop_first();
        lemma_trim_subrange(t, start - 1, end - 1);
        assert(t.subrange(start - 1, end - 1) =~= s.subrange(start, end));
    } else if end < s.len() {
        let t = s.drop_last();
        lemma_trim_subrange(t, start, end);
        assert(t.subrange(start, end) =~= s.subrange(start, end));
    } else {
        assert(s.subrange(0, s.len() as int) =~= s);
    }
}

proof fn lemma_digits_val_snoc(s: Seq<char>, c: char)
    ensures
        digits_val(s.push(c)) == digits_val(s) * 10 + digit_val(c),
{
    assert(s.push(c).drop_last() =~= s);
    assert(s.push(c).last() == c);
}

proof fn lemma_digits_val_monotone(s: Seq<char>, k: int)
    requires
        0 <= k <= s.len(),
    ensures
        digits_val(s) >= digits_val(s.take(k)),
    decreases s.len() - k,
{
    if k == s.len() {
        assert(s.take(k) =~= s);
    } else {
        assert(s.take(k + 1).drop_last() =~= s.take(k));
        assert(digits_val(s.take(k + 1)) == digits_val(s.take(k)) * 10 + digit_val(s[k]));
        lemma_digits_val_monotone(s, k + 1);
    }
}

/// Every character of a decimal rendering is a digit, and there is at least
/// one.
pub proof fn lemma_dec_digits_all_digits(n: nat)
    ensures
        all_digits(dec_digits(n)),
        dec_digits(n).len() >= 1,
    decreases n,
{
    if n < 10 {
        assert(is_digit_char(digit_char(n as int)));
    } else {
        lemma_dec_digits_all_digits(n / 10);
        assert(is_digit_char(digit_char(n as int % 10)));
        let s = dec_digits(n);
        let a = dec_digits(n / 10);
        assert forall|i: int| 0 <= i < s.len() implies is_digit_char(#[trigger] s[i]) by {
            if i < a.len() {
                assert(s[i] == a[i]);
            }
        }
    }
}

/// The value of a decimal rendering is the number itself.
pub proof fn lemma_dec_digits_value(n: nat)
    ensures
        digits_val(dec_digits(n)) == n,
    decreases n,
{
    if n < 10 {
        let c = digit_char(n as int);
        assert(dec_digits(n) == seq![c]);
        assert(Seq::<char>::empty().push(c) =~= seq![c]);
        lemma_digits_val_snoc(Seq::<char>::empty(), c);
        assert(digits_val(Seq::<char>::empty()) == 0);
        assert(digit_val(c) == n);
    } else {
        lemma_dec_digits_value(n / 10);
        let a = dec_digits(n / 10);
        let c = digit_char(n as int % 10);
        assert(dec_digits(n) == a + seq![c]);
        assert(a + seq![c] =~= a.push(c));
        lemma_digits_val_snoc(a, c);
        assert(digit_val(c) == n % 10);
        assert(digits_val(dec_digits(n)) == digits_val(a) * 10 + digit_val(c));
    }
}

/// Rendering a number and parsing the result is the identity.
pub proof fn lemma_parse_round_trip(n: u32)
    ensures
        parse_u32_spec(dec_digits(n as nat)) == Option::Some(n),
{
    let s = dec_digits(n as nat);
    lemma_dec_digits_all_digits(n as nat);
    lemma_dec_digits_value(n as nat);
    assert(is_digit_char(s.first()));
    assert(is_digit_char(s.last()));
    assert(trim_spec(s) == s);
    assert(s.first() != '+');
}

fn is_space(c: char) -> (r: bool)
    ensures
        r == is_space_char(c),
{
    c == ' ' || c == '\t' || c == '\n' || c == '\r'
}

/// Reads the trimmed `input` as a base-10 unsigned integer (an optional
/// leading `'+'`, then one or more digits).  Returns `None` when the input is
/// not of that shape or its value does not fit `u32`.
#[verifier::loop_isolation(false)]
pub fn parse_u32(input: String) -> (r: Option<u32>)
    ensures
        r == parse_u32_spec(input@),
{
    let s = input.as_str();
    let len = s.unicode_len();
    let mut start: usize = 0;
    while start < len && is_space(s.get_char(start))
        invariant
            0 <= start <= len,
            len == s@.len(),
            forall|i: int| 0 <= i < start ==> is_space_char(#[trigger] s@[i]),
        decreases len - start,
    {
        start = start + 1;
    }
    if start == len {
        proof {
            lemma_trim_all_spaces(s@);
        }
        return None;
    }
    let mut end: usize = len;
    while end > start && is_space(s.get_char(end - 1))
        invariant
            start < end <= len,
            len == s@.len(),
            forall|i: int| end <= i < len ==> is_space_char(#[trigger] s@[i]),
        decreases end,
    {
        end = end - 1;
    }
    proof {
        lemma_trim_subrange(s@, start as int, end as int);
    }
    let ghost t = s@.subrange(start as int, end as int);
    let mut pos = start;
    if s.get_char(pos) == '+' {
        pos = pos + 1;
    }
    let ghost d = s@.subrange(pos as int, end as int);
    proof {
        if t.first() == '+' {
            assert(t.drop_first() =~= d);
        } else {
            assert(t =~= d);
        }
    }
    if pos == end {
        return None;
    }
    let mut acc: u32 = 0;
    let mut i = pos;
    while i < end
        invariant
            pos <= i <= end <= len,
            len == s@.len(),
            d == s@.subrange(pos as int, end as int),
            all_digits(s@.subrange(pos as int, i as int)),
            acc == digits_val(s@.subrange(pos as int, i as int)),
        decreases end - i,
    {
        let c = s.get_char(i);
        let u = c as u32;
        if u < 48 || u > 57 {
            proof {
                assert(d[i - pos] == c);
                assert(!is_digit_char(d[i - pos]));
                assert(!all_digits(d));
            }
            return None;
        }
        let dv = u - 48;
        let next: u64 = acc as u64 * 10 + dv as u64;
        proof {
            assert(s@.subrange(pos as int, i + 1) =~= s@.subrange(pos as int, i as int).push(c));
            lemma_digits_val_snoc(s@.subrange(pos as int, i as int), c);
        }
        if next > 0xffff_ffffu64 {
            proof {
                assert(digit_val(c) == dv);
                assert(digits_val(s@.subrange(pos as int, i + 1)) == acc * 10 + dv);
                assert(d.take(i + 1 - pos) =~= s@.subrange(pos as int, i + 1));
                lemma_digits_val_monotone(d, i + 1 - pos);
                assert(digits_val(d) > u32::MAX);
            }
            return None;
        }
        acc = next as u32;
        i = i + 1;
    }
    proof {
        assert(s@.subrange(pos as int, end as int) =~= d);
    }
    Some(acc)
}

fn digit_str(d: u32) -> (r: &'static str)
    requires
        d <= 9,
    ensures
        r@ =~= seq![digit_char(d as int)],
{
    if d == 0 {
        proof {
            reveal_strlit("0");
        }
        "0"
    } else if d == 1 {
        proof {
            reveal_strlit("1");
        }
        "1"
    } else if d == 2 {
        proof {
            reveal_strlit("2");
        }
        "2"
    } else if d == 3 {
        proof {
            reveal_strlit("3");
        }
        "3"
    } else if d == 4 {
        proof {
            reveal_strlit("4");
        }
        "4"
    } else if d == 5 {
        proof {
            reveal_strlit("5");
        }
        "5"
    } else if d == 6 {
        proof {
            reveal_strlit("6");
        }
        "6"
    } else if d == 7 {
        proof {
            reveal_strlit("7");
        }
        "7"
    } else if d == 8 {
        proof {
            reveal_strlit("8");
        }
        "8"
    } else {
        proof {
            reveal_strlit("9");
        }
        "9"
    }
}

/// Renders `n` in decimal.
pub fn u32_to_string(n: u32) -> (r: String)
    ensures
        r@ == dec_digits(n as nat),
    decreases n,
{
    if n < 10 {
        let r = String::from_str(digit_str(n));
        assert(r@ =~= dec_digits(n as nat));
        r
    } else {
        let mut r = u32_to_string(n / 10);
        r.append(digit_str(n % 10));
        assert(r@ =~= dec_digits(n as nat));
        r
    }
}

/// Renders `n` in decimal, with a leading `'-'` when it is negative.
pub fn i32_to_string(n: i32) -> (r: String)
    ensures
        r@ == int_digits(n as int),
{
    if n >= 0 {
        u32_to_string(n as u32)
    } else {
        let m: u32 = (0 - n as i64) as u32;
        let mut r = String::from_str("-");
        proof {
            reveal_strlit("-");
        }
        let digits = u32_to_string(m);
        r.append(digits.as_str());
        assert(r@ =~= int_digits(n as int));
        r
    }
}

} // verus!
