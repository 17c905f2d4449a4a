//! Text comparison, ordering and number rendering.
//!
//! Strings are modelled by their sequence of characters.

use vstd::prelude::*;
use vstd::string::*;

verus! {

/// Whether `a` stands strictly before `b` in the order of code points.
///
/// This is the order that `str` has: comparing UTF-8 bytes and comparing code points
/// agree.
pub open spec fn text_before(a: Seq<char>, b: Seq<char>) -> bool
    decreases a.len(),
{
    if b.len() == 0 {
        false
    } else if a.len() == 0 {
        true
    } else if a[0] == b[0] {
        text_before(a.drop_first(), b.drop_first())
    } else {
        (a[0] as int) < (b[0] as int)
    }
}

/// The code point of a character.
pub fn code_point(c: char) -> (code: u32)
    ensures
        code == c as int,
{
    c as u32
}

/// Whether two texts are the same, character by character.
pub fn same_text(a: &str, b: &str) -> (same: bool)
    ensures
        same == (a@ == b@),
{
    let mut left = a.chars();
    let mut right = b.chars();
    let ghost mut done: int = 0;
    loop
        invariant
            0 <= done <= a@.len(),
            done <= b@.len(),
            vstd::std_specs::iter::IteratorSpec::remaining(&left) == a@.skip(done),
            vstd::std_specs::iter::IteratorSpec::remaining(&right) == b@.skip(done),
            a@.take(done) == b@.take(done),
        decreases a@.len() - done,
    {
        let x = left.next();
        let y = right.next();
        match (x, y) {
            (Some(x), Some(y)) => {
                if x != y {
                    assert(a@[done] != b@[done]);
                    return false;
                }
                proof {
                    assert(a@.take(done + 1) =~= a@.take(done).push(a@[done]));
                    assert(b@.take(done + 1) =~= b@.take(done).push(b@[done]));
                    assert(a@.skip(done).drop_first() =~= a@.skip(done + 1));
                    assert(b@.skip(done).drop_first() =~= b@.skip(done + 1));
                    done = done + 1;
                }
            },
            (None, None) => {
                assert(a@.take(done) =~= a@);
                assert(b@.take(done) =~= b@);
                return true;
            },
            _ => {
                return false;
            },
        }
    }
}

/// Whether `a` stands strictly before `b` in the order of code points.
pub fn comes_before(a: &str, b: &str) -> (before: bool)
    ensures
        before == text_before(a@, b@),
{
    let mut left = a.chars();
    let mut right = b.chars();
    let ghost mut done: int = 0;
    assert(a@.skip(0) =~= a@ && b@.skip(0) =~= b@);
    loop
        invariant
            0 <= done <= a@.len(),
            done <= b@.len(),
            vstd::std_specs::iter::IteratorSpec::remaining(&left) == a@.skip(done),
            vstd::std_specs::iter::IteratorSpec::remaining(&right) == b@.skip(done),
            text_before(a@, b@) == text_before(a@.skip(done), b@.skip(done)),
        decreases a@.len() - done,
    {
        let x = left.next();
        let y = right.next();
        match (x, y) {
            (_, None) => {
                return false;
            },
            (None, Some(_)) => {
                return true;
            },
            (Some(x), Some(y)) => {
                if x != y {
                    return code_point(x) < code_point(y);
                }
                proof {
                    assert(a@.skip(done).drop_first() =~= a@.skip(done + 1));
                    assert(b@.skip(done).drop_first() =~= b@.skip(done + 1));
                    done = done + 1;
                }
            },
        }
    }
}

/// No text stands before itself, and of two different texts exactly one stands before
/// the other.
pub proof fn text_order_is_total(a: Seq<char>, b: Seq<char>)
    ensures
        a == b ==> !text_before(a, b),
        a != b ==> (text_before(a, b) != text_before(b, a)),
    decreases a.len(),
{
    if a.len() > 0 && b.len() > 0 && a[0] == b[0] {
        text_order_is_total(a.drop_first(), b.drop_first());
        if a.drop_first() == b.drop_first() {
            assert(a =~= seq![a[0]] + a.drop_first());
            assert(b =~= seq![b[0]] + b.drop_first());
        }
    } else if a.len() == 0 && b.len() == 0 {
        assert(a =~= b);
    }
}

/// The order of texts is transitive.
pub proof fn text_order_is_transitive(a: Seq<char>, b: Seq<char>, c: Seq<char>)
    requires
        text_before(a, b),
        text_before(b, c),
    ensures
        text_before(a, c),
    decreases a.len(),
{
    if a.len() > 0 && a[0] == b[0] && b[0] == c[0] {
        text_order_is_transitive(a.drop_first(), b.drop_first(), c.drop_first());
    }
}

/// The character that writes one decimal digit.
pub open spec fn decimal_digit(d: nat) -> char {
    (48 + d) as char
}

/// A number in decimal, without leading zeros.
pub open spec fn decimal(n: nat) -> Seq<char>
    decreases n,
{
    if n < 10 {
        seq![decimal_digit(n)]
    } else {
        decimal(n / 10).push(decimal_digit(n % 10))
    }
}

fn push_digit(out: &mut String, d: u128)
    requires
        d < 10,
    ensures
        final(out)@ == old(out)@.push(decimal_digit(d as nat)),
{
    let digit: &str = match d {
        0 => "0",
        1 => "1",
        2 => "2",
        3 => "3",
        4 => "4",
        5 => "5",
        6 => "6",
        7 => "7",
        8 => "8",
        _ => "9",
    };
    proof {
        reveal_strlit("0");
        reveal_strlit("1");
        reveal_strlit("2");
        reveal_strlit("3");
        reveal_strlit("4");
        reveal_strlit("5");
        reveal_strlit("6");
        reveal_strlit("7");
        reveal_strlit("8");
        reveal_strlit("9");
        assert(digit@ =~= seq![decimal_digit(d as nat)]);
        assert(old(out)@ + digit@ =~= old(out)@.push(decimal_digit(d as nat)));
    }
    out.append(digit);
}

/// Writes a number in decimal.
pub fn decimal_text(n: u128) -> (out: String)
    ensures
        out@ == decimal(n as nat),
    decreases n,
{
    let mut out = if n < 10 {
        String::new()
    } else {
        decimal_text(n / 10)
    };
    push_digit(&mut out, n % 10);
    assert(n < 10 ==> out@ =~= seq![decimal_digit(n as nat)]);
    out
}

/// How many bytes the UTF-8 encoding of one character takes.
pub open spec fn char_width(c: char) -> nat {
    if (c as int) < 0x80 {
        1
    } else if (c as int) < 0x800 {
        2
    } else if (c as int) < 0x10000 {
        3
    } else {
        4
    }
}

/// How many bytes the UTF-8 encoding of a text takes.
pub open spec fn byte_len(s: Seq<char>) -> nat
    decreases s.len(),
{
    if s.len() == 0 {
        0
    } else {
        char_width(s[0]) + byte_len(s.drop_first())
    }
}

/// How many characters the longest prefix of `s` within `max` bytes has.
pub open spec fn clip_len(s: Seq<char>, max: nat) -> nat
    decreases s.len(),
{
    if s.len() == 0 || char_width(s[0]) > max {
        0
    } else {
        1 + clip_len(s.drop_first(), (max - char_width(s[0])) as nat)
    }
}

/// The longest prefix of `s` that takes at most `max` bytes.
pub open spec fn clip(s: Seq<char>, max: nat) -> Seq<char> {
    s.take(clip_len(s, max) as int)
}

/// What is left of `s` behind `clip(s, max)`.
pub open spec fn clip_rest(s: Seq<char>, max: nat) -> Seq<char> {
    s.skip(clip_len(s, max) as int)
}

/// The byte length is that of the UTF-8 encoding.
pub proof fn byte_len_is_utf8_len(s: Seq<char>)
    ensures
        byte_len(s) == vstd::utf8::encode_utf8(s).len(),
    decreases s.len(),
{
    if s.len() > 0 {
        byte_len_is_utf8_len(s.drop_first());
        broadcast use vstd::utf8::char_is_scalar;

        vstd::utf8::char_u32_cast(s[0], s[0] as u32);
    }
}

/// The byte length of a concatenation is the sum of the byte lengths.
pub proof fn byte_len_concat(a: Seq<char>, b: Seq<char>)
    ensures
        byte_len(a + b) == byte_len(a) + byte_len(b),
    decreases a.len(),
{
    if a.len() == 0 {
        assert(a + b =~= b);
    } else {
        byte_len_concat(a.drop_first(), b);
        assert((a + b).drop_first() =~= a.drop_first() + b);
    }
}

/// Clipping keeps within the limit, keeps a prefix, and cuts only where the next
/// character would pass the limit.
pub proof fn clip_is_the_longest_prefix_within(s: Seq<char>, max: nat)
    ensures
        clip_len(s, max) <= s.len(),
        byte_len(clip(s, max)) <= max,
        byte_len(s) <= max ==> clip(s, max) == s,
        clip_len(s, max) < s.len() ==> byte_len(clip(s, max)) + char_width(
            s[clip_len(s, max) as int],
        ) > max,
        clip(s, max) + clip_rest(s, max) == s,
    decreases s.len(),
{
    if s.len() == 0 || char_width(s[0]) > max {
        assert(clip(s, max) =~= Seq::<char>::empty());
        assert(clip_rest(s, max) =~= s);
    } else {
        let rest = (max - char_width(s[0])) as nat;
        clip_is_the_longest_prefix_within(s.drop_first(), rest);
        assert(clip(s, max) =~= seq![s[0]] + clip(s.drop_first(), rest));
        assert(clip(s, max).drop_first() =~= clip(s.drop_first(), rest));
        assert(clip(s, max) + clip_rest(s, max) =~= s);
        if byte_len(s) <= max {
            assert(clip(s, max) =~= s);
        }
    }
}

/// A prefix is what is clipped at its own byte length.
pub proof fn a_prefix_is_clipped_at_its_length(s: Seq<char>, k: int)
    requires
        0 <= k <= s.len(),
    ensures
        clip_len(s, byte_len(s.take(k))) == k,
    decreases k,
{
    let max = byte_len(s.take(k));
    if k == 0 {
        assert(s.take(0) =~= Seq::<char>::empty());
    } else {
        a_prefix_is_clipped_at_its_length(s.drop_first(), k - 1);
        assert(s.take(k).drop_first() =~= s.drop_first().take(k - 1));
        assert(max == char_width(s[0]) + byte_len(s.drop_first().take(k - 1)));
    }
}

fn width_of(c: char) -> (width: usize)
    ensures
        width == char_width(c),
{
    let code = code_point(c);
    if code < 0x80 {
        1
    } else if code < 0x800 {
        2
    } else if code < 0x10000 {
        3
    } else {
        4
    }
}

/// Counts the characters of the longest prefix of `s` within `max` bytes.
fn measure_prefix(s: &str, max: u64) -> (count: usize)
    ensures
        count == clip_len(s@, max as nat),
{
    let total = s.unicode_len();
    let mut rest = s.chars();
    let mut count: usize = 0;
    let mut left: u64 = max;
    let ghost full = clip_len(s@, max as nat);
    assert(s@.skip(0) =~= s@);
    loop
        invariant
            total == s@.len(),
            count <= s@.len(),
            vstd::std_specs::iter::IteratorSpec::remaining(&rest) == s@.skip(count as int),
            full == clip_len(s@, max as nat),
            full == count + clip_len(s@.skip(count as int), left as nat),
        decreases s@.len() - count,
    {
        match rest.next() {
            None => {
                return count;
            },
            Some(c) => {
                let width = width_of(c) as u64;
                if width > left {
                    return count;
                }
                assert(s@.skip(count as int).drop_first() =~= s@.skip(count + 1));
                count = count + 1;
                left = left - width;
            },
        }
    }
}

/// The longest prefix of `s` that takes at most `max` bytes.
pub fn clip_text(s: &str, max: u64) -> (out: &str)
    ensures
        out@ == clip(s@, max as nat),
{
    let count = measure_prefix(s, max);
    proof {
        clip_is_the_longest_prefix_within(s@, max as nat);
    }
    s.substring_char(0, count)
}

/// What is left of `s` behind the longest prefix that takes at most `max` bytes.
pub fn clip_rest_text(s: &str, max: u64) -> (out: &str)
    ensures
        out@ == clip_rest(s@, max as nat),
{
    let count = measure_prefix(s, max);
    let total = s.unicode_len();
    proof {
        clip_is_the_longest_prefix_within(s@, max as nat);
        assert(s@.subrange(count as int, total as int) =~= s@.skip(count as int));
    }
    s.substring_char(count, total)
}

/// The number of bytes of a text.
pub fn text_bytes(s: &str) -> (n: usize)
    ensures
        n == byte_len(s@),
{
    proof {
        byte_len_is_utf8_len(s@);
    }
    s.as_bytes().len()
}

/// The decimal form of a number is its digits from the most significant one on, without
/// leading zeros: a number below ten is one digit, and a further digit is written behind.
pub proof fn decimal_writes_the_digits(n: nat, d: nat)
    requires
        d < 10,
    ensures
        decimal(d).len() == 1,
        decimal(d)[0] as int == '0' as int + d,
        n > 0 ==> decimal(10 * n + d) == decimal(n) + decimal(d),
{
    if n > 0 {
        assert((10 * n + d) / 10 == n);
        assert((10 * n + d) % 10 == d);
        assert(decimal(n).push(decimal_digit(d)) =~= decimal(n) + decimal(d));
    }
}

} // verus!
