//! Text read and written: option tokens, and whole numbers in base ten.

use vstd::prelude::*;
use vstd::string::*;

verus! {

/// The texts of the strings in `strings`, in order.
pub open spec fn texts(strings: Seq<String>) -> Seq<Seq<char>> {
    Seq::new(strings.len(), |i: int| strings[i]@)
}

/// The code of `c`, with the capital letters `A` to `Z` taken as their small
/// counterparts.
pub open spec fn folded(c: char) -> u32 {
    if 'A' <= c && c <= 'Z' {
        (c as u32 + 32) as u32
    } else {
        c as u32
    }
}

/// Whether `a` and `b` are the same text, case of the letters `a` to `z`
/// aside.
pub open spec fn same_ignoring_case(a: Seq<char>, b: Seq<char>) -> bool {
    &&& a.len() == b.len()
    &&& forall|i: int| 0 <= i < a.len() ==> folded(#[trigger] a[i]) == folded(b[i])
}

/// Whether `c` is one of the digits `0` to `9`.
pub open spec fn is_digit(c: char) -> bool {
    '0' <= c && c <= '9'
}

/// The number that the digit `c` stands for.
pub open spec fn digit_value(c: char) -> nat {
    (c as u32 - 48) as nat
}

/// Whether `s` is one digit or more, and nothing else.
pub open spec fn is_digits(s: Seq<char>) -> bool {
    &&& s.len() > 0
    &&& forall|i: int| 0 <= i < s.len() ==> is_digit(#[trigger] s[i])
}

/// The number that the digits `s` write in base ten.
pub open spec fn digits_value(s: Seq<char>) -> nat
    decreases s.len(),
{
    if s.len() == 0 {
        0
    } else {
        10 * digits_value(s.drop_last()) + digit_value(s.last())
    }
}

/// The number that `s` writes without a minus sign: an optional `+`, then
/// digits and nothing else.
pub open spec fn unsigned_value(s: Seq<char>) -> Option<nat> {
    let digits = if s.len() > 0 && s[0] == '+' {
        s.skip(1)
    } else {
        s
    };
    if is_digits(digits) {
        Some(digits_value(digits))
    } else {
        None
    }
}

/// The number that `s` writes: an optional `+` or `-`, then digits and
/// nothing else.
pub open spec fn signed_value(s: Seq<char>) -> Option<int> {
    if s.len() > 0 && s[0] == '-' {
        if is_digits(s.skip(1)) {
            Some(-(digits_value(s.skip(1)) as int))
        } else {
            None
        }
    } else {
        match unsigned_value(s) {
            Some(v) => Some(v as int),
            None => None,
        }
    }
}

/// The `u32` that `s` writes, if it writes one.
pub open spec fn u32_value(s: Seq<char>) -> Option<u32> {
    match unsigned_value(s) {
        Some(v) => if v <= u32::MAX {
            Some(v as u32)
        } else {
            None
        },
        None => None,
    }
}

/// The `i32` that `s` writes, if it writes one.
pub open spec fn i32_value(s: Seq<char>) -> Option<i32> {
    match signed_value(s) {
        Some(v) => if i32::MIN <= v <= i32::MAX {
            Some(v as i32)
        } else {
            None
        },
        None => None,
    }
}

/// The digits `s` up to `limit`: their number, unless there is something
/// else among them, or none, or the number is above `limit`.
pub open spec fn digits_up_to(s: Seq<char>, limit: nat) -> Option<nat> {
    if is_digits(s) && digits_value(s) <= limit {
        Some(digits_value(s))
    } else {
        None
    }
}

/// The first `k` digits of a number write no more than all of them.
pub proof fn lemma_prefix_value(s: Seq<char>, k: int)
    requires
        0 <= k <= s.len(),
    ensures
        digits_value(s.take(k)) <= digits_value(s),
    decreases s.len() - k,
{
    if k == s.len() {
        assert(s.take(k) =~= s);
    } else {
        lemma_prefix_value(s.drop_last(), k);
        assert(s.drop_last().take(k) =~= s.take(k));
    }
}

/// Whether `arg` is the option `token`, in capital or small letters.
pub fn matches_token(arg: &str, token: &str) -> (same: bool)
    ensures
        same == same_ignoring_case(arg@, token@),
{
    let n: usize = arg.unicode_len();
    if n != token.unicode_len() {
        return false;
    }
    let mut i: usize = 0;
    while i < n
        invariant
            n == arg@.len(),
            n == token@.len(),
            0 <= i <= n,
            forall|j: int| 0 <= j < i ==> folded(#[trigger] arg@[j]) == folded(token@[j]),
        decreases n - i,
    {
        if fold(arg.get_char(i)) != fold(token.get_char(i)) {
            return false;
        }
        i += 1;
    }
    true
}

/// The code of `c` with capital letters taken as small ones.
fn fold(c: char) -> (code: u32)
    ensures
        code == folded(c),
{
    if 'A' <= c && c <= 'Z' {
        c as u32 + 32
    } else {
        c as u32
    }
}

/// Reads the digits of `s` from position `start` to the end, as long as
/// their number stays within `limit`.
fn read_digits(s: &str, start: usize, limit: u64) -> (value: Option<u64>)
    requires
        s.is_ascii(),
        start <= s@.len(),
        limit <= 0x1_0000_0000,
    ensures
        value matches Some(v) ==> digits_up_to(s@.skip(start as int), limit as nat) == Some(
            v as nat,
        ),
        value is None ==> digits_up_to(s@.skip(start as int), limit as nat) is None,
{
    let n: usize = s.unicode_len();
    let ghost body = s@.skip(start as int);
    if start == n {
        return None;
    }
    let mut acc: u64 = 0;
    let mut i: usize = start;
    while i < n
        invariant
            s.is_ascii(),
            n == s@.len(),
            start <= i <= n,
            body == s@.skip(start as int),
            limit <= 0x1_0000_0000,
            acc <= limit,
            acc == digits_value(body.take(i - start)),
            forall|j: int| 0 <= j < i - start ==> is_digit(#[trigger] body[j]),
        decreases n - i,
    {
        let b: u8 = s.get_ascii(i);
        let ghost c = s@[i as int];
        assert(c == body[i - start]);
        assert('\0' <= c <= '\u{7f}');
        if b < 48 || b > 57 {
            assert(!is_digit(body[i - start]));
            return None;
        }
        let next: u64 = 10 * acc + (b - 48) as u64;
        proof {
            let longer = body.take(i - start + 1);
            assert(longer.drop_last() =~= body.take(i - start));
            assert(longer.last() == c);
            assert(next == digits_value(longer));
            lemma_prefix_value(body, i - start + 1);
        }
        if next > limit {
            return None;
        }
        acc = next;
        i += 1;
    }
    assert(body.take(n - start) =~= body);
    Some(acc)
}

/// Reads `s` as a `u32` written in base ten: an optional `+`, then digits
/// and nothing else, not even a blank. `None` where `s` is not of that form
/// or the number does not fit.
pub fn parse_u32(s: &str) -> (value: Option<u32>)
    ensures
        value == u32_value(s@),
{
    if !s.is_ascii() {
        proof {
            lemma_not_a_number(s@);
        }
        return None;
    }
    let n: usize = s.unicode_len();
    let start: usize = if n > 0 && s.get_ascii(0) == 43 {
        1
    } else {
        0
    };
    assert(start == 1 <==> s@.len() > 0 && s@[0] == '+');
    assert(s@.skip(0) =~= s@);
    match read_digits(s, start, 0xFFFF_FFFF) {
        Some(v) => Some(v as u32),
        None => None,
    }
}

/// Reads `s` as an `i32` written in base ten: an optional `+` or `-`, then
/// digits and nothing else, not even a blank. `None` where `s` is not of that
/// form or the number does not fit.
pub fn parse_i32(s: &str) -> (value: Option<i32>)
    ensures
        value == i32_value(s@),
{
    if !s.is_ascii() {
        proof {
            lemma_not_a_number(s@);
        }
        return None;
    }
    let n: usize = s.unicode_len();
    assert(s@.skip(0) =~= s@);
    if n > 0 && s.get_ascii(0) == 45 {
        assert(s@[0] == '-');
        match read_digits(s, 1, 0x8000_0000) {
            Some(v) => Some((0 - v as i64) as i32),
            None => None,
        }
    } else {
        let start: usize = if n > 0 && s.get_ascii(0) == 43 {
            1
        } else {
            0
        };
        assert(start == 1 <==> s@.len() > 0 && s@[0] == '+');
        assert(!(s@.len() > 0 && s@[0] == '-'));
        match read_digits(s, start, 0x7FFF_FFFF) {
            Some(v) => Some(v as i32),
            None => None,
        }
    }
}

/// A text with a character beyond the ASCII range writes no number.
proof fn lemma_not_a_number(s: Seq<char>)
    requires
        !vstd::utf8::is_ascii_chars(s),
    ensures
        unsigned_value(s) is None,
        signed_value(s) is None,
{
    let i = choose|i: int| 0 <= i < s.len() && !('\0' <= #[trigger] s[i] <= '\u{7f}');
    assert(!is_digit(s[i]));
    if i > 0 {
        assert(s.skip(1)[i - 1] == s[i]);
    }
}

/// The digit that stands for `d`.
pub open spec fn digit_char(d: nat) -> char
    recommends
        d < 10,
{
    if d == 0 {
        '0'
    } else if d == 1 {
        '1'
    } else if d == 2 {
        '2'
    } else if d == 3 {
        '3'
    } else if d == 4 {
        '4'
    } else if d == 5 {
        '5'
    } else if d == 6 {
        '6'
    } else if d == 7 {
        '7'
    } else if d == 8 {
        '8'
    } else {
        '9'
    }
}

/// The digits that write `n` in base ten, without leading zeros.
pub open spec fn decimal_digits(n: nat) -> Seq<char>
    decreases n,
{
    if n < 10 {
        seq![digit_char(n)]
    } else {
        decimal_digits(n / 10).push(digit_char(n % 10))
    }
}

/// The text that writes `n` in base ten: a `-` where it is negative, then
/// the digits of its magnitude.
pub open spec fn decimal_text(n: int) -> Seq<char> {
    if n < 0 {
        seq!['-'] + decimal_digits((-n) as nat)
    } else {
        decimal_digits(n as nat)
    }
}

/// The digits that write a number write that number.
pub proof fn lemma_decimal_digits(n: nat)
    ensures
        is_digits(decimal_digits(n)),
        digits_value(decimal_digits(n)) == n,
    decreases n,
{
    if n < 10 {
        assert(decimal_digits(n).drop_last() =~= Seq::<char>::empty());
        assert(digits_value(decimal_digits(n).drop_last()) == 0);
    } else {
        lemma_decimal_digits(n / 10);
        assert(decimal_digits(n).drop_last() =~= decimal_digits(n / 10));
    }
}

/// What is written is read back: the text of a number, read as a number, is
/// that number.
pub proof fn written_numbers_read_back(n: int)
    ensures
        signed_value(decimal_text(n)) == Some(n),
        n >= 0 ==> unsigned_value(decimal_text(n)) == Some(n as nat),
        0 <= n <= u32::MAX ==> u32_value(decimal_text(n)) == Some(n as u32),
        i32::MIN <= n <= i32::MAX ==> i32_value(decimal_text(n)) == Some(n as i32),
{
    if n < 0 {
        lemma_decimal_digits((-n) as nat);
        assert(decimal_text(n).skip(1) =~= decimal_digits((-n) as nat));
    } else {
        lemma_decimal_digits(n as nat);
        assert(is_digit(decimal_text(n)[0]));
    }
}

/// The digit that stands for `d`, as a text.
fn digit_text(d: u32) -> (text: &'static str)
    requires
        d < 10,
    ensures
        text@ == seq![digit_char(d as nat)],
{
    proof {
        reveal_strlit("0");
        reveal_strlit("1");
        reveal_strlit("2");
        reveal_strlit("3");
        reveal_strlit("4");
        reveal_strlit("5");
        reveal_strlit("6");
        reveal_strlit("7");
        reveal_strlit("8");
        reveal_strlit("9");
    }
    let text: &'static str = match d {
        0 => "0",
        1 => "1",
        2 => "2",
        3 => "3",
        4 => "4",
        5 => "5",
        6 => "6",
        7 => "7",
        8 => "8",
        _ => "9",
    };
    assert(text@ =~= seq![digit_char(d as nat)]);
    text
}

/// Adds the digits of `n` to the end of `out`.
pub fn push_decimal(out: &mut String, n: u32)
    ensures
        final(out)@ == old(out)@ + decimal_digits(n as nat),
    decreases n,
{
    if n >= 10 {
        push_decimal(out, n / 10);
    }
    out.append(digit_text(n % 10));
    assert(out@ =~= old(out)@ + decimal_digits(n as nat));
}

/// Writes `n` in base ten.
pub fn render_u32(n: u32) -> (text: String)
    ensures
        text@ == decimal_text(n as int),
{
    let mut text = String::new();
    push_decimal(&mut text, n);
    assert(text@ =~= decimal_digits(n as nat));
    text
}

/// Writes `n` in base ten, with a `-` in front where it is negative.
pub fn render_i32(n: i32) -> (text: String)
    ensures
        text@ == decimal_text(n as int),
{
    let mut text = String::new();
    if n < 0 {
        proof {
            reveal_strlit("-");
        }
        text.append("-");
        assert(text@ =~= seq!['-']);
        push_decimal(&mut text, (0 - n as i64) as u32);
    } else {
        push_decimal(&mut text, n as u32);
        assert(text@ =~= decimal_digits(n as nat));
    }
    text
}

} // verus!
