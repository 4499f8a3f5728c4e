//! Text helpers: whitespace tokenizing and decimal integers.
use vstd::prelude::*;

verus! {

/// Whitespace that separates tokens on a command line.
pub open spec fn is_space(c: char) -> bool {
    c == ' ' || c == '\t' || c == '\n' || c == '\r'
}

/// The whitespace-separated tokens of `s`, defined on ever longer prefixes.
pub open spec fn tokens_of(s: Seq<char>) -> Seq<Seq<char>>
    decreases s.len(),
{
    if s.len() == 0 {
        seq![]
    } else {
        let init = s.drop_last();
        let c = s.last();
        let t = tokens_of(init);
        if is_space(c) {
            t
        } else if init.len() == 0 || is_space(init.last()) {
            t.push(seq![c])
        } else {
            t.update(t.len() - 1, t.last().push(c))
        }
    }
}

/// The views of a sequence of strings.
pub open spec fn views(v: Seq<String>) -> Seq<Seq<char>> {
    v.map_values(|t: String| t@)
}

proof fn lemma_tokens_nonempty(s: Seq<char>)
    requires
        s.len() > 0,
        !is_space(s.last()),
    ensures
        tokens_of(s).len() > 0,
        tokens_of(s).last().len() > 0,
    decreases s.len(),
{
    let init = s.drop_last();
    if init.len() == 0 || is_space(init.last()) {
    } else {
        lemma_tokens_nonempty(init);
    }
}

/// Every token is non-empty and holds no whitespace.
pub proof fn lemma_tokens_are_words(s: Seq<char>)
    ensures
        forall|i: int| 0 <= i < tokens_of(s).len() ==> (#[trigger] tokens_of(s)[i]).len() > 0,
        forall|i: int, j: int|
            0 <= i < tokens_of(s).len() && 0 <= j < tokens_of(s)[i].len() ==> !is_space(
                #[trigger] tokens_of(s)[i][j],
            ),
    decreases s.len(),
{
    if s.len() > 0 {
        let init = s.drop_last();
        lemma_tokens_are_words(init);
        if !is_space(s.last()) && !(init.len() == 0 || is_space(init.last())) {
            lemma_tokens_nonempty(init);
        }
    }
}

/// Relies on std's `FromIterator<char> for String`: the string holds exactly
/// the given characters, in order.
#[verifier::external_body]
pub(crate) fn string_from_chars(v: &Vec<char>) -> (r: String)
    ensures
        r@ == v@,
{
    v.iter().collect()
}

/// Splits a command line into its whitespace-separated tokens.
pub fn tokenize(line: &str) -> (r: Vec<String>)
    ensures
        views(r@) == tokens_of(line@),
{
    let n = line.unicode_len();
    let mut toks: Vec<String> = Vec::new();
    let mut cur: Vec<char> = Vec::new();
    let mut i: usize = 0;
    while i < n
        invariant
            n == line@.len(),
            i <= n,
            if i > 0 && !is_space(line@[i - 1]) {
                cur@.len() > 0 && tokens_of(line@.take(i as int)) == views(toks@).push(cur@)
            } else {
                cur@.len() == 0 && tokens_of(line@.take(i as int)) == views(toks@)
            },
        decreases n - i,
    {
        let c = line.get_char(i);
        let ghost pre = line@.take(i as int);
        let ghost toks0 = toks@;
        assert(line@.take(i + 1).drop_last() == pre);
        assert(line@.take(i + 1).last() == c);
        if i > 0 {
            assert(pre.last() == line@[i - 1]);
        }
        if is_space_char(c) {
            if cur.len() > 0 {
                let t = string_from_chars(&cur);
                toks.push(t);
                cur = Vec::new();
                assert(views(toks@) =~= views(toks0).push(t@));
            }
        } else {
            let ghost cur0 = cur@;
            cur.push(c);
            proof {
                let t = tokens_of(pre);
                if pre.len() == 0 || is_space(pre.last()) {
                    assert(cur@ =~= seq![c]);
                } else {
                    assert(t.update(t.len() - 1, t.last().push(c)) =~= views(toks@).push(cur@));
                }
            }
        }
        assert(tokens_of(line@.take(i + 1)) == if is_space(c) {
            tokens_of(pre)
        } else if pre.len() == 0 || is_space(pre.last()) {
            tokens_of(pre).push(seq![c])
        } else {
            tokens_of(pre).update(tokens_of(pre).len() - 1, tokens_of(pre).last().push(c))
        });
        i = i + 1;
    }
    assert(line@.take(n as int) == line@);
    if cur.len() > 0 {
        let ghost toks0 = toks@;
        let t = string_from_chars(&cur);
        toks.push(t);
        assert(views(toks@) =~= views(toks0).push(t@));
    }
    toks
}

fn is_space_char(c: char) -> (r: bool)
    ensures
        r == is_space(c),
{
    c == ' ' || c == '\t' || c == '\n' || c == '\r'
}


/// The character of a decimal digit.
pub open spec fn digit_char(d: nat) -> char {
    ((d % 10) + 48) as char
}

/// Whether `c` is an ASCII decimal digit.
pub open spec fn is_digit(c: char) -> bool {
    '0' <= c && c <= '9'
}

/// The value of an ASCII decimal digit.
pub open spec fn digit_value(c: char) -> nat {
    (c as nat - 48) as nat
}

/// The decimal digits of `n`, without leading zeros.
pub open spec fn dec_nat(n: nat) -> Seq<char>
    decreases n,
{
    if n < 10 {
        seq![digit_char(n)]
    } else {
        dec_nat(n / 10).push(digit_char(n % 10))
    }
}

/// The decimal text of `i`, with a leading `-` when it is negative.
pub open spec fn dec_int(i: int) -> Seq<char> {
    if i < 0 {
        seq!['-'] + dec_nat((-i) as nat)
    } else {
        dec_nat(i as nat)
    }
}

fn push_dec(v: &mut Vec<char>, n: u64)
    ensures
        final(v)@ == old(v)@ + dec_nat(n as nat),
    decreases n,
{
    if n >= 10 {
        push_dec(v, n / 10);
    }
    let d: u8 = (n % 10) as u8;
    let c = (d + 48) as char;
    v.push(c);
    proof {
        assert(c == digit_char(n as nat));
        if n < 10 {
            assert(dec_nat(n as nat) == seq![digit_char(n as nat)]);
        } else {
            assert(dec_nat(n as nat) == dec_nat((n / 10) as nat).push(digit_char((n % 10) as nat)));
        }
    }
    assert(final(v)@ =~= old(v)@ + dec_nat(n as nat));
}

/// The decimal text of an unsigned integer.
pub fn format_u64(n: u64) -> (r: String)
    ensures
        r@ == dec_nat(n as nat),
{
    let mut v: Vec<char> = Vec::new();
    push_dec(&mut v, n);
    assert(v@ =~= dec_nat(n as nat));
    string_from_chars(&v)
}

/// The decimal text of a signed integer.
pub fn format_int(n: i64) -> (r: String)
    ensures
        r@ == dec_int(n as int),
{
    let mut v: Vec<char> = Vec::new();
    if n < 0 {
        v.push('-');
        let m: u64 = ((-(n + 1)) as u64) + 1;
        push_dec(&mut v, m);
    } else {
        push_dec(&mut v, n as u64);
    }
    string_from_chars(&v)
}

/// Whether `s` is a non-empty run of decimal digits.
pub open spec fn all_digits(s: Seq<char>) -> bool {
    s.len() > 0 && forall|i: int| 0 <= i < s.len() ==> is_digit(#[trigger] s[i])
}

/// The value of a run of decimal digits.
pub open spec fn digits_value(s: Seq<char>) -> nat
    decreases s.len(),
{
    if s.len() == 0 {
        0
    } else {
        digits_value(s.drop_last()) * 10 + digit_value(s.last())
    }
}

/// The integer that `s` writes: an optional sign, then decimal digits.
pub open spec fn int_value(s: Seq<char>) -> Option<int> {
    if s.len() > 0 && s[0] == '-' && all_digits(s.drop_first()) {
        Some(-(digits_value(s.drop_first()) as int))
    } else if s.len() > 0 && s[0] == '+' && all_digits(s.drop_first()) {
        Some(digits_value(s.drop_first()) as int)
    } else if all_digits(s) {
        Some(digits_value(s) as int)
    } else {
        None
    }
}

/// The 32-bit integer that `s` writes, if it writes one in range.
pub open spec fn parse_i32_spec(s: Seq<char>) -> Option<i32> {
    match int_value(s) {
        Some(v) => if i32::MIN <= v <= i32::MAX {
            Some(v as i32)
        } else {
            None
        },
        None => None,
    }
}

proof fn lemma_digits_value_prefix(s: Seq<char>, k: int)
    requires
        0 <= k <= s.len(),
    ensures
        digits_value(s) >= digits_value(s.take(k)),
    decreases s.len(),
{
    if k < s.len() {
        let init = s.drop_last();
        lemma_digits_value_prefix(init, k);
        assert(init.take(k) == s.take(k));
    } else {
        assert(s.take(k) == s);
    }
}

/// Reads a 32-bit signed integer: an optional `+` or `-`, then decimal digits.
pub fn parse_i32(s: &str) -> (r: Option<i32>)
    ensures
        r == parse_i32_spec(s@),
{
    let n = s.unicode_len();
    if n == 0 {
        return None;
    }
    let first = s.get_char(0);
    let start: usize = if first == '-' || first == '+' { 1 } else { 0 };
    if start == n {
        assert(!all_digits(s@.drop_first()));
        return None;
    }
    let ghost body = s@.subrange(start as int, n as int);
    let mut acc: i64 = 0;
    let mut i: usize = start;
    while i < n
        invariant
            start <= i <= n,
            n == s@.len(),
            n > 0,
            first == s@[0],
            start == (if first == '-' || first == '+' { 1usize } else { 0usize }),
            body == s@.subrange(start as int, n as int),
            forall|j: int| 0 <= j < i - start ==> is_digit(#[trigger] body[j]),
            acc as int == digits_value(body.take(i - start)),
            0 <= acc <= 2147483648,
        decreases n - i,
    {
        let c = s.get_char(i);
        if !('0' <= c && c <= '9') {
            assert(body[i - start] == c);
            assert(!all_digits(body));
            assert(!all_digits(s@)) by {
                if start == 1 {
                    assert(s@[0] == first);
                } else {
                    assert(s@ =~= body);
                }
            }
            assert(start == 0 || body =~= s@.drop_first());
            return None;
        }
        let d = (c as u32 - 48) as i64;
        acc = acc * 10 + d;
        assert(body.take(i + 1 - start).drop_last() == body.take(i - start));
        i = i + 1;
        if acc > 2147483648 {
            proof {
                lemma_digits_value_prefix(body, i - start);
                if start == 0 {
                    assert(s@ =~= body);
                } else {
                    assert(s@.drop_first() =~= body);
                }
            }
            return None;
        }
    }
    assert(body.take(n - start) == body);
    proof {
        if start == 0 {
            assert(s@ =~= body);
        } else {
            assert(s@.drop_first() =~= body);
        }
    }
    if first == '-' {
        Some((-acc) as i32)
    } else if acc <= 2147483647 {
        Some(acc as i32)
    } else {
        None
    }
}

} // verus!
