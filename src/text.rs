//! Character-sequence helpers: lexicographic comparison and decimal rendering.

use std::cmp::Ordering;
use vstd::prelude::*;

verus! {

/// Lexicographic comparison of `a` and `b` by code point, starting at index `i`.
pub open spec fn lex_cmp_from(a: Seq<char>, b: Seq<char>, i: nat) -> Ordering
    decreases a.len() - i,
{
    if i >= a.len() {
        if i >= b.len() {
            Ordering::Equal
        } else {
            Ordering::Less
        }
    } else if i >= b.len() {
        Ordering::Greater
    } else if (a[i as int] as int) < (b[i as int] as int) {
        Ordering::Less
    } else if (a[i as int] as int) > (b[i as int] as int) {
        Ordering::Greater
    } else {
        lex_cmp_from(a, b, i + 1)
    }
}

/// Lexicographic comparison of two character sequences by code point; a
/// proper prefix orders before the longer sequence.
pub open spec fn lex_cmp(a: Seq<char>, b: Seq<char>) -> Ordering {
    lex_cmp_from(a, b, 0)
}

proof fn lemma_lex_equal_from(a: Seq<char>, b: Seq<char>, i: nat)
    requires
        i <= a.len(),
        i <= b.len(),
    ensures
        lex_cmp_from(a, b, i) == Ordering::Equal <==> (a.len() == b.len() && forall|j: int|
            i <= j < a.len() ==> a[j] == b[j]),
    decreases a.len() - i,
{
    if i < a.len() && i < b.len() && (a[i as int] as int) == (b[i as int] as int) {
        lemma_lex_equal_from(a, b, i + 1);
    }
}

/// Two sequences compare `Equal` exactly when they are the same sequence.
pub proof fn lemma_lex_equal(a: Seq<char>, b: Seq<char>)
    ensures
        lex_cmp(a, b) == Ordering::Equal <==> a == b,
{
    lemma_lex_equal_from(a, b, 0);
    if lex_cmp(a, b) == Ordering::Equal {
        assert(a =~= b);
    }
}

proof fn lemma_lex_flip_from(a: Seq<char>, b: Seq<char>, i: nat)
    ensures
        lex_cmp_from(a, b, i) == Ordering::Less <==> lex_cmp_from(b, a, i) == Ordering::Greater,
    decreases a.len() - i,
{
    if i < a.len() && i < b.len() && (a[i as int] as int) == (b[i as int] as int) {
        lemma_lex_flip_from(a, b, i + 1);
    }
}

/// Swapping the arguments swaps `Less` and `Greater`.
pub proof fn lemma_lex_flip(a: Seq<char>, b: Seq<char>)
    ensures
        lex_cmp(a, b) == Ordering::Less <==> lex_cmp(b, a) == Ordering::Greater,
{
    lemma_lex_flip_from(a, b, 0);
}

proof fn lemma_lex_trans_from(a: Seq<char>, b: Seq<char>, c: Seq<char>, i: nat)
    requires
        lex_cmp_from(a, b, i) == Ordering::Less,
        lex_cmp_from(b, c, i) == Ordering::Less,
    ensures
        lex_cmp_from(a, c, i) == Ordering::Less,
    decreases a.len() - i,
{
    if i < a.len() && i < b.len() && i < c.len() && (a[i as int] as int) == (b[i as int] as int)
        && (b[i as int] as int) == (c[i as int] as int) {
        lemma_lex_trans_from(a, b, c, i + 1);
    }
}

/// `Less` is transitive.
pub proof fn lemma_lex_trans(a: Seq<char>, b: Seq<char>, c: Seq<char>)
    requires
        lex_cmp(a, b) == Ordering::Less,
        lex_cmp(b, c) == Ordering::Less,
    ensures
        lex_cmp(a, c) == Ordering::Less,
{
    lemma_lex_trans_from(a, b, c, 0);
}

/// Compares two strings lexicographically by code point.
pub fn compare_text(a: &str, b: &str) -> (r: Ordering)
    ensures
        r == lex_cmp(a@, b@),
{
    let la = a.unicode_len();
    let lb = b.unicode_len();
    let mut i: usize = 0;
    while i < la && i < lb
        invariant
            i <= la,
            i <= lb,
            la == a@.len(),
            lb == b@.len(),
            lex_cmp(a@, b@) == lex_cmp_from(a@, b@, i as nat),
        decreases la - i,
    {
        let ca = a.get_char(i);
        let cb = b.get_char(i);
        if (ca as u32) < (cb as u32) {
            return Ordering::Less;
        } else if (ca as u32) > (cb as u32) {
            return Ordering::Greater;
        }
        i += 1;
    }
    if i < la {
        Ordering::Greater
    } else if i < lb {
        Ordering::Less
    } else {
        Ordering::Equal
    }
}

/// The character of a decimal digit `d` (0 to 9).
pub open spec fn digit_char(d: nat) -> char {
    if d == 0 {
        '0'
    } else if d == 1 {
        '1'
    } else if d == 2 {
        '2'
    } else if d == 3 {
        '3'
    } else if d == 4 {
        '4'
    } else if d == 5 {
        '5'
    } else if d == 6 {
        '6'
    } else if d == 7 {
        '7'
    } else if d == 8 {
        '8'
    } else {
        '9'
    }
}

/// Decimal digits of `n`, most significant first, without leading zeros.
pub open spec fn digits_of(n: nat) -> Seq<char>
    decreases n,
{
    if n < 10 {
        seq![digit_char(n)]
    } else {
        digits_of(n / 10).push(digit_char(n % 10))
    }
}

/// Decimal text of an integer, with a leading `-` when it is negative.
pub open spec fn decimal_of(n: int) -> Seq<char> {
    if n < 0 {
        seq!['-'] + digits_of((-n) as nat)
    } else {
        digits_of(n as nat)
    }
}

fn append_digits(out: &mut String, n: u32)
    ensures
        final(out)@ == old(out)@ + digits_of(n as nat),
    decreases n,
{
    if n >= 10 {
        append_digits(out, n / 10);
    }
    let d: u32 = n % 10;
    let all = "0123456789";
    proof {
        reveal_strlit("0123456789");
    }
    let one = all.substring_char(d as usize, d as usize + 1);
    assert(one@ == seq![digit_char(d as nat)]);
    out.append(one);
    assert(final(out)@ =~= old(out)@ + digits_of(n as nat));
}

/// Renders a 32-bit integer in decimal.
pub fn decimal_text(n: i32) -> (r: String)
    ensures
        r@ == decimal_of(n as int),
{
    if n < 0 {
        let mut out = String::from_str("-");
        proof {
            reveal_strlit("-");
        }
        let magnitude: u32 = (-(n as i64)) as u32;
        append_digits(&mut out, magnitude);
        out
    } else {
        let mut out = String::new();
        append_digits(&mut out, n as u32);
        assert(out@ =~= decimal_of(n as int));
        out
    }
}

} // verus!
