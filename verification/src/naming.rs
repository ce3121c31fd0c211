//! Unique names for generated macros.
//!
//! A name is made of a tag fixed for one compilation and a counter that grows
//! with each name handed out; names with different tags or counters differ.
use vstd::prelude::*;
use vstd::string::StringExecFns;
use crate::tokens::{SerializedIdent, SerializedSpan};

verus! {

/// The character of a decimal digit.
pub open spec fn digit_char(d: nat) -> char {
    if d == 0 {
        '0'
    } else if d == 1 {
        '1'
    } else if d == 2 {
        '2'
    } else if d == 3 {
        '3'
    } else if d == 4 {
        '4'
    } else if d == 5 {
        '5'
    } else if d == 6 {
        '6'
    } else if d == 7 {
        '7'
    } else if d == 8 {
        '8'
    } else {
        '9'
    }
}

/// The decimal digits of `n`, most significant first, without leading zeros.
pub open spec fn decimal(n: nat) -> Seq<char>
    decreases n,
{
    if n < 10 {
        seq![digit_char(n)]
    } else {
        decimal(n / 10).push(digit_char(n % 10))
    }
}

/// The name given to the macro with the given tag and counter:
/// `__unique_ident_{tag}_{counter}`.
pub open spec fn unique_ident_name(tag: u64, counter: u64) -> Seq<char> {
    "__unique_ident_"@ + decimal(tag as nat) + "_"@ + decimal(counter as nat)
}

/// The one-character string of a digit.
fn digit_str(d: u64) -> (s: &'static str)
    requires
        d < 10,
    ensures
        s@ == seq![digit_char(d as nat)],
{
    proof {
        reveal_strlit("0");
        reveal_strlit("1");
        reveal_strlit("2");
        reveal_strlit("3");
        reveal_strlit("4");
        reveal_strlit("5");
        reveal_strlit("6");
        reveal_strlit("7");
        reveal_strlit("8");
        reveal_strlit("9");
    }
    let s = if d == 0 {
        "0"
    } else if d == 1 {
        "1"
    } else if d == 2 {
        "2"
    } else if d == 3 {
        "3"
    } else if d == 4 {
        "4"
    } else if d == 5 {
        "5"
    } else if d == 6 {
        "6"
    } else if d == 7 {
        "7"
    } else if d == 8 {
        "8"
    } else {
        "9"
    };
    assert(s@ =~= seq![digit_char(d as nat)]);
    s
}

/// Appends the decimal digits of `n`.
fn push_decimal(s: &mut String, n: u64)
    ensures
        final(s)@ == old(s)@ + decimal(n as nat),
    decreases n,
{
    if n >= 10 {
        push_decimal(s, n / 10);
    }
    s.append(digit_str(n % 10));
    assert(final(s)@ =~= old(s)@ + decimal(n as nat));
}

/// The identifier `__unique_ident_{tag}_{counter}`.
pub fn unique_ident(tag: u64, counter: u64) -> (id: SerializedIdent)
    ensures
        id.sym@ == unique_ident_name(tag, counter),
{
    let mut sym = String::from_str("__unique_ident_");
    push_decimal(&mut sym, tag);
    sym.append("_");
    push_decimal(&mut sym, counter);
    assert(sym@ =~= unique_ident_name(tag, counter));
    SerializedIdent { sym, span: SerializedSpan {  } }
}

/// Decimal digits are never underscores, and there is at least one.
pub proof fn lemma_decimal_digits(n: nat)
    ensures
        decimal(n).len() >= 1,
        forall|i: int| 0 <= i < decimal(n).len() ==> #[trigger] decimal(n)[i] != '_',
    decreases n,
{
    if n >= 10 {
        lemma_decimal_digits(n / 10);
    }
}

/// Different numbers have different decimal digits.
pub proof fn lemma_decimal_injective(a: nat, b: nat)
    requires
        decimal(a) == decimal(b),
    ensures
        a == b,
    decreases a,
{
    lemma_decimal_digits(a / 10);
    lemma_decimal_digits(b / 10);
    if a >= 10 && b >= 10 {
        assert(decimal(a / 10) =~= decimal(a).drop_last());
        assert(decimal(b / 10) =~= decimal(b).drop_last());
        lemma_decimal_injective(a / 10, b / 10);
        assert(digit_char(a % 10) == decimal(a).last());
        assert(digit_char(b % 10) == decimal(b).last());
        assert(a % 10 == b % 10);
        assert(a == (a / 10) * 10 + a % 10);
        assert(b == (b / 10) * 10 + b % 10);
    } else if a < 10 && b < 10 {
        assert(decimal(a)[0] == digit_char(a));
        assert(decimal(b)[0] == digit_char(b));
        assert(a == 0 || a == 1 || a == 2 || a == 3 || a == 4 || a == 5 || a == 6 || a == 7 || a == 8
            || a == 9);
        assert(b == 0 || b == 1 || b == 2 || b == 3 || b == 4 || b == 5 || b == 6 || b == 7 || b == 8
            || b == 9);
    } else if a < 10 {
        assert(decimal(b).len() >= 2);
    } else {
        assert(decimal(a).len() >= 2);
    }
}

/// Names with different tags or different counters are different: every
/// counter value of a compilation yields its own name.
pub proof fn lemma_unique_ident_distinct(tag1: u64, counter1: u64, tag2: u64, counter2: u64)
    requires
        tag1 != tag2 || counter1 != counter2,
    ensures
        unique_ident_name(tag1, counter1) != unique_ident_name(tag2, counter2),
{
    let a = unique_ident_name(tag1, counter1);
    let b = unique_ident_name(tag2, counter2);
    let t1 = decimal(tag1 as nat);
    let t2 = decimal(tag2 as nat);
    let c1 = decimal(counter1 as nat);
    let c2 = decimal(counter2 as nat);
    lemma_decimal_digits(tag1 as nat);
    lemma_decimal_digits(tag2 as nat);
    reveal_strlit("__unique_ident_");
    reveal_strlit("_");
    let p: int = 15;
    if a == b {
        assert(a[p + t1.len()] == '_');
        assert(b[p + t2.len()] == '_');
        if t1.len() < t2.len() {
            assert(b[p + t1.len()] == t2[t1.len() as int]);
        } else if t2.len() < t1.len() {
            assert(a[p + t2.len()] == t1[t2.len() as int]);
        }
        assert(t1.len() == t2.len());
        assert(a.subrange(p, p + t1.len()) =~= t1);
        assert(b.subrange(p, p + t2.len()) =~= t2);
        lemma_decimal_injective(tag1 as nat, tag2 as nat);
        assert(a.subrange(p + t1.len() + 1, a.len() as int) =~= c1);
        assert(b.subrange(p + t2.len() + 1, b.len() as int) =~= c2);
        lemma_decimal_injective(counter1 as nat, counter2 as nat);
    }
}

} // verus!
