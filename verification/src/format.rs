//! Human-readable renderings of token counts and durations.

use vstd::prelude::*;
use vstd::string::*;
use crate::text::{decimal, digit_char, digit_str, push_decimal};

verus! {

/// Three decimal digits of `k` (taken modulo 1000), zero-padded.
pub open spec fn pad3(k: nat) -> Seq<char> {
    seq![digit_char(((k / 100) % 10) as int), digit_char(((k / 10) % 10) as int), digit_char((k % 10) as int)]
}

/// A token count with thousands separators: every group of three digits
/// below the leading group is set off by ','.
pub open spec fn comma_spelling(n: nat) -> Seq<char>
    decreases n,
{
    if n >= 1000 {
        comma_spelling(n / 1000) + seq![','] + pad3(n % 1000)
    } else {
        decimal(n)
    }
}

/// A duration in seconds as "Mm Ss", or "Ss" under a minute; "0s" when negative.
pub open spec fn duration_spelling(secs: int) -> Seq<char> {
    if secs < 0 {
        seq!['0', 's']
    } else if secs / 60 > 0 {
        decimal((secs / 60) as nat) + seq!['m', ' '] + decimal((secs % 60) as nat) + seq!['s']
    } else {
        decimal((secs % 60) as nat) + seq!['s']
    }
}

/// The characters of `s` other than ','.
pub open spec fn strip_commas(s: Seq<char>) -> Seq<char>
    decreases s.len(),
{
    if s.len() == 0 {
        s
    } else if s.last() == ',' {
        strip_commas(s.drop_last())
    } else {
        strip_commas(s.drop_last()).push(s.last())
    }
}

/// Appends the three zero-padded digits of `k`.
fn push_pad3(out: &mut String, k: u64)
    requires
        k < 1000,
    ensures
        final(out)@ == old(out)@ + pad3(k as nat),
{
    out.append(digit_str((k / 100) % 10));
    out.append(digit_str((k / 10) % 10));
    out.append(digit_str(k % 10));
    assert(out@ =~= old(out)@ + pad3(k as nat));
}

/// Appends the comma spelling of `n`.
fn push_comma_spelling(out: &mut String, n: u64)
    ensures
        final(out)@ == old(out)@ + comma_spelling(n as nat),
    decreases n,
{
    if n >= 1000 {
        push_comma_spelling(out, n / 1000);
        proof { reveal_strlit(","); }
        out.append(",");
        push_pad3(out, n % 1000);
        assert(out@ =~= old(out)@ + comma_spelling(n as nat));
    } else {
        push_decimal(out, n);
    }
}

/// Format token count with comma separators (e.g., 1,245,000).
pub fn format_tokens_comma(n: u64) -> (r: String)
    ensures
        r@ == comma_spelling(n as nat),
{
    let mut out = String::new();
    push_comma_spelling(&mut out, n);
    assert(out@ =~= comma_spelling(n as nat));
    out
}

/// Format a duration in seconds as a short human-readable string.
pub fn format_duration_short(secs: i64) -> (r: String)
    ensures
        r@ == duration_spelling(secs as int),
{
    let mut out = String::new();
    if secs < 0 {
        proof { reveal_strlit("0s"); }
        out.append("0s");
        assert(out@ =~= duration_spelling(secs as int));
        return out;
    }
    let mins = secs / 60;
    let s = secs % 60;
    if mins > 0 {
        push_decimal(&mut out, mins as u64);
        proof { reveal_strlit("m "); }
        out.append("m ");
        push_decimal(&mut out, s as u64);
    } else {
        push_decimal(&mut out, s as u64);
    }
    proof { reveal_strlit("s"); }
    out.append("s");
    assert(out@ =~= duration_spelling(secs as int));
    out
}

/// Digits carry no separators.
pub proof fn lemma_strip_commas_decimal(n: nat)
    ensures
        strip_commas(decimal(n)) == decimal(n),
    decreases n,
{
    if n < 10 {
        let s = decimal(n);
        assert(s.drop_last() =~= Seq::<char>::empty());
        assert(strip_commas(s.drop_last()) =~= Seq::<char>::empty());
        assert(strip_commas(s) =~= s);
    } else {
        lemma_strip_commas_decimal(n / 10);
        let s = decimal(n);
        assert(s.drop_last() =~= decimal(n / 10));
        assert(strip_commas(s) =~= s);
    }
}

/// Removing separators distributes over concatenation.
pub proof fn lemma_strip_commas_append(a: Seq<char>, b: Seq<char>)
    ensures
        strip_commas(a + b) == strip_commas(a) + strip_commas(b),
    decreases b.len(),
{
    if b.len() == 0 {
        assert(a + b =~= a);
        assert(strip_commas(b) =~= Seq::<char>::empty());
        assert(strip_commas(a) + strip_commas(b) =~= strip_commas(a));
    } else {
        lemma_strip_commas_append(a, b.drop_last());
        assert((a + b).drop_last() =~= a + b.drop_last());
        assert((a + b).last() == b.last());
        if b.last() == ',' {
        } else {
            assert(strip_commas(a + b) =~= strip_commas(a) + strip_commas(b));
        }
    }
}

/// A leading group followed by three padded digits spells the whole number.
pub proof fn lemma_decimal_thousands(a: nat, b: nat)
    requires
        a >= 1,
        b < 1000,
    ensures
        decimal(a * 1000 + b) == decimal(a) + pad3(b),
{
    let m = a * 1000 + b;
    assert(m / 10 == a * 100 + b / 10) by (nonlinear_arith)
        requires m == a * 1000 + b, b < 1000;
    assert(m % 10 == b % 10) by (nonlinear_arith)
        requires m == a * 1000 + b, b < 1000;
    assert((m / 10) / 10 == a * 10 + b / 100) by (nonlinear_arith)
        requires m == a * 1000 + b, b < 1000;
    assert((m / 10) % 10 == (b / 10) % 10) by (nonlinear_arith)
        requires m == a * 1000 + b, b < 1000;
    assert(((m / 10) / 10) / 10 == a) by (nonlinear_arith)
        requires m == a * 1000 + b, b < 1000;
    assert(((m / 10) / 10) % 10 == (b / 100) % 10) by (nonlinear_arith)
        requires m == a * 1000 + b, b < 1000;
    assert(decimal(m) == decimal(m / 10).push(digit_char((m % 10) as int)));
    assert(decimal(m / 10) == decimal((m / 10) / 10).push(digit_char(((m / 10) % 10) as int)));
    assert(decimal((m / 10) / 10) == decimal(((m / 10) / 10) / 10).push(
        digit_char((((m / 10) / 10) % 10) as int),
    ));
    assert(decimal(m) =~= decimal(a) + pad3(b));
}

/// A sequence without separators is left as it is.
pub proof fn lemma_strip_commas_plain(s: Seq<char>)
    requires
        forall|i: int| 0 <= i < s.len() ==> s[i] != ',',
    ensures
        strip_commas(s) == s,
    decreases s.len(),
{
    if s.len() > 0 {
        lemma_strip_commas_plain(s.drop_last());
        assert(strip_commas(s) =~= s);
    }
}

/// The separator alone strips to nothing.
pub proof fn lemma_strip_commas_comma()
    ensures
        strip_commas(seq![',']) == Seq::<char>::empty(),
{
    let c = seq![','];
    assert(c.drop_last() =~= Seq::<char>::empty());
    assert(strip_commas(c.drop_last()) =~= Seq::<char>::empty());
}

/// Three padded digits carry no separator.
pub proof fn lemma_strip_commas_pad3(k: nat)
    ensures
        strip_commas(pad3(k)) == pad3(k),
{
    lemma_strip_commas_plain(pad3(k));
}

/// Thousands separators only separate: without the commas, the comma
/// rendering of a count is its plain decimal spelling.
pub proof fn law_comma_spelling_digits(n: nat)
    ensures
        strip_commas(comma_spelling(n)) == decimal(n),
    decreases n,
{
    if n >= 1000 {
        let a = n / 1000;
        let c = n % 1000;
        assert(n == a * 1000 + c) by (nonlinear_arith)
            requires a == n / 1000, c == n % 1000;
        law_comma_spelling_digits(a);
        lemma_decimal_thousands(a, c);
        let comma = seq![','];
        lemma_strip_commas_comma();
        lemma_strip_commas_pad3(c);
        let s1 = comma_spelling(a) + comma;
        lemma_strip_commas_append(comma_spelling(a), comma);
        lemma_strip_commas_append(s1, pad3(c));
        assert(strip_commas(s1 + pad3(c)) =~= decimal(a) + pad3(c));
    } else {
        lemma_strip_commas_decimal(n);
    }
}

/// A non-negative duration splits into whole minutes and leftover seconds
/// that recombine to the original count.
pub proof fn law_duration_split(secs: int)
    requires
        secs >= 0,
    ensures
        (secs / 60) * 60 + secs % 60 == secs,
        0 <= secs % 60 < 60,
        duration_spelling(secs) == (if secs >= 60 {
            decimal((secs / 60) as nat) + seq!['m', ' '] + decimal((secs % 60) as nat) + seq!['s']
        } else {
            decimal(secs as nat) + seq!['s']
        }),
{
}

} // verus!
