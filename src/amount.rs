//! Amounts of ether written as decimals, and their value in wei.
use vstd::prelude::*;
use crate::command::{digits_end, is_digit};

verus! {

/// Wei in one ether.
pub const WEI_PER_ETH: u128 = 1_000_000_000_000_000_000;

/// Ten to the power `n`.
pub open spec fn pow10(n: nat) -> nat
    decreases n,
{
    if n == 0 {
        1
    } else {
        10 * pow10((n - 1) as nat)
    }
}

/// The number that a run of decimal digits writes.
pub open spec fn digits_value(d: Seq<char>) -> nat
    decreases d.len(),
{
    if d.len() == 0 {
        0
    } else {
        digits_value(d.drop_last()) * 10 + (d.last() as int - '0' as int) as nat
    }
}

/// Where the whole part of an amount ends.
pub open spec fn whole_end(s: Seq<char>) -> int {
    digits_end(s, 0)
}

/// An amount: digits, optionally a point and more digits, at least one digit
/// in all.
pub open spec fn is_amount_text(s: Seq<char>) -> bool {
    let k = whole_end(s);
    if k == s.len() {
        k > 0
    } else {
        s[k] == '.' && digits_end(s, k + 1) == s.len() && (k > 0 || s.len() > k + 1)
    }
}

/// The digits after the point, if any.
pub open spec fn fraction_digits(s: Seq<char>) -> Seq<char> {
    let k = whole_end(s);
    if k == s.len() {
        Seq::empty()
    } else {
        s.skip(k + 1)
    }
}

/// The value in wei of an amount in ether; digits past the eighteenth after
/// the point are dropped.
pub open spec fn wei_of(s: Seq<char>) -> nat {
    let f = fraction_digits(s);
    let f18 = if f.len() <= 18 { f } else { f.take(18) };
    digits_value(s.take(whole_end(s))) * pow10(18) + digits_value(f18) * pow10((18 - f18.len()) as nat)
}

proof fn lemma_digits_value_push(d: Seq<char>, c: char)
    ensures
        digits_value(d.push(c)) == digits_value(d) * 10 + (c as int - '0' as int) as nat,
{
    assert(d.push(c).drop_last() =~= d);
}

proof fn lemma_digits_value_grows(d: Seq<char>, i: int)
    requires
        0 <= i <= d.len(),
    ensures
        digits_value(d.take(i)) <= digits_value(d),
    decreases d.len() - i,
{
    if i < d.len() {
        lemma_digits_value_grows(d, i + 1);
        assert(d.take(i + 1).drop_last() =~= d.take(i));
        let x = digits_value(d.take(i));
        assert(x <= x * 10) by (nonlinear_arith)
            requires x >= 0;
    } else {
        assert(d.take(i) =~= d);
    }
}

proof fn lemma_digits_end_bound(s: Seq<char>, p: int)
    requires
        0 <= p <= s.len(),
    ensures
        p <= digits_end(s, p) <= s.len(),
    decreases s.len() - p,
{
    if p < s.len() && is_digit(s[p]) {
        lemma_digits_end_bound(s, p + 1);
    }
}

proof fn lemma_pow10_18()
    ensures
        pow10(18) == WEI_PER_ETH,
{
    reveal_with_fuel(pow10, 19);
}

/// The value of the digits `s[from..to]`, or `None` past `u128`.
fn digits_value_exec(s: &[char], from: usize, to: usize) -> (r: Option<u128>)
    requires
        from <= to <= s@.len(),
        forall|j: int| from <= j < to ==> is_digit(#[trigger] s@[j]),
    ensures
        match r {
            Some(v) => v == digits_value(s@.subrange(from as int, to as int)),
            None => digits_value(s@.subrange(from as int, to as int)) > u128::MAX,
        },
{
    let mut acc: u128 = 0;
    let mut i: usize = from;
    while i < to
        invariant
            from <= i <= to <= s@.len(),
            forall|j: int| from <= j < to ==> is_digit(#[trigger] s@[j]),
            acc == digits_value(s@.subrange(from as int, i as int)),
        decreases to - i,
    {
        let d = (s[i] as u32 - '0' as u32) as u128;
        proof {
            assert(s@.subrange(from as int, i + 1) =~= s@.subrange(from as int, i as int).push(s@[i as int]));
            lemma_digits_value_push(s@.subrange(from as int, i as int), s@[i as int]);
        }
        if acc > (u128::MAX - d) / 10 {
            proof {
                let whole = s@.subrange(from as int, to as int);
                assert(whole.take(i - from + 1) =~= s@.subrange(from as int, i + 1));
                lemma_digits_value_grows(whole, i - from + 1);
                assert(acc * 10 + d > u128::MAX) by (nonlinear_arith)
                    requires acc > (u128::MAX - d) / 10, d <= 9;
            }
            return None;
        }
        proof {
            assert(acc * 10 + d <= u128::MAX) by (nonlinear_arith)
                requires acc <= (u128::MAX - d) / 10, d <= 9;
        }
        acc = acc * 10 + d;
        i = i + 1;
    }
    Some(acc)
}

/// The value in wei of an amount text, or `None` where the text is no amount
/// or the value passes `u128`.
pub fn parse_wei(s: &[char]) -> (r: Option<u128>)
    ensures
        match r {
            Some(w) => is_amount_text(s@) && w == wei_of(s@),
            None => !is_amount_text(s@) || wei_of(s@) > u128::MAX,
        },
{
    let n = s.len();
    let mut k: usize = 0;
    while k < n && '0' <= s[k] && s[k] <= '9'
        invariant
            k <= n == s@.len(),
            digits_end(s@, k as int) == digits_end(s@, 0),
            forall|j: int| 0 <= j < k ==> is_digit(#[trigger] s@[j]),
        decreases n - k,
    {
        k = k + 1;
    }
    let ghost f = fraction_digits(s@);
    let mut fs: usize = n;
    if k < n {
        if s[k] != '.' {
            return None;
        }
        let mut e: usize = k + 1;
        while e < n && '0' <= s[e] && s[e] <= '9'
            invariant
                k + 1 <= e <= n == s@.len(),
                digits_end(s@, e as int) == digits_end(s@, k + 1),
                forall|j: int| k + 1 <= j < e ==> is_digit(#[trigger] s@[j]),
            decreases n - e,
        {
            e = e + 1;
        }
        if e < n || (k == 0 && n == k + 1) {
            return None;
        }
        fs = k + 1;
    } else if k == 0 {
        return None;
    }
    // the digits after the point, at most eighteen of them
    let fe: usize = if n - fs <= 18 { n } else { fs + 18 };
    let whole = match digits_value_exec(s, 0, k) {
        Some(v) => v,
        None => {
            proof {
                assert(s@.subrange(0, k as int) =~= s@.take(k as int));
                lemma_pow10_pos(18);
                assert(digits_value(s@.take(whole_end(s@))) * pow10(18) >= digits_value(s@.take(whole_end(s@)))) by (nonlinear_arith)
                    requires pow10(18) >= 1;
            }
            return None;
        },
    };
    let ghost f18 = if f.len() <= 18 { f } else { f.take(18) };
    proof {
        lemma_pow10_18();
        assert(f18 =~= s@.subrange(fs as int, fe as int));
        assert(s@.subrange(0, k as int) =~= s@.take(whole_end(s@)));
        lemma_digits_value_below(f18);
        lemma_pow10_le(f18.len(), 18);
    }
    let frac = match digits_value_exec(s, fs, fe) {
        Some(v) => v,
        None => {
            return None;
        },
    };
    let mut scale: u128 = 1;
    let mut m: usize = fe - fs;
    while m < 18
        invariant
            fs <= fe,
            fe - fs <= m <= 18,
            scale as nat == pow10((m - (fe - fs)) as nat),
            scale <= WEI_PER_ETH,
        decreases 18 - m,
    {
        proof {
            lemma_pow10_step((m - (fe - fs)) as nat);
            lemma_pow10_le((m + 1 - (fe - fs)) as nat, 18);
            lemma_pow10_18();
        }
        scale = scale * 10;
        m = m + 1;
    }
    proof {
        lemma_pow10_le(f18.len(), 18);
        assert(frac * scale <= WEI_PER_ETH) by (nonlinear_arith)
            requires frac < pow10(f18.len()), scale == pow10((18 - f18.len()) as nat),
                pow10(f18.len()) * pow10((18 - f18.len()) as nat) == WEI_PER_ETH;
    }
    let part = frac * scale;
    if whole > (u128::MAX - part) / WEI_PER_ETH {
        proof {
            assert(whole * WEI_PER_ETH + part > u128::MAX) by (nonlinear_arith)
                requires whole > (u128::MAX - part) as int / WEI_PER_ETH as int, WEI_PER_ETH > 0;
        }
        return None;
    }
    proof {
        assert(whole * WEI_PER_ETH + part <= u128::MAX) by (nonlinear_arith)
            requires whole <= (u128::MAX - part) as int / WEI_PER_ETH as int, WEI_PER_ETH > 0;
    }
    Some(whole * WEI_PER_ETH + part)
}

proof fn lemma_pow10_step(n: nat)
    ensures
        pow10(n + 1) == 10 * pow10(n),
{
}

proof fn lemma_pow10_le(a: nat, b: nat)
    requires
        a <= b,
    ensures
        1 <= pow10(a) <= pow10(b),
        pow10(a) * pow10((b - a) as nat) == pow10(b),
    decreases b,
{
    lemma_pow10_pos(a);
    if a < b {
        let b1 = (b - 1) as nat;
        let d = (b - a) as nat;
        let d1 = (b1 - a) as nat;
        lemma_pow10_le(a, b1);
        assert(pow10(d) == 10 * pow10(d1));
        assert(pow10(b) == 10 * pow10(b1));
        let x = pow10(a);
        let y = pow10(d1);
        assert(x * (10 * y) == 10 * (x * y)) by (nonlinear_arith);
        assert(pow10(a) * pow10(d) == x * (10 * y));
        assert(10 * (x * y) == 10 * pow10(b1));
        assert(d == (b - a) as nat);
        assert(pow10(a) * pow10((b - a) as nat) == pow10(b));
    } else {
        assert((b - a) as nat == 0);
        assert(pow10(0) == 1);
        assert(pow10(a) * 1 == pow10(a));
    }
}

proof fn lemma_pow10_pos(n: nat)
    ensures
        pow10(n) >= 1,
    decreases n,
{
    if n > 0 {
        lemma_pow10_pos((n - 1) as nat);
    }
}

proof fn lemma_digits_value_below(d: Seq<char>)
    requires
        forall|j: int| 0 <= j < d.len() ==> is_digit(#[trigger] d[j]),
    ensures
        digits_value(d) < pow10(d.len()),
    decreases d.len(),
{
    if d.len() > 0 {
        let e = d.drop_last();
        assert forall|j: int| 0 <= j < e.len() implies is_digit(#[trigger] e[j]) by {
            assert(e[j] == d[j]);
        }
        lemma_digits_value_below(e);
        assert(is_digit(d[d.len() - 1]));
        let x = digits_value(e);
        let y = d.last() as int - '0' as int;
        let p = pow10(e.len());
        assert(0 <= y < 10);
        assert(pow10(d.len()) == 10 * p);
        assert(x * 10 + y < 10 * p) by (nonlinear_arith)
            requires x < p, 0 <= y < 10;
    }
}

} // verus!
