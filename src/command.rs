//! Reading a send intent out of free text by positional patterns.
use vstd::prelude::*;
use vstd::string::*;
use crate::encoding::is_hex_digit;

verus! {

/// An ASCII decimal digit.
pub open spec fn is_digit(c: char) -> bool {
    '0' <= c && c <= '9'
}

/// `lit` stands in `s` at position `p`.
pub open spec fn lit_at(s: Seq<char>, p: int, lit: Seq<char>) -> bool {
    0 <= p && p + lit.len() <= s.len() && s.subrange(p, p + lit.len()) == lit
}

/// `n` hexadecimal digits stand in `s` from position `p`.
pub open spec fn hex_run_at(s: Seq<char>, p: int, n: int) -> bool {
    0 <= p && p + n <= s.len() && forall|k: int| p <= k < p + n ==> is_hex_digit(#[trigger] s[k])
}

/// `tag`, then `lead`, then `n` hexadecimal digits stand at position `p`.
pub open spec fn tagged_at(s: Seq<char>, p: int, tag: Seq<char>, lead: Seq<char>, n: int) -> bool {
    lit_at(s, p, tag) && lit_at(s, p + tag.len(), lead) && hex_run_at(s, p + tag.len() + lead.len(), n)
}

/// `m` holds at `p` and at no earlier position.
pub open spec fn is_first(m: spec_fn(int) -> bool, p: int) -> bool {
    0 <= p && m(p) && forall|q: int| 0 <= q < p ==> !#[trigger] m(q)
}

/// The first position at which `m` holds, if any.
pub open spec fn first_where(m: spec_fn(int) -> bool) -> Option<int> {
    if exists|p: int| 0 <= p && #[trigger] m(p) {
        Some(choose|p: int| #[trigger] is_first(m, p))
    } else {
        None
    }
}

/// What follows `tag` at the first place where the tagged pattern stands.
pub open spec fn first_tagged(s: Seq<char>, tag: Seq<char>, lead: Seq<char>, n: int) -> Option<
    Seq<char>,
> {
    match first_where(|p: int| tagged_at(s, p, tag, lead, n)) {
        Some(p) => Some(s.subrange(p + tag.len(), p + tag.len() + lead.len() + n)),
        None => None,
    }
}

/// Where the run of digits that starts at `p` ends.
pub open spec fn digits_end(s: Seq<char>, p: int) -> int
    decreases s.len() - p,
{
    if 0 <= p < s.len() && is_digit(s[p]) {
        digits_end(s, p + 1)
    } else {
        p
    }
}

/// Where a number that starts at `p` ends: digits, then optionally a point and
/// more digits.
pub open spec fn number_end(s: Seq<char>, p: int) -> int {
    let q = digits_end(s, p);
    if 0 <= q < s.len() && s[q] == '.' {
        digits_end(s, q + 1)
    } else {
        q
    }
}

/// The currency unit follows at `e`, directly or after one space.
pub open spec fn unit_at(s: Seq<char>, e: int) -> bool {
    lit_at(s, e, "ETH"@) || (0 <= e < s.len() && s[e] == ' ' && lit_at(s, e + 1, "ETH"@))
}

/// An amount followed by the currency unit starts at `p`.
pub open spec fn amount_at(s: Seq<char>, p: int) -> bool {
    0 <= p < s.len() && is_digit(s[p]) && unit_at(s, number_end(s, p))
}

/// The first amount written before the currency unit.
pub open spec fn first_amount(s: Seq<char>) -> Option<Seq<char>> {
    match first_where(|p: int| amount_at(s, p)) {
        Some(p) => Some(s.subrange(p, number_end(s, p))),
        None => None,
    }
}

pub open spec fn first_from(s: Seq<char>) -> Option<Seq<char>> {
    first_tagged(s, "from "@, "0x"@, 40)
}

pub open spec fn first_to(s: Seq<char>) -> Option<Seq<char>> {
    first_tagged(s, "to "@, "0x"@, 40)
}

pub open spec fn first_key(s: Seq<char>) -> Option<Seq<char>> {
    first_tagged(s, "private key "@, ""@, 64)
}

/// A send intent read from text: amount, source, destination, optional key.
#[derive(Debug)]
pub struct SendCommand {
    pub amount: String,
    pub from_address: String,
    pub to_address: String,
    pub private_key: Option<String>,
}

pub open spec fn opt_view(o: Option<String>) -> Option<Seq<char>> {
    match o {
        Some(s) => Some(s@),
        None => None,
    }
}

/// What reading a command gives: the fields, or which required one is missing.
pub open spec fn parse_result(s: Seq<char>) -> Result<
    (Seq<char>, Seq<char>, Seq<char>, Option<Seq<char>>),
    Seq<char>,
> {
    if first_amount(s) is None {
        Err("Error: Could not parse ETH amount from command"@)
    } else if first_from(s) is None {
        Err("Error: Could not parse from address from command"@)
    } else if first_to(s) is None {
        Err("Error: Could not parse to address from command"@)
    } else {
        Ok((first_amount(s).unwrap(), first_from(s).unwrap(), first_to(s).unwrap(), first_key(s)))
    }
}

/// The characters of a text.
pub fn chars_of(s: &str) -> (r: Vec<char>)
    ensures
        r@ == s@,
{
    let n = s.unicode_len();
    let mut r: Vec<char> = Vec::new();
    let mut i: usize = 0;
    while i < n
        invariant
            n == s@.len(),
            i <= n,
            r@ == s@.subrange(0, i as int),
        decreases n - i,
    {
        r.push(s.get_char(i));
        i = i + 1;
        assert(r@ =~= s@.subrange(0, i as int));
    }
    assert(r@ =~= s@);
    r
}

pub fn lit_at_exec(s: &[char], p: usize, lit: &[char]) -> (r: bool)
    ensures
        r == lit_at(s@, p as int, lit@),
{
    if p > s.len() || lit.len() > s.len() - p {
        return false;
    }
    let mut k: usize = 0;
    while k < lit.len()
        invariant
            p + lit@.len() <= s@.len() <= usize::MAX,
            k <= lit@.len(),
            forall|j: int| 0 <= j < k ==> s@[p + j] == lit@[j],
        decreases lit.len() - k,
    {
        if s[p + k] != lit[k] {
            assert(s@.subrange(p as int, p + lit@.len())[k as int] != lit@[k as int]);
            return false;
        }
        k = k + 1;
    }
    assert(s@.subrange(p as int, p + lit@.len()) =~= lit@);
    true
}

fn is_hex_char(c: char) -> (r: bool)
    ensures
        r == is_hex_digit(c),
{
    ('0' <= c && c <= '9') || ('a' <= c && c <= 'f') || ('A' <= c && c <= 'F')
}

fn hex_run_exec(s: &[char], p: usize, n: usize) -> (r: bool)
    ensures
        r == hex_run_at(s@, p as int, n as int),
{
    if p > s.len() || n > s.len() - p {
        return false;
    }
    let mut k: usize = 0;
    while k < n
        invariant
            p + n <= s@.len() <= usize::MAX,
            k <= n,
            forall|j: int| p <= j < p + k ==> is_hex_digit(s@[j]),
        decreases n - k,
    {
        if !is_hex_char(s[p + k]) {
            return false;
        }
        k = k + 1;
    }
    true
}

/// The first position at which `tag`, `lead` and `n` hex digits stand.
fn find_tagged(s: &[char], tag: &[char], lead: &[char], n: usize) -> (r: Option<usize>)
    requires
        tag@.len() > 0,
    ensures
        match r {
            Some(p) => tagged_at(s@, p as int, tag@, lead@, n as int) && forall|q: int|
                0 <= q < p ==> !tagged_at(s@, q, tag@, lead@, n as int),
            None => forall|q: int| 0 <= q ==> !tagged_at(s@, q, tag@, lead@, n as int),
        },
{
    let mut p: usize = 0;
    while p < s.len()
        invariant
            p <= s@.len(),
            forall|q: int| 0 <= q < p ==> !tagged_at(s@, q, tag@, lead@, n as int),
        decreases s.len() - p,
    {
        if lit_at_exec(s, p, tag) {
            let b = p + tag.len();
            if lit_at_exec(s, b, lead) {
                let c = b + lead.len();
                if hex_run_exec(s, c, n) {
                    return Some(p);
                }
            }
        }
        p = p + 1;
    }
    assert forall|q: int| 0 <= q implies !tagged_at(s@, q, tag@, lead@, n as int) by {
        if q >= s@.len() {
            assert(!lit_at(s@, q, tag@));
        }
    }
    None
}

fn digits_end_exec(s: &[char], p: usize) -> (r: usize)
    requires
        p <= s@.len(),
    ensures
        r as int == digits_end(s@, p as int),
        p <= r <= s@.len(),
{
    let mut i: usize = p;
    while i < s.len() && '0' <= s[i] && s[i] <= '9'
        invariant
            p <= i <= s@.len(),
            digits_end(s@, i as int) == digits_end(s@, p as int),
        decreases s.len() - i,
    {
        i = i + 1;
    }
    i
}

fn number_end_exec(s: &[char], p: usize) -> (r: usize)
    requires
        p <= s@.len(),
    ensures
        r as int == number_end(s@, p as int),
        p <= r <= s@.len(),
{
    let q = digits_end_exec(s, p);
    if q < s.len() && s[q] == '.' {
        digits_end_exec(s, q + 1)
    } else {
        q
    }
}

/// The first amount before the unit: where it starts and ends.
fn find_amount(s: &[char]) -> (r: Option<(usize, usize)>)
    ensures
        match r {
            Some((p, e)) => amount_at(s@, p as int) && e as int == number_end(s@, p as int) && p
                <= e <= s@.len()
                && forall|q: int| 0 <= q < p ==> !amount_at(s@, q),
            None => forall|q: int| 0 <= q ==> !amount_at(s@, q),
        },
{
    let unit = chars_of("ETH");
    let mut p: usize = 0;
    while p < s.len()
        invariant
            p <= s@.len(),
            unit@ == "ETH"@,
            forall|q: int| 0 <= q < p ==> !amount_at(s@, q),
        decreases s.len() - p,
    {
        if '0' <= s[p] && s[p] <= '9' {
            let e = number_end_exec(s, p);
            if lit_at_exec(s, e, unit.as_slice()) || (e < s.len() && s[e] == ' ' && lit_at_exec(
                s,
                e + 1,
                unit.as_slice(),
            )) {
                return Some((p, e));
            }
        }
        p = p + 1;
    }
    None
}

/// The text of characters `from..to` of `s`.
fn text_of(s: &[char], from: usize, to: usize) -> (r: String)
    requires
        from <= to <= s@.len(),
    ensures
        r@ == s@.subrange(from as int, to as int),
{
    let mut r = String::new();
    let mut i: usize = from;
    while i < to
        invariant
            from <= i <= to <= s@.len(),
            r@ == s@.subrange(from as int, i as int),
        decreases to - i,
    {
        let mut one = String::new();
        push_char(&mut one, s[i]);
        r.append(one.as_str());
        i = i + 1;
        assert(r@ =~= s@.subrange(from as int, i as int));
    }
    r
}

/// Relies on `String::push`: the character goes at the end.
#[verifier::external_body]
fn push_char(s: &mut String, c: char)
    ensures
        final(s)@ == old(s)@.push(c),
{
    s.push(c)
}

proof fn lemma_first_is(m: spec_fn(int) -> bool, p: int)
    requires
        0 <= p,
        m(p),
        forall|q: int| 0 <= q < p ==> !#[trigger] m(q),
    ensures
        first_where(m) == Some(p),
{
    assert(exists|x: int| 0 <= x && #[trigger] m(x)) by {
        assert(m(p));
    }
    assert(is_first(m, p));
    let c = choose|x: int| #[trigger] is_first(m, x);
    if c < p {
        assert(!m(c));
    } else if c > p {
        assert(!m(p));
    }
}

proof fn lemma_first_none(m: spec_fn(int) -> bool)
    requires
        forall|q: int| 0 <= q ==> !#[trigger] m(q),
    ensures
        first_where(m) is None,
{
}

fn find_field(s: &[char], tag: &str, lead: &str, n: usize) -> (r: Option<String>)
    requires
        tag@.len() > 0,
    ensures
        opt_view(r) == first_tagged(s@, tag@, lead@, n as int),
{
    let t = chars_of(tag);
    let l = chars_of(lead);
    let len = s.len();
    match find_tagged(s, t.as_slice(), l.as_slice(), n) {
        Some(p) => {
            proof {
                lemma_first_is(|q: int| tagged_at(s@, q, tag@, lead@, n as int), p as int);
                assert(lit_at(s@, p as int, tag@));
                assert(lit_at(s@, p + tag@.len(), lead@));
                assert(hex_run_at(s@, p + tag@.len() + lead@.len(), n as int));
                assert(len == s@.len());
            }
            Some(text_of(s, p + t.len(), p + t.len() + l.len() + n))
        },
        None => {
            proof {
                lemma_first_none(|q: int| tagged_at(s@, q, tag@, lead@, n as int));
            }
            None
        },
    }
}

/// Reads amount, source, destination and an optional key out of a command;
/// a missing required field gives an error naming it.
pub fn parse_send_command(command: &str) -> (r: Result<SendCommand, String>)
    ensures
        match (r, parse_result(command@)) {
            (Ok(c), Ok((a, f, t, k))) => c.amount@ == a && c.from_address@ == f && c.to_address@
                == t && opt_view(c.private_key) == k,
            (Err(e), Err(m)) => e@ == m,
            _ => false,
        },
{
    let s = chars_of(command);
    let amount = match find_amount(s.as_slice()) {
        Some((p, e)) => {
            proof {
                lemma_first_is(|q: int| amount_at(s@, q), p as int);
            }
            text_of(s.as_slice(), p, e)
        },
        None => {
            proof {
                lemma_first_none(|q: int| amount_at(s@, q));
            }
            return Err(String::from_str("Error: Could not parse ETH amount from command"));
        },
    };
    proof {
        reveal_strlit("from ");
        reveal_strlit("to ");
        reveal_strlit("private key ");
    }
    let from_address = match find_field(s.as_slice(), "from ", "0x", 40) {
        Some(f) => f,
        None => return Err(String::from_str("Error: Could not parse from address from command")),
    };
    let to_address = match find_field(s.as_slice(), "to ", "0x", 40) {
        Some(t) => t,
        None => return Err(String::from_str("Error: Could not parse to address from command")),
    };
    let private_key = find_field(s.as_slice(), "private key ", "", 64);
    Ok(SendCommand { amount, from_address, to_address, private_key })
}

/// Two texts with the same characters.
pub fn same_text(a: &str, b: &str) -> (r: bool)
    ensures
        r == (a@ == b@),
{
    let x = chars_of(a);
    let y = chars_of(b);
    if x.len() != y.len() {
        return false;
    }
    let r = lit_at_exec(x.as_slice(), 0, y.as_slice());
    assert(x@.subrange(0, y@.len() as int) =~= x@);
    r
}

/// `needle` stands somewhere in `s`.
pub fn contains_text(s: &str, needle: &str) -> (r: bool)
    ensures
        r == exists|p: int| lit_at(s@, p, needle@),
{
    let x = chars_of(s);
    let y = chars_of(needle);
    let mut p: usize = 0;
    loop
        invariant
            x@ == s@,
            y@ == needle@,
            p <= x@.len(),
            forall|q: int| 0 <= q < p ==> !lit_at(s@, q, needle@),
        decreases x.len() - p,
    {
        if lit_at_exec(x.as_slice(), p, y.as_slice()) {
            return true;
        }
        if p == x.len() {
            assert forall|q: int| !lit_at(s@, q, needle@) by {
                if q > p {
                    assert(!(q + needle@.len() <= s@.len()));
                }
            }
            return false;
        }
        p = p + 1;
    }
}

/// The lower-case form of a text under Unicode's rules.
pub uninterp spec fn lower_of(s: Seq<char>) -> Seq<char>;

/// Relies on `str::to_lowercase`: the result depends on the text alone.
#[verifier::external_body]
pub(crate) fn lowercase(s: &str) -> (r: String)
    ensures
        r@ == lower_of(s@),
{
    s.to_lowercase()
}

/// A decimal number as the amount pattern reads it: digits, then optionally a
/// point and more digits.
pub open spec fn is_number_text(a: Seq<char>) -> bool {
    &&& a.len() > 0
    &&& is_digit(a[0])
    &&& number_end(a, 0) == a.len()
    &&& forall|i: int| 0 <= i < a.len() ==> is_digit(#[trigger] a[i]) || a[i] == '.'
}

/// The canonical send command.
pub open spec fn send_command_text(a: Seq<char>, f: Seq<char>, t: Seq<char>) -> Seq<char> {
    "send "@ + a + " ETH from 0x"@ + f + " to 0x"@ + t
}

/// Forty hexadecimal digits.
pub open spec fn is_hex40(h: Seq<char>) -> bool {
    h.len() == 40 && forall|i: int| 0 <= i < 40 ==> is_hex_digit(#[trigger] h[i])
}

proof fn lemma_digits_end_shift(s: Seq<char>, a: Seq<char>, p: int, i: int)
    requires
        0 <= p,
        0 <= i <= a.len(),
        p + a.len() < s.len(),
        s.subrange(p, p + a.len()) == a,
        !is_digit(s[p + a.len()]),
    ensures
        digits_end(s, p + i) == p + digits_end(a, i),
    decreases a.len() - i,
{
    if i < a.len() {
        assert(s[p + i] == a[i]) by {
            assert(s.subrange(p, p + a.len())[i] == s[p + i]);
        }
        if is_digit(a[i]) {
            lemma_digits_end_shift(s, a, p, i + 1);
        }
    }
}

/// Reading the canonical command `send <amount> ETH from 0x<hex> to 0x<hex>`
/// gives back exactly its amount, source and destination, and no key.
pub proof fn lemma_send_command_read_back(a: Seq<char>, f: Seq<char>, t: Seq<char>)
    requires
        is_number_text(a),
        is_hex40(f),
        is_hex40(t),
    ensures
        parse_result(send_command_text(a, f, t)) == Ok::<_, Seq<char>>(
            (a, "0x"@ + f, "0x"@ + t, None::<Seq<char>>),
        ),
{
    reveal_strlit("send ");
    reveal_strlit(" ETH from 0x");
    reveal_strlit(" to 0x");
    reveal_strlit("ETH");
    reveal_strlit("from ");
    reveal_strlit("to ");
    reveal_strlit("0x");
    reveal_strlit("private key ");
    reveal_strlit("");
    let s = send_command_text(a, f, t);
    let n = a.len() as int;
    let p1 = "send "@;
    let p2 = " ETH from 0x"@;
    let p3 = " to 0x"@;
    assert(s.len() == n + 103);
    assert forall|q: int| 0 <= q < 5 implies s[q] == p1[q] by {}
    assert forall|q: int| 5 <= q < 5 + n implies s[q] == a[q - 5] by {}
    assert forall|q: int| 5 + n <= q < 17 + n implies s[q] == p2[q - 5 - n] by {}
    assert forall|q: int| 17 + n <= q < 57 + n implies s[q] == f[q - 17 - n] by {}
    assert forall|q: int| 57 + n <= q < 63 + n implies s[q] == p3[q - 57 - n] by {}
    assert forall|q: int| 63 + n <= q < 103 + n implies s[q] == t[q - 63 - n] by {}

    // the amount
    assert(s.subrange(5, 5 + n) =~= a);
    assert(s[5 + n] == ' ');
    lemma_digits_end_shift(s, a, 5, 0);
    let q0 = digits_end(a, 0);
    if q0 < n {
        assert(a[q0] == '.') by {
            if a[q0] != '.' {
                assert(number_end(a, 0) == q0);
            }
        }
        lemma_digits_end_shift(s, a, 5, q0 + 1);
    }
    assert(number_end(s, 5) == 5 + n);
    assert(s.subrange(6 + n, 9 + n) =~= "ETH"@);
    assert(amount_at(s, 5));
    assert forall|q: int| 0 <= q < 5 implies !amount_at(s, q) by {
        assert(!is_digit(s[q]));
    }
    lemma_first_is(|q: int| amount_at(s, q), 5);

    // the source
    let pf = 10 + n;
    assert(s.subrange(pf, pf + 5) =~= "from "@);
    assert(s.subrange(pf + 5, pf + 7) =~= "0x"@);
    assert(tagged_at(s, pf, "from "@, "0x"@, 40));
    assert forall|q: int| 0 <= q < pf implies !#[trigger] tagged_at(s, q, "from "@, "0x"@, 40) by {
        assert(s[q] != 'f');
        assert(s.subrange(q, q + 5)[0] == s[q]);
    }
    lemma_first_is(|q: int| tagged_at(s, q, "from "@, "0x"@, 40), pf);
    assert(s.subrange(pf + 5, pf + 47) =~= "0x"@ + f);

    // the destination
    let pt = 58 + n;
    assert(s.subrange(pt, pt + 3) =~= "to "@);
    assert(s.subrange(pt + 3, pt + 5) =~= "0x"@);
    assert(tagged_at(s, pt, "to "@, "0x"@, 40));
    assert forall|q: int| 0 <= q < pt implies !#[trigger] tagged_at(s, q, "to "@, "0x"@, 40) by {
        assert(s[q] != 't');
        assert(s.subrange(q, q + 3)[0] == s[q]);
    }
    lemma_first_is(|q: int| tagged_at(s, q, "to "@, "0x"@, 40), pt);
    assert(s.subrange(pt + 3, pt + 45) =~= "0x"@ + t);

    // no key
    assert forall|q: int| 0 <= q implies !#[trigger] tagged_at(s, q, "private key "@, ""@, 64) by {
        if q + 12 <= s.len() {
            assert(s[q] != 'p');
            assert(s.subrange(q, q + 12)[0] == s[q]);
        }
    }
    lemma_first_none(|q: int| tagged_at(s, q, "private key "@, ""@, 64));
}

/// A command missing one of its required fields is refused with a message
/// that names that field, and the three messages differ.
pub proof fn lemma_missing_field_messages(s: Seq<char>)
    ensures
        first_amount(s) is None ==> parse_result(s) == Err::<
            (Seq<char>, Seq<char>, Seq<char>, Option<Seq<char>>),
            _,
        >("Error: Could not parse ETH amount from command"@),
        first_amount(s) is Some && first_from(s) is None ==> parse_result(s) == Err::<
            (Seq<char>, Seq<char>, Seq<char>, Option<Seq<char>>),
            _,
        >("Error: Could not parse from address from command"@),
        first_amount(s) is Some && first_from(s) is Some && first_to(s) is None ==> parse_result(s)
            == Err::<(Seq<char>, Seq<char>, Seq<char>, Option<Seq<char>>), _>(
            "Error: Could not parse to address from command"@,
        ),
        "Error: Could not parse ETH amount from command"@ != "Error: Could not parse from address from command"@,
        "Error: Could not parse ETH amount from command"@ != "Error: Could not parse to address from command"@,
        "Error: Could not parse from address from command"@ != "Error: Could not parse to address from command"@,
{
    reveal_strlit("Error: Could not parse ETH amount from command");
    reveal_strlit("Error: Could not parse from address from command");
    reveal_strlit("Error: Could not parse to address from command");
    assert("Error: Could not parse ETH amount from command"@[23] != "Error: Could not parse to address from command"@[23]);
    assert("Error: Could not parse ETH amount from command"@[23] != "Error: Could not parse from address from command"@[23]);
    assert("Error: Could not parse from address from command"@[23] != "Error: Could not parse to address from command"@[23]);
}

} // verus!
