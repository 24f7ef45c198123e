//! Character-level primitives shared by the configuration renderer, the
//! artifact renderer and the configuration parser: decimal digit strings,
//! literal matching and quoted-field scanning, together with the lemmas
//! that make a rendered document parse back to what it was rendered from.

use vstd::prelude::*;
use vstd::string::*;

verus! {

/// Holds of a text that contains no double-quote character, so it can be
/// embedded verbatim between quotes in a rendered document.
pub open spec fn no_quote(s: Seq<char>) -> bool {
    forall|k: int| 0 <= k < s.len() ==> s[k] != '"'
}

pub open spec fn is_digit_char(c: char) -> bool {
    48 <= c as u32 <= 57
}

pub open spec fn digit_val(c: char) -> nat {
    (c as u32 - 48) as nat
}

pub open spec fn digit_char(d: nat) -> char {
    if d == 0 {
        '0'
    } else if d == 1 {
        '1'
    } else if d == 2 {
        '2'
    } else if d == 3 {
        '3'
    } else if d == 4 {
        '4'
    } else if d == 5 {
        '5'
    } else if d == 6 {
        '6'
    } else if d == 7 {
        '7'
    } else if d == 8 {
        '8'
    } else {
        '9'
    }
}

/// The canonical decimal rendering of a natural number, most significant
/// digit first, with no leading zeros (a single `0` for zero).
pub open spec fn spec_digits(n: nat) -> Seq<char>
    decreases n,
{
    if n < 10 {
        seq![digit_char(n)]
    } else {
        spec_digits(n / 10) + seq![digit_char(n % 10)]
    }
}

/// The numeric value of a digit string, most significant digit first.
pub open spec fn spec_digits_val(s: Seq<char>) -> nat
    decreases s.len(),
{
    if s.len() == 0 {
        0
    } else {
        spec_digits_val(s.drop_last()) * 10 + digit_val(s.last())
    }
}

pub open spec fn pow10(k: nat) -> nat
    decreases k,
{
    if k == 0 {
        1
    } else {
        10 * pow10((k - 1) as nat)
    }
}

pub open spec fn all_digits(s: Seq<char>) -> bool {
    forall|k: int| 0 <= k < s.len() ==> is_digit_char(s[k])
}

proof fn lemma_digit_char_val(d: nat)
    requires
        d < 10,
    ensures
        is_digit_char(digit_char(d)),
        digit_val(digit_char(d)) == d,
{
}

pub proof fn lemma_digits_are_digits(n: nat)
    ensures
        all_digits(spec_digits(n)),
        spec_digits(n).len() >= 1,
    decreases n,
{
    if n < 10 {
        lemma_digit_char_val(n);
    } else {
        lemma_digits_are_digits(n / 10);
        lemma_digit_char_val(n % 10);
        assert forall|k: int| 0 <= k < spec_digits(n).len() implies is_digit_char(
            spec_digits(n)[k],
        ) by {
            if k < spec_digits(n / 10).len() {
                assert(spec_digits(n)[k] == spec_digits(n / 10)[k]);
            }
        }
    }
}

/// Parsing the canonical rendering of `n` gives back `n`.
pub proof fn lemma_digits_roundtrip(n: nat)
    ensures
        spec_digits_val(spec_digits(n)) == n,
    decreases n,
{
    if n < 10 {
        lemma_digit_char_val(n);
        assert(spec_digits(n) =~= seq![digit_char(n)]);
        assert(spec_digits(n).drop_last() =~= Seq::<char>::empty());
        assert(spec_digits(n).last() == digit_char(n));
        assert(spec_digits_val(spec_digits(n)) == spec_digits_val(Seq::<char>::empty()) * 10
            + digit_val(digit_char(n)));
    } else {
        lemma_digits_roundtrip(n / 10);
        lemma_digit_char_val(n % 10);
        assert(spec_digits(n).drop_last() =~= spec_digits(n / 10));
        assert(spec_digits(n).last() == digit_char(n % 10));
        assert(spec_digits_val(spec_digits(n)) == (n / 10) * 10 + n % 10);
        assert((n / 10) * 10 + n % 10 == n) by {
            vstd::arithmetic::div_mod::lemma_fundamental_div_mod(n as int, 10);
        }
    }
}

/// A number below `pow10(k)` renders to at most `k` digits.
pub proof fn lemma_digits_len(n: nat, k: nat)
    requires
        n < pow10(k),
        k >= 1,
    ensures
        spec_digits(n).len() <= k,
    decreases k,
{
    if n < 10 {
    } else {
        assert(pow10(k) == 10 * pow10((k - 1) as nat));
        lemma_digits_len(n / 10, (k - 1) as nat);
    }
}

pub proof fn lemma_pow10_vals()
    ensures
        pow10(0) == 1,
        pow10(1) == 10,
        pow10(9) == 1000000000,
        pow10(10) == 10000000000,
        pow10(11) == 100000000000,
{
    assert(pow10(0) == 1);
    assert(pow10(1) == 10);
    assert(pow10(2) == 100);
    assert(pow10(3) == 1000);
    assert(pow10(4) == 10000);
    assert(pow10(5) == 100000);
    assert(pow10(6) == 1000000);
    assert(pow10(7) == 10000000);
    assert(pow10(8) == 100000000);
    assert(pow10(9) == 1000000000);
    assert(pow10(10) == 10000000000);
    assert(pow10(11) == 100000000000);
}

/// A digit character is recovered from its value.
proof fn lemma_digit_char_inv(c: char)
    requires
        is_digit_char(c),
    ensures
        digit_char(digit_val(c)) == c,
{
}

/// The canonical rendering never starts with a superfluous zero.
pub proof fn lemma_digits_no_leading_zero(n: nat)
    requires
        spec_digits(n).len() > 1,
    ensures
        spec_digits(n)[0] != '0',
    decreases n,
{
    if n >= 10 {
        assert(spec_digits(n)[0] == spec_digits(n / 10)[0]);
        if n / 10 < 10 {
            assert(spec_digits(n / 10) =~= seq![digit_char(n / 10)]);
        } else {
            lemma_digits_are_digits(n / 10 / 10);
            assert(spec_digits(n / 10).len() > 1);
            lemma_digits_no_leading_zero(n / 10);
        }
    }
}

/// The value of a digit string is below `pow10` of its length.
pub proof fn lemma_digits_val_bound(s: Seq<char>)
    requires
        all_digits(s),
    ensures
        spec_digits_val(s) < pow10(s.len() as nat),
    decreases s.len(),
{
    if s.len() == 0 {
    } else {
        assert(all_digits(s.drop_last()));
        lemma_digits_val_bound(s.drop_last());
        assert(is_digit_char(s.last()));
        assert(digit_val(s.last()) <= 9);
    }
}

/// A digit string without a superfluous leading zero is the canonical
/// rendering of its value.
pub proof fn lemma_digits_canonical(s: Seq<char>)
    requires
        all_digits(s),
        s.len() >= 1,
        s.len() > 1 ==> s[0] != '0',
    ensures
        spec_digits(spec_digits_val(s)) == s,
    decreases s.len(),
{
    let v = spec_digits_val(s);
    if s.len() == 1 {
        assert(s.drop_last() =~= Seq::<char>::empty());
        assert(spec_digits_val(Seq::<char>::empty()) == 0);
        assert(s.last() == s[0]);
        assert(v == spec_digits_val(s.drop_last()) * 10 + digit_val(s.last()));
        assert(v == digit_val(s[0]));
        lemma_digit_char_inv(s[0]);
        assert(spec_digits(v) =~= s);
    } else {
        let pre = s.drop_last();
        assert(all_digits(pre));
        assert(pre[0] == s[0]);
        lemma_digits_canonical(pre);
        let pv = spec_digits_val(pre);
        assert(v == pv * 10 + digit_val(s.last()));
        assert(pv >= 1) by {
            if pv == 0 {
                // the prefix would then be the single digit zero, making
                // the whole string start with the excluded leading zero
                assert(spec_digits(0nat) =~= seq!['0']);
                assert(pre =~= seq!['0']);
                assert(s[0] == '0');
            }
        }
        assert(v >= 10) by (nonlinear_arith)
            requires
                pv >= 1,
                v == pv * 10 + digit_val(s.last()),
                digit_val(s.last()) >= 0,
        ;
        assert(v / 10 == pv && v % 10 == digit_val(s.last())) by (nonlinear_arith)
            requires
                v == pv * 10 + digit_val(s.last()),
                0 <= digit_val(s.last()) < 10,
                pv >= 0,
        ;
        lemma_digit_char_inv(s.last());
        assert(spec_digits(v) == spec_digits(pv) + seq![digit_char(digit_val(s.last()))]);
        assert(spec_digits(v) =~= s);
    }
}

/// Maps one decimal digit to its text.
fn digit_str(d: u64) -> (r: &'static str)
    requires
        d < 10,
    ensures
        r@ =~= seq![digit_char(d as nat)],
{
    proof {
        reveal_strlit("0");
        reveal_strlit("1");
        reveal_strlit("2");
        reveal_strlit("3");
        reveal_strlit("4");
        reveal_strlit("5");
        reveal_strlit("6");
        reveal_strlit("7");
        reveal_strlit("8");
        reveal_strlit("9");
    }
    if d == 0 {
        "0"
    } else if d == 1 {
        "1"
    } else if d == 2 {
        "2"
    } else if d == 3 {
        "3"
    } else if d == 4 {
        "4"
    } else if d == 5 {
        "5"
    } else if d == 6 {
        "6"
    } else if d == 7 {
        "7"
    } else if d == 8 {
        "8"
    } else {
        "9"
    }
}

/// Appends the canonical decimal rendering of `n` to `out`.
pub fn push_digits(out: &mut String, n: u64)
    ensures
        final(out)@ == old(out)@ + spec_digits(n as nat),
    decreases n,
{
    if n < 10 {
        out.append(digit_str(n));
        assert(final(out)@ =~= old(out)@ + spec_digits(n as nat));
    } else {
        push_digits(out, n / 10);
        out.append(digit_str(n % 10));
        assert(final(out)@ =~= old(out)@ + spec_digits(n as nat));
    }
}

/// The `w` least significant decimal digits of `n`, zero padded.
pub open spec fn spec_padded(n: nat, w: nat) -> Seq<char>
    decreases w,
{
    if w == 0 {
        Seq::empty()
    } else {
        spec_padded(n / 10, (w - 1) as nat) + seq![digit_char(n % 10)]
    }
}

/// Appends exactly `w` decimal digits of `n`, zero padded on the left.
pub fn push_padded(out: &mut String, n: u64, w: u64)
    ensures
        final(out)@ == old(out)@ + spec_padded(n as nat, w as nat),
    decreases w,
{
    if w == 0 {
        assert(final(out)@ =~= old(out)@ + spec_padded(n as nat, 0));
    } else {
        push_padded(out, n / 10, w - 1);
        out.append(digit_str(n % 10));
        assert(final(out)@ =~= old(out)@ + spec_padded(n as nat, w as nat));
    }
}

// ---------------------------------------------------------------------
// Suffix-style scanning: the specification parser eats the document from
// the front, peeling a literal, a quoted field or a number at a time.
// ---------------------------------------------------------------------
/// Consumes `lit` from the front of `t`, or fails.
pub open spec fn sp_eat_lit(t: Seq<char>, lit: Seq<char>) -> Option<Seq<char>> {
    if lit.len() <= t.len() && t.take(lit.len() as int) == lit {
        Some(t.skip(lit.len() as int))
    } else {
        None
    }
}

/// Eating a literal off a document that starts with it yields the rest.
pub proof fn lemma_eat_lit(lit: Seq<char>, rest: Seq<char>)
    ensures
        sp_eat_lit(lit + rest, lit) == Some(rest),
{
    assert((lit + rest).take(lit.len() as int) =~= lit);
    assert((lit + rest).skip(lit.len() as int) =~= rest);
}

/// A single differing character makes the eat fail.
pub proof fn lemma_eat_lit_mismatch(t: Seq<char>, lit: Seq<char>, k: int)
    requires
        0 <= k < lit.len(),
        k < t.len(),
        t[k] != lit[k],
    ensures
        sp_eat_lit(t, lit) is None,
{
    if lit.len() <= t.len() && t.take(lit.len() as int) == lit {
        assert(t.take(lit.len() as int)[k] == t[k]);
    }
}

/// Index of the first double quote at or after `i`, or `t.len()`.
pub open spec fn first_quote(t: Seq<char>, i: int) -> int
    decreases t.len() - i,
    when 0 <= i <= t.len()
{
    if i == t.len() {
        i
    } else if t[i] == '"' {
        i
    } else {
        first_quote(t, i + 1)
    }
}

pub proof fn lemma_first_quote_range(t: Seq<char>, i: int, q: int)
    requires
        0 <= i <= q <= t.len(),
        forall|k: int| i <= k < q ==> t[k] != '"',
        q == t.len() || t[q] == '"',
    ensures
        first_quote(t, i) == q,
    decreases q - i,
{
    if i < q {
        lemma_first_quote_range(t, i + 1, q);
    }
}

/// Scans a quoted field: everything up to the first quote, which is
/// consumed as well.
pub open spec fn sp_scan_q(t: Seq<char>) -> Option<(Seq<char>, Seq<char>)> {
    let q = first_quote(t, 0);
    if q < t.len() {
        Some((t.take(q), t.skip(q + 1)))
    } else {
        None
    }
}

/// Scanning a rendered field finds exactly the field: the field itself
/// holds no quote and the renderer puts the closing quote right after it.
pub proof fn lemma_scan_q(f: Seq<char>, rest: Seq<char>)
    requires
        no_quote(f),
    ensures
        sp_scan_q(f + (seq!['"'] + rest)) == Some((f, rest)),
{
    let t = f + (seq!['"'] + rest);
    assert(t[f.len() as int] == '"');
    assert(forall|k: int| 0 <= k < f.len() ==> t[k] == f[k]);
    lemma_first_quote_range(t, 0, f.len() as int);
    assert(t.take(f.len() as int) =~= f);
    assert(t.skip(f.len() as int + 1) =~= rest);
}

/// Index of the first non-digit character at or after `i`, or `t.len()`.
pub open spec fn first_nondigit(t: Seq<char>, i: int) -> int
    decreases t.len() - i,
    when 0 <= i <= t.len()
{
    if i == t.len() {
        i
    } else if !is_digit_char(t[i]) {
        i
    } else {
        first_nondigit(t, i + 1)
    }
}

pub proof fn lemma_first_nondigit_range(t: Seq<char>, i: int, e: int)
    requires
        0 <= i <= e <= t.len(),
        forall|k: int| i <= k < e ==> is_digit_char(t[k]),
        e == t.len() || !is_digit_char(t[e]),
    ensures
        first_nondigit(t, i) == e,
    decreases e - i,
{
    if i < e {
        lemma_first_nondigit_range(t, i + 1, e);
    }
}

/// Scans an unsigned decimal number of at most ten digits off the front
/// of `t`; the terminator is left in place.  A superfluous leading zero
/// is rejected: only canonical digit strings are numbers.
pub open spec fn sp_scan_num(t: Seq<char>) -> Option<(nat, Seq<char>)> {
    let e = first_nondigit(t, 0);
    if e == 0 || e > 10 {
        None
    } else if e > 1 && t[0] == '0' {
        None
    } else {
        Some((spec_digits_val(t.take(e)), t.skip(e)))
    }
}

/// Scanning the rendering of a number that fits ten digits gives it back.
pub proof fn lemma_scan_num(n: nat, rest: Seq<char>)
    requires
        n < 10000000000,
        rest.len() > 0,
        !is_digit_char(rest[0]),
    ensures
        sp_scan_num(spec_digits(n) + rest) == Some((n, rest)),
{
    let d = spec_digits(n);
    let t = d + rest;
    lemma_digits_are_digits(n);
    lemma_pow10_vals();
    lemma_digits_len(n, 10);
    assert(forall|k: int| 0 <= k < d.len() ==> t[k] == d[k]);
    assert(t[d.len() as int] == rest[0]);
    lemma_first_nondigit_range(t, 0, d.len() as int);
    assert(t.take(d.len() as int) =~= d);
    lemma_digits_roundtrip(n);
    assert(t.skip(d.len() as int) =~= rest);
    if d.len() > 1 {
        lemma_digits_no_leading_zero(n);
        assert(t[0] == d[0]);
    }
}

// ---------------------------------------------------------------------
// Soundness of the scanners: whatever they accept reconstructs the
// input exactly.
// ---------------------------------------------------------------------
/// A successful eat means the input began with the literal.
pub proof fn lemma_eat_lit_sound(t: Seq<char>, lit: Seq<char>, rest: Seq<char>)
    requires
        sp_eat_lit(t, lit) == Some(rest),
    ensures
        t == lit + rest,
{
    assert(t =~= t.take(lit.len() as int) + t.skip(lit.len() as int));
}

proof fn lemma_first_quote_props(t: Seq<char>, i: int)
    requires
        0 <= i <= t.len(),
    ensures
        i <= first_quote(t, i) <= t.len(),
        forall|k: int| i <= k < first_quote(t, i) ==> t[k] != '"',
        first_quote(t, i) < t.len() ==> t[first_quote(t, i)] == '"',
    decreases t.len() - i,
{
    if i < t.len() && t[i] != '"' {
        lemma_first_quote_props(t, i + 1);
    }
}

/// A successful field scan means the input was the field, its closing
/// quote, then the rest — and the field holds no quote.
pub proof fn lemma_scan_q_sound(t: Seq<char>, f: Seq<char>, rest: Seq<char>)
    requires
        sp_scan_q(t) == Some((f, rest)),
    ensures
        t == f + (seq!['"'] + rest),
        no_quote(f),
{
    let q = first_quote(t, 0);
    lemma_first_quote_props(t, 0);
    assert(t =~= t.take(q) + (seq![t[q]] + t.skip(q + 1)));
    assert(seq![t[q]] =~= seq!['"']);
    assert(forall|k: int| 0 <= k < f.len() ==> f[k] == t[k]);
}

proof fn lemma_first_nondigit_props(t: Seq<char>, i: int)
    requires
        0 <= i <= t.len(),
    ensures
        i <= first_nondigit(t, i) <= t.len(),
        forall|k: int| i <= k < first_nondigit(t, i) ==> is_digit_char(t[k]),
        first_nondigit(t, i) < t.len() ==> !is_digit_char(t[first_nondigit(t, i)]),
    decreases t.len() - i,
{
    if i < t.len() && is_digit_char(t[i]) {
        lemma_first_nondigit_props(t, i + 1);
    }
}

/// A successful number scan means the input was the canonical rendering
/// of the value, then the rest, which does not begin with a digit.
pub proof fn lemma_scan_num_sound(t: Seq<char>, v: nat, rest: Seq<char>)
    requires
        sp_scan_num(t) == Some((v, rest)),
    ensures
        t == spec_digits(v) + rest,
        v < 10000000000,
        rest.len() > 0 ==> !is_digit_char(rest[0]),
{
    let e = first_nondigit(t, 0);
    lemma_first_nondigit_props(t, 0);
    let run = t.take(e);
    assert(all_digits(run)) by {
        assert(forall|k: int| 0 <= k < e ==> run[k] == t[k]);
    }
    assert(run.len() > 1 ==> run[0] != '0');
    lemma_digits_canonical(run);
    lemma_digits_val_bound(run);
    lemma_pow10_vals();
    lemma_pow10_mono(run.len() as nat, 10);
    assert(t =~= run + t.skip(e));
    if rest.len() > 0 {
        assert(rest[0] == t[e]);
    }
}

// ---------------------------------------------------------------------
// Executable counterparts.
// ---------------------------------------------------------------------
/// Whether `c` is a decimal digit.
pub fn is_digit(c: char) -> (r: bool)
    ensures
        r == is_digit_char(c),
{
    let u = c as u32;
    48 <= u && u <= 57
}

/// Tries to consume `lit` at position `i` of `s`; returns the position
/// right after it on success.
pub fn expect_at(s: &str, n: usize, i: usize, lit: &str) -> (r: Option<usize>)
    requires
        n == s@.len(),
        i <= n,
    ensures
        match r {
            Some(j) => {
                &&& i <= j <= n
                &&& sp_eat_lit(s@.skip(i as int), lit@) == Some(s@.skip(j as int))
                &&& j == i + lit@.len()
            },
            None => sp_eat_lit(s@.skip(i as int), lit@) is None,
        },
{
    let t = Ghost(s@.skip(i as int));
    let m = lit.unicode_len();
    if m > n - i {
        return None;
    }
    let mut j: usize = 0;
    while j < m
        invariant
            0 <= j <= m,
            m == lit@.len(),
            n == s@.len(),
            i <= n,
            m <= n - i,
            t@ == s@.skip(i as int),
            forall|k: int| 0 <= k < j ==> t@[k] == lit@[k],
        decreases m - j,
    {
        let c1 = s.get_char(i + j);
        let c2 = lit.get_char(j);
        if c1 != c2 {
            proof {
                assert(t@[j as int] == s@[i + j]);
                lemma_eat_lit_mismatch(t@, lit@, j as int);
            }
            return None;
        }
        j += 1;
    }
    proof {
        assert(t@.take(m as int) =~= lit@);
        assert(t@.skip(m as int) =~= s@.skip((i + m) as int));
    }
    Some(i + m)
}

/// Scans a quoted field starting at position `i`: returns the field text
/// and the position right after the closing quote.
pub fn scan_quote_at(s: &str, n: usize, i: usize) -> (r: Option<(String, usize)>)
    requires
        n == s@.len(),
        i <= n,
    ensures
        match r {
            Some(fj) => {
                &&& i < fj.1 <= n
                &&& sp_scan_q(s@.skip(i as int)) == Some((fj.0@, s@.skip(fj.1 as int)))
            },
            None => sp_scan_q(s@.skip(i as int)) is None,
        },
{
    let t = Ghost(s@.skip(i as int));
    let mut j: usize = i;
    while j < n && s.get_char(j) != '"'
        invariant
            i <= j <= n,
            n == s@.len(),
            t@ == s@.skip(i as int),
            forall|k: int| i <= k < j ==> s@[k] != '"',
        decreases n - j,
    {
        j += 1;
    }
    if j == n {
        proof {
            assert(forall|k: int| 0 <= k < t@.len() ==> t@[k] == s@[i + k] && s@[i + k] != '"');
            lemma_first_quote_range(t@, 0, t@.len() as int);
        }
        return None;
    }
    proof {
        assert(t@[(j - i) as int] == s@[j as int]);
        assert(forall|k: int| 0 <= k < j - i ==> t@[k] == s@[i + k]);
        lemma_first_quote_range(t@, 0, (j - i) as int);
    }
    let f = s.substring_char(i, j).to_owned();
    proof {
        assert(f@ =~= t@.take((j - i) as int));
        assert(s@.skip((j + 1) as int) =~= t@.skip((j - i) + 1));
    }
    Some((f, j + 1))
}

/// Scans an unsigned decimal number starting at position `i`: returns its
/// value and the position of the terminator.
pub fn scan_num_at(s: &str, n: usize, i: usize) -> (r: Option<(u64, usize)>)
    requires
        n == s@.len(),
        i <= n,
    ensures
        match r {
            Some(vj) => {
                &&& i < vj.1 <= n
                &&& sp_scan_num(s@.skip(i as int)) == Some((vj.0 as nat, s@.skip(vj.1 as int)))
                &&& vj.0 < 10000000000
            },
            None => sp_scan_num(s@.skip(i as int)) is None,
        },
{
    let t = Ghost(s@.skip(i as int));
    let mut j: usize = i;
    let mut acc: u64 = 0;
    proof {
        lemma_pow10_vals();
    }
    while j < n && is_digit(s.get_char(j)) && j - i < 10
        invariant
            i <= j <= n,
            n == s@.len(),
            t@ == s@.skip(i as int),
            j - i <= 10,
            forall|k: int| i <= k < j ==> is_digit_char(s@[k]),
            acc == spec_digits_val(t@.take((j - i) as int)),
            acc < pow10((j - i) as nat),
            pow10(9) == 1000000000,
            pow10(10) == 10000000000,
            pow10(11) == 100000000000,
        decreases n - j,
    {
        let c = s.get_char(j);
        let d = (c as u32 - 48) as u64;
        proof {
            let pre = t@.take((j - i) as int);
            let cur = t@.take((j - i) + 1);
            assert(cur.drop_last() =~= pre);
            assert(cur.last() == t@[(j - i) as int]);
            assert(t@[(j - i) as int] == s@[j as int]);
            lemma_pow10_mono((j - i) as nat, 9);
            assert(acc < 1000000000);
            assert(pow10(((j - i) + 1) as nat) == 10 * pow10((j - i) as nat));
        }
        acc = acc * 10 + d;
        j += 1;
    }
    if j == i {
        proof {
            lemma_first_nondigit_range(t@, 0, 0);
        }
        return None;
    }
    if j - i == 10 && j < n && is_digit(s.get_char(j)) {
        // an eleventh digit: the number is out of range for any field
        proof {
            assert(forall|k: int| 0 <= k < j + 1 - i ==> t@[k] == s@[i + k]);
            assert(is_digit_char(t@[(j - i) as int]));
            lemma_first_nondigit_mono(t@, 0, (j - i + 1) as int);
        }
        return None;
    }
    proof {
        assert(forall|k: int| 0 <= k < j - i ==> t@[k] == s@[i + k]);
        if j < n {
            assert(t@[(j - i) as int] == s@[j as int]);
        }
        lemma_first_nondigit_range(t@, 0, (j - i) as int);
        assert(s@.skip(j as int) =~= t@.skip((j - i) as int));
        lemma_pow10_mono((j - i) as nat, 10);
    }
    if j - i > 1 && s.get_char(i) == '0' {
        // a superfluous leading zero: not a canonical number
        proof {
            assert(t@[0] == s@[i as int]);
        }
        return None;
    }
    proof {
        assert(t@[0] == s@[i as int]);
    }
    Some((acc, j))
}

pub proof fn lemma_first_nondigit_ge(t: Seq<char>, i: int)
    requires
        0 <= i <= t.len(),
    ensures
        first_nondigit(t, i) >= i,
    decreases t.len() - i,
{
    if i < t.len() && is_digit_char(t[i]) {
        lemma_first_nondigit_ge(t, i + 1);
    }
}

/// The first non-digit comes at or after `e` when everything before `e`
/// is a digit.
pub proof fn lemma_first_nondigit_mono(t: Seq<char>, i: int, e: int)
    requires
        0 <= i <= e <= t.len(),
        forall|k: int| i <= k < e ==> is_digit_char(t[k]),
    ensures
        first_nondigit(t, i) >= e,
    decreases e - i,
{
    if i < e {
        lemma_first_nondigit_mono(t, i + 1, e);
    } else {
        lemma_first_nondigit_ge(t, i);
    }
}

pub proof fn lemma_pow10_mono(a: nat, b: nat)
    requires
        a <= b,
    ensures
        pow10(a) <= pow10(b),
    decreases b,
{
    if a < b {
        lemma_pow10_mono(a, (b - 1) as nat);
        assert(pow10(b) == 10 * pow10((b - 1) as nat));
        assert(pow10((b - 1) as nat) >= 1) by {
            lemma_pow10_pos((b - 1) as nat);
        }
    }
}

pub proof fn lemma_pow10_pos(k: nat)
    ensures
        pow10(k) >= 1,
    decreases k,
{
    if k > 0 {
        lemma_pow10_pos((k - 1) as nat);
    }
}

/// Whether `s` is free of double quotes, so it can stand between quotes
/// in a rendered document.
pub fn check_no_quote(s: &str) -> (r: bool)
    ensures
        r == no_quote(s@),
{
    let n = s.unicode_len();
    let mut j: usize = 0;
    while j < n
        invariant
            0 <= j <= n,
            n == s@.len(),
            forall|k: int| 0 <= k < j ==> s@[k] != '"',
        decreases n - j,
    {
        if s.get_char(j) == '"' {
            return false;
        }
        j += 1;
    }
    true
}

} // verus!
