//! Verified text utilities: character access, template substitution,
//! decimal rendering and decimal parsing.

use vstd::prelude::*;

verus! {

/// Appends one character to a string (`String::push`).
#[verifier::external_body]
pub(crate) fn push_char(s: &mut String, c: char)
    ensures
        final(s)@ == old(s)@.push(c),
{
    s.push(c);
}

/// The characters of a string slice, in order.
pub fn chars_of(s: &str) -> (v: Vec<char>)
    ensures
        v@ == s@,
{
    let mut v: Vec<char> = Vec::new();
    for c in it: s.chars()
        invariant
            v@ == it.seq().take(it.index() as int),
    {
        v.push(c);
    }
    v
}


/// Whether two string slices hold the same characters.
pub fn str_eq(a: &str, b: &str) -> (r: bool)
    ensures
        r == (a@ == b@),
{
    let av = chars_of(a);
    let bv = chars_of(b);
    if av.len() != bv.len() {
        return false;
    }
    let mut i: usize = 0;
    while i < av.len()
        invariant
            i <= av.len(),
            av.len() == bv.len(),
            av@ == a@,
            bv@ == b@,
            forall|j: int| 0 <= j < i ==> av@[j] == bv@[j],
        decreases av.len() - i,
    {
        if av[i] != bv[i] {
            assert(a@[i as int] != b@[i as int]);
            return false;
        }
        i = i + 1;
    }
    assert(av@ =~= bv@);
    true
}

/// `pat` occurs in `s` at position `i`.
pub open spec fn occurs_at(s: Seq<char>, i: int, pat: Seq<char>) -> bool {
    pat.is_prefix_of(s.skip(i))
}

/// The text `s` with every occurrence of `pat` replaced by `rep`, scanning from the left
/// and never letting two occurrences overlap. An empty pattern occurs before every
/// character and once more at the end.
pub open spec fn replaced(s: Seq<char>, pat: Seq<char>, rep: Seq<char>) -> Seq<char>
    decreases s.len(),
{
    if pat.len() == 0 {
        if s.len() == 0 {
            rep
        } else {
            rep + seq![s[0]] + replaced(s.drop_first(), pat, rep)
        }
    } else if s.len() == 0 {
        Seq::empty()
    } else if pat.is_prefix_of(s) {
        rep + replaced(s.skip(pat.len() as int), pat, rep)
    } else {
        seq![s[0]] + replaced(s.drop_first(), pat, rep)
    }
}

/// Whether `pat` occurs in `s` at position `i`.
fn occurs_at_exec(s: &Vec<char>, i: usize, pat: &Vec<char>) -> (r: bool)
    requires
        i <= s.len(),
    ensures
        r == occurs_at(s@, i as int, pat@),
{
    if pat.len() > s.len() - i {
        return false;
    }
    let mut k: usize = 0;
    while k < pat.len()
        invariant
            k <= pat.len(),
            pat.len() <= s.len() - i,
            i <= s.len(),
            forall|j: int| 0 <= j < k ==> pat@[j] == s@[i + j],
        decreases pat.len() - k,
    {
        if pat[k] != s[i + k] {
            assert(pat@[k as int] != s@.skip(i as int)[k as int]);
            return false;
        }
        k = k + 1;
    }
    assert(pat@ =~= s@.skip(i as int).subrange(0, pat@.len() as int));
    true
}

/// `s` with every occurrence of `pat` replaced by `rep` (`str::replace`).
pub fn replace_all(s: &str, pat: &str, rep: &str) -> (r: String)
    ensures
        r@ == replaced(s@, pat@, rep@),
{
    let sv = chars_of(s);
    let pv = chars_of(pat);
    let mut out = String::new();
    let mut i: usize = 0;
    assert(sv@.skip(0) =~= sv@);
    if pv.len() == 0 {
        while i < sv.len()
            invariant
                i <= sv.len(),
                sv@ == s@,
                pv@ == pat@,
                pv@.len() == 0,
                out@ + replaced(sv@.skip(i as int), pv@, rep@) == replaced(sv@, pv@, rep@),
            decreases sv.len() - i,
        {
            let ghost before = out@;
            let ghost rest = sv@.skip(i as int);
            assert(rest.drop_first() =~= sv@.skip(i + 1));
            out.append(rep);
            push_char(&mut out, sv[i]);
            assert(out@ + replaced(sv@.skip(i + 1), pv@, rep@) =~= before + replaced(rest, pv@, rep@));
            i = i + 1;
        }
        out.append(rep);
        assert(out@ =~= replaced(sv@, pv@, rep@));
    } else {
        while i < sv.len()
            invariant
                i <= sv.len(),
                sv@ == s@,
                pv@ == pat@,
                pv@.len() > 0,
                out@ + replaced(sv@.skip(i as int), pv@, rep@) == replaced(sv@, pv@, rep@),
            decreases sv.len() - i,
        {
            let ghost before = out@;
            let ghost rest = sv@.skip(i as int);
            if occurs_at_exec(&sv, i, &pv) {
                assert(rest.skip(pv@.len() as int) =~= sv@.skip(i + pv@.len()));
                out.append(rep);
                assert(out@ + replaced(sv@.skip(i + pv@.len()), pv@, rep@) =~= before + replaced(rest, pv@, rep@));
                i = i + pv.len();
            } else {
                assert(rest.drop_first() =~= sv@.skip(i + 1));
                push_char(&mut out, sv[i]);
                assert(out@ + replaced(sv@.skip(i + 1), pv@, rep@) =~= before + replaced(rest, pv@, rep@));
                i = i + 1;
            }
        }
        assert(sv@.skip(i as int) =~= Seq::<char>::empty());
        assert(out@ =~= replaced(sv@, pv@, rep@));
    }
    out
}


/// Whether `s` holds no `{`.
pub open spec fn brace_free(s: Seq<char>) -> bool {
    forall|i: int| 0 <= i < s.len() ==> s[i] != '{'
}

/// Whether `q` looks like a template placeholder: at least two characters, a `{` first and
/// no other `{`.
pub open spec fn is_placeholder(q: Seq<char>) -> bool {
    &&& q.len() >= 2
    &&& q[0] == '{'
    &&& brace_free(q.drop_first())
}

/// A stretch of a template: plain text, or a placeholder.
pub enum Piece {
    Plain(Seq<char>),
    Hole(Seq<char>),
}

/// The text of one stretch.
pub open spec fn piece_text(p: Piece) -> Seq<char> {
    match p {
        Piece::Plain(c) => c,
        Piece::Hole(q) => q,
    }
}

/// The text of consecutive stretches.
pub open spec fn pieces_text(ps: Seq<Piece>) -> Seq<char>
    decreases ps.len(),
{
    if ps.len() == 0 {
        Seq::empty()
    } else {
        piece_text(ps[0]) + pieces_text(ps.drop_first())
    }
}

/// Plain stretches hold no `{`, and placeholders are placeholders.
pub open spec fn pieces_wf(ps: Seq<Piece>) -> bool {
    forall|i: int|
        0 <= i < ps.len() ==> match #[trigger] ps[i] {
            Piece::Plain(c) => brace_free(c),
            Piece::Hole(q) => is_placeholder(q),
        }
}

/// Two placeholders differ at some position after their opening `{`, within both.
pub open spec fn placeholders_differ(q: Seq<char>, pat: Seq<char>) -> bool {
    exists|k: int| 0 < k < q.len() && k < pat.len() && #[trigger] q[k] != pat[k]
}

/// Every placeholder either is `pat` or differs from it.
pub open spec fn holes_apart_from(ps: Seq<Piece>, pat: Seq<char>) -> bool {
    forall|i: int|
        0 <= i < ps.len() ==> match #[trigger] ps[i] {
            Piece::Plain(_) => true,
            Piece::Hole(q) => q == pat || placeholders_differ(q, pat),
        }
}

/// The stretches with each placeholder `pat` turned into the plain text `r`.
pub open spec fn fill(ps: Seq<Piece>, pat: Seq<char>, r: Seq<char>) -> Seq<Piece> {
    ps.map_values(
        |p: Piece|
            match p {
                Piece::Hole(q) => if q == pat {
                    Piece::Plain(r)
                } else {
                    p
                },
                Piece::Plain(_) => p,
            },
    )
}

proof fn lemma_replace_skips_plain(c: Seq<char>, rest: Seq<char>, pat: Seq<char>, r: Seq<char>)
    requires
        brace_free(c),
        pat.len() > 0,
        pat[0] == '{',
    ensures
        replaced(c + rest, pat, r) == c + replaced(rest, pat, r),
    decreases c.len(),
{
    if c.len() > 0 {
        let t = c + rest;
        assert(t[0] == c[0]);
        assert(!pat.is_prefix_of(t));
        assert(t.drop_first() =~= c.drop_first() + rest);
        lemma_replace_skips_plain(c.drop_first(), rest, pat, r);
        assert(seq![c[0]] + (c.drop_first() + replaced(rest, pat, r)) =~= c + replaced(rest, pat, r));
    } else {
        assert(c + rest =~= rest);
        assert(c + replaced(rest, pat, r) =~= replaced(rest, pat, r));
    }
}

proof fn lemma_replace_hits(pat: Seq<char>, rest: Seq<char>, r: Seq<char>)
    requires
        pat.len() > 0,
    ensures
        replaced(pat + rest, pat, r) == r + replaced(rest, pat, r),
{
    let t = pat + rest;
    assert(pat.is_prefix_of(t)) by {
        assert(t.subrange(0, pat.len() as int) =~= pat);
    }
    assert(t.skip(pat.len() as int) =~= rest);
}

proof fn lemma_replace_misses(q: Seq<char>, rest: Seq<char>, pat: Seq<char>, r: Seq<char>)
    requires
        is_placeholder(q),
        is_placeholder(pat),
        placeholders_differ(q, pat),
    ensures
        replaced(q + rest, pat, r) == q + replaced(rest, pat, r),
{
    let t = q + rest;
    let k = choose|k: int| 0 < k < q.len() && k < pat.len() && #[trigger] q[k] != pat[k];
    assert(t[k] == q[k]);
    assert(!pat.is_prefix_of(t)) by {
        if pat.is_prefix_of(t) {
            assert(t.subrange(0, pat.len() as int)[k] == pat[k]);
        }
    }
    assert(t.drop_first() =~= q.drop_first() + rest);
    lemma_replace_skips_plain(q.drop_first(), rest, pat, r);
    assert(seq![q[0]] + (q.drop_first() + replaced(rest, pat, r)) =~= q + replaced(rest, pat, r));
}

/// Replacing a placeholder in a template made of plain stretches and placeholders turns
/// exactly the stretches that are that placeholder into the replacement.
pub proof fn lemma_replace_fills(ps: Seq<Piece>, pat: Seq<char>, r: Seq<char>)
    requires
        pieces_wf(ps),
        is_placeholder(pat),
        holes_apart_from(ps, pat),
    ensures
        replaced(pieces_text(ps), pat, r) == pieces_text(fill(ps, pat, r)),
        brace_free(r) ==> pieces_wf(fill(ps, pat, r)),
    decreases ps.len(),
{
    if ps.len() == 0 {
        assert(fill(ps, pat, r) =~= Seq::<Piece>::empty());
    } else {
        let rest = ps.drop_first();
        assert(pieces_wf(rest)) by {
            assert forall|i: int| 0 <= i < rest.len() implies match #[trigger] rest[i] {
                Piece::Plain(c) => brace_free(c),
                Piece::Hole(q) => is_placeholder(q),
            } by {
                assert(rest[i] == ps[i + 1]);
            }
        }
        assert(holes_apart_from(rest, pat)) by {
            assert forall|i: int| 0 <= i < rest.len() implies match #[trigger] rest[i] {
                Piece::Plain(_) => true,
                Piece::Hole(q) => q == pat || placeholders_differ(q, pat),
            } by {
                assert(rest[i] == ps[i + 1]);
            }
        }
        lemma_replace_fills(rest, pat, r);
        assert(fill(ps, pat, r).drop_first() =~= fill(rest, pat, r));
        let p0 = ps[0];
        assert(pieces_wf(ps) ==> match ps[0] {
            Piece::Plain(c) => brace_free(c),
            Piece::Hole(q) => is_placeholder(q),
        });
        assert(holes_apart_from(ps, pat) ==> match ps[0] {
            Piece::Plain(_) => true,
            Piece::Hole(q) => q == pat || placeholders_differ(q, pat),
        });
        match p0 {
            Piece::Plain(c) => {
                lemma_replace_skips_plain(c, pieces_text(rest), pat, r);
            },
            Piece::Hole(q) => {
                if q == pat {
                    lemma_replace_hits(pat, pieces_text(rest), r);
                } else {
                    lemma_replace_misses(q, pieces_text(rest), pat, r);
                }
            },
        }
    }
}

/// The character for a decimal digit.
pub open spec fn digit_char(d: int) -> char {
    (d + 48) as char
}

/// Whether `c` is one of `0`..`9`.
pub open spec fn is_digit(c: char) -> bool {
    '0' <= c && c <= '9'
}

/// The value of a decimal digit character.
pub open spec fn digit_value(c: char) -> int {
    c as int - 48
}

/// The decimal text of `n`, as `u64`'s `to_string` writes it: no sign, no leading zeros.
pub open spec fn decimal_text(n: nat) -> Seq<char>
    decreases n,
{
    if n < 10 {
        seq![digit_char(n as int)]
    } else {
        decimal_text(n / 10).push(digit_char((n % 10) as int))
    }
}

/// Whether every character of `s` is a decimal digit.
pub open spec fn all_digits(s: Seq<char>) -> bool {
    forall|i: int| 0 <= i < s.len() ==> is_digit(#[trigger] s[i])
}

/// The number that a string of decimal digits denotes.
pub open spec fn digits_value(s: Seq<char>) -> nat
    decreases s.len(),
{
    if s.len() == 0 {
        0
    } else {
        (digits_value(s.drop_last()) * 10 + digit_value(s.last())) as nat
    }
}

/// What `str::parse::<u64>` gives for `s`: an optional `+` followed by at least one decimal
/// digit and nothing else, whose value fits in a `u64`.
pub open spec fn parsed_u64(s: Seq<char>) -> Option<u64> {
    let digits = if s.len() > 0 && s[0] == '+' {
        s.drop_first()
    } else {
        s
    };
    if digits.len() > 0 && all_digits(digits) && digits_value(digits) <= u64::MAX {
        Some(digits_value(digits) as u64)
    } else {
        None
    }
}

fn digit_to_char(d: u64) -> (c: char)
    requires
        d < 10,
    ensures
        c == digit_char(d as int),
{
    let b: u8 = d as u8 + 48;
    b as char
}

fn write_decimal(out: &mut String, n: u64)
    ensures
        final(out)@ == old(out)@ + decimal_text(n as nat),
    decreases n,
{
    if n >= 10 {
        write_decimal(out, n / 10);
    }
    push_char(out, digit_to_char(n % 10));
}

/// The decimal text of `n` (`u64::to_string`).
pub fn u64_to_decimal(n: u64) -> (r: String)
    ensures
        r@ == decimal_text(n as nat),
{
    let mut out = String::new();
    write_decimal(&mut out, n);
    assert(out@ =~= decimal_text(n as nat));
    out
}

proof fn lemma_digits_value_prefix_le(s: Seq<char>, k: int)
    requires
        all_digits(s),
        0 <= k <= s.len(),
    ensures
        digits_value(s.take(k)) <= digits_value(s),
    decreases s.len(),
{
    if k < s.len() {
        let t = s.drop_last();
        assert(all_digits(t));
        lemma_digits_value_prefix_le(t, k);
        assert(t.take(k) =~= s.take(k));
        assert(is_digit(s[s.len() - 1]));
        assert(digits_value(t) <= digits_value(t) * 10) by (nonlinear_arith);
    } else {
        assert(s.take(k) =~= s);
    }
}

/// Parses a `u64` the way `str::parse::<u64>` does.
pub fn parse_u64(s: &str) -> (r: Option<u64>)
    ensures
        r == parsed_u64(s@),
{
    let sv = chars_of(s);
    let ghost digits = if s@.len() > 0 && s@[0] == '+' {
        s@.drop_first()
    } else {
        s@
    };
    let start: usize = if sv.len() > 0 && sv[0] == '+' {
        1
    } else {
        0
    };
    assert(digits =~= sv@.skip(start as int));
    if start == sv.len() {
        return None;
    }
    let mut acc: u64 = 0;
    let mut i: usize = start;
    while i < sv.len()
        invariant
            start <= i <= sv.len(),
            sv@ == s@,
            digits == sv@.skip(start as int),
            digits == (if s@.len() > 0 && s@[0] == '+' {
                s@.drop_first()
            } else {
                s@
            }),
            all_digits(digits.take(i - start)),
            acc == digits_value(digits.take(i - start)),
        decreases sv.len() - i,
    {
        let c = sv[i];
        assert(digits.take(i + 1 - start).drop_last() =~= digits.take(i - start));
        assert(digits.take(i + 1 - start).last() == c);
        assert(digits[i - start] == c);
        if !('0' <= c && c <= '9') {
            assert(!is_digit(digits[i - start]));
            assert(!all_digits(digits));
            return None;
        }
        assert(all_digits(digits.take(i + 1 - start)));
        let d: u64 = (c as u32 - 48) as u64;
        assert(digits_value(digits.take(i + 1 - start)) == acc * 10 + d);
        match acc.checked_mul(10) {
            None => {
                assert(acc * 10 > u64::MAX);
                proof {
                    if all_digits(digits) {
                        lemma_digits_value_prefix_le(digits, i + 1 - start);
                    }
                }
                return None;
            },
            Some(m) => match m.checked_add(d) {
                None => {
                    proof {
                        if all_digits(digits) {
                            lemma_digits_value_prefix_le(digits, i + 1 - start);
                        }
                    }
                    return None;
                },
                Some(v) => {
                    acc = v;
                },
            },
        }
        i = i + 1;
    }
    assert(digits.take(i - start) =~= digits);
    Some(acc)
}


proof fn lemma_digit_char(d: int)
    requires
        0 <= d < 10,
    ensures
        digit_char(d) as int == d + 48,
        is_digit(digit_char(d)),
        digit_value(digit_char(d)) == d,
{
}

/// Law: the decimal text of `n` is a nonempty string of the digits `0`..`9` whose base-10
/// value is `n`, with no leading zero unless `n` is 0.
pub proof fn lemma_decimal_text_digits(n: nat)
    ensures
        decimal_text(n).len() > 0,
        all_digits(decimal_text(n)),
        digits_value(decimal_text(n)) == n,
        decimal_text(n)[0] == '0' <==> n == 0,
    decreases n,
{
    lemma_digit_char((n % 10) as int);
    if n < 10 {
        let t = decimal_text(n);
        assert(t.drop_last() =~= Seq::<char>::empty());
        assert(digits_value(t.drop_last()) == 0);
        assert(t.last() == digit_char(n as int));
        assert(t[0] == digit_char(n as int));
    } else {
        lemma_decimal_text_digits(n / 10);
        let t = decimal_text(n);
        assert(t.drop_last() =~= decimal_text(n / 10));
        assert(t.last() == digit_char((n % 10) as int));
        assert(digits_value(t) == digits_value(t.drop_last()) * 10 + digit_value(t.last()));
        assert((n / 10) * 10 + n % 10 == n);
        assert(t[0] == decimal_text(n / 10)[0]);
    }
}

/// Decimal text is made of digits only, so it holds no `{`.
pub proof fn lemma_decimal_text_brace_free(n: nat)
    ensures
        brace_free(decimal_text(n)),
{
    lemma_decimal_text_digits(n);
    let t = decimal_text(n);
    assert forall|i: int| 0 <= i < t.len() implies t[i] != '{' by {
        assert(is_digit(t[i]));
    }
}

/// Law: reading back the decimal text of a number gives the number
/// (`parse_u64` undoes `u64_to_decimal`).
pub proof fn lemma_parse_decimal_roundtrip(n: u64)
    ensures
        parsed_u64(decimal_text(n as nat)) == Some(n),
{
    lemma_decimal_text_digits(n as nat);
    let t = decimal_text(n as nat);
    assert(is_digit(t[0]));
}

/// Law: a text in which the pattern never occurs comes back unchanged.
pub proof fn lemma_replace_absent(s: Seq<char>, pat: Seq<char>, rep: Seq<char>)
    requires
        pat.len() > 0,
        forall|i: int| 0 <= i <= s.len() ==> !occurs_at(s, i, pat),
    ensures
        replaced(s, pat, rep) == s,
    decreases s.len(),
{
    if s.len() > 0 {
        assert(s.skip(0) =~= s);
        assert(!occurs_at(s, 0, pat));
        assert forall|i: int| 0 <= i <= s.drop_first().len() implies !occurs_at(s.drop_first(), i, pat) by {
            assert(s.drop_first().skip(i) =~= s.skip(i + 1));
            assert(!occurs_at(s, i + 1, pat));
        }
        lemma_replace_absent(s.drop_first(), pat, rep);
        assert(seq![s[0]] + s.drop_first() =~= s);
    }
}

} // verus!
