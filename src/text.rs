use vstd::prelude::*;

verus! {

/// The character of the decimal digit `d` (for `d < 10`).
pub open spec fn digit_char(d: nat) -> char {
    ((d + 48) as u8) as char
}

/// The decimal notation of `n`, without leading zeros.
pub open spec fn decimal(n: nat) -> Seq<char>
    decreases n,
{
    if n < 10 {
        seq![digit_char(n)]
    } else {
        decimal(n / 10).push(digit_char(n % 10))
    }
}

/// The last `w` decimal digits of `n`, with zeros on the left.
pub open spec fn padded(n: nat, w: nat) -> Seq<char>
    decreases w,
{
    if w == 0 {
        Seq::empty()
    } else {
        padded(n / 10, (w - 1) as nat).push(digit_char(n % 10))
    }
}

pub open spec fn pow10(w: nat) -> nat
    decreases w,
{
    if w == 0 {
        1
    } else {
        10 * pow10((w - 1) as nat)
    }
}

/// Lexicographic order by code point: the order in which `str` values compare.
pub open spec fn lex_lt(a: Seq<char>, b: Seq<char>) -> bool
    decreases a.len(),
{
    if a.len() == 0 {
        b.len() > 0
    } else if b.len() == 0 {
        false
    } else if a[0] != b[0] {
        (a[0] as u32) < (b[0] as u32)
    } else {
        lex_lt(a.drop_first(), b.drop_first())
    }
}

/// Every element is at most the ones after it.
pub open spec fn lex_sorted(s: Seq<String>) -> bool {
    forall|i: int, j: int| 0 <= i < j < s.len() ==> !lex_lt(#[trigger] s[j]@, #[trigger] s[i]@)
}

/// Whether `pat` occurs in `s` as a contiguous run.
pub open spec fn occurs_in(pat: Seq<char>, s: Seq<char>) -> bool {
    exists|i: int| 0 <= i && i + pat.len() <= s.len() && #[trigger] s.subrange(i, i + pat.len()) == pat
}

/// `s` with each `from` replaced by `to`.
pub open spec fn replace_char(s: Seq<char>, from: char, to: char) -> Seq<char> {
    Seq::new(s.len(), |i: int| if s[i] == from { to } else { s[i] })
}

pub proof fn lemma_lex_trans(a: Seq<char>, b: Seq<char>, c: Seq<char>)
    requires
        lex_lt(a, b),
        lex_lt(b, c),
    ensures
        lex_lt(a, c),
    decreases a.len(),
{
    if a.len() > 0 && a[0] == b[0] && b[0] == c[0] {
        lemma_lex_trans(a.drop_first(), b.drop_first(), c.drop_first());
    }
}

pub proof fn lemma_lex_irreflexive(a: Seq<char>)
    ensures
        !lex_lt(a, a),
    decreases a.len(),
{
    if a.len() > 0 {
        lemma_lex_irreflexive(a.drop_first());
    }
}

/// Two words of one length that differ keep their order whatever follows them.
pub proof fn lemma_lex_append(a: Seq<char>, b: Seq<char>, s: Seq<char>, t: Seq<char>)
    requires
        a.len() == b.len(),
        lex_lt(a, b),
    ensures
        lex_lt(a + s, b + t),
    decreases a.len(),
{
    assert((a + s)[0] == a[0]);
    assert((b + t)[0] == b[0]);
    if a[0] == b[0] {
        assert((a + s).drop_first() =~= a.drop_first() + s);
        assert((b + t).drop_first() =~= b.drop_first() + t);
        lemma_lex_append(a.drop_first(), b.drop_first(), s, t);
    }
}

pub proof fn lemma_lex_last(x: Seq<char>, c: char, d: char)
    requires
        (c as u32) < (d as u32),
    ensures
        lex_lt(x.push(c), x.push(d)),
    decreases x.len(),
{
    if x.len() > 0 {
        assert(x.push(c).drop_first() =~= x.drop_first().push(c));
        assert(x.push(d).drop_first() =~= x.drop_first().push(d));
        lemma_lex_last(x.drop_first(), c, d);
    }
}

pub proof fn lemma_padded_len(n: nat, w: nat)
    ensures
        padded(n, w).len() == w,
    decreases w,
{
    if w > 0 {
        lemma_padded_len(n / 10, (w - 1) as nat);
    }
}

/// Zero-padded numerals of one width order as the numbers do.
pub proof fn lemma_padded_order(i: nat, j: nat, w: nat)
    requires
        i < j < pow10(w),
    ensures
        lex_lt(padded(i, w), padded(j, w)),
    decreases w,
{
    let w1 = (w - 1) as nat;
    let p = pow10(w1);
    assert(j / 10 < p) by (nonlinear_arith)
        requires
            j < 10 * p,
    ;
    assert(i / 10 <= j / 10) by (nonlinear_arith)
        requires
            i < j,
    ;
    lemma_padded_len(i / 10, w1);
    lemma_padded_len(j / 10, w1);
    if i / 10 < j / 10 {
        lemma_padded_order(i / 10, j / 10, w1);
        lemma_lex_append(
            padded(i / 10, w1),
            padded(j / 10, w1),
            seq![digit_char(i % 10)],
            seq![digit_char(j % 10)],
        );
        assert(padded(i / 10, w1).push(digit_char(i % 10)) =~= padded(i / 10, w1) + seq![
            digit_char(i % 10),
        ]);
        assert(padded(j / 10, w1).push(digit_char(j % 10)) =~= padded(j / 10, w1) + seq![
            digit_char(j % 10),
        ]);
    } else {
        assert(i % 10 < j % 10) by (nonlinear_arith)
            requires
                i < j,
                i / 10 == j / 10,
        ;
        lemma_lex_last(padded(i / 10, w1), digit_char(i % 10), digit_char(j % 10));
    }
}

/// A number is below ten to the power of the length of its numeral.
pub proof fn lemma_decimal_bound(n: nat)
    ensures
        n < pow10(decimal(n).len()),
    decreases n,
{
    if n >= 10 {
        lemma_decimal_bound(n / 10);
        assert(decimal(n).len() == decimal(n / 10).len() + 1);
        assert(pow10(decimal(n).len()) == 10 * pow10(decimal(n / 10).len()));
        assert(n < 10 * pow10(decimal(n / 10).len())) by (nonlinear_arith)
            requires
                n / 10 < pow10(decimal(n / 10).len()),
        ;
    } else {
        assert(pow10(1) == 10 * pow10(0));
    }
}

/// Relies on `String::from_iter`: the string holds the characters in order.
#[verifier::external_body]
pub(crate) fn string_of_chars(v: &Vec<char>) -> (r: String)
    ensures
        r@ == v@,
{
    String::from_iter(v.iter())
}

/// The digit character of `d`.
pub fn digit(d: u64) -> (c: char)
    requires
        d < 10,
    ensures
        c == digit_char(d as nat),
{
    (d as u8 + 48) as char
}

/// Appends the decimal notation of `n`.
pub fn push_decimal(n: u64, out: &mut Vec<char>)
    ensures
        final(out)@ == old(out)@ + decimal(n as nat),
    decreases n,
{
    if n >= 10 {
        push_decimal(n / 10, out);
    }
    out.push(digit(n % 10));
    proof {
        if n < 10 {
            assert(old(out)@.push(digit_char(n as nat)) =~= old(out)@ + decimal(n as nat));
        } else {
            assert(old(out)@ + decimal((n / 10) as nat) + seq![digit_char((n % 10) as nat)]
                =~= old(out)@ + decimal(n as nat));
        }
    }
}

/// Appends the last `w` decimal digits of `n`, padded with zeros.
pub fn push_padded(n: u64, w: u64, out: &mut Vec<char>)
    ensures
        final(out)@ == old(out)@ + padded(n as nat, w as nat),
    decreases w,
{
    if w > 0 {
        push_padded(n / 10, w - 1, out);
        out.push(digit(n % 10));
        proof {
            assert(old(out)@ + padded((n / 10) as nat, (w - 1) as nat) + seq![
                digit_char((n % 10) as nat),
            ] =~= old(out)@ + padded(n as nat, w as nat));
        }
    } else {
        assert(old(out)@ + padded(n as nat, w as nat) =~= old(out)@);
    }
}

/// Appends the characters of `s`.
pub fn push_str_chars(s: &str, out: &mut Vec<char>)
    ensures
        final(out)@ == old(out)@ + s@,
{
    let len = s.unicode_len();
    let mut i: usize = 0;
    while i < len
        invariant
            len == s@.len(),
            i <= len,
            out@ == old(out)@ + s@.subrange(0, i as int),
        decreases len - i,
    {
        out.push(s.get_char(i));
        i += 1;
        assert(out@ =~= old(out)@ + s@.subrange(0, i as int));
    }
    assert(s@.subrange(0, len as int) =~= s@);
}

/// The decimal notation of `n`.
pub fn decimal_string(n: u64) -> (r: String)
    ensures
        r@ == decimal(n as nat),
{
    let mut v: Vec<char> = Vec::new();
    push_decimal(n, &mut v);
    assert(v@ =~= decimal(n as nat));
    string_of_chars(&v)
}

/// Whether `a` comes before `b` in code-point order.
pub fn str_lt(a: &str, b: &str) -> (r: bool)
    ensures
        r == lex_lt(a@, b@),
{
    let la = a.unicode_len();
    let lb = b.unicode_len();
    let mut i: usize = 0;
    assert(a@.subrange(0, la as int) =~= a@);
    assert(b@.subrange(0, lb as int) =~= b@);
    while i < la && i < lb && a.get_char(i) == b.get_char(i)
        invariant
            la == a@.len(),
            lb == b@.len(),
            i <= la,
            i <= lb,
            lex_lt(a@, b@) == lex_lt(a@.subrange(i as int, la as int), b@.subrange(i as int, lb as int)),
        decreases la - i,
    {
        assert(a@.subrange(i as int, la as int).drop_first() =~= a@.subrange(i + 1, la as int));
        assert(b@.subrange(i as int, lb as int).drop_first() =~= b@.subrange(i + 1, lb as int));
        i += 1;
    }
    if i == la {
        i < lb
    } else if i == lb {
        false
    } else {
        (a.get_char(i) as u32) < (b.get_char(i) as u32)
    }
}

/// Whether `pat` occurs in `s`.
pub fn contains_str(s: &str, pat: &str) -> (r: bool)
    ensures
        r == occurs_in(pat@, s@),
{
    let ls = s.unicode_len();
    let lp = pat.unicode_len();
    if lp > ls {
        return false;
    }
    let mut i: usize = 0;
    while i <= ls - lp
        invariant
            ls == s@.len(),
            lp == pat@.len(),
            lp <= ls,
            i <= ls - lp + 1,
            forall|k: int| 0 <= k < i ==> #[trigger] s@.subrange(k, k + lp) != pat@,
        decreases ls - i,
    {
        let mut j: usize = 0;
        while j < lp && s.get_char(i + j) == pat.get_char(j)
            invariant
                ls == s@.len(),
                lp == pat@.len(),
                i + lp <= ls,
                j <= lp,
                forall|k: int| 0 <= k < j ==> s@[i + k] == pat@[k],
            decreases lp - j,
        {
            j += 1;
        }
        if j == lp {
            assert(s@.subrange(i as int, i + lp) =~= pat@);
            return true;
        }
        assert(s@.subrange(i as int, i + lp)[j as int] != pat@[j as int]);
        i += 1;
    }
    assert forall|k: int| 0 <= k && k + pat@.len() <= s@.len() implies #[trigger] s@.subrange(k, k + pat@.len()) != pat@ by {
        assert(k < i);
    }
    false
}

/// `s` with each `from` replaced by `to`.
pub fn replace_chars(s: &str, from: char, to: char) -> (r: String)
    ensures
        r@ == replace_char(s@, from, to),
{
    let len = s.unicode_len();
    let mut v: Vec<char> = Vec::new();
    let mut i: usize = 0;
    while i < len
        invariant
            len == s@.len(),
            i <= len,
            v@ =~= replace_char(s@, from, to).subrange(0, i as int),
        decreases len - i,
    {
        let c = s.get_char(i);
        if c == from {
            v.push(to);
        } else {
            v.push(c);
        }
        i += 1;
    }
    string_of_chars(&v)
}

/// The strings in code-point order.
pub fn sort_lex(names: Vec<String>) -> (r: Vec<String>)
    ensures
        lex_sorted(r@),
        r@.to_multiset() == names@.to_multiset(),
{
    let mut rest = names;
    let mut out: Vec<String> = Vec::new();
    proof {
        broadcast use vstd::seq_lib::group_to_multiset_ensures, vstd::multiset::group_multiset_axioms;

        assert(out@.to_multiset().add(rest@.to_multiset()) =~= names@.to_multiset());
    }
    while rest.len() > 0
        invariant
            lex_sorted(out@),
            out@.to_multiset().add(rest@.to_multiset()) == names@.to_multiset(),
        decreases rest.len(),
    {
        let ghost before = rest@;
        let x = rest.pop().unwrap();
        proof {
            assert(before =~= rest@.push(x));
        }
        let mut p: usize = 0;
        while p < out.len() && !str_lt(x.as_str(), out[p].as_str())
            invariant
                p <= out.len(),
                forall|k: int| 0 <= k < p ==> !lex_lt(x@, #[trigger] out@[k]@),
            decreases out.len() - p,
        {
            p += 1;
        }
        let ghost prev = out@;
        out.insert(p, x);
        proof {
            broadcast use vstd::multiset::group_multiset_axioms;

            vstd::seq_lib::to_multiset_build(rest@, x);
            vstd::seq_lib::to_multiset_insert(prev, p as int, x);
            assert(out@.to_multiset().add(rest@.to_multiset()) =~= prev.to_multiset().add(
                before.to_multiset(),
            ));
            assert forall|i: int, j: int| 0 <= i < j < out@.len() implies !lex_lt(
                #[trigger] out@[j]@,
                #[trigger] out@[i]@,
            ) by {
                if j < p {
                    assert(out@[i] == prev[i] && out@[j] == prev[j]);
                } else if j == p {
                    assert(out@[i] == prev[i]);
                } else if i > p {
                    assert(out@[i] == prev[i - 1] && out@[j] == prev[j - 1]);
                } else if i == p {
                    assert(out@[j] == prev[j - 1]);
                    assert(lex_lt(x@, prev[p as int]@));
                    if lex_lt(prev[j - 1]@, x@) {
                        lemma_lex_trans(prev[j - 1]@, x@, prev[p as int]@);
                        if j - 1 > p {
                        } else {
                            lemma_lex_irreflexive(prev[p as int]@);
                        }
                    }
                } else {
                    assert(out@[i] == prev[i] && out@[j] == prev[j - 1]);
                }
            }
        }
    }
    proof {
        broadcast use vstd::seq_lib::group_to_multiset_ensures, vstd::multiset::group_multiset_axioms;

        assert(out@.to_multiset() =~= out@.to_multiset().add(rest@.to_multiset()));
    }
    out
}

/// Whether the two strings are equal.
pub fn str_eq(a: &str, b: &str) -> (r: bool)
    ensures
        r == (a@ == b@),
{
    let la = a.unicode_len();
    let lb = b.unicode_len();
    if la != lb {
        return false;
    }
    let mut i: usize = 0;
    while i < la
        invariant
            la == a@.len(),
            lb == b@.len(),
            la == lb,
            i <= la,
            a@.subrange(0, i as int) == b@.subrange(0, i as int),
        decreases la - i,
    {
        if a.get_char(i) != b.get_char(i) {
            return false;
        }
        assert(a@.subrange(0, i + 1) =~= a@.subrange(0, i as int).push(a@[i as int]));
        assert(b@.subrange(0, i + 1) =~= b@.subrange(0, i as int).push(b@[i as int]));
        i += 1;
    }
    assert(a@ =~= a@.subrange(0, la as int));
    assert(b@ =~= b@.subrange(0, lb as int));
    true
}

} // verus!
