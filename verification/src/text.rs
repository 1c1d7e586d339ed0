//! Character-level text operations with exact specifications: the
//! replacement, search and number rendering that the launcher's command
//! lines, paths and identifiers are built from.
use vstd::prelude::*;

verus! {

broadcast use vstd::string::group_string_axioms;

/// `r` inserted before every character of `s` and once at its end: what
/// replacing the empty pattern gives.
pub open spec fn interleave(s: Seq<char>, r: Seq<char>) -> Seq<char>
    decreases s.len(),
{
    if s.len() == 0 {
        r
    } else {
        r + seq![s[0]] + interleave(s.subrange(1, s.len() as int), r)
    }
}

/// Every non-overlapping occurrence of `p` in `s`, found from the left,
/// replaced by `r`.
pub open spec fn replace_spec(s: Seq<char>, p: Seq<char>, r: Seq<char>) -> Seq<char>
    decreases s.len(),
{
    if p.len() == 0 {
        interleave(s, r)
    } else if s.len() < p.len() {
        s
    } else if s.subrange(0, p.len() as int) == p {
        r + replace_spec(s.subrange(p.len() as int, s.len() as int), p, r)
    } else {
        seq![s[0]] + replace_spec(s.subrange(1, s.len() as int), p, r)
    }
}

/// `p` occurs in `s` starting at index `i`.
pub open spec fn occurs_at(s: Seq<char>, p: Seq<char>, i: int) -> bool {
    0 <= i && i + p.len() <= s.len() && s.subrange(i, i + p.len()) == p
}

/// `p` occurs somewhere in `s`.
pub open spec fn contains_spec(s: Seq<char>, p: Seq<char>) -> bool {
    exists|i: int| occurs_at(s, p, i)
}

/// `s` ends with `p`.
pub open spec fn ends_with_spec(s: Seq<char>, p: Seq<char>) -> bool {
    p.len() <= s.len() && s.subrange(s.len() - p.len(), s.len() as int) == p
}

/// The text of a `bool`, as Rust writes it.
pub open spec fn bool_text(b: bool) -> Seq<char> {
    if b {
        "true"@
    } else {
        "false"@
    }
}

/// The decimal digit for `d < 10`.
pub open spec fn digit(d: nat) -> char {
    if d == 0 { '0' }
    else if d == 1 { '1' }
    else if d == 2 { '2' }
    else if d == 3 { '3' }
    else if d == 4 { '4' }
    else if d == 5 { '5' }
    else if d == 6 { '6' }
    else if d == 7 { '7' }
    else if d == 8 { '8' }
    else { '9' }
}

/// The decimal text of `n`, without leading zeros.
pub open spec fn decimal(n: nat) -> Seq<char>
    decreases n,
{
    if n < 10 {
        seq![digit(n)]
    } else {
        decimal(n / 10).push(digit(n % 10))
    }
}

/// Decimal text is never empty.
pub proof fn lemma_decimal_nonempty(n: nat)
    ensures
        decimal(n).len() >= 1,
        n >= 10 ==> decimal(n).len() >= 2,
    decreases n,
{
    if n >= 10 {
        lemma_decimal_nonempty(n / 10);
    }
}

/// Different numbers have different decimal texts.
pub proof fn lemma_decimal_injective(a: nat, b: nat)
    requires
        decimal(a) == decimal(b),
    ensures
        a == b,
    decreases a,
{
    lemma_decimal_nonempty(a);
    lemma_decimal_nonempty(b);
    if a < 10 && b < 10 {
        assert(decimal(a)[0] == digit(a));
        assert(decimal(b)[0] == digit(b));
    } else if a >= 10 && b >= 10 {
        let da = decimal(a / 10);
        let db = decimal(b / 10);
        assert(decimal(a).last() == digit(a % 10));
        assert(decimal(b).last() == digit(b % 10));
        assert(decimal(a).drop_last() =~= da);
        assert(decimal(b).drop_last() =~= db);
        lemma_decimal_injective(a / 10, b / 10);
    }
}

/// A common prefix can be taken off equal texts.
pub proof fn lemma_prefix_cancel(p: Seq<char>, a: Seq<char>, b: Seq<char>)
    requires
        p + a == p + b,
    ensures
        a == b,
{
    assert((p + a).subrange(p.len() as int, (p + a).len() as int) =~= a);
    assert((p + b).subrange(p.len() as int, (p + b).len() as int) =~= b);
}

/// Appends one character (`String::push`). Claimed: the text afterwards is
/// the text before with `c` at its end.
#[verifier::external_body]
pub(crate) fn push_char(s: &mut String, c: char)
    ensures
        final(s)@ == old(s)@.push(c),
{
    s.push(c);
}

/// The characters of `s`, in order.
pub fn chars_of(s: &str) -> (v: Vec<char>)
    ensures
        v@ == s@,
{
    let mut v: Vec<char> = Vec::new();
    for c in it: s.chars()
        invariant
            v@ == it.seq().take(it.index() as int),
    {
        v.push(c);
    }
    v
}

/// Whether `v` holds `p` from index `i` on.
fn matches_at(v: &Vec<char>, p: &Vec<char>, i: usize) -> (b: bool)
    ensures
        b == occurs_at(v@, p@, i as int),
{
    if i > v.len() || p.len() > v.len() - i {
        return false;
    }
    let mut j: usize = 0;
    while j < p.len()
        invariant
            i + p.len() <= v.len(),
            j <= p.len(),
            forall|k: int| 0 <= k < j ==> v@[i + k] == p@[k],
        decreases p.len() - j,
    {
        if v[i + j] != p[j] {
            assert(v@.subrange(i as int, i + p.len())[j as int] != p@[j as int]);
            return false;
        }
        j = j + 1;
    }
    assert(v@.subrange(i as int, i + p.len()) =~= p@);
    true
}

/// Text equality.
pub fn text_eq(a: &str, b: &str) -> (r: bool)
    ensures
        r == (a@ == b@),
{
    let va = chars_of(a);
    let vb = chars_of(b);
    if va.len() != vb.len() {
        return false;
    }
    let r = matches_at(&va, &vb, 0);
    assert(va@.subrange(0, va@.len() as int) == va@);
    r
}

/// Whether `p` occurs in `s` (`str::contains`).
pub fn contains(s: &str, p: &str) -> (r: bool)
    ensures
        r == contains_spec(s@, p@),
{
    let vs = chars_of(s);
    let vp = chars_of(p);
    let mut i: usize = 0;
    while i < vs.len()
        invariant
            vs@ == s@,
            vp@ == p@,
            i <= vs.len(),
            forall|k: int| 0 <= k < i ==> !occurs_at(s@, p@, k),
        decreases vs.len() - i,
    {
        if matches_at(&vs, &vp, i) {
            return true;
        }
        i = i + 1;
    }
    if matches_at(&vs, &vp, i) {
        return true;
    }
    assert forall|k: int| !occurs_at(s@, p@, k) by {
        if 0 <= k <= i {
        }
    }
    false
}

/// Whether `s` ends with `p` (`str::ends_with`).
pub fn ends_with(s: &str, p: &str) -> (r: bool)
    ensures
        r == ends_with_spec(s@, p@),
{
    let vs = chars_of(s);
    let vp = chars_of(p);
    if vp.len() > vs.len() {
        return false;
    }
    matches_at(&vs, &vp, vs.len() - vp.len())
}

proof fn lemma_interleave_step(s: Seq<char>, r: Seq<char>, i: int)
    requires
        0 <= i < s.len(),
    ensures
        interleave(s.subrange(i, s.len() as int), r) == r + seq![s[i]] + interleave(
            s.subrange(i + 1, s.len() as int),
            r,
        ),
{
    let t = s.subrange(i, s.len() as int);
    assert(t.subrange(1, t.len() as int) =~= s.subrange(i + 1, s.len() as int));
}

proof fn lemma_replace_match(s: Seq<char>, p: Seq<char>, r: Seq<char>, i: int)
    requires
        p.len() > 0,
        occurs_at(s, p, i),
    ensures
        replace_spec(s.subrange(i, s.len() as int), p, r) == r + replace_spec(
            s.subrange(i + p.len(), s.len() as int),
            p,
            r,
        ),
{
    let t = s.subrange(i, s.len() as int);
    assert(t.subrange(0, p.len() as int) =~= s.subrange(i, i + p.len()));
    assert(t.subrange(p.len() as int, t.len() as int) =~= s.subrange(i + p.len(), s.len() as int));
}

proof fn lemma_replace_skip(s: Seq<char>, p: Seq<char>, r: Seq<char>, i: int)
    requires
        p.len() > 0,
        0 <= i < s.len(),
        s.len() - i >= p.len(),
        !occurs_at(s, p, i),
    ensures
        replace_spec(s.subrange(i, s.len() as int), p, r) == seq![s[i]] + replace_spec(
            s.subrange(i + 1, s.len() as int),
            p,
            r,
        ),
{
    let t = s.subrange(i, s.len() as int);
    assert(t.subrange(1, t.len() as int) =~= s.subrange(i + 1, s.len() as int));
    assert(t.subrange(0, p.len() as int) =~= s.subrange(i, i + p.len()));
}

proof fn lemma_replace_short(s: Seq<char>, p: Seq<char>, r: Seq<char>, i: int)
    requires
        p.len() > 0,
        0 <= i <= s.len(),
        s.len() - i < p.len(),
    ensures
        replace_spec(s.subrange(i, s.len() as int), p, r) == s.subrange(i, s.len() as int),
{
}

/// Every occurrence of `pat` in `s`, from the left and without overlap,
/// replaced by `rep` (`str::replace`).
pub fn replace(s: &str, pat: &str, rep: &str) -> (out: String)
    ensures
        out@ == replace_spec(s@, pat@, rep@),
{
    let vs = chars_of(s);
    let vp = chars_of(pat);
    let mut out = String::new();
    let n: usize = vs.len();
    let mut i: usize = 0;
    assert(s@.subrange(0, s@.len() as int) == s@);
    if vp.len() == 0 {
        while i < n
            invariant
                n == vs@.len(),
                vs@ == s@,
                pat@.len() == 0,
                i <= n,
                interleave(s@, rep@) == out@ + interleave(s@.subrange(i as int, n as int), rep@),
            decreases n - i,
        {
            proof {
                lemma_interleave_step(s@, rep@, i as int);
            }
            out.append(rep);
            push_char(&mut out, vs[i]);
            i = i + 1;
        }
        out.append(rep);
        assert(s@.subrange(n as int, n as int) =~= Seq::<char>::empty());
        return out;
    }
    while i < n
        invariant
            n == vs@.len(),
            vs@ == s@,
            vp@ == pat@,
            pat@.len() > 0,
            i <= n,
            replace_spec(s@, pat@, rep@) == out@ + replace_spec(
                s@.subrange(i as int, n as int),
                pat@,
                rep@,
            ),
        decreases n - i,
    {
        if matches_at(&vs, &vp, i) {
            proof {
                lemma_replace_match(s@, pat@, rep@, i as int);
            }
            out.append(rep);
            i = i + vp.len();
        } else {
            if n - i < vp.len() {
                proof {
                    lemma_replace_short(s@, pat@, rep@, i as int);
                }
                let mut j: usize = i;
                while j < n
                    invariant
                        n == vs@.len(),
                        vs@ == s@,
                        i <= j <= n,
                        replace_spec(s@, pat@, rep@) == out@ + s@.subrange(j as int, n as int),
                    decreases n - j,
                {
                    assert(s@.subrange(j as int, n as int) =~= seq![s@[j as int]] + s@.subrange(
                        j + 1,
                        n as int,
                    ));
                    push_char(&mut out, vs[j]);
                    j = j + 1;
                }
                assert(s@.subrange(n as int, n as int) =~= Seq::<char>::empty());
                assert(out@ + Seq::<char>::empty() =~= out@);
                return out;
            }
            proof {
                lemma_replace_skip(s@, pat@, rep@, i as int);
            }
            push_char(&mut out, vs[i]);
            i = i + 1;
        }
    }
    assert(s@.subrange(n as int, n as int) =~= Seq::<char>::empty());
    out
}

/// The decimal text of `n` (`to_string` of an integer).
pub fn decimal_text(n: u128) -> (s: String)
    ensures
        s@ == decimal(n as nat),
    decreases n,
{
    if n < 10 {
        let mut s = String::new();
        push_char(&mut s, digit_char(n));
        assert(s@ =~= seq![digit(n as nat)]);
        s
    } else {
        let mut s = decimal_text(n / 10);
        push_char(&mut s, digit_char(n % 10));
        s
    }
}

fn digit_char(d: u128) -> (c: char)
    requires
        d < 10,
    ensures
        c == digit(d as nat),
{
    if d == 0 { '0' }
    else if d == 1 { '1' }
    else if d == 2 { '2' }
    else if d == 3 { '3' }
    else if d == 4 { '4' }
    else if d == 5 { '5' }
    else if d == 6 { '6' }
    else if d == 7 { '7' }
    else if d == 8 { '8' }
    else { '9' }
}

} // verus!
