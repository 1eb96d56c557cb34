//! Text as sequences of characters: joining, comparing and literal
//! replacement.

use vstd::prelude::*;
use vstd::string::*;

verus! {

/// `str`'s `==`: two texts are equal where they hold the same characters.
#[verifier::external_body]
pub(crate) fn str_eq(a: &str, b: &str) -> (r: bool)
    ensures
        r == (a@ == b@),
{
    a == b
}

/// `String::push`: the character is put at the end.
#[verifier::external_body]
pub(crate) fn push_char(s: &mut String, c: char)
    ensures
        final(s)@ == old(s)@.push(c),
{
    s.push(c)
}

/// The characters of `s`.
pub fn chars_of(s: &str) -> (v: Vec<char>)
    ensures
        v@ == s@,
{
    broadcast use axiom_spec_iter;

    let mut v: Vec<char> = Vec::new();
    for c in it: s.chars()
        invariant
            it.seq() == s@,
            v@ == s@.take(it.index() as int),
    {
        proof {
            let n = it.index() as int;
            assert(s@.take(n + 1) =~= s@.take(n).push(s@[n]));
        }
        v.push(c);
    }
    proof {
        assert(s@.take(s@.len() as int) =~= s@);
    }
    v
}

/// Whether `pat` stands in `s` at position `i`.
pub open spec fn matches_at(s: Seq<char>, pat: Seq<char>, i: int) -> bool {
    &&& 0 <= i
    &&& i + pat.len() <= s.len()
    &&& s.subrange(i, i + pat.len()) == pat
}

/// Whether `pat` stands somewhere in `s`.
pub open spec fn occurs(s: Seq<char>, pat: Seq<char>) -> bool {
    exists|i: int| matches_at(s, pat, i)
}

/// `s` with every occurrence of `from` replaced by `to`. Occurrences are
/// found from left to right and do not overlap: the search goes on behind
/// the text that was just replaced. The empty `from` stands before every
/// character and at the end.
pub open spec fn replace_all(s: Seq<char>, from: Seq<char>, to: Seq<char>) -> Seq<char>
    decreases s.len(),
{
    if from.len() == 0 {
        if s.len() == 0 {
            to
        } else {
            to.push(s[0]) + replace_all(s.skip(1), from, to)
        }
    } else if matches_at(s, from, 0) {
        to + replace_all(s.skip(from.len() as int), from, to)
    } else if s.len() == 0 {
        s
    } else {
        seq![s[0]] + replace_all(s.skip(1), from, to)
    }
}

/// A text in which `from` does not occur is left as it is.
pub proof fn lemma_replace_absent(s: Seq<char>, from: Seq<char>, to: Seq<char>)
    requires
        !occurs(s, from),
    ensures
        replace_all(s, from, to) == s,
    decreases s.len(),
{
    if from.len() == 0 {
        assert(s.subrange(0, 0) =~= from);
        assert(matches_at(s, from, 0));
    } else if s.len() > 0 {
        assert(!matches_at(s, from, 0));
        let rest = s.skip(1);
        assert forall|j: int| !matches_at(rest, from, j) by {
            if matches_at(rest, from, j) {
                assert(s.subrange(j + 1, j + 1 + from.len()) =~= rest.subrange(j, j + from.len()));
                assert(matches_at(s, from, j + 1));
            }
        }
        lemma_replace_absent(rest, from, to);
        assert(seq![s[0]] + rest =~= s);
    }
}

/// Whether `pat` stands in `s` at position `q` and at no position before.
pub open spec fn first_at(s: Seq<char>, pat: Seq<char>, q: int) -> bool {
    &&& matches_at(s, pat, q)
    &&& forall|j: int| 0 <= j < q ==> !matches_at(s, pat, j)
}

/// Whether no character of `a` is a character of `b`.
pub open spec fn shares_no_char(a: Seq<char>, b: Seq<char>) -> bool {
    forall|i: int, j: int| 0 <= i < a.len() && 0 <= j < b.len() ==> a[i] != b[j]
}

/// The first position at which `pat` stands in `s`, given one position `w`
/// at which it stands and a position `k` before which it does not.
proof fn lemma_least_match(s: Seq<char>, pat: Seq<char>, w: int, k: int) -> (q: int)
    requires
        matches_at(s, pat, w),
        0 <= k <= w,
        forall|j: int| 0 <= j < k ==> !matches_at(s, pat, j),
    ensures
        first_at(s, pat, q),
    decreases w - k,
{
    if matches_at(s, pat, k) {
        k
    } else {
        lemma_least_match(s, pat, w, k + 1)
    }
}

/// Up to the first occurrence of `from` a text is left as it is; then comes
/// `to`, and then what is made of the text behind that occurrence.
pub proof fn lemma_replace_at_first(s: Seq<char>, from: Seq<char>, to: Seq<char>, q: int)
    requires
        from.len() > 0,
        first_at(s, from, q),
    ensures
        replace_all(s, from, to) == s.take(q) + to + replace_all(
            s.skip(q + from.len()),
            from,
            to,
        ),
    decreases q,
{
    if q == 0 {
        assert(s.take(0) + to =~= to);
    } else {
        let rest = s.skip(1);
        assert(!matches_at(s, from, 0));
        assert forall|j: int| matches_at(rest, from, j) == matches_at(s, from, j + 1) by {
            if 0 <= j && j + 1 + from.len() <= s.len() {
                assert(rest.subrange(j, j + from.len()) =~= s.subrange(j + 1, j + 1 + from.len()));
            }
        }
        assert(first_at(rest, from, q - 1));
        lemma_replace_at_first(rest, from, to, q - 1);
        assert(seq![s[0]] + rest.take(q - 1) =~= s.take(q));
        assert(rest.skip(q - 1 + from.len()) =~= s.skip(q + from.len()));
        assert(seq![s[0]] + (rest.take(q - 1) + to + replace_all(
            s.skip(q + from.len()),
            from,
            to,
        )) =~= s.take(q) + to + replace_all(s.skip(q + from.len()), from, to));
    }
}

/// Replacing leaves no occurrence of `pat` behind, where `pat` is the text
/// that was replaced or a text that did not occur before, and where the
/// replacement is not empty and has no character in common with `pat`: an
/// occurrence cannot lie in what was left as it was, and it cannot reach
/// into a replacement.
pub proof fn lemma_replace_leaves_none(
    s: Seq<char>,
    from: Seq<char>,
    to: Seq<char>,
    pat: Seq<char>,
)
    requires
        from.len() > 0,
        to.len() > 0,
        pat.len() > 0,
        shares_no_char(to, pat),
        pat == from || !occurs(s, pat),
    ensures
        !occurs(replace_all(s, from, to), pat),
    decreases s.len(),
{
    if !occurs(s, from) {
        lemma_replace_absent(s, from, to);
    } else {
        let w = choose|w: int| matches_at(s, from, w);
        let q = lemma_least_match(s, from, w, 0);
        let m = from.len() as int;
        let n = pat.len() as int;
        let behind = s.skip(q + m);
        let made = replace_all(behind, from, to);
        let whole = replace_all(s, from, to);
        lemma_replace_at_first(s, from, to, q);
        if pat != from {
            assert forall|j: int| !matches_at(behind, pat, j) by {
                if matches_at(behind, pat, j) {
                    assert(s.subrange(q + m + j, q + m + j + n) =~= behind.subrange(j, j + n));
                    assert(matches_at(s, pat, q + m + j));
                }
            }
        }
        lemma_replace_leaves_none(behind, from, to, pat);
        assert forall|i: int| !matches_at(whole, pat, i) by {
            if matches_at(whole, pat, i) {
                let window = whole.subrange(i, i + n);
                if i + n <= q {
                    assert(s.subrange(i, i + n) =~= window);
                    assert(matches_at(s, pat, i));
                } else if i >= q + to.len() {
                    let k = i - q - to.len();
                    assert(made.subrange(k, k + n) =~= window);
                    assert(matches_at(made, pat, k));
                } else {
                    let j = if i >= q {
                        i
                    } else {
                        q
                    };
                    assert(window[j - i] == whole[j]);
                    assert(whole[j] == to[j - q]);
                    assert(pat[j - i] == to[j - q]);
                }
            }
        }
    }
}

/// Whether `pat` stands in `hay` at position `i`.
fn starts_at(hay: &Vec<char>, pat: &Vec<char>, i: usize) -> (b: bool)
    requires
        i <= hay.len(),
    ensures
        b == matches_at(hay@, pat@, i as int),
{
    if pat.len() > hay.len() - i {
        return false;
    }
    let mut j: usize = 0;
    while j < pat.len()
        invariant
            i + pat.len() <= hay.len(),
            j <= pat.len(),
            forall|k: int| 0 <= k < j ==> hay@[i + k] == pat@[k],
        decreases pat.len() - j,
    {
        if hay[i + j] != pat[j] {
            proof {
                let window = hay@.subrange(i as int, i + pat@.len());
                assert(window[j as int] == hay@[i + j]);
            }
            return false;
        }
        j += 1;
    }
    proof {
        assert(hay@.subrange(i as int, i + pat@.len()) =~= pat@);
    }
    true
}

/// Replaces every occurrence of `from` in `s` by `to`, from left to right.
pub fn replace(s: &str, from: &str, to: &str) -> (r: String)
    ensures
        r@ == replace_all(s@, from@, to@),
{
    let hay = chars_of(s);
    let pat = chars_of(from);
    let mut out = String::new();
    let mut i: usize = 0;
    proof {
        assert(s@.skip(0) =~= s@);
        assert(out@ + replace_all(s@, from@, to@) =~= replace_all(s@, from@, to@));
    }
    while i < hay.len()
        invariant
            i <= hay.len(),
            hay@ == s@,
            pat@ == from@,
            out@ + replace_all(s@.skip(i as int), from@, to@) == replace_all(s@, from@, to@),
        decreases hay.len() - i,
    {
        let ghost rest = s@.skip(i as int);
        let ghost before = out@;
        proof {
            assert(rest[0] == s@[i as int]);
            assert(rest.skip(1) =~= s@.skip(i + 1));
            if i + from@.len() <= s@.len() {
                assert(rest.subrange(0, from@.len() as int) =~= s@.subrange(
                    i as int,
                    i + from@.len(),
                ));
            }
        }
        if pat.len() == 0 {
            out.append(to);
            push_char(&mut out, hay[i]);
            proof {
                assert(out@ + replace_all(rest.skip(1), from@, to@) =~= before + (to@.push(
                    rest[0],
                ) + replace_all(rest.skip(1), from@, to@)));
            }
            i += 1;
        } else if starts_at(&hay, &pat, i) {
            out.append(to);
            proof {
                assert(matches_at(rest, from@, 0));
                assert(rest.skip(from@.len() as int) =~= s@.skip(i + from@.len()));
                assert(out@ + replace_all(rest.skip(from@.len() as int), from@, to@) =~= before
                    + (to@ + replace_all(rest.skip(from@.len() as int), from@, to@)));
            }
            i += pat.len();
        } else {
            push_char(&mut out, hay[i]);
            proof {
                assert(!matches_at(rest, from@, 0));
                assert(out@ + replace_all(rest.skip(1), from@, to@) =~= before + (seq![rest[0]]
                    + replace_all(rest.skip(1), from@, to@)));
            }
            i += 1;
        }
    }
    proof {
        assert(s@.skip(i as int).len() == 0);
    }
    if pat.len() == 0 {
        out.append(to);
    }
    proof {
        assert(out@ + Seq::<char>::empty() =~= out@);
    }
    out
}

/// `a`, `b` and `c` in a row.
pub fn join3(a: &str, b: &str, c: &str) -> (r: String)
    ensures
        r@ == a@ + b@ + c@,
{
    let mut r = String::from_str(a);
    r.append(b);
    r.append(c);
    r
}

/// The first position at or behind `i` at which `pat` stands in `s`.
pub open spec fn find_from(s: Seq<char>, pat: Seq<char>, i: int) -> Option<int>
    decreases s.len() - i + 1,
{
    if i < 0 || i + pat.len() > s.len() {
        None
    } else if matches_at(s, pat, i) {
        Some(i)
    } else {
        find_from(s, pat, i + 1)
    }
}

/// The first position at which `pat` stands in `s`.
pub open spec fn find_first(s: Seq<char>, pat: Seq<char>) -> Option<int> {
    find_from(s, pat, 0)
}

/// Finds the first position at which `pat` stands in `hay`.
pub fn find(hay: &Vec<char>, pat: &Vec<char>) -> (found: Option<usize>)
    ensures
        match found {
            Some(i) => find_first(hay@, pat@) == Some(i as int) && i + pat.len() <= hay.len(),
            None => find_first(hay@, pat@) is None,
        },
{
    if pat.len() > hay.len() {
        return None;
    }
    let last = hay.len() - pat.len();
    let mut i: usize = 0;
    loop
        invariant
            last == hay.len() - pat.len(),
            i <= last,
            find_first(hay@, pat@) == find_from(hay@, pat@, i as int),
        decreases last - i,
    {
        if starts_at(hay, pat, i) {
            return Some(i);
        }
        if i == last {
            return None;
        }
        i += 1;
    }
}

/// The characters of `chars` from position `from` up to, but without,
/// position `to`.
pub fn chars_between(chars: &Vec<char>, from: usize, to: usize) -> (part: Vec<char>)
    requires
        from <= to <= chars.len(),
    ensures
        part@ == chars@.subrange(from as int, to as int),
{
    let mut part: Vec<char> = Vec::new();
    let mut i: usize = from;
    while i < to
        invariant
            from <= i <= to,
            to <= chars.len(),
            part@ == chars@.subrange(from as int, i as int),
        decreases to - i,
    {
        part.push(chars[i]);
        proof {
            assert(part@ =~= chars@.subrange(from as int, i + 1));
        }
        i += 1;
    }
    part
}

/// The text of the characters of `chars` from position `from` up to, but
/// without, position `to`.
pub fn text_between(chars: &Vec<char>, from: usize, to: usize) -> (text: String)
    requires
        from <= to <= chars.len(),
    ensures
        text@ == chars@.subrange(from as int, to as int),
{
    let mut text = String::new();
    let mut i: usize = from;
    while i < to
        invariant
            from <= i <= to,
            to <= chars.len(),
            text@ == chars@.subrange(from as int, i as int),
        decreases to - i,
    {
        push_char(&mut text, chars[i]);
        proof {
            assert(text@ =~= chars@.subrange(from as int, i + 1));
        }
        i += 1;
    }
    text
}

} // verus!
