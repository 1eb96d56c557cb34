//! Small helpers on `Option` values.

use std::borrow::Cow;
use vstd::prelude::*;

verus! {

/// The values of the `Some` items of `s`, in their order.
pub open spec fn somes<T>(s: Seq<Option<T>>) -> Seq<T>
    decreases s.len(),
{
    if s.len() == 0 {
        Seq::empty()
    } else {
        match s.last() {
            Some(x) => somes(s.drop_last()).push(x),
            None => somes(s.drop_last()),
        }
    }
}

/// The pairs of `s` whose second part is `Some`, each with that part's
/// value, in their order.
pub open spec fn some_attrs<T, U>(s: Seq<(T, Option<U>)>) -> Seq<(T, U)>
    decreases s.len(),
{
    if s.len() == 0 {
        Seq::empty()
    } else {
        match s.last().1 {
            Some(v) => some_attrs(s.drop_last()).push((s.last().0, v)),
            None => some_attrs(s.drop_last()),
        }
    }
}

/// Applies `f` to the two values where both are there.
pub fn map2<T, U, V, F>(opt: Option<T>, optb: Option<U>, f: F) -> (r: Option<V>) where
    F: FnOnce(T, U) -> V,

    requires
        opt is Some && optb is Some ==> f.requires((opt->0, optb->0)),
    ensures
        (opt is Some && optb is Some) == (r is Some),
        r is Some ==> f.ensures((opt->0, optb->0), r->0),
{
    if let Some(opt) = opt {
        if let Some(optb) = optb {
            Some(f(opt, optb))
        } else {
            None
        }
    } else {
        None
    }
}

/// `Some(x)` where `b` holds.
pub fn from_bool_and<T>(b: bool, x: T) -> (r: Option<T>)
    ensures
        r == if b {
            Some(x)
        } else {
            None
        },
{
    if b {
        Some(x)
    } else {
        None
    }
}

/// What `f` returns, where `b` holds; `f` is not called otherwise.
pub fn from_bool_and_then<T, F>(b: bool, f: F) -> (r: Option<T>) where F: FnOnce() -> T
    requires
        b ==> f.requires(()),
    ensures
        b == (r is Some),
        r is Some ==> f.ensures((), r->0),
{
    if b {
        Some(f())
    } else {
        None
    }
}

/// Drops the `None` items and unwraps the others, keeping their order.
pub fn filter_none<T>(opts: Vec<Option<T>>) -> (res: Vec<T>)
    ensures
        res@ == somes(opts@),
{
    let mut res = Vec::new();
    for opt in it: opts
        invariant
            res@ == somes(opts@.take(it.index() as int)),
    {
        proof {
            let n = it.index() as int;
            assert(opts@.take(n + 1).drop_last() =~= opts@.take(n));
        }
        if let Some(opt) = opt {
            res.push(opt)
        }
    }
    proof {
        assert(opts@.take(opts@.len() as int) =~= opts@);
    }
    res
}

/// Drops the pairs without a value and unwraps the others, keeping their
/// order.
pub fn filter_none_attr<T, U>(attrs: Vec<(T, Option<U>)>) -> (res: Vec<(T, U)>)
    ensures
        res@ == some_attrs(attrs@),
{
    let mut res = Vec::new();
    for pair in it: attrs
        invariant
            res@ == some_attrs(attrs@.take(it.index() as int)),
    {
        proof {
            let n = it.index() as int;
            assert(attrs@.take(n + 1).drop_last() =~= attrs@.take(n));
        }
        let (k, v) = pair;
        if let Some(v) = v {
            res.push((k, v))
        }
    }
    proof {
        assert(attrs@.take(attrs@.len() as int) =~= attrs@);
    }
    res
}

/// `Some(s)` for the empty text, `None` for any other.
pub fn from_str<'a>(s: Cow<'a, str>) -> (r: Option<Cow<'a, str>>)
    ensures
        r == if s@.len() == 0 {
            Some(s)
        } else {
            None
        },
{
    let empty = match &s {
        Cow::Borrowed(text) => text.is_empty(),
        Cow::Owned(text) => text.as_str().is_empty(),
    };
    if empty {
        Some(s)
    } else {
        None
    }
}

/// `Some(true)` for `true`, `None` for `false`.
pub fn from_bool(b: bool) -> (r: Option<bool>)
    ensures
        r == if b {
            Some(true)
        } else {
            None
        },
{
    if b {
        Some(true)
    } else {
        None
    }
}

/// The text, or the empty text where there is none.
pub fn into_str<'a>(opt: Option<Cow<'a, str>>) -> (r: Cow<'a, str>)
    ensures
        r@ == match opt {
            Some(s) => s@,
            None => Seq::<char>::empty(),
        },
{
    match opt {
        Some(s) => s,
        None => Cow::Owned(String::new()),
    }
}

/// The flag, or `false` where there is none.
pub fn into_bool(opt: Option<bool>) -> (r: bool)
    ensures
        r == match opt {
            Some(b) => b,
            None => false,
        },
{
    match opt {
        Some(b) => b,
        None => false,
    }
}

} // verus!
