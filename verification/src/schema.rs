//! The schema: how decoded input is resolved into the configuration model.
//!
//! Input arrives as a `Value`, already decoded from its file format. Every
//! type of the model says which values it accepts; where a value fits no
//! shape of a field, the error names the field and the shape it asks for.

use crate::ordered::OrderedMap;
use crate::text::str_eq;
use vstd::prelude::*;

verus! {

/// Decoded input.
#[derive(Debug)]
pub enum Value {
    /// Nothing: an absent or empty value.
    Null,
    Bool(bool),
    Number(i64),
    Text(String),
    List(Vec<Value>),
    /// A mapping, as the pairs of key and value in the order of the input.
    Pairs(Vec<(String, Value)>),
}

/// The shapes that the schema asks for.
#[derive(Clone, Copy, Debug, PartialEq, Eq, Structural)]
pub enum Shape {
    /// A text.
    Text,
    /// `true` or `false`.
    Flag,
    /// A list.
    List,
    /// A mapping with different keys.
    Mapping,
    /// A mapping of named fields.
    Record,
    /// The name of a kind of page.
    Page,
    /// The name of a kind of configuration tree.
    Input,
    /// One of `h1` to `h5`.
    Font,
    /// The name of a tile action.
    Action,
    /// The name of a mirror state.
    Mirror,
    /// A classification from 1 to 5.
    Classification,
    /// The name of a kind of link.
    LinkType,
    /// The name of a link glyph.
    LinkIcon,
    /// A classification from 1 to 5, or a text.
    LinkTitle,
    /// A mapping from names to titles, or a list of names.
    TemplateTiles,
}

/// Input that does not fit the schema: the field at fault and the shape
/// that the field asks for.
#[derive(Clone, Copy, Debug, PartialEq, Eq)]
pub struct SchemaError {
    pub field: &'static str,
    pub expected: Shape,
}

/// What a parser owes its caller: the value that the schema gives, or the
/// schema's error.
pub open spec fn parsed<T: DeepView>(
    r: Result<T, SchemaError>,
    expected: Result<T::V, SchemaError>,
) -> bool {
    match expected {
        Ok(v) => r is Ok && r->Ok_0.deep_view() == v,
        Err(e) => r is Err && r->Err_0 == e,
    }
}

/// The error of a result, if it is one.
pub open spec fn fault_of<T>(r: Result<T, SchemaError>) -> Option<SchemaError> {
    match r {
        Ok(_) => None,
        Err(e) => Some(e),
    }
}

/// Putting errors in a row, of which the first counts.
pub trait OrFault {
    /// This error, or else the next.
    spec fn or_fault(self, next: Option<SchemaError>) -> Option<SchemaError>;
}

impl OrFault for Option<SchemaError> {
    open spec fn or_fault(self, next: Option<SchemaError>) -> Option<SchemaError> {
        match self {
            Some(e) => Some(e),
            None => next,
        }
    }
}

/// A type of the model that is resolved from decoded input.
pub trait Parse: DeepView + Sized {
    /// The shape that this type asks for.
    spec fn shape() -> Shape;

    /// What the schema makes of a value that stands in `field`.
    spec fn of(v: Value, field: &'static str) -> Result<Self::V, SchemaError>;

    /// The shape that this type asks for.
    fn expected() -> (s: Shape)
        ensures
            s == Self::shape(),
    ;

    /// Resolves a value that stands in `field`.
    fn parse(v: &Value, field: &'static str) -> (r: Result<Self, SchemaError>)
        ensures
            parsed(r, Self::of(*v, field)),
    ;
}

/// The value of the first pair with the key `name`.
pub open spec fn lookup(pairs: Seq<(String, Value)>, name: Seq<char>) -> Option<Value>
    decreases pairs.len(),
{
    if pairs.len() == 0 {
        None
    } else if pairs[0].0@ == name {
        Some(pairs[0].1)
    } else {
        lookup(pairs.skip(1), name)
    }
}

/// Finds the value of the first pair with the key `name`.
pub fn get_field<'a>(pairs: &'a Vec<(String, Value)>, name: &str) -> (found: Option<&'a Value>)
    ensures
        match found {
            Some(v) => lookup(pairs@, name@) == Some(*v),
            None => lookup(pairs@, name@) is None,
        },
{
    let mut i: usize = 0;
    proof {
        assert(pairs@.skip(0) =~= pairs@);
    }
    while i < pairs.len()
        invariant
            i <= pairs.len(),
            lookup(pairs@, name@) == lookup(pairs@.skip(i as int), name@),
        decreases pairs.len() - i,
    {
        proof {
            assert(pairs@.skip(i as int)[0] == pairs@[i as int]);
            assert(pairs@.skip(i as int).skip(1) =~= pairs@.skip(i + 1));
        }
        if str_eq(pairs[i].0.as_str(), name) {
            return Some(&pairs[i].1);
        }
        i += 1;
    }
    None
}

/// What the schema makes of a field that must be there: a field that is
/// missing, or holds nothing, is an error that asks for the type's shape.
pub open spec fn required<T: Parse>(pairs: Seq<(String, Value)>, name: &'static str) -> Result<
    T::V,
    SchemaError,
> {
    match lookup(pairs, name@) {
        None => Err(SchemaError { field: name, expected: T::shape() }),
        Some(Value::Null) => Err(SchemaError { field: name, expected: T::shape() }),
        Some(v) => T::of(v, name),
    }
}

/// What the schema makes of a field that may be missing: a field that is
/// missing, or holds nothing, has no value.
pub open spec fn optional<T: Parse>(pairs: Seq<(String, Value)>, name: &'static str) -> Result<
    Option<T::V>,
    SchemaError,
> {
    match lookup(pairs, name@) {
        None => Ok(None),
        Some(Value::Null) => Ok(None),
        Some(v) => match T::of(v, name) {
            Ok(x) => Ok(Some(x)),
            Err(e) => Err(e),
        },
    }
}

/// Resolves a field that must be there.
pub fn parse_required<T: Parse>(pairs: &Vec<(String, Value)>, name: &'static str) -> (r: Result<
    T,
    SchemaError,
>)
    ensures
        parsed(r, required::<T>(pairs@, name)),
{
    match get_field(pairs, name) {
        None => Err(SchemaError { field: name, expected: T::expected() }),
        Some(Value::Null) => Err(SchemaError { field: name, expected: T::expected() }),
        Some(v) => T::parse(v, name),
    }
}

/// Resolves a field that may be missing.
pub fn parse_optional<T: Parse>(pairs: &Vec<(String, Value)>, name: &'static str) -> (r: Result<
    Option<T>,
    SchemaError,
>)
    ensures
        parsed(r, optional::<T>(pairs@, name)),
{
    match get_field(pairs, name) {
        None => Ok(None),
        Some(Value::Null) => Ok(None),
        Some(v) => match T::parse(v, name) {
            Ok(x) => Ok(Some(x)),
            Err(e) => Err(e),
        },
    }
}

impl Parse for String {
    open spec fn shape() -> Shape {
        Shape::Text
    }

    open spec fn of(v: Value, field: &'static str) -> Result<Seq<char>, SchemaError> {
        match v {
            Value::Text(s) => Ok(s@),
            _ => Err(SchemaError { field, expected: Shape::Text }),
        }
    }

    fn expected() -> (s: Shape) {
        Shape::Text
    }

    fn parse(v: &Value, field: &'static str) -> (r: Result<String, SchemaError>) {
        match v {
            Value::Text(s) => Ok(s.clone()),
            _ => Err(SchemaError { field, expected: Shape::Text }),
        }
    }
}

impl Parse for bool {
    open spec fn shape() -> Shape {
        Shape::Flag
    }

    open spec fn of(v: Value, field: &'static str) -> Result<bool, SchemaError> {
        match v {
            Value::Bool(b) => Ok(b),
            _ => Err(SchemaError { field, expected: Shape::Flag }),
        }
    }

    fn expected() -> (s: Shape) {
        Shape::Flag
    }

    fn parse(v: &Value, field: &'static str) -> (r: Result<bool, SchemaError>) {
        match v {
            Value::Bool(b) => Ok(*b),
            _ => Err(SchemaError { field, expected: Shape::Flag }),
        }
    }
}

/// What the schema makes of the items of a list: the items resolved one by
/// one, or the error of the first item that does not resolve.
pub open spec fn items_of<T: Parse>(items: Seq<Value>, field: &'static str) -> Result<
    Seq<T::V>,
    SchemaError,
>
    decreases items.len(),
{
    if items.len() == 0 {
        Ok(Seq::empty())
    } else {
        match items_of::<T>(items.drop_last(), field) {
            Err(e) => Err(e),
            Ok(front) => match T::of(items.last(), field) {
                Err(e) => Err(e),
                Ok(x) => Ok(front.push(x)),
            },
        }
    }
}

/// An error among the first `n` items is the error of the whole list.
pub proof fn lemma_items_error_stays<T: Parse>(items: Seq<Value>, field: &'static str, n: int)
    requires
        0 <= n <= items.len(),
        items_of::<T>(items.take(n), field) is Err,
    ensures
        items_of::<T>(items, field) == items_of::<T>(items.take(n), field),
    decreases items.len() - n,
{
    if n < items.len() {
        assert(items.take(n + 1).drop_last() =~= items.take(n));
        lemma_items_error_stays::<T>(items, field, n + 1);
    } else {
        assert(items.take(n) =~= items);
    }
}

/// Resolves the items of a list.
pub fn parse_items<T: Parse>(items: &Vec<Value>, field: &'static str) -> (r: Result<
    Vec<T>,
    SchemaError,
>)
    ensures
        parsed(r, items_of::<T>(items@, field)),
{
    let mut res: Vec<T> = Vec::new();
    let mut i: usize = 0;
    proof {
        assert(items@.take(0) =~= Seq::empty());
        assert(res.deep_view() =~= Seq::empty());
    }
    while i < items.len()
        invariant
            i <= items.len(),
            items_of::<T>(items@.take(i as int), field) == Ok::<Seq<T::V>, SchemaError>(
                res.deep_view(),
            ),
        decreases items.len() - i,
    {
        let ghost before = res.deep_view();
        proof {
            assert(items@.take(i + 1).drop_last() =~= items@.take(i as int));
            assert(items@.take(i + 1).last() == items@[i as int]);
        }
        match T::parse(&items[i], field) {
            Ok(x) => {
                res.push(x);
                proof {
                    assert(res.deep_view() =~= before.push(x.deep_view()));
                }
            },
            Err(e) => {
                proof {
                    lemma_items_error_stays::<T>(items@, field, i + 1);
                }
                return Err(e);
            },
        }
        i += 1;
    }
    proof {
        assert(items@.take(i as int) =~= items@);
    }
    Ok(res)
}

/// A list is resolved item by item.
impl<T: Parse> Parse for Vec<T> {
    open spec fn shape() -> Shape {
        Shape::List
    }

    open spec fn of(v: Value, field: &'static str) -> Result<Seq<T::V>, SchemaError> {
        match v {
            Value::List(items) => items_of::<T>(items@, field),
            _ => Err(SchemaError { field, expected: Shape::List }),
        }
    }

    fn expected() -> (s: Shape) {
        Shape::List
    }

    fn parse(v: &Value, field: &'static str) -> (r: Result<Vec<T>, SchemaError>) {
        match v {
            Value::List(items) => parse_items(items, field),
            _ => Err(SchemaError { field, expected: Shape::List }),
        }
    }
}

/// The keys of the pairs of a mapping.
pub open spec fn pair_keys(pairs: Seq<(String, Value)>) -> Seq<Seq<char>> {
    Seq::new(pairs.len(), |i: int| pairs[i].0@)
}

/// What the schema makes of the pairs of a mapping: the values resolved one
/// by one under their keys, or the error of the first pair that does not
/// resolve. A pair whose key came before does not resolve.
pub open spec fn pairs_of<T: Parse>(pairs: Seq<(String, Value)>, field: &'static str) -> Result<
    Seq<(Seq<char>, T::V)>,
    SchemaError,
>
    decreases pairs.len(),
{
    if pairs.len() == 0 {
        Ok(Seq::empty())
    } else {
        match pairs_of::<T>(pairs.drop_last(), field) {
            Err(e) => Err(e),
            Ok(front) => if pair_keys(pairs.drop_last()).contains(pairs.last().0@) {
                Err(SchemaError { field, expected: Shape::Mapping })
            } else {
                match T::of(pairs.last().1, field) {
                    Err(e) => Err(e),
                    Ok(x) => Ok(front.push((pairs.last().0@, x))),
                }
            },
        }
    }
}

/// An error among the first `n` pairs is the error of the whole mapping.
pub proof fn lemma_pairs_error_stays<T: Parse>(
    pairs: Seq<(String, Value)>,
    field: &'static str,
    n: int,
)
    requires
        0 <= n <= pairs.len(),
        pairs_of::<T>(pairs.take(n), field) is Err,
    ensures
        pairs_of::<T>(pairs, field) == pairs_of::<T>(pairs.take(n), field),
    decreases pairs.len() - n,
{
    if n < pairs.len() {
        assert(pairs.take(n + 1).drop_last() =~= pairs.take(n));
        lemma_pairs_error_stays::<T>(pairs, field, n + 1);
    } else {
        assert(pairs.take(n) =~= pairs);
    }
}

/// Resolves the pairs of a mapping into an ordered map.
pub fn parse_pairs<T: Parse>(pairs: &Vec<(String, Value)>, field: &'static str) -> (r: Result<
    OrderedMap<T>,
    SchemaError,
>)
    ensures
        parsed(r, pairs_of::<T>(pairs@, field)),
{
    let mut res: OrderedMap<T> = OrderedMap::new();
    let mut i: usize = 0;
    proof {
        assert(pairs@.take(0) =~= Seq::empty());
        assert(res.deep_view() =~= Seq::empty());
        assert(pair_keys(pairs@.take(0)) =~= Seq::empty());
    }
    while i < pairs.len()
        invariant
            i <= pairs.len(),
            res.keys().len() == res.values().len(),
            res.keys() == pair_keys(pairs@.take(i as int)),
            pairs_of::<T>(pairs@.take(i as int), field) == Ok::<
                Seq<(Seq<char>, T::V)>,
                SchemaError,
            >(res.deep_view()),
        decreases pairs.len() - i,
    {
        let ghost before = res.deep_view();
        let ghost keys_before = res.keys();
        proof {
            assert(pairs@.take(i + 1).drop_last() =~= pairs@.take(i as int));
            assert(pairs@.take(i + 1).last() == pairs@[i as int]);
            assert(pair_keys(pairs@.take(i + 1)) =~= keys_before.push(pairs@[i as int].0@));
        }
        if res.contains_key(pairs[i].0.as_str()) {
            proof {
                lemma_pairs_error_stays::<T>(pairs@, field, i + 1);
            }
            return Err(SchemaError { field, expected: Shape::Mapping });
        }
        match T::parse(&pairs[i].1, field) {
            Ok(x) => {
                let previous = res.insert(pairs[i].0.clone(), x);
                proof {
                    assert(previous is None);
                    assert(res.deep_view() =~= before.push((pairs@[i as int].0@, x.deep_view())));
                }
            },
            Err(e) => {
                proof {
                    lemma_pairs_error_stays::<T>(pairs@, field, i + 1);
                }
                return Err(e);
            },
        }
        i += 1;
    }
    proof {
        assert(pairs@.take(i as int) =~= pairs@);
    }
    Ok(res)
}

/// A mapping is resolved pair by pair; its keys must differ.
impl<T: Parse> Parse for OrderedMap<T> {
    open spec fn shape() -> Shape {
        Shape::Mapping
    }

    open spec fn of(v: Value, field: &'static str) -> Result<Seq<(Seq<char>, T::V)>, SchemaError> {
        match v {
            Value::Pairs(pairs) => pairs_of::<T>(pairs@, field),
            _ => Err(SchemaError { field, expected: Shape::Mapping }),
        }
    }

    fn expected() -> (s: Shape) {
        Shape::Mapping
    }

    fn parse(v: &Value, field: &'static str) -> (r: Result<OrderedMap<T>, SchemaError>) {
        match v {
            Value::Pairs(pairs) => parse_pairs(pairs, field),
            _ => Err(SchemaError { field, expected: Shape::Mapping }),
        }
    }
}

} // verus!
