use vstd::prelude::*;

pub mod images;
pub mod watched;

pub use images::Images;
pub use watched::Watched;

verus! {

/// A constraint bound: one of the four comparison operators paired with the
/// comparison value. The operator maps to the fixed wire key `gt`, `gte`,
/// `lt` or `lte`.
#[derive(Debug, Clone, Copy, PartialEq, Eq)]
pub enum Bound<'a> {
    Gt(&'a str),
    Gte(&'a str),
    Lt(&'a str),
    Lte(&'a str),
}

impl<'a> Bound<'a> {
    /// The wire key this operator emits.
    pub open spec fn spec_key(&self) -> Seq<char> {
        match *self {
            Bound::Gt(_) => "gt"@,
            Bound::Gte(_) => "gte"@,
            Bound::Lt(_) => "lt"@,
            Bound::Lte(_) => "lte"@,
        }
    }

    /// The comparison value.
    pub open spec fn spec_value(&self) -> Seq<char> {
        match *self {
            Bound::Gt(v) => v@,
            Bound::Gte(v) => v@,
            Bound::Lt(v) => v@,
            Bound::Lte(v) => v@,
        }
    }

    /// The key/value query pair this bound emits.
    pub fn query_pair(&self) -> (r: (&'a str, &'a str))
        ensures
            r.0@ == self.spec_key(),
            r.1@ == self.spec_value(),
    {
        match *self {
            Bound::Gt(value) => ("gt", value),
            Bound::Gte(value) => ("gte", value),
            Bound::Lt(value) => ("lt", value),
            Bound::Lte(value) => ("lte", value),
        }
    }
}

/// A sort order for a constrained listing; encodes to the fixed wire code
/// `a` (ascending) or `d` (descending).
#[derive(Debug, Clone, Copy, PartialEq, Eq, Structural)]
pub enum Order {
    Ascending,
    Descending,
}

impl Order {
    /// The wire code this order emits.
    pub open spec fn spec_code(&self) -> Seq<char> {
        match *self {
            Order::Ascending => "a"@,
            Order::Descending => "d"@,
        }
    }

    /// Encode this order as its one-letter wire code.
    pub fn to_query(&self) -> (r: String)
        ensures
            r@ == self.spec_code(),
    {
        match *self {
            Order::Ascending => "a".to_owned(),
            Order::Descending => "d".to_owned(),
        }
    }
}

/// The query pairs an optional constraint bound contributes.
pub open spec fn bound_pair(b: Option<Bound<'_>>) -> Seq<(Seq<char>, Seq<char>)> {
    match b {
        Some(bound) => seq![(bound.spec_key(), bound.spec_value())],
        None => Seq::<(Seq<char>, Seq<char>)>::empty(),
    }
}

/// The query pairs an optional sort order contributes.
pub open spec fn order_pair(o: Option<Order>) -> Seq<(Seq<char>, Seq<char>)> {
    match o {
        Some(order) => seq![("order"@, order.spec_code())],
        None => Seq::<(Seq<char>, Seq<char>)>::empty(),
    }
}

} // verus!
