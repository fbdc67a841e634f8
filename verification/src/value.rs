//! The value model shared by readings, status summaries and commands.

use vstd::prelude::*;

verus! {

/// A number carried by a [`Value`].
///
/// Whole numbers are held exactly. A real number that is not whole is held
/// as the bit pattern of its IEEE 754 double-precision form; the library
/// carries such a pattern through without looking inside.
#[derive(Clone, Copy, Debug, PartialEq, Eq, Structural)]
pub enum Number {
    /// A whole number.
    Integer(i128),
    /// The bit pattern of an IEEE 754 double-precision number.
    Double(u64),
}

/// One outward-facing value: nothing, a truth value, a number or a text.
#[derive(Debug, PartialEq, Eq)]
pub enum Value {
    /// The absence of a value.
    Null,
    /// A truth value.
    Bool(bool),
    /// A number.
    Number(Number),
    /// An owned text.
    Text(String),
}

/// What a [`Value`] is, with its text taken as a sequence of characters.
pub enum ValueView {
    /// The absence of a value.
    Null,
    /// A truth value.
    Bool(bool),
    /// A number.
    Number(Number),
    /// A text, as its characters.
    Text(Seq<char>),
}

impl View for Value {
    type V = ValueView;

    open spec fn view(&self) -> ValueView {
        match *self {
            Value::Null => ValueView::Null,
            Value::Bool(b) => ValueView::Bool(b),
            Value::Number(n) => ValueView::Number(n),
            Value::Text(s) => ValueView::Text(s@),
        }
    }
}

impl Value {
    /// The null value.
    pub fn null() -> (value: Value)
        ensures
            value@ == ValueView::Null,
    {
        Value::Null
    }

    /// The value that holds the truth value `b`.
    pub fn from_bool(b: bool) -> (value: Value)
        ensures
            value@ == ValueView::Bool(b),
    {
        Value::Bool(b)
    }

    /// The value that holds the whole number `n`.
    pub fn from_integer(n: i128) -> (value: Value)
        ensures
            value@ == ValueView::Number(Number::Integer(n)),
    {
        Value::Number(Number::Integer(n))
    }

    /// The value that holds the number `n`.
    pub fn from_number(n: Number) -> (value: Value)
        ensures
            value@ == ValueView::Number(n),
    {
        Value::Number(n)
    }

    /// The value that holds a copy of the text `s`.
    pub fn from_text(s: &str) -> (value: Value)
        ensures
            value@ == ValueView::Text(s@),
    {
        Value::Text(s.to_owned())
    }

    /// Whether this is the null value.
    pub fn is_null(&self) -> (null: bool)
        ensures
            null == (self@ == ValueView::Null),
    {
        match self {
            Value::Null => true,
            _ => false,
        }
    }

    /// The truth value held, if this value holds one.
    pub fn as_bool(&self) -> (held: Option<bool>)
        ensures
            held == match self@ {
                ValueView::Bool(b) => Some(b),
                _ => None,
            },
    {
        match self {
            Value::Bool(b) => Some(*b),
            _ => None,
        }
    }

    /// The number held, if this value holds one.
    pub fn as_number(&self) -> (held: Option<Number>)
        ensures
            held == match self@ {
                ValueView::Number(n) => Some(n),
                _ => None,
            },
    {
        match self {
            Value::Number(n) => Some(*n),
            _ => None,
        }
    }

    /// The text held, if this value holds one.
    pub fn as_text(&self) -> (held: Option<&str>)
        ensures
            match self@ {
                ValueView::Text(s) => held matches Some(t) && t@ == s,
                _ => held is None,
            },
    {
        match self {
            Value::Text(s) => Some(s.as_str()),
            _ => None,
        }
    }
}

impl Clone for Value {
    /// A copy of this value.
    fn clone(&self) -> (copy: Value)
        ensures
            copy@ == self@,
    {
        match self {
            Value::Null => Value::Null,
            Value::Bool(b) => Value::Bool(*b),
            Value::Number(n) => Value::Number(*n),
            Value::Text(s) => Value::Text(s.clone()),
        }
    }
}

} // verus!
