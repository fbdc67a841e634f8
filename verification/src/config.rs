//! What a component is built from: a store of named attributes and the
//! list of the components it depends on.

use vstd::prelude::*;
use crate::record::{lookup, Entries, Record};
use crate::value::{Number, Value, ValueView};

verus! {

/// Why an attribute could not be read with the type that was asked for.
#[derive(Clone, Copy, Debug, PartialEq, Eq, Structural)]
pub enum AttributeError {
    /// No attribute has the name.
    KeyNotFound,
    /// The attribute holds a value of another type, or a number out of range.
    ConversionImpossible,
}

/// The attribute `name` of `attributes`, read as a 32-bit signed integer:
/// a whole number within range is returned, any other value cannot be
/// converted, and an absent name is reported as such.
pub open spec fn attribute_i32(attributes: Entries, name: Seq<char>) -> Result<i32, AttributeError> {
    match lookup(attributes, name) {
        None => Err(AttributeError::KeyNotFound),
        Some(ValueView::Number(Number::Integer(n))) => if i32::MIN <= n <= i32::MAX {
            Ok(n as i32)
        } else {
            Err(AttributeError::ConversionImpossible)
        },
        Some(_) => Err(AttributeError::ConversionImpossible),
    }
}

/// The named attributes that a host hands to a constructor. A constructor
/// only reads them.
#[derive(Debug, PartialEq, Eq)]
pub struct ComponentConfig {
    attributes: Record,
}

impl View for ComponentConfig {
    type V = Entries;

    closed spec fn view(&self) -> Entries {
        self.attributes@
    }
}

impl ComponentConfig {
    /// The configuration without attributes.
    pub fn new() -> (config: ComponentConfig)
        ensures
            config@ == Entries::empty(),
    {
        ComponentConfig { attributes: Record::new() }
    }

    /// The configuration whose attributes are the entries of `attributes`.
    pub fn from_attributes(attributes: Record) -> (config: ComponentConfig)
        ensures
            config@ == attributes@,
    {
        ComponentConfig { attributes }
    }

    /// Reads the attribute `name` as a 32-bit signed integer.
    pub fn get_attribute_i32(&self, name: &str) -> (read: Result<i32, AttributeError>)
        ensures
            read == attribute_i32(self@, name@),
    {
        match self.attributes.get(name) {
            None => Err(AttributeError::KeyNotFound),
            Some(Value::Number(Number::Integer(n))) => {
                if -2147483648 <= *n && *n <= 2147483647 {
                    Ok(*n as i32)
                } else {
                    Err(AttributeError::ConversionImpossible)
                }
            },
            Some(_) => Err(AttributeError::ConversionImpossible),
        }
    }
}

/// A resolved collaborator that a host hands to a constructor, known by
/// its name.
#[derive(Debug, PartialEq, Eq)]
pub struct Dependency {
    name: String,
}

impl View for Dependency {
    type V = Seq<char>;

    closed spec fn view(&self) -> Seq<char> {
        self.name@
    }
}

impl Dependency {
    /// The dependency on the component named `name`.
    pub fn new(name: &str) -> (dependency: Dependency)
        ensures
            dependency@ == name@,
    {
        Dependency { name: name.to_owned() }
    }

    /// The name of the component depended on.
    pub fn name(&self) -> (name: &str)
        ensures
            name@ == self@,
    {
        self.name.as_str()
    }
}

} // verus!
