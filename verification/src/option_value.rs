//! The value carried by a command option: either text or an integer.

use vstd::prelude::*;

verus! {

/// A command option's value.
#[derive(Clone, Debug, PartialEq, Eq)]
pub enum OptionValue {
    String(String),
    Int(i32),
}

impl OptionValue {
    /// The text value, or the value itself back when it is an integer.
    pub fn try_into_string(self) -> (r: Result<String, OptionValue>)
        ensures
            self matches OptionValue::String(v) ==> r == Ok::<String, OptionValue>(v),
            self matches OptionValue::Int(_) ==> r == Err::<String, OptionValue>(self),
    {
        match self {
            OptionValue::String(v) => Ok(v),
            other => Err(other),
        }
    }

    /// The integer value, or the value itself back when it is text.
    pub fn try_into_int(self) -> (r: Result<i32, OptionValue>)
        ensures
            self matches OptionValue::Int(v) ==> r == Ok::<i32, OptionValue>(v),
            self matches OptionValue::String(_) ==> r == Err::<i32, OptionValue>(self),
    {
        match self {
            OptionValue::Int(v) => Ok(v),
            other => Err(other),
        }
    }

    /// The text value of a value known to be text.
    pub fn into_string(self) -> (r: String)
        requires
            self is String,
        ensures
            self matches OptionValue::String(v) ==> r == v,
    {
        match self.try_into_string() {
            Ok(v) => v,
            Err(_) => unreached(),
        }
    }

    /// The integer value of a value known to be an integer.
    pub fn into_int(self) -> (r: i32)
        requires
            self is Int,
        ensures
            self matches OptionValue::Int(v) ==> r == v,
    {
        match self.try_into_int() {
            Ok(v) => v,
            Err(_) => unreached(),
        }
    }

    /// Borrows the text value; `None` when the value is an integer.
    pub fn try_as_str(&self) -> (r: Option<&str>)
        ensures
            self matches OptionValue::String(v) ==> r matches Some(s) && s@ == v@,
            self matches OptionValue::Int(_) ==> r is None,
    {
        match self {
            OptionValue::String(v) => Some(v.as_str()),
            _ => None,
        }
    }

    /// Copies the integer value out; `None` when the value is text.
    pub fn try_as_int(&self) -> (r: Option<i32>)
        ensures
            self matches OptionValue::Int(v) ==> r == Some::<i32>(*v),
            self matches OptionValue::String(_) ==> r is None,
    {
        match self {
            OptionValue::Int(v) => Some(*v),
            _ => None,
        }
    }

    /// Borrows the text of a value known to be text.
    pub fn as_str(&self) -> (r: &str)
        requires
            self is String,
        ensures
            self matches OptionValue::String(v) ==> r@ == v@,
    {
        match self.try_as_str() {
            Some(v) => v,
            None => unreached(),
        }
    }
}

} // verus!
