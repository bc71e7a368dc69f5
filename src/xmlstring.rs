//! Decoding of values that arrive as XML text, whole or embedded as a string
//! inside another document.
use vstd::prelude::*;

use crate::error::Error;
use crate::text::{is_white_space, white_space};

verus! {

/// A type that can be read from an XML document.
pub trait DecodeXml: Sized {
    fn decode_xml(xml: &str) -> Result<Self, Error>;
}

/// A value carried as XML text inside a string field of another document;
/// `None` where the field is absent or holds no value.
#[derive(Debug, PartialEq, Clone, Default)]
pub struct DecodeXmlString<T>(pub Option<T>);

impl<T> DecodeXmlString<T> {
    /// The value carried, if any.
    pub fn into_inner(self) -> (r: Option<T>)
        ensures
            r == self.0,
    {
        self.0
    }
}

/// Whether a string field holds no value: it is blank, or it is the
/// `NOT_IMPLEMENTED` that devices put in place of one.
pub open spec fn holds_no_value(value: Seq<char>) -> bool {
    (forall|i: int| 0 <= i < value.len() ==> is_white_space(#[trigger] value[i]))
        || value == "NOT_IMPLEMENTED"@
}

/// Whether a string field holds no value to decode: it is blank, or it is
/// `NOT_IMPLEMENTED`.
pub fn is_absent_value(value: &str) -> (r: bool)
    ensures
        r == holds_no_value(value@),
{
    let n = value.unicode_len();
    let mut i: usize = 0;
    let mut blank = true;
    while i < n
        invariant
            n == value@.len(),
            i <= n,
            blank == forall|j: int| 0 <= j < i ==> is_white_space(#[trigger] value@[j]),
        decreases n - i,
    {
        if !white_space(value.get_char(i)) {
            blank = false;
        }
        i = i + 1;
    }
    if blank {
        return true;
    }
    let marker = String::from_str("NOT_IMPLEMENTED");
    marker == String::from_str(value)
}

} // verus!
