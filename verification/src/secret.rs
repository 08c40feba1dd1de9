//! A wrapper for credential material and other values that must never reach
//! logs or diagnostics.
//!
//! The type deliberately implements neither `Display` nor `Debug`, so generic
//! rendering cannot leak it; the plain value leaves only through [`Secret::peek`],
//! which serialization code at the crate's edge calls explicitly.

use vstd::prelude::*;

verus! {

/// An owned string whose content is meant for the wire, not for logs.
#[derive(Clone)]
pub struct Secret {
    value: String,
}

impl View for Secret {
    type V = Seq<char>;

    /// Mathematically, a secret is just its character sequence; only the
    /// executable rendering is restricted.
    closed spec fn view(&self) -> Seq<char> {
        self.value@
    }
}

impl Secret {
    /// Wraps a plain value.
    pub fn new(value: String) -> (r: Secret)
        ensures
            r@ == value@,
    {
        Secret { value }
    }

    /// The explicit accessor: exposes the plain value for serialization.
    pub fn peek(&self) -> (r: &String)
        ensures
            r@ == self@,
    {
        &self.value
    }
}

} // verus!
