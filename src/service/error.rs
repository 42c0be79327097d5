//! Errors a service reports to the host.
use std::collections::HashMap;
use vstd::prelude::*;

verus! {

/// Error reported by service code: a numeric code, a message and extra
/// context.
#[derive(Clone, Debug)]
pub struct Error {
    code: i32,
    message: String,
    context: HashMap<String, String>,
}

impl Error {
    pub closed spec fn spec_code(&self) -> i32 {
        self.code
    }

    pub closed spec fn spec_message(&self) -> Seq<char> {
        self.message@
    }

    pub closed spec fn spec_context(&self) -> Map<String, String> {
        self.context@
    }

    /// An error with code -1 and the given message, without context.
    pub fn from_string(s: &str) -> (r: Self)
        ensures
            r.spec_code() == -1,
            r.spec_message() == s@,
            r.spec_context() == Map::<String, String>::empty(),
    {
        Error { code: -1, message: String::from_str(s), context: HashMap::new() }
    }

    /// An error built from all of its parts, as the host protocol carries them.
    pub fn new(code: i32, message: String, context: HashMap<String, String>) -> (r: Self)
        ensures
            r.spec_code() == code,
            r.spec_message() == message@,
            r.spec_context() == context@,
    {
        Error { code, message, context }
    }

    pub fn code(&self) -> (r: i32)
        ensures
            r == self.spec_code(),
    {
        self.code
    }

    pub fn message(&self) -> (r: &String)
        ensures
            r@ == self.spec_message(),
    {
        &self.message
    }

    pub fn context(&self) -> (r: &HashMap<String, String>)
        ensures
            r@ == self.spec_context(),
    {
        &self.context
    }
}

} // verus!
