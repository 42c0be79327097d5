//! Conversions of output into bytes.
use vstd::prelude::*;
use vstd::string::StringSliceAdditionalSpecFns;

verus! {

/// A value that turns into a vector of elements, such as command output
/// into bytes.
pub trait IntoVec<T>: Sized {
    /// The elements the value turns into.
    spec fn spec_elements(&self) -> Seq<T>;

    fn into_vec(self) -> (r: Vec<T>)
        ensures
            r@ == self.spec_elements(),
    ;
}

impl<T> IntoVec<T> for Vec<T> {
    open spec fn spec_elements(&self) -> Seq<T> {
        self@
    }

    fn into_vec(self) -> (r: Vec<T>) {
        self
    }
}

impl<'a> IntoVec<u8> for &'a [u8] {
    open spec fn spec_elements(&self) -> Seq<u8> {
        self@
    }

    fn into_vec(self) -> (r: Vec<u8>) {
        vstd::slice::slice_to_vec(self)
    }
}

impl<'a> IntoVec<u8> for &'a str {
    /// The UTF-8 encoding of the text.
    open spec fn spec_elements(&self) -> Seq<u8> {
        self.spec_bytes()
    }

    fn into_vec(self) -> (r: Vec<u8>) {
        self.as_bytes_vec()
    }
}

impl IntoVec<u8> for String {
    /// The UTF-8 encoding of the text.
    open spec fn spec_elements(&self) -> Seq<u8> {
        vstd::utf8::encode_utf8(self@)
    }

    fn into_vec(self) -> (r: Vec<u8>) {
        self.as_str().as_bytes_vec()
    }
}

/// Default environment of a runtime: configuration in the user's data
/// directory, command line as the process received it.
pub struct DefaultEnv<C> {
    phantom: core::marker::PhantomData<C>,
}

impl<C> DefaultEnv<C> {
    /// The one value of the type.
    pub closed spec fn spec_new() -> Self {
        DefaultEnv { phantom: core::marker::PhantomData }
    }

    pub fn new() -> (r: Self)
        ensures
            r == Self::spec_new(),
    {
        DefaultEnv { phantom: core::marker::PhantomData }
    }
}

impl<C> Default for DefaultEnv<C> {
    fn default() -> (r: Self)
        ensures
            r == Self::spec_new(),
    {
        DefaultEnv::new()
    }
}

} // verus!
