//! Conversion of the strings that cross the native boundary back into Rust
//! strings.

use vstd::prelude::*;
use crate::errors::Error;

verus! {

/// A string type which can be converted into a Rust string without moving
/// its contents, so that pointers taken from the old value stay valid.
pub trait IntoRustString: Sized {
    type Str: Into<String>;

    /// What the conversion yields.
    spec fn converted(self) -> Result<Self::Str, Error>;

    fn into_rust_string(self) -> (res: Result<Self::Str, Error>)
        ensures
            res == self.converted(),
    ;
}

impl IntoRustString for String {
    type Str = String;

    open spec fn converted(self) -> Result<String, Error> {
        Ok(self)
    }

    fn into_rust_string(self) -> (res: Result<String, Error>) {
        Ok(self)
    }
}

impl<'a> IntoRustString for &'a str {
    type Str = &'a str;

    open spec fn converted(self) -> Result<&'a str, Error> {
        Ok(self)
    }

    fn into_rust_string(self) -> (res: Result<&'a str, Error>) {
        Ok(self)
    }
}

} // verus!
