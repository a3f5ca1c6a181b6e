use vstd::prelude::*;

verus! {

/// A configuration that cannot be merged with the level above it.
#[derive(PartialEq, Eq, Structural, Clone, Copy, Debug)]
pub enum MergeConfigError {
    /// No value was given for a configuration argument.
    NoValue,
}

impl MergeConfigError {
    /// The message of the error.
    pub fn message(&self) -> (r: &'static str)
        ensures
            r@ == "no value"@,
    {
        match self {
            MergeConfigError::NoValue => "no value",
        }
    }
}

/// Merging a module's configuration down through the levels of the
/// configuration: a server's from the main one, a location's from its
/// server's.
pub trait Merge {
    /// Takes what this level leaves unset from the level above, `prev`.
    fn merge(&mut self, prev: &Self) -> Result<(), MergeConfigError>;
}

impl Merge for () {
    fn merge(&mut self, prev: &()) -> (r: Result<(), MergeConfigError>) {
        Ok(())
    }
}

} // verus!
