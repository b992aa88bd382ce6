//! The error taxonomy of the flag store.

use vstd::prelude::*;

verus! {

/// What can go wrong when talking to the store.
///
/// - `ConnectionError`: the database could not be opened.
/// - `ConflictError`: a create hit the uniqueness constraint on the name.
/// - `NotFoundError`: no row matched the requested name.
/// - `SchemaError`: initializing the schema failed.
/// - `StoreError`: any other execution failure of the underlying driver.
#[derive(Debug, Clone, Copy, PartialEq, Eq, Structural)]
pub enum FeatureFlagError {
    ConnectionError,
    ConflictError,
    NotFoundError,
    SchemaError,
    StoreError,
}

impl FeatureFlagError {
    /// A short printable name for the error, for the surfaces' error lines.
    pub fn as_text(&self) -> (r: &'static str)
        ensures
            r@ == self.text_spec(),
    {
        match self {
            FeatureFlagError::ConnectionError => "ConnectionError",
            FeatureFlagError::ConflictError => "ConflictError",
            FeatureFlagError::NotFoundError => "NotFoundError",
            FeatureFlagError::SchemaError => "SchemaError",
            FeatureFlagError::StoreError => "StoreError",
        }
    }

    pub open spec fn text_spec(&self) -> Seq<char> {
        match self {
            FeatureFlagError::ConnectionError => "ConnectionError"@,
            FeatureFlagError::ConflictError => "ConflictError"@,
            FeatureFlagError::NotFoundError => "NotFoundError"@,
            FeatureFlagError::SchemaError => "SchemaError"@,
            FeatureFlagError::StoreError => "StoreError"@,
        }
    }
}

} // verus!
