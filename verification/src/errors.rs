use vstd::prelude::*;

verus! {

/// Why an operation on the catalogue could not be carried out.
#[derive(Debug, Clone, Copy, PartialEq, Eq, Structural)]
pub enum StoreError {
    /// The operation needs at least one stored project and there is none.
    EmptyCatalog,
    /// No stored project has the requested name (or the chosen position).
    NotFound,
    /// A project with that name is already stored.
    DuplicateName,
}

/// Why a settings text could not be turned into a document, or a document
/// into text.
#[derive(Debug, Clone, Copy, PartialEq, Eq, Structural)]
pub enum ConfigError {
    /// The text is not JSON.
    Syntax,
    /// The text is JSON, but not of the shape of a settings document.
    Structure,
    /// Two projects in the text share a name.
    DuplicateName,
    /// The document could not be written as JSON text.
    Unserializable,
}

} // verus!
