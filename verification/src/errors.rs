use vstd::prelude::*;

verus! {

/// Failures of the metadata accessor. Every operation surfaces its error to
/// the caller at once; nothing is retried or swallowed.
#[derive(Debug, PartialEq, Eq)]
pub enum TolstoyError {
    /// An expected row was absent.
    NotFound,
    /// A stored value was present but could not be decoded into its typed form.
    MalformedData,
    /// A write assumed a singleton metadata row, but zero or several rows
    /// matched; carries the offending key.
    DuplicateMetadata(String),
    /// A derived invariant of the surrounding store was violated; carries a
    /// description.
    UnexpectedState(String),
    /// A lower-level query or connection error, with its message.
    StorageFault(String),
}

} // verus!
