//! User-supplied settings consumed by the first-run check.

use vstd::prelude::*;

verus! {

/// Reference to the user's history file, with three-way semantics: the
/// distinction between "not given" and "given but empty" is load-bearing for
/// the first-run decision.
#[derive(Debug, Clone)]
pub enum HistoryFileReference {
    /// No reference was supplied; the default location applies.
    Absent,
    /// An explicitly empty reference: the user opted out of history
    /// persistence, which counts as "already configured".
    Empty,
    /// A non-empty path naming the history file.
    Path(String),
}

/// The slice of the application settings that the first-run check reads.
#[derive(Debug, Clone)]
pub struct Settings {
    pub history_file: HistoryFileReference,
}

} // verus!
