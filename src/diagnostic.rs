use vstd::prelude::*;

verus! {

/// How severe a diagnostic is.
#[derive(Clone, Copy, Debug, PartialEq, Eq, Structural)]
pub enum Severity {
    /// An unexpected bug.
    Bug,
    /// An error.
    Error,
    /// A warning.
    Warning,
    /// A note.
    Note,
    /// A help message.
    Help,
}

/// Whether a label marks the main cause of a diagnostic or supporting context.
#[derive(Clone, Copy, Debug, PartialEq, Eq, Structural)]
pub enum LabelStyle {
    /// The main culprit of the diagnostic.
    Primary,
    /// Context that helps to explain the diagnostic.
    Secondary,
}

} // verus!
