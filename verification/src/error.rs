//! The ways in which resolving the configuration can fail.

use vstd::prelude::*;
use crate::options::ConfigOption;

verus! {

/// What went wrong. Each kind ends the resolution: no partial configuration
/// is handed out.
#[derive(Clone, Debug, PartialEq, Eq)]
pub enum ResolveError {
    /// No file is at the path from which the sources were to be loaded.
    FileNotFound { path: String },
    /// The file at the resolved path could not be read or written.
    FileAccess { path: String },
    /// The file's contents are not in the structured format.
    Parse { path: String },
    /// A raw value cannot be converted to the type of its option.
    Coercion { option: ConfigOption, value: String },
    /// The initial default file could not be written.
    BootstrapWrite { path: String },
}

/// A `ResolveError` with its texts as sequences of characters.
pub enum ResolveErrorView {
    FileNotFound { path: Seq<char> },
    FileAccess { path: Seq<char> },
    Parse { path: Seq<char> },
    Coercion { option: ConfigOption, value: Seq<char> },
    BootstrapWrite { path: Seq<char> },
}

impl View for ResolveError {
    type V = ResolveErrorView;

    open spec fn view(&self) -> ResolveErrorView {
        match self {
            ResolveError::FileNotFound { path } => ResolveErrorView::FileNotFound { path: path@ },
            ResolveError::FileAccess { path } => ResolveErrorView::FileAccess { path: path@ },
            ResolveError::Parse { path } => ResolveErrorView::Parse { path: path@ },
            ResolveError::Coercion { option, value } => ResolveErrorView::Coercion {
                option: *option,
                value: value@,
            },
            ResolveError::BootstrapWrite { path } => ResolveErrorView::BootstrapWrite { path: path@ },
        }
    }
}

} // verus!
