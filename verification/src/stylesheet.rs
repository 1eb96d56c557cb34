//! What becomes of a stylesheet once the minifier has run.
//!
//! The minifier itself is run by the program around this library: it is an
//! outside tool, like the script compiler, and the library decides only what
//! follows from its outcome.

use crate::builder::{
    dest_name, file_header, resolved, Artifact, BuildError, FileType, GlobalStates,
};
use vstd::prelude::*;

verus! {

/// Takes what the stylesheet minifier printed, or nothing where it failed:
/// the printed text is the minified stylesheet, and a run that printed
/// nothing is the failure of the tool.
pub fn minify_css(printed: Option<String>) -> (r: Result<String, BuildError>)
    ensures
        r == match printed {
            Some(minified) => Ok::<String, BuildError>(minified),
            None => Err::<String, BuildError>(BuildError::ToolFailed),
        },
{
    match printed {
        Some(minified) => Ok(minified),
        None => Err(BuildError::ToolFailed),
    }
}

impl GlobalStates {
    /// Makes the file for a stylesheet from what the minifier printed for
    /// its source: the file is the one that `emit` makes of the minified
    /// text. A run that printed nothing is the failure of the tool.
    pub fn emit_stylesheet(&self, name: &str, printed: Option<String>) -> (r: Result<
        Artifact,
        BuildError,
    >)
        ensures
            match printed {
                Some(minified) => {
                    &&& r is Ok
                    &&& r->Ok_0.path@ == dest_name(name@, FileType::Css, self.commit@)
                    &&& r->Ok_0.content@ == file_header(FileType::Css, self.commit@) + resolved(
                        minified@,
                        self.template.IMAGE@,
                        self.template.MIRROR@,
                    )
                },
                None => r is Err && r->Err_0 == BuildError::ToolFailed,
            },
    {
        let minified = minify_css(printed)?;
        self.emit(name, FileType::Css, true, minified)
    }
}

} // verus!
