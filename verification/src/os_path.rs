//! The search path that a job's scripts run with: the search path of the
//! worker, with the directory of the installation's own scripts added at its
//! end.

use crate::context::{pushed, Context, push_component};
use crate::text::find_char;
use vstd::prelude::*;
use vstd::string::*;

verus! {

/// The directory of the installation's own scripts, below the configuration
/// directory.
pub const SCRIPTS_DIR: &'static str = "scripts.d";

/// A directory cannot be part of a search path: its name holds the separator
/// of search paths, the colon.
#[derive(Debug, Clone, Copy, PartialEq, Eq, Structural)]
pub struct JoinPathsError;

/// The search path `path` with the directory `extension` added at its end.
pub open spec fn extended(path: Seq<char>, extension: Seq<char>) -> Option<Seq<char>> {
    if extension.contains(':') {
        None
    } else {
        Some(path + seq![':'] + extension)
    }
}

/// Adds the directory `extension` at the end of the search path `path`. The
/// directories of `path` stay as they are, in their order. A directory whose
/// name holds a colon cannot be added.
pub fn extend_path(path: &str, extension: &str) -> (r: Result<String, JoinPathsError>)
    ensures
        match r {
            Ok(joined) => extended(path@, extension@) == Some(joined@),
            Err(_) => extended(path@, extension@) is None,
        },
{
    proof {
        reveal_strlit(":");
    }
    match find_char(extension, ':') {
        Some(_) => Err(JoinPathsError),
        None => {
            let r = String::from_str(path).concat(":").concat(extension);
            assert(r@ =~= path@ + seq![':'] + extension@);
            Ok(r)
        },
    }
}

/// The search path of an installation's jobs.
pub struct ExtendingPath<'a> {
    context: &'a Context,
}

impl<'a> ExtendingPath<'a> {
    /// The installation.
    pub closed spec fn spec_context(&self) -> Context {
        *self.context
    }

    /// The search path for the jobs of `context`.
    pub fn new(context: &'a Context) -> (r: ExtendingPath<'a>)
        ensures
            r.spec_context() == *context,
    {
        ExtendingPath { context }
    }

    /// The search path for scripts, given the worker's own search path:
    /// that path with the scripts directory of the installation at its end,
    /// or the scripts directory alone when the worker has no search path.
    pub fn path(&self, current: Option<&str>) -> (r: Result<String, JoinPathsError>)
        ensures
            match current {
                Some(path) => match r {
                    Ok(joined) => extended(
                        path@,
                        pushed(self.spec_context()@.config_path, "scripts.d"@),
                    ) == Some(joined@),
                    Err(_) => extended(
                        path@,
                        pushed(self.spec_context()@.config_path, "scripts.d"@),
                    ) is None,
                },
                None => r matches Ok(alone) && alone@ == pushed(
                    self.spec_context()@.config_path,
                    "scripts.d"@,
                ),
            },
    {
        let scripts = push_component(self.context.config_path(), SCRIPTS_DIR);
        match current {
            Some(path) => extend_path(path, scripts.as_str()),
            None => Ok(scripts),
        }
    }
}

} // verus!
