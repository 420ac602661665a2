//! The options of one run: walk root, output format, filters and sort mode.

use vstd::prelude::*;

verus! {

/// The finalized run options, as the command-line collaborator hands them
/// over. At most one of `glob` and `default_type` is set; that exclusivity
/// is enforced upstream and assumed here.
#[derive(Debug)]
pub struct Args {
    /// File or directory path to walk.
    pub path: Option<String>,
    /// Size in human-readable binary units (powers of 1024).
    pub binary_units: bool,
    /// ANSI colored output.
    pub color: bool,
    /// Maximum directory traversal depth.
    pub depth: Option<usize>,
    /// Follow symbolic links.
    pub follow: bool,
    /// Filter the output by gitignore-syntax glob patterns.
    pub glob: Option<Vec<String>>,
    /// Show hidden dot files and dot directories.
    pub hidden: bool,
    /// Sort by largest to smallest file size.
    pub highlow: bool,
    /// Print the built-in type aliases and exit.
    pub list_types: bool,
    /// Size in human-readable SI metric units (powers of 1000).
    pub metric_units: bool,
    /// Sort by path name.
    pub name: bool,
    /// Parallel recursive directory walk, in nondeterministic order.
    pub parallel: bool,
    /// Filter the output by file type alias names.
    pub default_type: Option<Vec<String>>,
}

impl Default for Args {
    /// All options off: no path, no filters, raw byte sizes, size-sorted
    /// sequential output.
    fn default() -> (r: Args)
        ensures
            r.path is None,
            r.binary_units == false,
            r.color == false,
            r.depth is None,
            r.follow == false,
            r.glob is None,
            r.hidden == false,
            r.highlow == false,
            r.list_types == false,
            r.metric_units == false,
            r.name == false,
            r.parallel == false,
            r.default_type is None,
    {
        Args {
            path: None,
            binary_units: false,
            color: false,
            depth: None,
            follow: false,
            glob: None,
            hidden: false,
            highlow: false,
            list_types: false,
            metric_units: false,
            name: false,
            parallel: false,
            default_type: None,
        }
    }
}

} // verus!
