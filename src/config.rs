//! The service's configuration, fixed for the life of the process.
use vstd::prelude::*;

verus! {

/// Where things are and which commands to run. The three directories are
/// canonical (absolute, symbolic links resolved) before the value is built.
pub struct Config {
    /// This service's own external URL, the base of redirect links.
    pub url: String,
    /// The live blog, asked which source file a public path comes from.
    pub blog_url: String,
    /// A regular expression that finds a page's source path, as its first
    /// capture group, in the page.
    pub path_regex: String,
    /// The source tree: every file edited lies under it.
    pub blog_dir: String,
    /// Where the build command leaves the built site.
    pub blog_build_dir: String,
    /// Where the built site is served from.
    pub dest_dir: String,
    pub build_command: Vec<String>,
    /// Records a revision; the message is appended.
    pub create_revision: Vec<String>,
    /// Stages a change; the file's path is appended.
    pub stage_revision: Vec<String>,
    /// Discards uncommitted changes of the working tree.
    pub reset_command: Vec<String>,
    /// Prints the revisions, one per line.
    pub list_revisions: Vec<String>,
    /// Reverts a revision; its identifier is appended.
    pub revert_revision: Vec<String>,
}

} // verus!
