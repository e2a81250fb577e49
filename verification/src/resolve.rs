//! Mapping a request path onto the static root.
//!
//! Root and path are joined as they come. Nothing is normalised and `..` is not
//! looked for: the endpoint is an inspection tool that serves whatever the
//! joined path names, and does not confine requests to the root.

use vstd::prelude::*;
use vstd::string::*;

verus! {

/// The directory that static files are looked up under. It is set when the
/// value is made and can only be read afterwards.
#[derive(Clone, Debug, PartialEq, Eq)]
pub struct StaticRoot {
    directory: String,
}

impl View for StaticRoot {
    type V = Seq<char>;

    closed spec fn view(&self) -> Seq<char> {
        self.directory@
    }
}

/// How a request path is looked up under the static root.
#[derive(Clone, Debug, PartialEq, Eq)]
pub enum ResolutionStrategy {
    /// Only the path itself is tried.
    Direct,
    /// The path is tried first; when it misses, this fixed path is tried, for
    /// example `/index.html`.
    WithFallback(String),
}

/// Mathematical content of a [`ResolutionStrategy`].
pub ghost enum StrategyView {
    Direct,
    WithFallback(Seq<char>),
}

impl View for ResolutionStrategy {
    type V = StrategyView;

    open spec fn view(&self) -> StrategyView {
        match self {
            ResolutionStrategy::Direct => StrategyView::Direct,
            ResolutionStrategy::WithFallback(fallback) => StrategyView::WithFallback(fallback@),
        }
    }
}

/// What the file system says of one candidate path.
#[derive(Clone, Copy, Debug, PartialEq, Eq, Structural)]
pub enum ProbeResult {
    /// The path names an existing regular file.
    RegularFile,
    /// The path names something else: a directory or a special file.
    NotRegular,
    /// Nothing is there.
    Missing,
}

impl ProbeResult {
    /// Only a regular file resolves. A directory counts as a miss, like an absent path.
    pub open spec fn resolves(self) -> bool {
        self == ProbeResult::RegularFile
    }
}

/// Root and path, one after the other.
pub open spec fn joined(root: Seq<char>, path: Seq<char>) -> Seq<char> {
    root + path
}

/// The paths to try for a request, in the order in which they are tried.
pub open spec fn candidate_paths(root: Seq<char>, path: Seq<char>, strategy: StrategyView) -> Seq<
    Seq<char>,
> {
    match strategy {
        StrategyView::Direct => seq![joined(root, path)],
        StrategyView::WithFallback(fallback) => seq![joined(root, path), joined(root, fallback)],
    }
}

impl StaticRoot {
    /// The static root at the given directory.
    pub fn new(directory: String) -> (root: StaticRoot)
        ensures
            root@ == directory@,
    {
        StaticRoot { directory }
    }

    /// The directory of this root.
    pub fn directory(&self) -> (directory: &str)
        ensures
            directory@ == self@,
    {
        self.directory.as_str()
    }

    /// Joins the root and a request path by plain concatenation.
    pub fn join(&self, path: &str) -> (full: String)
        ensures
            full@ == joined(self@, path@),
    {
        let mut full = self.directory.clone();
        full.append(path);
        full
    }

    /// Lists the paths to try for a request, in order.
    pub fn candidates(&self, path: &str, strategy: &ResolutionStrategy) -> (paths: Vec<String>)
        ensures
            paths.deep_view() == candidate_paths(self@, path@, strategy@),
            paths.len() >= 1,
    {
        let mut paths: Vec<String> = Vec::new();
        paths.push(self.join(path));
        match strategy {
            ResolutionStrategy::Direct => {},
            ResolutionStrategy::WithFallback(fallback) => {
                paths.push(self.join(fallback.as_str()));
            },
        }
        paths
    }
}

} // verus!
