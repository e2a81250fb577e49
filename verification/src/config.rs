//! The configuration of the pipeline.

use vstd::prelude::*;
use crate::cli::Cli;
use crate::resolve::{ResolutionStrategy, StaticRoot, StrategyView};

verus! {

/// Body size cap applied when none is configured: one mebibyte.
pub const DEFAULT_BODY_LIMIT: usize = 1048576;

/// What the pipeline needs to know, fixed once at start-up and only read afterwards.
#[derive(Clone, Debug)]
pub struct PipelineConfig {
    /// The directory that request paths are looked up under.
    pub static_root: StaticRoot,
    /// The cap on the size of a request body, in bytes.
    pub body_limit: usize,
    /// How a request path is looked up.
    pub strategy: ResolutionStrategy,
}

/// Mathematical content of a [`PipelineConfig`].
pub ghost struct ConfigView {
    pub static_root: Seq<char>,
    pub body_limit: nat,
    pub strategy: StrategyView,
}

impl View for PipelineConfig {
    type V = ConfigView;

    open spec fn view(&self) -> ConfigView {
        ConfigView {
            static_root: self.static_root@,
            body_limit: self.body_limit as nat,
            strategy: self.strategy@,
        }
    }
}

impl PipelineConfig {
    /// The configuration for the given start-up values: their web root, the
    /// default body cap, and direct lookup.
    pub fn from_cli(cli: &Cli) -> (config: PipelineConfig)
        ensures
            config@ == (ConfigView {
                static_root: cli.web_root@,
                body_limit: DEFAULT_BODY_LIMIT as nat,
                strategy: StrategyView::Direct,
            }),
    {
        PipelineConfig {
            static_root: StaticRoot::new(cli.web_root.clone()),
            body_limit: DEFAULT_BODY_LIMIT,
            strategy: ResolutionStrategy::Direct,
        }
    }
}

} // verus!
