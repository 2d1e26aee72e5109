//! Search-level types: the thread and node roles a search function is
//! instantiated at, and the per-search bookkeeping shared with workers.
use vstd::prelude::*;

pub mod info;
pub mod options;

verus! {

/// The role of a worker: the main thread drives time checks and reporting,
/// helpers only search.
pub trait ThreadType {
    spec fn spec_is_main() -> bool;

    fn is_main() -> (r: bool)
        ensures
            r == Self::spec_is_main(),
    ;
}

/// The main worker: checks clocks and node limits, reports lines.
pub struct MainThread;

/// A helper worker: searches until the main worker signals a stop.
pub struct HelperThread;

impl ThreadType for MainThread {
    open spec fn spec_is_main() -> bool {
        true
    }

    fn is_main() -> (r: bool)
        ensures
            r == Self::spec_is_main(),
    {
        true
    }
}

impl ThreadType for HelperThread {
    open spec fn spec_is_main() -> bool {
        false
    }

    fn is_main() -> (r: bool)
        ensures
            r == Self::spec_is_main(),
    {
        false
    }
}

/// Whether a node is the root of the search tree.
pub trait NodeType {
    spec fn spec_is_root() -> bool;

    fn is_root() -> (r: bool)
        ensures
            r == Self::spec_is_root(),
    ;
}

/// The root node: its best move is the engine's reply.
pub struct Root;

/// Any node below the root.
pub struct NonRoot;

impl NodeType for Root {
    open spec fn spec_is_root() -> bool {
        true
    }

    fn is_root() -> (r: bool)
        ensures
            r == Self::spec_is_root(),
    {
        true
    }
}

impl NodeType for NonRoot {
    open spec fn spec_is_root() -> bool {
        false
    }

    fn is_root() -> (r: bool)
        ensures
            r == Self::spec_is_root(),
    {
        false
    }
}

} // verus!
