//! Batch image conversion pipeline: discovers image files by extension,
//! re-encodes each one to WebP at a sibling path, and hands the result to an
//! object store under a key derived from the artifact's file name. Each item
//! is processed independently; one bad file never aborts the batch.
pub mod convert;
pub mod outcome;
pub mod paths;
pub mod pipeline;
pub mod scan;

use vstd::prelude::*;

verus! {

} // verus!
