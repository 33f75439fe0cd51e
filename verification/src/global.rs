//! Where the store keeps its entities on disk.
use vstd::prelude::*;

verus! {

pub const PARENTS_DIR: &'static str = "./data/parents";

pub const TEMPLATES_DIR: &'static str = "./data/templates";

pub const DATA_DIR: &'static str = "./data";

pub const DATA_TMP_FILES_DIR: &'static str = "./data/tmp";

pub const TMP_DIR: &'static str = "./tmp";

pub const MAPS_DIR: &'static str = "./data/maps";

/// Whether anything is stored under `path`. The answer is read from the disk
/// at the time of the call, so nothing is promised about it.
///
/// Trusted: calls `std::path::Path::exists`.
#[verifier::external_body]
pub(crate) fn path_exists(path: &str) -> (found: bool) {
    std::path::Path::new(path).exists()
}

} // verus!
