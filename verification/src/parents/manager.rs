//! Where a parent lives on disk.
use vstd::prelude::*;
use vstd::string::StringExecFns;
use crate::global::{path_exists, PARENTS_DIR};

verus! {

/// The directory of the parent `name`.
pub open spec fn parent_path(name: Seq<char>) -> Seq<char> {
    PARENTS_DIR@ + "/"@ + name
}

/// The directory of the parent `name`: the parents directory, a slash, the name.
pub fn get_parent_path(name: &str) -> (path: String)
    ensures
        path@ == parent_path(name@),
{
    String::from_str(PARENTS_DIR).concat("/").concat(name)
}

/// The plugins directory of the parent `name`.
pub fn get_parent_plugins_path(name: &str) -> (path: String)
    ensures
        path@ == parent_path(name@) + "/plugins"@,
{
    get_parent_path(name).concat("/plugins")
}

/// The metadata file of the parent `name`.
pub fn get_parent_file_path(name: &str) -> (path: String)
    ensures
        path@ == parent_path(name@) + "/parents.epsilon"@,
{
    get_parent_path(name).concat("/parents.epsilon")
}

/// Whether the metadata file of the parent `name` is on disk right now.
pub fn parent_exist(name: &str) -> (found: bool) {
    let parent_file_path = get_parent_file_path(name);
    path_exists(parent_file_path.as_str())
}

} // verus!
