//! Where a template lives on disk.
use vstd::prelude::*;
use vstd::string::StringExecFns;
use crate::global::{path_exists, TEMPLATES_DIR};

verus! {

/// The directory of the template `name`.
pub open spec fn template_path(name: Seq<char>) -> Seq<char> {
    TEMPLATES_DIR@ + "/"@ + name
}

/// The directory of the template `name`: the templates directory, a slash,
/// the name.
pub fn get_template_path(name: &str) -> (path: String)
    ensures
        path@ == template_path(name@),
{
    String::from_str(TEMPLATES_DIR).concat("/").concat(name)
}

/// The plugins directory of the template `name`.
pub fn get_template_plugins_path(name: &str) -> (path: String)
    ensures
        path@ == template_path(name@) + "/plugins"@,
{
    get_template_path(name).concat("/plugins")
}

/// The metadata file of the template `name`.
pub fn get_details_file_path(name: &str) -> (path: String)
    ensures
        path@ == template_path(name@) + "/details.epsilon"@,
{
    get_template_path(name).concat("/details.epsilon")
}

/// Whether the metadata file of the template `name` is on disk right now.
pub fn template_exist(name: &str) -> (found: bool) {
    let details_file_path = get_details_file_path(name);
    path_exists(details_file_path.as_str())
}

} // verus!
