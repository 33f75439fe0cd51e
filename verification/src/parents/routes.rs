//! What can be asked about parents.
use vstd::prelude::*;
use vstd::string::StringExecFns;
use crate::catalog::{parent_views, Catalog, CatalogView};
use crate::parents::manager::{
    get_parent_path, get_parent_plugins_path, parent_path,
};
use crate::parents::parent::Parent;
use crate::responses::api_error::{ApiError, ApiErrorView, Status};
use crate::responses::api_success::{ApiSuccess, BodyView};

verus! {

pub const PARENT_MISSING: &'static str = "The parent doesn't exist.";

pub const PARENT_EXISTS: &'static str = "The parent already exist.";

pub const PARENT_IN_USE: &'static str = "Some templates are using this parent.";

pub const PARENT_CREATED: &'static str = "The parent has been created.";

pub const PARENT_DELETED: &'static str = "The parent has been deleted.";

pub const PLUGIN_PUSHED: &'static str = "The plugin has been pushed.";

pub const FILE_PUSHED: &'static str = "The file has been pushed.";

/// All parents, in the order of the catalog.
pub fn get_parents(catalog: &Catalog) -> (parents: Vec<Parent>)
    ensures
        parent_views(parents@) == catalog@.parents,
{
    let mut parents: Vec<Parent> = Vec::new();
    let mut i: usize = 0;
    while i < catalog.parents.len()
        invariant
            i <= catalog.parents.len(),
            parent_views(parents@) == catalog@.parents.take(i as int),
        decreases catalog.parents.len() - i,
    {
        let ghost before = parent_views(parents@);
        parents.push(catalog.parents[i].duplicate());
        assert(parent_views(parents@) =~= before.push(catalog.parents@[i as int]@));
        assert(catalog@.parents.take(i + 1) =~= before.push(catalog.parents@[i as int]@));
        i = i + 1;
    }
    assert(catalog@.parents.take(catalog.parents.len() as int) =~= catalog@.parents);
    parents
}

/// The parent `name`, or `NotFound` where there is none.
pub fn get_parent(catalog: &Catalog, name: &str) -> (found: Result<Parent, ApiError>)
    ensures
        catalog@.has_parent(name@) ==> (found matches Ok(parent) && parent@
            == catalog@.parent_named(name@)),
        !catalog@.has_parent(name@) ==> (found matches Err(error) && error@ == (ApiErrorView {
            message: PARENT_MISSING@,
            status: Status::NotFound,
        })),
{
    match catalog.parent_index(name) {
        Some(at) => Ok(catalog.parents[at].duplicate()),
        None => Err(ApiError::new(PARENT_MISSING, Status::NotFound)),
    }
}

/// Why `parent` cannot be created, if it cannot: its name is taken.
pub open spec fn create_refusal(catalog: CatalogView, name: Seq<char>) -> Option<ApiErrorView> {
    if catalog.has_parent(name) {
        Some(ApiErrorView { message: PARENT_EXISTS@, status: Status::Conflict })
    } else {
        None
    }
}

/// Creates `parent`, unless its name is taken. A refusal leaves the catalog
/// as it was.
pub fn create(catalog: &mut Catalog, parent: Parent) -> (done: Result<ApiSuccess, ApiError>)
    ensures
        match create_refusal(old(catalog)@, parent.name@) {
            Some(refusal) => done matches Err(error) && error@ == refusal && final(catalog)@
                == old(catalog)@,
            None => done matches Ok(success) && success.json@ == BodyView::Message(
                PARENT_CREATED@,
            ) && success.status == Status::Success && final(catalog)@ == old(
                catalog,
            )@.with_parent(parent@),
        },
{
    if catalog.parent_index(parent.name.as_str()).is_some() {
        return Err(ApiError::new(PARENT_EXISTS, Status::Conflict));
    }
    let ghost before = parent_views(catalog.parents@);
    catalog.parents.push(parent);
    assert(parent_views(catalog.parents@) =~= before.push(parent@));
    Ok(ApiSuccess::default(PARENT_CREATED))
}

/// Why the parent `name` cannot be deleted, if it cannot: it does not exist,
/// or some template builds on it.
pub open spec fn delete_refusal(catalog: CatalogView, name: Seq<char>) -> Option<ApiErrorView> {
    if !catalog.has_parent(name) {
        Some(ApiErrorView { message: PARENT_MISSING@, status: Status::NotFound })
    } else if catalog.parent_in_use(name) {
        Some(ApiErrorView { message: PARENT_IN_USE@, status: Status::Conflict })
    } else {
        None
    }
}

/// Deletes the parent `name`, unless it does not exist or a template builds
/// on it. A refusal leaves the catalog as it was.
pub fn delete(catalog: &mut Catalog, name: &str) -> (done: Result<ApiSuccess, ApiError>)
    ensures
        match delete_refusal(old(catalog)@, name@) {
            Some(refusal) => done matches Err(error) && error@ == refusal && final(catalog)@
                == old(catalog)@,
            None => done matches Ok(success) && success.json@ == BodyView::Message(
                PARENT_DELETED@,
            ) && success.status == Status::Success && final(catalog)@ == old(
                catalog,
            )@.without_parent(name@),
        },
{
    if catalog.parent_index(name).is_none() {
        return Err(ApiError::new(PARENT_MISSING, Status::NotFound));
    }
    if catalog.parent_in_use(name) {
        return Err(ApiError::new(PARENT_IN_USE, Status::Conflict));
    }
    catalog.remove_parent(name);
    Ok(ApiSuccess::default(PARENT_DELETED))
}

/// Where a plugin named `file_name` of the parent `name` belongs: in the
/// parent's plugins directory. `NotFound` where the parent does not exist.
pub fn push_plugin(catalog: &Catalog, name: &str, file_name: &str) -> (destination: Result<
    String,
    ApiError,
>)
    ensures
        catalog@.has_parent(name@) ==> (destination matches Ok(path) && path@ == parent_path(
            name@,
        ) + "/plugins"@ + "/"@ + file_name@),
        !catalog@.has_parent(name@) ==> (destination matches Err(error) && error@
            == (ApiErrorView { message: PARENT_MISSING@, status: Status::NotFound })),
{
    if catalog.parent_index(name).is_none() {
        return Err(ApiError::new(PARENT_MISSING, Status::NotFound));
    }
    Ok(get_parent_plugins_path(name).concat("/").concat(file_name))
}

/// Where the main file named `file_name` of the parent `name` belongs: in
/// the parent's directory. `NotFound` where the parent does not exist.
pub fn push_file(catalog: &Catalog, name: &str, file_name: &str) -> (destination: Result<
    String,
    ApiError,
>)
    ensures
        catalog@.has_parent(name@) ==> (destination matches Ok(path) && path@ == parent_path(
            name@,
        ) + "/"@ + file_name@),
        !catalog@.has_parent(name@) ==> (destination matches Err(error) && error@
            == (ApiErrorView { message: PARENT_MISSING@, status: Status::NotFound })),
{
    if catalog.parent_index(name).is_none() {
        return Err(ApiError::new(PARENT_MISSING, Status::NotFound));
    }
    Ok(get_parent_path(name).concat("/").concat(file_name))
}

} // verus!
