//! What can be asked about maps.
use vstd::prelude::*;
use crate::catalog::Catalog;
use crate::maps::manager::{get_map_path, map_path};
use crate::responses::api_error::{ApiError, ApiErrorView, Status};
use crate::responses::api_success::{ApiSuccess, BodyView};
use crate::templates::template::texts;

verus! {

pub const MAP_MISSING: &'static str = "The map doesn't exist.";

pub const MAP_IN_USE: &'static str = "Some templates are using map.";

pub const MAP_PUSHED: &'static str = "The map has been pushed.";

pub const MAP_DELETED: &'static str = "The map has been deleted.";

/// Takes the map `name` into the catalog and says where its archive file
/// belongs. A map that is pushed again keeps its one entry.
pub fn push_map(catalog: &mut Catalog, name: &str) -> (destination: String)
    ensures
        destination@ == map_path(name@),
        old(catalog)@.has_map(name@) ==> final(catalog)@ == old(catalog)@,
        !old(catalog)@.has_map(name@) ==> final(catalog)@ == old(catalog)@.with_map(name@),
{
    if !catalog.has_map(name) {
        let ghost before = texts(catalog.maps@);
        catalog.maps.push(name.to_owned());
        assert(texts(catalog.maps@) =~= before.push(name@));
    }
    get_map_path(name)
}

/// Why the map `name` cannot be deleted, if it cannot: it does not exist, or
/// some template references it.
pub open spec fn delete_refusal(catalog: crate::catalog::CatalogView, name: Seq<char>) -> Option<
    ApiErrorView,
> {
    if !catalog.has_map(name) {
        Some(ApiErrorView { message: MAP_MISSING@, status: Status::NotFound })
    } else if catalog.map_in_use(name) {
        Some(ApiErrorView { message: MAP_IN_USE@, status: Status::Conflict })
    } else {
        None
    }
}

/// Deletes the map `name`, unless it does not exist or a template
/// references it. A refusal leaves the catalog as it was.
pub fn delete(catalog: &mut Catalog, name: &str) -> (done: Result<ApiSuccess, ApiError>)
    ensures
        match delete_refusal(old(catalog)@, name@) {
            Some(refusal) => done matches Err(error) && error@ == refusal && final(catalog)@
                == old(catalog)@,
            None => done matches Ok(success) && success.json@ == BodyView::Message(MAP_DELETED@)
                && success.status == Status::Success && final(catalog)@ == old(
                catalog,
            )@.without_map(name@),
        },
{
    if !catalog.has_map(name) {
        return Err(ApiError::new(MAP_MISSING, Status::NotFound));
    }
    if catalog.map_in_use(name) {
        return Err(ApiError::new(MAP_IN_USE, Status::Conflict));
    }
    catalog.remove_map(name);
    Ok(ApiSuccess::default(MAP_DELETED))
}

/// The names of all maps, in the order of the catalog.
pub fn get_maps(catalog: &Catalog) -> (names: Vec<String>)
    ensures
        texts(names@) == catalog@.maps,
{
    catalog.map_names()
}

/// Where the archive file of the map `name` is, if the map exists.
pub fn get_map(catalog: &Catalog, name: &str) -> (found: Result<String, ApiError>)
    ensures
        catalog@.has_map(name@) ==> (found matches Ok(path) && path@ == map_path(name@)),
        !catalog@.has_map(name@) ==> (found matches Err(error) && error@ == (ApiErrorView {
            message: MAP_MISSING@,
            status: Status::NotFound,
        })),
{
    if !catalog.has_map(name) {
        return Err(ApiError::new(MAP_MISSING, Status::NotFound));
    }
    Ok(get_map_path(name))
}

} // verus!
