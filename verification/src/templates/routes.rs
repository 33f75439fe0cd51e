//! What can be asked about templates.
use vstd::prelude::*;
use vstd::string::StringExecFns;
use crate::catalog::{template_views, Catalog, CatalogView};
use crate::parents::manager::{get_parent_path, parent_path};
use crate::responses::api_error::{ApiError, ApiErrorView, Status};
use crate::responses::api_success::{ApiSuccess, BodyView};
use crate::templates::manager::{
    get_template_path, get_template_plugins_path, template_path,
};
use crate::templates::template::{Template, TemplateView};
use crate::templates::archive::archive_encoding;
use crate::templates::utils::{
    all_writable, compose, composed, composed_archive_path, members_of, scratch_dir,
    scratch_path, ArchiveError, Entry,
};

verus! {

pub const TEMPLATE_MISSING: &'static str = "The template doesn't exist.";

pub const TEMPLATE_EXISTS: &'static str = "The template already exists.";

pub const PARENT_NOT_SPECIFIED: &'static str = "The specified parent doesn't exist.";

pub const MAP_NOT_SPECIFIED: &'static str = "A specified map doesn't exist.";

pub const PARENT_OF_TEMPLATE_MISSING: &'static str = "The template's parent doesn't exist.";

pub const TEMPLATE_CREATED: &'static str = "The template has been created.";

pub const TEMPLATE_DELETED: &'static str = "The template has been deleted.";

pub const TEMPLATE_UPDATED: &'static str = "The template has been updated.";

pub const IMAGE_BUILT: &'static str = "The image has been built on the registry.";

pub const PLUGIN_PUSHED: &'static str = "The plugin has been pushed.";

pub const FILE_PUSHED: &'static str = "The file has been pushed.";

/// A template as it is read: the stored record, with the kind of its parent.
pub open spec fn as_read(catalog: CatalogView, template: TemplateView) -> TemplateView
    recommends
        catalog.has_parent(template.parent),
{
    template.with_kind(Some(catalog.parent_named(template.parent).t))
}

/// Whether the parent of every template exists.
pub open spec fn parents_known(catalog: CatalogView) -> bool {
    forall|i: int|
        0 <= i < catalog.templates.len() ==> catalog.has_parent(
            (#[trigger] catalog.templates[i]).parent,
        )
}

/// The failure of a read for want of the template's parent: a referenced
/// entity that is absent.
pub open spec fn parent_lost() -> ApiErrorView {
    ApiErrorView { message: PARENT_OF_TEMPLATE_MISSING@, status: Status::NotFound }
}

fn read(catalog: &Catalog, at: usize) -> (found: Option<Template>)
    requires
        at < catalog.templates.len(),
    ensures
        catalog@.has_parent(catalog@.templates[at as int].parent) ==> (found matches Some(template)
            && template@ == as_read(catalog@, catalog@.templates[at as int])),
        !catalog@.has_parent(catalog@.templates[at as int].parent) ==> found is None,
{
    let stored = &catalog.templates[at];
    match catalog.parent_index(stored.parent.as_str()) {
        Some(parent_at) => {
            let mut template = stored.duplicate();
            template.t = Some(catalog.parents[parent_at].t);
            Some(template)
        },
        None => None,
    }
}

/// All templates, in the order of the catalog, each with the kind of its
/// parent. Where the parent of any template is missing, the listing fails.
pub fn get_templates(catalog: &Catalog) -> (listed: Result<Vec<Template>, ApiError>)
    ensures
        parents_known(catalog@) ==> (listed matches Ok(templates) && templates.len()
            == catalog@.templates.len() && forall|i: int|
            0 <= i < templates.len() ==> (#[trigger] templates[i])@ == as_read(
                catalog@,
                catalog@.templates[i],
            )),
        !parents_known(catalog@) ==> (listed matches Err(error) && error@ == parent_lost()),
{
    let mut templates: Vec<Template> = Vec::new();
    let mut i: usize = 0;
    while i < catalog.templates.len()
        invariant
            i <= catalog.templates.len(),
            templates.len() == i,
            forall|j: int|
                0 <= j < i ==> catalog@.has_parent((#[trigger] catalog@.templates[j]).parent),
            forall|j: int|
                0 <= j < i ==> (#[trigger] templates[j])@ == as_read(
                    catalog@,
                    catalog@.templates[j],
                ),
        decreases catalog.templates.len() - i,
    {
        match read(catalog, i) {
            Some(template) => {
                templates.push(template);
            },
            None => {
                assert(!catalog@.has_parent(catalog@.templates[i as int].parent));
                return Err(ApiError::new(PARENT_OF_TEMPLATE_MISSING, Status::NotFound));
            },
        }
        i = i + 1;
    }
    Ok(templates)
}

/// Why the template `name` cannot be read, if it cannot: it does not exist,
/// or its parent does not.
pub open spec fn read_refusal(catalog: CatalogView, name: Seq<char>) -> Option<ApiErrorView> {
    if !catalog.has_template(name) {
        Some(template_lost())
    } else if !catalog.has_parent(catalog.template_named(name).parent) {
        Some(parent_lost())
    } else {
        None
    }
}

/// The template `name`, with the kind of its parent.
pub fn get_template(catalog: &Catalog, name: &str) -> (found: Result<Template, ApiError>)
    ensures
        match read_refusal(catalog@, name@) {
            Some(refusal) => found matches Err(error) && error@ == refusal,
            None => found matches Ok(template) && template@ == as_read(
                catalog@,
                catalog@.template_named(name@),
            ),
        },
{
    match catalog.template_index(name) {
        None => Err(ApiError::new(TEMPLATE_MISSING, Status::NotFound)),
        Some(at) => match read(catalog, at) {
            Some(template) => Ok(template),
            None => Err(ApiError::new(PARENT_OF_TEMPLATE_MISSING, Status::NotFound)),
        },
    }
}

/// Why `template` cannot be created, if it cannot: its parent does not
/// exist, a map that it references does not exist, or its name is taken.
/// The references are judged first.
pub open spec fn create_refusal(catalog: CatalogView, template: TemplateView) -> Option<
    ApiErrorView,
> {
    if !catalog.has_parent(template.parent) {
        Some(ApiErrorView { message: PARENT_NOT_SPECIFIED@, status: Status::BadRequest })
    } else if !catalog.maps_known(template.maps) {
        Some(ApiErrorView { message: MAP_NOT_SPECIFIED@, status: Status::BadRequest })
    } else if catalog.has_template(template.name) {
        Some(ApiErrorView { message: TEMPLATE_EXISTS@, status: Status::Conflict })
    } else {
        None
    }
}

/// Creates `template`, unless its parent or one of its maps does not exist
/// or its name is taken. A refusal leaves the catalog as it was.
pub fn create(catalog: &mut Catalog, template: Template) -> (done: Result<ApiSuccess, ApiError>)
    ensures
        match create_refusal(old(catalog)@, template@) {
            Some(refusal) => done matches Err(error) && error@ == refusal && final(catalog)@
                == old(catalog)@,
            None => done matches Ok(success) && success.json@ == BodyView::Message(
                TEMPLATE_CREATED@,
            ) && success.status == Status::Success && final(catalog)@ == old(
                catalog,
            )@.with_template(template@),
        },
{
    if catalog.parent_index(template.parent.as_str()).is_none() {
        return Err(ApiError::new(PARENT_NOT_SPECIFIED, Status::BadRequest));
    }
    if !catalog.maps_known(&template.maps) {
        return Err(ApiError::new(MAP_NOT_SPECIFIED, Status::BadRequest));
    }
    if catalog.template_index(template.name.as_str()).is_some() {
        return Err(ApiError::new(TEMPLATE_EXISTS, Status::Conflict));
    }
    let ghost before = template_views(catalog.templates@);
    catalog.templates.push(template);
    assert(template_views(catalog.templates@) =~= before.push(template@));
    Ok(ApiSuccess::default(TEMPLATE_CREATED))
}

/// The failure of an operation on a template that does not exist.
pub open spec fn template_lost() -> ApiErrorView {
    ApiErrorView { message: TEMPLATE_MISSING@, status: Status::NotFound }
}

/// Deletes the template `name`, unless it does not exist. A refusal leaves
/// the catalog as it was.
pub fn delete(catalog: &mut Catalog, name: &str) -> (done: Result<ApiSuccess, ApiError>)
    ensures
        !old(catalog)@.has_template(name@) ==> (done matches Err(error) && error@
            == template_lost() && final(catalog)@ == old(catalog)@),
        old(catalog)@.has_template(name@) ==> (done matches Ok(success) && success.json@
            == BodyView::Message(TEMPLATE_DELETED@) && success.status == Status::Success
            && final(catalog)@ == old(catalog)@.without_template(name@)),
{
    if catalog.template_index(name).is_none() {
        return Err(ApiError::new(TEMPLATE_MISSING, Status::NotFound));
    }
    catalog.remove_template(name);
    Ok(ApiSuccess::default(TEMPLATE_DELETED))
}

/// Why the template `name` cannot become `template`, if it cannot: it does
/// not exist, or the new name belongs to another template.
pub open spec fn update_refusal(
    catalog: CatalogView,
    name: Seq<char>,
    template: TemplateView,
) -> Option<ApiErrorView> {
    if !catalog.has_template(name) {
        Some(template_lost())
    } else if template.name != name && catalog.has_template(template.name) {
        Some(ApiErrorView { message: TEMPLATE_EXISTS@, status: Status::Conflict })
    } else {
        None
    }
}

/// Replaces the template `name` by `template`, which may carry a new name.
/// A refusal leaves the catalog as it was. After a success the template is
/// due for publication.
pub fn update(catalog: &mut Catalog, name: &str, template: Template) -> (done: Result<
    ApiSuccess,
    ApiError,
>)
    ensures
        match update_refusal(old(catalog)@, name@, template@) {
            Some(refusal) => done matches Err(error) && error@ == refusal && final(catalog)@
                == old(catalog)@,
            None => done matches Ok(success) && success.json@ == BodyView::Message(
                TEMPLATE_UPDATED@,
            ) && success.status == Status::Success && final(catalog)@ == old(
                catalog,
            )@.without_template(name@).with_template(template@),
        },
{
    if catalog.template_index(name).is_none() {
        return Err(ApiError::new(TEMPLATE_MISSING, Status::NotFound));
    }
    let renamed = !(template.name == String::from_str(name));
    if renamed && catalog.template_index(template.name.as_str()).is_some() {
        return Err(ApiError::new(TEMPLATE_EXISTS, Status::Conflict));
    }
    catalog.remove_template(name);
    let ghost before = template_views(catalog.templates@);
    catalog.templates.push(template);
    assert(template_views(catalog.templates@) =~= before.push(template@));
    Ok(ApiSuccess::default(TEMPLATE_UPDATED))
}

/// Where a plugin named `file_name` of the template `name` belongs: in the
/// template's plugins directory. `NotFound` where the template does not
/// exist.
pub fn push_plugin(catalog: &Catalog, name: &str, file_name: &str) -> (destination: Result<
    String,
    ApiError,
>)
    ensures
        catalog@.has_template(name@) ==> (destination matches Ok(path) && path@ == template_path(
            name@,
        ) + "/plugins"@ + "/"@ + file_name@),
        !catalog@.has_template(name@) ==> (destination matches Err(error) && error@
            == template_lost()),
{
    if catalog.template_index(name).is_none() {
        return Err(ApiError::new(TEMPLATE_MISSING, Status::NotFound));
    }
    Ok(get_template_plugins_path(name).concat("/").concat(file_name))
}

/// Where the main file named `file_name` of the template `name` belongs: in
/// the template's directory. `NotFound` where the template does not exist.
pub fn push_file(catalog: &Catalog, name: &str, file_name: &str) -> (destination: Result<
    String,
    ApiError,
>)
    ensures
        catalog@.has_template(name@) ==> (destination matches Ok(path) && path@ == template_path(
            name@,
        ) + "/"@ + file_name@),
        !catalog@.has_template(name@) ==> (destination matches Err(error) && error@
            == template_lost()),
{
    if catalog.template_index(name).is_none() {
        return Err(ApiError::new(TEMPLATE_MISSING, Status::NotFound));
    }
    Ok(get_template_path(name).concat("/").concat(file_name))
}

/// What the composition of a template is made from, and where it goes.
#[derive(Debug)]
pub struct ArchiveSources {
    /// The name of the template's parent.
    pub parent_name: String,
    /// The directory of the parent: its tree is written first.
    pub parent_path: String,
    /// The directory of the template: its tree is written second.
    pub template_path: String,
    /// The scratch directory of the template.
    pub scratch_dir: String,
    /// The file that takes the archive.
    pub archive_path: String,
}

/// Why the template `name` cannot be composed, if it cannot: it does not
/// exist, or its parent does not. Maps are not looked at.
pub open spec fn archive_refusal(catalog: CatalogView, name: Seq<char>) -> Option<ApiErrorView> {
    if !catalog.has_template(name) {
        Some(template_lost())
    } else if !catalog.has_parent(catalog.template_named(name).parent) {
        Some(parent_lost())
    } else {
        None
    }
}

/// The two trees that the composition of the template `name` is made from,
/// and the place of the archive.
pub fn archive_sources(catalog: &Catalog, name: &str) -> (found: Result<ArchiveSources, ApiError>)
    ensures
        match archive_refusal(catalog@, name@) {
            Some(refusal) => found matches Err(error) && error@ == refusal,
            None => found matches Ok(sources) && sources.parent_name@ == catalog@.template_named(
                name@,
            ).parent && sources.parent_path@ == parent_path(sources.parent_name@)
                && sources.template_path@ == template_path(name@) && sources.scratch_dir@
                == scratch_path(name@) && sources.archive_path@ == scratch_path(name@) + "/"@
                + name@ + ".zip"@,
        },
{
    let at = match catalog.template_index(name) {
        Some(at) => at,
        None => {
            return Err(ApiError::new(TEMPLATE_MISSING, Status::NotFound));
        },
    };
    let parent_name = catalog.templates[at].parent.clone();
    if catalog.parent_index(parent_name.as_str()).is_none() {
        return Err(ApiError::new(PARENT_OF_TEMPLATE_MISSING, Status::NotFound));
    }
    let parent_path = get_parent_path(parent_name.as_str());
    Ok(
        ArchiveSources {
            parent_name,
            parent_path,
            template_path: get_template_path(name),
            scratch_dir: scratch_dir(name),
            archive_path: composed_archive_path(name),
        },
    )
}

/// The answer to a composition that failed: the failure's message, as a
/// failure inside the server.
pub fn archive_failure(failure: &ArchiveError) -> (error: ApiError)
    ensures
        error@ == (ApiErrorView {
            message: failure.spec_message(),
            status: Status::InternalServerError,
        }),
{
    let message = failure.message();
    ApiError::default(message.as_str())
}

/// Composes the template `name`: the entries found below its parent's
/// directory, then the entries found below its own, in one archive. The
/// roots are the segments of the two directories, as the walk names them.
///
/// It refuses as `archive_sources` does. Otherwise the result is that of
/// `compose` for the two trees, a failure turned into its answer.
pub fn to_zip(
    catalog: &Catalog,
    name: &str,
    parent_root: &Vec<String>,
    parent_entries: &Vec<Entry>,
    template_root: &Vec<String>,
    template_entries: &Vec<Entry>,
) -> (done: Result<Vec<u8>, ApiError>)
    ensures
        match archive_refusal(catalog@, name@) {
            Some(refusal) => done matches Err(error) && error@ == refusal,
            None => exists|made: Result<Vec<u8>, ArchiveError>| #[trigger]
                composed(
                    parent_entries@,
                    parent_root@,
                    template_entries@,
                    template_root@,
                    made,
                ) && match made {
                    Ok(bytes) => done == Ok::<Vec<u8>, ApiError>(bytes),
                    Err(failure) => done matches Err(error) && error@ == (ApiErrorView {
                        message: failure.spec_message(),
                        status: Status::InternalServerError,
                    }),
                },
        },
        archive_refusal(catalog@, name@) is None && all_writable(parent_entries@, parent_root@)
            && all_writable(template_entries@, template_root@) ==> (done matches Ok(bytes)
            && bytes@ == archive_encoding(
            members_of(parent_entries@, parent_root@) + members_of(
                template_entries@,
                template_root@,
            ),
        )),
{
    match archive_sources(catalog, name) {
        Ok(_) => {},
        Err(error) => {
            return Err(error);
        },
    }
    let made = compose(parent_entries, parent_root, template_entries, template_root);
    match made {
        Ok(bytes) => {
            assert(composed(
                parent_entries@,
                parent_root@,
                template_entries@,
                template_root@,
                Ok::<Vec<u8>, ArchiveError>(bytes),
            ));
            Ok(bytes)
        },
        Err(failure) => {
            let error = archive_failure(&failure);
            assert(composed(
                parent_entries@,
                parent_root@,
                template_entries@,
                template_root@,
                Err::<Vec<u8>, ArchiveError>(failure),
            ));
            Err(error)
        },
    }
}

/// The template `name` as it is stored, for publication. `NotFound` where it
/// does not exist. Its parent and its maps are not looked at.
pub fn build(catalog: &Catalog, name: &str) -> (found: Result<Template, ApiError>)
    ensures
        catalog@.has_template(name@) ==> (found matches Ok(template) && template@
            == catalog@.template_named(name@)),
        !catalog@.has_template(name@) ==> (found matches Err(error) && error@ == template_lost()),
{
    match catalog.template_index(name) {
        Some(at) => Ok(catalog.templates[at].duplicate()),
        None => Err(ApiError::new(TEMPLATE_MISSING, Status::NotFound)),
    }
}

/// The answer to a publication that has ended: `message` where it went
/// through, and the reason, as a failure inside the server, where it did not.
pub fn publication_response(outcome: Result<(), String>, message: &str) -> (done: Result<
    ApiSuccess,
    ApiError,
>)
    ensures
        outcome is Ok ==> (done matches Ok(success) && success.json@ == BodyView::Message(
            message@,
        ) && success.status == Status::Success),
        outcome matches Err(reason) ==> (done matches Err(error) && error@ == (ApiErrorView {
            message: reason@,
            status: Status::InternalServerError,
        })),
{
    match outcome {
        Ok(()) => Ok(ApiSuccess::default(message)),
        Err(reason) => Err(ApiError::default(reason.as_str())),
    }
}

} // verus!
