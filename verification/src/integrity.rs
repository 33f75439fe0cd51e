//! The laws of referential integrity: what creating and deleting do to the
//! references between templates, parents and maps.
use vstd::prelude::*;
use crate::catalog::CatalogView;
use crate::parents::parent::ParentView;
use crate::responses::api_error::Status;
use crate::templates::template::TemplateView;

verus! {

/// What is kept by a filter is what was there and passes the test.
pub proof fn lemma_filter_keeps<A>(items: Seq<A>, keep: spec_fn(A) -> bool, item: A)
    ensures
        items.filter(keep).contains(item) <==> items.contains(item) && keep(item),
    decreases items.len(),
{
    reveal(Seq::filter);
    if items.len() > 0 {
        let front = items.drop_last();
        lemma_filter_keeps(front, keep, item);
        let kept = front.filter(keep);
        if items.contains(item) {
            let at = choose|i: int| 0 <= i < items.len() && items[i] == item;
            if at < items.len() - 1 {
                assert(front[at] == item);
            }
        }
        if front.contains(item) {
            let at = choose|i: int| 0 <= i < front.len() && front[i] == item;
            assert(items[at] == item);
        }
        if keep(items.last()) {
            assert(items.filter(keep) == kept.push(items.last()));
            if kept.contains(item) {
                let at = choose|i: int| 0 <= i < kept.len() && kept[i] == item;
                assert(kept.push(items.last())[at] == item);
            }
            if item == items.last() {
                assert(kept.push(items.last())[kept.len() as int] == item);
                assert(items[items.len() - 1] == item);
            }
            if kept.push(items.last()).contains(item) {
                let at = choose|i: int|
                    0 <= i < kept.push(items.last()).len() && kept.push(items.last())[i] == item;
                if at < kept.len() {
                    assert(kept[at] == item);
                }
            }
        } else {
            assert(items.filter(keep) == kept);
        }
    }
}

/// A template whose parent or one of whose maps does not exist cannot be
/// created: the refusal is a `BadRequest`, whatever else holds of the
/// template.
pub proof fn lemma_create_needs_references(catalog: CatalogView, template: TemplateView)
    requires
        !catalog.has_parent(template.parent) || !catalog.maps_known(template.maps),
    ensures
        crate::templates::routes::create_refusal(catalog, template) matches Some(refusal)
            && refusal.status == Status::BadRequest,
{
}

/// A template is created exactly where its parent and its maps exist and
/// its name is free.
pub proof fn lemma_create_succeeds(catalog: CatalogView, template: TemplateView)
    ensures
        crate::templates::routes::create_refusal(catalog, template) is None <==> (
        catalog.has_parent(template.parent) && catalog.maps_known(template.maps)
            && !catalog.has_template(template.name)),
{
}

/// A parent that a template builds on cannot be deleted: the refusal is a
/// `Conflict`.
pub proof fn lemma_parent_in_use_stays(catalog: CatalogView, name: Seq<char>)
    requires
        catalog.has_parent(name),
        catalog.parent_in_use(name),
    ensures
        crate::parents::routes::delete_refusal(catalog, name) matches Some(refusal)
            && refusal.status == Status::Conflict,
{
}

/// A map that a template references cannot be deleted: the refusal is a
/// `Conflict`.
pub proof fn lemma_map_in_use_stays(catalog: CatalogView, name: Seq<char>)
    requires
        catalog.has_map(name),
        catalog.map_in_use(name),
    ensures
        crate::maps::routes::delete_refusal(catalog, name) matches Some(refusal) && refusal.status
            == Status::Conflict,
{
}

/// Deleting a template takes away the templates of that name and no other:
/// a template is there afterwards exactly if it was there before under
/// another name.
pub proof fn lemma_without_template(catalog: CatalogView, name: Seq<char>, template: TemplateView)
    ensures
        catalog.without_template(name).templates.contains(template) <==> (
        catalog.templates.contains(template) && template.name != name),
        catalog.without_template(name).parents == catalog.parents,
        catalog.without_template(name).maps == catalog.maps,
{
    lemma_filter_keeps(catalog.templates, |t: TemplateView| t.name != name, template);
}

/// Once the last template that builds on a parent is deleted, the parent
/// can be deleted. Let `parent` exist, and let every template that builds on
/// it be named `template`. Then after the deletion of `template` nothing
/// builds on `parent`, and its deletion is not refused.
pub proof fn lemma_parent_released(catalog: CatalogView, parent: Seq<char>, template: Seq<char>)
    requires
        catalog.has_parent(parent),
        forall|i: int|
            0 <= i < catalog.templates.len() && (#[trigger] catalog.templates[i]).parent == parent
                ==> catalog.templates[i].name == template,
    ensures
        !catalog.without_template(template).parent_in_use(parent),
        crate::parents::routes::delete_refusal(catalog.without_template(template), parent) is None,
{
    let after = catalog.without_template(template);
    if after.parent_in_use(parent) {
        let at = choose|i: int|
            0 <= i < after.templates.len() && (#[trigger] after.templates[i]).parent == parent;
        let left = after.templates[at];
        assert(after.templates.contains(left));
        lemma_without_template(catalog, template, left);
        let before = choose|i: int|
            0 <= i < catalog.templates.len() && catalog.templates[i] == left;
        assert(catalog.templates[before].parent == parent);
        assert(false);
    }
}

/// Once the last template that references a map is deleted, the map can be
/// deleted. Let `map` exist, and let every template that references it be
/// named `template`. Then after the deletion of `template` nothing
/// references `map`, and its deletion is not refused.
pub proof fn lemma_map_released(catalog: CatalogView, map: Seq<char>, template: Seq<char>)
    requires
        catalog.has_map(map),
        forall|i: int|
            0 <= i < catalog.templates.len() && (#[trigger] catalog.templates[i]).uses_map(map)
                ==> catalog.templates[i].name == template,
    ensures
        !catalog.without_template(template).map_in_use(map),
        crate::maps::routes::delete_refusal(catalog.without_template(template), map) is None,
{
    let after = catalog.without_template(template);
    if after.map_in_use(map) {
        let at = choose|i: int|
            0 <= i < after.templates.len() && (#[trigger] after.templates[i]).uses_map(map);
        let left = after.templates[at];
        assert(after.templates.contains(left));
        lemma_without_template(catalog, template, left);
        let before = choose|i: int|
            0 <= i < catalog.templates.len() && catalog.templates[i] == left;
        assert(catalog.templates[before].uses_map(map));
        assert(false);
    }
}

/// A template that was created is there, and a template that was deleted
/// is not.
pub proof fn lemma_template_presence(catalog: CatalogView, template: TemplateView)
    ensures
        catalog.with_template(template).has_template(template.name),
        !catalog.without_template(template.name).has_template(template.name),
{
    let more = catalog.with_template(template);
    assert(more.templates[catalog.templates.len() as int] == template);
    let less = catalog.without_template(template.name);
    if less.has_template(template.name) {
        let at = choose|i: int|
            0 <= i < less.templates.len() && (#[trigger] less.templates[i]).name == template.name;
        assert(less.templates.contains(less.templates[at]));
        lemma_without_template(catalog, template.name, less.templates[at]);
    }
}

/// Deleting a template that was just created under a free name gives back
/// the catalog as it was.
pub proof fn lemma_delete_undoes_create(catalog: CatalogView, template: TemplateView)
    requires
        !catalog.has_template(template.name),
    ensures
        catalog.with_template(template).without_template(template.name) == catalog,
{
    let keep = |t: TemplateView| t.name != template.name;
    lemma_filter_all(catalog.templates, keep);
    reveal(Seq::filter);
    assert(catalog.templates.push(template).drop_last() =~= catalog.templates);
    assert(catalog.with_template(template).without_template(template.name).templates
        =~= catalog.templates);
}

/// A filter that every item passes keeps the sequence as it is.
pub proof fn lemma_filter_all<A>(items: Seq<A>, keep: spec_fn(A) -> bool)
    requires
        forall|i: int| 0 <= i < items.len() ==> keep(#[trigger] items[i]),
    ensures
        items.filter(keep) == items,
    decreases items.len(),
{
    reveal(Seq::filter);
    if items.len() > 0 {
        lemma_filter_all(items.drop_last(), keep);
        assert(items.drop_last().push(items.last()) =~= items);
    } else {
        assert(items.filter(keep) =~= items);
    }
}

/// Creation keeps integrity: a consistent catalog stays consistent when a
/// template is added whose parent and maps exist.
pub proof fn lemma_create_keeps_integrity(catalog: CatalogView, template: TemplateView)
    requires
        catalog.consistent(),
        catalog.has_parent(template.parent),
        catalog.maps_known(template.maps),
    ensures
        catalog.with_template(template).consistent(),
{
    let more = catalog.with_template(template);
    assert forall|i: int| 0 <= i < more.templates.len() implies more.has_parent(
        (#[trigger] more.templates[i]).parent,
    ) && more.maps_known(more.templates[i].maps) by {
        if i < catalog.templates.len() {
            assert(more.templates[i] == catalog.templates[i]);
        }
    }
}

/// Deleting a template keeps integrity.
pub proof fn lemma_delete_template_keeps_integrity(catalog: CatalogView, name: Seq<char>)
    requires
        catalog.consistent(),
    ensures
        catalog.without_template(name).consistent(),
{
    let less = catalog.without_template(name);
    assert forall|i: int| 0 <= i < less.templates.len() implies less.has_parent(
        (#[trigger] less.templates[i]).parent,
    ) && less.maps_known(less.templates[i].maps) by {
        let left = less.templates[i];
        assert(less.templates.contains(left));
        lemma_without_template(catalog, name, left);
        let before = choose|j: int| 0 <= j < catalog.templates.len() && catalog.templates[j] == left;
        assert(catalog.has_parent(catalog.templates[before].parent));
    }
}

/// Replacing a template keeps integrity where the parent and the maps of
/// the new record exist.
pub proof fn lemma_update_keeps_integrity(
    catalog: CatalogView,
    name: Seq<char>,
    template: TemplateView,
)
    requires
        catalog.consistent(),
        catalog.has_parent(template.parent),
        catalog.maps_known(template.maps),
    ensures
        catalog.without_template(name).with_template(template).consistent(),
{
    lemma_delete_template_keeps_integrity(catalog, name);
    lemma_create_keeps_integrity(catalog.without_template(name), template);
}

/// Deleting a parent that nothing builds on keeps integrity.
pub proof fn lemma_delete_parent_keeps_integrity(catalog: CatalogView, name: Seq<char>)
    requires
        catalog.consistent(),
        !catalog.parent_in_use(name),
    ensures
        catalog.without_parent(name).consistent(),
{
    let less = catalog.without_parent(name);
    let keep = |parent: ParentView| parent.name != name;
    assert forall|i: int| 0 <= i < less.templates.len() implies less.has_parent(
        (#[trigger] less.templates[i]).parent,
    ) && less.maps_known(less.templates[i].maps) by {
        let wanted = catalog.templates[i].parent;
        assert(catalog.has_parent(wanted));
        let at = choose|j: int|
            0 <= j < catalog.parents.len() && (#[trigger] catalog.parents[j]).name == wanted;
        let parent = catalog.parents[at];
        assert(catalog.parents.contains(parent));
        assert(wanted != name);
        lemma_filter_keeps(catalog.parents, keep, parent);
        let kept = choose|j: int| 0 <= j < less.parents.len() && less.parents[j] == parent;
        assert(less.parents[kept].name == wanted);
    }
}

/// Deleting a map that nothing references keeps integrity.
pub proof fn lemma_delete_map_keeps_integrity(catalog: CatalogView, name: Seq<char>)
    requires
        catalog.consistent(),
        !catalog.map_in_use(name),
    ensures
        catalog.without_map(name).consistent(),
{
    let less = catalog.without_map(name);
    let keep = |map: Seq<char>| map != name;
    assert forall|i: int| 0 <= i < less.templates.len() implies less.has_parent(
        (#[trigger] less.templates[i]).parent,
    ) && less.maps_known(less.templates[i].maps) by {
        let template = catalog.templates[i];
        assert(catalog.has_parent(template.parent));
        assert(catalog.maps_known(template.maps));
        assert(!template.uses_map(name));
        assert forall|j: int| 0 <= j < template.maps.len() implies less.has_map(
            #[trigger] template.maps[j],
        ) by {
            assert(catalog.has_map(template.maps[j]));
            assert(template.maps.contains(template.maps[j]));
            lemma_filter_keeps(catalog.maps, keep, template.maps[j]);
        }
    }
}

} // verus!
