//! The catalog: which parents, templates and maps the store holds.
//!
//! The rules that bind the three kinds together are stated over the catalog.
//! Whoever keeps the store reads the catalog from it, asks the catalog for a
//! decision, and carries out on the store what the catalog did to itself.
use vstd::prelude::*;
use vstd::string::StringExecFns;
use crate::parents::parent::{Parent, ParentView};
use crate::maps::manager::{map_names, names_of_maps};
use crate::templates::template::{duplicate_names, texts, Template, TemplateView};

verus! {

/// The entities of a store.
#[derive(Debug)]
pub struct Catalog {
    pub parents: Vec<Parent>,
    pub templates: Vec<Template>,
    pub maps: Vec<String>,
}

/// A catalog as plain mathematical values.
pub struct CatalogView {
    pub parents: Seq<ParentView>,
    pub templates: Seq<TemplateView>,
    pub maps: Seq<Seq<char>>,
}

/// What a sequence of parent records says.
pub open spec fn parent_views(parents: Seq<Parent>) -> Seq<ParentView> {
    parents.map_values(|parent: Parent| parent@)
}

/// What a sequence of template records says.
pub open spec fn template_views(templates: Seq<Template>) -> Seq<TemplateView> {
    templates.map_values(|template: Template| template@)
}

impl View for Catalog {
    type V = CatalogView;

    open spec fn view(&self) -> CatalogView {
        CatalogView {
            parents: parent_views(self.parents@),
            templates: template_views(self.templates@),
            maps: texts(self.maps@),
        }
    }
}

impl CatalogView {
    /// Whether a parent named `name` exists.
    pub open spec fn has_parent(self, name: Seq<char>) -> bool {
        exists|i: int| 0 <= i < self.parents.len() && (#[trigger] self.parents[i]).name == name
    }

    /// Whether a template named `name` exists.
    pub open spec fn has_template(self, name: Seq<char>) -> bool {
        exists|i: int| 0 <= i < self.templates.len() && (#[trigger] self.templates[i]).name == name
    }

    /// Whether a map named `name` exists.
    pub open spec fn has_map(self, name: Seq<char>) -> bool {
        self.maps.contains(name)
    }

    /// Whether some template builds on the parent `name`.
    pub open spec fn parent_in_use(self, name: Seq<char>) -> bool {
        exists|i: int|
            0 <= i < self.templates.len() && (#[trigger] self.templates[i]).parent == name
    }

    /// Whether some template references the map `name`.
    pub open spec fn map_in_use(self, name: Seq<char>) -> bool {
        exists|i: int|
            0 <= i < self.templates.len() && (#[trigger] self.templates[i]).uses_map(name)
    }

    /// Whether each of `maps` exists.
    pub open spec fn maps_known(self, maps: Seq<Seq<char>>) -> bool {
        forall|j: int| 0 <= j < maps.len() ==> self.has_map(#[trigger] maps[j])
    }

    /// Referential integrity: the parent of every template exists, and so
    /// does every map that a template references.
    pub open spec fn consistent(self) -> bool {
        forall|i: int|
            0 <= i < self.templates.len() ==> self.has_parent(
                (#[trigger] self.templates[i]).parent,
            ) && self.maps_known(self.templates[i].maps)
    }

    /// This catalog with one more parent.
    pub open spec fn with_parent(self, parent: ParentView) -> CatalogView {
        CatalogView { parents: self.parents.push(parent), ..self }
    }

    /// This catalog with one more template.
    pub open spec fn with_template(self, template: TemplateView) -> CatalogView {
        CatalogView { templates: self.templates.push(template), ..self }
    }

    /// This catalog with one more map.
    pub open spec fn with_map(self, name: Seq<char>) -> CatalogView {
        CatalogView { maps: self.maps.push(name), ..self }
    }

    /// This catalog without the parents named `name`.
    pub open spec fn without_parent(self, name: Seq<char>) -> CatalogView {
        CatalogView {
            parents: self.parents.filter(|parent: ParentView| parent.name != name),
            ..self
        }
    }

    /// This catalog without the templates named `name`.
    pub open spec fn without_template(self, name: Seq<char>) -> CatalogView {
        CatalogView {
            templates: self.templates.filter(|template: TemplateView| template.name != name),
            ..self
        }
    }

    /// This catalog without the maps named `name`.
    pub open spec fn without_map(self, name: Seq<char>) -> CatalogView {
        CatalogView { maps: self.maps.filter(|map: Seq<char>| map != name), ..self }
    }

    /// The first parent named `name`.
    pub open spec fn parent_named(self, name: Seq<char>) -> ParentView
        recommends
            self.has_parent(name),
    {
        self.parents[first_parent(self.parents, name)]
    }

    /// The first template named `name`.
    pub open spec fn template_named(self, name: Seq<char>) -> TemplateView
        recommends
            self.has_template(name),
    {
        self.templates[first_template(self.templates, name)]
    }
}

/// The place of the first parent named `name`, or the number of parents
/// where there is none.
pub open spec fn first_parent(parents: Seq<ParentView>, name: Seq<char>) -> int
    decreases parents.len(),
{
    if parents.len() == 0 || parents[0].name == name {
        0
    } else {
        1 + first_parent(parents.drop_first(), name)
    }
}

/// The place of the first template named `name`, or the number of templates
/// where there is none.
pub open spec fn first_template(templates: Seq<TemplateView>, name: Seq<char>) -> int
    decreases templates.len(),
{
    if templates.len() == 0 || templates[0].name == name {
        0
    } else {
        1 + first_template(templates.drop_first(), name)
    }
}

/// `first_parent` is the place before which no parent has the name.
pub proof fn lemma_first_parent(parents: Seq<ParentView>, name: Seq<char>, at: int)
    requires
        0 <= at <= parents.len(),
        forall|j: int| 0 <= j < at ==> (#[trigger] parents[j]).name != name,
        at < parents.len() ==> parents[at].name == name,
    ensures
        first_parent(parents, name) == at,
    decreases parents.len(),
{
    if parents.len() > 0 && at > 0 {
        let rest = parents.drop_first();
        assert(parents[0].name != name);
        assert forall|j: int| 0 <= j < at - 1 implies (#[trigger] rest[j]).name != name by {
            assert(rest[j] == parents[j + 1]);
        }
        lemma_first_parent(rest, name, at - 1);
    }
}

/// `first_template` is the place before which no template has the name.
pub proof fn lemma_first_template(templates: Seq<TemplateView>, name: Seq<char>, at: int)
    requires
        0 <= at <= templates.len(),
        forall|j: int| 0 <= j < at ==> (#[trigger] templates[j]).name != name,
        at < templates.len() ==> templates[at].name == name,
    ensures
        first_template(templates, name) == at,
    decreases templates.len(),
{
    if templates.len() > 0 && at > 0 {
        let rest = templates.drop_first();
        assert(templates[0].name != name);
        assert forall|j: int| 0 <= j < at - 1 implies (#[trigger] rest[j]).name != name by {
            assert(rest[j] == templates[j + 1]);
        }
        lemma_first_template(rest, name, at - 1);
    }
}

/// The parents among the records of a listing: a record that could not be
/// read is passed over, the others keep their order.
pub open spec fn readable_parents(records: Seq<Option<Parent>>) -> Seq<ParentView>
    decreases records.len(),
{
    if records.len() == 0 {
        Seq::empty()
    } else {
        let before = readable_parents(records.drop_last());
        match records.last() {
            Some(parent) => before.push(parent@),
            None => before,
        }
    }
}

/// The templates among the records of a listing: a record that could not be
/// read is passed over, the others keep their order.
pub open spec fn readable_templates(records: Seq<Option<Template>>) -> Seq<TemplateView>
    decreases records.len(),
{
    if records.len() == 0 {
        Seq::empty()
    } else {
        let before = readable_templates(records.drop_last());
        match records.last() {
            Some(template) => before.push(template@),
            None => before,
        }
    }
}

/// Whether `name` is among `names`.
pub fn contains_name(names: &Vec<String>, name: &str) -> (found: bool)
    ensures
        found == texts(names@).contains(name@),
{
    let key = String::from_str(name);
    let mut i: usize = 0;
    while i < names.len()
        invariant
            i <= names.len(),
            key@ == name@,
            forall|j: int| 0 <= j < i ==> texts(names@)[j] != name@,
        decreases names.len() - i,
    {
        if names[i] == key {
            assert(texts(names@)[i as int] == name@);
            return true;
        }
        i = i + 1;
    }
    false
}

impl Catalog {
    /// A catalog without entities.
    pub fn new() -> (catalog: Catalog)
        ensures
            catalog@.parents.len() == 0,
            catalog@.templates.len() == 0,
            catalog@.maps.len() == 0,
    {
        Catalog { parents: Vec::new(), templates: Vec::new(), maps: Vec::new() }
    }

    /// The catalog of a store, from what a listing of the store found: one
    /// record for each parent directory and each template directory, `None`
    /// where the record could not be read, and the names of the files in the
    /// maps directory. Listing is best effort: a record that could not be
    /// read is passed over in silence.
    pub fn load(
        parents: &Vec<Option<Parent>>,
        templates: &Vec<Option<Template>>,
        map_files: &Vec<String>,
    ) -> (catalog: Catalog)
        ensures
            catalog@.parents == readable_parents(parents@),
            catalog@.templates == readable_templates(templates@),
            catalog@.maps == names_of_maps(texts(map_files@)),
    {
        let mut kept_parents: Vec<Parent> = Vec::new();
        let mut i: usize = 0;
        assert(parents@.take(0) =~= Seq::<Option<Parent>>::empty());
        while i < parents.len()
            invariant
                i <= parents.len(),
                parent_views(kept_parents@) == readable_parents(parents@.take(i as int)),
            decreases parents.len() - i,
        {
            proof {
                assert(parents@.take(i + 1).drop_last() =~= parents@.take(i as int));
                assert(parents@.take(i + 1).last() == parents@[i as int]);
            }
            match &parents[i] {
                Some(parent) => {
                    let ghost before = parent_views(kept_parents@);
                    kept_parents.push(parent.duplicate());
                    assert(parent_views(kept_parents@) =~= before.push(parent@));
                },
                None => {},
            }
            i = i + 1;
        }
        assert(parents@.take(parents.len() as int) =~= parents@);
        let mut kept_templates: Vec<Template> = Vec::new();
        let mut k: usize = 0;
        assert(templates@.take(0) =~= Seq::<Option<Template>>::empty());
        while k < templates.len()
            invariant
                k <= templates.len(),
                template_views(kept_templates@) == readable_templates(templates@.take(k as int)),
            decreases templates.len() - k,
        {
            proof {
                assert(templates@.take(k + 1).drop_last() =~= templates@.take(k as int));
                assert(templates@.take(k + 1).last() == templates@[k as int]);
            }
            match &templates[k] {
                Some(template) => {
                    let ghost before = template_views(kept_templates@);
                    kept_templates.push(template.duplicate());
                    assert(template_views(kept_templates@) =~= before.push(template@));
                },
                None => {},
            }
            k = k + 1;
        }
        assert(templates@.take(templates.len() as int) =~= templates@);
        Catalog { parents: kept_parents, templates: kept_templates, maps: map_names(map_files) }
    }

    /// The place of the first parent named `name`, if there is one.
    pub fn parent_index(&self, name: &str) -> (found: Option<usize>)
        ensures
            found is Some <==> self@.has_parent(name@),
            found matches Some(at) ==> at < self.parents.len() && at == first_parent(
                self@.parents,
                name@,
            ) && self@.parents[at as int].name == name@,
    {
        let key = String::from_str(name);
        let mut i: usize = 0;
        while i < self.parents.len()
            invariant
                i <= self.parents.len(),
                key@ == name@,
                forall|j: int| 0 <= j < i ==> (#[trigger] self@.parents[j]).name != name@,
            decreases self.parents.len() - i,
        {
            if self.parents[i].name == key {
                proof {
                    assert(self@.parents[i as int].name == name@);
                    lemma_first_parent(self@.parents, name@, i as int);
                }
                return Some(i);
            }
            i = i + 1;
        }
        None
    }

    /// The place of the first template named `name`, if there is one.
    pub fn template_index(&self, name: &str) -> (found: Option<usize>)
        ensures
            found is Some <==> self@.has_template(name@),
            found matches Some(at) ==> at < self.templates.len() && at == first_template(
                self@.templates,
                name@,
            ) && self@.templates[at as int].name == name@,
    {
        let key = String::from_str(name);
        let mut i: usize = 0;
        while i < self.templates.len()
            invariant
                i <= self.templates.len(),
                key@ == name@,
                forall|j: int| 0 <= j < i ==> (#[trigger] self@.templates[j]).name != name@,
            decreases self.templates.len() - i,
        {
            if self.templates[i].name == key {
                proof {
                    assert(self@.templates[i as int].name == name@);
                    lemma_first_template(self@.templates, name@, i as int);
                }
                return Some(i);
            }
            i = i + 1;
        }
        None
    }

    /// Whether a map named `name` exists.
    pub fn has_map(&self, name: &str) -> (found: bool)
        ensures
            found == self@.has_map(name@),
    {
        contains_name(&self.maps, name)
    }

    /// Whether some template builds on the parent `name`.
    pub fn parent_in_use(&self, name: &str) -> (used: bool)
        ensures
            used == self@.parent_in_use(name@),
    {
        let key = String::from_str(name);
        let mut i: usize = 0;
        while i < self.templates.len()
            invariant
                i <= self.templates.len(),
                key@ == name@,
                forall|j: int| 0 <= j < i ==> (#[trigger] self@.templates[j]).parent != name@,
            decreases self.templates.len() - i,
        {
            if self.templates[i].parent == key {
                assert(self@.templates[i as int].parent == name@);
                return true;
            }
            i = i + 1;
        }
        false
    }

    /// Whether some template references the map `name`.
    pub fn map_in_use(&self, name: &str) -> (used: bool)
        ensures
            used == self@.map_in_use(name@),
    {
        let mut i: usize = 0;
        while i < self.templates.len()
            invariant
                i <= self.templates.len(),
                forall|j: int| 0 <= j < i ==> !(#[trigger] self@.templates[j]).uses_map(name@),
            decreases self.templates.len() - i,
        {
            if contains_name(&self.templates[i].maps, name) {
                assert(self@.templates[i as int].uses_map(name@));
                return true;
            }
            i = i + 1;
        }
        false
    }

    /// Whether each of `maps` exists.
    pub fn maps_known(&self, maps: &Vec<String>) -> (known: bool)
        ensures
            known == self@.maps_known(texts(maps@)),
    {
        let mut j: usize = 0;
        while j < maps.len()
            invariant
                j <= maps.len(),
                forall|k: int| 0 <= k < j ==> self@.has_map(#[trigger] texts(maps@)[k]),
            decreases maps.len() - j,
        {
            if !self.has_map(maps[j].as_str()) {
                assert(!self@.has_map(texts(maps@)[j as int]));
                return false;
            }
            j = j + 1;
        }
        true
    }

    /// Removes the parents named `name`.
    pub fn remove_parent(&mut self, name: &str)
        ensures
            final(self)@ == old(self)@.without_parent(name@),
    {
        let key = String::from_str(name);
        let ghost keep = |parent: ParentView| parent.name != name@;
        let mut kept: Vec<Parent> = Vec::new();
        let mut i: usize = 0;
        proof {
            reveal(Seq::filter);
            assert(parent_views(self.parents@).take(0) =~= Seq::<ParentView>::empty());
        }
        while i < self.parents.len()
            invariant
                i <= self.parents.len(),
                key@ == name@,
                keep == (|parent: ParentView| parent.name != name@),
                parent_views(kept@) == parent_views(self.parents@).take(i as int).filter(keep),
            decreases self.parents.len() - i,
        {
            let ghost all = parent_views(self.parents@);
            proof {
                reveal(Seq::filter);
                assert(all.take(i + 1).drop_last() =~= all.take(i as int));
                assert(all.take(i + 1).last() == self.parents@[i as int]@);
            }
            if !(self.parents[i].name == key) {
                let ghost before = parent_views(kept@);
                kept.push(self.parents[i].duplicate());
                assert(parent_views(kept@) =~= before.push(self.parents@[i as int]@));
            }
            i = i + 1;
        }
        assert(parent_views(self.parents@).take(self.parents.len() as int) =~= parent_views(
            self.parents@,
        ));
        self.parents = kept;
    }

    /// Removes the templates named `name`.
    pub fn remove_template(&mut self, name: &str)
        ensures
            final(self)@ == old(self)@.without_template(name@),
    {
        let key = String::from_str(name);
        let ghost keep = |template: TemplateView| template.name != name@;
        let mut kept: Vec<Template> = Vec::new();
        let mut i: usize = 0;
        proof {
            reveal(Seq::filter);
            assert(template_views(self.templates@).take(0) =~= Seq::<TemplateView>::empty());
        }
        while i < self.templates.len()
            invariant
                i <= self.templates.len(),
                key@ == name@,
                keep == (|template: TemplateView| template.name != name@),
                template_views(kept@) == template_views(self.templates@).take(i as int).filter(
                    keep,
                ),
            decreases self.templates.len() - i,
        {
            let ghost all = template_views(self.templates@);
            proof {
                reveal(Seq::filter);
                assert(all.take(i + 1).drop_last() =~= all.take(i as int));
                assert(all.take(i + 1).last() == self.templates@[i as int]@);
            }
            if !(self.templates[i].name == key) {
                let ghost before = template_views(kept@);
                kept.push(self.templates[i].duplicate());
                assert(template_views(kept@) =~= before.push(self.templates@[i as int]@));
            }
            i = i + 1;
        }
        assert(template_views(self.templates@).take(self.templates.len() as int)
            =~= template_views(self.templates@));
        self.templates = kept;
    }

    /// Removes the maps named `name`.
    pub fn remove_map(&mut self, name: &str)
        ensures
            final(self)@ == old(self)@.without_map(name@),
    {
        let key = String::from_str(name);
        let ghost keep = |map: Seq<char>| map != name@;
        let mut kept: Vec<String> = Vec::new();
        let mut i: usize = 0;
        proof {
            reveal(Seq::filter);
            assert(texts(self.maps@).take(0) =~= Seq::<Seq<char>>::empty());
        }
        while i < self.maps.len()
            invariant
                i <= self.maps.len(),
                key@ == name@,
                keep == (|map: Seq<char>| map != name@),
                texts(kept@) == texts(self.maps@).take(i as int).filter(keep),
            decreases self.maps.len() - i,
        {
            let ghost all = texts(self.maps@);
            proof {
                reveal(Seq::filter);
                assert(all.take(i + 1).drop_last() =~= all.take(i as int));
                assert(all.take(i + 1).last() == self.maps@[i as int]@);
            }
            if !(self.maps[i] == key) {
                let ghost before = texts(kept@);
                kept.push(self.maps[i].clone());
                assert(texts(kept@) =~= before.push(self.maps@[i as int]@));
            }
            i = i + 1;
        }
        assert(texts(self.maps@).take(self.maps.len() as int) =~= texts(self.maps@));
        self.maps = kept;
    }

    /// The names of the maps.
    pub fn map_names(&self) -> (names: Vec<String>)
        ensures
            texts(names@) == self@.maps,
    {
        duplicate_names(&self.maps)
    }
}

} // verus!
