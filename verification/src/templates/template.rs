//! The template record.
use vstd::prelude::*;
use crate::parents::parent::Type;
use crate::templates::resources::Resources;

verus! {

/// One label of a template: its key and its value, the value as the text of
/// a document of any shape.
#[derive(Debug)]
pub struct Label {
    pub key: String,
    pub value: String,
}

/// What a label is in a sequence of labels: its key and its value.
pub open spec fn label_views(labels: Seq<Label>) -> Seq<(Seq<char>, Seq<char>)> {
    labels.map_values(|label: Label| (label.key@, label.value@))
}

/// Whether no key occurs twice.
pub open spec fn distinct_keys(labels: Seq<(Seq<char>, Seq<char>)>) -> bool {
    forall|i: int, j: int| 0 <= i < j < labels.len() ==> labels[i].0 != labels[j].0
}

/// The labels of a template: a mapping from key to value, kept in the
/// order in which the keys first came. No key occurs twice.
#[derive(Debug)]
pub struct Labels {
    entries: Vec<Label>,
}

impl View for Labels {
    type V = Seq<(Seq<char>, Seq<char>)>;

    closed spec fn view(&self) -> Seq<(Seq<char>, Seq<char>)> {
        label_views(self.entries@)
    }
}

impl Labels {
    #[verifier::type_invariant]
    spec fn keys_are_distinct(&self) -> bool {
        distinct_keys(label_views(self.entries@))
    }

    /// No labels.
    pub fn new() -> (labels: Labels)
        ensures
            labels@ == Seq::<(Seq<char>, Seq<char>)>::empty(),
    {
        let labels = Labels { entries: Vec::new() };
        assert(labels@ =~= Seq::<(Seq<char>, Seq<char>)>::empty());
        labels
    }

    /// How many labels there are. No key occurs twice among them.
    pub fn len(&self) -> (count: usize)
        ensures
            count == self@.len(),
            distinct_keys(self@),
    {
        proof {
            use_type_invariant(self);
        }
        self.entries.len()
    }

    /// Gives `key` the value `value`: a key that is there keeps its place
    /// and gets the new value, a key that is not there comes last.
    pub fn insert(&mut self, key: String, value: String)
        ensures
            forall|at: int|
                0 <= at < old(self)@.len() && (#[trigger] old(self)@[at]).0 == key@
                    ==> final(self)@ == old(self)@.update(at, (key@, value@)),
            (forall|at: int| 0 <= at < old(self)@.len() ==> (#[trigger] old(self)@[at]).0 != key@)
                ==> final(self)@ == old(self)@.push((key@, value@)),
            distinct_keys(final(self)@),
    {
        let mut entries = self.pairs();
        let ghost before = label_views(entries@);
        let mut i: usize = 0;
        while i < entries.len()
            invariant
                i <= entries.len(),
                before == label_views(entries@),
                before == old(self)@,
                distinct_keys(before),
                forall|j: int| 0 <= j < i ==> (#[trigger] before[j]).0 != key@,
            decreases entries.len() - i,
        {
            if entries[i].key == key {
                let ghost stays = key@;
                let ghost becomes = value@;
                entries.set(i, Label { key, value });
                proof {
                    assert(label_views(entries@) =~= before.update(i as int, (stays, becomes)));
                    assert(before[i as int].0 == stays);
                    assert forall|at: int|
                        0 <= at < before.len() && (#[trigger] before[at]).0 == stays implies at
                        == i by {
                        if at < i {
                            assert(before[at].0 != before[i as int].0);
                        } else if at > i {
                            assert(before[i as int].0 != before[at].0);
                        }
                    }
                }
                self.entries = entries;
                assert(old(self)@[i as int].0 == stays);
                assert(self@ == before.update(i as int, (stays, becomes)));
                return ;
            }
            i = i + 1;
        }
        let ghost comes = (key@, value@);
        entries.push(Label { key, value });
        assert(label_views(entries@) =~= before.push(comes));
        self.entries = entries;
    }

    /// The labels, each with its key and its value, in their order. No key
    /// occurs twice among them.
    pub fn pairs(&self) -> (pairs: Vec<Label>)
        ensures
            label_views(pairs@) == self@,
            distinct_keys(self@),
    {
        proof {
            use_type_invariant(self);
        }
        let mut pairs: Vec<Label> = Vec::new();
        let mut i: usize = 0;
        while i < self.entries.len()
            invariant
                i <= self.entries.len(),
                pairs@ == self.entries@.take(i as int),
            decreases self.entries.len() - i,
        {
            let label = &self.entries[i];
            pairs.push(Label { key: label.key.clone(), value: label.value.clone() });
            assert(pairs@ =~= self.entries@.take(i + 1));
            i = i + 1;
        }
        assert(self.entries@.take(self.entries.len() as int) =~= self.entries@);
        pairs
    }

    /// A copy of these labels.
    pub fn duplicate(&self) -> (copy: Labels)
        ensures
            copy@ == self@,
    {
        let entries = self.pairs();
        Labels { entries }
    }
}

/// A named configuration that overlays one parent and may reference maps.
///
/// `t` is the kind of the parent. It is not part of the stored record: it is
/// filled in when a template is read.
#[derive(Debug)]
pub struct Template {
    pub name: String,
    pub parent: String,
    pub t: Option<Type>,
    pub slots: u16,
    pub resources: Resources,
    pub labels: Labels,
    pub maps: Vec<String>,
    pub default_map: String,
}

/// What a template record says, as plain mathematical values.
pub struct TemplateView {
    pub name: Seq<char>,
    pub parent: Seq<char>,
    pub t: Option<Type>,
    pub slots: u16,
    pub resources: Resources,
    pub labels: Seq<(Seq<char>, Seq<char>)>,
    pub maps: Seq<Seq<char>>,
    pub default_map: Seq<char>,
}

/// The texts of a sequence of strings.
pub open spec fn texts(names: Seq<String>) -> Seq<Seq<char>> {
    names.map_values(|name: String| name@)
}

impl View for Template {
    type V = TemplateView;

    open spec fn view(&self) -> TemplateView {
        TemplateView {
            name: self.name@,
            parent: self.parent@,
            t: self.t,
            slots: self.slots,
            resources: self.resources,
            labels: self.labels@,
            maps: texts(self.maps@),
            default_map: self.default_map@,
        }
    }
}

impl TemplateView {
    /// This record with its kind replaced.
    pub open spec fn with_kind(self, kind: Option<Type>) -> TemplateView {
        TemplateView { t: kind, ..self }
    }

    /// Whether this record references the map `name`.
    pub open spec fn uses_map(self, name: Seq<char>) -> bool {
        self.maps.contains(name)
    }
}

/// A copy of a list of strings.
pub fn duplicate_names(names: &Vec<String>) -> (copy: Vec<String>)
    ensures
        copy@ == names@,
{
    let mut copy: Vec<String> = Vec::new();
    let mut i: usize = 0;
    while i < names.len()
        invariant
            i <= names.len(),
            copy@ == names@.take(i as int),
        decreases names.len() - i,
    {
        copy.push(names[i].clone());
        assert(copy@ =~= names@.take(i + 1));
        i = i + 1;
    }
    assert(names@.take(names.len() as int) =~= names@);
    copy
}

impl Template {
    /// A copy of this record.
    pub fn duplicate(&self) -> (copy: Template)
        ensures
            copy@ == self@,
    {
        Template {
            name: self.name.clone(),
            parent: self.parent.clone(),
            t: self.t,
            slots: self.slots,
            resources: self.resources,
            labels: self.labels.duplicate(),
            maps: duplicate_names(&self.maps),
            default_map: self.default_map.clone(),
        }
    }
}

} // verus!
