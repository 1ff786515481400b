//! Tagged EC2 resources: what an investigation marks, and which of those
//! resources are snapshots that a purge may delete.
use vstd::prelude::*;
use crate::text::{concat_str, owned, pad, pad_left, views};

verus! {

/// A resource found by its tags: its resource type and its id.
#[derive(Debug, Clone)]
pub struct Resource {
    pub category: String,
    pub id: String,
}

/// What a tag description holds of the resource it tags.
#[derive(Debug, Clone)]
pub struct TagDescription {
    pub resource_type: Option<String>,
    pub resource_id: Option<String>,
}

/// The type recorded when a tag description has none.
pub open spec fn missing_type_text() -> Seq<char> {
    "resource type not found"@
}

/// The id recorded when a tag description has none.
pub open spec fn missing_id_text() -> Seq<char> {
    "resource id not found"@
}

/// The view of an optional text, or `default` when it is absent.
pub open spec fn text_or(t: Option<String>, default: Seq<char>) -> Seq<char> {
    match t {
        Some(s) => s@,
        None => default,
    }
}

impl Resource {
    /// The resource is an EBS snapshot.
    pub open spec fn snapshot(self) -> bool {
        self.category@ == "snapshot"@
    }

    /// The line that lists the resource: its type right-aligned in ten
    /// characters, ` - `, and its id.
    pub open spec fn line(self) -> Seq<char> {
        pad_left(self.category@, 10) + " - "@ + self.id@
    }

    /// The resource described by a tag description; a missing type or id is
    /// replaced by a fixed text.
    pub fn from_tag_description(tag: &TagDescription) -> (r: Resource)
        ensures
            r.category@ == text_or(tag.resource_type, missing_type_text()),
            r.id@ == text_or(tag.resource_id, missing_id_text()),
    {
        let category = match &tag.resource_type {
            Some(t) => t.clone(),
            None => owned("resource type not found"),
        };
        let id = match &tag.resource_id {
            Some(i) => i.clone(),
            None => owned("resource id not found"),
        };
        Resource { category, id }
    }

    /// A purge deletes this resource (rather than only untagging it).
    pub fn is_deletable(&self) -> (r: bool)
        ensures
            r == self.snapshot(),
    {
        self.is_snapshot()
    }

    /// The resource is a snapshot.
    pub fn is_snapshot(&self) -> (r: bool)
        ensures
            r == self.snapshot(),
    {
        let snapshot = owned("snapshot");
        self.category == snapshot
    }

    /// The line that lists the resource.
    pub fn to_line(&self) -> (r: String)
        ensures
            r@ == self.line(),
    {
        let mut r = pad(self.category.as_str(), 10);
        r.append(" - ");
        r.append(self.id.as_str());
        r
    }

    /// An equal copy of the resource.
    pub fn copied(&self) -> (r: Resource)
        ensures
            r == *self,
    {
        Resource { category: self.category.clone(), id: self.id.clone() }
    }
}

/// The resources of `s`, in order, whose being a snapshot equals `snapshots`.
pub open spec fn keep(s: Seq<Resource>, snapshots: bool) -> Seq<Resource>
    decreases s.len(),
{
    if s.len() == 0 {
        Seq::empty()
    } else {
        let rest = keep(s.drop_last(), snapshots);
        if s.last().snapshot() == snapshots {
            rest.push(s.last())
        } else {
            rest
        }
    }
}

/// The ids of the resources, in order.
pub open spec fn ids(s: Seq<Resource>) -> Seq<Seq<char>> {
    s.map_values(|r: Resource| r.id@)
}

/// `r` is the resource that `tag` describes.
pub open spec fn describes(tag: TagDescription, r: Resource) -> bool {
    &&& r.category@ == text_or(tag.resource_type, missing_type_text())
    &&& r.id@ == text_or(tag.resource_id, missing_id_text())
}

/// The resources that the tag descriptions of a `DescribeTags` answer
/// describe, one for each description, in order (none when the answer
/// holds no list).
pub fn resources_from_tags(tags: &Option<Vec<TagDescription>>) -> (r: Vec<Resource>)
    ensures
        match tags {
            None => r@.len() == 0,
            Some(t) => r@.len() == t@.len() && forall|i: int|
                0 <= i < t@.len() ==> describes(#[trigger] t@[i], r@[i]),
        },
{
    let mut r: Vec<Resource> = Vec::new();
    match tags {
        None => {},
        Some(t) => {
            let mut i: usize = 0;
            while i < t.len()
                invariant
                    i <= t.len(),
                    r@.len() == i,
                    forall|k: int| 0 <= k < i ==> describes(#[trigger] t@[k], r@[k]),
                decreases t.len() - i,
            {
                r.push(Resource::from_tag_description(&t[i]));
                i = i + 1;
            }
        },
    }
    r
}

/// The filter name that selects resources by the tag `key`.
pub fn tag_filter_name(key: &str) -> (r: String)
    ensures
        r@ == "tag:"@ + key@,
{
    concat_str("tag:", key)
}

/// The resources that `select` keeps.
pub fn select(resources: &Vec<Resource>, snapshots: bool) -> (r: Vec<Resource>)
    ensures
        r@ == keep(resources@, snapshots),
{
    let mut r: Vec<Resource> = Vec::new();
    let mut i: usize = 0;
    while i < resources.len()
        invariant
            i <= resources.len(),
            r@ == keep(resources@.take(i as int), snapshots),
        decreases resources.len() - i,
    {
        assert(resources@.take(i + 1).drop_last() =~= resources@.take(i as int));
        if resources[i].is_snapshot() == snapshots {
            r.push(resources[i].copied());
        }
        i = i + 1;
    }
    assert(resources@.take(resources.len() as int) =~= resources@);
    r
}

/// The ids of the resources, in order.
pub fn resource_ids(resources: &Vec<Resource>) -> (r: Vec<String>)
    ensures
        views(r@) == ids(resources@),
{
    let mut r: Vec<String> = Vec::new();
    let mut i: usize = 0;
    while i < resources.len()
        invariant
            i <= resources.len(),
            r@.len() == i,
            forall|k: int| 0 <= k < i ==> #[trigger] r@[k]@ == resources@[k].id@,
        decreases resources.len() - i,
    {
        let id = resources[i].id.clone();
        r.push(id);
        i = i + 1;
    }
    assert(views(r@) =~= ids(resources@));
    r
}

} // verus!
