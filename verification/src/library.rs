//! The component registry: an identifier-keyed catalog of component
//! metadata and prototypes, supporting listing, instantiation and
//! merging.

use vstd::prelude::*;

verus! {

use std::sync::Arc;
use vstd::string::StringExecFns;
use crate::component::{AnyComponent, AnyComponentV, CloneComponent, Component, ComponentInfo,
    ComponentInfoV, Orientation};
use crate::strmap::StrMap;

/// Mathematical content of a catalog entry's metadata.
#[verifier::ext_equal]
pub struct ComponentMetadataV {
    pub id: Seq<char>,
    pub name: Seq<char>,
    pub category: Seq<char>,
    pub description: Seq<char>,
}

/// The static catalog description of a registered component type:
/// created once at registration, immutable, and shared read-only by
/// every placement created from that entry.
#[derive(Debug, Clone, PartialEq, Eq)]
pub struct ComponentMetadata {
    pub id: String,
    pub name: String,
    pub category: String,
    pub description: String,
}

impl View for ComponentMetadata {
    type V = ComponentMetadataV;

    open spec fn view(&self) -> ComponentMetadataV {
        ComponentMetadataV {
            id: self.id@,
            name: self.name@,
            category: self.category@,
            description: self.description@,
        }
    }
}

impl ComponentMetadata {
    pub fn new(id: &str, name: &str, category: &str, description: &str) -> (r: Self)
        ensures
            r@ == (ComponentMetadataV {
                id: id@,
                name: name@,
                category: category@,
                description: description@,
            }),
    {
        ComponentMetadata {
            id: id.to_owned(),
            name: name.to_owned(),
            category: category.to_owned(),
            description: description.to_owned(),
        }
    }
}

/// Mathematical content of a registry entry.
#[verifier::ext_equal]
pub struct ComponentEntryV {
    pub metadata: ComponentMetadataV,
    pub proto: AnyComponentV,
}

/// One registry entry: shared metadata, and a prototype component that
/// every `create` call duplicates into a fresh, independent instance.
pub struct ComponentEntry {
    metadata: Arc<ComponentMetadata>,
    proto: AnyComponent,
}

impl View for ComponentEntry {
    type V = ComponentEntryV;

    closed spec fn view(&self) -> ComponentEntryV {
        ComponentEntryV { metadata: self.metadata@, proto: self.proto@ }
    }
}

/// A registry lookup miss: no component type is registered under the
/// requested id.
#[derive(Debug, Clone, PartialEq, Eq)]
pub struct MissingComponentError {
    pub id: String,
}

/// The human-readable account of a lookup miss.
pub open spec fn missing_component_message(id: Seq<char>) -> Seq<char> {
    "Missing component with id `"@ + id + "`"@
}

impl MissingComponentError {
    /// The error spelled out for a user.
    pub fn message(&self) -> (r: String)
        ensures
            r@ == missing_component_message(self.id@),
    {
        let r = "Missing component with id `".to_owned().concat(self.id.as_str()).concat("`");
        proof {
            assert(r@ =~= missing_component_message(self.id@));
        }
        r
    }
}

/// An identifier-keyed table of component types; ids are unique, and
/// the catalog lists entries in id-sorted order.
pub struct Library {
    components: StrMap<ComponentEntry>,
}

impl View for Library {
    type V = Map<Seq<char>, ComponentEntryV>;

    closed spec fn view(&self) -> Map<Seq<char>, ComponentEntryV> {
        self.components@
    }
}

impl Library {
    /// Every registered prototype satisfies its component invariant,
    /// and the underlying table is sorted.
    pub closed spec fn wf(&self) -> bool {
        &&& self.components.wf()
        &&& forall|k: Seq<char>|
            #[trigger] self@.contains_key(k) ==> AnyComponent::inv(self@[k].proto)
    }

    /// The metadata of every entry, in id-sorted order.
    pub closed spec fn catalog(&self) -> Seq<ComponentMetadataV> {
        self.components.model().map(|i: int, e: (Seq<char>, ComponentEntryV)| e.1.metadata)
    }

    pub fn new() -> (r: Self)
        ensures
            r.wf(),
            r@ == Map::<Seq<char>, ComponentEntryV>::empty(),
    {
        Library { components: StrMap::new() }
    }

    /// Register one component type under its metadata's id; an entry
    /// already under that id is replaced.
    pub fn add(&mut self, metadata: ComponentMetadata, proto: AnyComponent)
        requires
            old(self).wf(),
            AnyComponent::inv(proto@),
        ensures
            final(self).wf(),
            final(self)@ == old(self)@.insert(
                metadata.id@,
                ComponentEntryV { metadata: metadata@, proto: proto@ },
            ),
    {
        let id = metadata.id.clone();
        let entry = ComponentEntry { metadata: Arc::new(metadata), proto };
        self.components.insert(id, entry);
    }

    /// The metadata of every registered entry, in id-sorted order.
    pub fn list(&self) -> (r: Vec<Arc<ComponentMetadata>>)
        requires
            self.wf(),
        ensures
            r@.len() == self.catalog().len(),
            forall|i: int| 0 <= i < r@.len() ==> (#[trigger] r@[i])@ == self.catalog()[i],
    {
        let mut r: Vec<Arc<ComponentMetadata>> = Vec::new();
        let n = self.components.len();
        let mut i: usize = 0;
        while i < n
            invariant
                n == self.components.model().len(),
                n == self.catalog().len(),
                0 <= i <= n,
                r@.len() == i,
                forall|j: int| 0 <= j < i ==> (#[trigger] r@[j])@ == self.catalog()[j],
            decreases n - i,
        {
            let entry = self.components.entry_at(i);
            r.push(entry.1.metadata.clone());
            i += 1;
        }
        r
    }

    /// Instantiate the component type registered under `id`: duplicate
    /// the entry's prototype into a fresh placement at the origin,
    /// facing north, sharing the entry's metadata.
    pub fn create(&self, id: &str) -> (r: Result<ComponentInfo, MissingComponentError>)
        requires
            self.wf(),
        ensures
            r is Ok <==> self@.contains_key(id@),
            r matches Ok(ci) ==> ci.wf() && ci@ == (ComponentInfoV {
                component: self@[id@].proto,
                orientation: Orientation::North,
                x: 0,
                y: 0,
                metadata: self@[id@].metadata,
            }),
            r matches Err(e) ==> e.id@ == id@,
    {
        match self.components.get(id) {
            Some(entry) => {
                let fresh = entry.proto.clone_component();
                let meta = entry.metadata.clone();
                Ok(ComponentInfo::new(fresh, meta))
            },
            None => Err(MissingComponentError { id: id.to_owned() }),
        }
    }

    /// Merge another registry's entries into this one; on an id
    /// collision, the incoming entry wins.
    pub fn extend(&mut self, other: Library)
        requires
            old(self).wf(),
            other.wf(),
        ensures
            final(self).wf(),
            final(self)@ == old(self)@.union_prefer_right(other@),
    {
        let ghost a = self@;
        let ghost b = other@;
        self.components.extend(other.components);
        proof {
            assert forall|k: Seq<char>| #[trigger] self@.contains_key(k) implies AnyComponent::inv(
                self@[k].proto,
            ) by {
                if b.contains_key(k) {
                    assert(self@[k] == b[k]);
                } else {
                    assert(self@[k] == a[k]);
                }
            }
        }
    }

    /// Law: after `a.extend(b)`, an id that `b` registers maps to `b`'s
    /// entry, whatever `a` registered under it before.
    pub proof fn lemma_extend_overrides(
        a: Map<Seq<char>, ComponentEntryV>,
        b: Map<Seq<char>, ComponentEntryV>,
        k: Seq<char>,
    )
        requires
            b.contains_key(k),
        ensures
            a.union_prefer_right(b).contains_key(k),
            a.union_prefer_right(b)[k] == b[k],
    {
    }
}

} // verus!
