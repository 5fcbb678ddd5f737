//! A collection of components, and the lookup over it.

use vstd::prelude::*;
use crate::model::{AppId, CollectionView, Component};
use crate::text::joined;

verus! {

/// The components that one repository distributes, with what they share.
#[derive(Clone, Debug, PartialEq)]
pub struct Collection {
    /// The version of the format that the components follow.
    pub version: String,
    /// The repository that the collection came from.
    pub origin: Option<String>,
    /// The address that relative media addresses are appended to.
    pub media_base_url: Option<String>,
    /// The components, in document order.
    pub components: Vec<Component>,
    /// The processor architecture that the collection is for.
    pub architecture: Option<String>,
}

impl DeepView for Collection {
    type V = CollectionView;

    open spec fn deep_view(&self) -> CollectionView {
        CollectionView {
            version: self.version@,
            origin: self.origin.deep_view(),
            media_base_url: self.media_base_url.deep_view(),
            architecture: self.architecture.deep_view(),
            components: self.components.deep_view(),
        }
    }
}

/// The suffix under which older metadata repeats an identifier.
pub open spec fn legacy_suffix() -> Seq<char> {
    ".desktop"@
}

/// Whether a component identified by `own` answers a lookup for `wanted`:
/// it has that identifier, or that identifier with the legacy suffix.
pub open spec fn answers_to(own: Seq<char>, wanted: Seq<char>) -> bool {
    own == wanted || own == wanted + legacy_suffix()
}

impl Collection {
    /// The components that answer a lookup for `id`, in document order.
    pub open spec fn matching(&self, id: Seq<char>) -> Seq<Component> {
        self.components@.filter(|c: Component| answers_to(c.id.deep_view(), id))
    }

    /// Every component whose identifier is `id`, or `id` followed by
    /// `.desktop`, in document order; each is borrowed from this collection.
    pub fn find_by_id(&self, id: AppId) -> (found: Vec<&Component>)
        ensures
            found@.map_values(|c: &Component| *c) == self.matching(id.deep_view()),
    {
        let alternative = joined(id.as_str(), ".desktop");
        let ghost wanted = id.deep_view();
        let ghost pred = |c: Component| answers_to(c.id.deep_view(), wanted);
        let mut found: Vec<&Component> = Vec::new();
        let mut i: usize = 0;
        proof {
            reveal(Seq::filter);
            assert(self.components@.take(0) =~= Seq::<Component>::empty());
            assert(found@.map_values(|c: &Component| *c) =~= Seq::<Component>::empty());
        }
        while i < self.components.len()
            invariant
                i <= self.components.len(),
                wanted == id.deep_view(),
                alternative@ == wanted + legacy_suffix(),
                pred == (|c: Component| answers_to(c.id.deep_view(), wanted)),
                found@.map_values(|c: &Component| *c) == self.components@.take(i as int).filter(pred),
            decreases self.components.len() - i,
        {
            let component = &self.components[i];
            let ghost before = found@.map_values(|c: &Component| *c);
            proof {
                reveal(Seq::filter);
                let upto = self.components@.take(i + 1);
                assert(upto.drop_last() =~= self.components@.take(i as int));
                assert(upto.last() == *component);
            }
            if component.id.0 == id.0 || component.id.0 == alternative {
                found.push(component);
                assert(found@.map_values(|c: &Component| *c) =~= before.push(*component));
            }
            i = i + 1;
        }
        assert(self.components@.take(i as int) =~= self.components@);
        found
    }
}

} // verus!
