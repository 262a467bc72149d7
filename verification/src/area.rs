//! Stable logical addresses of drawn elements, and the dirty-set discipline
//! used by the redraw scheduler.
//!
//! An [`Area`] is a weak reference: a `view_id` is only a lookup key into the
//! context's view arena, so holders must expect it to dangle and the context
//! rewrites live references in place when storage relocates.

use vstd::prelude::*;

verus! {

/// Address of a view.
#[derive(Clone, Copy, PartialEq, Eq, Structural, Debug)]
pub struct ViewArea {
    pub view_id: usize,
}

/// Address of a contiguous range of drawn instances inside a view.
#[derive(Clone, Copy, PartialEq, Eq, Structural, Debug)]
pub struct InstanceArea {
    pub view_id: usize,
    pub instance_offset: usize,
    pub instance_count: usize,
}

/// A stable logical address: nothing, everything, a view, or an instance
/// range. Identity is purely structural.
#[derive(Clone, Copy, PartialEq, Eq, Structural, Debug)]
pub enum Area {
    Empty,
    All,
    View(ViewArea),
    Instance(InstanceArea),
}

impl Area {
    /// The view a non-sentinel area points into, if any.
    pub open spec fn spec_view_id(self) -> Option<usize> {
        match self {
            Area::Empty => Option::None,
            Area::All => Option::None,
            Area::View(va) => Option::Some(va.view_id),
            Area::Instance(ia) => Option::Some(ia.view_id),
        }
    }

    pub fn view(view_id: usize) -> (r: Area)
        ensures
            r == Area::View(ViewArea { view_id }),
    {
        Area::View(ViewArea { view_id })
    }
}

/// The dirty-set insertion discipline: marking `All` collapses the set to the
/// single sentinel, a set already collapsed to `All` absorbs everything, and
/// other areas are appended only if not already present.
pub open spec fn dirty_insert(s: Seq<Area>, area: Area) -> Seq<Area> {
    if area == Area::All {
        seq![Area::All]
    } else if s.len() == 1 && s[0] == Area::All {
        s
    } else if s.contains(area) {
        s
    } else {
        s.push(area)
    }
}

/// The invariant every dirty set maintains: the `All` sentinel is alone when
/// present, and membership is deduplicated.
pub open spec fn dirty_set_inv(s: Seq<Area>) -> bool {
    &&& s.contains(Area::All) ==> s == seq![Area::All]
    &&& forall|i: int, j: int| 0 <= i < j < s.len() ==> s[i] != s[j]
}

/// Law: once `Area::All` is in a dirty set, the set has exactly the one
/// sentinel element, and any further insertion leaves it unchanged until the
/// set is cleared.
pub proof fn lemma_dirty_all_absorbs(s: Seq<Area>, area: Area)
    ensures
        dirty_insert(s, Area::All) == seq![Area::All],
        dirty_insert(seq![Area::All], area) == seq![Area::All],
{
    if area != Area::All {
        let one: Seq<Area> = seq![Area::All];
        assert(one.len() == 1 && one[0] == Area::All);
    }
}

/// Law: insertion preserves the dirty-set invariant, so every sequence of
/// marking calls starting from the empty set keeps the set collapsed and
/// deduplicated.
pub proof fn lemma_dirty_insert_preserves_inv(s: Seq<Area>, area: Area)
    requires
        dirty_set_inv(s),
    ensures
        dirty_set_inv(dirty_insert(s, area)),
{
    let r = dirty_insert(s, area);
    if area == Area::All {
        assert(r == seq![Area::All]);
        assert(r.contains(Area::All) ==> r == seq![Area::All]);
    } else if s.len() == 1 && s[0] == Area::All {
    } else if s.contains(area) {
    } else {
        assert(r == s.push(area));
        if r.contains(Area::All) {
            let i = choose|i: int| 0 <= i < r.len() && r[i] == Area::All;
            if i < s.len() {
                assert(s.contains(Area::All));
                assert(false);
            } else {
                assert(area == Area::All);
                assert(false);
            }
        }
        assert forall|i: int, j: int| 0 <= i < j < r.len() implies r[i] != r[j] by {
            if j == s.len() {
                assert(r[j] == area);
                assert(!s.contains(area));
                assert(s[i] != area);
            }
        }
    }
}

/// Law: the empty dirty set satisfies the invariant.
pub proof fn lemma_dirty_empty_inv()
    ensures
        dirty_set_inv(Seq::<Area>::empty()),
{
}

} // verus!
