//! The layout kinds of a grid view, as callers see them and as they are
//! persisted, and the mapping between the two.
use vstd::prelude::*;

verus! {

/// How a grid view is presented.
#[derive(Debug, Clone, Copy, PartialEq, Eq, Structural)]
pub enum GridLayout {
    Table,
    Board,
}

/// The layout kind as the persistence layer stores it. It is versioned apart
/// from [`GridLayout`] and has the same variants.
#[derive(Debug, Clone, Copy, PartialEq, Eq, Structural)]
pub enum LayoutRevision {
    Table,
    Board,
}

/// The persisted form of a layout.
pub open spec fn to_persisted(layout: GridLayout) -> LayoutRevision {
    match layout {
        GridLayout::Table => LayoutRevision::Table,
        GridLayout::Board => LayoutRevision::Board,
    }
}

/// The layout that a persisted form stands for.
pub open spec fn from_persisted(rev: LayoutRevision) -> GridLayout {
    match rev {
        LayoutRevision::Table => GridLayout::Table,
        LayoutRevision::Board => GridLayout::Board,
    }
}

impl Default for GridLayout {
    fn default() -> (r: GridLayout)
        ensures
            r == GridLayout::Table,
    {
        GridLayout::Table
    }
}

impl From<LayoutRevision> for GridLayout {
    fn from(rev: LayoutRevision) -> (r: GridLayout)
        ensures
            r == from_persisted(rev),
    {
        match rev {
            LayoutRevision::Table => GridLayout::Table,
            LayoutRevision::Board => GridLayout::Board,
        }
    }
}

impl vstd::std_specs::convert::FromSpecImpl<LayoutRevision> for GridLayout {
    open spec fn obeys_from_spec() -> bool {
        true
    }

    open spec fn from_spec(rev: LayoutRevision) -> GridLayout {
        from_persisted(rev)
    }
}

impl From<GridLayout> for LayoutRevision {
    fn from(layout: GridLayout) -> (r: LayoutRevision)
        ensures
            r == to_persisted(layout),
    {
        match layout {
            GridLayout::Table => LayoutRevision::Table,
            GridLayout::Board => LayoutRevision::Board,
        }
    }
}

impl vstd::std_specs::convert::FromSpecImpl<GridLayout> for LayoutRevision {
    open spec fn obeys_from_spec() -> bool {
        true
    }

    open spec fn from_spec(layout: GridLayout) -> LayoutRevision {
        to_persisted(layout)
    }
}

/// Every layout kind, in declaration order.
pub open spec fn layout_kinds() -> Seq<GridLayout> {
    seq![GridLayout::Table, GridLayout::Board]
}

/// One entry of the list of layouts that a view offers.
#[derive(Debug, Clone, Default, PartialEq, Eq, Structural)]
pub struct GridLayoutPB {
    ty: GridLayout,
}

impl View for GridLayoutPB {
    type V = GridLayout;

    closed spec fn view(&self) -> GridLayout {
        self.ty
    }
}

impl GridLayoutPB {
    /// One entry for each layout kind, in declaration order, freshly built.
    pub fn all() -> (r: Vec<GridLayoutPB>)
        ensures
            r@.len() == layout_kinds().len(),
            forall|i: int| 0 <= i < r@.len() ==> #[trigger] r@[i]@ == layout_kinds()[i],
    {
        let mut layouts: Vec<GridLayoutPB> = Vec::new();
        layouts.push(GridLayoutPB { ty: GridLayout::Table });
        layouts.push(GridLayoutPB { ty: GridLayout::Board });
        layouts
    }

    /// The layout kind of this entry.
    pub fn ty(&self) -> (r: GridLayout)
        ensures
            r == self@,
    {
        self.ty
    }
}

/// Mapping a layout to its persisted form and back gives the layout again,
/// and the same holds the other way round.
pub proof fn lemma_layout_round_trip(layout: GridLayout, rev: LayoutRevision)
    ensures
        from_persisted(to_persisted(layout)) == layout,
        to_persisted(from_persisted(rev)) == rev,
{
}

} // verus!
