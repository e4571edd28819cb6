use ratatui::style::Style;
use ratatui::widgets::Block;
use vstd::prelude::*;

use super::ranged::RangedWrapping;
use super::render_types::default_style;
use crate::text::{seq_lt, str_less, views};

verus! {

broadcast use vstd::seq_lib::to_multiset_insert;

/// The names of a list are ordered, each name not after the next.
pub open spec fn sorted_names(s: Seq<Seq<char>>) -> bool {
    forall|i: int, j: int| 0 <= i < j < s.len() ==> !seq_lt(#[trigger] s[j], #[trigger] s[i])
}

/// `Dropdown` is a drop down menu: its entries, kept in order, and how it
/// is drawn.
pub struct Dropdown<'a> {
    /// the entries of the menu, in order
    entries: Vec<String>,
    /// the block drawn around the menu, if any
    block: Option<Block<'a>>,
    /// the style of the menu
    style: Style,
}

impl<'a> Dropdown<'a> {
    /// The entries of the menu, in order.
    pub closed spec fn entries(&self) -> Seq<Seq<char>> {
        views(self.entries@)
    }

    /// The entries are kept in order.
    pub closed spec fn wf(&self) -> bool {
        sorted_names(views(self.entries@))
    }

    /// The block drawn around the menu, if any.
    pub closed spec fn spec_block(&self) -> Option<Block<'a>> {
        self.block
    }

    /// The style of the menu.
    pub closed spec fn spec_style(&self) -> Style {
        self.style
    }

    /// `new` is a menu with no entry and no block.
    pub fn new() -> (d: Dropdown<'a>)
        ensures
            d.wf(),
            d.entries() == Seq::<Seq<char>>::empty(),
            d.spec_block() is None,
    {
        let d = Dropdown { entries: Vec::new(), block: None, style: default_style() };
        assert(views(d.entries@) =~= Seq::<Seq<char>>::empty());
        d
    }

    /// `add_entry` adds an entry to the menu, which stays in order.
    pub fn add_entry(&mut self, entry: String)
        requires
            old(self).wf(),
        ensures
            final(self).wf(),
            sorted_names(final(self).entries()),
            final(self).entries().to_multiset() == old(self).entries().to_multiset().insert(entry@),
            final(self).entries().len() == old(self).entries().len() + 1,
            final(self).spec_block() == old(self).spec_block(),
            final(self).spec_style() == old(self).spec_style(),
    {
        let ghost old_entries = self.entries@;
        let p = insert_sorted(&mut self.entries, entry);
        proof {
            assert(views(self.entries@) =~= views(old_entries).insert(p as int, entry@));
        }
    }

    /// `add_entries` adds entries to the menu, which stays in order.
    pub fn add_entries(&mut self, entries: Vec<String>)
        requires
            old(self).wf(),
        ensures
            final(self).wf(),
            sorted_names(final(self).entries()),
            final(self).entries().to_multiset() == old(self).entries().to_multiset().add(views(entries@).to_multiset()),
            final(self).spec_block() == old(self).spec_block(),
            final(self).spec_style() == old(self).spec_style(),
    {
        let ghost start = self.entries();
        let mut i: usize = 0;
        proof {
            broadcast use vstd::multiset::group_multiset_axioms;
            assert(views(entries@).take(0) =~= Seq::<Seq<char>>::empty());
            broadcast use vstd::seq_lib::group_to_multiset_ensures;
            assert(views(entries@).take(0).to_multiset().len() == 0);
            assert(views(entries@).take(0).to_multiset() =~= vstd::multiset::Multiset::empty());
            assert(start.to_multiset().add(views(entries@).take(0).to_multiset()) =~= start.to_multiset());
        }
        while i < entries.len()
            invariant
                i <= entries.len(),
                self.wf(),
                self.entries().to_multiset() == start.to_multiset().add(views(entries@).take(i as int).to_multiset()),
                self.spec_block() == old(self).spec_block(),
                self.spec_style() == old(self).spec_style(),
                start == old(self).entries(),
            decreases entries.len() - i,
        {
            self.add_entry(entries[i].clone());
            proof {
                assert(views(entries@).take(i as int + 1) =~= views(entries@).take(i as int).push(entries@[i as int]@));
                vstd::seq_lib::to_multiset_build(views(entries@).take(i as int), entries@[i as int]@);
                broadcast use vstd::multiset::group_multiset_axioms;
                assert(start.to_multiset().add(views(entries@).take(i as int).to_multiset().insert(entries@[i as int]@))
                    =~= start.to_multiset().add(views(entries@).take(i as int).to_multiset()).insert(entries@[i as int]@));
            }
            i += 1;
        }
        assert(views(entries@).take(i as int) =~= views(entries@));
    }

    /// `len` is the number of entries.
    pub fn len(&self) -> (n: usize)
        ensures
            n == self.entries().len(),
    {
        self.entries.len()
    }

    /// `is_empty` decides whether the menu has no entry.
    pub fn is_empty(&self) -> (b: bool)
        ensures
            b == (self.entries().len() == 0),
    {
        self.entries.len() == 0
    }

    /// `block` sets the block drawn around the menu.
    pub fn block(&mut self, block: Block<'a>)
        ensures
            final(self).spec_block() == Some(block),
            final(self).entries() == old(self).entries(),
            final(self).wf() == old(self).wf(),
    {
        self.block = Some(block);
    }

    /// `style` sets the style of the menu.
    pub fn style(&mut self, style: Style)
        ensures
            final(self).spec_style() == style,
            final(self).spec_block() == old(self).spec_block(),
            final(self).entries() == old(self).entries(),
            final(self).wf() == old(self).wf(),
    {
        self.style = style;
    }

    /// `entry` is the entry at position `i`.
    pub fn entry(&self, i: usize) -> (s: &String)
        requires
            i < self.entries().len(),
        ensures
            s@ == self.entries()[i as int],
    {
        &self.entries[i]
    }
}

/// Inserts `e` into the ordered list after the names that do not sort after
/// it, and returns where.
fn insert_sorted(v: &mut Vec<String>, e: String) -> (p: usize)
    requires
        sorted_names(views(old(v)@)),
    ensures
        p <= old(v)@.len(),
        final(v)@ == old(v)@.insert(p as int, e),
        sorted_names(views(final(v)@)),
{
    let mut p: usize = 0;
    loop
        invariant
            p <= v.len(),
            v@ == old(v)@,
            forall|i: int| 0 <= i < p ==> !seq_lt(e@, #[trigger] v@[i]@),
        ensures
            p <= v.len(),
            v@ == old(v)@,
            forall|i: int| 0 <= i < p ==> !seq_lt(e@, #[trigger] v@[i]@),
            p < v.len() ==> seq_lt(e@, v@[p as int]@),
        decreases v.len() - p,
    {
        if p >= v.len() {
            break;
        }
        if str_less(e.as_str(), v[p].as_str()) {
            break;
        }
        p += 1;
    }
    let ghost old_v = views(v@);
    proof {
        assert forall|j: int| p <= j < old_v.len() implies !seq_lt(#[trigger] old_v[j], e@) by {
            if seq_lt(old_v[j], e@) {
                crate::text::lemma_seq_lt_transitive(old_v[j], e@, old_v[p as int]);
                if j == p {
                    crate::text::lemma_seq_lt_irreflexive(old_v[j]);
                }
            }
        }
    }
    v.insert(p, e);
    proof {
        let nv = views(v@);
        assert(nv =~= old_v.insert(p as int, e@));
        assert forall|i: int, j: int| 0 <= i < j < nv.len() implies !seq_lt(#[trigger] nv[j], #[trigger] nv[i]) by {
            if i < p && j < p {
            } else if i < p && j == p {
                assert(nv[i] == old_v[i]);
            } else if i < p {
                assert(nv[i] == old_v[i] && nv[j] == old_v[j - 1]);
            } else if i == p {
                assert(nv[j] == old_v[j - 1]);
            } else {
                assert(nv[i] == old_v[i - 1] && nv[j] == old_v[j - 1]);
            }
        }
    }
    p
}

/// `DropdownState` is the state of a drop down menu.
#[derive(Debug)]
pub struct DropdownState {
    /// which entry is selected
    pub selected_entry: RangedWrapping,
    /// whether the menu is open
    pub expanded: bool,
    /// whether the open menu scrolls
    pub scrolling: bool,
    /// the entries shown while the menu is open
    pub visible_entries: Vec<String>,
    /// how many entries there are
    pub num_entries: RangedWrapping,
}

impl DropdownState {
    /// The state `default` returns.
    pub open spec fn is_default(&self) -> bool {
        &&& self.selected_entry == RangedWrapping { value: 0, min: 0, max: 0 }
        &&& !self.expanded
        &&& !self.scrolling
        &&& self.visible_entries@.len() == 0
        &&& self.num_entries == RangedWrapping { value: 0, min: 0, max: 0 }
    }
}

impl Default for DropdownState {
    /// A closed menu with the first entry selected.
    fn default() -> (s: DropdownState)
        ensures
            s.is_default(),
    {
        DropdownState {
            selected_entry: RangedWrapping::default(),
            expanded: false,
            scrolling: false,
            visible_entries: Vec::new(),
            num_entries: RangedWrapping::default(),
        }
    }
}

} // verus!
