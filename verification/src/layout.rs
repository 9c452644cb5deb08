//! Dynamic layout building for the viewer's UI: named sections that can
//! be shown or hidden, laid out by the terminal library's constraint
//! solver.
//!
//! The solver itself is outside code; everything around it — which
//! sections take part, and which section ends up with an area — is
//! specified and verified.

use vstd::prelude::*;

use ratatui::layout::{
    Constraint as RlConstraint, Direction as RlDirection, Layout, Rect as RlRect,
};

use crate::strutil::{chars_eq, str_to_chars};

verus! {

/// A rectangular area of the terminal.
#[derive(Clone, Copy, Debug, PartialEq, Eq, Structural)]
pub struct Rect {
    pub x: u16,
    pub y: u16,
    pub width: u16,
    pub height: u16,
}

impl Rect {
    /// The rectangle at `(x, y)` with the given size.
    pub fn new(x: u16, y: u16, width: u16, height: u16) -> (r: Rect)
        ensures
            r == (Rect { x, y, width, height }),
    {
        Rect { x, y, width, height }
    }
}

/// How much space a section asks for.
#[derive(Clone, Copy, Debug, PartialEq, Eq, Structural)]
pub enum Constraint {
    /// Exactly this many cells.
    Length(u16),
    /// At least this many cells.
    Min(u16),
}

/// Which way an area is split.
#[derive(Clone, Copy, Debug, PartialEq, Eq, Structural)]
pub enum Direction {
    Horizontal,
    Vertical,
}

/// What ratatui's `Layout::split` returns for an area, a direction
/// and a constraint list: the solver computes it from these arguments
/// alone.
pub uninterp spec fn split_of(area: Rect, dir: Direction, constraints: Seq<Constraint>) -> Seq<
    Rect,
>;

/// Relies on ratatui's `Layout::split` (the kasuari constraint
/// solver): splitting an area yields exactly one sub-area per
/// constraint, in order, computed from the arguments alone.
#[verifier::external_body]
fn layout_split(area: Rect, dir: Direction, constraints: &Vec<Constraint>) -> (r: Vec<Rect>)
    ensures
        r@ == split_of(area, dir, constraints@),
        r@.len() == constraints@.len(),
{
    let d = match dir {
        Direction::Horizontal => RlDirection::Horizontal,
        Direction::Vertical => RlDirection::Vertical,
    };
    let cs: Vec<RlConstraint> = constraints.iter().map(|c| match c {
        Constraint::Length(n) => RlConstraint::Length(*n),
        Constraint::Min(n) => RlConstraint::Min(*n),
    }).collect();
    let a = RlRect::new(area.x, area.y, area.width, area.height);
    let f = |r: &RlRect| Rect { x: r.x, y: r.y, width: r.width, height: r.height };
    Layout::default().direction(d).constraints(cs).split(a).iter().map(f).collect()
}

/// The area mapped to `id`, the mapping added last winning.
pub open spec fn area_lookup(s: Seq<(Seq<char>, Rect)>, id: Seq<char>) -> Option<Rect>
    decreases s.len(),
{
    if s.len() == 0 {
        None
    } else if s.last().0 == id {
        Some(s.last().1)
    } else {
        area_lookup(s.drop_last(), id)
    }
}

/// A computed layout: the rendered area of each visible section, by
/// section id.
#[derive(Debug)]
pub struct DynamicLayout {
    areas: Vec<(&'static str, Rect)>,
}

impl View for DynamicLayout {
    type V = Seq<(Seq<char>, Rect)>;

    closed spec fn view(&self) -> Seq<(Seq<char>, Rect)> {
        Seq::new(self.areas@.len(), |i: int| (self.areas@[i].0@, self.areas@[i].1))
    }
}

/// Are the two names the same?
fn str_eq(a: &str, b: &str) -> (r: bool)
    ensures
        r == (a@ == b@),
{
    let ac = str_to_chars(a);
    let bc = str_to_chars(b);
    chars_eq(&ac, &bc)
}

impl DynamicLayout {
    /// Start building a vertical layout of `area`.
    pub fn vertical(area: Rect) -> (b: DynamicLayoutBuilder)
        ensures
            b.area == area,
            b.direction == Direction::Vertical,
            b.sections@.len() == 0,
    {
        DynamicLayoutBuilder { area, direction: Direction::Vertical, sections: Vec::new() }
    }

    /// Start building a horizontal layout of `area`.
    pub fn horizontal(area: Rect) -> (b: DynamicLayoutBuilder)
        ensures
            b.area == area,
            b.direction == Direction::Horizontal,
            b.sections@.len() == 0,
    {
        DynamicLayoutBuilder { area, direction: Direction::Horizontal, sections: Vec::new() }
    }

    /// The area of the section `id`, if that section is visible.
    pub fn get(&self, id: &str) -> (r: Option<Rect>)
        ensures
            r == area_lookup(self@, id@),
    {
        let mut i: usize = self.areas.len();
        proof {
            assert(self@.take(i as int) =~= self@);
        }
        while i > 0
            invariant
                i <= self@.len(),
                self@.len() == self.areas@.len(),
                area_lookup(self@, id@) == area_lookup(self@.take(i as int), id@),
            decreases i,
        {
            i = i - 1;
            proof {
                assert(self@.take(i + 1 as int).last() == self@[i as int]);
                assert(self@.take(i + 1 as int).drop_last() =~= self@.take(i as int));
            }
            if str_eq(self.areas[i].0, id) {
                return Some(self.areas[i].1);
            }
        }
        proof {
            assert(self@.take(0) =~= Seq::<(Seq<char>, Rect)>::empty());
        }
        None
    }

    /// The area of a section that must be visible. (A section the
    /// layout does not hold would be a programming error; demand it
    /// up front instead of failing at run time.)
    pub fn require(&self, id: &str) -> (r: Rect)
        requires
            area_lookup(self@, id@) is Some,
        ensures
            Some(r) == area_lookup(self@, id@),
    {
        let got = self.get(id);
        match got {
            Some(r) => r,
            None => Rect { x: 0, y: 0, width: 0, height: 0 },
        }
    }
}

/// One planned section of a layout under construction.
#[derive(Debug)]
pub struct LayoutSection {
    pub id: &'static str,
    pub constraint: Constraint,
    pub visible: bool,
}

/// A layout under construction: the area to split, the direction, and
/// the planned sections in order.
#[derive(Debug)]
pub struct DynamicLayoutBuilder {
    pub area: Rect,
    pub direction: Direction,
    pub sections: Vec<LayoutSection>,
}

impl DynamicLayoutBuilder {
    /// Plan a section that is always visible.
    pub fn section(self, id: &'static str, constraint: Constraint) -> (b: DynamicLayoutBuilder)
        ensures
            b.area == self.area,
            b.direction == self.direction,
            b.sections@.len() == self.sections@.len() + 1,
            forall|i: int|
                0 <= i < self.sections@.len() ==> b.sections@[i] == #[trigger] self.sections@[i],
            b.sections@.last().id == id,
            b.sections@.last().constraint == constraint,
            b.sections@.last().visible,
    {
        let mut b = self;
        b.sections.push(LayoutSection { id, constraint, visible: true });
        b
    }

    /// Plan a section that is only visible under a condition.
    pub fn section_if(self, visible: bool, id: &'static str, constraint: Constraint) -> (b:
        DynamicLayoutBuilder)
        ensures
            b.area == self.area,
            b.direction == self.direction,
            b.sections@.len() == self.sections@.len() + 1,
            forall|i: int|
                0 <= i < self.sections@.len() ==> b.sections@[i] == #[trigger] self.sections@[i],
            b.sections@.last().id == id,
            b.sections@.last().constraint == constraint,
            b.sections@.last().visible == visible,
    {
        let mut b = self;
        b.sections.push(LayoutSection { id, constraint, visible });
        b
    }

    /// Split the area over the visible sections and map each to its
    /// rendered area: every visible section's id is mapped, only
    /// visible sections' ids are, and the m-th visible section (in
    /// planning order) receives the m-th sub-area of the split over
    /// the visible constraints.
    #[verifier::loop_isolation(false)]
    #[verifier::rlimit(100)]
    pub fn build(self) -> (r: DynamicLayout)
        ensures
            r@.len() == count_visible(self.sections@),
            forall|m: int|
                0 <= m < r@.len() ==> (#[trigger] r@[m]).1 == split_of(
                    self.area,
                    self.direction,
                    visible_constraints(self.sections@),
                )[m],
            forall|m: int|
                0 <= m < r@.len() ==> (#[trigger] r@[m]).0 == visible_ids(self.sections@)[m],
            forall|i: int|
                0 <= i < self.sections@.len() && (#[trigger] self.sections@[i]).visible
                    ==> area_lookup(r@, self.sections@[i].id@) is Some,
            forall|id: Seq<char>|
                area_lookup(r@, id) is Some ==> exists|i: int|
                    0 <= i < self.sections@.len() && (#[trigger] self.sections@[i]).visible
                        && self.sections@[i].id@ == id,
    {
        let ghost secs = self.sections@;
        // The constraints of the visible sections, in order.
        let mut constraints: Vec<Constraint> = Vec::new();
        let mut i: usize = 0;
        while i < self.sections.len()
            invariant
                i <= secs.len(),
                self.sections@ == secs,
                constraints@.len() == count_visible(secs.take(i as int)),
                constraints@ == visible_constraints(secs.take(i as int)),
            decreases secs.len() - i,
        {
            proof {
                lemma_count_visible_push(secs.take(i as int), secs[i as int]);
                lemma_visible_constraints_push(secs.take(i as int), secs[i as int]);
                assert(secs.take(i as int).push(secs[i as int]) =~= secs.take(i + 1 as int));
            }
            if self.sections[i].visible {
                constraints.push(self.sections[i].constraint);
            }
            i += 1;
        }
        proof {
            assert(secs.take(secs.len() as int) =~= secs);
        }
        let chunks = layout_split(self.area, self.direction, &constraints);
        let n_chunks = chunks.len();
        // Map each visible section to its chunk, in order. `owners[m]`
        // records which section entry `m` came from.
        let mut areas: Vec<(&'static str, Rect)> = Vec::new();
        let ghost mut owners: Seq<int> = Seq::empty();
        let mut k: usize = 0;
        let mut chunk_idx: usize = 0;
        while k < self.sections.len()
            invariant
                k <= secs.len(),
                self.sections@ == secs,
                chunk_idx == count_visible(secs.take(k as int)),
                chunk_idx <= chunks@.len(),
                chunks@.len() == count_visible(secs),
                areas@.len() == chunk_idx,
                owners.len() == areas@.len(),
                chunks@ == split_of(self.area, self.direction, visible_constraints(secs)),
                forall|m: int|
                    0 <= m < areas@.len() ==> (#[trigger] areas@[m]).1 == chunks@[m],
                forall|m: int|
                    0 <= m < areas@.len() ==> (#[trigger] areas@[m]).0@ == visible_ids(secs)[m],
                forall|m: int|
                    #![trigger owners[m]]
                    0 <= m < areas@.len() ==> 0 <= owners[m] < k && secs[owners[m]].visible
                        && count_visible(secs.take(owners[m])) == m
                        && secs[owners[m]].id == areas@[m].0,
                forall|j: int|
                    0 <= j < k && (#[trigger] secs[j]).visible ==> exists|m: int|
                        0 <= m < areas@.len() && #[trigger] areas@[m].0 == secs[j].id,
            decreases secs.len() - k,
        {
            proof {
                lemma_count_visible_push(secs.take(k as int), secs[k as int]);
                assert(secs.take(k as int).push(secs[k as int]) =~= secs.take(k + 1 as int));
                lemma_count_visible_mono(secs, k + 1 as int);
            }
            let ghost old_areas = areas@;
            if self.sections[k].visible {
                proof {
                    assert(count_visible(secs.take(k + 1 as int)) == chunk_idx + 1);
                    assert(chunk_idx < chunks@.len());
                    lemma_visible_ids_index(secs, k as int);
                }
                areas.push((self.sections[k].id, chunks[chunk_idx]));
                chunk_idx = chunk_idx + 1;
                proof {
                    owners = owners.push(k as int);
                    assert(areas@[areas@.len() - 1].0 == secs[k as int].id);
                    assert forall|j: int|
                        0 <= j < k + 1 && (#[trigger] secs[j]).visible implies exists|m: int|
                        0 <= m < areas@.len() && #[trigger] areas@[m].0 == secs[j].id by {
                        if j < k {
                            let m0 = choose|m0: int|
                                0 <= m0 < old_areas.len() && #[trigger] old_areas[m0].0
                                    == secs[j].id;
                            assert(areas@[m0].0 == secs[j].id);
                        } else {
                            assert(areas@[areas@.len() - 1].0 == secs[j].id);
                        }
                    }
                }
            }
            k += 1;
        }
        proof {
            assert(secs.take(secs.len() as int) =~= secs);
        }
        let r = DynamicLayout { areas };
        proof {
            assert(r@.len() == count_visible(secs));
            assert forall|m: int|
                0 <= m < r@.len() implies (#[trigger] r@[m]).1 == split_of(
                self.area,
                self.direction,
                visible_constraints(secs),
            )[m] by {
                assert(r@[m].1 == r.areas@[m].1);
                assert(r.areas@[m].1 == chunks@[m]);
            }
            assert forall|m: int|
                0 <= m < r@.len() implies (#[trigger] r@[m]).0 == visible_ids(
                self.sections@,
            )[m] by {
                assert(r@[m].0 == r.areas@[m].0@);
                assert(r.areas@[m].0@ == visible_ids(secs)[m]);
            }
            assert forall|i2: int|
                0 <= i2 < secs.len() && (#[trigger] secs[i2]).visible implies area_lookup(
                r@,
                secs[i2].id@,
            ) is Some by {
                let m = choose|m: int|
                    0 <= m < r.areas@.len() && #[trigger] r.areas@[m].0 == secs[i2].id;
                lemma_area_lookup_present(r@, m);
            }
            assert forall|id: Seq<char>| area_lookup(r@, id) is Some implies exists|i2: int|
                0 <= i2 < secs.len() && (#[trigger] secs[i2]).visible && secs[i2].id@ == id by {
                lemma_area_lookup_member(r@, id);
                let m = choose|m: int| 0 <= m < r@.len() && #[trigger] r@[m].0 == id;
                assert(r@[m].0 == r.areas@[m].0@);
                let j = owners[m];
                assert(0 <= j < secs.len() && secs[j].visible && secs[j].id@ == id);
            }
        }
        r
    }
}

/// The ids of the visible sections, in order.
pub open spec fn visible_ids(s: Seq<LayoutSection>) -> Seq<Seq<char>>
    decreases s.len(),
{
    if s.len() == 0 {
        Seq::empty()
    } else {
        visible_ids(s.drop_last()) + if s.last().visible {
            seq![s.last().id@]
        } else {
            Seq::empty()
        }
    }
}

/// There is one visible id per visible section.
pub proof fn lemma_visible_ids_len(s: Seq<LayoutSection>)
    ensures
        visible_ids(s).len() == count_visible(s),
    decreases s.len(),
{
    if s.len() > 0 {
        lemma_visible_ids_len(s.drop_last());
    }
}

/// A visible section's id stands at its visible index.
pub proof fn lemma_visible_ids_index(s: Seq<LayoutSection>, k: int)
    requires
        0 <= k < s.len(),
        s[k].visible,
    ensures
        count_visible(s.take(k)) < visible_ids(s).len(),
        visible_ids(s)[count_visible(s.take(k)) as int] == s[k].id@,
    decreases s.len(),
{
    lemma_visible_ids_len(s);
    lemma_count_visible_mono(s, k);
    if k == s.len() - 1 {
        assert(s.take(k) =~= s.drop_last());
        lemma_visible_ids_len(s.drop_last());
    } else {
        lemma_visible_ids_index(s.drop_last(), k);
        assert(s.drop_last().take(k) =~= s.take(k));
        assert(s.drop_last()[k] == s[k]);
        lemma_visible_ids_len(s.drop_last());
    }
}

/// The constraints of the visible sections, in order.
pub open spec fn visible_constraints(s: Seq<LayoutSection>) -> Seq<Constraint>
    decreases s.len(),
{
    if s.len() == 0 {
        Seq::empty()
    } else {
        visible_constraints(s.drop_last()) + if s.last().visible {
            seq![s.last().constraint]
        } else {
            Seq::empty()
        }
    }
}

/// One more section appends its constraint exactly when it is
/// visible.
pub proof fn lemma_visible_constraints_push(s: Seq<LayoutSection>, e: LayoutSection)
    ensures
        visible_constraints(s.push(e)) == if e.visible {
            visible_constraints(s).push(e.constraint)
        } else {
            visible_constraints(s)
        },
{
    assert(s.push(e).drop_last() =~= s);
    if e.visible {
        assert(visible_constraints(s) + seq![e.constraint] =~= visible_constraints(s).push(
            e.constraint,
        ));
    } else {
        assert(visible_constraints(s) + Seq::<Constraint>::empty() =~= visible_constraints(s));
    }
}

/// How many sections are visible.
pub open spec fn count_visible(s: Seq<LayoutSection>) -> nat
    decreases s.len(),
{
    if s.len() == 0 {
        0
    } else {
        count_visible(s.drop_last()) + if s.last().visible {
            1nat
        } else {
            0nat
        }
    }
}

/// One more section raises the visible count by one exactly when it is
/// visible.
pub proof fn lemma_count_visible_push(s: Seq<LayoutSection>, e: LayoutSection)
    ensures
        count_visible(s.push(e)) == count_visible(s) + if e.visible {
            1nat
        } else {
            0nat
        },
{
    assert(s.push(e).drop_last() =~= s);
}

/// A prefix never holds more visible sections than the whole.
pub proof fn lemma_count_visible_mono(s: Seq<LayoutSection>, k: int)
    requires
        0 <= k <= s.len(),
    ensures
        count_visible(s.take(k)) <= count_visible(s),
    decreases s.len() - k,
{
    if k < s.len() {
        lemma_count_visible_mono(s, k + 1);
        lemma_count_visible_push(s.take(k), s[k]);
        assert(s.take(k).push(s[k]) =~= s.take(k + 1));
    } else {
        assert(s.take(k) =~= s);
    }
}

/// An id held in the mapping looks up to something.
pub proof fn lemma_area_lookup_present(s: Seq<(Seq<char>, Rect)>, m: int)
    requires
        0 <= m < s.len(),
    ensures
        area_lookup(s, s[m].0) is Some,
    decreases s.len(),
{
    if m < s.len() - 1 {
        if s.last().0 != s[m].0 {
            lemma_area_lookup_present(s.drop_last(), m);
        }
    }
}

/// A successful lookup's id is held in the mapping.
pub proof fn lemma_area_lookup_member(s: Seq<(Seq<char>, Rect)>, id: Seq<char>)
    requires
        area_lookup(s, id) is Some,
    ensures
        exists|m: int| 0 <= m < s.len() && #[trigger] s[m].0 == id,
    decreases s.len(),
{
    if s.len() > 0 {
        if s.last().0 == id {
            assert(s[s.len() - 1].0 == id);
        } else {
            lemma_area_lookup_member(s.drop_last(), id);
            let m = choose|m: int|
                0 <= m < s.drop_last().len() && #[trigger] s.drop_last()[m].0 == id;
            assert(s[m].0 == id);
        }
    }
}

} // verus!
