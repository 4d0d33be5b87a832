//! The constant combinator: an entity that holds a list of filters, grouped
//! in sections.
use vstd::prelude::*;
use crate::catalog::{catalog_name, catalog_type, AppData};
use crate::consts::{quality_label, QualityType};
use crate::entity::{Entity, EntityView};
use crate::records::{
    clone_sections, ControlBehavior, ControlBehaviorView, Filter, FilterView, Section,
    SectionView, SignalView,
};

verus! {

/// The number of filters that one section holds before the next is begun.
pub const SECTION_CAPACITY: u64 = 1000;

/// A constant combinator under construction: the base entity and the
/// sections filled so far, with the count of the filters that were placed
/// automatically.
#[derive(Debug)]
pub struct ConstantCombinator {
    pub pe: Entity,
    pub name: String,
    pub sections: Vec<Section>,
    pub filter_count: u64,
}

/// What a [`ConstantCombinator`] holds, as mathematical values.
pub struct ConstantCombinatorView {
    pub pe: EntityView,
    pub name: Seq<char>,
    pub sections: Seq<SectionView>,
    pub filter_count: nat,
}

impl DeepView for ConstantCombinator {
    type V = ConstantCombinatorView;

    open spec fn deep_view(&self) -> ConstantCombinatorView {
        ConstantCombinatorView {
            pe: self.pe.deep_view(),
            name: self.name@,
            sections: self.sections.deep_view(),
            filter_count: self.filter_count as nat,
        }
    }
}

/// The filter that the automatic placement makes of its call number
/// `position`, counted from 0: five consecutive positions share one catalog
/// signal and differ in the quality tier, and the index within the section
/// starts again at 1 after every thousand.
pub open spec fn auto_filter(position: int, count: int, catalog: Seq<SignalView>) -> FilterView {
    FilterView {
        comparator: "="@,
        count,
        index: position % 1000 + 1,
        name: catalog_name(catalog, position / 5),
        signal_type: catalog_type(catalog, position / 5),
        quality: quality_label(position),
    }
}

/// The filter that a manual placement makes.
pub open spec fn manual_filter(
    filter_index: int,
    name: Seq<char>,
    type1: Seq<char>,
    count: int,
    quality: Seq<char>,
) -> FilterView {
    FilterView {
        comparator: "="@,
        count,
        index: filter_index,
        name: Some(name),
        signal_type: Some(type1),
        quality,
    }
}

/// Whether one of the sections carries the index `section_index`.
pub open spec fn has_section(sections: Seq<SectionView>, section_index: int) -> bool {
    exists|i: int| 0 <= i < sections.len() && (#[trigger] sections[i]).index == section_index
}

/// The section with one more filter at its end.
pub open spec fn section_with(section: SectionView, filter: FilterView) -> SectionView {
    SectionView { filters: section.filters.push(filter), ..section }
}

/// The sections after `filter` has been appended to each section that
/// carries `section_index`.
pub open spec fn appended_where(
    sections: Seq<SectionView>,
    section_index: int,
    filter: FilterView,
) -> Seq<SectionView> {
    Seq::new(
        sections.len(),
        |i: int|
            if sections[i].index == section_index {
                section_with(sections[i], filter)
            } else {
                sections[i]
            },
    )
}

/// The sections after a manual placement: a section of that index is
/// created at the end where there is none, and the filter is appended to it.
pub open spec fn with_manual_filter(
    sections: Seq<SectionView>,
    section_index: int,
    filter: FilterView,
) -> Seq<SectionView> {
    let present = if has_section(sections, section_index) {
        sections
    } else {
        sections.push(SectionView { index: section_index, filters: Seq::empty() })
    };
    appended_where(present, section_index, filter)
}

/// The sections after the automatic placement number `position`: the
/// filter goes to the section at place `position / 1000`, which is begun
/// where it does not exist yet.
pub open spec fn with_auto_filter(
    sections: Seq<SectionView>,
    position: int,
    filter: FilterView,
) -> Seq<SectionView> {
    let place = position / 1000;
    if sections.len() <= place {
        sections.push(SectionView { index: place + 1, filters: seq![filter] })
    } else {
        sections.update(place, section_with(sections[place], filter))
    }
}

impl ConstantCombinator {
    /// Automatic placement fills the section at place `filter_count / 1000`
    /// or begins it at the end: the sections before it must be there.
    pub open spec fn wf(&self) -> bool {
        self.filter_count / 1000 <= self.sections.len()
    }

    /// A constant combinator on the given base entity, or on a blank one.
    /// Sections that the entity already carries are kept; the count of
    /// automatic placements starts at 0.
    pub fn new(entity: Option<Entity>) -> (combinator: Self)
        ensures
            combinator.wf(),
            combinator.deep_view() == (ConstantCombinatorView {
                pe: match entity {
                    Some(e) => e.deep_view().base(),
                    None => EntityView::blank(),
                },
                name: "constant-combinator"@,
                sections: match entity {
                    Some(e) => match e.deep_view().control_behavior {
                        ControlBehaviorView::Sections(s) => s,
                        _ => Seq::empty(),
                    },
                    None => Seq::empty(),
                },
                filter_count: 0,
            }),
    {
        let mut behavior = ControlBehavior::Absent;
        let pe = match entity {
            Some(e) => {
                let mut e = e;
                std::mem::swap(&mut e.control_behavior, &mut behavior);
                Entity::new(Some(e))
            },
            None => Entity::new(None),
        };
        let sections = match behavior {
            ControlBehavior::Sections(s) => s,
            _ => {
                let s: Vec<Section> = Vec::new();
                assert(s.deep_view() =~= Seq::empty());
                s
            },
        };
        ConstantCombinator {
            pe,
            name: "constant-combinator".to_owned(),
            sections,
            filter_count: 0,
        }
    }

    /// Empties the behavior: no section is left.
    pub fn init_control_behavior(&mut self)
        ensures
            final(self).deep_view() == (ConstantCombinatorView {
                sections: Seq::empty(),
                ..old(self).deep_view()
            }),
    {
        self.sections = Vec::new();
        assert(self.sections.deep_view() =~= Seq::empty());
    }

    /// Places a filter by hand in the section that carries `section_index`,
    /// which is created at the end where there is none.
    pub fn set_filter(
        &mut self,
        section_index: i64,
        filter_index: i64,
        name: String,
        type1: String,
        count: i64,
        quality: String,
    )
        ensures
            old(self).wf() ==> final(self).wf(),
            final(self).deep_view() == (ConstantCombinatorView {
                sections: with_manual_filter(
                    old(self).deep_view().sections,
                    section_index as int,
                    manual_filter(filter_index as int, name@, type1@, count as int, quality@),
                ),
                ..old(self).deep_view()
            }),
    {
        let ghost filter_view = manual_filter(
            filter_index as int,
            name@,
            type1@,
            count as int,
            quality@,
        );
        let ghost before = self.sections.deep_view();
        let mut found = false;
        let mut i: usize = 0;
        while i < self.sections.len()
            invariant
                i <= self.sections.len(),
                self.sections.deep_view() == before,
                *self == *old(self),
                found == exists|j: int| 0 <= j < i && (#[trigger] before[j]).index == section_index,
            decreases self.sections.len() - i,
        {
            assert(before[i as int] == self.sections[i as int].deep_view());
            if self.sections[i].index == section_index {
                found = true;
            }
            i += 1;
        }
        assert(found == has_section(before, section_index as int));
        if !found {
            let filters: Vec<Filter> = Vec::new();
            assert(filters.deep_view() =~= Seq::empty());
            self.sections.push(Section { index: section_index, filters });
        }
        let ghost present = self.sections.deep_view();
        assert(present =~= if found {
            before
        } else {
            before.push(SectionView { index: section_index as int, filters: Seq::empty() })
        });
        let filter = Filter {
            comparator: "=".to_owned(),
            count,
            index: filter_index,
            name: Some(name),
            signal_type: Some(type1),
            quality,
        };
        let mut k: usize = 0;
        while k < self.sections.len()
            invariant
                k <= self.sections.len(),
                self.sections.len() == present.len(),
                filter.deep_view() == filter_view,
                self.pe == old(self).pe,
                self.name == old(self).name,
                self.filter_count == old(self).filter_count,
                forall|j: int|
                    0 <= j < present.len() ==> (#[trigger] self.sections[j]).deep_view() == (if j
                        < k && present[j].index == section_index {
                        section_with(present[j], filter_view)
                    } else {
                        present[j]
                    }),
            decreases self.sections.len() - k,
        {
            if self.sections[k].index == section_index {
                let copy = filter.clone();
                let ghost filters_before = self.sections[k as int].filters.deep_view();
                self.sections[k].filters.push(copy);
                assert(self.sections[k as int].filters.deep_view() =~= filters_before.push(
                    filter_view,
                ));
            }
            k += 1;
        }
        assert(self.sections.deep_view() =~= appended_where(
            present,
            section_index as int,
            filter_view,
        ));
    }

    /// Places the next filter automatically. The call number `c`, counted
    /// from 0, decides everything but the count: the filter goes to place
    /// `c mod 1000 + 1` of section `c / 1000 + 1` and names catalog entry
    /// `c / 5` at quality tier `c mod 5`. A missing count is 1.
    pub fn add_filter_auto(&mut self, count: Option<u32>, data: &AppData)
        requires
            old(self).wf(),
            old(self).filter_count < u64::MAX,
        ensures
            final(self).wf(),
            final(self).deep_view() == (ConstantCombinatorView {
                sections: with_auto_filter(
                    old(self).deep_view().sections,
                    old(self).filter_count as int,
                    auto_filter(
                        old(self).filter_count as int,
                        match count {
                            Some(c) => c as int,
                            None => 1,
                        },
                        data.deep_view(),
                    ),
                ),
                filter_count: (old(self).filter_count + 1) as nat,
                ..old(self).deep_view()
            }),
    {
        let count: i64 = match count {
            Some(c) => c as i64,
            None => 1,
        };
        let position: u64 = self.filter_count;
        let local_index: u64 = position % SECTION_CAPACITY + 1;
        let place: usize = (position / SECTION_CAPACITY) as usize;
        let filter = Filter {
            comparator: "=".to_owned(),
            count,
            index: local_index as i64,
            name: data.signal_name(position / 5),
            signal_type: data.signal_type(position / 5),
            quality: QualityType::from_index(position).as_str().to_owned(),
        };
        let ghost filter_view = filter.deep_view();
        let ghost before = self.sections.deep_view();
        if self.sections.len() <= place {
            let mut filters: Vec<Filter> = Vec::new();
            filters.push(filter);
            assert(filters.deep_view() =~= seq![filter_view]);
            self.sections.push(Section { index: place as i64 + 1, filters });
            assert(self.sections.deep_view() =~= with_auto_filter(
                before,
                position as int,
                filter_view,
            ));
        } else {
            let ghost filters_before = self.sections[place as int].filters.deep_view();
            self.sections[place].filters.push(filter);
            assert(self.sections[place as int].filters.deep_view() =~= filters_before.push(
                filter_view,
            ));
            assert(self.sections.deep_view() =~= with_auto_filter(
                before,
                position as int,
                filter_view,
            ));
        }
        self.filter_count = position + 1;
    }

    /// The combinator as an entity: the base entity under the combinator's
    /// name, with the sections as its behavior.
    pub fn entity(&self) -> (entity: Entity)
        ensures
            entity.deep_view() == self.deep_view().entity(),
    {
        let mut entity = self.pe.clone();
        entity.name = Some(self.name.clone());
        entity.control_behavior = ControlBehavior::Sections(clone_sections(&self.sections));
        entity
    }
}

impl ConstantCombinatorView {
    /// The entity that the combinator stands for.
    pub open spec fn entity(self) -> EntityView {
        EntityView {
            name: Some(self.name),
            control_behavior: ControlBehaviorView::Sections(self.sections),
            ..self.pe
        }
    }
}

/// The number of filters that section `place`, counted from 0, holds once
/// `total` filters have been placed automatically.
pub open spec fn section_fill(total: int, place: int) -> nat {
    let left = total - 1000 * place;
    if left >= 1000 {
        1000
    } else if left > 0 {
        left as nat
    } else {
        0
    }
}

/// The sections that hold the automatically placed filters with the given
/// counts: the filters in the order of their placement, a thousand to a
/// section, the sections numbered from 1.
pub open spec fn auto_sections(counts: Seq<int>, catalog: Seq<SignalView>) -> Seq<SectionView> {
    Seq::new(
        ((counts.len() + 999) / 1000) as nat,
        |place: int|
            SectionView {
                index: place + 1,
                filters: Seq::new(
                    section_fill(counts.len() as int, place),
                    |j: int| auto_filter(1000 * place + j, counts[1000 * place + j], catalog),
                ),
            },
    )
}

/// A combinator that was filled by automatic placement alone.
pub open spec fn auto_filled(counts: Seq<int>, catalog: Seq<SignalView>) -> ConstantCombinatorView {
    ConstantCombinatorView {
        pe: EntityView::blank(),
        name: "constant-combinator"@,
        sections: auto_sections(counts, catalog),
        filter_count: counts.len(),
    }
}

/// One more automatic placement on a combinator that was filled by
/// automatic placement alone leaves it so, with one more count.
pub proof fn lemma_auto_placement_extends(counts: Seq<int>, count: int, catalog: Seq<SignalView>)
    ensures
        with_auto_filter(
            auto_sections(counts, catalog),
            counts.len() as int,
            auto_filter(counts.len() as int, count, catalog),
        ) == auto_sections(counts.push(count), catalog),
{
    let n = counts.len() as int;
    let place = n / 1000;
    let before = auto_sections(counts, catalog);
    let filter = auto_filter(n, count, catalog);
    let after = with_auto_filter(before, n, filter);
    let target = auto_sections(counts.push(count), catalog);
    assert(after.len() == target.len());
    assert forall|s: int| 0 <= s < target.len() implies after[s] == target[s] by {
        assert(after[s].index == target[s].index);
        assert(after[s].filters =~= target[s].filters);
    }
    assert(after =~= target);
}

/// After 1001 automatic placements there are exactly two sections: the
/// first holds the places 1 to 1000, the second holds place 1.
pub proof fn lemma_auto_placement_rolls_over(counts: Seq<int>, catalog: Seq<SignalView>)
    requires
        counts.len() == 1001,
    ensures
        auto_sections(counts, catalog).len() == 2,
        auto_sections(counts, catalog)[0].index == 1,
        auto_sections(counts, catalog)[0].filters.len() == 1000,
        forall|j: int|
            0 <= j < 1000 ==> (#[trigger] auto_sections(counts, catalog)[0].filters[j]).index == j
                + 1,
        auto_sections(counts, catalog)[1].index == 2,
        auto_sections(counts, catalog)[1].filters.len() == 1,
        auto_sections(counts, catalog)[1].filters[0].index == 1,
{
}

/// The filter of automatic placement number `position`, counted from 0,
/// stands at place `position mod 1000` of section `position / 1000`, and
/// names catalog entry `position / 5` at quality tier `position mod 5`.
pub proof fn lemma_auto_placement_addressing(
    counts: Seq<int>,
    catalog: Seq<SignalView>,
    position: int,
)
    requires
        0 <= position < counts.len(),
    ensures
        position / 1000 < auto_sections(counts, catalog).len(),
        auto_sections(counts, catalog)[position / 1000].index == position / 1000 + 1,
        position % 1000 < auto_sections(counts, catalog)[position / 1000].filters.len(),
        auto_sections(counts, catalog)[position / 1000].filters[position % 1000] == (FilterView {
            comparator: "="@,
            count: counts[position],
            index: position % 1000 + 1,
            name: catalog_name(catalog, position / 5),
            signal_type: catalog_type(catalog, position / 5),
            quality: quality_label(position % 5),
        }),
{
    assert((position % 5) % 5 == position % 5);
}

/// However many filters are placed automatically, no section holds more
/// than a thousand of them, the sections are numbered from 1 without a gap,
/// and within a section the filters are numbered from 1 without a gap, so
/// that no number occurs twice.
pub proof fn lemma_auto_placement_keeps_capacity(counts: Seq<int>, catalog: Seq<SignalView>)
    ensures
        forall|place: int|
            0 <= place < auto_sections(counts, catalog).len() ==> {
                &&& (#[trigger] auto_sections(counts, catalog)[place]).index == place + 1
                &&& 1 <= auto_sections(counts, catalog)[place].filters.len() <= 1000
            },
        forall|place: int, j: int|
            0 <= place < auto_sections(counts, catalog).len() && 0 <= j < auto_sections(
                counts,
                catalog,
            )[place].filters.len() ==> (#[trigger] auto_sections(
                counts,
                catalog,
            )[place].filters[j]).index == j + 1,
{
}

/// Whether no two sections carry the same index.
pub open spec fn distinct_sections(sections: Seq<SectionView>) -> bool {
    forall|i: int, j: int|
        0 <= i < j < sections.len() ==> (#[trigger] sections[i]).index != (
        #[trigger] sections[j]).index
}

/// The number of filters in all sections together.
pub open spec fn filter_total(sections: Seq<SectionView>) -> nat
    decreases sections.len(),
{
    if sections.len() == 0 {
        0
    } else {
        filter_total(sections.drop_last()) + sections.last().filters.len()
    }
}

/// Appending a filter to the one section that carries an index adds one
/// filter in all.
proof fn lemma_appended_once(sections: Seq<SectionView>, section_index: int, filter: FilterView)
    requires
        distinct_sections(sections),
    ensures
        filter_total(appended_where(sections, section_index, filter)) == filter_total(sections)
            + (if has_section(sections, section_index) { 1nat } else { 0nat }),
    decreases sections.len(),
{
    let after = appended_where(sections, section_index, filter);
    if sections.len() > 0 {
        let rest = sections.drop_last();
        assert(distinct_sections(rest)) by {
            assert forall|i: int, j: int| 0 <= i < j < rest.len() implies (#[trigger] rest[i]).index
                != (#[trigger] rest[j]).index by {
                assert(rest[i] == sections[i] && rest[j] == sections[j]);
            }
        }
        lemma_appended_once(rest, section_index, filter);
        assert(after.drop_last() =~= appended_where(rest, section_index, filter));
        let last = sections.len() - 1;
        if sections[last].index == section_index {
            assert(!has_section(rest, section_index)) by {
                if has_section(rest, section_index) {
                    let i = choose|i: int|
                        0 <= i < rest.len() && (#[trigger] rest[i]).index == section_index;
                    assert(rest[i] == sections[i]);
                    assert(sections[i].index != sections[last].index);
                }
            }
            assert(has_section(sections, section_index));
        } else {
            if has_section(rest, section_index) {
                let i = choose|i: int|
                    0 <= i < rest.len() && (#[trigger] rest[i]).index == section_index;
                assert(rest[i] == sections[i]);
                assert(has_section(sections, section_index));
            }
            if has_section(sections, section_index) {
                let i = choose|i: int|
                    0 <= i < sections.len() && (#[trigger] sections[i]).index == section_index;
                assert(i < last);
                assert(rest[i] == sections[i]);
                assert(has_section(rest, section_index));
            }
        }
    } else {
        assert(!has_section(sections, section_index));
    }
}

/// Where no two sections carry the same index, a manual placement keeps
/// it so, and adds exactly one filter: to the section of that index, which
/// exists afterwards.
pub proof fn lemma_manual_placement(
    sections: Seq<SectionView>,
    section_index: int,
    filter: FilterView,
)
    requires
        distinct_sections(sections),
    ensures
        distinct_sections(with_manual_filter(sections, section_index, filter)),
        has_section(with_manual_filter(sections, section_index, filter), section_index),
        filter_total(with_manual_filter(sections, section_index, filter)) == filter_total(
            sections,
        ) + 1,
{
    let fresh = SectionView { index: section_index, filters: Seq::empty() };
    let present = if has_section(sections, section_index) {
        sections
    } else {
        sections.push(fresh)
    };
    let after = with_manual_filter(sections, section_index, filter);
    assert(after == appended_where(present, section_index, filter));
    if !has_section(sections, section_index) {
        assert(present.drop_last() =~= sections);
        assert(present[sections.len() as int] == fresh);
        assert(filter_total(present) == filter_total(sections));
    }
    assert(distinct_sections(present));
    assert(has_section(present, section_index)) by {
        if !has_section(sections, section_index) {
            assert(present[sections.len() as int].index == section_index);
        }
    }
    let at = choose|i: int| 0 <= i < present.len() && (#[trigger] present[i]).index == section_index;
    assert(after[at].index == section_index);
    lemma_appended_once(present, section_index, filter);
    assert forall|i: int, j: int| 0 <= i < j < after.len() implies (#[trigger] after[i]).index != (
    #[trigger] after[j]).index by {
        assert(after[i].index == present[i].index);
        assert(after[j].index == present[j].index);
    }
}

/// The sections that automatic placement fills carry indices that differ.
pub proof fn lemma_auto_sections_distinct(counts: Seq<int>, catalog: Seq<SignalView>)
    ensures
        distinct_sections(auto_sections(counts, catalog)),
{
}

} // verus!
