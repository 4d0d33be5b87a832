//! Two small blueprints for trying signals out: one constant combinator
//! that holds every signal of the catalog, and one that holds a single
//! signal.
use vstd::prelude::*;
use crate::blueprint::{Document, DocumentView};
use crate::catalog::AppData;
use crate::entity::{Entity, EntityView};
use crate::icon::{Icon, IconView};
use crate::records::{
    clone_text, ControlBehavior, ControlBehaviorView, Filter, FilterView, Section, SectionView,
    SignalView,
};

verus! {

/// The filter at place `i`, counted from 0, that holds catalog entry `i`
/// once, at the first quality tier.
pub open spec fn catalog_filter(i: int, catalog: Seq<SignalView>) -> FilterView {
    FilterView {
        comparator: "="@,
        count: 1,
        index: i + 1,
        name: Some(catalog[i].name),
        signal_type: catalog[i].signal_type,
        quality: "normal"@,
    }
}

/// The single filter of the one-signal blueprint.
pub open spec fn one_item_filter() -> FilterView {
    FilterView {
        comparator: "="@,
        count: 1,
        index: 1,
        name: Some("wooden-chest-explosion"@),
        signal_type: Some("explosion"@),
        quality: "uncommon"@,
    }
}

/// The document of one constant combinator, numbered 1 at the origin,
/// that holds the filters in a single section, under the combinator's icon.
pub open spec fn combinator_document(filters: Seq<FilterView>) -> DocumentView {
    DocumentView {
        item: "blueprint"@,
        entities: Some(
            seq![
                EntityView {
                    entity_number: Some(1),
                    name: Some("constant-combinator"@),
                    control_behavior: ControlBehaviorView::Sections(
                        seq![SectionView { index: 1, filters }],
                    ),
                    ..EntityView::blank()
                },
            ],
        ),
        icons: Some(
            seq![
                IconView { index: 1, signal_name: Some("constant-combinator"@), signal_type: None },
            ],
        ),
        label: None,
        description: None,
        version: None,
        wires: None,
    }
}

/// Wraps the filters of one constant combinator into its document.
pub fn combinator_blueprint(filters: Vec<Filter>) -> (document: Document)
    ensures
        document.deep_view() == combinator_document(filters.deep_view()),
{
    let mut sections: Vec<Section> = Vec::new();
    sections.push(Section { index: 1, filters });
    assert(sections.deep_view() =~= seq![
        SectionView { index: 1, filters: filters.deep_view() },
    ]);
    let mut entity = Entity::new(None);
    entity.entity_number = Some(1);
    entity.name = Some("constant-combinator".to_owned());
    entity.control_behavior = ControlBehavior::Sections(sections);
    let ghost entity_view = entity.deep_view();
    let mut entities: Vec<Entity> = Vec::new();
    entities.push(entity);
    assert(entities.deep_view() =~= seq![entity_view]);
    let icon = Icon::new(1, Some("constant-combinator".to_owned()), None);
    let ghost icon_view = icon.deep_view();
    let mut icons: Vec<Icon> = Vec::new();
    icons.push(icon);
    assert(icons.deep_view() =~= seq![icon_view]);
    Document {
        item: "blueprint".to_owned(),
        entities: Some(entities),
        icons: Some(icons),
        label: None,
        description: None,
        version: None,
        wires: None,
    }
}

/// Builds the blueprint of one constant combinator that holds every
/// signal of the catalog once, in the catalog's order.
pub fn generate_all_item_constant_combinator_blueprint(data: &AppData) -> (document: Document)
    requires
        data.deep_view().len() <= i64::MAX,
    ensures
        document.deep_view() == combinator_document(
            Seq::new(data.deep_view().len(), |i: int| catalog_filter(i, data.deep_view())),
        ),
{
    let ghost catalog = data.deep_view();
    let mut item_dict_list: Vec<Filter> = Vec::new();
    let mut i: usize = 0;
    while i < data.signal_dict.len()
        invariant
            i <= data.signal_dict.len(),
            catalog == data.deep_view(),
            catalog.len() == data.signal_dict.len(),
            catalog.len() <= i64::MAX,
            item_dict_list.len() == i,
            forall|j: int|
                0 <= j < i ==> (#[trigger] item_dict_list[j]).deep_view() == catalog_filter(
                    j,
                    catalog,
                ),
        decreases data.signal_dict.len() - i,
    {
        assert(catalog[i as int] == data.signal_dict[i as int].deep_view());
        let item = Filter {
            comparator: "=".to_owned(),
            count: 1,
            index: i as i64 + 1,
            name: Some(data.signal_dict[i].name.clone()),
            signal_type: clone_text(&data.signal_dict[i].signal_type),
            quality: "normal".to_owned(),
        };
        item_dict_list.push(item);
        i += 1;
    }
    assert(item_dict_list.deep_view() =~= Seq::new(
        catalog.len(),
        |i: int| catalog_filter(i, catalog),
    ));
    combinator_blueprint(item_dict_list)
}

/// Builds the blueprint of one constant combinator that holds a single
/// signal, for trying out whether a name can serve as a signal.
pub fn generate_one_item_constant_combinator_blueprint() -> (document: Document)
    ensures
        document.deep_view() == combinator_document(seq![one_item_filter()]),
{
    let item = Filter {
        comparator: "=".to_owned(),
        count: 1,
        index: 1,
        name: Some("wooden-chest-explosion".to_owned()),
        signal_type: Some("explosion".to_owned()),
        quality: "uncommon".to_owned(),
    };
    let mut item_dict_list: Vec<Filter> = Vec::new();
    item_dict_list.push(item);
    assert(item_dict_list.deep_view() =~= seq![one_item_filter()]);
    combinator_blueprint(item_dict_list)
}

} // verus!
