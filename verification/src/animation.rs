//! The animation: a constant combinator and a selecting decider for each
//! frame, and a free-running counter that switches the selectors in turn.
use vstd::prelude::*;
use crate::arithmetic::{ArithmeticCombinator, ArithmeticCombinatorView};
use crate::blueprint::{
    all_join_within, connection_wires, joins_within, lemma_connection_wires, numbered_for,
    BluePrint, BluePrintView, ConnectionType, Document, DocumentView, Wire, WireColors,
};
use crate::catalog::AppData;
use crate::consts::DirectionType;
use crate::constant::{
    auto_filled, manual_filter, ConstantCombinator, ConstantCombinatorView,
};
use crate::decider::{
    AddConditionParams, AddOutPutParams, DeciderCombinator, DeciderCombinatorView,
};
use crate::entity::{Entity, EntityView};
use crate::image::{image_combinator, pixel_counts};
use crate::records::{
    ArithmeticConditionsView, ConditionView, Networks, OutputView, SectionView, SignalView,
};

verus! {

/// The virtual signal that counts ticks and, once divided, names the frame.
pub open spec fn counter_signal() -> SignalView {
    SignalView { name: "signal-dot"@, signal_type: Some("virtual"@) }
}

/// The virtual wildcard signal: everything that comes in.
pub open spec fn wildcard_signal() -> SignalView {
    SignalView { name: "signal-everything"@, signal_type: Some("virtual"@) }
}

/// Both networks.
pub open spec fn both_networks() -> Networks {
    Networks { red: true, green: true }
}

/// A comparison of the counter signal, read from `networks`, with a
/// constant. A constant that is not positive is left out.
pub open spec fn counter_condition(
    comparator: Seq<char>,
    constant: int,
    networks: Networks,
) -> ConditionView {
    ConditionView {
        comparator: Some(comparator),
        constant: if constant > 0 { Some(constant) } else { None },
        first_signal: Some(counter_signal()),
        first_signal_networks: networks,
        second_signal: None,
        second_signal_networks: both_networks(),
    }
}

/// The emission of everything that comes in, with its count, on `networks`.
pub open spec fn wildcard_output(networks: Networks) -> OutputView {
    OutputView { signal: Some(wildcard_signal()), copy_count_from_input: true, networks }
}

/// An entity put at a place, in half tiles, and turned to a direction.
pub open spec fn placed(entity: EntityView, x: int, y: int, direction: DirectionType) -> EntityView {
    EntityView { position_x: x, position_y: y, direction: Some(direction.code()), ..entity }
}

/// The store of frame `i`: the constant combinator of its pixels, at
/// `(0.5, i + 0.5)`, facing east.
pub open spec fn frame_store(i: int, counts: Seq<int>, catalog: Seq<SignalView>) -> EntityView {
    placed(auto_filled(counts, catalog).entity(), 1, 2 * i + 1, DirectionType::EAST)
}

/// The conditions of the selector of frame `i` among `frames` frames: the
/// counter equals `i`, on either network; and for the last frame also: the
/// counter equals `i + 1` on the green network, the tick on which the
/// counter wraps around.
pub open spec fn selector_conditions(i: int, frames: int) -> Seq<ConditionView> {
    let first = seq![counter_condition("="@, i, both_networks())];
    if i == frames - 1 {
        first.push(counter_condition("="@, i + 1, Networks { red: false, green: true }))
    } else {
        first
    }
}

/// The selector of frame `i`: a decider at `(2, i + 0.5)`, facing east,
/// that lets everything through on the red network while the counter names
/// its frame.
pub open spec fn frame_selector(i: int, frames: int) -> EntityView {
    placed(
        DeciderCombinatorView {
            pe: EntityView::blank(),
            name: "decider-combinator"@,
            conditions: selector_conditions(i, frames),
            outputs: seq![wildcard_output(Networks { red: true, green: false })],
        }.entity(),
        4,
        2 * i + 1,
        DirectionType::EAST,
    )
}

/// The source of ticks: a constant combinator at `(0.5, -2.5)`, facing
/// south, that holds the counter signal with the count 1.
pub open spec fn tick_source() -> EntityView {
    placed(
        ConstantCombinatorView {
            pe: EntityView::blank(),
            name: "constant-combinator"@,
            sections: seq![
                SectionView {
                    index: 1,
                    filters: seq![manual_filter(1, "signal-dot"@, "virtual"@, 1, "normal"@)],
                },
            ],
            filter_count: 0,
        }.entity(),
        1,
        -5,
        DirectionType::SOUTH,
    )
}

/// The tick counter: a decider at `(0.5, -1)`, facing south, that compares
/// the counter with the length of one run through all frames.
pub open spec fn tick_counter(threshold: int) -> EntityView {
    placed(
        DeciderCombinatorView {
            pe: EntityView::blank(),
            name: "decider-combinator"@,
            conditions: seq![counter_condition(">="@, threshold, both_networks())],
            outputs: seq![wildcard_output(both_networks())],
        }.entity(),
        1,
        -2,
        DirectionType::SOUTH,
    )
}

/// The divider: an arithmetic combinator at `(1.5, -1)`, facing south,
/// that divides the counter by the ticks of one frame.
pub open spec fn frame_divider(duration: int) -> EntityView {
    placed(
        ArithmeticCombinatorView {
            pe: EntityView::blank(),
            name: "arithmetic-combinator"@,
            conditions: ArithmeticConditionsView {
                first_signal: Some(counter_signal()),
                operation: Some("/"@),
                second_constant: Some(duration),
                output_signal: Some(counter_signal()),
                ..ArithmeticConditionsView::blank()
            },
        }.entity(),
        3,
        -2,
        DirectionType::SOUTH,
    )
}

/// The entity at place `k` of an animation, before it is numbered: the
/// stores of the frames, their selectors, and the three entities of the
/// control circuit.
pub open spec fn animation_part(
    k: int,
    frames: Seq<Seq<int>>,
    duration: int,
    catalog: Seq<SignalView>,
) -> EntityView {
    let count = frames.len() as int;
    if k < count {
        frame_store(k, frames[k], catalog)
    } else if k < 2 * count {
        frame_selector(k - count, count)
    } else if k == 2 * count {
        tick_source()
    } else if k == 2 * count + 1 {
        tick_counter(count * duration)
    } else {
        frame_divider(duration)
    }
}

/// The entities of an animation, each numbered by its place, from 1.
pub open spec fn animation_entities(
    frames: Seq<Seq<int>>,
    duration: int,
    catalog: Seq<SignalView>,
) -> Seq<EntityView> {
    Seq::new(
        2 * frames.len() + 3,
        |k: int| numbered_for(k as nat, animation_part(k, frames, duration, catalog), true),
    )
}

/// Red only.
pub open spec fn red() -> WireColors {
    WireColors { red: true, green: false }
}

/// Green only.
pub open spec fn green() -> WireColors {
    WireColors { red: false, green: true }
}

/// Red and green.
pub open spec fn red_and_green() -> WireColors {
    WireColors { red: true, green: true }
}

/// The wires that carry the pixels of the first `stores` frames from the
/// store to the selector.
pub open spec fn store_wires(stores: nat, frames: int) -> Seq<Wire>
    decreases stores,
{
    if stores == 0 {
        Seq::empty()
    } else {
        store_wires((stores - 1) as nat, frames) + connection_wires(
            stores as i64,
            (frames + stores) as i64,
            ConnectionType::InputInput,
            red(),
        )
    }
}

/// The wires of the first `links` links of the selector chain. A link
/// joins a selector to the next: their inputs by a green wire, their outputs
/// by a red and a green one.
pub open spec fn selector_links(links: nat, frames: int) -> Seq<Wire>
    decreases links,
{
    if links == 0 {
        Seq::empty()
    } else {
        selector_links((links - 1) as nat, frames) + connection_wires(
            (frames + links) as i64,
            (frames + links + 1) as i64,
            ConnectionType::InputInput,
            green(),
        ) + connection_wires(
            (frames + links) as i64,
            (frames + links + 1) as i64,
            ConnectionType::OutputOutput,
            red_and_green(),
        )
    }
}

/// The wires of the control circuit: the source feeds the counter, the
/// counter feeds itself and the divider, and the divider, where there is a
/// frame at all, tells the first selector which frame is due.
pub open spec fn control_wires(frames: int) -> Seq<Wire> {
    let source = (2 * frames + 1) as i64;
    let counter = (2 * frames + 2) as i64;
    let divider = (2 * frames + 3) as i64;
    connection_wires(source, counter, ConnectionType::InputInput, red()) + connection_wires(
        counter,
        counter,
        ConnectionType::InputOutput,
        red(),
    ) + connection_wires(counter, divider, ConnectionType::InputInput, red()) + (if frames > 0 {
        connection_wires(divider, (frames + 1) as i64, ConnectionType::OutputInput, green())
    } else {
        Seq::empty()
    })
}

/// All wires of an animation of `frames` frames.
pub open spec fn animation_wires(frames: int) -> Seq<Wire> {
    store_wires(frames as nat, frames) + selector_links(
        if frames > 0 { (frames - 1) as nat } else { 0 },
        frames,
    ) + control_wires(frames)
}

/// The packed colors of each frame.
pub open spec fn frame_counts(frames: Seq<Vec<[u8; 3]>>) -> Seq<Seq<int>> {
    Seq::new(frames.len(), |i: int| pixel_counts(frames[i]@))
}

/// The document of an animation.
pub open spec fn animation_document(
    frames: Seq<Seq<int>>,
    duration: int,
    catalog: Seq<SignalView>,
) -> DocumentView {
    DocumentView {
        item: "blueprint"@,
        entities: Some(animation_entities(frames, duration, catalog)),
        icons: None,
        label: None,
        description: None,
        version: None,
        wires: Some(animation_wires(frames.len() as int)),
    }
}

/// The parameters of a comparison of the counter signal.
fn counter_params(comparator: &str, constant: i64, red: bool) -> (params: AddConditionParams)
    requires
        comparator@.len() > 0,
    ensures
        crate::decider::condition_of(params) == counter_condition(
            comparator@,
            constant as int,
            Networks { red, green: true },
        ),
{
    proof {
        reveal_strlit("signal-dot");
        reveal_strlit("virtual");
    }
    let mut params = AddConditionParams::default();
    params.comparator = comparator.to_owned();
    params.constant = constant;
    params.first_signal_name = "signal-dot".to_owned();
    params.first_signal_type = "virtual".to_owned();
    params.first_use_red_network = red;
    params.first_use_green_network = true;
    params
}

/// The parameters of the emission of everything.
fn wildcard_params(green: bool) -> (params: AddOutPutParams)
    ensures
        crate::decider::output_of(params) == wildcard_output(Networks { red: true, green }),
{
    proof {
        reveal_strlit("signal-everything");
        reveal_strlit("virtual");
    }
    let mut params = AddOutPutParams::default();
    params.signal_name = "signal-everything".to_owned();
    params.signal_type = "virtual".to_owned();
    params.use_green_network = green;
    params
}

/// Puts an entity at a place and turns it.
fn place(entity: &mut Entity, x: i64, y: i64, direction: DirectionType)
    ensures
        final(entity).deep_view() == placed(old(entity).deep_view(), x as int, y as int, direction),
{
    entity.position_x = x;
    entity.position_y = y;
    entity.direction = Some(direction.value());
}

/// The store of frame `i`, not yet numbered.
pub fn frame_store_entity(i: usize, rgb_list: &Vec<[u8; 3]>, data: &AppData) -> (entity: Entity)
    requires
        2 * i + 1 <= i64::MAX,
    ensures
        entity.deep_view() == frame_store(i as int, pixel_counts(rgb_list@), data.deep_view()),
{
    let cc_object = image_combinator(rgb_list, data);
    let mut cc_entity = cc_object.entity();
    place(&mut cc_entity, 1, 2 * (i as i64) + 1, DirectionType::EAST);
    cc_entity
}

/// The selector of frame `i` among `frames` frames, not yet numbered.
pub fn frame_selector_entity(i: usize, frames: usize) -> (entity: Entity)
    requires
        i < frames,
        2 * frames + 1 <= i64::MAX,
    ensures
        entity.deep_view() == frame_selector(i as int, frames as int),
{
    proof {
        reveal_strlit("=");
    }
    let mut dc_object = DeciderCombinator::new(None);
    dc_object.add_condition(counter_params("=", i as i64, true));
    dc_object.add_output(wildcard_params(false));
    if i == frames - 1 {
        dc_object.add_condition(counter_params("=", i as i64 + 1, false));
    }
    assert(dc_object.deep_view().conditions =~= selector_conditions(i as int, frames as int));
    assert(dc_object.deep_view().outputs =~= seq![
        wildcard_output(Networks { red: true, green: false }),
    ]);
    let mut dc_entity = dc_object.entity();
    place(&mut dc_entity, 4, 2 * (i as i64) + 1, DirectionType::EAST);
    dc_entity
}

/// The source of ticks, not yet numbered.
pub fn tick_source_entity() -> (entity: Entity)
    ensures
        entity.deep_view() == tick_source(),
{
    let mut control_cc_object = ConstantCombinator::new(None);
    control_cc_object.set_filter(
        1,
        1,
        "signal-dot".to_owned(),
        "virtual".to_owned(),
        1,
        "normal".to_owned(),
    );
    assert(control_cc_object.deep_view().sections =~= seq![
        SectionView {
            index: 1,
            filters: seq![manual_filter(1, "signal-dot"@, "virtual"@, 1, "normal"@)],
        },
    ]) by {
        let filter = manual_filter(1, "signal-dot"@, "virtual"@, 1, "normal"@);
        let present = Seq::<SectionView>::empty().push(
            SectionView { index: 1, filters: Seq::empty() },
        );
        assert(!crate::constant::has_section(Seq::empty(), 1));
        assert(present[0].filters.push(filter) =~= seq![filter]);
    }
    let mut control_cc_entity = control_cc_object.entity();
    place(&mut control_cc_entity, 1, -5, DirectionType::SOUTH);
    control_cc_entity
}

/// The tick counter for a run of `threshold` ticks, not yet numbered.
pub fn tick_counter_entity(threshold: i64) -> (entity: Entity)
    ensures
        entity.deep_view() == tick_counter(threshold as int),
{
    proof {
        reveal_strlit(">=");
    }
    let mut control_dc_object = DeciderCombinator::new(None);
    control_dc_object.add_condition(counter_params(">=", threshold, true));
    control_dc_object.add_output(wildcard_params(true));
    assert(control_dc_object.deep_view().conditions =~= seq![
        counter_condition(">="@, threshold as int, both_networks()),
    ]);
    assert(control_dc_object.deep_view().outputs =~= seq![wildcard_output(both_networks())]);
    let mut control_dc_entity = control_dc_object.entity();
    place(&mut control_dc_entity, 1, -2, DirectionType::SOUTH);
    control_dc_entity
}

/// The divider by `duration`, not yet numbered.
pub fn frame_divider_entity(duration: i64) -> (entity: Entity)
    ensures
        entity.deep_view() == frame_divider(duration as int),
{
    let mut control_ac_object = ArithmeticCombinator::new(None);
    control_ac_object.set_first_signal("signal-dot".to_owned(), "virtual".to_owned());
    control_ac_object.set_operation("/".to_owned());
    control_ac_object.set_second_constant(duration);
    control_ac_object.set_output_signal("signal-dot".to_owned(), "virtual".to_owned());
    let mut control_ac_entity = control_ac_object.entity();
    place(&mut control_ac_entity, 3, -2, DirectionType::SOUTH);
    control_ac_entity
}

/// What of a blueprint no connection changes.
pub open spec fn without_wires(blueprint: BluePrintView) -> BluePrintView {
    BluePrintView { wires: None, ..blueprint }
}

/// Builds the blueprint of an animation from the pixels of its frames, each
/// in raster order, and the number of ticks that a frame is shown.
///
/// The entities are numbered as they are added: the stores of the frames,
/// their selectors, then the source of ticks, the tick counter and the
/// divider. Without any frame only the control circuit is built, and the
/// divider is then wired to no selector.
pub fn generate_mini_dynamic_image_blueprint(
    frames: &Vec<Vec<[u8; 3]>>,
    duration: i64,
    data: &AppData,
) -> (document: Document)
    requires
        2 * frames.len() + 3 <= i64::MAX,
        i64::MIN <= frames.len() * duration <= i64::MAX,
    ensures
        document.deep_view() == animation_document(
            frame_counts(frames@),
            duration as int,
            data.deep_view(),
        ),
        document.entities.unwrap().len() == 2 * frames.len() + 3,
{
    let count = frames.len();
    let ghost catalog = data.deep_view();
    let ghost counts = frame_counts(frames@);
    let ghost total = animation_entities(counts, duration as int, catalog);
    let mut bp_object = BluePrint::new(None);
    let mut image_cc_list: Vec<Entity> = Vec::new();
    assert(total.take(0) =~= Seq::empty());
    let mut i: usize = 0;
    while i < count
        invariant
            i <= count,
            count == frames.len(),
            2 * count + 3 <= i64::MAX,
            catalog == data.deep_view(),
            counts == frame_counts(frames@),
            total == animation_entities(counts, duration as int, catalog),
            without_wires(bp_object.deep_view()) == (BluePrintView {
                entities: total.take(i as int),
                ..BluePrintView::blank()
            }),
            bp_object.deep_view().wires.is_none(),
            image_cc_list.len() == i,
            forall|k: int|
                0 <= k < i ==> (#[trigger] image_cc_list[k]).entity_number == Some((k + 1) as i64),
        decreases count - i,
    {
        let mut cc_entity = frame_store_entity(i, &frames[i], data);
        bp_object.add_entity(&mut cc_entity, true);
        assert(bp_object.deep_view().entities =~= total.take(i + 1));
        image_cc_list.push(cc_entity);
        i += 1;
    }
    let mut image_select_dc_list: Vec<Entity> = Vec::new();
    let mut i: usize = 0;
    while i < count
        invariant
            i <= count,
            count == frames.len(),
            2 * count + 3 <= i64::MAX,
            counts.len() == count,
            total == animation_entities(counts, duration as int, catalog),
            without_wires(bp_object.deep_view()) == (BluePrintView {
                entities: total.take(count + i),
                ..BluePrintView::blank()
            }),
            bp_object.deep_view().wires.is_none(),
            image_select_dc_list.len() == i,
            forall|k: int|
                0 <= k < i ==> (#[trigger] image_select_dc_list[k]).entity_number == Some(
                    (count + k + 1) as i64,
                ),
        decreases count - i,
    {
        let mut dc_entity = frame_selector_entity(i, count);
        bp_object.add_entity(&mut dc_entity, true);
        assert(bp_object.deep_view().entities =~= total.take(count + i + 1));
        image_select_dc_list.push(dc_entity);
        i += 1;
    }
    let ghost placed_frames = without_wires(bp_object.deep_view());
    let mut i: usize = 0;
    while i < count
        invariant
            i <= count,
            2 * count + 3 <= i64::MAX,
            image_cc_list.len() == count,
            image_select_dc_list.len() == count,
            forall|k: int|
                0 <= k < count ==> (#[trigger] image_cc_list[k]).entity_number == Some(
                    (k + 1) as i64,
                ),
            forall|k: int|
                0 <= k < count ==> (#[trigger] image_select_dc_list[k]).entity_number == Some(
                    (count + k + 1) as i64,
                ),
            without_wires(bp_object.deep_view()) == placed_frames,
            placed_frames.entities.len() == 2 * count,
            bp_object.deep_view().wires_so_far() == store_wires(i as nat, count as int),
        decreases count - i,
    {
        let connected = bp_object.connect_entity(
            &image_cc_list[i],
            &image_select_dc_list[i],
            ConnectionType::InputInput,
            WireColors { red: true, green: false },
        );
        assert(connected.is_ok());
        i += 1;
    }
    let mut i: usize = 1;
    while i < count
        invariant
            1 <= i,
            i <= count || (count == 0 && i == 1),
            2 * count + 3 <= i64::MAX,
            image_select_dc_list.len() == count,
            forall|k: int|
                0 <= k < count ==> (#[trigger] image_select_dc_list[k]).entity_number == Some(
                    (count + k + 1) as i64,
                ),
            without_wires(bp_object.deep_view()) == placed_frames,
            placed_frames.entities.len() == 2 * count,
            bp_object.deep_view().wires_so_far() == store_wires(count as nat, count as int)
                + selector_links((i - 1) as nat, count as int),
        decreases count - i,
    {
        let chained = bp_object.connect_entity(
            &image_select_dc_list[i - 1],
            &image_select_dc_list[i],
            ConnectionType::InputInput,
            WireColors { red: false, green: true },
        );
        let bridged = bp_object.connect_entity(
            &image_select_dc_list[i - 1],
            &image_select_dc_list[i],
            ConnectionType::OutputOutput,
            WireColors { red: true, green: true },
        );
        assert(chained.is_ok() && bridged.is_ok());
        assert(bp_object.deep_view().wires_so_far() =~= store_wires(count as nat, count as int)
            + selector_links(i as nat, count as int));
        i += 1;
    }
    let ghost frame_wires = bp_object.deep_view().wires_so_far();
    let ghost source = (2 * count + 1) as i64;
    let ghost counter = (2 * count + 2) as i64;
    let ghost divider = (2 * count + 3) as i64;
    assert(frame_wires == store_wires(count as nat, count as int) + selector_links(
        if count > 0 { (count - 1) as nat } else { 0 },
        count as int,
    ));

    let mut control_cc_entity = tick_source_entity();
    bp_object.add_entity(&mut control_cc_entity, true);
    let mut control_dc_entity = tick_counter_entity(count as i64 * duration);
    bp_object.add_entity(&mut control_dc_entity, true);
    let mut control_ac_entity = frame_divider_entity(duration);
    bp_object.add_entity(&mut control_ac_entity, true);
    assert(bp_object.deep_view().entities =~= total);
    assert(bp_object.deep_view().wires_so_far() == frame_wires);

    let fed = bp_object.connect_entity(
        &control_cc_entity,
        &control_dc_entity,
        ConnectionType::InputInput,
        WireColors { red: true, green: false },
    );
    let looped = bp_object.connect_entity(
        &control_dc_entity,
        &control_dc_entity,
        ConnectionType::InputOutput,
        WireColors { red: true, green: false },
    );
    let divided = bp_object.connect_entity(
        &control_dc_entity,
        &control_ac_entity,
        ConnectionType::InputInput,
        WireColors { red: true, green: false },
    );
    assert(fed.is_ok() && looped.is_ok() && divided.is_ok());
    assert(control_cc_entity.entity_number == Some(source));
    assert(control_dc_entity.entity_number == Some(counter));
    assert(control_ac_entity.entity_number == Some(divider));
    let ghost fixed = connection_wires(source, counter, ConnectionType::InputInput, red())
        + connection_wires(counter, counter, ConnectionType::InputOutput, red())
        + connection_wires(counter, divider, ConnectionType::InputInput, red());
    assert(bp_object.deep_view().wires_so_far() =~= frame_wires + fixed);
    if count > 0 {
        let broadcast = bp_object.connect_entity(
            &control_ac_entity,
            &image_select_dc_list[0],
            ConnectionType::OutputInput,
            WireColors { red: false, green: true },
        );
        assert(broadcast.is_ok());
        assert(image_select_dc_list[0].entity_number == Some((count + 1) as i64));
        assert(bp_object.deep_view().wires_so_far() =~= frame_wires + (fixed + connection_wires(
            divider,
            (count + 1) as i64,
            ConnectionType::OutputInput,
            green(),
        )));
    }
    assert(control_wires(count as int) =~= fixed + (if count > 0 {
        connection_wires(divider, (count + 1) as i64, ConnectionType::OutputInput, green())
    } else {
        Seq::empty()
    }));
    assert(bp_object.deep_view().wires_so_far() =~= animation_wires(count as int));
    bp_object.get_dict()
}

/// The constant that the first condition of a decider compares with.
pub open spec fn first_constant(entity: EntityView) -> Option<int> {
    match entity.control_behavior {
        crate::records::ControlBehaviorView::Decider { conditions, outputs } => {
            if conditions.len() > 0 {
                conditions[0].constant
            } else {
                None
            }
        },
        _ => None,
    }
}

/// An animation of `F` frames has `2F + 3` entities: `F` constant
/// combinators, then `F` deciders, then one constant combinator, one
/// decider and one arithmetic combinator. The decider of the control
/// circuit compares the counter with `F` times the ticks of a frame, where
/// that product is positive; a constant that is not positive is left out.
pub proof fn lemma_animation_shape(frames: Seq<Seq<int>>, duration: int, catalog: Seq<SignalView>)
    ensures
        animation_entities(frames, duration, catalog).len() == 2 * frames.len() + 3,
        forall|k: int|
            0 <= k < frames.len() ==> (#[trigger] animation_entities(
                frames,
                duration,
                catalog,
            )[k]).name == Some("constant-combinator"@),
        forall|k: int|
            frames.len() <= k < 2 * frames.len() ==> (#[trigger] animation_entities(
                frames,
                duration,
                catalog,
            )[k]).name == Some("decider-combinator"@),
        animation_entities(frames, duration, catalog)[2 * (frames.len() as int)].name == Some(
            "constant-combinator"@,
        ),
        animation_entities(frames, duration, catalog)[2 * (frames.len() as int) + 1].name == Some(
            "decider-combinator"@,
        ),
        animation_entities(frames, duration, catalog)[2 * (frames.len() as int) + 2].name == Some(
            "arithmetic-combinator"@,
        ),
        frames.len() * duration > 0 ==> first_constant(
            animation_entities(frames, duration, catalog)[2 * (frames.len() as int) + 1],
        ) == Some(frames.len() * duration),
        frames.len() * duration <= 0 ==> first_constant(
            animation_entities(frames, duration, catalog)[2 * (frames.len() as int) + 1],
        ).is_none(),
{
}

/// The wires from the stores to the selectors join entities of the
/// animation.
pub proof fn lemma_store_wires_join(stores: nat, frames: int)
    requires
        stores <= frames,
        2 * frames + 3 <= i64::MAX,
    ensures
        all_join_within(store_wires(stores, frames), 2 * frames + 3),
    decreases stores,
{
    if stores > 0 {
        lemma_store_wires_join((stores - 1) as nat, frames);
        let before = store_wires((stores - 1) as nat, frames);
        let added = connection_wires(
            stores as i64,
            (frames + stores) as i64,
            ConnectionType::InputInput,
            red(),
        );
        lemma_connection_wires(
            stores as i64,
            (frames + stores) as i64,
            ConnectionType::InputInput,
            red(),
        );
        assert forall|k: int| 0 <= k < (before + added).len() implies joins_within(
            #[trigger] (before + added)[k],
            2 * frames + 3,
        ) by {
            if k >= before.len() {
                assert((before + added)[k] == added[k - before.len()]);
            }
        }
    }
}

/// The wires of the selector chain join entities of the animation.
pub proof fn lemma_selector_links_join(links: nat, frames: int)
    requires
        links < frames,
        2 * frames + 3 <= i64::MAX,
    ensures
        all_join_within(selector_links(links, frames), 2 * frames + 3),
    decreases links,
{
    if links > 0 {
        lemma_selector_links_join((links - 1) as nat, frames);
        let before = selector_links((links - 1) as nat, frames);
        let from = (frames + links) as i64;
        let to = (frames + links + 1) as i64;
        let inputs = connection_wires(from, to, ConnectionType::InputInput, green());
        let outputs = connection_wires(from, to, ConnectionType::OutputOutput, red_and_green());
        lemma_connection_wires(from, to, ConnectionType::InputInput, green());
        lemma_connection_wires(from, to, ConnectionType::OutputOutput, red_and_green());
        let all = before + inputs + outputs;
        assert forall|k: int| 0 <= k < all.len() implies joins_within(
            #[trigger] all[k],
            2 * frames + 3,
        ) by {
            if k >= before.len() + inputs.len() {
                assert(all[k] == outputs[k - before.len() - inputs.len()]);
            } else if k >= before.len() {
                assert(all[k] == inputs[k - before.len()]);
            }
        }
    }
}

/// Every wire of an animation joins two of its `2F + 3` entities.
pub proof fn lemma_animation_wires_join_entities(frames: int)
    requires
        0 <= frames,
        2 * frames + 3 <= i64::MAX,
    ensures
        all_join_within(animation_wires(frames), 2 * frames + 3),
{
    let count = 2 * frames + 3;
    let links: nat = if frames > 0 { (frames - 1) as nat } else { 0 };
    lemma_store_wires_join(frames as nat, frames);
    if frames > 0 {
        lemma_selector_links_join(links, frames);
    }
    let stores = store_wires(frames as nat, frames);
    let chain = selector_links(links, frames);
    let control = control_wires(frames);
    let source = (2 * frames + 1) as i64;
    let counter = (2 * frames + 2) as i64;
    let divider = (2 * frames + 3) as i64;
    lemma_connection_wires(source, counter, ConnectionType::InputInput, red());
    lemma_connection_wires(counter, counter, ConnectionType::InputOutput, red());
    lemma_connection_wires(counter, divider, ConnectionType::InputInput, red());
    lemma_connection_wires(divider, (frames + 1) as i64, ConnectionType::OutputInput, green());
    assert(all_join_within(control, count));
    let all = stores + chain + control;
    assert forall|k: int| 0 <= k < all.len() implies joins_within(#[trigger] all[k], count) by {
        if k >= stores.len() + chain.len() {
            assert(all[k] == control[k - stores.len() - chain.len()]);
        } else if k >= stores.len() {
            assert(all[k] == chain[k - stores.len()]);
        }
    }
}

} // verus!
