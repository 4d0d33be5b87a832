use blueprints::arithmetic::ArithmeticCombinator;
use blueprints::blueprint::{BluePrint, ConnectionType, Wire, WireColors};
use blueprints::catalog::AppData;
use blueprints::constant::ConstantCombinator;
use blueprints::consts::{DirectionType, QualityType};
use blueprints::decider::{AddConditionParams, AddOutPutParams, DeciderCombinator};
use blueprints::entity::Entity;
use blueprints::error::{BluePrintError, KeyError};
use blueprints::icon::Icon;
use blueprints::records::{ControlBehavior, Networks, Signal};

fn catalog(n: usize) -> AppData {
    let mut entries = Vec::new();
    for i in 0..n {
        entries.push(Signal {
            name: format!("signal-{}", i),
            signal_type: if i % 2 == 0 { Some("virtual".to_string()) } else { None },
        });
    }
    AppData::new(entries)
}

fn wire(a: i64, pa: i64, b: i64, pb: i64) -> Wire {
    Wire { first: a, first_port: pa, second: b, second_port: pb }
}

#[test]
fn quality_labels() {
    assert_eq!(QualityType::NORMAL.as_str(), "normal");
    assert_eq!(QualityType::UNCOMMON.as_str(), "uncommon");
    assert_eq!(QualityType::RARE.as_str(), "rare");
    assert_eq!(QualityType::EPIC.as_str(), "epic");
    assert_eq!(QualityType::LEGENDARY.as_str(), "legendary");
}

#[test]
fn quality_is_selected_cyclically() {
    assert_eq!(QualityType::from_index(0), QualityType::NORMAL);
    assert_eq!(QualityType::from_index(4), QualityType::LEGENDARY);
    assert_eq!(QualityType::from_index(5), QualityType::NORMAL);
    assert_eq!(QualityType::from_index(1002), QualityType::RARE);
}

#[test]
fn direction_codes() {
    assert_eq!(DirectionType::NORTH.value(), 0);
    assert_eq!(DirectionType::NORTH_EAST.value(), 2);
    assert_eq!(DirectionType::EAST.value(), 4);
    assert_eq!(DirectionType::SOUTH_EAST.value(), 6);
    assert_eq!(DirectionType::SOUTH.value(), 8);
    assert_eq!(DirectionType::SOUTH_WEST.value(), 10);
    assert_eq!(DirectionType::WEST.value(), 12);
    assert_eq!(DirectionType::NORTH_WEST.value(), 14);
}

#[test]
fn error_messages() {
    assert_eq!(KeyError.message(), "Mapping key not found.\n");
    assert_eq!(BluePrintError("too large".to_string()).message(), "too large\n");
}

#[test]
fn catalog_lookup() {
    let data = catalog(3);
    assert_eq!(data.signal_dict_len(), 3);
    assert_eq!(data.signal_name(0), Some("signal-0".to_string()));
    assert_eq!(data.signal_type(0), Some("virtual".to_string()));
    assert_eq!(data.signal_name(1), Some("signal-1".to_string()));
    assert_eq!(data.signal_type(1), None);
    assert_eq!(data.signal_name(3), None);
    assert_eq!(data.signal_type(3), None);
}

#[test]
fn entity_replace_and_rotate() {
    let mut e = Entity::new(None);
    assert_eq!(e.entity_number, None);
    assert_eq!(e.name, None);
    assert!(!e.check_entity_number());
    e.replace(Some("small-lamp".to_string()), None);
    assert_eq!(e.name, Some("small-lamp".to_string()));
    assert_eq!(e.entity_type, None);
    e.replace(None, Some("lamp".to_string()));
    assert_eq!(e.name, Some("small-lamp".to_string()));
    assert_eq!(e.entity_type, Some("lamp".to_string()));
    e.rotate(DirectionType::SOUTH.value());
    assert_eq!(e.direction, Some(8));
    e.entity_number = Some(0);
    assert!(!e.check_entity_number());
    e.entity_number = Some(-3);
    assert!(!e.check_entity_number());
    e.entity_number = Some(1);
    assert!(e.check_entity_number());
    let copy = e.get_dict();
    assert_eq!(copy.name, e.name);
    assert_eq!(copy.entity_number, Some(1));
}

#[test]
fn icon_keeps_its_fields() {
    let icon = Icon::new(1, Some("constant-combinator".to_string()), None);
    let copy = icon.get_dict();
    assert_eq!(copy.index, 1);
    assert_eq!(copy.signal_name, Some("constant-combinator".to_string()));
    assert_eq!(copy.signal_type, None);
}

#[test]
fn add_entity_numbers_from_one() {
    let mut bp = BluePrint::new(None);
    assert_eq!(bp.get_entities_number(), 0);
    let mut a = Entity::new(None);
    let mut b = Entity::new(None);
    let mut c = Entity::new(None);
    c.entity_number = Some(77);
    bp.add_entity(&mut a, true);
    bp.add_entity(&mut b, true);
    bp.add_entity(&mut c, false);
    assert_eq!(a.entity_number, Some(1));
    assert_eq!(b.entity_number, Some(2));
    assert_eq!(c.entity_number, Some(77));
    assert_eq!(bp.get_entities_number(), 3);
    assert_eq!(bp.entities[0].entity_number, Some(1));
    assert_eq!(bp.entities[1].entity_number, Some(2));
    assert_eq!(bp.entities[2].entity_number, Some(77));
    let mut d = Entity::new(None);
    bp.add_entity(&mut d, false);
    assert_eq!(d.entity_number, None);
    assert_eq!(bp.entities[3].entity_number, None);
}

#[test]
fn connecting_unnumbered_entities_fails() {
    let mut bp = BluePrint::new(None);
    let a = Entity::new(None);
    let b = Entity::new(None);
    let r = bp.connect_entity(
        &a,
        &b,
        ConnectionType::InputInput,
        WireColors { red: true, green: true },
    );
    assert_eq!(r, Err(KeyError));
    assert!(bp.wires.is_none());
}

#[test]
fn connecting_one_unnumbered_entity_fails() {
    let mut bp = BluePrint::new(None);
    let mut a = Entity::new(None);
    let b = Entity::new(None);
    bp.add_entity(&mut a, true);
    let colors = WireColors { red: true, green: false };
    assert_eq!(bp.connect_entity(&a, &b, ConnectionType::InputInput, colors), Err(KeyError));
    assert_eq!(bp.connect_entity(&b, &a, ConnectionType::InputInput, colors), Err(KeyError));
    assert!(bp.wires.is_none());
}

#[test]
fn connecting_after_numbering_succeeds() {
    let mut bp = BluePrint::new(None);
    let mut a = Entity::new(None);
    let mut b = Entity::new(None);
    bp.add_entity(&mut a, true);
    bp.add_entity(&mut b, true);
    let r = bp.connect_entity(
        &a,
        &b,
        ConnectionType::InputInput,
        WireColors { red: true, green: true },
    );
    assert_eq!(r, Ok(()));
    assert_eq!(bp.wires, Some(vec![wire(1, 1, 2, 1), wire(1, 2, 2, 2)]));
}

#[test]
fn port_table() {
    let mut bp = BluePrint::new(None);
    let mut a = Entity::new(None);
    let mut b = Entity::new(None);
    bp.add_entity(&mut a, true);
    bp.add_entity(&mut b, true);
    let both = WireColors { red: true, green: true };
    bp.connect_entity(&a, &b, ConnectionType::InputInput, both).unwrap();
    bp.connect_entity(&a, &b, ConnectionType::InputOutput, both).unwrap();
    bp.connect_entity(&a, &b, ConnectionType::OutputInput, both).unwrap();
    bp.connect_entity(&a, &b, ConnectionType::OutputOutput, both).unwrap();
    assert_eq!(
        bp.wires,
        Some(vec![
            wire(1, 1, 2, 1),
            wire(1, 2, 2, 2),
            wire(1, 1, 2, 3),
            wire(1, 2, 2, 4),
            wire(1, 3, 2, 1),
            wire(1, 4, 2, 2),
            wire(1, 3, 2, 3),
            wire(1, 4, 2, 4),
        ])
    );
}

#[test]
fn connecting_without_colors_only_checks() {
    let mut bp = BluePrint::new(None);
    let mut a = Entity::new(None);
    bp.add_entity(&mut a, true);
    let none = WireColors { red: false, green: false };
    assert_eq!(bp.connect_entity(&a, &a, ConnectionType::InputOutput, none), Ok(()));
    assert_eq!(bp.wires, Some(vec![]));
    let b = Entity::new(None);
    assert_eq!(bp.connect_entity(&a, &b, ConnectionType::InputOutput, none), Err(KeyError));
}

#[test]
fn duplicate_wires_are_kept() {
    let mut bp = BluePrint::new(None);
    let mut a = Entity::new(None);
    bp.add_entity(&mut a, true);
    let red = WireColors { red: true, green: false };
    bp.connect_entity(&a, &a, ConnectionType::InputOutput, red).unwrap();
    bp.connect_entity(&a, &a, ConnectionType::InputOutput, red).unwrap();
    assert_eq!(bp.wires, Some(vec![wire(1, 1, 1, 3), wire(1, 1, 1, 3)]));
}

#[test]
fn document_leaves_out_what_is_empty() {
    let bp = BluePrint::new(None);
    let doc = bp.get_dict();
    assert_eq!(doc.item, "blueprint");
    assert!(doc.entities.is_none());
    assert!(doc.icons.is_none());
    assert!(doc.label.is_none());
    assert!(doc.description.is_none());
    assert!(doc.version.is_none());
    assert!(doc.wires.is_none());
}

#[test]
fn document_takes_over_what_is_set() {
    let mut bp = BluePrint::new(None);
    bp.label = Some("screen".to_string());
    bp.description = Some("a grid".to_string());
    bp.version = Some(562949954076673);
    bp.icons.push(Icon::new(1, Some("small-lamp".to_string()), Some("item".to_string())));
    let mut a = Entity::new(None);
    bp.add_entity(&mut a, true);
    bp.connect_entity(&a, &a, ConnectionType::InputOutput, WireColors { red: false, green: true })
        .unwrap();
    let doc = bp.get_dict();
    assert_eq!(doc.label, Some("screen".to_string()));
    assert_eq!(doc.description, Some("a grid".to_string()));
    assert_eq!(doc.version, Some(562949954076673));
    assert_eq!(doc.icons.as_ref().unwrap().len(), 1);
    assert_eq!(doc.icons.as_ref().unwrap()[0].signal_name, Some("small-lamp".to_string()));
    assert_eq!(doc.entities.as_ref().unwrap().len(), 1);
    assert_eq!(doc.entities.as_ref().unwrap()[0].entity_number, Some(1));
    assert_eq!(doc.wires, Some(vec![wire(1, 2, 1, 4)]));
}

#[test]
fn auto_filters_roll_over_after_a_thousand() {
    let data = catalog(300);
    let mut cc = ConstantCombinator::new(None);
    for c in 0..1001u32 {
        cc.add_filter_auto(Some(c + 7), &data);
    }
    assert_eq!(cc.filter_count, 1001);
    assert_eq!(cc.sections.len(), 2);
    assert_eq!(cc.sections[0].index, 1);
    assert_eq!(cc.sections[1].index, 2);
    assert_eq!(cc.sections[0].filters.len(), 1000);
    assert_eq!(cc.sections[1].filters.len(), 1);
    for j in 0..1000usize {
        assert_eq!(cc.sections[0].filters[j].index, j as i64 + 1);
        assert_eq!(cc.sections[0].filters[j].count, j as i64 + 7);
    }
    assert_eq!(cc.sections[1].filters[0].index, 1);
    assert_eq!(cc.sections[1].filters[0].count, 1007);
}

#[test]
fn auto_filters_share_a_signal_by_fives() {
    let data = catalog(300);
    let mut cc = ConstantCombinator::new(None);
    for _ in 0..12 {
        cc.add_filter_auto(None, &data);
    }
    let f = &cc.sections[0].filters;
    let labels = ["normal", "uncommon", "rare", "epic", "legendary"];
    for c in 0..12usize {
        assert_eq!(f[c].comparator, "=");
        assert_eq!(f[c].count, 1);
        assert_eq!(f[c].name, Some(format!("signal-{}", c / 5)));
        assert_eq!(f[c].quality, labels[c % 5]);
    }
    assert_eq!(f[0].signal_type, Some("virtual".to_string()));
    assert_eq!(f[5].signal_type, None);
    assert_eq!(f[10].signal_type, Some("virtual".to_string()));
}

#[test]
fn auto_filter_beyond_the_catalog_has_no_name() {
    let data = catalog(1);
    let mut cc = ConstantCombinator::new(None);
    for _ in 0..6 {
        cc.add_filter_auto(Some(3), &data);
    }
    assert_eq!(cc.sections[0].filters[4].name, Some("signal-0".to_string()));
    assert_eq!(cc.sections[0].filters[5].name, None);
    assert_eq!(cc.sections[0].filters[5].signal_type, None);
    assert_eq!(cc.sections[0].filters[5].quality, "normal");
    assert_eq!(cc.sections[0].filters[5].index, 6);
}

#[test]
fn set_filter_creates_the_section_on_demand() {
    let mut cc = ConstantCombinator::new(None);
    cc.set_filter(3, 7, "iron-plate".to_string(), "item".to_string(), 42, "rare".to_string());
    cc.set_filter(1, 1, "signal-A".to_string(), "virtual".to_string(), -5, "normal".to_string());
    cc.set_filter(3, 8, "copper-plate".to_string(), "".to_string(), 1, "epic".to_string());
    assert_eq!(cc.filter_count, 0);
    assert_eq!(cc.sections.len(), 2);
    assert_eq!(cc.sections[0].index, 3);
    assert_eq!(cc.sections[1].index, 1);
    assert_eq!(cc.sections[0].filters.len(), 2);
    assert_eq!(cc.sections[1].filters.len(), 1);
    let f = &cc.sections[0].filters[0];
    assert_eq!(f.comparator, "=");
    assert_eq!(f.count, 42);
    assert_eq!(f.index, 7);
    assert_eq!(f.name, Some("iron-plate".to_string()));
    assert_eq!(f.signal_type, Some("item".to_string()));
    assert_eq!(f.quality, "rare");
    assert_eq!(cc.sections[0].filters[1].index, 8);
    assert_eq!(cc.sections[0].filters[1].signal_type, Some("".to_string()));
    assert_eq!(cc.sections[1].filters[0].count, -5);
}

#[test]
fn constant_combinator_entity() {
    let mut base = Entity::new(None);
    base.position_x = 3;
    base.direction = Some(4);
    let mut cc = ConstantCombinator::new(Some(base));
    cc.set_filter(1, 1, "signal-dot".to_string(), "virtual".to_string(), 1, "normal".to_string());
    let e = cc.entity();
    assert_eq!(e.name, Some("constant-combinator".to_string()));
    assert_eq!(e.position_x, 3);
    assert_eq!(e.direction, Some(4));
    assert_eq!(e.entity_number, None);
    match e.control_behavior {
        ControlBehavior::Sections(s) => {
            assert_eq!(s.len(), 1);
            assert_eq!(s[0].filters[0].name, Some("signal-dot".to_string()));
        }
        _ => panic!("no sections"),
    }
    cc.init_control_behavior();
    assert_eq!(cc.sections.len(), 0);
}

#[test]
fn condition_defaults() {
    let p = AddConditionParams::default();
    assert_eq!(p.comparator, "<");
    assert_eq!(p.constant, 0);
    assert_eq!(p.first_signal_name, "");
    assert!(p.first_use_red_network && p.first_use_green_network);
    assert!(p.second_use_red_network && p.second_use_green_network);
    let o = AddOutPutParams::default();
    assert_eq!(o.signal_name, "");
    assert!(o.copy_count_from_input);
    assert!(o.use_red_network && o.use_green_network);
}

#[test]
fn condition_leaves_out_what_is_not_given() {
    let mut dc = DeciderCombinator::new(None);
    dc.add_condition(AddConditionParams::default());
    let mut p = AddConditionParams::default();
    p.comparator = "".to_string();
    p.constant = 5;
    p.first_signal_name = "signal-dot".to_string();
    p.first_signal_type = "virtual".to_string();
    p.first_use_red_network = false;
    p.second_signal_name = "iron-plate".to_string();
    dc.add_condition(p);
    let mut q = AddConditionParams::default();
    q.constant = -1;
    q.first_signal_type = "virtual".to_string();
    dc.add_condition(q);
    assert_eq!(dc.conditions.len(), 3);
    let c = &dc.conditions[0];
    assert_eq!(c.comparator, Some("<".to_string()));
    assert_eq!(c.constant, None);
    assert!(c.first_signal.is_none());
    assert!(c.second_signal.is_none());
    assert_eq!(c.first_signal_networks, Networks { red: true, green: true });
    assert_eq!(c.second_signal_networks, Networks { red: true, green: true });
    let c = &dc.conditions[1];
    assert_eq!(c.comparator, None);
    assert_eq!(c.constant, Some(5));
    assert_eq!(c.first_signal.as_ref().unwrap().name, "signal-dot");
    assert_eq!(c.first_signal.as_ref().unwrap().signal_type, Some("virtual".to_string()));
    assert_eq!(c.first_signal_networks, Networks { red: false, green: true });
    assert_eq!(c.second_signal.as_ref().unwrap().name, "iron-plate");
    assert_eq!(c.second_signal.as_ref().unwrap().signal_type, None);
    let c = &dc.conditions[2];
    assert_eq!(c.constant, None);
    assert!(c.first_signal.is_none());
}

#[test]
fn output_record() {
    let mut dc = DeciderCombinator::new(None);
    let mut o = AddOutPutParams::default();
    o.signal_name = "signal-everything".to_string();
    o.signal_type = "virtual".to_string();
    o.use_green_network = false;
    dc.add_output(o);
    dc.add_output(AddOutPutParams::default());
    assert_eq!(dc.outputs.len(), 2);
    assert_eq!(dc.outputs[0].signal.as_ref().unwrap().name, "signal-everything");
    assert!(dc.outputs[0].copy_count_from_input);
    assert_eq!(dc.outputs[0].networks, Networks { red: true, green: false });
    assert!(dc.outputs[1].signal.is_none());
    let e = dc.entity();
    assert_eq!(e.name, Some("decider-combinator".to_string()));
    match e.control_behavior {
        ControlBehavior::Decider { conditions, outputs } => {
            assert_eq!(conditions.len(), 0);
            assert_eq!(outputs.len(), 2);
        }
        _ => panic!("no decider behavior"),
    }
    dc.init_control_behavior();
    assert_eq!(dc.outputs.len(), 0);
}

#[test]
fn arithmetic_setters_replace() {
    let mut ac = ArithmeticCombinator::new(None);
    ac.set_first_signal("signal-dot".to_string(), "virtual".to_string());
    ac.set_first_signal("signal-A".to_string(), "virtual".to_string());
    ac.set_second_signal("signal-B".to_string(), "virtual".to_string());
    ac.set_operation("*".to_string());
    ac.set_operation("/".to_string());
    ac.set_first_constant(3);
    ac.set_second_constant(60);
    ac.set_output_signal("signal-C".to_string(), "".to_string());
    let e = ac.entity();
    assert_eq!(e.name, Some("arithmetic-combinator".to_string()));
    match e.control_behavior {
        ControlBehavior::Arithmetic(a) => {
            assert_eq!(a.first_signal.unwrap().name, "signal-A");
            assert_eq!(a.second_signal.unwrap().name, "signal-B");
            assert_eq!(a.operation, Some("/".to_string()));
            assert_eq!(a.first_constant, Some(3));
            assert_eq!(a.second_constant, Some(60));
            let out = a.output_signal.unwrap();
            assert_eq!(out.name, "signal-C");
            assert_eq!(out.signal_type, Some("".to_string()));
        }
        _ => panic!("no arithmetic behavior"),
    }
    ac.init_control_behavior();
    assert!(ac.conditions.operation.is_none());
    assert!(ac.conditions.second_constant.is_none());
}

#[test]
fn blueprint_of_a_document_and_back() {
    let mut bp = BluePrint::new(None);
    bp.label = Some("two".to_string());
    let mut a = Entity::new(None);
    let mut b = Entity::new(None);
    bp.add_entity(&mut a, true);
    bp.add_entity(&mut b, true);
    bp.connect_entity(&a, &b, ConnectionType::OutputInput, WireColors { red: true, green: false })
        .unwrap();
    let again = BluePrint::new(Some(bp.get_dict()));
    assert_eq!(again.get_entities_number(), 2);
    assert_eq!(again.entities[1].entity_number, Some(2));
    assert_eq!(again.label, Some("two".to_string()));
    assert_eq!(again.wires, Some(vec![wire(1, 3, 2, 1)]));
    assert_eq!(again.icons.len(), 0);
    let doc = again.get_dict();
    assert!(doc.icons.is_none());
    assert_eq!(doc.entities.unwrap().len(), 2);
}

#[test]
fn connection_codes() {
    assert_eq!(ConnectionType::from_code("ii"), Some(ConnectionType::InputInput));
    assert_eq!(ConnectionType::from_code("io"), Some(ConnectionType::InputOutput));
    assert_eq!(ConnectionType::from_code("oi"), Some(ConnectionType::OutputInput));
    assert_eq!(ConnectionType::from_code("oo"), Some(ConnectionType::OutputOutput));
    assert_eq!(ConnectionType::from_code(""), None);
    assert_eq!(ConnectionType::from_code("i"), None);
    assert_eq!(ConnectionType::from_code("iio"), None);
    assert_eq!(ConnectionType::from_code("ix"), None);
    assert_eq!(ConnectionType::from_code("II"), None);
    assert_eq!(WireColors::from_letters("r"), WireColors { red: true, green: false });
    assert_eq!(WireColors::from_letters("g"), WireColors { red: false, green: true });
    assert_eq!(WireColors::from_letters("rg"), WireColors { red: true, green: true });
    assert_eq!(WireColors::from_letters("green"), WireColors { red: true, green: true });
    assert_eq!(WireColors::from_letters(""), WireColors { red: false, green: false });
    assert_eq!(WireColors::from_letters("xyz"), WireColors { red: false, green: false });
    assert!(blueprints::blueprint::holds_letter("\u{e9}g", 'g'));
    assert!(!blueprints::blueprint::holds_letter("\u{e9}g", 'r'));
}

#[test]
fn connecting_by_code() {
    let mut bp = BluePrint::new(None);
    let mut a = Entity::new(None);
    let mut b = Entity::new(None);
    let c = Entity::new(None);
    bp.add_entity(&mut a, true);
    bp.add_entity(&mut b, true);
    assert_eq!(bp.connect_entity_coded(&a, &c, "ii", "r"), Err(KeyError));
    assert!(bp.wires.is_none());
    assert_eq!(bp.connect_entity_coded(&a, &b, "xx", "r"), Err(KeyError));
    assert_eq!(bp.wires, Some(vec![]));
    assert_eq!(bp.connect_entity_coded(&a, &b, "oi", "g"), Ok(()));
    assert_eq!(bp.connect_entity_coded(&a, &b, "oo", "rg"), Ok(()));
    assert_eq!(bp.connect_entity_coded(&b, &a, "io", ""), Ok(()));
    assert_eq!(bp.wires, Some(vec![wire(1, 4, 2, 2), wire(1, 3, 2, 3), wire(1, 4, 2, 4)]));
}

#[test]
fn base_of_an_entity() {
    let mut e = Entity::new(None);
    e.entity_number = Some(4);
    e.name = Some("small-lamp".to_string());
    e.entity_type = Some("lamp".to_string());
    e.position_x = 3;
    e.position_y = -5;
    e.direction = Some(12);
    e.always_on = Some(true);
    e.control_behavior = ControlBehavior::Sections(vec![]);
    let base = Entity::new(Some(e));
    assert_eq!(base.entity_number, Some(4));
    assert_eq!(base.name, Some("small-lamp".to_string()));
    assert_eq!(base.entity_type, Some("lamp".to_string()));
    assert_eq!((base.position_x, base.position_y), (3, -5));
    assert_eq!(base.direction, Some(12));
    assert_eq!(base.always_on, None);
    assert!(matches!(base.control_behavior, ControlBehavior::Absent));
}

#[test]
fn combinator_on_an_entity_keeps_its_behavior() {
    let mut cc = ConstantCombinator::new(None);
    cc.set_filter(2, 1, "signal-A".to_string(), "virtual".to_string(), 9, "normal".to_string());
    let mut e = cc.entity();
    e.entity_number = Some(5);
    let again = ConstantCombinator::new(Some(e));
    assert_eq!(again.filter_count, 0);
    assert_eq!(again.sections.len(), 1);
    assert_eq!(again.sections[0].index, 2);
    assert_eq!(again.pe.entity_number, Some(5));
    assert!(matches!(again.pe.control_behavior, ControlBehavior::Absent));
    let other = DeciderCombinator::new(Some(again.entity()));
    assert_eq!(other.conditions.len(), 0);
    assert_eq!(other.outputs.len(), 0);
    assert_eq!(other.pe.entity_number, Some(5));
    assert_eq!(other.name, "decider-combinator");
}
