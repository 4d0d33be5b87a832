//! The decider combinator: an entity that compares signals and emits
//! signals where the comparisons hold.
use vstd::prelude::*;
use crate::entity::{Entity, EntityView};
use crate::records::{
    clone_conditions, clone_outputs, Condition, ConditionView, ControlBehavior,
    ControlBehaviorView, Networks, Output, OutputView, Signal, SignalView,
};

verus! {

/// What a condition is made from. An empty text stands for "not given".
#[derive(Debug)]
pub struct AddConditionParams {
    pub comparator: String,
    pub constant: i64,
    pub first_signal_name: String,
    pub first_signal_type: String,
    pub first_use_red_network: bool,
    pub first_use_green_network: bool,
    pub second_signal_name: String,
    pub second_signal_type: String,
    pub second_use_red_network: bool,
    pub second_use_green_network: bool,
}

impl Default for AddConditionParams {
    /// The comparison `<` against nothing yet, read from both networks on
    /// both sides.
    fn default() -> (params: Self)
        ensures
            params.comparator@ == "<"@,
            params.constant == 0,
            params.first_signal_name@.len() == 0,
            params.first_signal_type@.len() == 0,
            params.first_use_red_network,
            params.first_use_green_network,
            params.second_signal_name@.len() == 0,
            params.second_signal_type@.len() == 0,
            params.second_use_red_network,
            params.second_use_green_network,
    {
        AddConditionParams {
            comparator: "<".to_owned(),
            constant: 0,
            first_signal_name: String::new(),
            first_signal_type: String::new(),
            first_use_red_network: true,
            first_use_green_network: true,
            second_signal_name: String::new(),
            second_signal_type: String::new(),
            second_use_red_network: true,
            second_use_green_network: true,
        }
    }
}

/// What an output is made from. An empty text stands for "not given".
#[derive(Debug)]
pub struct AddOutPutParams {
    pub signal_name: String,
    pub signal_type: String,
    pub copy_count_from_input: bool,
    pub use_red_network: bool,
    pub use_green_network: bool,
}

impl Default for AddOutPutParams {
    /// No signal yet, the count copied from the input, both networks.
    fn default() -> (params: Self)
        ensures
            params.signal_name@.len() == 0,
            params.signal_type@.len() == 0,
            params.copy_count_from_input,
            params.use_red_network,
            params.use_green_network,
    {
        AddOutPutParams {
            signal_name: String::new(),
            signal_type: String::new(),
            copy_count_from_input: true,
            use_red_network: true,
            use_green_network: true,
        }
    }
}

/// A text, or `None` where it is empty.
pub open spec fn given(text: Seq<char>) -> Option<Seq<char>> {
    if text.len() == 0 {
        None
    } else {
        Some(text)
    }
}

/// The signal of that name and category. With an empty name there is no
/// signal at all; an empty category is left out.
pub open spec fn signal_of(name: Seq<char>, type1: Seq<char>) -> Option<SignalView> {
    if name.len() == 0 {
        None
    } else {
        Some(SignalView { name, signal_type: given(type1) })
    }
}

/// The condition record that the parameters describe: the constant is kept
/// only where it is positive.
pub open spec fn condition_of(params: AddConditionParams) -> ConditionView {
    ConditionView {
        comparator: given(params.comparator@),
        constant: if params.constant > 0 { Some(params.constant as int) } else { None },
        first_signal: signal_of(params.first_signal_name@, params.first_signal_type@),
        first_signal_networks: Networks {
            red: params.first_use_red_network,
            green: params.first_use_green_network,
        },
        second_signal: signal_of(params.second_signal_name@, params.second_signal_type@),
        second_signal_networks: Networks {
            red: params.second_use_red_network,
            green: params.second_use_green_network,
        },
    }
}

/// The output record that the parameters describe.
pub open spec fn output_of(params: AddOutPutParams) -> OutputView {
    OutputView {
        signal: signal_of(params.signal_name@, params.signal_type@),
        copy_count_from_input: params.copy_count_from_input,
        networks: Networks { red: params.use_red_network, green: params.use_green_network },
    }
}

/// A text, or `None` where it is empty.
pub fn given_text(text: String) -> (kept: Option<String>)
    ensures
        kept.deep_view() == given(text@),
{
    if text.as_str().is_empty() {
        None
    } else {
        Some(text)
    }
}

/// The signal of that name and category, where the name is not empty.
pub fn make_signal(name: String, type1: String) -> (signal: Option<Signal>)
    ensures
        signal.deep_view() == signal_of(name@, type1@),
{
    if name.as_str().is_empty() {
        None
    } else {
        Some(Signal { name, signal_type: given_text(type1) })
    }
}

/// A decider combinator under construction: the base entity and the
/// conditions and outputs gathered so far.
#[derive(Debug)]
pub struct DeciderCombinator {
    pub pe: Entity,
    pub name: String,
    pub conditions: Vec<Condition>,
    pub outputs: Vec<Output>,
}

/// What a [`DeciderCombinator`] holds, as mathematical values.
pub struct DeciderCombinatorView {
    pub pe: EntityView,
    pub name: Seq<char>,
    pub conditions: Seq<ConditionView>,
    pub outputs: Seq<OutputView>,
}

impl DeepView for DeciderCombinator {
    type V = DeciderCombinatorView;

    open spec fn deep_view(&self) -> DeciderCombinatorView {
        DeciderCombinatorView {
            pe: self.pe.deep_view(),
            name: self.name@,
            conditions: self.conditions.deep_view(),
            outputs: self.outputs.deep_view(),
        }
    }
}

impl DeciderCombinatorView {
    /// The entity that the combinator stands for.
    pub open spec fn entity(self) -> EntityView {
        EntityView {
            name: Some(self.name),
            control_behavior: ControlBehaviorView::Decider {
                conditions: self.conditions,
                outputs: self.outputs,
            },
            ..self.pe
        }
    }
}

impl DeciderCombinator {
    /// A decider combinator on the given base entity, or on a blank one.
    /// Conditions and outputs that the entity already carries are kept.
    pub fn new(entity: Option<Entity>) -> (combinator: Self)
        ensures
            combinator.deep_view() == (DeciderCombinatorView {
                pe: match entity {
                    Some(e) => e.deep_view().base(),
                    None => EntityView::blank(),
                },
                name: "decider-combinator"@,
                conditions: match entity {
                    Some(e) => match e.deep_view().control_behavior {
                        ControlBehaviorView::Decider { conditions, outputs } => conditions,
                        _ => Seq::empty(),
                    },
                    None => Seq::empty(),
                },
                outputs: match entity {
                    Some(e) => match e.deep_view().control_behavior {
                        ControlBehaviorView::Decider { conditions, outputs } => outputs,
                        _ => Seq::empty(),
                    },
                    None => Seq::empty(),
                },
            }),
    {
        let mut behavior = ControlBehavior::Absent;
        let pe = match entity {
            Some(e) => {
                let mut e = e;
                std::mem::swap(&mut e.control_behavior, &mut behavior);
                Entity::new(Some(e))
            },
            None => Entity::new(None),
        };
        let (conditions, outputs) = match behavior {
            ControlBehavior::Decider { conditions, outputs } => (conditions, outputs),
            _ => {
                let c: Vec<Condition> = Vec::new();
                let o: Vec<Output> = Vec::new();
                assert(c.deep_view() =~= Seq::empty());
                assert(o.deep_view() =~= Seq::empty());
                (c, o)
            },
        };
        DeciderCombinator { pe, name: "decider-combinator".to_owned(), conditions, outputs }
    }

    /// Empties the behavior: no condition and no output is left.
    pub fn init_control_behavior(&mut self)
        ensures
            final(self).deep_view() == (DeciderCombinatorView {
                conditions: Seq::empty(),
                outputs: Seq::empty(),
                ..old(self).deep_view()
            }),
    {
        self.conditions = Vec::new();
        self.outputs = Vec::new();
        assert(self.conditions.deep_view() =~= Seq::empty());
        assert(self.outputs.deep_view() =~= Seq::empty());
    }

    /// Appends the condition that the parameters describe.
    pub fn add_condition(&mut self, params: AddConditionParams)
        ensures
            final(self).deep_view() == (DeciderCombinatorView {
                conditions: old(self).deep_view().conditions.push(condition_of(params)),
                ..old(self).deep_view()
            }),
    {
        let ghost before = self.conditions.deep_view();
        let ghost view = condition_of(params);
        let AddConditionParams {
            comparator,
            constant,
            first_signal_name,
            first_signal_type,
            first_use_red_network,
            first_use_green_network,
            second_signal_name,
            second_signal_type,
            second_use_red_network,
            second_use_green_network,
        } = params;
        let item = Condition {
            comparator: given_text(comparator),
            constant: if constant > 0 { Some(constant) } else { None },
            first_signal: make_signal(first_signal_name, first_signal_type),
            first_signal_networks: Networks {
                red: first_use_red_network,
                green: first_use_green_network,
            },
            second_signal: make_signal(second_signal_name, second_signal_type),
            second_signal_networks: Networks {
                red: second_use_red_network,
                green: second_use_green_network,
            },
        };
        assert(item.deep_view() == view);
        self.conditions.push(item);
        assert(self.conditions.deep_view() =~= before.push(view));
    }

    /// Appends the output that the parameters describe.
    pub fn add_output(&mut self, params: AddOutPutParams)
        ensures
            final(self).deep_view() == (DeciderCombinatorView {
                outputs: old(self).deep_view().outputs.push(output_of(params)),
                ..old(self).deep_view()
            }),
    {
        let ghost before = self.outputs.deep_view();
        let ghost view = output_of(params);
        let AddOutPutParams {
            signal_name,
            signal_type,
            copy_count_from_input,
            use_red_network,
            use_green_network,
        } = params;
        let item = Output {
            signal: make_signal(signal_name, signal_type),
            copy_count_from_input,
            networks: Networks { red: use_red_network, green: use_green_network },
        };
        assert(item.deep_view() == view);
        self.outputs.push(item);
        assert(self.outputs.deep_view() =~= before.push(view));
    }

    /// The combinator as an entity: the base entity under the combinator's
    /// name, with the conditions and outputs as its behavior.
    pub fn entity(&self) -> (entity: Entity)
        ensures
            entity.deep_view() == self.deep_view().entity(),
    {
        let mut entity = self.pe.clone();
        entity.name = Some(self.name.clone());
        entity.control_behavior = ControlBehavior::Decider {
            conditions: clone_conditions(&self.conditions),
            outputs: clone_outputs(&self.outputs),
        };
        entity
    }
}

} // verus!
