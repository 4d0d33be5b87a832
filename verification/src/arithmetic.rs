//! The arithmetic combinator: an entity that computes one operation on two
//! operands.
use vstd::prelude::*;
use crate::entity::{Entity, EntityView};
use crate::records::{
    ArithmeticConditions, ArithmeticConditionsView, ControlBehavior, ControlBehaviorView,
    Signal, SignalView,
};

verus! {

/// An arithmetic combinator under construction: the base entity and the
/// operands, operator and result signal set so far.
#[derive(Debug)]
pub struct ArithmeticCombinator {
    pub pe: Entity,
    pub name: String,
    pub conditions: ArithmeticConditions,
}

/// What an [`ArithmeticCombinator`] holds, as mathematical values.
pub struct ArithmeticCombinatorView {
    pub pe: EntityView,
    pub name: Seq<char>,
    pub conditions: ArithmeticConditionsView,
}

impl DeepView for ArithmeticCombinator {
    type V = ArithmeticCombinatorView;

    open spec fn deep_view(&self) -> ArithmeticCombinatorView {
        ArithmeticCombinatorView {
            pe: self.pe.deep_view(),
            name: self.name@,
            conditions: self.conditions.deep_view(),
        }
    }
}

/// The signal of that name and category, both written out.
pub open spec fn typed_signal(name: Seq<char>, type1: Seq<char>) -> Option<SignalView> {
    Some(SignalView { name, signal_type: Some(type1) })
}

impl ArithmeticConditionsView {
    /// The behavior with nothing set.
    pub open spec fn blank() -> ArithmeticConditionsView {
        ArithmeticConditionsView {
            first_signal: None,
            second_signal: None,
            output_signal: None,
            operation: None,
            first_constant: None,
            second_constant: None,
        }
    }
}

impl ArithmeticCombinatorView {
    /// The entity that the combinator stands for.
    pub open spec fn entity(self) -> EntityView {
        EntityView {
            name: Some(self.name),
            control_behavior: ControlBehaviorView::Arithmetic(self.conditions),
            ..self.pe
        }
    }
}

/// A behavior with nothing set.
fn blank_conditions() -> (conditions: ArithmeticConditions)
    ensures
        conditions.deep_view() == ArithmeticConditionsView::blank(),
{
    ArithmeticConditions {
        first_signal: None,
        second_signal: None,
        output_signal: None,
        operation: None,
        first_constant: None,
        second_constant: None,
    }
}

impl ArithmeticCombinator {
    /// An arithmetic combinator on the given base entity, or on a blank
    /// one. A behavior that the entity already carries is kept.
    pub fn new(entity: Option<Entity>) -> (combinator: Self)
        ensures
            combinator.deep_view() == (ArithmeticCombinatorView {
                pe: match entity {
                    Some(e) => e.deep_view().base(),
                    None => EntityView::blank(),
                },
                name: "arithmetic-combinator"@,
                conditions: match entity {
                    Some(e) => match e.deep_view().control_behavior {
                        ControlBehaviorView::Arithmetic(a) => a,
                        _ => ArithmeticConditionsView::blank(),
                    },
                    None => ArithmeticConditionsView::blank(),
                },
            }),
    {
        let mut behavior = ControlBehavior::Absent;
        let pe = match entity {
            Some(e) => {
                let mut e = e;
                std::mem::swap(&mut e.control_behavior, &mut behavior);
                Entity::new(Some(e))
            },
            None => Entity::new(None),
        };
        let conditions = match behavior {
            ControlBehavior::Arithmetic(a) => a,
            _ => blank_conditions(),
        };
        ArithmeticCombinator { pe, name: "arithmetic-combinator".to_owned(), conditions }
    }

    /// Empties the behavior: nothing is set any more.
    pub fn init_control_behavior(&mut self)
        ensures
            final(self).deep_view() == (ArithmeticCombinatorView {
                conditions: ArithmeticConditionsView::blank(),
                ..old(self).deep_view()
            }),
    {
        self.conditions = blank_conditions();
    }

    /// Sets the first operand to a signal.
    pub fn set_first_signal(&mut self, name: String, type1: String)
        ensures
            final(self).deep_view() == (ArithmeticCombinatorView {
                conditions: ArithmeticConditionsView {
                    first_signal: typed_signal(name@, type1@),
                    ..old(self).deep_view().conditions
                },
                ..old(self).deep_view()
            }),
    {
        self.conditions.first_signal = Some(Signal { name, signal_type: Some(type1) });
    }

    /// Sets the second operand to a signal.
    pub fn set_second_signal(&mut self, name: String, type1: String)
        ensures
            final(self).deep_view() == (ArithmeticCombinatorView {
                conditions: ArithmeticConditionsView {
                    second_signal: typed_signal(name@, type1@),
                    ..old(self).deep_view().conditions
                },
                ..old(self).deep_view()
            }),
    {
        self.conditions.second_signal = Some(Signal { name, signal_type: Some(type1) });
    }

    /// Sets the signal that carries the result.
    pub fn set_output_signal(&mut self, name: String, type1: String)
        ensures
            final(self).deep_view() == (ArithmeticCombinatorView {
                conditions: ArithmeticConditionsView {
                    output_signal: typed_signal(name@, type1@),
                    ..old(self).deep_view().conditions
                },
                ..old(self).deep_view()
            }),
    {
        self.conditions.output_signal = Some(Signal { name, signal_type: Some(type1) });
    }

    /// Sets the operator symbol.
    pub fn set_operation(&mut self, operation: String)
        ensures
            final(self).deep_view() == (ArithmeticCombinatorView {
                conditions: ArithmeticConditionsView {
                    operation: Some(operation@),
                    ..old(self).deep_view().conditions
                },
                ..old(self).deep_view()
            }),
    {
        self.conditions.operation = Some(operation);
    }

    /// Sets the first operand to a constant.
    pub fn set_first_constant(&mut self, constant: i64)
        ensures
            final(self).deep_view() == (ArithmeticCombinatorView {
                conditions: ArithmeticConditionsView {
                    first_constant: Some(constant as int),
                    ..old(self).deep_view().conditions
                },
                ..old(self).deep_view()
            }),
    {
        self.conditions.first_constant = Some(constant);
    }

    /// Sets the second operand to a constant.
    pub fn set_second_constant(&mut self, constant: i64)
        ensures
            final(self).deep_view() == (ArithmeticCombinatorView {
                conditions: ArithmeticConditionsView {
                    second_constant: Some(constant as int),
                    ..old(self).deep_view().conditions
                },
                ..old(self).deep_view()
            }),
    {
        self.conditions.second_constant = Some(constant);
    }

    /// The combinator as an entity: the base entity under the combinator's
    /// name, with the operands and operator as its behavior.
    pub fn entity(&self) -> (entity: Entity)
        ensures
            entity.deep_view() == self.deep_view().entity(),
    {
        let mut entity = self.pe.clone();
        entity.name = Some(self.name.clone());
        entity.control_behavior = ControlBehavior::Arithmetic(self.conditions.clone());
        entity
    }
}

} // verus!
