//! A placed circuit element.
use vstd::prelude::*;
use crate::records::{clone_text, int_of, ControlBehavior, ControlBehaviorView};

verus! {

/// One placed element: a lamp or a combinator.
///
/// The position is held in half tiles, so that `position_x == 3` stands for
/// the coordinate 1.5: every coordinate that the builders use is a multiple
/// of one half.
#[derive(Debug)]
pub struct Entity {
    pub entity_number: Option<i64>,
    pub name: Option<String>,
    pub entity_type: Option<String>,
    pub position_x: i64,
    pub position_y: i64,
    pub direction: Option<i64>,
    pub control_behavior: ControlBehavior,
    pub always_on: Option<bool>,
}

/// What an [`Entity`] holds, as mathematical values.
pub struct EntityView {
    pub entity_number: Option<int>,
    pub name: Option<Seq<char>>,
    pub entity_type: Option<Seq<char>>,
    pub position_x: int,
    pub position_y: int,
    pub direction: Option<int>,
    pub control_behavior: ControlBehaviorView,
    pub always_on: Option<bool>,
}

impl DeepView for Entity {
    type V = EntityView;

    open spec fn deep_view(&self) -> EntityView {
        EntityView {
            entity_number: int_of(self.entity_number),
            name: self.name.deep_view(),
            entity_type: self.entity_type.deep_view(),
            position_x: self.position_x as int,
            position_y: self.position_y as int,
            direction: int_of(self.direction),
            control_behavior: self.control_behavior.deep_view(),
            always_on: self.always_on,
        }
    }
}

impl Clone for Entity {
    fn clone(&self) -> (copy: Self)
        ensures
            copy.deep_view() == self.deep_view(),
    {
        Entity {
            entity_number: self.entity_number,
            name: clone_text(&self.name),
            entity_type: clone_text(&self.entity_type),
            position_x: self.position_x,
            position_y: self.position_y,
            direction: self.direction,
            control_behavior: self.control_behavior.clone(),
            always_on: self.always_on,
        }
    }
}

impl EntityView {
    /// Whether the entity carries a positive number, as a wire end must.
    pub open spec fn numbered(self) -> bool {
        self.entity_number matches Some(n) && n > 0
    }

    /// What all entities have: the entity without its behavior.
    pub open spec fn base(self) -> EntityView {
        EntityView { control_behavior: ControlBehaviorView::Absent, always_on: None, ..self }
    }

    /// The entity with nothing set, at the origin.
    pub open spec fn blank() -> EntityView {
        EntityView {
            entity_number: None,
            name: None,
            entity_type: None,
            position_x: 0,
            position_y: 0,
            direction: None,
            control_behavior: ControlBehaviorView::Absent,
            always_on: None,
        }
    }
}

impl Entity {
    /// The base of the given entity: its number, name, category, position
    /// and direction, without a behavior. Without an entity, one with nothing
    /// set, at the origin.
    pub fn new(entity: Option<Entity>) -> (base: Self)
        ensures
            base.deep_view() == match entity {
                Some(e) => e.deep_view().base(),
                None => EntityView::blank(),
            },
    {
        match entity {
            Some(e) => Entity {
                entity_number: e.entity_number,
                name: e.name,
                entity_type: e.entity_type,
                position_x: e.position_x,
                position_y: e.position_y,
                direction: e.direction,
                control_behavior: ControlBehavior::Absent,
                always_on: None,
            },
            None => Entity {
                entity_number: None,
                name: None,
                entity_type: None,
                position_x: 0,
                position_y: 0,
                direction: None,
                control_behavior: ControlBehavior::Absent,
                always_on: None,
            },
        }
    }

    /// The entity as it enters a document: a copy of itself.
    pub fn get_dict(&self) -> (copy: Entity)
        ensures
            copy.deep_view() == self.deep_view(),
    {
        self.clone()
    }

    /// Replaces the name, the category, or both; a `None` leaves the field
    /// as it is.
    pub fn replace(&mut self, name: Option<String>, type1: Option<String>)
        ensures
            final(self).deep_view() == (EntityView {
                name: if name.is_some() { name.deep_view() } else { old(self).deep_view().name },
                entity_type: if type1.is_some() {
                    type1.deep_view()
                } else {
                    old(self).deep_view().entity_type
                },
                ..old(self).deep_view()
            }),
    {
        if name.is_some() {
            self.name = name;
        }
        if type1.is_some() {
            self.entity_type = type1;
        }
    }

    /// Turns the entity to face `direction`.
    pub fn rotate(&mut self, direction: i64)
        ensures
            final(self).deep_view() == (EntityView {
                direction: Some(direction as int),
                ..old(self).deep_view()
            }),
    {
        self.direction = Some(direction);
    }

    /// Whether the entity has a positive number.
    pub fn check_entity_number(&self) -> (numbered: bool)
        ensures
            numbered == self.deep_view().numbered(),
    {
        match self.entity_number {
            Some(n) => n > 0,
            None => false,
        }
    }
}

} // verus!
