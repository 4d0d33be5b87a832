//! The blueprint: the entities, icons and wires of one circuit.
use vstd::prelude::*;
use crate::entity::{Entity, EntityView};
use crate::error::KeyError;
use crate::icon::{Icon, IconView};
use crate::records::{clone_text, int_of};

verus! {

/// One wire: the number and the port of each of its two ends.
#[derive(Debug, Clone, Copy, PartialEq, Eq, Structural)]
pub struct Wire {
    pub first: i64,
    pub first_port: i64,
    pub second: i64,
    pub second_port: i64,
}

/// Which side of the first and of the second entity a wire joins.
#[derive(Debug, Clone, Copy, PartialEq, Eq, Structural)]
pub enum ConnectionType {
    InputInput,
    InputOutput,
    OutputInput,
    OutputOutput,
}

/// The set of wire colors that a connection is made in.
#[derive(Debug, Clone, Copy, PartialEq, Eq, Structural)]
pub struct WireColors {
    pub red: bool,
    pub green: bool,
}

impl WireColors {
    /// The number of colors in the set.
    pub open spec fn count(self) -> nat {
        (if self.red { 1nat } else { 0nat }) + (if self.green { 1nat } else { 0nat })
    }
}

impl ConnectionType {
    /// Whether the wire leaves the first entity at its output side.
    pub open spec fn first_is_output(self) -> bool {
        self == ConnectionType::OutputInput || self == ConnectionType::OutputOutput
    }

    /// Whether the wire reaches the second entity at its output side.
    pub open spec fn second_is_output(self) -> bool {
        self == ConnectionType::InputOutput || self == ConnectionType::OutputOutput
    }
}

/// The connection that a two-letter code names: the first letter is the
/// side of the first entity, the second that of the second, `i` for input
/// and `o` for output. Any other text names none.
pub open spec fn connection_of(code: Seq<char>) -> Option<ConnectionType> {
    if code == seq!['i', 'i'] {
        Some(ConnectionType::InputInput)
    } else if code == seq!['i', 'o'] {
        Some(ConnectionType::InputOutput)
    } else if code == seq!['o', 'i'] {
        Some(ConnectionType::OutputInput)
    } else if code == seq!['o', 'o'] {
        Some(ConnectionType::OutputOutput)
    } else {
        None
    }
}

/// The colors that a text names: red where it holds an `r`, green where it
/// holds a `g`.
pub open spec fn colors_named(letters: Seq<char>) -> WireColors {
    WireColors { red: letters.contains('r'), green: letters.contains('g') }
}

/// Whether the text holds the letter.
pub fn holds_letter(text: &str, letter: char) -> (found: bool)
    ensures
        found == text@.contains(letter),
{
    let len = text.unicode_len();
    let mut i: usize = 0;
    while i < len
        invariant
            i <= len,
            len == text@.len(),
            forall|j: int| 0 <= j < i ==> text@[j] != letter,
        decreases len - i,
    {
        if text.get_char(i) == letter {
            return true;
        }
        i += 1;
    }
    false
}

impl ConnectionType {
    /// Reads a two-letter code such as `io`.
    pub fn from_code(code: &str) -> (connection: Option<ConnectionType>)
        ensures
            connection == connection_of(code@),
    {
        if code.unicode_len() != 2 {
            assert(connection_of(code@).is_none());
            return None;
        }
        let first = code.get_char(0);
        let second = code.get_char(1);
        assert(code@ =~= seq![first, second]);
        assert(seq![first, second][0] == first && seq![first, second][1] == second);
        if first == 'i' && second == 'i' {
            Some(ConnectionType::InputInput)
        } else if first == 'i' && second == 'o' {
            Some(ConnectionType::InputOutput)
        } else if first == 'o' && second == 'i' {
            Some(ConnectionType::OutputInput)
        } else if first == 'o' && second == 'o' {
            Some(ConnectionType::OutputOutput)
        } else {
            assert(seq!['i', 'i'][0] == 'i' && seq!['i', 'i'][1] == 'i');
            assert(seq!['i', 'o'][0] == 'i' && seq!['i', 'o'][1] == 'o');
            assert(seq!['o', 'i'][0] == 'o' && seq!['o', 'i'][1] == 'i');
            assert(seq!['o', 'o'][0] == 'o' && seq!['o', 'o'][1] == 'o');
            None
        }
    }
}

impl WireColors {
    /// Reads the colors from a text such as `rg`.
    pub fn from_letters(letters: &str) -> (colors: WireColors)
        ensures
            colors == colors_named(letters@),
    {
        WireColors { red: holds_letter(letters, 'r'), green: holds_letter(letters, 'g') }
    }
}

/// The port of one side on one network: 1 input red, 2 input green,
/// 3 output red, 4 output green.
pub open spec fn port(output: bool, green: bool) -> int {
    (if output { 3int } else { 1int }) + (if green { 1int } else { 0int })
}

/// The wire of one color between entities `first` and `second`.
pub open spec fn wire_between(first: i64, second: i64, code: ConnectionType, green: bool) -> Wire {
    Wire {
        first,
        first_port: port(code.first_is_output(), green) as i64,
        second,
        second_port: port(code.second_is_output(), green) as i64,
    }
}

/// The wires that one connection adds: the red one, where red is asked for,
/// then the green one, where green is.
pub open spec fn connection_wires(
    first: i64,
    second: i64,
    code: ConnectionType,
    colors: WireColors,
) -> Seq<Wire> {
    (if colors.red { seq![wire_between(first, second, code, false)] } else { Seq::empty() })
        + (if colors.green { seq![wire_between(first, second, code, true)] } else { Seq::empty() })
}

/// Whether both ends of the wire are entity numbers from 1 to `count`.
pub open spec fn joins_within(wire: Wire, count: int) -> bool {
    1 <= wire.first <= count && 1 <= wire.second <= count
}

/// Whether every wire of the list joins entities numbered 1 to `count`.
pub open spec fn all_join_within(wires: Seq<Wire>, count: int) -> bool {
    forall|k: int| 0 <= k < wires.len() ==> joins_within(#[trigger] wires[k], count)
}

/// The wires of one connection join the two entities that were named, at
/// ports from 1 to 4, and there is one for each color.
pub proof fn lemma_connection_wires(
    first: i64,
    second: i64,
    code: ConnectionType,
    colors: WireColors,
)
    ensures
        connection_wires(first, second, code, colors).len() == colors.count(),
        forall|k: int|
            0 <= k < connection_wires(first, second, code, colors).len() ==> {
                let wire = #[trigger] connection_wires(first, second, code, colors)[k];
                &&& wire.first == first
                &&& wire.second == second
                &&& 1 <= wire.first_port <= 4
                &&& 1 <= wire.second_port <= 4
            },
{
}

/// The graph of one circuit. Entities keep the order in which they were
/// added. The wire list comes into being with the first connection that passes
/// the check of its ends.
#[derive(Debug)]
pub struct BluePrint {
    pub entities: Vec<Entity>,
    pub icons: Vec<Icon>,
    pub label: Option<String>,
    pub description: Option<String>,
    pub version: Option<i64>,
    pub wires: Option<Vec<Wire>>,
}

/// What a [`BluePrint`] holds, as mathematical values.
pub struct BluePrintView {
    pub entities: Seq<EntityView>,
    pub icons: Seq<IconView>,
    pub label: Option<Seq<char>>,
    pub description: Option<Seq<char>>,
    pub version: Option<int>,
    pub wires: Option<Seq<Wire>>,
}

/// An optional list of wires as an optional sequence.
pub open spec fn wires_of(wires: Option<Vec<Wire>>) -> Option<Seq<Wire>> {
    match wires {
        Some(w) => Some(w@),
        None => None,
    }
}

impl DeepView for BluePrint {
    type V = BluePrintView;

    open spec fn deep_view(&self) -> BluePrintView {
        BluePrintView {
            entities: self.entities.deep_view(),
            icons: self.icons.deep_view(),
            label: self.label.deep_view(),
            description: self.description.deep_view(),
            version: int_of(self.version),
            wires: wires_of(self.wires),
        }
    }
}

/// A blueprint as it is exchanged: the object under the key `blueprint`.
/// A field that is `None` is left out, except `wires`, which is then
/// written as the absent marker.
#[derive(Debug)]
pub struct Document {
    pub item: String,
    pub entities: Option<Vec<Entity>>,
    pub icons: Option<Vec<Icon>>,
    pub label: Option<String>,
    pub description: Option<String>,
    pub version: Option<i64>,
    pub wires: Option<Vec<Wire>>,
}

/// What a [`Document`] holds, as mathematical values.
pub struct DocumentView {
    pub item: Seq<char>,
    pub entities: Option<Seq<EntityView>>,
    pub icons: Option<Seq<IconView>>,
    pub label: Option<Seq<char>>,
    pub description: Option<Seq<char>>,
    pub version: Option<int>,
    pub wires: Option<Seq<Wire>>,
}

impl DeepView for Document {
    type V = DocumentView;

    open spec fn deep_view(&self) -> DocumentView {
        DocumentView {
            item: self.item@,
            entities: self.entities.deep_view(),
            icons: self.icons.deep_view(),
            label: self.label.deep_view(),
            description: self.description.deep_view(),
            version: int_of(self.version),
            wires: wires_of(self.wires),
        }
    }
}

impl DocumentView {
    /// The blueprint that a document describes: a list that is left out
    /// is empty.
    pub open spec fn blueprint(self) -> BluePrintView {
        BluePrintView {
            entities: match self.entities {
                Some(e) => e,
                None => Seq::empty(),
            },
            icons: match self.icons {
                Some(i) => i,
                None => Seq::empty(),
            },
            label: self.label,
            description: self.description,
            version: self.version,
            wires: self.wires,
        }
    }

    /// Whether the document is written as a blueprint writes it: under the
    /// item name of blueprints, and with no list that is written out empty.
    pub open spec fn canonical(self) -> bool {
        &&& self.item == "blueprint"@
        &&& self.entities matches Some(e) ==> e.len() > 0
        &&& self.icons matches Some(i) ==> i.len() > 0
    }
}

/// A blueprint that is written as a document and read again is the same
/// blueprint.
pub proof fn lemma_blueprint_survives_document(blueprint: BluePrintView)
    ensures
        blueprint.document().canonical(),
        blueprint.document().blueprint() == blueprint,
{
    assert(blueprint.document().blueprint().entities =~= blueprint.entities);
    assert(blueprint.document().blueprint().icons =~= blueprint.icons);
}

/// A canonical document that is read as a blueprint and written again is
/// the same document.
pub proof fn lemma_document_survives_blueprint(document: DocumentView)
    requires
        document.canonical(),
    ensures
        document.blueprint().document() == document,
{
}

/// An entity that was never added to a blueprint cannot end a wire; one
/// that was added with automatic numbering can.
pub proof fn lemma_numbering_enables_wiring(count: nat, entity: EntityView)
    ensures
        !EntityView::blank().numbered(),
        numbered_for(count, entity, true).numbered(),
        numbered_for(count, entity, false).numbered() == entity.numbered(),
{
}

/// Whether each entity carries its place in the list, counted from 1, as
/// its number.
pub open spec fn numbered_in_order(entities: Seq<EntityView>) -> bool {
    forall|i: int| 0 <= i < entities.len() ==> (#[trigger] entities[i]).entity_number == Some(i + 1)
}

/// Where every entity was added with automatic numbering, the numbers are
/// exactly 1 to the count of entities, in the order of the additions: the
/// empty blueprint is numbered so, and one more such addition keeps it so.
pub proof fn lemma_auto_numbering_is_dense(blueprint: BluePrintView, entity: EntityView)
    requires
        numbered_in_order(blueprint.entities),
    ensures
        numbered_in_order(BluePrintView::blank().entities),
        numbered_in_order(blueprint.with_entity(entity, true).entities),
        blueprint.with_entity(entity, true).entities.len() == blueprint.entities.len() + 1,
{
}

impl BluePrintView {
    /// The blueprint with nothing in it.
    pub open spec fn blank() -> BluePrintView {
        BluePrintView {
            entities: Seq::empty(),
            icons: Seq::empty(),
            label: None,
            description: None,
            version: None,
            wires: None,
        }
    }

    /// The document of the blueprint: an empty list of entities or of icons
    /// is left out, the other fields are taken over.
    pub open spec fn document(self) -> DocumentView {
        DocumentView {
            item: "blueprint"@,
            entities: if self.entities.len() > 0 { Some(self.entities) } else { None },
            icons: if self.icons.len() > 0 { Some(self.icons) } else { None },
            label: self.label,
            description: self.description,
            version: self.version,
            wires: self.wires,
        }
    }

    /// The wires so far, none where the list does not exist yet.
    pub open spec fn wires_so_far(self) -> Seq<Wire> {
        match self.wires {
            Some(w) => w,
            None => Seq::empty(),
        }
    }

    /// The blueprint after `entity` has been added: with `auto_number` the
    /// entity first gets the next number, counted from 1.
    pub open spec fn with_entity(self, entity: EntityView, auto_number: bool) -> BluePrintView {
        BluePrintView {
            entities: self.entities.push(numbered_for(self.entities.len(), entity, auto_number)),
            ..self
        }
    }

    /// The blueprint after a connection between `first` and `second`, both
    /// numbered, has been made.
    pub open spec fn with_connection(
        self,
        first: i64,
        second: i64,
        code: ConnectionType,
        colors: WireColors,
    ) -> BluePrintView {
        BluePrintView {
            wires: Some(self.wires_so_far() + connection_wires(first, second, code, colors)),
            ..self
        }
    }
}

/// The entity as it joins a blueprint that holds `count` entities.
pub open spec fn numbered_for(count: nat, entity: EntityView, auto_number: bool) -> EntityView {
    if auto_number {
        EntityView { entity_number: Some(count as int + 1), ..entity }
    } else {
        entity
    }
}

/// Copies a list of entities.
pub fn clone_entities(entities: &Vec<Entity>) -> (copy: Vec<Entity>)
    ensures
        copy.deep_view() == entities.deep_view(),
{
    let copy = entities.clone();
    assert(copy.deep_view() =~= entities.deep_view());
    copy
}

/// Copies a list of icons.
pub fn clone_icons(icons: &Vec<Icon>) -> (copy: Vec<Icon>)
    ensures
        copy.deep_view() == icons.deep_view(),
{
    let copy = icons.clone();
    assert(copy.deep_view() =~= icons.deep_view());
    copy
}

/// Copies an optional list of wires.
pub fn clone_wires(wires: &Option<Vec<Wire>>) -> (copy: Option<Vec<Wire>>)
    ensures
        wires_of(copy) == wires_of(*wires),
{
    match wires {
        Some(w) => {
            let c = w.clone();
            assert(c@ =~= w@);
            Some(c)
        },
        None => None,
    }
}

/// The number of a side's port on the red or the green network.
fn port_number(output: bool, green: bool) -> (p: i64)
    ensures
        p == port(output, green),
{
    let base: i64 = if output { 3 } else { 1 };
    if green { base + 1 } else { base }
}

impl BluePrint {
    /// The blueprint of a document, or, without one, a blueprint with
    /// nothing in it.
    pub fn new(blueprint_dict: Option<Document>) -> (blueprint: Self)
        ensures
            blueprint.deep_view() == match blueprint_dict {
                Some(document) => document.deep_view().blueprint(),
                None => BluePrintView::blank(),
            },
    {
        match blueprint_dict {
            Some(document) => {
                let entities = match document.entities {
                    Some(e) => e,
                    None => Vec::new(),
                };
                let icons = match document.icons {
                    Some(i) => i,
                    None => Vec::new(),
                };
                assert(document.entities.is_none() ==> entities.deep_view() =~= Seq::empty());
                assert(document.icons.is_none() ==> icons.deep_view() =~= Seq::empty());
                BluePrint {
                    entities,
                    icons,
                    label: document.label,
                    description: document.description,
                    version: document.version,
                    wires: document.wires,
                }
            },
            None => {
                let blueprint = BluePrint {
                    entities: Vec::new(),
                    icons: Vec::new(),
                    label: None,
                    description: None,
                    version: None,
                    wires: None,
                };
                assert(blueprint.entities.deep_view() =~= Seq::empty());
                assert(blueprint.icons.deep_view() =~= Seq::empty());
                blueprint
            },
        }
    }

    /// The document of the blueprint.
    pub fn get_dict(&self) -> (document: Document)
        ensures
            document.deep_view() == self.deep_view().document(),
    {
        let entities = if self.entities.len() > 0 {
            Some(clone_entities(&self.entities))
        } else {
            None
        };
        let icons = if self.icons.len() > 0 {
            Some(clone_icons(&self.icons))
        } else {
            None
        };
        Document {
            item: "blueprint".to_owned(),
            entities,
            icons,
            label: clone_text(&self.label),
            description: clone_text(&self.description),
            version: self.version,
            wires: clone_wires(&self.wires),
        }
    }

    /// The number of entities.
    pub fn get_entities_number(&self) -> (count: usize)
        ensures
            count == self.deep_view().entities.len(),
    {
        self.entities.len()
    }

    /// Appends a copy of `entity`. With `auto_number` the entity is first
    /// given the next free number, which is the new count of entities; without
    /// it the entity is taken as it is, numbered or not.
    pub fn add_entity(&mut self, entity: &mut Entity, auto_number: bool)
        requires
            old(self).deep_view().entities.len() < i64::MAX,
        ensures
            final(entity).deep_view() == numbered_for(
                old(self).deep_view().entities.len(),
                old(entity).deep_view(),
                auto_number,
            ),
            final(self).deep_view() == old(self).deep_view().with_entity(
                old(entity).deep_view(),
                auto_number,
            ),
    {
        assert(self.entities.deep_view().len() == self.entities.len());
        if auto_number {
            entity.entity_number = Some(self.entities.len() as i64 + 1);
        }
        let copy = entity.clone();
        self.entities.push(copy);
        assert(self.entities.deep_view() =~= old(self).entities.deep_view().push(
            copy.deep_view(),
        ));
    }

    /// Joins two entities by one wire for each color asked for, after checking
    /// that both carry a positive number. Where one does not, nothing is
    /// changed and the error is returned. With no color asked for, the check
    /// is still made and the wire list still comes into being.
    pub fn connect_entity(
        &mut self,
        first_entity: &Entity,
        second_entity: &Entity,
        connect_code: ConnectionType,
        wire_type: WireColors,
    ) -> (result: Result<(), KeyError>)
        ensures
            result.is_ok() <==> first_entity.deep_view().numbered()
                && second_entity.deep_view().numbered(),
            result.is_err() ==> final(self).deep_view() == old(self).deep_view(),
            result.is_ok() ==> final(self).deep_view() == old(self).deep_view().with_connection(
                first_entity.entity_number.unwrap(),
                second_entity.entity_number.unwrap(),
                connect_code,
                wire_type,
            ),
    {
        if !first_entity.check_entity_number() || !second_entity.check_entity_number() {
            return Err(KeyError);
        }
        let num1: i64 = first_entity.entity_number.unwrap();
        let num2: i64 = second_entity.entity_number.unwrap();
        let first_output = match connect_code {
            ConnectionType::OutputInput | ConnectionType::OutputOutput => true,
            _ => false,
        };
        let second_output = match connect_code {
            ConnectionType::InputOutput | ConnectionType::OutputOutput => true,
            _ => false,
        };
        let mut wires: Vec<Wire> = match self.wires.take() {
            Some(w) => w,
            None => Vec::new(),
        };
        if wire_type.red {
            wires.push(
                Wire {
                    first: num1,
                    first_port: port_number(first_output, false),
                    second: num2,
                    second_port: port_number(second_output, false),
                },
            );
        }
        if wire_type.green {
            wires.push(
                Wire {
                    first: num1,
                    first_port: port_number(first_output, true),
                    second: num2,
                    second_port: port_number(second_output, true),
                },
            );
        }
        assert(wires@ =~= old(self).deep_view().wires_so_far() + connection_wires(
            num1,
            num2,
            connect_code,
            wire_type,
        ));
        self.wires = Some(wires);
        Ok(())
    }

    /// Joins two entities as [`BluePrint::connect_entity`] does, with the
    /// connection given as a two-letter code and the colors as a text of
    /// letters. The ends are checked first; a code that names no connection
    /// is an error too, found after the wire list has come into being.
    pub fn connect_entity_coded(
        &mut self,
        first_entity: &Entity,
        second_entity: &Entity,
        connect_code: &str,
        wire_type: &str,
    ) -> (result: Result<(), KeyError>)
        ensures
            result.is_ok() <==> first_entity.deep_view().numbered()
                && second_entity.deep_view().numbered() && connection_of(connect_code@).is_some(),
            !(first_entity.deep_view().numbered() && second_entity.deep_view().numbered())
                ==> final(self).deep_view() == old(self).deep_view(),
            result.is_err() && first_entity.deep_view().numbered()
                && second_entity.deep_view().numbered() ==> final(self).deep_view() == (
            BluePrintView {
                wires: Some(old(self).deep_view().wires_so_far()),
                ..old(self).deep_view()
            }),
            result.is_ok() ==> final(self).deep_view() == old(self).deep_view().with_connection(
                first_entity.entity_number.unwrap(),
                second_entity.entity_number.unwrap(),
                connection_of(connect_code@).unwrap(),
                colors_named(wire_type@),
            ),
    {
        match ConnectionType::from_code(connect_code) {
            Some(code) => self.connect_entity(
                first_entity,
                second_entity,
                code,
                WireColors::from_letters(wire_type),
            ),
            None => {
                let ghost before = self.deep_view().wires_so_far();
                let checked = self.connect_entity(
                    first_entity,
                    second_entity,
                    ConnectionType::InputInput,
                    WireColors { red: false, green: false },
                );
                assert(checked.is_ok() ==> self.deep_view().wires_so_far() =~= before);
                Err(KeyError)
            },
        }
    }
}

} // verus!
