//! The structured records that make up an entity's behavior payload.
use vstd::prelude::*;

verus! {

/// Copies an optional text.
pub fn clone_text(text: &Option<String>) -> (copy: Option<String>)
    ensures
        copy == *text,
{
    match text {
        Some(s) => Some(s.clone()),
        None => None,
    }
}

/// A reference to a signal: its name and, where it has one, its category.
#[derive(Debug)]
pub struct Signal {
    pub name: String,
    pub signal_type: Option<String>,
}

/// What a [`Signal`] holds, as mathematical values.
pub struct SignalView {
    pub name: Seq<char>,
    pub signal_type: Option<Seq<char>>,
}

impl DeepView for Signal {
    type V = SignalView;

    open spec fn deep_view(&self) -> SignalView {
        SignalView { name: self.name@, signal_type: self.signal_type.deep_view() }
    }
}

impl Clone for Signal {
    fn clone(&self) -> (copy: Self)
        ensures
            copy.deep_view() == self.deep_view(),
    {
        Signal { name: self.name.clone(), signal_type: clone_text(&self.signal_type) }
    }
}

/// Copies an optional signal reference.
pub fn clone_signal(signal: &Option<Signal>) -> (copy: Option<Signal>)
    ensures
        copy.deep_view() == signal.deep_view(),
{
    match signal {
        Some(s) => Some(s.clone()),
        None => None,
    }
}

/// Which of the two wire networks a signal is read from or written to.
#[derive(Debug, Clone, Copy, PartialEq, Eq, Structural)]
pub struct Networks {
    pub red: bool,
    pub green: bool,
}

impl DeepView for Networks {
    type V = Networks;

    open spec fn deep_view(&self) -> Networks {
        *self
    }
}

/// One filter of a constant combinator: a signal at a quality tier, with the
/// count that it carries and its position within its section.
#[derive(Debug)]
pub struct Filter {
    pub comparator: String,
    pub count: i64,
    pub index: i64,
    pub name: Option<String>,
    pub signal_type: Option<String>,
    pub quality: String,
}

/// What a [`Filter`] holds, as mathematical values.
pub struct FilterView {
    pub comparator: Seq<char>,
    pub count: int,
    pub index: int,
    pub name: Option<Seq<char>>,
    pub signal_type: Option<Seq<char>>,
    pub quality: Seq<char>,
}

impl DeepView for Filter {
    type V = FilterView;

    open spec fn deep_view(&self) -> FilterView {
        FilterView {
            comparator: self.comparator@,
            count: self.count as int,
            index: self.index as int,
            name: self.name.deep_view(),
            signal_type: self.signal_type.deep_view(),
            quality: self.quality@,
        }
    }
}

impl Clone for Filter {
    fn clone(&self) -> (copy: Self)
        ensures
            copy.deep_view() == self.deep_view(),
    {
        Filter {
            comparator: self.comparator.clone(),
            count: self.count,
            index: self.index,
            name: clone_text(&self.name),
            signal_type: clone_text(&self.signal_type),
            quality: self.quality.clone(),
        }
    }
}

/// A numbered group of filters.
#[derive(Debug)]
pub struct Section {
    pub index: i64,
    pub filters: Vec<Filter>,
}

/// What a [`Section`] holds, as mathematical values.
pub struct SectionView {
    pub index: int,
    pub filters: Seq<FilterView>,
}

impl DeepView for Section {
    type V = SectionView;

    open spec fn deep_view(&self) -> SectionView {
        SectionView { index: self.index as int, filters: self.filters.deep_view() }
    }
}

impl Clone for Section {
    fn clone(&self) -> (copy: Self)
        ensures
            copy.deep_view() == self.deep_view(),
    {
        let filters = self.filters.clone();
        assert(filters.deep_view() =~= self.filters.deep_view());
        Section { index: self.index, filters }
    }
}

/// One comparison of a decider combinator. A field that is `None` is left out
/// of the document.
#[derive(Debug)]
pub struct Condition {
    pub comparator: Option<String>,
    pub constant: Option<i64>,
    pub first_signal: Option<Signal>,
    pub first_signal_networks: Networks,
    pub second_signal: Option<Signal>,
    pub second_signal_networks: Networks,
}

/// What a [`Condition`] holds, as mathematical values.
pub struct ConditionView {
    pub comparator: Option<Seq<char>>,
    pub constant: Option<int>,
    pub first_signal: Option<SignalView>,
    pub first_signal_networks: Networks,
    pub second_signal: Option<SignalView>,
    pub second_signal_networks: Networks,
}

/// An optional machine integer as an optional mathematical one.
pub open spec fn int_of(value: Option<i64>) -> Option<int> {
    match value {
        Some(v) => Some(v as int),
        None => None,
    }
}

impl DeepView for Condition {
    type V = ConditionView;

    open spec fn deep_view(&self) -> ConditionView {
        ConditionView {
            comparator: self.comparator.deep_view(),
            constant: int_of(self.constant),
            first_signal: self.first_signal.deep_view(),
            first_signal_networks: self.first_signal_networks,
            second_signal: self.second_signal.deep_view(),
            second_signal_networks: self.second_signal_networks,
        }
    }
}

impl Clone for Condition {
    fn clone(&self) -> (copy: Self)
        ensures
            copy.deep_view() == self.deep_view(),
    {
        Condition {
            comparator: clone_text(&self.comparator),
            constant: self.constant,
            first_signal: clone_signal(&self.first_signal),
            first_signal_networks: self.first_signal_networks,
            second_signal: clone_signal(&self.second_signal),
            second_signal_networks: self.second_signal_networks,
        }
    }
}

/// One emission of a decider combinator.
#[derive(Debug)]
pub struct Output {
    pub signal: Option<Signal>,
    pub copy_count_from_input: bool,
    pub networks: Networks,
}

/// What an [`Output`] holds, as mathematical values.
pub struct OutputView {
    pub signal: Option<SignalView>,
    pub copy_count_from_input: bool,
    pub networks: Networks,
}

impl DeepView for Output {
    type V = OutputView;

    open spec fn deep_view(&self) -> OutputView {
        OutputView {
            signal: self.signal.deep_view(),
            copy_count_from_input: self.copy_count_from_input,
            networks: self.networks,
        }
    }
}

impl Clone for Output {
    fn clone(&self) -> (copy: Self)
        ensures
            copy.deep_view() == self.deep_view(),
    {
        Output {
            signal: clone_signal(&self.signal),
            copy_count_from_input: self.copy_count_from_input,
            networks: self.networks,
        }
    }
}

/// The operands, operator and result signal of an arithmetic combinator.
/// A field that was never set is `None` and left out of the document.
#[derive(Debug)]
pub struct ArithmeticConditions {
    pub first_signal: Option<Signal>,
    pub second_signal: Option<Signal>,
    pub output_signal: Option<Signal>,
    pub operation: Option<String>,
    pub first_constant: Option<i64>,
    pub second_constant: Option<i64>,
}

/// What an [`ArithmeticConditions`] holds, as mathematical values.
pub struct ArithmeticConditionsView {
    pub first_signal: Option<SignalView>,
    pub second_signal: Option<SignalView>,
    pub output_signal: Option<SignalView>,
    pub operation: Option<Seq<char>>,
    pub first_constant: Option<int>,
    pub second_constant: Option<int>,
}

impl DeepView for ArithmeticConditions {
    type V = ArithmeticConditionsView;

    open spec fn deep_view(&self) -> ArithmeticConditionsView {
        ArithmeticConditionsView {
            first_signal: self.first_signal.deep_view(),
            second_signal: self.second_signal.deep_view(),
            output_signal: self.output_signal.deep_view(),
            operation: self.operation.deep_view(),
            first_constant: int_of(self.first_constant),
            second_constant: int_of(self.second_constant),
        }
    }
}

impl Clone for ArithmeticConditions {
    fn clone(&self) -> (copy: Self)
        ensures
            copy.deep_view() == self.deep_view(),
    {
        ArithmeticConditions {
            first_signal: clone_signal(&self.first_signal),
            second_signal: clone_signal(&self.second_signal),
            output_signal: clone_signal(&self.output_signal),
            operation: clone_text(&self.operation),
            first_constant: self.first_constant,
            second_constant: self.second_constant,
        }
    }
}

/// The signal from which a lamp takes its color: a catalog signal at a
/// quality tier. The name is `None` where the catalog has no such entry.
#[derive(Debug)]
pub struct RgbSignal {
    pub name: Option<String>,
    pub quality: String,
    pub signal_type: Option<String>,
}

/// What a [`RgbSignal`] holds, as mathematical values.
pub struct RgbSignalView {
    pub name: Option<Seq<char>>,
    pub quality: Seq<char>,
    pub signal_type: Option<Seq<char>>,
}

impl DeepView for RgbSignal {
    type V = RgbSignalView;

    open spec fn deep_view(&self) -> RgbSignalView {
        RgbSignalView {
            name: self.name.deep_view(),
            quality: self.quality@,
            signal_type: self.signal_type.deep_view(),
        }
    }
}

impl Clone for RgbSignal {
    fn clone(&self) -> (copy: Self)
        ensures
            copy.deep_view() == self.deep_view(),
    {
        RgbSignal {
            name: clone_text(&self.name),
            quality: self.quality.clone(),
            signal_type: clone_text(&self.signal_type),
        }
    }
}

/// The behavior of a lamp that shows the color packed into one signal.
#[derive(Debug)]
pub struct LampBehavior {
    pub color_mode: i64,
    pub use_colors: bool,
    pub rgb_signal: RgbSignal,
}

/// What a [`LampBehavior`] holds, as mathematical values.
pub struct LampBehaviorView {
    pub color_mode: int,
    pub use_colors: bool,
    pub rgb_signal: RgbSignalView,
}

impl DeepView for LampBehavior {
    type V = LampBehaviorView;

    open spec fn deep_view(&self) -> LampBehaviorView {
        LampBehaviorView {
            color_mode: self.color_mode as int,
            use_colors: self.use_colors,
            rgb_signal: self.rgb_signal.deep_view(),
        }
    }
}

impl Clone for LampBehavior {
    fn clone(&self) -> (copy: Self)
        ensures
            copy.deep_view() == self.deep_view(),
    {
        LampBehavior {
            color_mode: self.color_mode,
            use_colors: self.use_colors,
            rgb_signal: self.rgb_signal.clone(),
        }
    }
}

/// The behavior payload of an entity, one shape for each kind of entity
/// that carries one.
#[derive(Debug)]
pub enum ControlBehavior {
    /// The entity has no payload.
    Absent,
    /// A lamp: `{color_mode, use_colors, rgb_signal}`.
    Lamp(LampBehavior),
    /// A constant combinator: `{sections: {sections: [...]}}`.
    Sections(Vec<Section>),
    /// A decider combinator:
    /// `{decider_conditions: {conditions: [...], outputs: [...]}}`.
    Decider { conditions: Vec<Condition>, outputs: Vec<Output> },
    /// An arithmetic combinator: `{arithmetic_conditions: {...}}`.
    Arithmetic(ArithmeticConditions),
}

/// What a [`ControlBehavior`] holds, as mathematical values.
pub enum ControlBehaviorView {
    Absent,
    Lamp(LampBehaviorView),
    Sections(Seq<SectionView>),
    Decider { conditions: Seq<ConditionView>, outputs: Seq<OutputView> },
    Arithmetic(ArithmeticConditionsView),
}

impl DeepView for ControlBehavior {
    type V = ControlBehaviorView;

    open spec fn deep_view(&self) -> ControlBehaviorView {
        match self {
            ControlBehavior::Absent => ControlBehaviorView::Absent,
            ControlBehavior::Lamp(lamp) => ControlBehaviorView::Lamp(lamp.deep_view()),
            ControlBehavior::Sections(sections) => ControlBehaviorView::Sections(
                sections.deep_view(),
            ),
            ControlBehavior::Decider { conditions, outputs } => ControlBehaviorView::Decider {
                conditions: conditions.deep_view(),
                outputs: outputs.deep_view(),
            },
            ControlBehavior::Arithmetic(a) => ControlBehaviorView::Arithmetic(a.deep_view()),
        }
    }
}

/// Copies a list of sections.
pub fn clone_sections(sections: &Vec<Section>) -> (copy: Vec<Section>)
    ensures
        copy.deep_view() == sections.deep_view(),
{
    let copy = sections.clone();
    assert(copy.deep_view() =~= sections.deep_view());
    copy
}

/// Copies a list of conditions.
pub fn clone_conditions(conditions: &Vec<Condition>) -> (copy: Vec<Condition>)
    ensures
        copy.deep_view() == conditions.deep_view(),
{
    let copy = conditions.clone();
    assert(copy.deep_view() =~= conditions.deep_view());
    copy
}

/// Copies a list of outputs.
pub fn clone_outputs(outputs: &Vec<Output>) -> (copy: Vec<Output>)
    ensures
        copy.deep_view() == outputs.deep_view(),
{
    let copy = outputs.clone();
    assert(copy.deep_view() =~= outputs.deep_view());
    copy
}

impl Clone for ControlBehavior {
    fn clone(&self) -> (copy: Self)
        ensures
            copy.deep_view() == self.deep_view(),
    {
        match self {
            ControlBehavior::Absent => ControlBehavior::Absent,
            ControlBehavior::Lamp(lamp) => ControlBehavior::Lamp(lamp.clone()),
            ControlBehavior::Sections(sections) => ControlBehavior::Sections(
                clone_sections(sections),
            ),
            ControlBehavior::Decider { conditions, outputs } => ControlBehavior::Decider {
                conditions: clone_conditions(conditions),
                outputs: clone_outputs(outputs),
            },
            ControlBehavior::Arithmetic(a) => ControlBehavior::Arithmetic(a.clone()),
        }
    }
}

} // verus!
