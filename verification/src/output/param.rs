//! Parameter descriptions as they are shown: field for field what was
//! decoded, the kind included.

use crate::param::{
    BoolParameterDescription, BoolParameterDescriptionView, EnumParameterDescription,
    EnumParameterDescriptionView, FloatParameterDescription, FloatParameterDescriptionView,
    IntegerParameterDescription, IntegerParameterDescriptionView, ParameterDescription,
    ParameterDescriptionView, ParamsetDescription, SpecialF32, SpecialF32View, SpecialI32,
    SpecialI32View, StringParameterDescription, StringParameterDescriptionView,
};
use vstd::prelude::*;

verus! {

/// A named preset of a float parameter, as it is shown.
#[derive(Debug)]
pub struct OutputSpecialF32 {
    pub id: String,
    pub value: u64,
}

impl DeepView for OutputSpecialF32 {
    type V = SpecialF32View;

    open spec fn deep_view(&self) -> SpecialF32View {
        SpecialF32View { id: self.id@, value: self.value }
    }
}

impl OutputSpecialF32 {
    /// The preset as it is shown: the same name and value.
    pub fn from(value: SpecialF32) -> (out: OutputSpecialF32)
        ensures
            out.deep_view() == value.deep_view(),
    {
        OutputSpecialF32 { id: value.id, value: value.value }
    }

    /// The presets as they are shown: each of them, in order.
    pub fn from_list(presets: Vec<SpecialF32>) -> (out: Vec<OutputSpecialF32>)
        ensures
            out.deep_view() == presets.deep_view(),
    {
        let mut out: Vec<OutputSpecialF32> = Vec::new();
        let mut i: usize = 0;
        while i < presets.len()
            invariant
                i <= presets.len(),
                out.len() == i,
                forall|j: int|
                    0 <= j < i ==> (#[trigger] out[j]).deep_view() == presets[j].deep_view(),
            decreases presets.len() - i,
        {
            out.push(OutputSpecialF32 { id: presets[i].id.clone(), value: presets[i].value });
            i += 1;
        }
        assert(out.deep_view() =~= presets.deep_view());
        out
    }
}

/// A named preset of an integer parameter, as it is shown.
#[derive(Debug)]
pub struct OutputSpecialI32 {
    pub id: String,
    pub value: i32,
}

impl DeepView for OutputSpecialI32 {
    type V = SpecialI32View;

    open spec fn deep_view(&self) -> SpecialI32View {
        SpecialI32View { id: self.id@, value: self.value }
    }
}

impl OutputSpecialI32 {
    /// The preset as it is shown: the same name and value.
    pub fn from(value: SpecialI32) -> (out: OutputSpecialI32)
        ensures
            out.deep_view() == value.deep_view(),
    {
        OutputSpecialI32 { id: value.id, value: value.value }
    }

    /// The presets as they are shown: each of them, in order.
    pub fn from_list(presets: Vec<SpecialI32>) -> (out: Vec<OutputSpecialI32>)
        ensures
            out.deep_view() == presets.deep_view(),
    {
        let mut out: Vec<OutputSpecialI32> = Vec::new();
        let mut i: usize = 0;
        while i < presets.len()
            invariant
                i <= presets.len(),
                out.len() == i,
                forall|j: int|
                    0 <= j < i ==> (#[trigger] out[j]).deep_view() == presets[j].deep_view(),
            decreases presets.len() - i,
        {
            out.push(OutputSpecialI32 { id: presets[i].id.clone(), value: presets[i].value });
            i += 1;
        }
        assert(out.deep_view() =~= presets.deep_view());
        out
    }
}

/// The description of a float parameter, as it is shown.
#[derive(Debug)]
pub struct OutputFloatParameterDescription {
    pub operations: i32,
    pub flags: i32,
    pub default: u64,
    pub min: u64,
    pub max: u64,
    pub unit: Option<String>,
    pub tab_order: Option<i32>,
    pub control: Option<String>,
    pub special: Option<Vec<OutputSpecialF32>>,
}

impl View for OutputFloatParameterDescription {
    type V = FloatParameterDescriptionView;

    open spec fn view(&self) -> FloatParameterDescriptionView {
        FloatParameterDescriptionView {
            operations: self.operations,
            flags: self.flags,
            default: self.default,
            min: self.min,
            max: self.max,
            unit: self.unit.deep_view(),
            tab_order: self.tab_order,
            control: self.control.deep_view(),
            special: self.special.deep_view(),
        }
    }
}

impl OutputFloatParameterDescription {
    /// The description as it is shown: every field is kept.
    pub fn from(value: FloatParameterDescription) -> (out: OutputFloatParameterDescription)
        ensures
            out@ == value@,
    {
        OutputFloatParameterDescription {
            operations: value.operations,
            flags: value.flags,
            default: value.default,
            min: value.min,
            max: value.max,
            unit: value.unit,
            tab_order: value.tab_order,
            control: value.control,
            special: match value.special {
                Some(presets) => Some(OutputSpecialF32::from_list(presets)),
                None => None,
            },
        }
    }
}

/// The description of an integer parameter, as it is shown.
#[derive(Debug)]
pub struct OutputIntegerParameterDescription {
    pub operations: i32,
    pub flags: i32,
    pub default: i32,
    pub min: i32,
    pub max: i32,
    pub unit: Option<String>,
    pub tab_order: Option<i32>,
    pub control: Option<String>,
    pub special: Option<Vec<OutputSpecialI32>>,
}

impl View for OutputIntegerParameterDescription {
    type V = IntegerParameterDescriptionView;

    open spec fn view(&self) -> IntegerParameterDescriptionView {
        IntegerParameterDescriptionView {
            operations: self.operations,
            flags: self.flags,
            default: self.default,
            min: self.min,
            max: self.max,
            unit: self.unit.deep_view(),
            tab_order: self.tab_order,
            control: self.control.deep_view(),
            special: self.special.deep_view(),
        }
    }
}

impl OutputIntegerParameterDescription {
    /// The description as it is shown: every field is kept.
    pub fn from(value: IntegerParameterDescription) -> (out: OutputIntegerParameterDescription)
        ensures
            out@ == value@,
    {
        OutputIntegerParameterDescription {
            operations: value.operations,
            flags: value.flags,
            default: value.default,
            min: value.min,
            max: value.max,
            unit: value.unit,
            tab_order: value.tab_order,
            control: value.control,
            special: match value.special {
                Some(presets) => Some(OutputSpecialI32::from_list(presets)),
                None => None,
            },
        }
    }
}

/// The description of a boolean or command parameter, as it is shown.
#[derive(Debug)]
pub struct OutputBoolParameterDescription {
    pub operations: i32,
    pub flags: i32,
    pub default: bool,
    pub min: bool,
    pub max: bool,
    pub unit: Option<String>,
    pub tab_order: Option<i32>,
    pub control: Option<String>,
}

impl View for OutputBoolParameterDescription {
    type V = BoolParameterDescriptionView;

    open spec fn view(&self) -> BoolParameterDescriptionView {
        BoolParameterDescriptionView {
            operations: self.operations,
            flags: self.flags,
            default: self.default,
            min: self.min,
            max: self.max,
            unit: self.unit.deep_view(),
            tab_order: self.tab_order,
            control: self.control.deep_view(),
        }
    }
}

impl OutputBoolParameterDescription {
    /// The description as it is shown: every field is kept.
    pub fn from(value: BoolParameterDescription) -> (out: OutputBoolParameterDescription)
        ensures
            out@ == value@,
    {
        OutputBoolParameterDescription {
            operations: value.operations,
            flags: value.flags,
            default: value.default,
            min: value.min,
            max: value.max,
            unit: value.unit,
            tab_order: value.tab_order,
            control: value.control,
        }
    }
}

/// The description of a label parameter, as it is shown.
#[derive(Debug)]
pub struct OutputEnumParameterDescription {
    pub operations: u8,
    pub flags: u8,
    pub default: String,
    pub min: String,
    pub max: String,
    pub unit: Option<String>,
    pub tab_order: Option<i32>,
    pub control: Option<String>,
    pub values: Vec<String>,
}

impl View for OutputEnumParameterDescription {
    type V = EnumParameterDescriptionView;

    open spec fn view(&self) -> EnumParameterDescriptionView {
        EnumParameterDescriptionView {
            operations: self.operations,
            flags: self.flags,
            default: self.default@,
            min: self.min@,
            max: self.max@,
            unit: self.unit.deep_view(),
            tab_order: self.tab_order,
            control: self.control.deep_view(),
            values: self.values.deep_view(),
        }
    }
}

impl OutputEnumParameterDescription {
    /// The description as it is shown: every field is kept.
    pub fn from(value: EnumParameterDescription) -> (out: OutputEnumParameterDescription)
        ensures
            out@ == value@,
    {
        OutputEnumParameterDescription {
            operations: value.operations,
            flags: value.flags,
            default: value.default,
            min: value.min,
            max: value.max,
            unit: value.unit,
            tab_order: value.tab_order,
            control: value.control,
            values: value.values,
        }
    }
}

/// The description of a string parameter, as it is shown.
#[derive(Debug)]
pub struct OutputStringParameterDescription {
    pub operations: i32,
    pub flags: i32,
    pub default: String,
    pub min: String,
    pub max: String,
    pub unit: Option<String>,
    pub tab_order: Option<i32>,
    pub control: Option<String>,
}

impl View for OutputStringParameterDescription {
    type V = StringParameterDescriptionView;

    open spec fn view(&self) -> StringParameterDescriptionView {
        StringParameterDescriptionView {
            operations: self.operations,
            flags: self.flags,
            default: self.default@,
            min: self.min@,
            max: self.max@,
            unit: self.unit.deep_view(),
            tab_order: self.tab_order,
            control: self.control.deep_view(),
        }
    }
}

impl OutputStringParameterDescription {
    /// The description as it is shown: every field is kept.
    pub fn from(value: StringParameterDescription) -> (out: OutputStringParameterDescription)
        ensures
            out@ == value@,
    {
        OutputStringParameterDescription {
            operations: value.operations,
            flags: value.flags,
            default: value.default,
            min: value.min,
            max: value.max,
            unit: value.unit,
            tab_order: value.tab_order,
            control: value.control,
        }
    }
}

/// The description of one parameter, as it is shown.
#[derive(Debug)]
pub enum OutputParameterDescription {
    Float(OutputFloatParameterDescription),
    Integer(OutputIntegerParameterDescription),
    Bool(OutputBoolParameterDescription),
    Enum(OutputEnumParameterDescription),
    String(OutputStringParameterDescription),
    Action(OutputBoolParameterDescription),
}

impl View for OutputParameterDescription {
    type V = ParameterDescriptionView;

    open spec fn view(&self) -> ParameterDescriptionView {
        match self {
            OutputParameterDescription::Float(d) => ParameterDescriptionView::Float(d@),
            OutputParameterDescription::Integer(d) => ParameterDescriptionView::Integer(d@),
            OutputParameterDescription::Bool(d) => ParameterDescriptionView::Bool(d@),
            OutputParameterDescription::Enum(d) => ParameterDescriptionView::Enum(d@),
            OutputParameterDescription::String(d) => ParameterDescriptionView::String(d@),
            OutputParameterDescription::Action(d) => ParameterDescriptionView::Action(d@),
        }
    }
}

impl DeepView for OutputParameterDescription {
    type V = ParameterDescriptionView;

    open spec fn deep_view(&self) -> ParameterDescriptionView {
        self@
    }
}

impl OutputParameterDescription {
    /// The description as it is shown: the same kind with the same fields.
    /// A command stays a command and a boolean a boolean.
    pub fn from(value: ParameterDescription) -> (out: OutputParameterDescription)
        ensures
            out@ == value@,
    {
        match value {
            ParameterDescription::Float(pd) => OutputParameterDescription::Float(
                OutputFloatParameterDescription::from(pd),
            ),
            ParameterDescription::Integer(pd) => OutputParameterDescription::Integer(
                OutputIntegerParameterDescription::from(pd),
            ),
            ParameterDescription::Bool(pd) => OutputParameterDescription::Bool(
                OutputBoolParameterDescription::from(pd),
            ),
            ParameterDescription::Enum(pd) => OutputParameterDescription::Enum(
                OutputEnumParameterDescription::from(pd),
            ),
            ParameterDescription::String(pd) => OutputParameterDescription::String(
                OutputStringParameterDescription::from(pd),
            ),
            ParameterDescription::Action(pd) => OutputParameterDescription::Action(
                OutputBoolParameterDescription::from(pd),
            ),
        }
    }

    /// What is shown of the schema of a parameter set: each description
    /// under its name, in order.
    pub fn from_schema(schema: ParamsetDescription) -> (out: Vec<
        (String, OutputParameterDescription),
    >)
        ensures
            out.deep_view() == schema.deep_view(),
    {
        let ghost all = schema.deep_view();
        let mut schema = schema;
        let mut reversed: Vec<(String, OutputParameterDescription)> = Vec::new();
        while schema.len() > 0
            invariant
                schema.len() <= all.len(),
                reversed.len() == all.len() - schema.len(),
                forall|j: int|
                    0 <= j < schema.len() ==> (#[trigger] schema[j]).deep_view() == all[j],
                forall|j: int|
                    0 <= j < reversed.len() ==> (#[trigger] reversed[j]).deep_view()
                        == all[all.len() - 1 - j],
            decreases schema.len(),
        {
            let entry = schema.pop().unwrap();
            reversed.push((entry.0, OutputParameterDescription::from(entry.1)));
        }
        let mut out: Vec<(String, OutputParameterDescription)> = Vec::new();
        while reversed.len() > 0
            invariant
                reversed.len() <= all.len(),
                out.len() == all.len() - reversed.len(),
                forall|j: int|
                    0 <= j < reversed.len() ==> (#[trigger] reversed[j]).deep_view()
                        == all[all.len() - 1 - j],
                forall|j: int| 0 <= j < out.len() ==> (#[trigger] out[j]).deep_view() == all[j],
            decreases reversed.len(),
        {
            let entry = reversed.pop().unwrap();
            out.push(entry);
        }
        assert(out.deep_view() =~= all);
        out
    }
}

} // verus!
