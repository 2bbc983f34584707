//! Parameter descriptions: a union of six kinds, told apart by a type tag.

use crate::text::same_text;
use crate::error::{DecodeError, DecodeErrorView, ExpectedKind};
use crate::field::{
    decode_each, decoded_as, lemma_decode_each_error, lemma_decode_each_step,
    opt_int, opt_list_of, opt_string, optional_int, optional_string, req_bool, Failure,
    req_byte, req_double, req_int, req_string, req_string_list, required_bool, required_byte,
    required_double, required_int, required_string, required_string_list, viewed_as,
};
use crate::value::{
    find_member, items_view, lemma_items_view, lemma_members_view, lookup, members_view, Value,
    ValueView,
};
use vstd::prelude::*;

verus! {

/// The six kinds of parameter.
#[derive(Clone, Copy, Debug, PartialEq, Eq, Structural)]
pub enum ParameterKind {
    Float,
    Integer,
    Bool,
    Enum,
    String,
    /// A command. It has the shape of a boolean parameter, but nothing is
    /// stored for it.
    Action,
}

impl ParameterKind {
    /// The type tag that stands for the kind on the wire.
    pub open spec fn tag(self) -> Seq<char> {
        match self {
            ParameterKind::Float => "FLOAT"@,
            ParameterKind::Integer => "INTEGER"@,
            ParameterKind::Bool => "BOOL"@,
            ParameterKind::Enum => "ENUM"@,
            ParameterKind::String => "STRING"@,
            ParameterKind::Action => "ACTION"@,
        }
    }

    /// The kind that a type tag stands for. This is the one place that
    /// says which tags there are.
    pub open spec fn of_tag(tag: Seq<char>) -> Option<ParameterKind> {
        if tag == "FLOAT"@ {
            Some(ParameterKind::Float)
        } else if tag == "INTEGER"@ {
            Some(ParameterKind::Integer)
        } else if tag == "BOOL"@ {
            Some(ParameterKind::Bool)
        } else if tag == "ENUM"@ {
            Some(ParameterKind::Enum)
        } else if tag == "STRING"@ {
            Some(ParameterKind::String)
        } else if tag == "ACTION"@ {
            Some(ParameterKind::Action)
        } else {
            None
        }
    }

    /// Each kind has a tag of its own: the tag of a kind stands for that
    /// kind, and a tag that stands for a kind is the tag of that kind.
    pub proof fn lemma_tags(kind: ParameterKind, tag: Seq<char>)
        ensures
            ParameterKind::of_tag(kind.tag()) == Some(kind),
            ParameterKind::of_tag(tag) == Some(kind) ==> tag == kind.tag(),
    {
        reveal_strlit("FLOAT");
        reveal_strlit("INTEGER");
        reveal_strlit("BOOL");
        reveal_strlit("ENUM");
        reveal_strlit("STRING");
        reveal_strlit("ACTION");
        assert("FLOAT"@.len() == 5 && "INTEGER"@.len() == 7 && "BOOL"@.len() == 4);
        assert("ENUM"@.len() == 4 && "STRING"@.len() == 6 && "ACTION"@.len() == 6);
        assert("BOOL"@[0] == 'B' && "ENUM"@[0] == 'E');
        assert("STRING"@[0] == 'S' && "ACTION"@[0] == 'A');
    }

    /// The kind that a type tag stands for, if it stands for one.
    pub fn from_tag(tag: &str) -> (kind: Option<ParameterKind>)
        ensures
            kind == ParameterKind::of_tag(tag@),
    {
        if same_text(tag, "FLOAT") {
            Some(ParameterKind::Float)
        } else if same_text(tag, "INTEGER") {
            Some(ParameterKind::Integer)
        } else if same_text(tag, "BOOL") {
            Some(ParameterKind::Bool)
        } else if same_text(tag, "ENUM") {
            Some(ParameterKind::Enum)
        } else if same_text(tag, "STRING") {
            Some(ParameterKind::String)
        } else if same_text(tag, "ACTION") {
            Some(ParameterKind::Action)
        } else {
            None
        }
    }

    /// The type tag of the kind.
    pub fn name(&self) -> (tag: &'static str)
        ensures
            tag@ == self.tag(),
    {
        match self {
            ParameterKind::Float => "FLOAT",
            ParameterKind::Integer => "INTEGER",
            ParameterKind::Bool => "BOOL",
            ParameterKind::Enum => "ENUM",
            ParameterKind::String => "STRING",
            ParameterKind::Action => "ACTION",
        }
    }
}

/// A named preset of a float parameter. The value is the bit pattern of
/// the double on the wire.
#[derive(Debug)]
pub struct SpecialF32 {
    pub id: String,
    pub value: u64,
}

/// A named preset of an integer parameter.
#[derive(Debug)]
pub struct SpecialI32 {
    pub id: String,
    pub value: i32,
}

/// Mathematical model of a [`SpecialF32`].
pub ghost struct SpecialF32View {
    pub id: Seq<char>,
    pub value: u64,
}

/// Mathematical model of a [`SpecialI32`].
pub ghost struct SpecialI32View {
    pub id: Seq<char>,
    pub value: i32,
}

impl DeepView for SpecialF32 {
    type V = SpecialF32View;

    open spec fn deep_view(&self) -> SpecialF32View {
        SpecialF32View { id: self.id@, value: self.value }
    }
}

impl DeepView for SpecialI32 {
    type V = SpecialI32View;

    open spec fn deep_view(&self) -> SpecialI32View {
        SpecialI32View { id: self.id@, value: self.value }
    }
}

/// A parameter that holds a float. Default, minimum and maximum are the bit
/// patterns of the doubles on the wire.
#[derive(Debug)]
pub struct FloatParameterDescription {
    /// Bit field: 1 read, 2 write, 4 event.
    pub operations: i32,
    /// Bit field: 1 visible, 2 internal, 4 transform, 8 service, 16 sticky.
    pub flags: i32,
    pub default: u64,
    pub min: u64,
    pub max: u64,
    pub unit: Option<String>,
    pub tab_order: Option<i32>,
    pub control: Option<String>,
    pub special: Option<Vec<SpecialF32>>,
}

/// A parameter that holds an integer.
#[derive(Debug)]
pub struct IntegerParameterDescription {
    /// Bit field: 1 read, 2 write, 4 event.
    pub operations: i32,
    /// Bit field: 1 visible, 2 internal, 4 transform, 8 service, 16 sticky.
    pub flags: i32,
    pub default: i32,
    pub min: i32,
    pub max: i32,
    pub unit: Option<String>,
    pub tab_order: Option<i32>,
    pub control: Option<String>,
    pub special: Option<Vec<SpecialI32>>,
}

/// A parameter that holds a boolean, or a command.
#[derive(Debug)]
pub struct BoolParameterDescription {
    /// Bit field: 1 read, 2 write, 4 event.
    pub operations: i32,
    /// Bit field: 1 visible, 2 internal, 4 transform, 8 service, 16 sticky.
    pub flags: i32,
    pub default: bool,
    pub min: bool,
    pub max: bool,
    pub unit: Option<String>,
    pub tab_order: Option<i32>,
    pub control: Option<String>,
}

/// A parameter that holds one of a list of labels. Default, minimum and
/// maximum are indices written as strings; nothing relates them to the
/// number of labels. The two bit fields are eight bits wide here.
#[derive(Debug)]
pub struct EnumParameterDescription {
    /// Bit field: 1 read, 2 write, 4 event.
    pub operations: u8,
    /// Bit field: 1 visible, 2 internal, 4 transform, 8 service, 16 sticky.
    pub flags: u8,
    pub default: String,
    pub min: String,
    pub max: String,
    pub unit: Option<String>,
    pub tab_order: Option<i32>,
    pub control: Option<String>,
    /// The labels, addressed by their index.
    pub values: Vec<String>,
}

/// A parameter that holds a string.
#[derive(Debug)]
pub struct StringParameterDescription {
    /// Bit field: 1 read, 2 write, 4 event.
    pub operations: i32,
    /// Bit field: 1 visible, 2 internal, 4 transform, 8 service, 16 sticky.
    pub flags: i32,
    pub default: String,
    pub min: String,
    pub max: String,
    pub unit: Option<String>,
    pub tab_order: Option<i32>,
    pub control: Option<String>,
}

/// Mathematical model of a [`FloatParameterDescription`].
pub ghost struct FloatParameterDescriptionView {
    pub operations: i32,
    pub flags: i32,
    pub default: u64,
    pub min: u64,
    pub max: u64,
    pub unit: Option<Seq<char>>,
    pub tab_order: Option<i32>,
    pub control: Option<Seq<char>>,
    pub special: Option<Seq<SpecialF32View>>,
}

/// Mathematical model of an [`IntegerParameterDescription`].
pub ghost struct IntegerParameterDescriptionView {
    pub operations: i32,
    pub flags: i32,
    pub default: i32,
    pub min: i32,
    pub max: i32,
    pub unit: Option<Seq<char>>,
    pub tab_order: Option<i32>,
    pub control: Option<Seq<char>>,
    pub special: Option<Seq<SpecialI32View>>,
}

/// Mathematical model of a [`BoolParameterDescription`].
pub ghost struct BoolParameterDescriptionView {
    pub operations: i32,
    pub flags: i32,
    pub default: bool,
    pub min: bool,
    pub max: bool,
    pub unit: Option<Seq<char>>,
    pub tab_order: Option<i32>,
    pub control: Option<Seq<char>>,
}

/// Mathematical model of an [`EnumParameterDescription`].
pub ghost struct EnumParameterDescriptionView {
    pub operations: u8,
    pub flags: u8,
    pub default: Seq<char>,
    pub min: Seq<char>,
    pub max: Seq<char>,
    pub unit: Option<Seq<char>>,
    pub tab_order: Option<i32>,
    pub control: Option<Seq<char>>,
    pub values: Seq<Seq<char>>,
}

/// Mathematical model of a [`StringParameterDescription`].
pub ghost struct StringParameterDescriptionView {
    pub operations: i32,
    pub flags: i32,
    pub default: Seq<char>,
    pub min: Seq<char>,
    pub max: Seq<char>,
    pub unit: Option<Seq<char>>,
    pub tab_order: Option<i32>,
    pub control: Option<Seq<char>>,
}

impl View for FloatParameterDescription {
    type V = FloatParameterDescriptionView;

    open spec fn view(&self) -> FloatParameterDescriptionView {
        FloatParameterDescriptionView {
            operations: self.operations,
            flags: self.flags,
            default: self.default,
            min: self.min,
            max: self.max,
            unit: self.unit.deep_view(),
            tab_order: self.tab_order,
            control: self.control.deep_view(),
            special: self.special.deep_view(),
        }
    }
}

impl View for IntegerParameterDescription {
    type V = IntegerParameterDescriptionView;

    open spec fn view(&self) -> IntegerParameterDescriptionView {
        IntegerParameterDescriptionView {
            operations: self.operations,
            flags: self.flags,
            default: self.default,
            min: self.min,
            max: self.max,
            unit: self.unit.deep_view(),
            tab_order: self.tab_order,
            control: self.control.deep_view(),
            special: self.special.deep_view(),
        }
    }
}

impl View for BoolParameterDescription {
    type V = BoolParameterDescriptionView;

    open spec fn view(&self) -> BoolParameterDescriptionView {
        BoolParameterDescriptionView {
            operations: self.operations,
            flags: self.flags,
            default: self.default,
            min: self.min,
            max: self.max,
            unit: self.unit.deep_view(),
            tab_order: self.tab_order,
            control: self.control.deep_view(),
        }
    }
}

impl View for EnumParameterDescription {
    type V = EnumParameterDescriptionView;

    open spec fn view(&self) -> EnumParameterDescriptionView {
        EnumParameterDescriptionView {
            operations: self.operations,
            flags: self.flags,
            default: self.default@,
            min: self.min@,
            max: self.max@,
            unit: self.unit.deep_view(),
            tab_order: self.tab_order,
            control: self.control.deep_view(),
            values: self.values.deep_view(),
        }
    }
}

impl View for StringParameterDescription {
    type V = StringParameterDescriptionView;

    open spec fn view(&self) -> StringParameterDescriptionView {
        StringParameterDescriptionView {
            operations: self.operations,
            flags: self.flags,
            default: self.default@,
            min: self.min@,
            max: self.max@,
            unit: self.unit.deep_view(),
            tab_order: self.tab_order,
            control: self.control.deep_view(),
        }
    }
}

/// The description of one parameter.
#[derive(Debug)]
pub enum ParameterDescription {
    Float(FloatParameterDescription),
    Integer(IntegerParameterDescription),
    Bool(BoolParameterDescription),
    Enum(EnumParameterDescription),
    String(StringParameterDescription),
    Action(BoolParameterDescription),
}

/// Mathematical model of a [`ParameterDescription`].
pub ghost enum ParameterDescriptionView {
    Float(FloatParameterDescriptionView),
    Integer(IntegerParameterDescriptionView),
    Bool(BoolParameterDescriptionView),
    Enum(EnumParameterDescriptionView),
    String(StringParameterDescriptionView),
    Action(BoolParameterDescriptionView),
}

impl ParameterDescriptionView {
    /// The kind of the parameter.
    pub open spec fn kind(self) -> ParameterKind {
        match self {
            ParameterDescriptionView::Float(_) => ParameterKind::Float,
            ParameterDescriptionView::Integer(_) => ParameterKind::Integer,
            ParameterDescriptionView::Bool(_) => ParameterKind::Bool,
            ParameterDescriptionView::Enum(_) => ParameterKind::Enum,
            ParameterDescriptionView::String(_) => ParameterKind::String,
            ParameterDescriptionView::Action(_) => ParameterKind::Action,
        }
    }
}

impl DeepView for ParameterDescription {
    type V = ParameterDescriptionView;

    open spec fn deep_view(&self) -> ParameterDescriptionView {
        self@
    }
}

impl View for ParameterDescription {
    type V = ParameterDescriptionView;

    open spec fn view(&self) -> ParameterDescriptionView {
        match self {
            ParameterDescription::Float(d) => ParameterDescriptionView::Float(d@),
            ParameterDescription::Integer(d) => ParameterDescriptionView::Integer(d@),
            ParameterDescription::Bool(d) => ParameterDescriptionView::Bool(d@),
            ParameterDescription::Enum(d) => ParameterDescriptionView::Enum(d@),
            ParameterDescription::String(d) => ParameterDescriptionView::String(d@),
            ParameterDescription::Action(d) => ParameterDescriptionView::Action(d@),
        }
    }
}

/// What an item of the list of presets decodes to: it has to be a struct
/// with an `ID` and a `VALUE`.
pub open spec fn decode_special_float(item: ValueView) -> Result<SpecialF32View, DecodeErrorView> {
    match item {
        ValueView::Struct(m) => {
            let id = req_string(m, "ID"@);
            let value = req_double(m, "VALUE"@);
            match Failure::none().or(id).or(value).0 {
                Some(e) => Err(e),
                None => Ok(SpecialF32View { id: id->Ok_0, value: value->Ok_0 }),
            }
        },
        _ => Err(DecodeErrorView::TypeMismatch("SPECIAL"@, ExpectedKind::Struct)),
    }
}

/// Decodes one preset.
fn special_float(item: &Value) -> (got: Result<SpecialF32, DecodeError>)
    ensures
        decoded_as(got, decode_special_float(item@)),
{
    match item {
        Value::Struct(members) => {
            let id = required_string(members, "ID")?;
            let value = required_double(members, "VALUE")?;
            Ok(SpecialF32 { id, value })
        },
        _ => Err(DecodeError::TypeMismatch("SPECIAL".to_owned(), ExpectedKind::Struct)),
    }
}

/// The optional member `SPECIAL`, which lists presets.
fn optional_specials_float(members: &Vec<(String, Value)>) -> (got: Result<
    Option<Vec<SpecialF32>>,
    DecodeError,
>)
    ensures
        decoded_as(
            got,
            opt_list_of(
                members_view(members@),
                "SPECIAL"@,
                |v: ValueView| decode_special_float(v),
            ),
        ),
{
    let items = match find_member(members, "SPECIAL") {
        None => {
            return Ok(None);
        },
        Some(Value::Array(items)) => items,
        Some(_) => {
            return Err(DecodeError::TypeMismatch("SPECIAL".to_owned(), ExpectedKind::Array));
        },
    };
    let ghost model = items_view(items@);
    let ghost decode = |v: ValueView| decode_special_float(v);
    proof {
        lemma_items_view(items@);
        assert(model.take(0) =~= Seq::<ValueView>::empty());
    }
    let mut list: Vec<SpecialF32> = Vec::new();
    assert(list.deep_view() =~= Seq::<SpecialF32View>::empty());
    let mut i: usize = 0;
    while i < items.len()
        invariant
            i <= items.len(),
            lookup(members_view(members@), "SPECIAL"@) == Some(ValueView::Array(model)),
            model.len() == items.len(),
            forall|j: int| 0 <= j < items.len() ==> (#[trigger] model[j]) == items[j]@,
            decode == |v: ValueView| decode_special_float(v),
            decode_each(model.take(i as int), decode) == Ok::<
                Seq<SpecialF32View>,
                DecodeErrorView,
            >(list.deep_view()),
        decreases items.len() - i,
    {
        proof {
            lemma_decode_each_step(model, decode, i as int);
        }
        let ghost before = list.deep_view();
        match special_float(&items[i]) {
            Ok(special) => {
                list.push(special);
                assert(list.deep_view() =~= before.push(special.deep_view()));
            },
            Err(e) => {
                proof {
                    lemma_decode_each_error(model, decode, i + 1);
                }
                return Err(e);
            },
        }
        i += 1;
    }
    assert(model.take(i as int) =~= model);
    Ok(Some(list))
}

/// What an item of the list of presets decodes to: it has to be a struct
/// with an `ID` and a `VALUE`.
pub open spec fn decode_special_int(item: ValueView) -> Result<SpecialI32View, DecodeErrorView> {
    match item {
        ValueView::Struct(m) => {
            let id = req_string(m, "ID"@);
            let value = req_int(m, "VALUE"@);
            match Failure::none().or(id).or(value).0 {
                Some(e) => Err(e),
                None => Ok(SpecialI32View { id: id->Ok_0, value: value->Ok_0 }),
            }
        },
        _ => Err(DecodeErrorView::TypeMismatch("SPECIAL"@, ExpectedKind::Struct)),
    }
}

/// Decodes one preset.
fn special_int(item: &Value) -> (got: Result<SpecialI32, DecodeError>)
    ensures
        decoded_as(got, decode_special_int(item@)),
{
    match item {
        Value::Struct(members) => {
            let id = required_string(members, "ID")?;
            let value = required_int(members, "VALUE")?;
            Ok(SpecialI32 { id, value })
        },
        _ => Err(DecodeError::TypeMismatch("SPECIAL".to_owned(), ExpectedKind::Struct)),
    }
}

/// The optional member `SPECIAL`, which lists presets.
fn optional_specials_int(members: &Vec<(String, Value)>) -> (got: Result<
    Option<Vec<SpecialI32>>,
    DecodeError,
>)
    ensures
        decoded_as(
            got,
            opt_list_of(
                members_view(members@),
                "SPECIAL"@,
                |v: ValueView| decode_special_int(v),
            ),
        ),
{
    let items = match find_member(members, "SPECIAL") {
        None => {
            return Ok(None);
        },
        Some(Value::Array(items)) => items,
        Some(_) => {
            return Err(DecodeError::TypeMismatch("SPECIAL".to_owned(), ExpectedKind::Array));
        },
    };
    let ghost model = items_view(items@);
    let ghost decode = |v: ValueView| decode_special_int(v);
    proof {
        lemma_items_view(items@);
        assert(model.take(0) =~= Seq::<ValueView>::empty());
    }
    let mut list: Vec<SpecialI32> = Vec::new();
    assert(list.deep_view() =~= Seq::<SpecialI32View>::empty());
    let mut i: usize = 0;
    while i < items.len()
        invariant
            i <= items.len(),
            lookup(members_view(members@), "SPECIAL"@) == Some(ValueView::Array(model)),
            model.len() == items.len(),
            forall|j: int| 0 <= j < items.len() ==> (#[trigger] model[j]) == items[j]@,
            decode == |v: ValueView| decode_special_int(v),
            decode_each(model.take(i as int), decode) == Ok::<
                Seq<SpecialI32View>,
                DecodeErrorView,
            >(list.deep_view()),
        decreases items.len() - i,
    {
        proof {
            lemma_decode_each_step(model, decode, i as int);
        }
        let ghost before = list.deep_view();
        match special_int(&items[i]) {
            Ok(special) => {
                list.push(special);
                assert(list.deep_view() =~= before.push(special.deep_view()));
            },
            Err(e) => {
                proof {
                    lemma_decode_each_error(model, decode, i + 1);
                }
                return Err(e);
            },
        }
        i += 1;
    }
    assert(model.take(i as int) =~= model);
    Ok(Some(list))
}

/// What the members of a float parameter decode to. They are read in
/// the order below, and the first one that fails gives the error.
pub open spec fn decode_float(m: Seq<(Seq<char>, ValueView)>) -> Result<
    FloatParameterDescriptionView,
    DecodeErrorView,
> {
    let operations = req_int(m, "OPERATIONS"@);
    let flags = req_int(m, "FLAGS"@);
    let default = req_double(m, "DEFAULT"@);
    let min = req_double(m, "MIN"@);
    let max = req_double(m, "MAX"@);
    let unit = opt_string(m, "UNIT"@);
    let tab_order = opt_int(m, "TAB_ORDER"@);
    let control = opt_string(m, "CONTROL"@);
    let special = opt_list_of(m, "SPECIAL"@, |v: ValueView| decode_special_float(v));
    let first = Failure::none()
        .or(operations)
        .or(flags)
        .or(default)
        .or(min)
        .or(max)
        .or(unit)
        .or(tab_order)
        .or(control)
        .or(special);
    match first.0 {
        Some(e) => Err(e),
        None => Ok(
            FloatParameterDescriptionView {
                operations: operations->Ok_0,
                flags: flags->Ok_0,
                default: default->Ok_0,
                min: min->Ok_0,
                max: max->Ok_0,
                unit: unit->Ok_0,
                tab_order: tab_order->Ok_0,
                control: control->Ok_0,
                special: special->Ok_0,
            },
        ),
    }
}

impl FloatParameterDescription {
    /// Decodes the members of a float parameter.
    pub fn decode_members(members: &Vec<(String, Value)>) -> (got: Result<
        FloatParameterDescription,
        DecodeError,
    >)
        ensures
            viewed_as(got, decode_float(members_view(members@))),
    {
        let operations = required_int(members, "OPERATIONS")?;
        let flags = required_int(members, "FLAGS")?;
        let default = required_double(members, "DEFAULT")?;
        let min = required_double(members, "MIN")?;
        let max = required_double(members, "MAX")?;
        let unit = optional_string(members, "UNIT")?;
        let tab_order = optional_int(members, "TAB_ORDER")?;
        let control = optional_string(members, "CONTROL")?;
        let special = optional_specials_float(members)?;
        Ok(
            FloatParameterDescription {
                operations,
                flags,
                default,
                min,
                max,
                unit,
                tab_order,
                control,
                special,
            },
        )
    }
}

/// What the members of a integer parameter decode to. They are read in
/// the order below, and the first one that fails gives the error.
pub open spec fn decode_integer(m: Seq<(Seq<char>, ValueView)>) -> Result<
    IntegerParameterDescriptionView,
    DecodeErrorView,
> {
    let operations = req_int(m, "OPERATIONS"@);
    let flags = req_int(m, "FLAGS"@);
    let default = req_int(m, "DEFAULT"@);
    let min = req_int(m, "MIN"@);
    let max = req_int(m, "MAX"@);
    let unit = opt_string(m, "UNIT"@);
    let tab_order = opt_int(m, "TAB_ORDER"@);
    let control = opt_string(m, "CONTROL"@);
    let special = opt_list_of(m, "SPECIAL"@, |v: ValueView| decode_special_int(v));
    let first = Failure::none()
        .or(operations)
        .or(flags)
        .or(default)
        .or(min)
        .or(max)
        .or(unit)
        .or(tab_order)
        .or(control)
        .or(special);
    match first.0 {
        Some(e) => Err(e),
        None => Ok(
            IntegerParameterDescriptionView {
                operations: operations->Ok_0,
                flags: flags->Ok_0,
                default: default->Ok_0,
                min: min->Ok_0,
                max: max->Ok_0,
                unit: unit->Ok_0,
                tab_order: tab_order->Ok_0,
                control: control->Ok_0,
                special: special->Ok_0,
            },
        ),
    }
}

impl IntegerParameterDescription {
    /// Decodes the members of a integer parameter.
    pub fn decode_members(members: &Vec<(String, Value)>) -> (got: Result<
        IntegerParameterDescription,
        DecodeError,
    >)
        ensures
            viewed_as(got, decode_integer(members_view(members@))),
    {
        let operations = required_int(members, "OPERATIONS")?;
        let flags = required_int(members, "FLAGS")?;
        let default = required_int(members, "DEFAULT")?;
        let min = required_int(members, "MIN")?;
        let max = required_int(members, "MAX")?;
        let unit = optional_string(members, "UNIT")?;
        let tab_order = optional_int(members, "TAB_ORDER")?;
        let control = optional_string(members, "CONTROL")?;
        let special = optional_specials_int(members)?;
        Ok(
            IntegerParameterDescription {
                operations,
                flags,
                default,
                min,
                max,
                unit,
                tab_order,
                control,
                special,
            },
        )
    }
}

/// What the members of a boolean or command parameter decode to. They are read in
/// the order below, and the first one that fails gives the error.
pub open spec fn decode_bool(m: Seq<(Seq<char>, ValueView)>) -> Result<
    BoolParameterDescriptionView,
    DecodeErrorView,
> {
    let operations = req_int(m, "OPERATIONS"@);
    let flags = req_int(m, "FLAGS"@);
    let default = req_bool(m, "DEFAULT"@);
    let min = req_bool(m, "MIN"@);
    let max = req_bool(m, "MAX"@);
    let unit = opt_string(m, "UNIT"@);
    let tab_order = opt_int(m, "TAB_ORDER"@);
    let control = opt_string(m, "CONTROL"@);
    let first = Failure::none()
        .or(operations)
        .or(flags)
        .or(default)
        .or(min)
        .or(max)
        .or(unit)
        .or(tab_order)
        .or(control);
    match first.0 {
        Some(e) => Err(e),
        None => Ok(
            BoolParameterDescriptionView {
                operations: operations->Ok_0,
                flags: flags->Ok_0,
                default: default->Ok_0,
                min: min->Ok_0,
                max: max->Ok_0,
                unit: unit->Ok_0,
                tab_order: tab_order->Ok_0,
                control: control->Ok_0,
            },
        ),
    }
}

impl BoolParameterDescription {
    /// Decodes the members of a boolean or command parameter.
    pub fn decode_members(members: &Vec<(String, Value)>) -> (got: Result<
        BoolParameterDescription,
        DecodeError,
    >)
        ensures
            viewed_as(got, decode_bool(members_view(members@))),
    {
        let operations = required_int(members, "OPERATIONS")?;
        let flags = required_int(members, "FLAGS")?;
        let default = required_bool(members, "DEFAULT")?;
        let min = required_bool(members, "MIN")?;
        let max = required_bool(members, "MAX")?;
        let unit = optional_string(members, "UNIT")?;
        let tab_order = optional_int(members, "TAB_ORDER")?;
        let control = optional_string(members, "CONTROL")?;
        Ok(
            BoolParameterDescription {
                operations,
                flags,
                default,
                min,
                max,
                unit,
                tab_order,
                control,
            },
        )
    }
}

/// What the members of a label parameter decode to. They are read in
/// the order below, and the first one that fails gives the error.
pub open spec fn decode_enum(m: Seq<(Seq<char>, ValueView)>) -> Result<
    EnumParameterDescriptionView,
    DecodeErrorView,
> {
    let operations = req_byte(m, "OPERATIONS"@);
    let flags = req_byte(m, "FLAGS"@);
    let default = req_string(m, "DEFAULT"@);
    let min = req_string(m, "MIN"@);
    let max = req_string(m, "MAX"@);
    let unit = opt_string(m, "UNIT"@);
    let tab_order = opt_int(m, "TAB_ORDER"@);
    let control = opt_string(m, "CONTROL"@);
    let values = req_string_list(m, "VALUE_LIST"@);
    let first = Failure::none()
        .or(operations)
        .or(flags)
        .or(default)
        .or(min)
        .or(max)
        .or(unit)
        .or(tab_order)
        .or(control)
        .or(values);
    match first.0 {
        Some(e) => Err(e),
        None => Ok(
            EnumParameterDescriptionView {
                operations: operations->Ok_0,
                flags: flags->Ok_0,
                default: default->Ok_0,
                min: min->Ok_0,
                max: max->Ok_0,
                unit: unit->Ok_0,
                tab_order: tab_order->Ok_0,
                control: control->Ok_0,
                values: values->Ok_0,
            },
        ),
    }
}

impl EnumParameterDescription {
    /// Decodes the members of a label parameter.
    pub fn decode_members(members: &Vec<(String, Value)>) -> (got: Result<
        EnumParameterDescription,
        DecodeError,
    >)
        ensures
            viewed_as(got, decode_enum(members_view(members@))),
    {
        let operations = required_byte(members, "OPERATIONS")?;
        let flags = required_byte(members, "FLAGS")?;
        let default = required_string(members, "DEFAULT")?;
        let min = required_string(members, "MIN")?;
        let max = required_string(members, "MAX")?;
        let unit = optional_string(members, "UNIT")?;
        let tab_order = optional_int(members, "TAB_ORDER")?;
        let control = optional_string(members, "CONTROL")?;
        let values = required_string_list(members, "VALUE_LIST")?;
        Ok(
            EnumParameterDescription {
                operations,
                flags,
                default,
                min,
                max,
                unit,
                tab_order,
                control,
                values,
            },
        )
    }
}

/// What the members of a string parameter decode to. They are read in
/// the order below, and the first one that fails gives the error.
pub open spec fn decode_string(m: Seq<(Seq<char>, ValueView)>) -> Result<
    StringParameterDescriptionView,
    DecodeErrorView,
> {
    let operations = req_int(m, "OPERATIONS"@);
    let flags = req_int(m, "FLAGS"@);
    let default = req_string(m, "DEFAULT"@);
    let min = req_string(m, "MIN"@);
    let max = req_string(m, "MAX"@);
    let unit = opt_string(m, "UNIT"@);
    let tab_order = opt_int(m, "TAB_ORDER"@);
    let control = opt_string(m, "CONTROL"@);
    let first = Failure::none()
        .or(operations)
        .or(flags)
        .or(default)
        .or(min)
        .or(max)
        .or(unit)
        .or(tab_order)
        .or(control);
    match first.0 {
        Some(e) => Err(e),
        None => Ok(
            StringParameterDescriptionView {
                operations: operations->Ok_0,
                flags: flags->Ok_0,
                default: default->Ok_0,
                min: min->Ok_0,
                max: max->Ok_0,
                unit: unit->Ok_0,
                tab_order: tab_order->Ok_0,
                control: control->Ok_0,
            },
        ),
    }
}

impl StringParameterDescription {
    /// Decodes the members of a string parameter.
    pub fn decode_members(members: &Vec<(String, Value)>) -> (got: Result<
        StringParameterDescription,
        DecodeError,
    >)
        ensures
            viewed_as(got, decode_string(members_view(members@))),
    {
        let operations = required_int(members, "OPERATIONS")?;
        let flags = required_int(members, "FLAGS")?;
        let default = required_string(members, "DEFAULT")?;
        let min = required_string(members, "MIN")?;
        let max = required_string(members, "MAX")?;
        let unit = optional_string(members, "UNIT")?;
        let tab_order = optional_int(members, "TAB_ORDER")?;
        let control = optional_string(members, "CONTROL")?;
        Ok(
            StringParameterDescription {
                operations,
                flags,
                default,
                min,
                max,
                unit,
                tab_order,
                control,
            },
        )
    }
}

/// What the members of a parameter description decode to: the type tag
/// is read first and selects the kind, whose members are read then. A tag
/// that stands for no kind is an error; there is no kind to fall back on.
pub open spec fn decode_parameter_members(m: Seq<(Seq<char>, ValueView)>) -> Result<
    ParameterDescriptionView,
    DecodeErrorView,
> {
    match req_string(m, "TYPE"@) {
        Err(e) => Err(e),
        Ok(tag) => match ParameterKind::of_tag(tag) {
            None => Err(DecodeErrorView::UnknownDiscriminant(tag)),
            Some(ParameterKind::Float) => match decode_float(m) {
                Ok(d) => Ok(ParameterDescriptionView::Float(d)),
                Err(e) => Err(e),
            },
            Some(ParameterKind::Integer) => match decode_integer(m) {
                Ok(d) => Ok(ParameterDescriptionView::Integer(d)),
                Err(e) => Err(e),
            },
            Some(ParameterKind::Bool) => match decode_bool(m) {
                Ok(d) => Ok(ParameterDescriptionView::Bool(d)),
                Err(e) => Err(e),
            },
            Some(ParameterKind::Enum) => match decode_enum(m) {
                Ok(d) => Ok(ParameterDescriptionView::Enum(d)),
                Err(e) => Err(e),
            },
            Some(ParameterKind::String) => match decode_string(m) {
                Ok(d) => Ok(ParameterDescriptionView::String(d)),
                Err(e) => Err(e),
            },
            Some(ParameterKind::Action) => match decode_bool(m) {
                Ok(d) => Ok(ParameterDescriptionView::Action(d)),
                Err(e) => Err(e),
            },
        },
    }
}

/// What a wire value decodes to as a parameter description: it has to be a
/// struct, and then its members decide.
pub open spec fn decode_parameter(value: ValueView) -> Result<
    ParameterDescriptionView,
    DecodeErrorView,
> {
    match value {
        ValueView::Struct(members) => decode_parameter_members(members),
        _ => Err(DecodeErrorView::TypeMismatch(""@, ExpectedKind::Struct)),
    }
}

impl ParameterDescription {
    /// Decodes a parameter description from its wire struct.
    pub fn decode(value: &Value) -> (got: Result<ParameterDescription, DecodeError>)
        ensures
            viewed_as(got, decode_parameter(value@)),
    {
        let members = match value {
            Value::Struct(members) => members,
            _ => {
                return Err(DecodeError::TypeMismatch("".to_owned(), ExpectedKind::Struct));
            },
        };
        let tag = required_string(members, "TYPE")?;
        match ParameterKind::from_tag(tag.as_str()) {
            None => Err(DecodeError::UnknownDiscriminant(tag)),
            Some(ParameterKind::Float) => Ok(
                ParameterDescription::Float(FloatParameterDescription::decode_members(members)?),
            ),
            Some(ParameterKind::Integer) => Ok(
                ParameterDescription::Integer(
                    IntegerParameterDescription::decode_members(members)?,
                ),
            ),
            Some(ParameterKind::Bool) => Ok(
                ParameterDescription::Bool(BoolParameterDescription::decode_members(members)?),
            ),
            Some(ParameterKind::Enum) => Ok(
                ParameterDescription::Enum(EnumParameterDescription::decode_members(members)?),
            ),
            Some(ParameterKind::String) => Ok(
                ParameterDescription::String(StringParameterDescription::decode_members(members)?),
            ),
            Some(ParameterKind::Action) => Ok(
                ParameterDescription::Action(BoolParameterDescription::decode_members(members)?),
            ),
        }
    }

    /// The kind of the parameter.
    pub fn kind(&self) -> (kind: ParameterKind)
        ensures
            kind == self@.kind(),
    {
        match self {
            ParameterDescription::Float(_) => ParameterKind::Float,
            ParameterDescription::Integer(_) => ParameterKind::Integer,
            ParameterDescription::Bool(_) => ParameterKind::Bool,
            ParameterDescription::Enum(_) => ParameterKind::Enum,
            ParameterDescription::String(_) => ParameterKind::String,
            ParameterDescription::Action(_) => ParameterKind::Action,
        }
    }
}

/// The type tag survives decoding: what was decoded is of the kind that
/// the tag on the wire stands for, and the tag can be had back from it.
pub proof fn lemma_tag_survives(m: Seq<(Seq<char>, ValueView)>)
    requires
        decode_parameter_members(m) is Ok,
    ensures
        req_string(m, "TYPE"@) == Ok::<Seq<char>, DecodeErrorView>(
            decode_parameter_members(m)->Ok_0.kind().tag(),
        ),
{
    let tag = req_string(m, "TYPE"@)->Ok_0;
    ParameterKind::lemma_tags(decode_parameter_members(m)->Ok_0.kind(), tag);
}

/// A command and a boolean parameter stay apart. Where two structs differ
/// in nothing that the decoder of their members reads, one tagged as a
/// boolean and one as a command, both decode or neither does, with the same
/// members and the same error, and what they decode to is never the same.
pub proof fn lemma_action_is_not_bool(
    a: Seq<(Seq<char>, ValueView)>,
    b: Seq<(Seq<char>, ValueView)>,
)
    requires
        req_string(a, "TYPE"@) == Ok::<Seq<char>, DecodeErrorView>("BOOL"@),
        req_string(b, "TYPE"@) == Ok::<Seq<char>, DecodeErrorView>("ACTION"@),
        decode_bool(a) == decode_bool(b),
    ensures
        decode_parameter_members(a) == match decode_bool(a) {
            Ok(d) => Ok::<ParameterDescriptionView, DecodeErrorView>(
                ParameterDescriptionView::Bool(d),
            ),
            Err(e) => Err(e),
        },
        decode_parameter_members(b) == match decode_bool(a) {
            Ok(d) => Ok::<ParameterDescriptionView, DecodeErrorView>(
                ParameterDescriptionView::Action(d),
            ),
            Err(e) => Err(e),
        },
        decode_parameter_members(a) is Ok ==> decode_parameter_members(a)
            != decode_parameter_members(b),
{
    ParameterKind::lemma_tags(ParameterKind::Bool, "BOOL"@);
    ParameterKind::lemma_tags(ParameterKind::Action, "ACTION"@);
}

/// The current values of a parameter set, or the values to write: from the
/// identifier of each parameter to a value of whatever kind, in wire order.
pub type Paramset = Vec<(String, Value)>;

/// The schema of a parameter set: from the identifier of each parameter to
/// its description, in wire order.
pub type ParamsetDescription = Vec<(String, ParameterDescription)>;

/// The values of the members, without their names.
pub open spec fn values_of(members: Seq<(Seq<char>, ValueView)>) -> Seq<ValueView> {
    Seq::new(members.len(), |i: int| members[i].1)
}

/// What a wire value decodes to as the schema of a parameter set: it has
/// to be a struct, and then each member has to decode as a parameter
/// description, which stands under the member's name. The first member
/// that fails gives the error.
pub open spec fn decode_schema(value: ValueView) -> Result<
    Seq<(Seq<char>, ParameterDescriptionView)>,
    DecodeErrorView,
> {
    match value {
        ValueView::Struct(members) => match decode_each(
            values_of(members),
            |v: ValueView| decode_parameter(v),
        ) {
            Err(e) => Err(e),
            Ok(descriptions) => Ok(
                Seq::new(members.len(), |i: int| (members[i].0, descriptions[i])),
            ),
        },
        _ => Err(DecodeErrorView::TypeMismatch(""@, ExpectedKind::Struct)),
    }
}

/// Decodes the schema of a parameter set.
pub fn decode_paramset_description(value: &Value) -> (got: Result<
    ParamsetDescription,
    DecodeError,
>)
    ensures
        decoded_as(got, decode_schema(value@)),
{
    let members = match value {
        Value::Struct(members) => members,
        _ => {
            return Err(DecodeError::TypeMismatch("".to_owned(), ExpectedKind::Struct));
        },
    };
    let ghost model = members_view(members@);
    let ghost values = values_of(model);
    let ghost decode = |v: ValueView| decode_parameter(v);
    proof {
        lemma_members_view(members@);
        assert(values.take(0) =~= Seq::<ValueView>::empty());
    }
    let mut list: Vec<(String, ParameterDescription)> = Vec::new();
    let ghost mut descriptions: Seq<ParameterDescriptionView> = Seq::empty();
    let mut i: usize = 0;
    while i < members.len()
        invariant
            i <= members.len(),
            value@ == ValueView::Struct(model),
            values == values_of(model),
            model.len() == members.len(),
            forall|j: int|
                0 <= j < members.len() ==> (#[trigger] model[j]) == (members[j].0@, members[j].1@),
            decode == |v: ValueView| decode_parameter(v),
            decode_each(values.take(i as int), decode) == Ok::<
                Seq<ParameterDescriptionView>,
                DecodeErrorView,
            >(descriptions),
            list.len() == i,
            descriptions.len() == i,
            forall|j: int|
                0 <= j < i ==> (#[trigger] list[j]).0@ == model[j].0 && list[j].1@
                    == descriptions[j],
        decreases members.len() - i,
    {
        proof {
            lemma_decode_each_step(values, decode, i as int);
        }
        match ParameterDescription::decode(&members[i].1) {
            Ok(description) => {
                proof {
                    descriptions = descriptions.push(description@);
                }
                list.push((members[i].0.clone(), description));
            },
            Err(e) => {
                proof {
                    lemma_decode_each_error(values, decode, i + 1);
                }
                return Err(e);
            },
        }
        i += 1;
    }
    proof {
        assert(values.take(i as int) =~= values);
        assert(list.deep_view() =~= Seq::new(
            model.len(),
            |i: int| (model[i].0, descriptions[i]),
        ));
    }
    Ok(list)
}

/// Decodes the values of a parameter set: the wire value has to be a
/// struct, whose members are taken as they are.
pub fn decode_paramset(value: &Value) -> (got: Result<Paramset, DecodeError>)
    ensures
        match got {
            Ok(set) => value@ == ValueView::Struct(members_view(set@)),
            Err(e) => !(value@ is Struct) && e@ == DecodeErrorView::TypeMismatch(
                ""@,
                ExpectedKind::Struct,
            ),
        },
{
    match value.clone() {
        Value::Struct(members) => Ok(members),
        _ => Err(DecodeError::TypeMismatch("".to_owned(), ExpectedKind::Struct)),
    }
}

} // verus!
