//! Reading the members of a wire struct: each one by its name and the kind
//! of value that it has to hold.

use crate::error::{DecodeError, DecodeErrorView, ExpectedKind};
use crate::value::{
    find_member, items_view, lemma_items_view, lookup, members_view, Value, ValueView,
};
use vstd::prelude::*;

verus! {

/// The string that `value` holds, or the kind that was expected instead.
pub open spec fn read_string(value: ValueView) -> Result<Seq<char>, ExpectedKind> {
    match value {
        ValueView::String(s) => Ok(s),
        _ => Err(ExpectedKind::String),
    }
}

/// The integer that `value` holds.
pub open spec fn read_int(value: ValueView) -> Result<i32, ExpectedKind> {
    match value {
        ValueView::Int(i) => Ok(i),
        _ => Err(ExpectedKind::Int),
    }
}

/// The integer that `value` holds, which has to fit in eight unsigned bits.
pub open spec fn read_byte(value: ValueView) -> Result<u8, ExpectedKind> {
    match value {
        ValueView::Int(i) if 0 <= i <= 255 => Ok(i as u8),
        _ => Err(ExpectedKind::Byte),
    }
}

/// The boolean that `value` holds.
pub open spec fn read_bool(value: ValueView) -> Result<bool, ExpectedKind> {
    match value {
        ValueView::Bool(b) => Ok(b),
        _ => Err(ExpectedKind::Bool),
    }
}

/// The bit pattern of the double that `value` holds.
pub open spec fn read_double(value: ValueView) -> Result<u64, ExpectedKind> {
    match value {
        ValueView::Double(bits) => Ok(bits),
        _ => Err(ExpectedKind::Double),
    }
}

/// Whether every item is a string.
pub open spec fn all_strings(items: Seq<ValueView>) -> bool {
    forall|i: int| 0 <= i < items.len() ==> (#[trigger] items[i]) is String
}

/// The strings that the items hold, in order.
pub open spec fn strings_of(items: Seq<ValueView>) -> Seq<Seq<char>> {
    Seq::new(items.len(), |i: int| items[i]->String_0)
}

/// The list of strings that `value` holds: it has to be a list, and then
/// each of its items a string.
pub open spec fn read_string_list(value: ValueView) -> Result<Seq<Seq<char>>, ExpectedKind> {
    match value {
        ValueView::Array(items) => if all_strings(items) {
            Ok(strings_of(items))
        } else {
            Err(ExpectedKind::String)
        },
        _ => Err(ExpectedKind::Array),
    }
}

/// What was found under a name: nothing, a value of the wrong kind, or what
/// was read from it.
pub open spec fn found<T>(
    members: Seq<(Seq<char>, ValueView)>,
    name: Seq<char>,
    read: spec_fn(ValueView) -> Result<T, ExpectedKind>,
) -> Option<Result<T, ExpectedKind>> {
    match lookup(members, name) {
        Some(value) => Some(read(value)),
        None => None,
    }
}

/// A member that has to be there: its absence is an error too.
pub open spec fn required<T>(name: Seq<char>, found: Option<Result<T, ExpectedKind>>) -> Result<
    T,
    DecodeErrorView,
> {
    match found {
        None => Err(DecodeErrorView::MissingField(name)),
        Some(Err(kind)) => Err(DecodeErrorView::TypeMismatch(name, kind)),
        Some(Ok(t)) => Ok(t),
    }
}

/// A member that may be absent: only a value of the wrong kind is an error.
/// A member that is there has to be of the kind; `Nil` does not stand for
/// an absent member.
pub open spec fn optional<T>(name: Seq<char>, found: Option<Result<T, ExpectedKind>>) -> Result<
    Option<T>,
    DecodeErrorView,
> {
    match found {
        None => Ok(None),
        Some(Err(kind)) => Err(DecodeErrorView::TypeMismatch(name, kind)),
        Some(Ok(t)) => Ok(Some(t)),
    }
}

/// The required string member `name`.
pub open spec fn req_string(members: Seq<(Seq<char>, ValueView)>, name: Seq<char>) -> Result<
    Seq<char>,
    DecodeErrorView,
> {
    required(name, found(members, name, |v: ValueView| read_string(v)))
}

/// The optional string member `name`.
pub open spec fn opt_string(members: Seq<(Seq<char>, ValueView)>, name: Seq<char>) -> Result<
    Option<Seq<char>>,
    DecodeErrorView,
> {
    optional(name, found(members, name, |v: ValueView| read_string(v)))
}

/// The required integer member `name`.
pub open spec fn req_int(members: Seq<(Seq<char>, ValueView)>, name: Seq<char>) -> Result<
    i32,
    DecodeErrorView,
> {
    required(name, found(members, name, |v: ValueView| read_int(v)))
}

/// The optional integer member `name`.
pub open spec fn opt_int(members: Seq<(Seq<char>, ValueView)>, name: Seq<char>) -> Result<
    Option<i32>,
    DecodeErrorView,
> {
    optional(name, found(members, name, |v: ValueView| read_int(v)))
}

/// The required eight-bit member `name`.
pub open spec fn req_byte(members: Seq<(Seq<char>, ValueView)>, name: Seq<char>) -> Result<
    u8,
    DecodeErrorView,
> {
    required(name, found(members, name, |v: ValueView| read_byte(v)))
}

/// The required boolean member `name`.
pub open spec fn req_bool(members: Seq<(Seq<char>, ValueView)>, name: Seq<char>) -> Result<
    bool,
    DecodeErrorView,
> {
    required(name, found(members, name, |v: ValueView| read_bool(v)))
}

/// The optional boolean member `name`.
pub open spec fn opt_bool(members: Seq<(Seq<char>, ValueView)>, name: Seq<char>) -> Result<
    Option<bool>,
    DecodeErrorView,
> {
    optional(name, found(members, name, |v: ValueView| read_bool(v)))
}

/// The required double member `name`, as its bit pattern.
pub open spec fn req_double(members: Seq<(Seq<char>, ValueView)>, name: Seq<char>) -> Result<
    u64,
    DecodeErrorView,
> {
    required(name, found(members, name, |v: ValueView| read_double(v)))
}

/// The required member `name` that lists strings.
pub open spec fn req_string_list(members: Seq<(Seq<char>, ValueView)>, name: Seq<char>) -> Result<
    Seq<Seq<char>>,
    DecodeErrorView,
> {
    required(name, found(members, name, |v: ValueView| read_string_list(v)))
}

/// The optional member `name` that lists strings.
pub open spec fn opt_string_list(members: Seq<(Seq<char>, ValueView)>, name: Seq<char>) -> Result<
    Option<Seq<Seq<char>>>,
    DecodeErrorView,
> {
    optional(name, found(members, name, |v: ValueView| read_string_list(v)))
}

/// The first failure among decoding steps that are taken in order.
pub ghost struct Failure(pub Option<DecodeErrorView>);

impl Failure {
    /// No step was taken yet.
    pub open spec fn none() -> Failure {
        Failure(None)
    }

    /// One more step: its error counts if no step before it failed.
    pub open spec fn or<T>(self, step: Result<T, DecodeErrorView>) -> Failure {
        match (self.0, step) {
            (None, Err(e)) => Failure(Some(e)),
            _ => self,
        }
    }
}

/// Decodes the items of a list one after the other. The first item that
/// fails gives the error; else the results stand in the order of the items.
pub open spec fn decode_each<T>(
    items: Seq<ValueView>,
    decode: spec_fn(ValueView) -> Result<T, DecodeErrorView>,
) -> Result<Seq<T>, DecodeErrorView>
    decreases items.len(),
{
    if items.len() == 0 {
        Ok(Seq::empty())
    } else {
        match decode_each(items.drop_last(), decode) {
            Err(e) => Err(e),
            Ok(before) => match decode(items.last()) {
                Err(e) => Err(e),
                Ok(t) => Ok(before.push(t)),
            },
        }
    }
}

/// One more item decoded after a prefix that succeeded.
pub proof fn lemma_decode_each_step<T>(
    items: Seq<ValueView>,
    decode: spec_fn(ValueView) -> Result<T, DecodeErrorView>,
    done: int,
)
    requires
        0 <= done < items.len(),
        decode_each(items.take(done), decode) is Ok,
    ensures
        decode_each(items.take(done + 1), decode) == match decode(items[done]) {
            Err(e) => Err::<Seq<T>, DecodeErrorView>(e),
            Ok(t) => Ok(decode_each(items.take(done), decode)->Ok_0.push(t)),
        },
{
    assert(items.take(done + 1).drop_last() =~= items.take(done));
    assert(items.take(done + 1).last() == items[done]);
}

/// An error among the first items is the error of the whole list.
pub proof fn lemma_decode_each_error<T>(
    items: Seq<ValueView>,
    decode: spec_fn(ValueView) -> Result<T, DecodeErrorView>,
    done: int,
)
    requires
        0 <= done <= items.len(),
        decode_each(items.take(done), decode) is Err,
    ensures
        decode_each(items, decode) == decode_each(items.take(done), decode),
    decreases items.len() - done,
{
    if done == items.len() {
        assert(items.take(done) =~= items);
    } else {
        assert(items.take(done + 1).drop_last() =~= items.take(done));
        lemma_decode_each_error(items, decode, done + 1);
    }
}

/// Where a list decodes, there is one result for each item, and it is what
/// that item decodes to.
pub proof fn lemma_decode_each_ok<T>(
    items: Seq<ValueView>,
    decode: spec_fn(ValueView) -> Result<T, DecodeErrorView>,
)
    requires
        decode_each(items, decode) is Ok,
    ensures
        decode_each(items, decode)->Ok_0.len() == items.len(),
        forall|i: int|
            0 <= i < items.len() ==> decode(#[trigger] items[i]) == Ok::<T, DecodeErrorView>(
                decode_each(items, decode)->Ok_0[i],
            ),
    decreases items.len(),
{
    if items.len() > 0 {
        let before = items.drop_last();
        lemma_decode_each_ok(before, decode);
        assert forall|i: int| 0 <= i < items.len() implies decode(#[trigger] items[i]) == Ok::<
            T,
            DecodeErrorView,
        >(decode_each(items, decode)->Ok_0[i]) by {
            if i < before.len() {
                assert(before[i] == items[i]);
            }
        }
    }
}

/// The optional member `name` that lists items of one shape: it has to be
/// a list, and then each of its items has to decode.
pub open spec fn opt_list_of<T>(
    members: Seq<(Seq<char>, ValueView)>,
    name: Seq<char>,
    decode: spec_fn(ValueView) -> Result<T, DecodeErrorView>,
) -> Result<Option<Seq<T>>, DecodeErrorView> {
    match lookup(members, name) {
        None => Ok(None),
        Some(ValueView::Array(items)) => match decode_each(items, decode) {
            Ok(list) => Ok(Some(list)),
            Err(e) => Err(e),
        },
        Some(_) => Err(DecodeErrorView::TypeMismatch(name, ExpectedKind::Array)),
    }
}

/// What a wire value decodes to as a list of items of one shape: it has to
/// be a list, and then each of its items has to decode.
pub open spec fn list_of<T>(
    value: ValueView,
    decode: spec_fn(ValueView) -> Result<T, DecodeErrorView>,
) -> Result<Seq<T>, DecodeErrorView> {
    match value {
        ValueView::Array(items) => decode_each(items, decode),
        _ => Err(DecodeErrorView::TypeMismatch(""@, ExpectedKind::Array)),
    }
}

/// Whether what the code read is what the model says: the same value, seen
/// through its view, or the same refusal.
pub open spec fn read_as<T: DeepView>(got: Result<T, ExpectedKind>, model: Result<
    T::V,
    ExpectedKind,
>) -> bool {
    match got {
        Ok(t) => model == Ok::<T::V, ExpectedKind>(t.deep_view()),
        Err(kind) => model == Err::<T::V, ExpectedKind>(kind),
    }
}

/// Whether what the code decoded is what the model says: the same value,
/// seen through its view, or the same error.
pub open spec fn decoded_as<T: DeepView>(got: Result<T, DecodeError>, model: Result<
    T::V,
    DecodeErrorView,
>) -> bool {
    match got {
        Ok(t) => model == Ok::<T::V, DecodeErrorView>(t.deep_view()),
        Err(e) => model == Err::<T::V, DecodeErrorView>(e@),
    }
}

/// The same for a type that has its model as its view.
pub open spec fn viewed_as<T: View>(got: Result<T, DecodeError>, model: Result<
    T::V,
    DecodeErrorView,
>) -> bool {
    match got {
        Ok(t) => model == Ok::<T::V, DecodeErrorView>(t@),
        Err(e) => model == Err::<T::V, DecodeErrorView>(e@),
    }
}

/// Reads a string.
pub fn value_string(value: &Value) -> (got: Result<String, ExpectedKind>)
    ensures
        read_as(got, read_string(value@)),
{
    match value {
        Value::String(s) => Ok(s.clone()),
        _ => Err(ExpectedKind::String),
    }
}

/// Reads an integer.
pub fn value_int(value: &Value) -> (got: Result<i32, ExpectedKind>)
    ensures
        read_as(got, read_int(value@)),
{
    match value {
        Value::Int(i) => Ok(*i),
        _ => Err(ExpectedKind::Int),
    }
}

/// Reads an integer of eight unsigned bits.
pub fn value_byte(value: &Value) -> (got: Result<u8, ExpectedKind>)
    ensures
        read_as(got, read_byte(value@)),
{
    match value {
        Value::Int(i) => {
            if 0 <= *i && *i <= 255 {
                Ok(*i as u8)
            } else {
                Err(ExpectedKind::Byte)
            }
        },
        _ => Err(ExpectedKind::Byte),
    }
}

/// Reads a boolean.
pub fn value_bool(value: &Value) -> (got: Result<bool, ExpectedKind>)
    ensures
        read_as(got, read_bool(value@)),
{
    match value {
        Value::Bool(b) => Ok(*b),
        _ => Err(ExpectedKind::Bool),
    }
}

/// Reads the bit pattern of a double.
pub fn value_double(value: &Value) -> (got: Result<u64, ExpectedKind>)
    ensures
        read_as(got, read_double(value@)),
{
    match value {
        Value::Double(bits) => Ok(*bits),
        _ => Err(ExpectedKind::Double),
    }
}

/// Reads a list of strings.
pub fn value_string_list(value: &Value) -> (got: Result<Vec<String>, ExpectedKind>)
    ensures
        read_as(got, read_string_list(value@)),
{
    match value {
        Value::Array(items) => {
            let ghost model = items_view(items@);
            proof {
                lemma_items_view(items@);
            }
            let mut strings: Vec<String> = Vec::new();
            let mut i: usize = 0;
            while i < items.len()
                invariant
                    i <= items.len(),
                    strings.len() == i,
                    value@ == ValueView::Array(model),
                    model.len() == items.len(),
                    forall|j: int| 0 <= j < items.len() ==> (#[trigger] model[j]) == items[j]@,
                    forall|j: int| 0 <= j < i ==> (#[trigger] model[j]) is String,
                    forall|j: int| 0 <= j < i ==> (#[trigger] strings[j])@ == model[j]->String_0,
                decreases items.len() - i,
            {
                match &items[i] {
                    Value::String(s) => {
                        strings.push(s.clone());
                    },
                    _ => {
                        assert(!(model[i as int] is String));
                        return Err(ExpectedKind::String);
                    },
                }
                i += 1;
            }
            assert(strings.deep_view() =~= strings_of(model));
            Ok(strings)
        },
        _ => Err(ExpectedKind::Array),
    }
}

/// Turns what was found under a required name into its value or the error.
pub fn require_found<T: DeepView>(name: &str, found: Option<Result<T, ExpectedKind>>) -> (got: Result<
    T,
    DecodeError,
>)
    ensures
        forall|model: Option<Result<T::V, ExpectedKind>>|
            found_as(found, model) ==> decoded_as(got, #[trigger] required(name@, model)),
{
    match found {
        None => Err(DecodeError::MissingField(name.to_owned())),
        Some(Err(kind)) => Err(DecodeError::TypeMismatch(name.to_owned(), kind)),
        Some(Ok(t)) => Ok(t),
    }
}

/// Turns what was found under an optional name into its value or the error.
pub fn permit_found<T: DeepView>(name: &str, found: Option<Result<T, ExpectedKind>>) -> (got: Result<
    Option<T>,
    DecodeError,
>)
    ensures
        forall|model: Option<Result<T::V, ExpectedKind>>|
            found_as(found, model) ==> decoded_as(got, #[trigger] optional(name@, model)),
{
    match found {
        None => Ok(None),
        Some(Err(kind)) => Err(DecodeError::TypeMismatch(name.to_owned(), kind)),
        Some(Ok(t)) => Ok(Some(t)),
    }
}

/// Whether what the code found under a name is what the model says.
pub open spec fn found_as<T: DeepView>(got: Option<Result<T, ExpectedKind>>, model: Option<
    Result<T::V, ExpectedKind>,
>) -> bool {
    match got {
        Some(read) => model is Some && read_as(read, model->Some_0),
        None => model is None,
    }
}

/// The required string member `name`.
pub fn required_string(members: &Vec<(String, Value)>, name: &str) -> (got: Result<
    String,
    DecodeError,
>)
    ensures
        decoded_as(got, req_string(members_view(members@), name@)),
{
    let read = match find_member(members, name) {
        Some(value) => Some(value_string(value)),
        None => None,
    };
    assert(found_as(read, found(members_view(members@), name@, |v: ValueView| read_string(v))));
    require_found(name, read)
}

/// The optional string member `name`.
pub fn optional_string(members: &Vec<(String, Value)>, name: &str) -> (got: Result<
    Option<String>,
    DecodeError,
>)
    ensures
        decoded_as(got, opt_string(members_view(members@), name@)),
{
    let read = match find_member(members, name) {
        Some(value) => Some(value_string(value)),
        None => None,
    };
    assert(found_as(read, found(members_view(members@), name@, |v: ValueView| read_string(v))));
    permit_found(name, read)
}

/// The required integer member `name`.
pub fn required_int(members: &Vec<(String, Value)>, name: &str) -> (got: Result<
    i32,
    DecodeError,
>)
    ensures
        decoded_as(got, req_int(members_view(members@), name@)),
{
    let read = match find_member(members, name) {
        Some(value) => Some(value_int(value)),
        None => None,
    };
    assert(found_as(read, found(members_view(members@), name@, |v: ValueView| read_int(v))));
    require_found(name, read)
}

/// The optional integer member `name`.
pub fn optional_int(members: &Vec<(String, Value)>, name: &str) -> (got: Result<
    Option<i32>,
    DecodeError,
>)
    ensures
        decoded_as(got, opt_int(members_view(members@), name@)),
{
    let read = match find_member(members, name) {
        Some(value) => Some(value_int(value)),
        None => None,
    };
    assert(found_as(read, found(members_view(members@), name@, |v: ValueView| read_int(v))));
    permit_found(name, read)
}

/// The required eight-bit member `name`.
pub fn required_byte(members: &Vec<(String, Value)>, name: &str) -> (got: Result<
    u8,
    DecodeError,
>)
    ensures
        decoded_as(got, req_byte(members_view(members@), name@)),
{
    let read = match find_member(members, name) {
        Some(value) => Some(value_byte(value)),
        None => None,
    };
    assert(found_as(read, found(members_view(members@), name@, |v: ValueView| read_byte(v))));
    require_found(name, read)
}

/// The required boolean member `name`.
pub fn required_bool(members: &Vec<(String, Value)>, name: &str) -> (got: Result<
    bool,
    DecodeError,
>)
    ensures
        decoded_as(got, req_bool(members_view(members@), name@)),
{
    let read = match find_member(members, name) {
        Some(value) => Some(value_bool(value)),
        None => None,
    };
    assert(found_as(read, found(members_view(members@), name@, |v: ValueView| read_bool(v))));
    require_found(name, read)
}

/// The optional boolean member `name`.
pub fn optional_bool(members: &Vec<(String, Value)>, name: &str) -> (got: Result<
    Option<bool>,
    DecodeError,
>)
    ensures
        decoded_as(got, opt_bool(members_view(members@), name@)),
{
    let read = match find_member(members, name) {
        Some(value) => Some(value_bool(value)),
        None => None,
    };
    assert(found_as(read, found(members_view(members@), name@, |v: ValueView| read_bool(v))));
    permit_found(name, read)
}

/// The required double member `name`, as its bit pattern.
pub fn required_double(members: &Vec<(String, Value)>, name: &str) -> (got: Result<
    u64,
    DecodeError,
>)
    ensures
        decoded_as(got, req_double(members_view(members@), name@)),
{
    let read = match find_member(members, name) {
        Some(value) => Some(value_double(value)),
        None => None,
    };
    assert(found_as(read, found(members_view(members@), name@, |v: ValueView| read_double(v))));
    require_found(name, read)
}

/// The required member `name` that lists strings.
pub fn required_string_list(members: &Vec<(String, Value)>, name: &str) -> (got: Result<
    Vec<String>,
    DecodeError,
>)
    ensures
        decoded_as(got, req_string_list(members_view(members@), name@)),
{
    let read = match find_member(members, name) {
        Some(value) => Some(value_string_list(value)),
        None => None,
    };
    assert(found_as(read, found(members_view(members@), name@, |v: ValueView| read_string_list(v))));
    require_found(name, read)
}

/// The optional member `name` that lists strings.
pub fn optional_string_list(members: &Vec<(String, Value)>, name: &str) -> (got: Result<
    Option<Vec<String>>,
    DecodeError,
>)
    ensures
        decoded_as(got, opt_string_list(members_view(members@), name@)),
{
    let read = match find_member(members, name) {
        Some(value) => Some(value_string_list(value)),
        None => None,
    };
    assert(found_as(read, found(members_view(members@), name@, |v: ValueView| read_string_list(v))));
    permit_found(name, read)
}

} // verus!
