//! Service messages: reports of a fault or condition that is active.

use crate::error::{DecodeError, DecodeErrorView, ExpectedKind};
use crate::field::{
    decode_each, decoded_as, lemma_decode_each_error, lemma_decode_each_step, list_of,
    read_string, value_string,
};
use crate::value::{items_view, lemma_items_view, Value, ValueView};
use vstd::prelude::*;

verus! {

/// A service message: the address of the channel that raised it, the
/// identifier of the message, and a value whose meaning depends on the
/// identifier and is not looked at here.
#[derive(Debug)]
pub struct ServiceMessage(pub String, pub String, pub Value);

/// Mathematical model of a [`ServiceMessage`].
pub ghost struct ServiceMessageView {
    pub address: Seq<char>,
    pub id: Seq<char>,
    pub value: ValueView,
}

impl View for ServiceMessage {
    type V = ServiceMessageView;

    open spec fn view(&self) -> ServiceMessageView {
        ServiceMessageView { address: self.0@, id: self.1@, value: self.2@ }
    }
}

impl DeepView for ServiceMessage {
    type V = ServiceMessageView;

    open spec fn deep_view(&self) -> ServiceMessageView {
        self@
    }
}

/// What a wire value decodes to as a service message. It has to be a list
/// of exactly three items, of which the first two are strings; the third is
/// taken as it is.
pub open spec fn decode_service_message(value: ValueView) -> Result<
    ServiceMessageView,
    DecodeErrorView,
> {
    match value {
        ValueView::Array(items) => if items.len() != 3 {
            Err(DecodeErrorView::ArityError(3, items.len()))
        } else {
            match read_string(items[0]) {
                Err(kind) => Err(DecodeErrorView::TypeMismatch("0"@, kind)),
                Ok(address) => match read_string(items[1]) {
                    Err(kind) => Err(DecodeErrorView::TypeMismatch("1"@, kind)),
                    Ok(id) => Ok(ServiceMessageView { address, id, value: items[2] }),
                },
            }
        },
        _ => Err(DecodeErrorView::TypeMismatch(""@, ExpectedKind::Array)),
    }
}

impl ServiceMessage {
    /// Decodes a service message from its positional record.
    pub fn decode(value: &Value) -> (got: Result<ServiceMessage, DecodeError>)
        ensures
            decoded_as(got, decode_service_message(value@)),
    {
        let items = match value {
            Value::Array(items) => items,
            _ => {
                return Err(DecodeError::TypeMismatch("".to_owned(), ExpectedKind::Array));
            },
        };
        proof {
            lemma_items_view(items@);
        }
        if items.len() != 3 {
            return Err(DecodeError::ArityError(3, items.len()));
        }
        let address = match value_string(&items[0]) {
            Ok(address) => address,
            Err(kind) => {
                return Err(DecodeError::TypeMismatch("0".to_owned(), kind));
            },
        };
        let id = match value_string(&items[1]) {
            Ok(id) => id,
            Err(kind) => {
                return Err(DecodeError::TypeMismatch("1".to_owned(), kind));
            },
        };
        Ok(ServiceMessage(address, id, items[2].clone()))
    }

    /// Address of the channel that raised the message.
    pub fn address(&self) -> (address: &str)
        ensures
            address@ == self@.address,
    {
        self.0.as_str()
    }

    /// Identifier of the message, such as `CONFIG_PENDING` or `UNREACH`.
    pub fn id(&self) -> (id: &str)
        ensures
            id@ == self@.id,
    {
        self.1.as_str()
    }

    /// Value of the message.
    pub fn value(&self) -> (value: &Value)
        ensures
            value@ == self@.value,
    {
        &self.2
    }
}

/// Decodes the answer that lists the service messages: a list in which
/// each item is a service message. The first item that fails gives the
/// error.
pub fn decode_service_messages(value: &Value) -> (got: Result<Vec<ServiceMessage>, DecodeError>)
    ensures
        decoded_as(got, list_of(value@, |v: ValueView| decode_service_message(v))),
{
    let items = match value {
        Value::Array(items) => items,
        _ => {
            return Err(DecodeError::TypeMismatch("".to_owned(), ExpectedKind::Array));
        },
    };
    let ghost model = items_view(items@);
    let ghost decode = |v: ValueView| decode_service_message(v);
    proof {
        lemma_items_view(items@);
        assert(model.take(0) =~= Seq::<ValueView>::empty());
    }
    let mut list: Vec<ServiceMessage> = Vec::new();
    assert(list.deep_view() =~= Seq::<ServiceMessageView>::empty());
    let mut i: usize = 0;
    while i < items.len()
        invariant
            i <= items.len(),
            value@ == ValueView::Array(model),
            model.len() == items.len(),
            forall|j: int| 0 <= j < items.len() ==> (#[trigger] model[j]) == items[j]@,
            decode == |v: ValueView| decode_service_message(v),
            decode_each(model.take(i as int), decode) == Ok::<
                Seq<ServiceMessageView>,
                DecodeErrorView,
            >(list.deep_view()),
        decreases items.len() - i,
    {
        proof {
            lemma_decode_each_step(model, decode, i as int);
        }
        let ghost before = list.deep_view();
        match ServiceMessage::decode(&items[i]) {
            Ok(message) => {
                list.push(message);
                assert(list.deep_view() =~= before.push(message@));
            },
            Err(e) => {
                proof {
                    lemma_decode_each_error(model, decode, i + 1);
                }
                return Err(e);
            },
        }
        i += 1;
    }
    assert(model.take(i as int) =~= model);
    Ok(list)
}

} // verus!
