//! The dynamically typed value tree that the transport hands over.

use vstd::prelude::*;

verus! {

/// One node of a wire value tree.
///
/// A double is kept as its IEEE-754 binary64 bit pattern, so that it passes
/// through unchanged. A struct is kept as its members in wire order.
#[derive(Debug, PartialEq)]
pub enum Value {
    /// No value.
    Nil,
    Bool(bool),
    /// A 32-bit integer.
    Int(i32),
    /// A double, as its bit pattern.
    Double(u64),
    String(String),
    /// A date and time, as the text on the wire.
    DateTime(String),
    /// Binary data.
    Binary(Vec<u8>),
    /// An ordered list.
    Array(Vec<Value>),
    /// A struct: its members, each with its name, in wire order. A name is
    /// resolved to the first member that carries it.
    Struct(Vec<(String, Value)>),
}

/// Mathematical model of a [`Value`].
pub ghost enum ValueView {
    Nil,
    Bool(bool),
    Int(i32),
    Double(u64),
    String(Seq<char>),
    DateTime(Seq<char>),
    Binary(Seq<u8>),
    Array(Seq<ValueView>),
    Struct(Seq<(Seq<char>, ValueView)>),
}

impl View for Value {
    type V = ValueView;

    open spec fn view(&self) -> ValueView
        decreases self,
    {
        match self {
            Value::Nil => ValueView::Nil,
            Value::Bool(b) => ValueView::Bool(*b),
            Value::Int(i) => ValueView::Int(*i),
            Value::Double(d) => ValueView::Double(*d),
            Value::String(s) => ValueView::String(s@),
            Value::DateTime(s) => ValueView::DateTime(s@),
            Value::Binary(b) => ValueView::Binary(b@),
            Value::Array(items) => ValueView::Array(items_view(items@)),
            Value::Struct(members) => ValueView::Struct(members_view(members@)),
        }
    }
}

/// The model of a list's items.
pub open spec fn items_view(items: Seq<Value>) -> Seq<ValueView>
    decreases items,
{
    if items.len() == 0 {
        Seq::empty()
    } else {
        items_view(items.drop_last()).push(items.last()@)
    }
}

/// The model of a struct's members, in wire order.
pub open spec fn members_view(members: Seq<(String, Value)>) -> Seq<(Seq<char>, ValueView)>
    decreases members,
{
    if members.len() == 0 {
        Seq::empty()
    } else {
        members_view(members.drop_last()).push((members.last().0@, members.last().1@))
    }
}

/// The model of a list has one entry for each item, in order.
pub proof fn lemma_items_view(items: Seq<Value>)
    ensures
        items_view(items).len() == items.len(),
        forall|i: int| 0 <= i < items.len() ==> (#[trigger] items_view(items)[i]) == items[i]@,
    decreases items.len(),
{
    reveal_with_fuel(items_view, 2);
    if items.len() > 0 {
        lemma_items_view(items.drop_last());
    }
}

/// The model of a struct has one entry for each member, in order.
pub proof fn lemma_members_view(members: Seq<(String, Value)>)
    ensures
        members_view(members).len() == members.len(),
        forall|i: int|
            0 <= i < members.len() ==> (#[trigger] members_view(members)[i]) == (
                members[i].0@,
                members[i].1@,
            ),
    decreases members.len(),
{
    reveal_with_fuel(members_view, 2);
    if members.len() > 0 {
        lemma_members_view(members.drop_last());
    }
}

/// The value of the first member that goes by `name`, if there is one.
pub open spec fn lookup(members: Seq<(Seq<char>, ValueView)>, name: Seq<char>) -> Option<
    ValueView,
>
    decreases members.len(),
{
    if members.len() == 0 {
        None
    } else if members[0].0 == name {
        Some(members[0].1)
    } else {
        lookup(members.drop_first(), name)
    }
}

/// Whether the member at `i` is the first one that goes by `name`.
pub open spec fn first_at(members: Seq<(Seq<char>, ValueView)>, name: Seq<char>, i: int) -> bool {
    &&& 0 <= i < members.len()
    &&& members[i].0 == name
    &&& forall|j: int| 0 <= j < i ==> (#[trigger] members[j]).0 != name
}

/// Looking a name up finds the first member that carries it, and finds
/// nothing exactly if no member carries it.
pub proof fn lemma_lookup(members: Seq<(Seq<char>, ValueView)>, name: Seq<char>)
    ensures
        match lookup(members, name) {
            Some(value) => exists|i: int| first_at(members, name, i) && members[i].1 == value,
            None => forall|j: int| 0 <= j < members.len() ==> (#[trigger] members[j]).0 != name,
        },
    decreases members.len(),
{
    if members.len() == 0 {
    } else if members[0].0 == name {
        assert(first_at(members, name, 0));
    } else {
        let rest = members.drop_first();
        lemma_lookup(rest, name);
        assert(forall|j: int| 0 <= j < rest.len() ==> rest[j] == members[j + 1]);
        match lookup(rest, name) {
            Some(value) => {
                let i = choose|i: int| first_at(rest, name, i) && rest[i].1 == value;
                assert forall|j: int| 0 <= j < i + 1 implies (#[trigger] members[j]).0 != name by {
                    if j > 0 {
                        assert(rest[j - 1] == members[j]);
                    }
                }
                assert(first_at(members, name, i + 1));
            },
            None => {
                assert forall|j: int| 0 <= j < members.len() implies (#[trigger] members[j]).0
                    != name by {
                    if j > 0 {
                        assert(rest[j - 1] == members[j]);
                    }
                }
            },
        }
    }
}

/// A name that no member before `from` carries is looked up among the rest.
pub proof fn lemma_lookup_skip(members: Seq<(Seq<char>, ValueView)>, name: Seq<char>, from: int)
    requires
        0 <= from <= members.len(),
        forall|j: int| 0 <= j < from ==> (#[trigger] members[j]).0 != name,
    ensures
        lookup(members, name) == lookup(members.skip(from), name),
    decreases from,
{
    if from == 0 {
        assert(members.skip(0) =~= members);
    } else {
        lemma_lookup_skip(members, name, from - 1);
        let rest = members.skip(from - 1);
        assert(rest[0] == members[from - 1]);
        assert(rest.drop_first() =~= members.skip(from));
    }
}

/// The first member of `members` that goes by `name`.
pub fn find_member<'a>(members: &'a Vec<(String, Value)>, name: &str) -> (found: Option<
    &'a Value,
>)
    ensures
        match found {
            Some(value) => lookup(members_view(members@), name@) == Some(value@),
            None => lookup(members_view(members@), name@) is None,
        },
{
    let wanted = name.to_owned();
    let ghost all = members_view(members@);
    proof {
        lemma_members_view(members@);
    }
    let mut i: usize = 0;
    while i < members.len()
        invariant
            i <= members.len(),
            wanted@ == name@,
            all == members_view(members@),
            all.len() == members.len(),
            forall|j: int| 0 <= j < members.len() ==> (#[trigger] all[j]) == (members[j].0@, members[j].1@),
            forall|j: int| 0 <= j < i ==> (#[trigger] all[j]).0 != name@,
        decreases members.len() - i,
    {
        if members[i].0 == wanted {
            proof {
                lemma_lookup_skip(all, name@, i as int);
                assert(all.skip(i as int)[0] == all[i as int]);
            }
            return Some(&members[i].1);
        }
        i += 1;
    }
    proof {
        lemma_lookup_skip(all, name@, i as int);
        assert(all.skip(i as int).len() == 0);
    }
    None
}

impl Clone for Value {
    /// A deep copy: the copy has the same view.
    fn clone(&self) -> (copy: Value)
        ensures
            copy@ == self@,
        decreases self,
    {
        match self {
            Value::Nil => Value::Nil,
            Value::Bool(b) => Value::Bool(*b),
            Value::Int(i) => Value::Int(*i),
            Value::Double(d) => Value::Double(*d),
            Value::String(s) => Value::String(s.clone()),
            Value::DateTime(s) => Value::DateTime(s.clone()),
            Value::Binary(bytes) => {
                let copy = bytes.clone();
                assert(copy@ =~= bytes@);
                Value::Binary(copy)
            },
            Value::Array(items) => {
                let mut copies: Vec<Value> = Vec::new();
                let mut i: usize = 0;
                while i < items.len()
                    invariant
                        i <= items.len(),
                        copies.len() == i,
                        forall|j: int| 0 <= j < i ==> (#[trigger] copies[j])@ == items[j]@,
                        forall|j: int| 0 <= j < items.len() ==> decreases_to!(self => #[trigger] items[j]),
                    decreases items.len() - i,
                {
                    let item = items[i].clone();
                    copies.push(item);
                    i += 1;
                }
                proof {
                    lemma_items_view(items@);
                    lemma_items_view(copies@);
                    assert(items_view(copies@) =~= items_view(items@));
                }
                Value::Array(copies)
            },
            Value::Struct(members) => {
                let mut copies: Vec<(String, Value)> = Vec::new();
                let mut i: usize = 0;
                while i < members.len()
                    invariant
                        i <= members.len(),
                        copies.len() == i,
                        forall|j: int|
                            0 <= j < i ==> (#[trigger] copies[j]).0@ == members[j].0@
                                && copies[j].1@ == members[j].1@,
                        forall|j: int| 0 <= j < members.len() ==> decreases_to!(self => (#[trigger] members[j]).1),
                    decreases members.len() - i,
                {
                    let name = members[i].0.clone();
                    let value = members[i].1.clone();
                    copies.push((name, value));
                    i += 1;
                }
                proof {
                    lemma_members_view(members@);
                    lemma_members_view(copies@);
                    assert(members_view(copies@) =~= members_view(members@));
                }
                Value::Struct(copies)
            },
        }
    }
}

} // verus!
