//! The values of properties: as the native framework hands them out, and as
//! a property record holds them.

use super::schema::ValueKind;
use vstd::prelude::*;

verus! {

/// The character sequences of a list of strings, in order.
pub open spec fn texts(items: Seq<String>) -> Seq<Seq<char>> {
    items.map_values(|s: String| s@)
}

/// The character sequence of a string that may be missing.
pub open spec fn text_of(item: Option<String>) -> Option<Seq<char>> {
    match item {
        Some(s) => Some(s@),
        None => None,
    }
}

/// Copies a list of strings.
pub fn clone_texts(items: &Vec<String>) -> (copy: Vec<String>)
    ensures
        texts(copy@) == texts(items@),
{
    let mut copy: Vec<String> = Vec::new();
    let mut i: usize = 0;
    while i < items.len()
        invariant
            i <= items.len(),
            copy.len() == i,
            forall|j: int| 0 <= j < i ==> copy@[j]@ == items@[j]@,
        decreases items.len() - i,
    {
        copy.push(items[i].clone());
        i = i + 1;
    }
    assert(texts(copy@) =~= texts(items@));
    copy
}

/// Copies a string that may be missing.
pub fn clone_text(item: &Option<String>) -> (copy: Option<String>)
    ensures
        text_of(copy) == text_of(*item),
{
    match item {
        Some(s) => Some(s.clone()),
        None => None,
    }
}

/// What a native property value is.
pub enum NativeModel {
    Text(Seq<char>),
    Flag(bool),
    TextList(Seq<Seq<char>>),
    Other,
}

/// A value as the native framework holds it under a property key.
#[derive(Debug, PartialEq, Eq)]
pub enum NativeValue {
    /// A native string.
    Text(String),
    /// A native boolean.
    Flag(bool),
    /// A native array of native strings.
    TextList(Vec<String>),
    /// A native object of any other type.
    Other,
}

impl View for NativeValue {
    type V = NativeModel;

    open spec fn view(&self) -> NativeModel {
        match *self {
            NativeValue::Text(s) => NativeModel::Text(s@),
            NativeValue::Flag(b) => NativeModel::Flag(b),
            NativeValue::TextList(l) => NativeModel::TextList(texts(l@)),
            NativeValue::Other => NativeModel::Other,
        }
    }
}

impl Clone for NativeValue {
    fn clone(&self) -> (copy: Self)
        ensures
            copy@ == self@,
    {
        match self {
            NativeValue::Text(s) => NativeValue::Text(s.clone()),
            NativeValue::Flag(b) => NativeValue::Flag(*b),
            NativeValue::TextList(l) => NativeValue::TextList(clone_texts(l)),
            NativeValue::Other => NativeValue::Other,
        }
    }
}

/// What the native values of a list are, in order.
pub open spec fn natives(items: Seq<NativeValue>) -> Seq<NativeModel> {
    items.map_values(|v: NativeValue| v@)
}

/// Whether every native value of a list is a string.
pub open spec fn all_text(items: Seq<NativeModel>) -> bool {
    forall|i: int| 0 <= i < items.len() ==> items[i] is Text
}

/// The native value of an array with the given elements: the list of
/// their strings, in order, where every element is a string, and a value of
/// no recognised type where one of them is anything else.
pub open spec fn array_value(items: Seq<NativeModel>) -> NativeModel {
    if all_text(items) {
        NativeModel::TextList(Seq::new(items.len(), |i: int| items[i]->Text_0))
    } else {
        NativeModel::Other
    }
}

/// What a native value that may be missing is.
pub open spec fn native_of(value: Option<NativeValue>) -> Option<NativeModel> {
    match value {
        Some(v) => Some(v@),
        None => None,
    }
}

/// What the value of a record field is.
pub enum ValueModel {
    Unset,
    Text(Seq<char>),
    Flag(bool),
    TextList(Seq<Seq<char>>),
}

/// The value of one field of a property record.
#[derive(Debug, PartialEq, Eq)]
pub enum PropertyValue {
    /// The field is not set.
    Unset,
    /// A string.
    Text(String),
    /// A boolean.
    Flag(bool),
    /// A list of strings.
    TextList(Vec<String>),
}

impl View for PropertyValue {
    type V = ValueModel;

    open spec fn view(&self) -> ValueModel {
        match *self {
            PropertyValue::Unset => ValueModel::Unset,
            PropertyValue::Text(s) => ValueModel::Text(s@),
            PropertyValue::Flag(b) => ValueModel::Flag(b),
            PropertyValue::TextList(l) => ValueModel::TextList(texts(l@)),
        }
    }
}

impl Clone for PropertyValue {
    fn clone(&self) -> (copy: Self)
        ensures
            copy@ == self@,
    {
        match self {
            PropertyValue::Unset => PropertyValue::Unset,
            PropertyValue::Text(s) => PropertyValue::Text(s.clone()),
            PropertyValue::Flag(b) => PropertyValue::Flag(*b),
            PropertyValue::TextList(l) => PropertyValue::TextList(clone_texts(l)),
        }
    }
}

/// What a field of a given type holds when nothing is stored in it: a list
/// field the empty list, any other field nothing.
pub open spec fn vacant(kind: ValueKind) -> ValueModel {
    match kind {
        ValueKind::TextList => ValueModel::TextList(Seq::empty()),
        _ => ValueModel::Unset,
    }
}

/// Whether a value is of the given type.
pub open spec fn is_of_kind(value: ValueModel, kind: ValueKind) -> bool {
    match (kind, value) {
        (ValueKind::Text, ValueModel::Text(_)) => true,
        (ValueKind::Flag, ValueModel::Flag(_)) => true,
        (ValueKind::TextList, ValueModel::TextList(_)) => true,
        _ => false,
    }
}

/// What a field of a given type holds after a value is stored in it: the
/// value where it is of that type, else what a vacant field holds.
pub open spec fn conform(kind: ValueKind, value: ValueModel) -> ValueModel {
    if is_of_kind(value, kind) {
        value
    } else {
        vacant(kind)
    }
}

/// What a field of a given type holds after it is read from the native
/// object: the native value converted where it is there and of the type
/// that the schema declares, else what a vacant field holds.
pub open spec fn marshal(kind: ValueKind, native: Option<NativeModel>) -> ValueModel {
    match (kind, native) {
        (ValueKind::Text, Some(NativeModel::Text(s))) => ValueModel::Text(s),
        (ValueKind::Flag, Some(NativeModel::Flag(b))) => ValueModel::Flag(b),
        (ValueKind::TextList, Some(NativeModel::TextList(l))) => ValueModel::TextList(l),
        _ => vacant(kind),
    }
}

/// The native value that a filter holds for a record field: that of a
/// string or a boolean, and none for a field that is not set or is a list.
pub open spec fn filter_value(value: ValueModel) -> Option<NativeModel> {
    match value {
        ValueModel::Text(s) => Some(NativeModel::Text(s)),
        ValueModel::Flag(b) => Some(NativeModel::Flag(b)),
        _ => None,
    }
}

/// The native value of an array with the given elements: a list of strings
/// where every element is a string, else a value of no recognised type.
pub fn text_list(items: Vec<NativeValue>) -> (value: NativeValue)
    ensures
        value@ == array_value(natives(items@)),
{
    let mut strings: Vec<String> = Vec::new();
    let mut i: usize = 0;
    while i < items.len()
        invariant
            i <= items.len(),
            strings@.len() == i,
            forall|j: int| 0 <= j < i ==> items@[j]@ is Text,
            forall|j: int| 0 <= j < i ==> strings@[j]@ == items@[j]@->Text_0,
        decreases items.len() - i,
    {
        match &items[i] {
            NativeValue::Text(s) => {
                strings.push(s.clone());
            },
            _ => {
                assert(!(natives(items@)[i as int] is Text));
                return NativeValue::Other;
            },
        }
        i = i + 1;
    }
    assert(all_text(natives(items@)));
    assert(texts(strings@) =~= Seq::new(
        natives(items@).len(),
        |k: int| natives(items@)[k]->Text_0,
    ));
    NativeValue::TextList(strings)
}

/// Converts what the native property getter returned for a key of the given
/// type into the value of the record field.
pub fn marshal_value(kind: ValueKind, native: Option<NativeValue>) -> (value: PropertyValue)
    ensures
        value@ == marshal(kind, native_of(native)),
        is_of_kind(value@, kind) || value@ == ValueModel::Unset,
{
    match (kind, native) {
        (ValueKind::Text, Some(NativeValue::Text(s))) => PropertyValue::Text(s),
        (ValueKind::Flag, Some(NativeValue::Flag(b))) => PropertyValue::Flag(b),
        (ValueKind::TextList, Some(NativeValue::TextList(l))) => PropertyValue::TextList(l),
        (ValueKind::TextList, _) => {
            let empty: Vec<String> = Vec::new();
            assert(texts(empty@) =~= Seq::<Seq<char>>::empty());
            PropertyValue::TextList(empty)
        },
        _ => PropertyValue::Unset,
    }
}

} // verus!
