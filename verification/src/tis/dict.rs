//! The native dictionary: at most one native value under each property key.
//! A filter handed to the framework is one, and so is what an input source
//! reports of itself.

use super::schema::{PropertyKey, PROPERTY_COUNT};
use super::value::{native_of, texts, NativeModel, NativeValue};
use vstd::prelude::*;

verus! {

/// The value that a dictionary holds under a key, if any.
pub open spec fn lookup(dict: Map<PropertyKey, NativeModel>, key: PropertyKey) -> Option<
    NativeModel,
> {
    if dict.contains_key(key) {
        Some(dict[key])
    } else {
        None
    }
}

/// Whether two lists of strings hold the same strings in the same order.
pub fn same_texts(a: &Vec<String>, b: &Vec<String>) -> (same: bool)
    ensures
        same == (texts(a@) == texts(b@)),
{
    if a.len() != b.len() {
        assert(texts(a@).len() != texts(b@).len());
        return false;
    }
    let mut i: usize = 0;
    while i < a.len()
        invariant
            i <= a.len(),
            a.len() == b.len(),
            forall|j: int| 0 <= j < i ==> a@[j]@ == b@[j]@,
        decreases a.len() - i,
    {
        if a[i] != b[i] {
            assert(texts(a@)[i as int] != texts(b@)[i as int]);
            return false;
        }
        i = i + 1;
    }
    assert(texts(a@) =~= texts(b@));
    true
}

/// Whether two native values are equal.
pub fn same_value(a: &NativeValue, b: &NativeValue) -> (same: bool)
    ensures
        same == (a@ == b@),
{
    match a {
        NativeValue::Text(s) => match b {
            NativeValue::Text(t) => *s == *t,
            _ => false,
        },
        NativeValue::Flag(p) => match b {
            NativeValue::Flag(q) => *p == *q,
            _ => false,
        },
        NativeValue::TextList(l) => match b {
            NativeValue::TextList(m) => same_texts(l, m),
            _ => false,
        },
        NativeValue::Other => match b {
            NativeValue::Other => true,
            _ => false,
        },
    }
}

/// A dictionary from property keys to native values.
#[derive(Debug, PartialEq, Eq)]
pub struct NativeDict {
    category: Option<NativeValue>,
    type_: Option<NativeValue>,
    is_ascii_capable: Option<NativeValue>,
    is_enable_capable: Option<NativeValue>,
    is_select_capable: Option<NativeValue>,
    is_enabled: Option<NativeValue>,
    is_selected: Option<NativeValue>,
    id: Option<NativeValue>,
    bundle_id: Option<NativeValue>,
    input_mode_id: Option<NativeValue>,
    localized_name: Option<NativeValue>,
    languages: Option<NativeValue>,
}

impl View for NativeDict {
    type V = Map<PropertyKey, NativeModel>;

    closed spec fn view(&self) -> Map<PropertyKey, NativeModel> {
        Map::new(
            |key: PropertyKey| self.slot(key).is_some(),
            |key: PropertyKey| self.slot(key).unwrap()@,
        )
    }
}

/// A copy of what a slot holds.
fn clone_slot(slot: &Option<NativeValue>) -> (copy: Option<NativeValue>)
    ensures
        native_of(copy) == native_of(*slot),
{
    match slot {
        Some(v) => Some(v.clone()),
        None => None,
    }
}

impl NativeDict {
    /// What the dictionary holds for a key.
    spec fn slot(self, key: PropertyKey) -> Option<NativeValue> {
        match key {
            PropertyKey::Category => self.category,
            PropertyKey::Type => self.type_,
            PropertyKey::IsAsciiCapable => self.is_ascii_capable,
            PropertyKey::IsEnableCapable => self.is_enable_capable,
            PropertyKey::IsSelectCapable => self.is_select_capable,
            PropertyKey::IsEnabled => self.is_enabled,
            PropertyKey::IsSelected => self.is_selected,
            PropertyKey::Id => self.id,
            PropertyKey::BundleId => self.bundle_id,
            PropertyKey::InputModeId => self.input_mode_id,
            PropertyKey::LocalizedName => self.localized_name,
            PropertyKey::Languages => self.languages,
        }
    }

    /// What the dictionary holds for a key.
    fn slot_of(&self, key: PropertyKey) -> (slot: &Option<NativeValue>)
        ensures
            *slot == self.slot(key),
    {
        match key {
            PropertyKey::Category => &self.category,
            PropertyKey::Type => &self.type_,
            PropertyKey::IsAsciiCapable => &self.is_ascii_capable,
            PropertyKey::IsEnableCapable => &self.is_enable_capable,
            PropertyKey::IsSelectCapable => &self.is_select_capable,
            PropertyKey::IsEnabled => &self.is_enabled,
            PropertyKey::IsSelected => &self.is_selected,
            PropertyKey::Id => &self.id,
            PropertyKey::BundleId => &self.bundle_id,
            PropertyKey::InputModeId => &self.input_mode_id,
            PropertyKey::LocalizedName => &self.localized_name,
            PropertyKey::Languages => &self.languages,
        }
    }

    /// Fills the slot of a key, or empties it.
    fn put(&mut self, key: PropertyKey, slot: Option<NativeValue>)
        ensures
            final(self).slot(key) == slot,
            forall|other: PropertyKey| other != key ==> final(self).slot(other) == old(self).slot(other),
    {
        match key {
            PropertyKey::Category => {
                self.category = slot;
            },
            PropertyKey::Type => {
                self.type_ = slot;
            },
            PropertyKey::IsAsciiCapable => {
                self.is_ascii_capable = slot;
            },
            PropertyKey::IsEnableCapable => {
                self.is_enable_capable = slot;
            },
            PropertyKey::IsSelectCapable => {
                self.is_select_capable = slot;
            },
            PropertyKey::IsEnabled => {
                self.is_enabled = slot;
            },
            PropertyKey::IsSelected => {
                self.is_selected = slot;
            },
            PropertyKey::Id => {
                self.id = slot;
            },
            PropertyKey::BundleId => {
                self.bundle_id = slot;
            },
            PropertyKey::InputModeId => {
                self.input_mode_id = slot;
            },
            PropertyKey::LocalizedName => {
                self.localized_name = slot;
            },
            PropertyKey::Languages => {
                self.languages = slot;
            },
        }
    }

    /// The dictionary that holds nothing.
    pub fn new() -> (dict: NativeDict)
        ensures
            dict@ == Map::<PropertyKey, NativeModel>::empty(),
    {
        let dict = NativeDict {
            category: None,
            type_: None,
            is_ascii_capable: None,
            is_enable_capable: None,
            is_select_capable: None,
            is_enabled: None,
            is_selected: None,
            id: None,
            bundle_id: None,
            input_mode_id: None,
            localized_name: None,
            languages: None,
        };
        assert(dict@ =~= Map::<PropertyKey, NativeModel>::empty());
        dict
    }

    /// Puts a value under a key, in place of what was there.
    pub fn set(&mut self, key: PropertyKey, value: NativeValue)
        ensures
            final(self)@ == old(self)@.insert(key, value@),
    {
        self.put(key, Some(value));
        assert(self@ =~= old(self)@.insert(key, value@));
    }

    /// Takes away what stands under a key.
    pub fn remove(&mut self, key: PropertyKey)
        ensures
            final(self)@ == old(self)@.remove(key),
    {
        self.put(key, None);
        assert(self@ =~= old(self)@.remove(key));
    }

    /// The value under a key, if there is one.
    pub fn get(&self, key: PropertyKey) -> (value: Option<NativeValue>)
        ensures
            native_of(value) == lookup(self@, key),
    {
        clone_slot(self.slot_of(key))
    }

    /// Whether a value stands under a key.
    pub fn contains_key(&self, key: PropertyKey) -> (present: bool)
        ensures
            present == self@.contains_key(key),
    {
        self.slot_of(key).is_some()
    }

    /// The keys under which a value stands, each once, in the order of the
    /// schema.
    pub fn keys(&self) -> (keys: Vec<PropertyKey>)
        ensures
            forall|key: PropertyKey| keys@.contains(key) <==> self@.contains_key(key),
            forall|i: int, j: int|
                0 <= i < j < keys@.len() ==> keys@[i].spec_index() < keys@[j].spec_index(),
    {
        let mut keys: Vec<PropertyKey> = Vec::new();
        let mut n: usize = 0;
        while n < PROPERTY_COUNT
            invariant
                n <= PROPERTY_COUNT,
                forall|i: int| 0 <= i < keys@.len() ==> keys@[i].spec_index() < n,
                forall|i: int| 0 <= i < keys@.len() ==> self@.contains_key(keys@[i]),
                forall|key: PropertyKey|
                    key.spec_index() < n && self@.contains_key(key) ==> keys@.contains(key),
                forall|i: int, j: int|
                    0 <= i < j < keys@.len() ==> keys@[i].spec_index() < keys@[j].spec_index(),
            decreases PROPERTY_COUNT - n,
        {
            let key = PropertyKey::at(n).unwrap();
            if self.contains_key(key) {
                let ghost before = keys@;
                keys.push(key);
                assert(keys@[before.len() as int] == key);
                assert forall|other: PropertyKey|
                    other.spec_index() < n + 1 && self@.contains_key(other) implies keys@.contains(
                    other,
                ) by {
                    if other.spec_index() < n {
                        assert(before.contains(other));
                        let i = choose|i: int| 0 <= i < before.len() && before[i] == other;
                        assert(keys@[i] == other);
                    } else {
                        assert(other == key);
                    }
                }
            }
            n = n + 1;
        }
        keys
    }

    /// Whether the dictionary holds nothing.
    pub fn is_empty(&self) -> (empty: bool)
        ensures
            empty == (self@ == Map::<PropertyKey, NativeModel>::empty()),
    {
        let mut n: usize = 0;
        while n < PROPERTY_COUNT
            invariant
                n <= PROPERTY_COUNT,
                forall|key: PropertyKey| key.spec_index() < n ==> !self@.contains_key(key),
            decreases PROPERTY_COUNT - n,
        {
            let key = PropertyKey::at(n).unwrap();
            if self.contains_key(key) {
                return false;
            }
            n = n + 1;
        }
        assert(self@ =~= Map::<PropertyKey, NativeModel>::empty());
        true
    }
}

impl Clone for NativeDict {
    fn clone(&self) -> (copy: Self)
        ensures
            copy@ == self@,
    {
        let copy = NativeDict {
            category: clone_slot(&self.category),
            type_: clone_slot(&self.type_),
            is_ascii_capable: clone_slot(&self.is_ascii_capable),
            is_enable_capable: clone_slot(&self.is_enable_capable),
            is_select_capable: clone_slot(&self.is_select_capable),
            is_enabled: clone_slot(&self.is_enabled),
            is_selected: clone_slot(&self.is_selected),
            id: clone_slot(&self.id),
            bundle_id: clone_slot(&self.bundle_id),
            input_mode_id: clone_slot(&self.input_mode_id),
            localized_name: clone_slot(&self.localized_name),
            languages: clone_slot(&self.languages),
        };
        assert(copy@ =~= self@);
        copy
    }
}

} // verus!
