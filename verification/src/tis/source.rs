//! Input sources as the library sees them: what a native input source
//! reports of itself, and the record read from it.

use super::dict::{lookup, NativeDict};
use super::filter::{filter_of, matches_filter, meets, render_filter};
use super::record::{
    flag_field, lemma_record_is_its_fields, list_field, text_field, PropertiesModel,
    TISInputSourceProperties,
};
use super::schema::{PropertyKey, PROPERTY_COUNT};
use super::status::OSStatusError;
use super::value::{
    filter_value, marshal, marshal_value, native_of, text_of, NativeModel, NativeValue, ValueModel,
};
use core_foundation::base::Boolean;
use vstd::prelude::*;

verus! {

/// What is read into the field of a property from what a source reports:
/// the native value under the property's key, converted as the type that
/// the schema declares for it asks.
pub open spec fn stored(source: Map<PropertyKey, NativeModel>, key: PropertyKey) -> ValueModel {
    marshal(key.spec_kind(), lookup(source, key))
}

/// The record read from what a source reports.
pub open spec fn read_model(source: Map<PropertyKey, NativeModel>) -> PropertiesModel {
    PropertiesModel {
        category: text_field(stored(source, PropertyKey::Category)),
        type_: text_field(stored(source, PropertyKey::Type)),
        is_ascii_capable: flag_field(stored(source, PropertyKey::IsAsciiCapable)),
        is_enable_capable: flag_field(stored(source, PropertyKey::IsEnableCapable)),
        is_select_capable: flag_field(stored(source, PropertyKey::IsSelectCapable)),
        is_enabled: flag_field(stored(source, PropertyKey::IsEnabled)),
        is_selected: flag_field(stored(source, PropertyKey::IsSelected)),
        id: text_field(stored(source, PropertyKey::Id)),
        bundle_id: text_field(stored(source, PropertyKey::BundleId)),
        input_mode_id: text_field(stored(source, PropertyKey::InputModeId)),
        localized_name: text_field(stored(source, PropertyKey::LocalizedName)),
        languages: list_field(stored(source, PropertyKey::Languages)),
    }
}

/// Every field of the record read from a source holds what the source
/// reports under the field's key: the converted value where one is there
/// and of the declared type, else nothing, or the empty list in a list
/// field.
pub proof fn lemma_read_field(source: Map<PropertyKey, NativeModel>, key: PropertyKey)
    ensures
        read_model(source).get(key) == stored(source, key),
{
}

/// Reads the properties that a native dictionary reports into a record, one
/// schema entry after the other.
pub fn read_properties(source: &NativeDict) -> (record: TISInputSourceProperties)
    ensures
        record@ == read_model(source@),
        forall|key: PropertyKey| record@.get(key) == stored(source@, key),
{
    let mut record = TISInputSourceProperties::default();
    let mut n: usize = 0;
    while n < PROPERTY_COUNT
        invariant
            n <= PROPERTY_COUNT,
            forall|key: PropertyKey|
                key.spec_index() < n ==> record@.get(key) == stored(source@, key),
        decreases PROPERTY_COUNT - n,
    {
        let key = PropertyKey::at(n).unwrap();
        let value = marshal_value(key.kind(), source.get(key));
        record.set(key, value);
        n = n + 1;
    }
    proof {
        assert forall|key: PropertyKey| record@.get(key) == read_model(source@).get(key) by {
            lemma_read_field(source@, key);
        }
        lemma_record_is_its_fields(record@, read_model(source@));
    }
    record
}

/// What a list query hands out: the sources that the framework returned, in
/// its order, and none where it returned no list at all.
pub fn wrap_create_list<T>(results: Option<Vec<T>>) -> (sources: Vec<T>)
    ensures
        sources@ == match results {
            Some(list) => list@,
            None => Seq::empty(),
        },
{
    match results {
        Some(list) => list,
        None => Vec::new(),
    }
}

/// A flag as the framework takes it: one for true, zero for false.
pub fn native_boolean(flag: bool) -> (native: Boolean)
    ensures
        native == (if flag {
            1u8
        } else {
            0u8
        }),
{
    if flag {
        1
    } else {
        0
    }
}

/// The filter of the list command: on the identifier where one is given,
/// and on nothing else.
pub fn filter_for_id(id: Option<String>) -> (record: TISInputSourceProperties)
    ensures
        record@ == (PropertiesModel { id: text_of(id), ..PropertiesModel::unset() }),
{
    let mut record = TISInputSourceProperties::default();
    record.id = id;
    record
}

/// An input source: the properties that the native object reports.
#[derive(Debug, PartialEq, Eq)]
pub struct TISInputSource {
    properties: NativeDict,
}

impl View for TISInputSource {
    type V = Map<PropertyKey, NativeModel>;

    closed spec fn view(&self) -> Map<PropertyKey, NativeModel> {
        self.properties@
    }
}

impl Clone for TISInputSource {
    fn clone(&self) -> (copy: Self)
        ensures
            copy@ == self@,
    {
        TISInputSource { properties: self.properties.clone() }
    }
}

impl TISInputSource {
    /// The input source that reports the given properties.
    pub fn new(properties: NativeDict) -> (source: TISInputSource)
        ensures
            source@ == properties@,
    {
        TISInputSource { properties }
    }

    /// The native value that the source reports under a key, and none where
    /// the property is not available.
    pub fn get_property(&self, key: PropertyKey) -> (value: Option<NativeValue>)
        ensures
            native_of(value) == lookup(self@, key),
    {
        self.properties.get(key)
    }

    /// The record of everything the source reports. It never fails: a
    /// property that is not available, or not of the declared type, leaves
    /// its field unset. The record depends on nothing but what the source
    /// reports, so reading again gives an equal record.
    pub fn get_properties(&self) -> (outcome: Result<TISInputSourceProperties, OSStatusError>)
        ensures
            outcome.is_ok(),
            outcome.unwrap()@ == read_model(self@),
            forall|key: PropertyKey| outcome.unwrap()@.get(key) == stored(self@, key),
    {
        Ok(read_properties(&self.properties))
    }

    /// Whether the source meets a filter record.
    pub fn matches_filter(&self, filter: &TISInputSourceProperties) -> (found: bool)
        ensures
            found == meets(self@, filter_of(filter@)),
    {
        let rendered = render_filter(filter);
        matches_filter(&self.properties, &rendered)
    }
}

/// A source that meets the filter of a record reads back, in every string
/// and boolean field that the record has set, the value that the record
/// holds there.
pub proof fn lemma_filter_round_trip(
    record: PropertiesModel,
    source: Map<PropertyKey, NativeModel>,
    key: PropertyKey,
)
    requires
        meets(source, filter_of(record)),
        record.get(key) is Text || record.get(key) is Flag,
    ensures
        read_model(source).get(key) == record.get(key),
{
    assert(filter_of(record).contains_key(key));
    assert(source[key] == filter_value(record.get(key)).unwrap());
    lemma_read_field(source, key);
}

} // verus!
