//! Filters: a property record rendered as the native dictionary that a list
//! query takes, and what it means for a source to match one.

use super::dict::{lookup, same_value, NativeDict};
use super::record::{PropertiesModel, TISInputSourceProperties};
use super::schema::{PropertyKey, ValueKind, PROPERTY_COUNT};
use super::value::{filter_value, native_of, NativeModel, NativeValue, PropertyValue};
use vstd::prelude::*;

verus! {

/// The native filter of a record: under the key of each string or boolean
/// field that is set, the native value of what the field holds, and nothing
/// else. A list field never takes part.
pub open spec fn filter_of(record: PropertiesModel) -> Map<PropertyKey, NativeModel> {
    Map::new(
        |key: PropertyKey| filter_value(record.get(key)).is_some(),
        |key: PropertyKey| filter_value(record.get(key)).unwrap(),
    )
}

/// Whether what a source reports meets a filter: under every key of the
/// filter the source holds an equal value.
pub open spec fn meets(
    source: Map<PropertyKey, NativeModel>,
    filter: Map<PropertyKey, NativeModel>,
) -> bool {
    forall|key: PropertyKey| #[trigger]
        filter.contains_key(key) ==> source.contains_key(key) && source[key] == filter[key]
}

/// The filter of a record, as far as the first `count` entries of the
/// schema.
spec fn filter_upto(record: PropertiesModel, count: int) -> Map<PropertyKey, NativeModel> {
    Map::new(
        |key: PropertyKey| key.spec_index() < count && filter_value(record.get(key)).is_some(),
        |key: PropertyKey| filter_value(record.get(key)).unwrap(),
    )
}

/// The native value that a filter holds for the value of a record field, if
/// it holds one.
pub fn render_value(value: PropertyValue) -> (native: Option<NativeValue>)
    ensures
        native_of(native) == filter_value(value@),
{
    match value {
        PropertyValue::Text(s) => Some(NativeValue::Text(s)),
        PropertyValue::Flag(b) => Some(NativeValue::Flag(b)),
        _ => None,
    }
}

/// Renders a record as a native filter: one entry for each string or
/// boolean field that is set.
pub fn render_filter(record: &TISInputSourceProperties) -> (filter: NativeDict)
    ensures
        filter@ == filter_of(record@),
{
    let mut filter = NativeDict::new();
    let mut n: usize = 0;
    assert(filter@ =~= filter_upto(record@, 0));
    while n < PROPERTY_COUNT
        invariant
            n <= PROPERTY_COUNT,
            filter@ == filter_upto(record@, n as int),
        decreases PROPERTY_COUNT - n,
    {
        let key = PropertyKey::at(n).unwrap();
        match key.kind() {
            ValueKind::TextList => {
                assert(record@.get(key) is TextList);
            },
            _ => {
                match render_value(record.get(key)) {
                    Some(native) => {
                        filter.set(key, native);
                    },
                    None => {},
                }
            },
        }
        assert(filter@ =~= filter_upto(record@, n + 1));
        n = n + 1;
    }
    assert(filter@ =~= filter_of(record@));
    filter
}

/// Whether what a source reports meets a filter.
pub fn matches_filter(source: &NativeDict, filter: &NativeDict) -> (found: bool)
    ensures
        found == meets(source@, filter@),
{
    let mut n: usize = 0;
    while n < PROPERTY_COUNT
        invariant
            n <= PROPERTY_COUNT,
            forall|key: PropertyKey|
                key.spec_index() < n && #[trigger] filter@.contains_key(key)
                    ==> source@.contains_key(key) && source@[key] == filter@[key],
        decreases PROPERTY_COUNT - n,
    {
        let key = PropertyKey::at(n).unwrap();
        match filter.get(key) {
            Some(wanted) => {
                match source.get(key) {
                    Some(found) => {
                        if !same_value(&found, &wanted) {
                            assert(filter@.contains_key(key));
                            return false;
                        }
                    },
                    None => {
                        assert(filter@.contains_key(key));
                        return false;
                    },
                }
            },
            None => {},
        }
        n = n + 1;
    }
    true
}

/// A record with no field set renders to the empty filter.
pub proof fn lemma_unset_record_renders_empty()
    ensures
        filter_of(PropertiesModel::unset()) == Map::<PropertyKey, NativeModel>::empty(),
{
    assert(filter_of(PropertiesModel::unset()) =~= Map::<PropertyKey, NativeModel>::empty());
}

/// The empty filter restricts nothing: every source meets it.
pub proof fn lemma_empty_filter_matches_every_source(source: Map<PropertyKey, NativeModel>)
    ensures
        meets(source, Map::<PropertyKey, NativeModel>::empty()),
        meets(source, filter_of(PropertiesModel::unset())),
{
    lemma_unset_record_renders_empty();
}

/// A filter holds an entry exactly for the string and boolean fields that
/// are set, and never one for a list field.
pub proof fn lemma_filter_entries(record: PropertiesModel, key: PropertyKey)
    ensures
        filter_of(record).contains_key(key) <==> (record.get(key) is Text || record.get(key) is Flag),
        key.spec_kind() == ValueKind::TextList ==> !filter_of(record).contains_key(key),
        lookup(filter_of(record), key) == filter_value(record.get(key)),
{
}

} // verus!
