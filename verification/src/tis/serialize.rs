//! Serialising a property record for the editor runtime: a property list of
//! external names and values.

use super::record::{PropertiesModel, TISInputSourceProperties};
use super::schema::{PropertyKey, ValueKind, PROPERTY_COUNT};
use super::value::{PropertyValue, ValueModel};
use crate::lisp_utils::{has_is_prefix, hyphenated, keyword_name, property_name_to_lisp, trimmed};
use vstd::prelude::*;

verus! {

/// One pair of a property list: the external name of a field and the value
/// that goes with it.
#[derive(Debug, PartialEq, Eq)]
pub struct ExternalEntry {
    /// The external name of the field.
    pub name: String,
    /// The value of the field; `Unset` stands for the runtime's "no value".
    pub value: PropertyValue,
}

impl View for ExternalEntry {
    type V = (Seq<char>, ValueModel);

    open spec fn view(&self) -> (Seq<char>, ValueModel) {
        (self.name@, self.value@)
    }
}

/// The pair that a property contributes to the property list: the external
/// name of its field, and the value of the field as the record holds it, a
/// list with its elements in their order.
pub open spec fn external_entry(record: PropertiesModel, key: PropertyKey) -> (
    Seq<char>,
    ValueModel,
) {
    (keyword_name(key.spec_field_name()), record.get(key))
}

/// The property list of a record: one pair for every entry of the schema,
/// set or not. Each pair is put in front of those before it, so the pair of
/// the last schema entry stands first.
pub open spec fn serialized(record: PropertiesModel) -> Seq<(Seq<char>, ValueModel)> {
    Seq::new(
        PROPERTY_COUNT as nat,
        |i: int| external_entry(record, PropertyKey::spec_at(PROPERTY_COUNT - 1 - i)),
    )
}

/// The pairs of a list of entries, in order.
pub open spec fn entries_view(entries: Seq<ExternalEntry>) -> Seq<(Seq<char>, ValueModel)> {
    entries.map_values(|e: ExternalEntry| e@)
}

/// Serialises a record as a property list: every field under its external
/// name with the value that the record holds, a field that is not set with
/// the value `Unset`.
pub fn serialize(record: &TISInputSourceProperties) -> (entries: Vec<ExternalEntry>)
    ensures
        entries_view(entries@) == serialized(record@),
        entries@.len() == PROPERTY_COUNT,
{
    let mut entries: Vec<ExternalEntry> = Vec::new();
    let mut n: usize = PROPERTY_COUNT;
    while n > 0
        invariant
            n <= PROPERTY_COUNT,
            entries@.len() == PROPERTY_COUNT - n,
            forall|i: int|
                0 <= i < entries@.len() ==> entries@[i]@ == external_entry(
                    record@,
                    PropertyKey::spec_at(PROPERTY_COUNT - 1 - i),
                ),
        decreases n,
    {
        n = n - 1;
        let key = PropertyKey::at(n).unwrap();
        let name = property_name_to_lisp(key.field_name());
        let value = record.get(key);
        entries.push(ExternalEntry { name, value });
    }
    assert(entries_view(entries@) =~= serialized(record@));
    entries
}

/// Every property has its pair in the property list of a record, set or
/// not: the pair stands at the place counted from the end that the property
/// has in the schema, and holds the value of the field unchanged.
pub proof fn lemma_every_field_is_serialized(record: PropertiesModel, key: PropertyKey)
    ensures
        serialized(record).len() == PROPERTY_COUNT,
        serialized(record)[PROPERTY_COUNT - 1 - key.spec_index()] == external_entry(record, key),
        serialized(record)[PROPERTY_COUNT - 1 - key.spec_index()].1 == record.get(key),
{
}

/// The names of the schema's fields without the underscores at their end
/// and with hyphens for underscores, written out.
pub open spec fn hyphenated_name(key: PropertyKey) -> Seq<char> {
    match key {
        PropertyKey::Category => "category"@,
        PropertyKey::Type => "type"@,
        PropertyKey::IsAsciiCapable => "is-ascii-capable"@,
        PropertyKey::IsEnableCapable => "is-enable-capable"@,
        PropertyKey::IsSelectCapable => "is-select-capable"@,
        PropertyKey::IsEnabled => "is-enabled"@,
        PropertyKey::IsSelected => "is-selected"@,
        PropertyKey::Id => "id"@,
        PropertyKey::BundleId => "bundle-id"@,
        PropertyKey::InputModeId => "input-mode-id"@,
        PropertyKey::LocalizedName => "localized-name"@,
        PropertyKey::Languages => "languages"@,
    }
}

/// The external names of the schema, written out.
pub open spec fn external_name(key: PropertyKey) -> Seq<char> {
    match key {
        PropertyKey::Category => ":category"@,
        PropertyKey::Type => ":type"@,
        PropertyKey::IsAsciiCapable => ":ascii-capable-p"@,
        PropertyKey::IsEnableCapable => ":enable-capable-p"@,
        PropertyKey::IsSelectCapable => ":select-capable-p"@,
        PropertyKey::IsEnabled => ":enabled-p"@,
        PropertyKey::IsSelected => ":selected-p"@,
        PropertyKey::Id => ":id"@,
        PropertyKey::BundleId => ":bundle-id"@,
        PropertyKey::InputModeId => ":input-mode-id"@,
        PropertyKey::LocalizedName => ":localized-name"@,
        PropertyKey::Languages => ":languages"@,
    }
}

/// What the two tables say of a field: its name trimmed and hyphenated is
/// the one in `hyphenated_name`, that name begins with `is-` exactly where
/// the field is boolean, and its external name is the one in
/// `external_name`.
proof fn lemma_names_of_field(key: PropertyKey)
    ensures
        hyphenated(trimmed(key.spec_field_name())) == hyphenated_name(key),
        has_is_prefix(hyphenated_name(key)) <==> key.spec_kind() == ValueKind::Flag,
        keyword_name(key.spec_field_name()) == external_name(key),
{
    let field = key.spec_field_name();
    let plain = hyphenated_name(key);
    match key {
        PropertyKey::Category => {
            reveal_strlit("category");
            reveal_strlit(":category");
            assert(trimmed(field) == field);
            assert(hyphenated(field) =~= plain);
            assert(keyword_name(field) =~= external_name(key));
        },
        PropertyKey::Type => {
            reveal_strlit("type_");
            reveal_strlit("type");
            reveal_strlit(":type");
            let kept = seq!['t', 'y', 'p', 'e'];
            assert(field.drop_last() =~= kept);
            assert(trimmed(field) == trimmed(kept));
            assert(trimmed(kept) == kept);
            assert(hyphenated(kept) =~= plain);
            assert(keyword_name(field) =~= external_name(key));
        },
        PropertyKey::IsAsciiCapable => {
            reveal_strlit("is_ascii_capable");
            reveal_strlit("is-ascii-capable");
            reveal_strlit(":ascii-capable-p");
            assert(trimmed(field) == field);
            assert(hyphenated(field) =~= plain);
            assert(keyword_name(field) =~= external_name(key));
        },
        PropertyKey::IsEnableCapable => {
            reveal_strlit("is_enable_capable");
            reveal_strlit("is-enable-capable");
            reveal_strlit(":enable-capable-p");
            assert(trimmed(field) == field);
            assert(hyphenated(field) =~= plain);
            assert(keyword_name(field) =~= external_name(key));
        },
        PropertyKey::IsSelectCapable => {
            reveal_strlit("is_select_capable");
            reveal_strlit("is-select-capable");
            reveal_strlit(":select-capable-p");
            assert(trimmed(field) == field);
            assert(hyphenated(field) =~= plain);
            assert(keyword_name(field) =~= external_name(key));
        },
        PropertyKey::IsEnabled => {
            reveal_strlit("is_enabled");
            reveal_strlit("is-enabled");
            reveal_strlit(":enabled-p");
            assert(trimmed(field) == field);
            assert(hyphenated(field) =~= plain);
            assert(keyword_name(field) =~= external_name(key));
        },
        PropertyKey::IsSelected => {
            reveal_strlit("is_selected");
            reveal_strlit("is-selected");
            reveal_strlit(":selected-p");
            assert(trimmed(field) == field);
            assert(hyphenated(field) =~= plain);
            assert(keyword_name(field) =~= external_name(key));
        },
        PropertyKey::Id => {
            reveal_strlit("id");
            reveal_strlit(":id");
            assert(trimmed(field) == field);
            assert(hyphenated(field) =~= plain);
            assert(keyword_name(field) =~= external_name(key));
        },
        PropertyKey::BundleId => {
            reveal_strlit("bundle_id");
            reveal_strlit("bundle-id");
            reveal_strlit(":bundle-id");
            assert(trimmed(field) == field);
            assert(hyphenated(field) =~= plain);
            assert(keyword_name(field) =~= external_name(key));
        },
        PropertyKey::InputModeId => {
            reveal_strlit("input_mode_id");
            reveal_strlit("input-mode-id");
            reveal_strlit(":input-mode-id");
            assert(trimmed(field) == field);
            assert(hyphenated(field) =~= plain);
            assert(keyword_name(field) =~= external_name(key));
        },
        PropertyKey::LocalizedName => {
            reveal_strlit("localized_name");
            reveal_strlit("localized-name");
            reveal_strlit(":localized-name");
            assert(trimmed(field) == field);
            assert(hyphenated(field) =~= plain);
            assert(keyword_name(field) =~= external_name(key));
        },
        PropertyKey::Languages => {
            reveal_strlit("languages");
            reveal_strlit(":languages");
            assert(trimmed(field) == field);
            assert(hyphenated(field) =~= plain);
            assert(keyword_name(field) =~= external_name(key));
        },
    }
}

/// The external name of every field of the schema is the one written out in
/// `external_name`.
pub proof fn lemma_external_names(key: PropertyKey)
    ensures
        keyword_name(key.spec_field_name()) == external_name(key),
{
    lemma_names_of_field(key);
}

/// Exactly the boolean fields of the schema have a name that begins with
/// `is`, and so exactly they are known outside by a predicate name.
pub proof fn lemma_boolean_fields_have_predicate_names(key: PropertyKey)
    ensures
        key.spec_kind() == ValueKind::Flag <==> has_is_prefix(
            hyphenated(trimmed(key.spec_field_name())),
        ),
{
    lemma_names_of_field(key);
}

} // verus!
