//! The property record: the named properties of an input source, each set
//! or not set.

use super::schema::PropertyKey;
use super::value::{clone_text, clone_texts, conform, text_of, texts, PropertyValue, ValueModel};
use vstd::prelude::*;

verus! {

/// What a property record holds.
pub struct PropertiesModel {
    pub category: Option<Seq<char>>,
    pub type_: Option<Seq<char>>,
    pub is_ascii_capable: Option<bool>,
    pub is_enable_capable: Option<bool>,
    pub is_select_capable: Option<bool>,
    pub is_enabled: Option<bool>,
    pub is_selected: Option<bool>,
    pub id: Option<Seq<char>>,
    pub bundle_id: Option<Seq<char>>,
    pub input_mode_id: Option<Seq<char>>,
    pub localized_name: Option<Seq<char>>,
    pub languages: Seq<Seq<char>>,
}

/// The value of a string field.
pub open spec fn text_value(field: Option<Seq<char>>) -> ValueModel {
    match field {
        Some(s) => ValueModel::Text(s),
        None => ValueModel::Unset,
    }
}

/// The value of a boolean field.
pub open spec fn flag_value(field: Option<bool>) -> ValueModel {
    match field {
        Some(b) => ValueModel::Flag(b),
        None => ValueModel::Unset,
    }
}

/// What a string field holds after a value is stored in it.
pub open spec fn text_field(value: ValueModel) -> Option<Seq<char>> {
    match value {
        ValueModel::Text(s) => Some(s),
        _ => None,
    }
}

/// What a boolean field holds after a value is stored in it.
pub open spec fn flag_field(value: ValueModel) -> Option<bool> {
    match value {
        ValueModel::Flag(b) => Some(b),
        _ => None,
    }
}

/// What a list field holds after a value is stored in it.
pub open spec fn list_field(value: ValueModel) -> Seq<Seq<char>> {
    match value {
        ValueModel::TextList(l) => l,
        _ => Seq::empty(),
    }
}

impl PropertiesModel {
    /// The record in which no field is set.
    pub open spec fn unset() -> PropertiesModel {
        PropertiesModel {
            category: None,
            type_: None,
            is_ascii_capable: None,
            is_enable_capable: None,
            is_select_capable: None,
            is_enabled: None,
            is_selected: None,
            id: None,
            bundle_id: None,
            input_mode_id: None,
            localized_name: None,
            languages: Seq::empty(),
        }
    }

    /// The value of the field that holds a property.
    pub open spec fn get(self, key: PropertyKey) -> ValueModel {
        match key {
            PropertyKey::Category => text_value(self.category),
            PropertyKey::Type => text_value(self.type_),
            PropertyKey::IsAsciiCapable => flag_value(self.is_ascii_capable),
            PropertyKey::IsEnableCapable => flag_value(self.is_enable_capable),
            PropertyKey::IsSelectCapable => flag_value(self.is_select_capable),
            PropertyKey::IsEnabled => flag_value(self.is_enabled),
            PropertyKey::IsSelected => flag_value(self.is_selected),
            PropertyKey::Id => text_value(self.id),
            PropertyKey::BundleId => text_value(self.bundle_id),
            PropertyKey::InputModeId => text_value(self.input_mode_id),
            PropertyKey::LocalizedName => text_value(self.localized_name),
            PropertyKey::Languages => ValueModel::TextList(self.languages),
        }
    }

    /// The record after a value is stored in the field that holds a
    /// property: a value of another type than the field's leaves the field
    /// vacant.
    pub open spec fn set(self, key: PropertyKey, value: ValueModel) -> PropertiesModel {
        match key {
            PropertyKey::Category => PropertiesModel { category: text_field(value), ..self },
            PropertyKey::Type => PropertiesModel { type_: text_field(value), ..self },
            PropertyKey::IsAsciiCapable => PropertiesModel { is_ascii_capable: flag_field(value), ..self },
            PropertyKey::IsEnableCapable => PropertiesModel { is_enable_capable: flag_field(value), ..self },
            PropertyKey::IsSelectCapable => PropertiesModel { is_select_capable: flag_field(value), ..self },
            PropertyKey::IsEnabled => PropertiesModel { is_enabled: flag_field(value), ..self },
            PropertyKey::IsSelected => PropertiesModel { is_selected: flag_field(value), ..self },
            PropertyKey::Id => PropertiesModel { id: text_field(value), ..self },
            PropertyKey::BundleId => PropertiesModel { bundle_id: text_field(value), ..self },
            PropertyKey::InputModeId => PropertiesModel { input_mode_id: text_field(value), ..self },
            PropertyKey::LocalizedName => PropertiesModel { localized_name: text_field(value), ..self },
            PropertyKey::Languages => PropertiesModel { languages: list_field(value), ..self },
        }
    }
}

/// The properties of an input source. A field that is not set means "do not
/// filter on this" in a filter, and "not available" in what was read from a
/// source.
#[derive(Debug, PartialEq, Eq)]
pub struct TISInputSourceProperties {
    /// The category of the input source.
    pub category: Option<String>,
    /// The type of the input source.
    pub type_: Option<String>,
    /// Whether the source can produce ASCII.
    pub is_ascii_capable: Option<bool>,
    /// Whether the source can be enabled.
    pub is_enable_capable: Option<bool>,
    /// Whether the source can be selected.
    pub is_select_capable: Option<bool>,
    /// Whether the source is enabled.
    pub is_enabled: Option<bool>,
    /// Whether the source is selected.
    pub is_selected: Option<bool>,
    /// The identifier of the input source.
    pub id: Option<String>,
    /// The identifier of the bundle that the source belongs to.
    pub bundle_id: Option<String>,
    /// The identifier of the input mode.
    pub input_mode_id: Option<String>,
    /// The name of the source in the user's language.
    pub localized_name: Option<String>,
    /// The languages that the source supports; never part of a filter.
    pub languages: Vec<String>,
}

impl View for TISInputSourceProperties {
    type V = PropertiesModel;

    open spec fn view(&self) -> PropertiesModel {
        PropertiesModel {
            category: text_of(self.category),
            type_: text_of(self.type_),
            is_ascii_capable: self.is_ascii_capable,
            is_enable_capable: self.is_enable_capable,
            is_select_capable: self.is_select_capable,
            is_enabled: self.is_enabled,
            is_selected: self.is_selected,
            id: text_of(self.id),
            bundle_id: text_of(self.bundle_id),
            input_mode_id: text_of(self.input_mode_id),
            localized_name: text_of(self.localized_name),
            languages: texts(self.languages@),
        }
    }
}

impl Default for TISInputSourceProperties {
    /// The record in which no field is set.
    fn default() -> (record: Self)
        ensures
            record@ == PropertiesModel::unset(),
    {
        let languages: Vec<String> = Vec::new();
        assert(texts(languages@) =~= Seq::<Seq<char>>::empty());
        TISInputSourceProperties {
            category: None,
            type_: None,
            is_ascii_capable: None,
            is_enable_capable: None,
            is_select_capable: None,
            is_enabled: None,
            is_selected: None,
            id: None,
            bundle_id: None,
            input_mode_id: None,
            localized_name: None,
            languages,
        }
    }
}

impl Clone for TISInputSourceProperties {
    fn clone(&self) -> (copy: Self)
        ensures
            copy@ == self@,
    {
        TISInputSourceProperties {
            category: clone_text(&self.category),
            type_: clone_text(&self.type_),
            is_ascii_capable: self.is_ascii_capable,
            is_enable_capable: self.is_enable_capable,
            is_select_capable: self.is_select_capable,
            is_enabled: self.is_enabled,
            is_selected: self.is_selected,
            id: clone_text(&self.id),
            bundle_id: clone_text(&self.bundle_id),
            input_mode_id: clone_text(&self.input_mode_id),
            localized_name: clone_text(&self.localized_name),
            languages: clone_texts(&self.languages),
        }
    }
}

/// The value of a string field.
fn text_to_value(field: &Option<String>) -> (value: PropertyValue)
    ensures
        value@ == text_value(text_of(*field)),
{
    match field {
        Some(s) => PropertyValue::Text(s.clone()),
        None => PropertyValue::Unset,
    }
}

/// The value of a boolean field.
fn flag_to_value(field: Option<bool>) -> (value: PropertyValue)
    ensures
        value@ == flag_value(field),
{
    match field {
        Some(b) => PropertyValue::Flag(b),
        None => PropertyValue::Unset,
    }
}

/// What a string field holds after a value is stored in it.
fn value_to_text(value: PropertyValue) -> (field: Option<String>)
    ensures
        text_of(field) == text_field(value@),
{
    match value {
        PropertyValue::Text(s) => Some(s),
        _ => None,
    }
}

/// What a boolean field holds after a value is stored in it.
fn value_to_flag(value: PropertyValue) -> (field: Option<bool>)
    ensures
        field == flag_field(value@),
{
    match value {
        PropertyValue::Flag(b) => Some(b),
        _ => None,
    }
}

/// What a list field holds after a value is stored in it.
fn value_to_list(value: PropertyValue) -> (field: Vec<String>)
    ensures
        texts(field@) == list_field(value@),
{
    match value {
        PropertyValue::TextList(l) => l,
        _ => {
            let empty: Vec<String> = Vec::new();
            assert(texts(empty@) =~= Seq::<Seq<char>>::empty());
            empty
        },
    }
}

impl TISInputSourceProperties {
    /// The value of the field that holds a property.
    pub fn get(&self, key: PropertyKey) -> (value: PropertyValue)
        ensures
            value@ == self@.get(key),
    {
        match key {
            PropertyKey::Category => text_to_value(&self.category),
            PropertyKey::Type => text_to_value(&self.type_),
            PropertyKey::IsAsciiCapable => flag_to_value(self.is_ascii_capable),
            PropertyKey::IsEnableCapable => flag_to_value(self.is_enable_capable),
            PropertyKey::IsSelectCapable => flag_to_value(self.is_select_capable),
            PropertyKey::IsEnabled => flag_to_value(self.is_enabled),
            PropertyKey::IsSelected => flag_to_value(self.is_selected),
            PropertyKey::Id => text_to_value(&self.id),
            PropertyKey::BundleId => text_to_value(&self.bundle_id),
            PropertyKey::InputModeId => text_to_value(&self.input_mode_id),
            PropertyKey::LocalizedName => text_to_value(&self.localized_name),
            PropertyKey::Languages => PropertyValue::TextList(clone_texts(&self.languages)),
        }
    }

    /// Stores a value in the field that holds a property. A value of
    /// another type than the field's leaves the field vacant: not set, or
    /// the empty list.
    pub fn set(&mut self, key: PropertyKey, value: PropertyValue)
        ensures
            final(self)@ == old(self)@.set(key, value@),
            final(self)@.get(key) == conform(key.spec_kind(), value@),
            forall|other: PropertyKey| other != key ==> final(self)@.get(other) == old(self)@.get(other),
    {
        match key {
            PropertyKey::Category => {
                self.category = value_to_text(value);
            },
            PropertyKey::Type => {
                self.type_ = value_to_text(value);
            },
            PropertyKey::IsAsciiCapable => {
                self.is_ascii_capable = value_to_flag(value);
            },
            PropertyKey::IsEnableCapable => {
                self.is_enable_capable = value_to_flag(value);
            },
            PropertyKey::IsSelectCapable => {
                self.is_select_capable = value_to_flag(value);
            },
            PropertyKey::IsEnabled => {
                self.is_enabled = value_to_flag(value);
            },
            PropertyKey::IsSelected => {
                self.is_selected = value_to_flag(value);
            },
            PropertyKey::Id => {
                self.id = value_to_text(value);
            },
            PropertyKey::BundleId => {
                self.bundle_id = value_to_text(value);
            },
            PropertyKey::InputModeId => {
                self.input_mode_id = value_to_text(value);
            },
            PropertyKey::LocalizedName => {
                self.localized_name = value_to_text(value);
            },
            PropertyKey::Languages => {
                self.languages = value_to_list(value);
            },
        }
    }
}

/// Two records that agree on every property are the same record.
pub proof fn lemma_record_is_its_fields(a: PropertiesModel, b: PropertiesModel)
    requires
        forall|key: PropertyKey| a.get(key) == b.get(key),
    ensures
        a == b,
{
    assert(a.get(PropertyKey::Category) == b.get(PropertyKey::Category));
    assert(a.get(PropertyKey::Type) == b.get(PropertyKey::Type));
    assert(a.get(PropertyKey::IsAsciiCapable) == b.get(PropertyKey::IsAsciiCapable));
    assert(a.get(PropertyKey::IsEnableCapable) == b.get(PropertyKey::IsEnableCapable));
    assert(a.get(PropertyKey::IsSelectCapable) == b.get(PropertyKey::IsSelectCapable));
    assert(a.get(PropertyKey::IsEnabled) == b.get(PropertyKey::IsEnabled));
    assert(a.get(PropertyKey::IsSelected) == b.get(PropertyKey::IsSelected));
    assert(a.get(PropertyKey::Id) == b.get(PropertyKey::Id));
    assert(a.get(PropertyKey::BundleId) == b.get(PropertyKey::BundleId));
    assert(a.get(PropertyKey::InputModeId) == b.get(PropertyKey::InputModeId));
    assert(a.get(PropertyKey::LocalizedName) == b.get(PropertyKey::LocalizedName));
    assert(a.get(PropertyKey::Languages) == b.get(PropertyKey::Languages));
}

/// What is stored under one property is read back from it, made to fit the
/// field's type, and no other field changes.
pub proof fn lemma_set_then_get(record: PropertiesModel, key: PropertyKey, value: ValueModel)
    ensures
        record.set(key, value).get(key) == conform(key.spec_kind(), value),
        forall|other: PropertyKey| other != key ==> record.set(key, value).get(other) == record.get(other),
{
}

} // verus!
