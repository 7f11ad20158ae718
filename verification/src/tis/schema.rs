//! The property schema: one entry per property of an input source, giving
//! its place in the table, the type of its value, the name of its record
//! field and the name of the native key under which the framework holds it.

use vstd::prelude::*;

verus! {

/// How many properties the schema has.
pub const PROPERTY_COUNT: usize = 12;

/// The type of a property's value.
#[derive(Debug, Clone, Copy, PartialEq, Eq, Structural)]
pub enum ValueKind {
    /// A string.
    Text,
    /// A boolean.
    Flag,
    /// A list of strings.
    TextList,
}

/// A property of an input source.
#[derive(Debug, Clone, Copy, PartialEq, Eq, Hash, Structural)]
pub enum PropertyKey {
    /// The category of the input source.
    Category,
    /// The type of the input source.
    Type,
    /// Whether the source can produce ASCII.
    IsAsciiCapable,
    /// Whether the source can be enabled.
    IsEnableCapable,
    /// Whether the source can be selected.
    IsSelectCapable,
    /// Whether the source is enabled.
    IsEnabled,
    /// Whether the source is selected.
    IsSelected,
    /// The identifier of the input source.
    Id,
    /// The identifier of the bundle that the source belongs to.
    BundleId,
    /// The identifier of the input mode.
    InputModeId,
    /// The name of the source in the user's language.
    LocalizedName,
    /// The languages that the source supports.
    Languages,
}

impl PropertyKey {
    /// The property's place in the schema.
    pub open spec fn spec_index(self) -> int {
        match self {
            PropertyKey::Category => 0,
            PropertyKey::Type => 1,
            PropertyKey::IsAsciiCapable => 2,
            PropertyKey::IsEnableCapable => 3,
            PropertyKey::IsSelectCapable => 4,
            PropertyKey::IsEnabled => 5,
            PropertyKey::IsSelected => 6,
            PropertyKey::Id => 7,
            PropertyKey::BundleId => 8,
            PropertyKey::InputModeId => 9,
            PropertyKey::LocalizedName => 10,
            PropertyKey::Languages => 11,
        }
    }

    /// The property that stands at a place of the schema.
    pub open spec fn spec_at(index: int) -> PropertyKey {
        if index == 0 {
            PropertyKey::Category
        } else if index == 1 {
            PropertyKey::Type
        } else if index == 2 {
            PropertyKey::IsAsciiCapable
        } else if index == 3 {
            PropertyKey::IsEnableCapable
        } else if index == 4 {
            PropertyKey::IsSelectCapable
        } else if index == 5 {
            PropertyKey::IsEnabled
        } else if index == 6 {
            PropertyKey::IsSelected
        } else if index == 7 {
            PropertyKey::Id
        } else if index == 8 {
            PropertyKey::BundleId
        } else if index == 9 {
            PropertyKey::InputModeId
        } else if index == 10 {
            PropertyKey::LocalizedName
        } else {
            PropertyKey::Languages
        }
    }

    /// The type of the property's value.
    pub open spec fn spec_kind(self) -> ValueKind {
        match self {
            PropertyKey::Category => ValueKind::Text,
            PropertyKey::Type => ValueKind::Text,
            PropertyKey::IsAsciiCapable => ValueKind::Flag,
            PropertyKey::IsEnableCapable => ValueKind::Flag,
            PropertyKey::IsSelectCapable => ValueKind::Flag,
            PropertyKey::IsEnabled => ValueKind::Flag,
            PropertyKey::IsSelected => ValueKind::Flag,
            PropertyKey::Id => ValueKind::Text,
            PropertyKey::BundleId => ValueKind::Text,
            PropertyKey::InputModeId => ValueKind::Text,
            PropertyKey::LocalizedName => ValueKind::Text,
            PropertyKey::Languages => ValueKind::TextList,
        }
    }

    /// The name of the record field that holds the property.
    pub open spec fn spec_field_name(self) -> Seq<char> {
        match self {
            PropertyKey::Category => "category"@,
            PropertyKey::Type => "type_"@,
            PropertyKey::IsAsciiCapable => "is_ascii_capable"@,
            PropertyKey::IsEnableCapable => "is_enable_capable"@,
            PropertyKey::IsSelectCapable => "is_select_capable"@,
            PropertyKey::IsEnabled => "is_enabled"@,
            PropertyKey::IsSelected => "is_selected"@,
            PropertyKey::Id => "id"@,
            PropertyKey::BundleId => "bundle_id"@,
            PropertyKey::InputModeId => "input_mode_id"@,
            PropertyKey::LocalizedName => "localized_name"@,
            PropertyKey::Languages => "languages"@,
        }
    }

    /// The name of the framework's constant that holds the native key.
    pub open spec fn spec_native_name(self) -> Seq<char> {
        match self {
            PropertyKey::Category => "kTISPropertyInputSourceCategory"@,
            PropertyKey::Type => "kTISPropertyInputSourceType"@,
            PropertyKey::IsAsciiCapable => "kTISPropertyInputSourceIsASCIICapable"@,
            PropertyKey::IsEnableCapable => "kTISPropertyInputSourceIsEnableCapable"@,
            PropertyKey::IsSelectCapable => "kTISPropertyInputSourceIsSelectCapable"@,
            PropertyKey::IsEnabled => "kTISPropertyInputSourceIsEnabled"@,
            PropertyKey::IsSelected => "kTISPropertyInputSourceIsSelected"@,
            PropertyKey::Id => "kTISPropertyInputSourceID"@,
            PropertyKey::BundleId => "kTISPropertyBundleID"@,
            PropertyKey::InputModeId => "kTISPropertyInputModeID"@,
            PropertyKey::LocalizedName => "kTISPropertyLocalizedName"@,
            PropertyKey::Languages => "kTISPropertyInputSourceLanguages"@,
        }
    }

    /// The property's place in the schema, below `PROPERTY_COUNT`.
    pub fn index(self) -> (index: usize)
        ensures
            index == self.spec_index(),
            index < PROPERTY_COUNT,
            PropertyKey::spec_at(index as int) == self,
    {
        match self {
            PropertyKey::Category => 0,
            PropertyKey::Type => 1,
            PropertyKey::IsAsciiCapable => 2,
            PropertyKey::IsEnableCapable => 3,
            PropertyKey::IsSelectCapable => 4,
            PropertyKey::IsEnabled => 5,
            PropertyKey::IsSelected => 6,
            PropertyKey::Id => 7,
            PropertyKey::BundleId => 8,
            PropertyKey::InputModeId => 9,
            PropertyKey::LocalizedName => 10,
            PropertyKey::Languages => 11,
        }
    }

    /// The property at a place of the schema, and none from
    /// `PROPERTY_COUNT` on.
    pub fn at(index: usize) -> (key: Option<PropertyKey>)
        ensures
            index < PROPERTY_COUNT ==> key == Some(PropertyKey::spec_at(index as int)),
            index < PROPERTY_COUNT ==> key.unwrap().spec_index() == index,
            index >= PROPERTY_COUNT ==> key.is_none(),
    {
        if index == 0 {
            Some(PropertyKey::Category)
        } else if index == 1 {
            Some(PropertyKey::Type)
        } else if index == 2 {
            Some(PropertyKey::IsAsciiCapable)
        } else if index == 3 {
            Some(PropertyKey::IsEnableCapable)
        } else if index == 4 {
            Some(PropertyKey::IsSelectCapable)
        } else if index == 5 {
            Some(PropertyKey::IsEnabled)
        } else if index == 6 {
            Some(PropertyKey::IsSelected)
        } else if index == 7 {
            Some(PropertyKey::Id)
        } else if index == 8 {
            Some(PropertyKey::BundleId)
        } else if index == 9 {
            Some(PropertyKey::InputModeId)
        } else if index == 10 {
            Some(PropertyKey::LocalizedName)
        } else if index == 11 {
            Some(PropertyKey::Languages)
        } else {
            None
        }
    }

    /// The type of the property's value.
    #[verifier::when_used_as_spec(spec_kind)]
    pub fn kind(self) -> (kind: ValueKind)
        ensures
            kind == self.spec_kind(),
    {
        match self {
            PropertyKey::Category => ValueKind::Text,
            PropertyKey::Type => ValueKind::Text,
            PropertyKey::IsAsciiCapable => ValueKind::Flag,
            PropertyKey::IsEnableCapable => ValueKind::Flag,
            PropertyKey::IsSelectCapable => ValueKind::Flag,
            PropertyKey::IsEnabled => ValueKind::Flag,
            PropertyKey::IsSelected => ValueKind::Flag,
            PropertyKey::Id => ValueKind::Text,
            PropertyKey::BundleId => ValueKind::Text,
            PropertyKey::InputModeId => ValueKind::Text,
            PropertyKey::LocalizedName => ValueKind::Text,
            PropertyKey::Languages => ValueKind::TextList,
        }
    }

    /// The name of the record field that holds the property.
    pub fn field_name(self) -> (name: &'static str)
        ensures
            name@ == self.spec_field_name(),
    {
        match self {
            PropertyKey::Category => "category",
            PropertyKey::Type => "type_",
            PropertyKey::IsAsciiCapable => "is_ascii_capable",
            PropertyKey::IsEnableCapable => "is_enable_capable",
            PropertyKey::IsSelectCapable => "is_select_capable",
            PropertyKey::IsEnabled => "is_enabled",
            PropertyKey::IsSelected => "is_selected",
            PropertyKey::Id => "id",
            PropertyKey::BundleId => "bundle_id",
            PropertyKey::InputModeId => "input_mode_id",
            PropertyKey::LocalizedName => "localized_name",
            PropertyKey::Languages => "languages",
        }
    }

    /// The name of the framework's constant that holds the native key.
    pub fn native_name(self) -> (name: &'static str)
        ensures
            name@ == self.spec_native_name(),
    {
        match self {
            PropertyKey::Category => "kTISPropertyInputSourceCategory",
            PropertyKey::Type => "kTISPropertyInputSourceType",
            PropertyKey::IsAsciiCapable => "kTISPropertyInputSourceIsASCIICapable",
            PropertyKey::IsEnableCapable => "kTISPropertyInputSourceIsEnableCapable",
            PropertyKey::IsSelectCapable => "kTISPropertyInputSourceIsSelectCapable",
            PropertyKey::IsEnabled => "kTISPropertyInputSourceIsEnabled",
            PropertyKey::IsSelected => "kTISPropertyInputSourceIsSelected",
            PropertyKey::Id => "kTISPropertyInputSourceID",
            PropertyKey::BundleId => "kTISPropertyBundleID",
            PropertyKey::InputModeId => "kTISPropertyInputModeID",
            PropertyKey::LocalizedName => "kTISPropertyLocalizedName",
            PropertyKey::Languages => "kTISPropertyInputSourceLanguages",
        }
    }
}

/// Every property has a place below `PROPERTY_COUNT`, and the place gives
/// the property back: the schema lists each property once.
pub proof fn lemma_schema_lists_each_property_once(key: PropertyKey)
    ensures
        0 <= key.spec_index() < PROPERTY_COUNT,
        PropertyKey::spec_at(key.spec_index()) == key,
{
}

/// Every place below `PROPERTY_COUNT` holds the property whose place it is.
pub proof fn lemma_schema_place_holds_its_property(index: int)
    requires
        0 <= index < PROPERTY_COUNT,
    ensures
        PropertyKey::spec_at(index).spec_index() == index,
{
}

} // verus!
