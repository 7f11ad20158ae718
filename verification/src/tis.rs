//! Text input sources: the property schema and what is marshalled through it.

pub mod dict;
pub mod filter;
pub mod record;
pub mod schema;
pub mod serialize;
pub mod source;
pub mod status;
pub mod value;

pub use dict::NativeDict;
pub use filter::{matches_filter, render_filter};
pub use record::TISInputSourceProperties;
pub use schema::{PropertyKey, ValueKind, PROPERTY_COUNT};
pub use serialize::{serialize, ExternalEntry};
pub use source::{
    filter_for_id, native_boolean, read_properties, wrap_create_list, TISInputSource,
};
pub use status::{wrap_osstatus, OSStatusError};
pub use value::{text_list, NativeValue, PropertyValue};
