//! Identity and lookup key for records in a multi-producer entity store.
//!
//! An [`EntityKey`] names one record: its entity type, its identifier and the
//! causality region of the data source that created it. Keys compare, order
//! and hash by those three parts, and a lookup in one causality region never
//! observes a record that another, non-global region created.

pub mod entity_key;
pub mod entity_type;
pub mod region;
pub mod store;
pub mod text;
pub mod value;

pub use entity_key::EntityKey;
pub use entity_type::EntityType;
pub use region::CausalityRegion;
pub use store::{InternError, LoadRelatedRequest, StoreError};
pub use value::{ConversionError, ConversionErrorKind, IdType, Value};
