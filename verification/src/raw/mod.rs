//! The engine's own representation of the values that cross its boundary.
//!
//! Each type here holds, as plain values, what the engine's object of the
//! same name holds. The typed values of this crate are converted to these
//! before a request is sent and from these when an answer comes back.

mod field_data;
mod field_spec;
mod info;
mod types;

pub use field_data::{copy_bytes, field_payload_ok, fields_view, RawFieldData, RawFieldDataView};
pub use field_spec::{indexes_view, specs_view};
pub use field_spec::{RawFieldSpec, RawFieldSpecView, RawIndexSpec, RawIndexSpecView};
pub use info::{holds_access, holds_roles, level_codes_ok};
pub use info::{RawRoleInfo, RawRoleInfoView, RawUserInfo, RawUserInfoView};
pub use types::{RawDate, RawDateTime, RawEdgeUid};
pub use types::{
    ACCESS_LEVEL_FULL, ACCESS_LEVEL_NONE, ACCESS_LEVEL_READ, ACCESS_LEVEL_WRITE, FIELD_TYPE_BLOB,
    FIELD_TYPE_BOOL, FIELD_TYPE_DATE, FIELD_TYPE_DATETIME, FIELD_TYPE_DOUBLE, FIELD_TYPE_FLOAT,
    FIELD_TYPE_INT16, FIELD_TYPE_INT32, FIELD_TYPE_INT64, FIELD_TYPE_INT8, FIELD_TYPE_NULL,
    FIELD_TYPE_STRING,
};
