//! The names that most native extensions need.

pub use crate::c_string::CStringBytes;
pub use crate::dart_cobject::{CObject, HostCObject, TypedDataArray};
pub use crate::dart_handle::{Error, ErrorKind, Port, UnverifiedDartHandle};
pub use crate::dart_native_arguments::NativeArgumentValue;
pub use crate::external_buffers::{ExternalBuffers, TypedBuffer};
