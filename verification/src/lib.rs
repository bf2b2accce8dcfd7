//! A bridge between natively compiled extension code and the Dart virtual
//! machine: the values that cross its message channels, the hand-over of
//! buffers to its collector, the table through which it finds native entry
//! points, and the rules by which a native failure is kept from its stack.
//!
//! The library holds the rules and the data; it calls nothing of the virtual
//! machine. What the machine answered is handed in as plain values, and what
//! is to be asked of it comes back as such.

pub mod c_string;
pub mod dart_cobject;
pub mod dart_handle;
pub mod dart_native_arguments;
pub mod dart_types;
pub mod dispatch;
pub mod external_buffers;
pub mod prelude;
pub mod register;

pub use crate::dispatch::{catch_async_panic, catch_panic_hook, catch_panic_hook_async, init};
pub use crate::register::{FunctionRegister, NativeFunction};
