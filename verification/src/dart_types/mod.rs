//! What the typed faces of host objects decide for themselves, apart from the
//! calls that they forward to the virtual machine.

pub mod list;
