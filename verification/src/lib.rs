//! Verified core of a binding to the xkbcommon keyboard library: keycode
//! ranges, the numeric encodings of the library's enumerations and flags, and
//! the handling of what the C functions hand back (status codes, text written
//! into caller buffers, index-based enumeration of names).

pub mod keycode;
pub mod flags;
pub mod enums;
pub mod cstring;
pub mod reply;
pub mod cursor;
