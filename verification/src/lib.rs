//! Safety utilities for code that sits on a flat, C-style calling boundary.
//!
//! The crate gives three things, each with a machine-checked contract:
//!
//! - an error value with a stable one-line rendering ([`FfiError`]),
//! - conversions between NUL-terminated byte buffers and validated text,
//! - a barrier that turns the outcome of a unit of work, a caught panic
//!   included, into a plain return value and an optional diagnostic message.
//!
//! Nothing here touches a raw address. An optional pointer is an `Option`: the
//! absent pointer is `None`. A borrowed C string is the byte slice that starts
//! where the pointer points and holds a terminator. A string handed out is an
//! owned `Vec<u8>` that ends in its terminator, and an error slot is an
//! `Option<&mut Option<Vec<u8>>>`.

pub mod error;
pub mod panic;
pub mod string;

pub use error::{
    check_all_not_null, check_not_null, set_error, set_error_from, FfiError, FfiErrorView,
};
pub use panic::{
    extract_panic_message, ffi_boundary, ffi_boundary_simple, ffi_boundary_with_log, PanicPayload,
    PanicPayloadView,
};
pub use string::{
    cstr_to_option_str, cstr_to_str, cstr_to_str_or, cstr_to_string, str_to_cstring,
    vimo_ffi_free_string,
};
