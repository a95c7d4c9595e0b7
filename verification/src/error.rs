//! The error value of the boundary and its rendering.

use vstd::prelude::*;
use vstd::std_specs::cmp::PartialEqSpecImpl;
use vstd::std_specs::convert::IntoSpec;
use vstd::string::to_string_from_display_ensures;
use crate::string::c_string_of;
use crate::string::is_terminated;
use crate::string::lemma_marshal_then_view;
use crate::string::lemma_terminator_is_nul_char;
use crate::string::text_of;
use crate::string::str_to_cstring;

verus! {

/// Why a call across the boundary failed.
#[derive(Debug)]
pub enum FfiError {
    /// A required pointer argument was absent.
    NullPointer,
    /// A buffer that should hold text is not valid UTF-8.
    InvalidUtf8,
    /// A string cannot be NUL-terminated because it holds a NUL byte itself.
    StringContainsNull,
    /// A message supplied by the caller.
    Custom(String),
}

/// The mathematical value of an [`FfiError`]: the variant, and for a custom
/// error the characters of its message.
pub enum FfiErrorView {
    NullPointer,
    InvalidUtf8,
    StringContainsNull,
    Custom(Seq<char>),
}

impl FfiErrorView {
    /// The one-line rendering of the error.
    pub open spec fn message(self) -> Seq<char> {
        match self {
            FfiErrorView::NullPointer => "null pointer"@,
            FfiErrorView::InvalidUtf8 => "invalid UTF-8 string"@,
            FfiErrorView::StringContainsNull => "string contains null byte"@,
            FfiErrorView::Custom(m) => m,
        }
    }
}

impl View for FfiError {
    type V = FfiErrorView;

    open spec fn view(&self) -> FfiErrorView {
        match self {
            FfiError::NullPointer => FfiErrorView::NullPointer,
            FfiError::InvalidUtf8 => FfiErrorView::InvalidUtf8,
            FfiError::StringContainsNull => FfiErrorView::StringContainsNull,
            FfiError::Custom(m) => FfiErrorView::Custom(m@),
        }
    }
}

impl Clone for FfiError {
    fn clone(&self) -> (r: Self)
        ensures
            r@ == self@,
    {
        match self {
            FfiError::NullPointer => FfiError::NullPointer,
            FfiError::InvalidUtf8 => FfiError::InvalidUtf8,
            FfiError::StringContainsNull => FfiError::StringContainsNull,
            FfiError::Custom(m) => FfiError::Custom(m.clone()),
        }
    }
}

impl PartialEq for FfiError {
    fn eq(&self, other: &Self) -> (r: bool) {
        match self {
            FfiError::NullPointer => matches!(other, FfiError::NullPointer),
            FfiError::InvalidUtf8 => matches!(other, FfiError::InvalidUtf8),
            FfiError::StringContainsNull => matches!(other, FfiError::StringContainsNull),
            FfiError::Custom(a) => match other {
                FfiError::Custom(b) => *a == *b,
                _ => false,
            },
        }
    }
}

impl PartialEqSpecImpl for FfiError {
    open spec fn obeys_eq_spec() -> bool {
        true
    }

    open spec fn eq_spec(&self, other: &Self) -> bool {
        self@ == other@
    }
}

impl Eq for FfiError {

}

impl FfiError {
    /// A custom error with the given message. The message is taken as it is:
    /// any text, the empty one too.
    pub fn custom<M: Into<String>>(msg: M) -> (r: Self)
        ensures
            r matches FfiError::Custom(m) && (M::obeys_into_spec() ==> m == msg.into_spec()),
    {
        FfiError::Custom(msg.into())
    }

    /// Renders the error as one line of text.
    pub fn to_string(&self) -> (r: String)
        ensures
            r@ == self@.message(),
    {
        match self {
            FfiError::NullPointer => "null pointer".to_owned(),
            FfiError::InvalidUtf8 => "invalid UTF-8 string".to_owned(),
            FfiError::StringContainsNull => "string contains null byte".to_owned(),
            FfiError::Custom(m) => m.clone(),
        }
    }
}

/// Checks that a pointer is present.
pub fn check_not_null<T>(ptr: Option<&T>) -> (r: Result<(), FfiError>)
    ensures
        ptr is Some ==> r is Ok,
        ptr is None ==> r == Err::<(), FfiError>(FfiError::NullPointer),
{
    match ptr {
        Some(_) => Ok(()),
        None => Err(FfiError::NullPointer),
    }
}

/// True when every pointer of the sequence is present.
pub open spec fn all_present<T>(ptrs: Seq<Option<&T>>) -> bool {
    forall|i: int| 0 <= i < ptrs.len() ==> (#[trigger] ptrs[i]) is Some
}

/// Checks that all of several pointers are present.
pub fn check_all_not_null<T>(ptrs: &[Option<&T>]) -> (r: Result<(), FfiError>)
    ensures
        all_present(ptrs@) ==> r is Ok,
        !all_present(ptrs@) ==> r == Err::<(), FfiError>(FfiError::NullPointer),
{
    let mut i: usize = 0;
    while i < ptrs.len()
        invariant
            i <= ptrs.len(),
            forall|j: int| 0 <= j < i ==> (#[trigger] ptrs@[j]) is Some,
        decreases ptrs.len() - i,
    {
        if ptrs[i].is_none() {
            return Err(FfiError::NullPointer);
        }
        i += 1;
    }
    Ok(())
}

/// The bytes behind an error slot.
pub open spec fn slot_bytes(slot: Option<Vec<u8>>) -> Option<Seq<u8>> {
    match slot {
        Some(buf) => Some(buf@),
        None => None,
    }
}

/// What a slot holds after `msg` was reported into it: the marshaled message,
/// or what it held before where the message cannot be marshaled.
pub open spec fn reported(prior: Option<Seq<u8>>, msg: Seq<char>) -> Option<Seq<u8>> {
    match c_string_of(msg) {
        Ok(buf) => Some(buf),
        Err(_) => prior,
    }
}

/// A message without the NUL character always reaches the slot, whatever the
/// slot held: the slot then holds a terminated buffer, and viewing that buffer
/// gives the message back exactly.
pub proof fn lemma_reported_message_reads_back(prior: Option<Seq<u8>>, msg: Seq<char>)
    requires
        !msg.contains('\0'),
    ensures
        reported(prior, msg) matches Some(buf) && is_terminated(buf) && text_of(Some(buf)) == Ok::<
            Seq<char>,
            FfiErrorView,
        >(msg),
{
    lemma_terminator_is_nul_char(msg);
    lemma_marshal_then_view(msg);
}

/// A message that holds the NUL character never reaches the slot: the slot
/// keeps what it held.
pub proof fn lemma_unmarshalable_message_is_dropped(prior: Option<Seq<u8>>, msg: Seq<char>)
    requires
        msg.contains('\0'),
    ensures
        reported(prior, msg) == prior,
{
    lemma_terminator_is_nul_char(msg);
}

/// Writes a message into the caller's error slot.
///
/// With no slot, nothing happens. With one, the message is marshaled and the
/// slot is overwritten with the new buffer, which the slot's owner releases.
/// A message that holds a NUL byte cannot be marshaled: it is dropped
/// silently and the slot keeps what it held.
pub fn set_error(out_error: Option<&mut Option<Vec<u8>>>, msg: &str)
    ensures
        match out_error {
            Some(slot) => {
                &&& slot_bytes(*final(slot)) == reported(slot_bytes(*slot), msg@)
                &&& c_string_of(msg@) is Err ==> *final(slot) == *slot
            },
            None => true,
        },
{
    match out_error {
        None => {},
        Some(slot) => {
            match str_to_cstring(msg) {
                Ok(buf) => {
                    *slot = Some(buf);
                },
                Err(_) => {},
            }
        },
    }
}

/// Writes the rendering of any displayable value into the caller's error
/// slot, as [`set_error`] does with the text that `to_string` gives for it.
pub fn set_error_from<E: core::fmt::Display>(out_error: Option<&mut Option<Vec<u8>>>, err: &E)
    ensures
        match out_error {
            Some(slot) => exists|msg: String| #[trigger]
                to_string_from_display_ensures::<E>(err, msg) && slot_bytes(*final(slot))
                    == reported(slot_bytes(*slot), msg@),
            None => true,
        },
{
    let msg = err.to_string();
    set_error(out_error, msg.as_str());
}

} // verus!
