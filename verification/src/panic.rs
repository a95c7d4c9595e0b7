//! The barrier between a unit of work and a caller that cannot take a panic.
//!
//! The work runs where a panic can be caught. What came of it arrives here as
//! a value: the work's own result, or the payload of the panic. The functions
//! of this module turn that value into what the caller receives: a plain
//! return value and, for some of them, a message in the caller's error slot.

use vstd::prelude::*;
use vstd::string::StringExecFns;
use crate::error::reported;
use crate::error::set_error;
use crate::error::slot_bytes;

verus! {

/// What a caught panic carried, as far as it can be told.
#[derive(Debug)]
pub enum PanicPayload {
    /// A fixed message, as `panic!` with a literal leaves it.
    Static(&'static str),
    /// An owned message, as `panic!` with format arguments leaves it.
    Owned(String),
    /// Anything else.
    Unknown,
}

/// The mathematical value of a [`PanicPayload`].
pub enum PanicPayloadView {
    Static(Seq<char>),
    Owned(Seq<char>),
    Unknown,
}

impl PanicPayloadView {
    /// The readable message of the payload: the text it carries, taken as it
    /// is, or a fixed text where it carries none.
    pub open spec fn message(self) -> Seq<char> {
        match self {
            PanicPayloadView::Static(m) => m,
            PanicPayloadView::Owned(m) => m,
            PanicPayloadView::Unknown => "unknown panic"@,
        }
    }

    /// The text reported to the caller for a panic with this payload.
    pub open spec fn report(self) -> Seq<char> {
        "internal panic: "@ + self.message()
    }

    /// The line logged for a panic with this payload where there is no error
    /// slot to report it to.
    pub open spec fn log_line(self) -> Seq<char> {
        "[vimo-ffi] panic caught: "@ + self.message()
    }
}

impl View for PanicPayload {
    type V = PanicPayloadView;

    open spec fn view(&self) -> PanicPayloadView {
        match self {
            PanicPayload::Static(m) => PanicPayloadView::Static(m@),
            PanicPayload::Owned(m) => PanicPayloadView::Owned(m@),
            PanicPayload::Unknown => PanicPayloadView::Unknown,
        }
    }
}

/// Reads the message of a caught panic.
pub fn extract_panic_message(panic: &PanicPayload) -> (r: String)
    ensures
        r@ == panic@.message(),
{
    match panic {
        PanicPayload::Static(m) => (*m).to_owned(),
        PanicPayload::Owned(m) => m.clone(),
        PanicPayload::Unknown => "unknown panic".to_owned(),
    }
}

/// What [`ffi_boundary`] returns for an outcome.
pub open spec fn boundary_value<T>(default: T, outcome: Result<Result<T, String>, PanicPayload>) -> T {
    match outcome {
        Ok(Ok(value)) => value,
        _ => default,
    }
}

/// What an error slot holds after [`ffi_boundary`] has handled an outcome,
/// given what it held before.
pub open spec fn boundary_slot<T>(
    prior: Option<Seq<u8>>,
    outcome: Result<Result<T, String>, PanicPayload>,
) -> Option<Seq<u8>> {
    match outcome {
        Ok(Ok(_)) => prior,
        Ok(Err(msg)) => reported(prior, msg@),
        Err(panic) => reported(prior, panic@.report()),
    }
}

/// Turns the outcome of a unit of work into the value that crosses the
/// boundary, and reports a failure into the caller's error slot.
///
/// - The work succeeded: its value is returned, and the slot is not touched.
/// - The work failed with a message: the message is reported into the slot,
///   and `default` is returned.
/// - The work panicked: the payload's message, marked by the prefix
///   `internal panic: `, is reported into the slot, and `default` is returned.
pub fn ffi_boundary<T>(
    out_error: Option<&mut Option<Vec<u8>>>,
    default: T,
    outcome: Result<Result<T, String>, PanicPayload>,
) -> (r: T)
    ensures
        r == boundary_value(default, outcome),
        match out_error {
            Some(slot) => {
                &&& slot_bytes(*final(slot)) == boundary_slot(slot_bytes(*slot), outcome)
                &&& outcome matches Ok(Ok(_)) ==> *final(slot) == *slot
            },
            None => true,
        },
{
    match outcome {
        Ok(Ok(value)) => value,
        Ok(Err(msg)) => {
            set_error(out_error, msg.as_str());
            default
        },
        Err(panic) => {
            let mut report = "internal panic: ".to_owned();
            report.append(extract_panic_message(&panic).as_str());
            set_error(out_error, report.as_str());
            default
        },
    }
}

/// Turns the outcome of a unit of work that cannot fail into the value that
/// crosses the boundary. There is no error slot.
///
/// The work's value is returned as it is, with nothing to log. For a panic,
/// `default` is returned together with the line to write to the log.
pub fn ffi_boundary_simple<T>(default: T, outcome: Result<T, PanicPayload>) -> (r: (
    T,
    Option<String>,
))
    ensures
        match outcome {
            Ok(value) => r.0 == value && r.1 is None,
            Err(panic) => {
                &&& r.0 == default
                &&& r.1 matches Some(line) && line@ == panic@.log_line()
            },
        },
{
    match outcome {
        Ok(value) => (value, None),
        Err(panic) => {
            let mut line = "[vimo-ffi] panic caught: ".to_owned();
            line.append(extract_panic_message(&panic).as_str());
            (default, Some(line))
        },
    }
}

/// As [`ffi_boundary_simple`], with the caller's own callback in place of the
/// log: for a panic, `on_panic` is called once with the payload's message.
/// It is not called where the work succeeded.
///
/// The callback must accept that message: one without a precondition of its
/// own does.
pub fn ffi_boundary_with_log<T, L: FnOnce(&str)>(
    default: T,
    on_panic: L,
    outcome: Result<T, PanicPayload>,
) -> (r: T)
    requires
        outcome matches Err(panic) ==> forall|msg: &str|
            msg@ == panic@.message() ==> call_requires(on_panic, (msg,)),
    ensures
        match outcome {
            Ok(value) => r == value,
            Err(panic) => r == default && exists|msg: &str|
                msg@ == panic@.message() && call_ensures(on_panic, (msg,), ()),
        },
{
    match outcome {
        Ok(value) => value,
        Err(panic) => {
            let msg = extract_panic_message(&panic);
            on_panic(msg.as_str());
            default
        },
    }
}

} // verus!
