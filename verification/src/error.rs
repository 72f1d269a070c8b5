//! What can go wrong when a window manager is connected to.
use crate::capability;
use crate::capability::CapabilityFault;
use vstd::prelude::*;
use vstd::string::*;

verus! {

/// Why a window manager could not be connected to or did not do what it was asked.
#[derive(Debug)]
pub enum WmError {
    /// An adapter declares capabilities that it cannot have.
    InvalidCapabilities { adapter: &'static str, fault: CapabilityFault },
    /// The selected backend led to the specification of another one.
    BackendMismatch { backend: &'static str, spec: &'static str },
    /// The selected backend exists, but connecting to it failed.
    ConnectFailed { name: &'static str, cause: Box<WmError> },
    /// The selected backend does not exist on this system.
    BackendUnsupported { name: &'static str, os: &'static str },
    /// An adapter reports a failure in its own words.
    Adapter(String),
}

/// The text of an error.
pub open spec fn error_text(error: WmError) -> Seq<char> {
    match error {
        WmError::InvalidCapabilities { adapter, fault } => "invalid capabilities for adapter '"@
            + adapter@ + "'"@,
        WmError::BackendMismatch { backend, spec } => "wm backend '"@ + backend@
            + "' resolved to mismatched spec '"@ + spec@ + "'"@,
        WmError::ConnectFailed { name, cause } => "failed to connect configured wm '"@ + name@
            + "'"@,
        WmError::BackendUnsupported { name, os } => "wm backend '"@ + name@
            + "' is not supported on "@ + os@,
        WmError::Adapter(text) => text@,
    }
}

impl WmError {
    /// Renders the error as text, without what caused it.
    pub fn message(&self) -> (result: String)
        ensures
            result@ == error_text(*self),
    {
        match self {
            WmError::InvalidCapabilities { adapter, .. } => {
                let mut text: String = "invalid capabilities for adapter '".to_owned();
                text.append(adapter);
                text.append("'");
                text
            },
            WmError::BackendMismatch { backend, spec } => {
                let mut text: String = "wm backend '".to_owned();
                text.append(backend);
                text.append("' resolved to mismatched spec '");
                text.append(spec);
                text.append("'");
                text
            },
            WmError::ConnectFailed { name, .. } => {
                let mut text: String = "failed to connect configured wm '".to_owned();
                text.append(name);
                text.append("'");
                text
            },
            WmError::BackendUnsupported { name, os } => {
                let mut text: String = "wm backend '".to_owned();
                text.append(name);
                text.append("' is not supported on ");
                text.append(os);
                text
            },
            WmError::Adapter(text) => text.clone(),
        }
    }

    /// Renders what caused the error, where something did.
    pub fn cause(&self) -> (result: Option<String>)
        ensures
            match self {
                WmError::InvalidCapabilities { fault, .. } => result is Some && result->0@
                    == capability::fault_text(*fault),
                WmError::ConnectFailed { cause, .. } => result is Some && result->0@ == error_text(
                    **cause,
                ),
                _ => result is None,
            },
    {
        match self {
            WmError::InvalidCapabilities { fault, .. } => Some(fault.message()),
            WmError::ConnectFailed { cause, .. } => Some(cause.message()),
            _ => None,
        }
    }
}

/// Errors say which adapter, backend or system they concern, and what caused them is told apart
/// from what went wrong.
pub proof fn errors_name_what_they_concern(error: WmError, message: String, cause: Option<String>)
    requires
        call_ensures(WmError::message, (&error,), message),
        call_ensures(WmError::cause, (&error,), cause),
    ensures
        error matches WmError::InvalidCapabilities { adapter, fault } ==> message@
            == "invalid capabilities for adapter '"@ + adapter@ + "'"@ && cause is Some
            && cause->0@ == capability::fault_text(fault),
        error matches WmError::BackendMismatch { backend, spec } ==> message@ == "wm backend '"@
            + backend@ + "' resolved to mismatched spec '"@ + spec@ + "'"@ && cause is None,
        error matches WmError::ConnectFailed { name, cause: inner } ==> message@
            == "failed to connect configured wm '"@ + name@ + "'"@ && cause is Some && cause->0@
            == error_text(*inner),
        error matches WmError::BackendUnsupported { name, os } ==> message@ == "wm backend '"@
            + name@ + "' is not supported on "@ + os@ && cause is None,
        error matches WmError::Adapter(text) ==> message@ == text@ && cause is None,
        message@ == error_text(error),
{
}

} // verus!
