//! Starting the agent at user login.
//!
//! The autostart commands answer from the outcome of the platform's backend,
//! and report platforms without one as unsupported. The Windows backend keeps
//! a `Run` registry value; the functions below decide, from the outcome of
//! each registry operation, what that backend reports.

use vstd::prelude::*;

use crate::text::{is_blank, is_blank_spec};

verus! {

/// Whether the agent starts at login.
#[derive(Debug, Clone, Copy, PartialEq, Eq, Structural)]
pub enum AutostartStatus {
    Enabled,
    Disabled,
}

/// Failures of the Windows backend, with the message of the underlying I/O
/// error.
#[derive(Debug, Clone)]
pub enum WindowsAutostartError {
    /// The path of the running executable could not be resolved.
    CurrentExe(String),
    /// A registry operation failed.
    Registry(String),
}

/// Failures of the autostart commands.
#[derive(Debug, Clone)]
pub enum AutostartError {
    /// Autostart is not supported on this platform.
    Unsupported,
    Windows(WindowsAutostartError),
}

/// How a registry operation ended.
#[derive(Debug, Clone)]
pub enum RegistryOutcome {
    Done,
    /// The key or value does not exist (with the message of the failure).
    NotFound(String),
    /// Any other failure, by its message.
    Failed(String),
}

/// What reading the autostart value gave.
#[derive(Debug, Clone)]
pub enum RegistryRead {
    Value(String),
    /// The key or the value does not exist.
    NotFound,
    /// Any other failure, by its message.
    Failed(String),
}

/// The answer of an autostart command, from its platform backend's outcome:
/// `None` where the platform has no backend, which is unsupported; otherwise
/// the backend's result, its failures as Windows failures.
pub open spec fn backend_answer<T>(backend: Option<Result<T, WindowsAutostartError>>) -> Result<
    T,
    AutostartError,
> {
    match backend {
        None => Err(AutostartError::Unsupported),
        Some(Ok(v)) => Ok(v),
        Some(Err(e)) => Err(AutostartError::Windows(e)),
    }
}

fn platform_result<T>(backend: Option<Result<T, WindowsAutostartError>>) -> (res: Result<
    T,
    AutostartError,
>)
    ensures
        res == backend_answer(backend),
{
    match backend {
        None => Err(AutostartError::Unsupported),
        Some(Ok(v)) => Ok(v),
        Some(Err(e)) => Err(AutostartError::Windows(e)),
    }
}

/// Register the agent to start at login, given the outcome of the platform's
/// registration (`None` where the platform has no autostart backend).
pub fn enable(backend: Option<Result<(), WindowsAutostartError>>) -> (res: Result<
    (),
    AutostartError,
>)
    ensures
        res == backend_answer(backend),
{
    platform_result(backend)
}

/// Stop the agent from starting at login, given the outcome of the
/// platform's removal (`None` where the platform has no autostart backend).
pub fn disable(backend: Option<Result<(), WindowsAutostartError>>) -> (res: Result<
    (),
    AutostartError,
>)
    ensures
        res == backend_answer(backend),
{
    platform_result(backend)
}

/// Whether the agent starts at login, given what the platform's backend read
/// (`None` where the platform has no autostart backend).
pub fn status(backend: Option<Result<AutostartStatus, WindowsAutostartError>>) -> (res: Result<
    AutostartStatus,
    AutostartError,
>)
    ensures
        res == backend_answer(backend),
{
    platform_result(backend)
}

/// The command line stored in the registry: the executable path in double
/// quotes.
pub fn autostart_command(exe_path: &str) -> (res: String)
    ensures
        res@ == seq!['"'] + exe_path@ + seq!['"'],
{
    let quoted = String::from_str("\"");
    let with_path = quoted.concat(exe_path);
    let res = with_path.concat("\"");
    proof {
        reveal_strlit("\"");
    }
    res
}

/// The result of writing the autostart value: any failure is a registry
/// failure.
pub fn registration_result(write: RegistryOutcome) -> (res: Result<(), WindowsAutostartError>)
    ensures
        (match write {
            RegistryOutcome::Done => res is Ok,
            RegistryOutcome::NotFound(msg) => res matches Err(WindowsAutostartError::Registry(m))
                && m@ == msg@,
            RegistryOutcome::Failed(msg) => res matches Err(WindowsAutostartError::Registry(m))
                && m@ == msg@,
        }),
{
    match write {
        RegistryOutcome::Done => Ok(()),
        RegistryOutcome::NotFound(msg) => Err(WindowsAutostartError::Registry(msg)),
        RegistryOutcome::Failed(msg) => Err(WindowsAutostartError::Registry(msg)),
    }
}

/// The result of one step of removing the autostart value (opening the key,
/// then deleting the value): a key or value that is already gone counts as
/// removed.
pub fn removal_result(step: RegistryOutcome) -> (res: Result<(), WindowsAutostartError>)
    ensures
        (match step {
            RegistryOutcome::Failed(msg) => res matches Err(WindowsAutostartError::Registry(m))
                && m@ == msg@,
            _ => res is Ok,
        }),
{
    match step {
        RegistryOutcome::Done => Ok(()),
        RegistryOutcome::NotFound(_) => Ok(()),
        RegistryOutcome::Failed(msg) => Err(WindowsAutostartError::Registry(msg)),
    }
}

/// The status read from the registry: enabled when the value holds something
/// other than whitespace; disabled when it is blank or missing.
pub fn status_from_registry(read: RegistryRead) -> (res: Result<
    AutostartStatus,
    WindowsAutostartError,
>)
    ensures
        (match read {
            RegistryRead::Value(v) => res == if is_blank_spec(v@) {
                Ok::<AutostartStatus, WindowsAutostartError>(AutostartStatus::Disabled)
            } else {
                Ok(AutostartStatus::Enabled)
            },
            RegistryRead::NotFound => res == Ok::<
                AutostartStatus,
                WindowsAutostartError,
            >(AutostartStatus::Disabled),
            RegistryRead::Failed(msg) => res matches Err(WindowsAutostartError::Registry(m))
                && m@ == msg@,
        }),
{
    match read {
        RegistryRead::Value(v) => {
            if is_blank(v.as_str()) {
                Ok(AutostartStatus::Disabled)
            } else {
                Ok(AutostartStatus::Enabled)
            }
        },
        RegistryRead::NotFound => Ok(AutostartStatus::Disabled),
        RegistryRead::Failed(msg) => Err(WindowsAutostartError::Registry(msg)),
    }
}

/// The message of a Windows failure: what went wrong, then the message of the
/// underlying error.
pub open spec fn windows_error_message(e: WindowsAutostartError) -> Seq<char> {
    match e {
        WindowsAutostartError::CurrentExe(msg) => "unable to resolve DocSort executable path: "@
            + msg@,
        WindowsAutostartError::Registry(msg) => "Windows registry operation failed: "@ + msg@,
    }
}

/// The message of an autostart failure; a Windows failure shows its own.
pub open spec fn autostart_error_message(e: AutostartError) -> Seq<char> {
    match e {
        AutostartError::Unsupported => "autostart is not supported on this platform"@,
        AutostartError::Windows(w) => windows_error_message(w),
    }
}

impl WindowsAutostartError {
    /// The failure as a message for the user.
    pub fn message(&self) -> (res: String)
        ensures
            res@ == windows_error_message(*self),
    {
        match self {
            WindowsAutostartError::CurrentExe(msg) => String::from_str(
                "unable to resolve DocSort executable path: ",
            ).concat(msg.as_str()),
            WindowsAutostartError::Registry(msg) => String::from_str(
                "Windows registry operation failed: ",
            ).concat(msg.as_str()),
        }
    }
}

impl AutostartError {
    /// The failure as a message for the user.
    pub fn message(&self) -> (res: String)
        ensures
            res@ == autostart_error_message(*self),
    {
        match self {
            AutostartError::Unsupported => String::from_str(
                "autostart is not supported on this platform",
            ),
            AutostartError::Windows(w) => w.message(),
        }
    }
}

} // verus!
