//! Errors of the four bridge operations.
use vstd::prelude::*;
use vstd::string::StringExecFns;

verus! {

/// Why `connect` did not open a connection.
#[derive(Debug, Clone, PartialEq, Eq)]
pub enum ConnectError {
    /// A connection is already active.
    AlreadyConnected,
    /// The port could not be opened; the text names the port and the reason.
    OpenFailed(String),
}

/// Why `disconnect` did nothing.
#[derive(Debug, Clone, Copy, PartialEq, Eq, Structural)]
pub enum DisconnectError {
    /// No connection is active.
    NotConnected,
}

/// Why `write` did not send the bytes.
#[derive(Debug, Clone, PartialEq, Eq)]
pub enum WriteError {
    /// No port handle is held.
    NoPortOpen,
    /// The port refused some of the bytes; the text gives the reason.
    WriteFailed(String),
}

/// Enumerating the system's serial ports failed.
#[derive(Debug, Clone, PartialEq, Eq)]
pub struct EnumerationError {
    /// What the operating system reported.
    pub reason: String,
}

/// Text of an `OpenFailed` error for a port name and a reason.
pub open spec fn open_failed_text(port_name: Seq<char>, reason: Seq<char>) -> Seq<char> {
    "Failed to open "@ + port_name + ": "@ + reason
}

/// Text of a `WriteFailed` error for a reason.
pub open spec fn write_failed_text(reason: Seq<char>) -> Seq<char> {
    "Write failed: "@ + reason
}

/// Builds the text of an `OpenFailed` error.
pub fn open_failed_message(port_name: &str, reason: &str) -> (r: String)
    ensures
        r@ == open_failed_text(port_name@, reason@),
{
    let mut m = String::from_str("Failed to open ");
    m.append(port_name);
    m.append(": ");
    m.append(reason);
    proof {
        reveal_strlit("Failed to open ");
        reveal_strlit(": ");
    }
    m
}

/// Builds the text of a `WriteFailed` error.
pub fn write_failed_message(reason: &str) -> (r: String)
    ensures
        r@ == write_failed_text(reason@),
{
    let mut m = String::from_str("Write failed: ");
    m.append(reason);
    proof {
        reveal_strlit("Write failed: ");
    }
    m
}

impl ConnectError {
    /// The error as text.
    pub fn message(&self) -> (r: String)
        ensures
            match self {
                ConnectError::AlreadyConnected => r@ == "Already connected"@,
                ConnectError::OpenFailed(t) => r@ == t@,
            },
    {
        match self {
            ConnectError::AlreadyConnected => String::from_str("Already connected"),
            ConnectError::OpenFailed(t) => t.clone(),
        }
    }
}

impl DisconnectError {
    /// The error as text.
    pub fn message(&self) -> (r: String)
        ensures
            r@ == "Not connected"@,
    {
        String::from_str("Not connected")
    }
}

impl WriteError {
    /// The error as text.
    pub fn message(&self) -> (r: String)
        ensures
            match self {
                WriteError::NoPortOpen => r@ == "No port open"@,
                WriteError::WriteFailed(t) => r@ == t@,
            },
    {
        match self {
            WriteError::NoPortOpen => String::from_str("No port open"),
            WriteError::WriteFailed(t) => t.clone(),
        }
    }
}

impl EnumerationError {
    /// The error as text: what the operating system reported.
    pub fn message(&self) -> (r: String)
        ensures
            r@ == self.reason@,
    {
        self.reason.clone()
    }
}

} // verus!
