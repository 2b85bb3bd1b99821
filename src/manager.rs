//! The connection manager: at most one open port handle and the flag that
//! says whether a connection (and with it a reader) is active.
//!
//! The handle type `H` is chosen by the host; for a real port it holds the
//! OS handle and the stop signal of the reader that serves it. Opening,
//! writing and closing are done by the host with the values these
//! transitions hand out and take back.
use vstd::prelude::*;
use crate::error::{
    open_failed_message, open_failed_text, write_failed_message, write_failed_text, ConnectError,
    DisconnectError, WriteError,
};

verus! {

/// The abstract connection state.
pub ghost struct ConnView<H> {
    pub running: bool,
    pub port: Option<H>,
}

impl<H> ConnView<H> {
    /// A handle is held exactly when a connection is active.
    pub open spec fn wf(self) -> bool {
        self.running <==> self.port is Some
    }
}

/// The state before any connection: no handle, not running.
pub open spec fn fresh<H>() -> ConnView<H> {
    ConnView { running: false, port: None }
}

/// The state of an active connection over the handle `h`.
pub open spec fn connected_with<H>(h: H) -> ConnView<H> {
    ConnView { running: true, port: Some(h) }
}

/// `connect` on state `s`, with `opened` the outcome of opening the port
/// named `port_name`, leaves state `t` and returns `r`.
pub open spec fn connect_post<H>(
    s: ConnView<H>,
    port_name: Seq<char>,
    opened: Result<H, String>,
    t: ConnView<H>,
    r: Result<(), ConnectError>,
) -> bool {
    if s.running {
        r == Err::<(), ConnectError>(ConnectError::AlreadyConnected) && t == s
    } else {
        match opened {
            Ok(h) => r == Ok::<(), ConnectError>(()) && t == connected_with(h),
            Err(reason) => t == s && match r {
                Err(ConnectError::OpenFailed(m)) => m@ == open_failed_text(port_name, reason@),
                _ => false,
            },
        }
    }
}

/// `disconnect` on state `s` leaves state `t` and returns `r`, which holds
/// the released handle on success.
pub open spec fn disconnect_post<H>(
    s: ConnView<H>,
    t: ConnView<H>,
    r: Result<H, DisconnectError>,
) -> bool {
    if s.running {
        t == fresh::<H>() && s.port == Some(r->Ok_0) && r is Ok
    } else {
        r == Err::<H, DisconnectError>(DisconnectError::NotConnected) && t == s
    }
}

/// Asking for the handle to write on, in state `s`, leaves state `t`;
/// `granted` says whether the handle was handed out.
pub open spec fn write_access_post<H>(s: ConnView<H>, t: ConnView<H>, granted: bool) -> bool {
    if s.port is Some {
        granted && t.running == s.running && t.port is Some
    } else {
        !granted && t == s
    }
}

/// The connection state shared by the bridge's operations. A connection is
/// active exactly while a handle is stored, so the flag is read off the
/// handle and the two cannot disagree.
pub struct SerialState<H> {
    port: Option<H>,
}

impl<H> View for SerialState<H> {
    type V = ConnView<H>;

    closed spec fn view(&self) -> ConnView<H> {
        ConnView { running: self.port is Some, port: self.port }
    }
}

impl<H> SerialState<H> {
    /// A state with no connection.
    pub fn new() -> (r: Self)
        ensures
            r@ == fresh::<H>(),
    {
        SerialState { port: None }
    }

    /// Whether a connection is active.
    pub fn is_running(&self) -> (r: bool)
        ensures
            r == self@.running,
    {
        self.port.is_some()
    }

    /// Whether a port handle is held.
    pub fn has_port(&self) -> (r: bool)
        ensures
            r == self@.port is Some,
    {
        self.port.is_some()
    }

    /// The check made before a port is opened: a second connection is
    /// refused while one is active.
    pub fn check_connect(&self) -> (r: Result<(), ConnectError>)
        ensures
            r is Err <==> self@.running,
            r is Err ==> r == Err::<(), ConnectError>(ConnectError::AlreadyConnected),
    {
        if self.port.is_some() {
            Err(ConnectError::AlreadyConnected)
        } else {
            Ok(())
        }
    }

    /// Completes `connect` with the outcome of opening the port named
    /// `port_name`. An open handle becomes the connection's handle; a failure
    /// leaves the state as it was. While a connection is active the state
    /// is kept and a newly opened handle is dropped.
    pub fn connect(&mut self, port_name: &str, opened: Result<H, String>) -> (r: Result<
        (),
        ConnectError,
    >)
        ensures
            connect_post(old(self)@, port_name@, opened, final(self)@, r),
            final(self)@.wf(),
    {
        if self.port.is_some() {
            return Err(ConnectError::AlreadyConnected);
        }
        match opened {
            Ok(h) => {
                self.port = Some(h);
                Ok(())
            },
            Err(reason) => Err(ConnectError::OpenFailed(open_failed_message(port_name, &reason))),
        }
    }

    /// Ends the active connection: clears the flag and hands the stored
    /// handle back to the caller, who closes it and stops its reader.
    pub fn disconnect(&mut self) -> (r: Result<H, DisconnectError>)
        ensures
            disconnect_post(old(self)@, final(self)@, r),
            final(self)@.wf(),
    {
        match self.port.take() {
            Some(h) => Ok(h),
            None => Err(DisconnectError::NotConnected),
        }
    }

    /// The handle to write on, or `NoPortOpen` when none is held.
    pub fn port_for_write(&mut self) -> (r: Result<&mut H, WriteError>)
        ensures
            write_access_post(old(self)@, final(self)@, r is Ok),
            final(self)@.wf(),
            old(self)@.port is None ==> r == Err::<&mut H, WriteError>(WriteError::NoPortOpen),
            r is Ok ==> old(self)@.port == Some(*r->Ok_0) && final(self)@ == (ConnView {
                running: old(self)@.running,
                port: Some(*final(r->Ok_0)),
            }),
    {
        match self.port.as_mut() {
            Some(h) => Ok(h),
            None => Err(WriteError::NoPortOpen),
        }
    }
}

impl<H> Default for SerialState<H> {
    /// A state with no connection.
    fn default() -> (r: Self)
        ensures
            r@ == fresh::<H>(),
    {
        SerialState::new()
    }
}

/// Maps the outcome of writing the bytes to the result of `write`.
pub fn finish_write(outcome: Result<(), String>) -> (r: Result<(), WriteError>)
    ensures
        outcome is Ok <==> r is Ok,
        outcome is Err ==> match r {
            Err(WriteError::WriteFailed(m)) => m@ == write_failed_text(outcome->Err_0@),
            _ => false,
        },
{
    match outcome {
        Ok(()) => Ok(()),
        Err(reason) => Err(WriteError::WriteFailed(write_failed_message(&reason))),
    }
}

/// Every abstract state that a `SerialState` can have satisfies `wf`.
pub proof fn lemma_view_wf<H>(s: &SerialState<H>)
    ensures
        s@.wf(),
{
}

/// A successful `connect` followed at once by a second `connect`, whatever
/// the second open gave, is refused with `AlreadyConnected`, and the handle
/// of the first stays in place.
pub proof fn lemma_second_connect_refused<H>(
    s0: ConnView<H>,
    name1: Seq<char>,
    opened1: Result<H, String>,
    s1: ConnView<H>,
    r1: Result<(), ConnectError>,
    name2: Seq<char>,
    opened2: Result<H, String>,
    s2: ConnView<H>,
    r2: Result<(), ConnectError>,
)
    requires
        connect_post(s0, name1, opened1, s1, r1),
        r1 is Ok,
        connect_post(s1, name2, opened2, s2, r2),
    ensures
        r2 == Err::<(), ConnectError>(ConnectError::AlreadyConnected),
        s2 == s1,
        s2.port == Some(opened1->Ok_0),
{
}

/// `disconnect` on a state that was never connected is refused with
/// `NotConnected` and changes nothing.
pub proof fn lemma_disconnect_never_connected<H>(t: ConnView<H>, r: Result<H, DisconnectError>)
    requires
        disconnect_post(fresh::<H>(), t, r),
    ensures
        r == Err::<H, DisconnectError>(DisconnectError::NotConnected),
        t == fresh::<H>(),
{
}

/// Asking to write before any connection is refused (with `NoPortOpen`,
/// by the contract of `port_for_write`) and changes nothing.
pub proof fn lemma_write_never_connected<H>(t: ConnView<H>, granted: bool)
    requires
        write_access_post(fresh::<H>(), t, granted),
    ensures
        !granted,
        t == fresh::<H>(),
{
}

/// Connecting, writing, disconnecting and connecting again all succeed;
/// the disconnect leaves the state as it was before the first connect, and
/// the second connect holds only its own handle.
pub proof fn lemma_reconnect_cycle<H>(
    name1: Seq<char>,
    h1: H,
    s1: ConnView<H>,
    r1: Result<(), ConnectError>,
    s2: ConnView<H>,
    granted: bool,
    s3: ConnView<H>,
    r3: Result<H, DisconnectError>,
    name2: Seq<char>,
    h2: H,
    s4: ConnView<H>,
    r4: Result<(), ConnectError>,
)
    requires
        connect_post(fresh::<H>(), name1, Ok::<H, String>(h1), s1, r1),
        write_access_post(s1, s2, granted),
        disconnect_post(s2, s3, r3),
        connect_post(s3, name2, Ok::<H, String>(h2), s4, r4),
    ensures
        r1 is Ok,
        granted,
        r3 is Ok,
        s3 == fresh::<H>(),
        r4 is Ok,
        s4 == connected_with(h2),
{
}

/// Once connected, `disconnect` succeeds and clears the state, whatever
/// became of the reader meanwhile: the reader never changes this state.
pub proof fn lemma_disconnect_after_connect<H>(
    s0: ConnView<H>,
    name: Seq<char>,
    opened: Result<H, String>,
    s1: ConnView<H>,
    r1: Result<(), ConnectError>,
    s2: ConnView<H>,
    r2: Result<H, DisconnectError>,
)
    requires
        connect_post(s0, name, opened, s1, r1),
        r1 is Ok,
        disconnect_post(s1, s2, r2),
    ensures
        r2 == Ok::<H, DisconnectError>(opened->Ok_0),
        s2 == fresh::<H>(),
{
}

} // verus!
