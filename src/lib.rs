//! Connection lifecycle for a serial-port bridge: the shared connection
//! state with its connect / disconnect / write transitions, and the
//! decisions of the background reader that forwards incoming bytes.
pub mod error;
pub mod manager;
pub mod reader;

pub use error::{
    open_failed_message, write_failed_message, ConnectError, DisconnectError, EnumerationError,
    WriteError,
};
pub use manager::{finish_write, SerialState};
pub use reader::{
    keep_polling, on_read, run_reader, Poll, ReadResult, ReaderStep, READ_BUFFER_LEN,
    READ_TIMEOUT_MS,
};
