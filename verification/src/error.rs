//! Errors of the service crate, with the level that tells a spawner whether to suspend the
//! service, end it, or stop the program.
use vstd::prelude::*;

verus! {

/// How a failed channel poll failed.
#[derive(Clone, Copy, Debug, PartialEq, Eq, Structural)]
pub enum TryRecvFailure {
    /// nothing was ready
    Empty,
    /// every sender is gone
    Disconnected,
}

/// An io error of std (`std::io::Error`), carried through as it is.
#[verifier::external_type_specification]
#[verifier::external_body]
pub struct ExIoError(std::io::Error);

/// Calls `std::io::Error::kind` and tells whether it is `std::io::ErrorKind::WouldBlock`.
/// Nothing is claimed of the result: no name over an io error can be given.
#[verifier::external_body]
fn io_would_block(e: &std::io::Error) -> bool {
    e.kind() == std::io::ErrorKind::WouldBlock
}

/// Formats an io error with its `Debug` impl. Nothing is claimed of the text.
#[verifier::external_body]
fn io_debug_text(e: &std::io::Error) -> String {
    format!("{:?}", e)
}

/// The kinds of error of this crate.
#[derive(Debug)]
pub enum ErrorKind {
    /// a plain message
    Msg(String),
    /// a blocking channel receive failed
    ChannelRecv,
    /// a non blocking channel receive failed
    ChannelTryRecv(TryRecvFailure),
    /// a channel send failed, with the description of the failure
    ChannelSend(String),
    /// a bug, should not happen
    Bug(String),
    /// a panic error
    Panic(String),
    /// an io error that is not a would block
    Io(std::io::Error),
    /// the service has to yield
    Yield,
    /// end of service
    EndService,
}

/// An error of this crate.
#[derive(Debug)]
pub struct Error {
    pub kind: ErrorKind,
}

/// Result type of this crate.
pub type Result<T> = core::result::Result<T, Error>;

/// What a spawner does with an error.
#[derive(Debug, Clone, Eq, PartialEq, Copy, Structural)]
pub enum ErrorLevel {
    /// end program
    Panic,
    /// end current action but do not halt program (propagate or shut action (close connection or
    /// retry connect...)
    ShutAction,
    /// error is expected and should not end process
    Yield,
}

impl ErrorKind {
    /// The level of an error kind: bugs and panics end the program, a yield suspends the
    /// service, everything else ends the current action.
    pub open spec fn spec_level(self) -> ErrorLevel {
        match self {
            ErrorKind::Bug(_) | ErrorKind::Panic(_) => ErrorLevel::Panic,
            ErrorKind::Yield => ErrorLevel::Yield,
            _ => ErrorLevel::ShutAction,
        }
    }

    pub fn level(&self) -> (r: ErrorLevel)
        ensures
            r == self.spec_level(),
            r == ErrorLevel::Panic <==> (self is Bug || self is Panic),
            r == ErrorLevel::Yield <==> self is Yield,
    {
        match *self {
            ErrorKind::Bug(_) => ErrorLevel::Panic,
            ErrorKind::Panic(_) => ErrorLevel::Panic,
            ErrorKind::ChannelSend(_) => ErrorLevel::ShutAction,
            ErrorKind::ChannelRecv => ErrorLevel::ShutAction,
            ErrorKind::ChannelTryRecv(_) => ErrorLevel::ShutAction,
            ErrorKind::Msg(_) => ErrorLevel::ShutAction,
            ErrorKind::Yield => ErrorLevel::Yield,
            ErrorKind::EndService => ErrorLevel::ShutAction,
            ErrorKind::Io(_) => ErrorLevel::ShutAction,
        }
    }

    /// The text that shows the error kind, where `io_text` is the debug text of an io error.
    pub open spec fn spec_display(self, io_text: Seq<char>) -> Seq<char> {
        match self {
            ErrorKind::Msg(m) => m@,
            ErrorKind::ChannelRecv => "receiving on a closed channel"@,
            ErrorKind::ChannelTryRecv(TryRecvFailure::Empty) => "receiving on an empty channel"@,
            ErrorKind::ChannelTryRecv(TryRecvFailure::Disconnected) => "receiving on a closed channel"@,
            ErrorKind::ChannelSend(t) => "Channel send error: '"@ + t@ + "'"@,
            ErrorKind::Bug(t) => "Bug: '"@ + t@ + "'"@,
            ErrorKind::Panic(t) => "Panic: '"@ + t@ + "'"@,
            ErrorKind::Io(_) => "Io: '"@ + io_text + "'"@,
            ErrorKind::Yield => "Yield"@,
            ErrorKind::EndService => "EndService"@,
        }
    }

    /// The text that shows the error kind: the message of a plain message, the text of the
    /// channel error, or the kind's name with its text (for an io error, its debug text).
    pub fn display_string(&self) -> (r: String)
        ensures
            exists|io_text: Seq<char>| r@ == #[trigger] self.spec_display(io_text),
    {
        let r = match self {
            ErrorKind::Msg(m) => m.clone(),
            ErrorKind::ChannelRecv => String::from_str("receiving on a closed channel"),
            ErrorKind::ChannelTryRecv(TryRecvFailure::Empty) => String::from_str("receiving on an empty channel"),
            ErrorKind::ChannelTryRecv(TryRecvFailure::Disconnected) => String::from_str(
                "receiving on a closed channel",
            ),
            ErrorKind::ChannelSend(t) => String::from_str("Channel send error: '").concat(t.as_str()).concat("'"),
            ErrorKind::Bug(t) => String::from_str("Bug: '").concat(t.as_str()).concat("'"),
            ErrorKind::Panic(t) => String::from_str("Panic: '").concat(t.as_str()).concat("'"),
            ErrorKind::Io(e) => {
                let t = io_debug_text(e);
                let r = String::from_str("Io: '").concat(t.as_str()).concat("'");
                assert(r@ == self.spec_display(t@));
                r
            },
            ErrorKind::Yield => String::from_str("Yield"),
            ErrorKind::EndService => String::from_str("EndService"),
        };
        proof {
            if !(*self is Io) {
                assert(r@ == self.spec_display(Seq::empty()));
            }
        }
        r
    }

    /// Wraps the kind into an error.
    pub fn into_error(self) -> (e: Error)
        ensures
            e.kind == self,
    {
        Error { kind: self }
    }
}

impl Error {
    pub open spec fn spec_level(self) -> ErrorLevel {
        self.kind.spec_level()
    }

    /// The level of the error, that of its kind.
    #[inline]
    pub fn level(&self) -> (r: ErrorLevel)
        ensures
            r == self.spec_level(),
            r == self.kind.spec_level(),
    {
        self.kind.level()
    }

    /// The text that shows the error, that of its kind.
    pub fn display_string(&self) -> (r: String)
        ensures
            exists|io_text: Seq<char>| r@ == #[trigger] self.kind.spec_display(io_text),
    {
        self.kind.display_string()
    }

    /// The kind of the error.
    pub fn kind(&self) -> (k: &ErrorKind)
        ensures
            *k == self.kind,
    {
        &self.kind
    }

    /// The error for a channel send that failed, from the description of the failure.
    pub fn from_send_failure(description: String) -> (e: Error)
        ensures
            e.kind == ErrorKind::ChannelSend(description),
            e.spec_level() == ErrorLevel::ShutAction,
    {
        Error { kind: ErrorKind::ChannelSend(description) }
    }

    /// The error for an io failure.
    pub open spec fn spec_from_io(would_block: bool, e: std::io::Error) -> Error {
        if would_block {
            Error { kind: ErrorKind::Yield }
        } else {
            Error { kind: ErrorKind::Io(e) }
        }
    }

    /// The error for an io failure, given whether its kind is would block: a would block
    /// failure asks the service to yield, any other is kept as it is.
    pub fn from_io_failure(would_block: bool, e: std::io::Error) -> (r: Error)
        ensures
            r == Error::spec_from_io(would_block, e),
            would_block ==> r.kind is Yield,
            !would_block ==> r.kind == ErrorKind::Io(e),
            r.spec_level() == (if would_block { ErrorLevel::Yield } else { ErrorLevel::ShutAction }),
    {
        if would_block {
            Error { kind: ErrorKind::Yield }
        } else {
            Error { kind: ErrorKind::Io(e) }
        }
    }

    /// The error for an io error: a yield when its kind is would block, else the io error
    /// itself. Which of the two rests on the kind that std gives, which is not stated here.
    pub fn from_io(e: std::io::Error) -> (r: Error)
        ensures
            r == Error::spec_from_io(true, e) || r == Error::spec_from_io(false, e),
            r.kind is Yield || r.kind == ErrorKind::Io(e),
            r.kind is Yield <==> r.spec_level() == ErrorLevel::Yield,
            r.kind is Io <==> r.spec_level() == ErrorLevel::ShutAction,
    {
        let would_block = io_would_block(&e);
        Error::from_io_failure(would_block, e)
    }

    /// The error for a channel poll that failed.
    pub fn from_try_recv(failure: TryRecvFailure) -> (e: Error)
        ensures
            e.kind == ErrorKind::ChannelTryRecv(failure),
            e.spec_level() == ErrorLevel::ShutAction,
    {
        Error { kind: ErrorKind::ChannelTryRecv(failure) }
    }
}

impl From<ErrorKind> for Error {
    fn from(kind: ErrorKind) -> (e: Error) {
        Error { kind }
    }
}

impl vstd::std_specs::convert::FromSpecImpl<ErrorKind> for Error {
    open spec fn obeys_from_spec() -> bool {
        true
    }

    open spec fn from_spec(v: ErrorKind) -> Error {
        Error { kind: v }
    }
}

} // verus!
