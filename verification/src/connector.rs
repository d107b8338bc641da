//! Establishing the channel to an agent.
//!
//! The caller opens the transport; the connector decides what follows from
//! each attempt. A named pipe whose server is busy with another client is
//! tried again after a fixed delay, without a limit on the number of
//! attempts: a caller who wants a deadline sets one around the procedure.
//! Every other failure ends the procedure at once.

use vstd::prelude::*;
use crate::client::Client;
use crate::error::IoError;

verus! {

/// The operating system's error code for a named pipe all of whose instances
/// are busy.
pub const ERROR_PIPE_BUSY: i32 = 231;

/// The time to wait before a busy named pipe is tried again, in milliseconds.
pub const RETRY_DELAY_MILLIS: u64 = 50;

/// The kinds of transport over which an agent is reached.
#[derive(Clone, Copy, Debug, PartialEq, Eq, Structural)]
pub enum Transport {
    /// A local-domain socket, addressed by a path.
    LocalSocket,
    /// A TCP socket.
    TcpSocket,
    /// A named pipe, addressed by a path.
    NamedPipe,
}

/// The families of operating system that differ in the transports they offer.
#[derive(Clone, Copy, Debug, PartialEq, Eq, Structural)]
pub enum Platform {
    /// Unix and its kin.
    Unix,
    /// Windows.
    Windows,
    /// Anything else.
    Other,
}

/// Why no channel was established.
#[derive(Clone, Debug, PartialEq, Eq)]
pub enum ConnectError {
    /// The operating system refused the attempt.
    Io(IoError),
    /// The platform does not offer this kind of transport.
    Unsupported(Transport),
}

/// Whether `platform` offers `transport`.
pub open spec fn supported(transport: Transport, platform: Platform) -> bool {
    match transport {
        Transport::LocalSocket => platform == Platform::Unix,
        Transport::TcpSocket => true,
        Transport::NamedPipe => platform == Platform::Windows,
    }
}

/// Whether a failed attempt over `transport` is to be tried again: only a
/// named pipe, and only when it is busy.
pub open spec fn retryable(transport: Transport, error: IoError) -> bool {
    transport == Transport::NamedPipe && error.raw_os_error == Some(ERROR_PIPE_BUSY)
}

impl ConnectError {
    /// The error in words.
    pub open spec fn message(self) -> Seq<char> {
        match self {
            ConnectError::Io(error) => error.message@,
            ConnectError::Unsupported(Transport::NamedPipe) => {
                "Named pipes supported on Windows only"@
            },
            ConnectError::Unsupported(Transport::LocalSocket) => {
                "Local sockets supported on Unix only"@
            },
            ConnectError::Unsupported(Transport::TcpSocket) => {
                "TCP sockets not supported on this platform"@
            },
        }
    }

    /// Describes the error for a reader.
    pub fn describe(&self) -> (text: String)
        ensures
            text@ == self.message(),
    {
        match self {
            ConnectError::Io(error) => error.message.clone(),
            ConnectError::Unsupported(Transport::NamedPipe) => {
                "Named pipes supported on Windows only".to_owned()
            },
            ConnectError::Unsupported(Transport::LocalSocket) => {
                "Local sockets supported on Unix only".to_owned()
            },
            ConnectError::Unsupported(Transport::TcpSocket) => {
                "TCP sockets not supported on this platform".to_owned()
            },
        }
    }
}

/// A connection procedure that has been admitted and has not ended yet.
#[derive(Debug)]
pub struct Connecting {
    transport: Transport,
}

/// What follows from one attempt to open the transport.
#[derive(Debug)]
pub enum Attempt<Stream> {
    /// The channel is open and wrapped into a session.
    Connected(Client<Stream>),
    /// The transport is busy: wait for the given number of milliseconds, then
    /// make the next attempt.
    Retry(Connecting, u64),
    /// The procedure has failed. No channel is held.
    Failed(ConnectError),
}

/// Starts a connection procedure over `transport` on `platform`.
///
/// A transport that the platform does not offer is refused here, before any
/// attempt is made. Otherwise the caller makes an attempt to open the
/// transport and reports it with [`Connecting::attempted`].
pub fn connect(transport: Transport, platform: Platform) -> (start: Result<
    Connecting,
    ConnectError,
>)
    ensures
        supported(transport, platform) ==> (start matches Ok(connecting)
            && connecting.transport() == transport),
        !supported(transport, platform) ==> start == Err::<Connecting, ConnectError>(
            ConnectError::Unsupported(transport),
        ),
{
    let offered = match transport {
        Transport::LocalSocket => platform == Platform::Unix,
        Transport::TcpSocket => true,
        Transport::NamedPipe => platform == Platform::Windows,
    };
    if offered {
        Ok(Connecting { transport })
    } else {
        Err(ConnectError::Unsupported(transport))
    }
}

impl Connecting {
    /// The kind of transport that is being opened.
    pub closed spec fn transport(self) -> Transport {
        self.transport
    }

    /// Takes the outcome of one attempt to open the transport and decides
    /// what follows.
    ///
    /// An open channel ends the procedure with a session around that channel.
    /// A busy named pipe is tried again after [`RETRY_DELAY_MILLIS`]. Any
    /// other failure ends the procedure with that failure.
    pub fn attempted<Stream>(self, outcome: Result<Stream, IoError>) -> (next: Attempt<Stream>)
        ensures
            outcome matches Ok(stream) ==> (next matches Attempt::Connected(client)
                && client.channel() == stream),
            outcome matches Err(error) ==> (retryable(self.transport(), error) ==> next
                == Attempt::<Stream>::Retry(self, RETRY_DELAY_MILLIS)),
            outcome matches Err(error) ==> (!retryable(self.transport(), error) ==> next
                == Attempt::<Stream>::Failed(ConnectError::Io(error))),
    {
        match outcome {
            Ok(stream) => Attempt::Connected(Client::new(stream)),
            Err(error) => {
                let busy = match error.raw_os_error {
                    Some(code) => code == ERROR_PIPE_BUSY,
                    None => false,
                };
                if busy && self.transport == Transport::NamedPipe {
                    Attempt::Retry(self, RETRY_DELAY_MILLIS)
                } else {
                    Attempt::Failed(ConnectError::Io(error))
                }
            },
        }
    }
}

/// How a connection procedure over `transport` ends when its attempts end as
/// `outcomes` lists them, in order, and every attempt is answered as
/// [`Connecting::attempted`] decides: the number of retries made, and the
/// channel or the failure. `None` while the procedure goes on beyond the
/// attempts listed.
pub open spec fn settle<Stream>(transport: Transport, outcomes: Seq<Result<Stream, IoError>>)
    -> Option<(nat, Result<Stream, ConnectError>)>
    decreases outcomes.len(),
{
    if outcomes.len() == 0 {
        None
    } else {
        match outcomes[0] {
            Ok(stream) => Some((0nat, Ok(stream))),
            Err(error) => if retryable(transport, error) {
                match settle(transport, outcomes.skip(1)) {
                    Some((retries, end)) => Some((retries + 1, end)),
                    None => None,
                }
            } else {
                Some((0nat, Err(ConnectError::Io(error))))
            },
        }
    }
}

/// A named pipe that is busy for the first `retries` attempts and opens at
/// the next one is connected after exactly `retries` retries, with the
/// channel of that attempt.
pub proof fn lemma_busy_pipe_is_retried<Stream>(
    outcomes: Seq<Result<Stream, IoError>>,
    retries: nat,
)
    requires
        retries < outcomes.len(),
        forall|i: int|
            0 <= i < retries ==> ((#[trigger] outcomes[i]) matches Err(error)
                && error.raw_os_error == Some(ERROR_PIPE_BUSY)),
        outcomes[retries as int] is Ok,
    ensures
        settle(Transport::NamedPipe, outcomes) == Some(
            (retries, Ok::<Stream, ConnectError>(outcomes[retries as int]->Ok_0)),
        ),
    decreases retries,
{
    if retries > 0 {
        let rest = outcomes.skip(1);
        assert forall|i: int| 0 <= i < retries - 1 implies ((#[trigger] rest[i]) matches Err(error)
            && error.raw_os_error == Some(ERROR_PIPE_BUSY)) by {
            assert(rest[i] == outcomes[i + 1]);
        }
        lemma_busy_pipe_is_retried(rest, (retries - 1) as nat);
    }
}

/// A failure other than a busy named pipe ends the procedure at the first
/// attempt, with that failure and without a retry.
pub proof fn lemma_other_failure_is_final<Stream>(
    transport: Transport,
    outcomes: Seq<Result<Stream, IoError>>,
)
    requires
        outcomes.len() > 0,
        outcomes[0] matches Err(error) && !retryable(transport, error),
    ensures
        settle(transport, outcomes) == Some(
            (0nat, Err::<Stream, ConnectError>(ConnectError::Io(outcomes[0]->Err_0))),
        ),
{
}

/// A socket is given one attempt: the procedure ends there, with the channel
/// or with the failure, whatever the failure is.
pub proof fn lemma_socket_takes_one_attempt<Stream>(
    transport: Transport,
    outcomes: Seq<Result<Stream, IoError>>,
)
    requires
        transport != Transport::NamedPipe,
        outcomes.len() > 0,
    ensures
        settle(transport, outcomes) == Some(
            (
                0nat,
                match outcomes[0] {
                    Ok(stream) => Ok::<Stream, ConnectError>(stream),
                    Err(error) => Err::<Stream, ConnectError>(ConnectError::Io(error)),
                },
            ),
        ),
{
}

} // verus!
