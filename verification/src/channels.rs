//! The per-connection negotiated state, the two-step handshake, and the
//! generic command-dispatch cycle.
//!
//! The raw socket lives with the caller. The caller drives each operation as
//! the protocol orders it — read the greeting line, write a rendered message,
//! read a fixed number of reply lines — and feeds what the transport did into
//! the step functions here, which take every decision: validating the
//! greeting, gating the start step, mapping transport failures to error
//! kinds, and decoding replies.

use vstd::prelude::*;

use crate::commands::parse_start_line;
use crate::commands::response_view;
use crate::commands::StartCommand;
use crate::commands::StartResponse;
use crate::commands::StreamCommand;
use crate::errors::Error;
use crate::errors::ErrorKind;
use crate::text::has_prefix_at;
use crate::text::has_seq_at;

verus! {

/// The protocol version a connection assumes until the start step reports one.
pub const DEFAULT_SONIC_PROTOCOL_VERSION: usize = 1;

/// The I/O buffer size hint of a connection whose mode is not yet set.
pub const UNINITIALIZED_MODE_MAX_BUFFER_SIZE: usize = 200;

/// Channel modes supported by the search backend. Each unlocks a disjoint
/// command vocabulary, owned by the per-mode command catalogues around this
/// crate; the mode value and its legality rules belong here.
#[derive(Debug, Clone, Copy, PartialEq, Eq, Structural)]
pub enum ChannelMode {
    /// Search channel mode: querying and suggesting.
    Search,
    /// Ingest channel mode: pushing, popping and flushing objects.
    Ingest,
    /// Control channel mode: consolidating, backing up and restoring.
    Control,
}

impl ChannelMode {
    /// The canonical textual name of the mode, used on the wire.
    pub open spec fn name(self) -> Seq<char> {
        match self {
            ChannelMode::Search => "search"@,
            ChannelMode::Ingest => "ingest"@,
            ChannelMode::Control => "control"@,
        }
    }

    /// Converts enum to &str
    pub fn to_str(&self) -> (s: &str)
        ensures
            s@ == self.name(),
    {
        match self {
            ChannelMode::Search => "search",
            ChannelMode::Ingest => "ingest",
            ChannelMode::Control => "control",
        }
    }
}

/// Root and heart of this crate: the state negotiated over one connection to
/// the search backend.
///
/// A value exists only between an accepted greeting and the close of the
/// stream it came over. Its mode is unset at first and adopted exactly once,
/// by the start step; the buffer size and protocol version hold their
/// defaults until the same step replaces them with what the server reported.
#[derive(Debug, Clone, Copy, PartialEq, Eq, Structural)]
pub struct SonicStream {
    /// The selected operating mode; `None` until a start command succeeds.
    pub mode: Option<ChannelMode>,
    /// Size hint for the caller's I/O buffering.
    pub max_buffer_size: usize,
    /// The protocol version the server reported.
    pub protocol_version: usize,
}

/// The greeting line announces a server ready to talk: it begins with the
/// fixed greeting token.
pub open spec fn is_greeting(line: Seq<char>) -> bool {
    has_seq_at(line, 0, "CONNECTED"@)
}

/// What the connect step yields on a greeting line: a fresh connection with
/// the default buffer size and protocol version, or `ConnectToServer`.
pub open spec fn greeting_outcome(line: Seq<char>) -> Result<SonicStream, Error> {
    if is_greeting(line) {
        Ok(
            SonicStream {
                mode: None,
                max_buffer_size: UNINITIALIZED_MODE_MAX_BUFFER_SIZE,
                protocol_version: DEFAULT_SONIC_PROTOCOL_VERSION,
            },
        )
    } else {
        Err(Error { kind: ErrorKind::ConnectToServer })
    }
}

/// The reply as the dispatcher's decode step sees it: the accumulated text
/// read, or nothing where a read failed.
pub open spec fn line_view(reply: Option<String>) -> Option<Seq<char>> {
    match reply {
        Some(message) => Some(message@),
        None => None,
    }
}

/// What one dispatch of `command` yields, given what the transport did: a
/// failed write is `WriteToStream`, a failed read is `ReadStream`, and a full
/// reply is handed to the command's own decode step.
pub open spec fn dispatch_outcome<SC: StreamCommand>(
    command: SC,
    wrote: bool,
    reply: Option<Seq<char>>,
) -> Result<<SC::Response as View>::V, Error> {
    if !wrote {
        Err(Error { kind: ErrorKind::WriteToStream })
    } else {
        match reply {
            None => Err(Error { kind: ErrorKind::ReadStream }),
            Some(raw) => command.spec_receive(raw),
        }
    }
}

/// What the whole connect-and-start sequence yields, given the transcript of
/// one exchange with the server: the greeting line read on connect, whether
/// the start message was written, and the reply line read for it. The result
/// is a ready connection, or the first failure encountered.
pub open spec fn handshake_outcome(
    greeting: Seq<char>,
    wrote: bool,
    reply: Option<Seq<char>>,
) -> Result<SonicStream, Error> {
    if !is_greeting(greeting) {
        Err(Error { kind: ErrorKind::ConnectToServer })
    } else if !wrote {
        Err(Error { kind: ErrorKind::WriteToStream })
    } else {
        match reply {
            None => Err(Error { kind: ErrorKind::ReadStream }),
            Some(raw) => match parse_start_line(raw) {
                None => Err(Error { kind: ErrorKind::WrongResponse }),
                Some(response) => Ok(
                    SonicStream {
                        mode: Some(response.mode),
                        max_buffer_size: response.max_buffer_size,
                        protocol_version: response.protocol_version,
                    },
                ),
            },
        }
    }
}

impl SonicStream {
    /// The connect step's decision: a connection exists only behind a
    /// greeting line that begins with the greeting token; anything else is
    /// `ConnectToServer` and yields no connection value.
    pub fn from_greeting(greeting: &str) -> (r: Result<SonicStream, Error>)
        ensures
            r == greeting_outcome(greeting@),
    {
        if has_prefix_at(greeting, 0, "CONNECTED") {
            Ok(
                SonicStream {
                    mode: None,
                    max_buffer_size: UNINITIALIZED_MODE_MAX_BUFFER_SIZE,
                    protocol_version: DEFAULT_SONIC_PROTOCOL_VERSION,
                },
            )
        } else {
            Err(Error::new(ErrorKind::ConnectToServer))
        }
    }

    /// First half of the dispatch cycle, after the caller attempted to write
    /// the rendered message: a failed write ends the dispatch with
    /// `WriteToStream` and asks for no read; only a successful write yields
    /// the number of lines to read.
    pub fn write_step<SC: StreamCommand>(&self, command: &SC, wrote: bool) -> (r: Result<
        usize,
        Error,
    >)
        ensures
            wrote ==> r == Ok::<usize, Error>(command.spec_read_lines()),
            !wrote ==> r == Err::<usize, Error>(Error { kind: ErrorKind::WriteToStream }),
    {
        if wrote {
            Ok(command.read_lines_count())
        } else {
            Err(Error::new(ErrorKind::WriteToStream))
        }
    }

    /// Second half of the dispatch cycle, after the caller read the reply
    /// lines: a failed read ends the dispatch with `ReadStream` and never
    /// reaches the command's decode step; a full reply is decoded by the
    /// command itself and its result passed through unchanged.
    pub fn read_step<SC: StreamCommand>(&self, command: SC, reply: Option<String>) -> (r: Result<
        SC::Response,
        Error,
    >)
        ensures
            response_view(r) == dispatch_outcome(command, true, line_view(reply)),
            reply is None ==> r == Err::<SC::Response, Error>(Error { kind: ErrorKind::ReadStream }),
    {
        match reply {
            Some(message) => command.receive(message),
            None => Err(Error::new(ErrorKind::ReadStream)),
        }
    }

    /// The start step's gate: a start command may be dispatched only while
    /// the mode is unset; on a connection whose mode is already set the step
    /// fails with `RunCommand` and nothing is sent.
    pub fn start_command(&self, mode: ChannelMode, password: String) -> (r: Result<
        StartCommand,
        Error,
    >)
        ensures
            self.mode is None ==> r == Ok::<StartCommand, Error>((StartCommand { mode, password })),
            self.mode is Some ==> r == Err::<StartCommand, Error>(
                Error { kind: ErrorKind::RunCommand },
            ),
    {
        if self.mode.is_some() {
            return Err(Error::new(ErrorKind::RunCommand));
        }
        Ok(StartCommand { mode, password })
    }

    /// The start step's adoption: on the start command's success, the three
    /// values the server confirmed become the connection's state, exactly
    /// once. On a connection whose mode is already set the step fails with
    /// `RunCommand` and every negotiated value stays as it was.
    pub fn apply_start(&mut self, response: StartResponse) -> (r: Result<(), Error>)
        ensures
            old(self).mode is None ==> r == Ok::<(), Error>(()) && *final(self) == (SonicStream {
                mode: Some(response.mode),
                max_buffer_size: response.max_buffer_size,
                protocol_version: response.protocol_version,
            }),
            old(self).mode is Some ==> r == Err::<(), Error>(Error { kind: ErrorKind::RunCommand })
                && *final(self) == *old(self),
    {
        if self.mode.is_some() {
            return Err(Error::new(ErrorKind::RunCommand));
        }
        self.max_buffer_size = response.max_buffer_size;
        self.protocol_version = response.protocol_version;
        self.mode = Some(response.mode);
        Ok(())
    }
}

/// Failures short-circuit the dispatch cycle in write-then-read order: a
/// dispatch whose write step fails yields `WriteToStream` and its outcome is
/// the same whatever reply would have been read; a dispatch whose read step
/// fails yields `ReadStream` and its outcome is the same whatever the command
/// would decode.
pub proof fn lemma_dispatch_short_circuits<SC: StreamCommand>(
    command: SC,
    reply: Option<Seq<char>>,
    other: Option<Seq<char>>,
)
    ensures
        dispatch_outcome(command, false, reply) == Err::<<SC::Response as View>::V, Error>(
            Error { kind: ErrorKind::WriteToStream },
        ),
        dispatch_outcome(command, false, reply) == dispatch_outcome(command, false, other),
        dispatch_outcome(command, true, None::<Seq<char>>) == Err::<
            <SC::Response as View>::V,
            Error,
        >(Error { kind: ErrorKind::ReadStream }),
{
}

/// Round trip: a command whose decode step maps its own rendered message back
/// to a value is dispatched to exactly that value whenever the transport
/// echoes the written message.
pub proof fn lemma_dispatch_echo_round_trip<SC: StreamCommand>(
    command: SC,
    value: <SC::Response as View>::V,
)
    requires
        command.spec_receive(command.spec_message()) == Ok::<<SC::Response as View>::V, Error>(
            value,
        ),
    ensures
        dispatch_outcome(command, true, Some(command.spec_message())) == Ok::<
            <SC::Response as View>::V,
            Error,
        >(value),
{
}

/// The handshake is no special case of the wire protocol: its outcome is the
/// greeting step, then the generic dispatch of a start command, then the
/// adoption of the parsed reply — whatever start command is dispatched.
pub proof fn lemma_handshake_is_the_steps(
    command: StartCommand,
    greeting: Seq<char>,
    wrote: bool,
    reply: Option<Seq<char>>,
)
    ensures
        handshake_outcome(greeting, wrote, reply) == (match greeting_outcome(greeting) {
            Err(e) => Err::<SonicStream, Error>(e),
            Ok(_) => match dispatch_outcome(command, wrote, reply) {
                Err(e) => Err::<SonicStream, Error>(e),
                Ok(response) => Ok::<SonicStream, Error>(
                    SonicStream {
                        mode: Some(response.mode),
                        max_buffer_size: response.max_buffer_size,
                        protocol_version: response.protocol_version,
                    },
                ),
            },
        }),
{
}

/// For every supported mode: a handshake whose greeting is accepted and whose
/// start reply confirms mode `m` with protocol version `p` and buffer size
/// `b` yields a ready connection recording exactly `m`, `p` and `b`.
pub proof fn lemma_handshake_adopts_reply(
    greeting: Seq<char>,
    reply: Seq<char>,
    response: StartResponse,
)
    requires
        is_greeting(greeting),
        parse_start_line(reply) == Some(response),
    ensures
        handshake_outcome(greeting, true, Some(reply)) == Ok::<SonicStream, Error>(
            SonicStream {
                mode: Some(response.mode),
                max_buffer_size: response.max_buffer_size,
                protocol_version: response.protocol_version,
            },
        ),
{
}

} // verus!
