//! One connection, from the bytes it sent to the bytes it is sent.
//!
//! A connection carries one exchange: it is read once, answered once and
//! closed. The socket and the files are somebody else's business. This
//! module holds the decisions: told what has happened on a connection, it
//! says what is to happen next.

use vstd::prelude::*;
use crate::error::ErrorKind;
use crate::response::{Response, ResponseView, Status};
use crate::serve::{
    answer_read, answer_write, plan, plan_for, read_response, write_response, Action, ActionView,
};
use crate::store::ServerConfig;

verus! {

/// The most bytes that a request may span: the one read of a connection
/// asks for no more, and what did not arrive with it is not waited for.
pub const MAX_REQUEST_LEN: usize = 4096;

/// Where a connection stands.
#[derive(Clone, Copy, Debug, PartialEq, Eq, Structural)]
pub enum Phase {
    /// Nothing has been read yet.
    AwaitingRequest,
    /// A file is being read for the client.
    AwaitingRead,
    /// A file is being written for the client.
    AwaitingWrite,
    /// The exchange is over.
    Closed,
}

/// What has happened on a connection.
#[derive(Clone, Debug, PartialEq, Eq)]
pub enum Event {
    /// The read of the socket gave these bytes.
    Received(Vec<u8>),
    /// The file that was asked for holds these bytes.
    FileRead(Vec<u8>),
    /// The file was written.
    FileWritten,
    /// Something failed.
    Failed(ErrorKind),
}

/// An event as plain values.
pub enum EventView {
    Received(Seq<u8>),
    FileRead(Seq<u8>),
    FileWritten,
    Failed(ErrorKind),
}

impl View for Event {
    type V = EventView;

    open spec fn view(&self) -> EventView {
        match self {
            Event::Received(bytes) => EventView::Received(bytes@),
            Event::FileRead(bytes) => EventView::FileRead(bytes@),
            Event::FileWritten => EventView::FileWritten,
            Event::Failed(kind) => EventView::Failed(*kind),
        }
    }
}

/// What is to happen next on a connection.
#[derive(Clone, Debug, PartialEq, Eq)]
pub enum Command {
    /// Read the file at `path` and report `FileRead`, or `Failed` with
    /// `StorageFailure`.
    ReadFile { path: Vec<u8> },
    /// Write `contents` to the file at `path`, creating it or replacing
    /// what it held, and report `FileWritten`, or `Failed` with
    /// `StorageFailure`.
    WriteFile { path: Vec<u8>, contents: Vec<u8> },
    /// Write all of `bytes` to the socket, then close it.
    Send { bytes: Vec<u8> },
    /// Close the socket without writing anything.
    Close,
}

/// A command as plain values.
pub enum CommandView {
    ReadFile { path: Seq<u8> },
    WriteFile { path: Seq<u8>, contents: Seq<u8> },
    Send { bytes: Seq<u8> },
    Close,
}

impl View for Command {
    type V = CommandView;

    open spec fn view(&self) -> CommandView {
        match self {
            Command::ReadFile { path } => CommandView::ReadFile { path: path@ },
            Command::WriteFile { path, contents } => CommandView::WriteFile {
                path: path@,
                contents: contents@,
            },
            Command::Send { bytes } => CommandView::Send { bytes: bytes@ },
            Command::Close => CommandView::Close,
        }
    }
}

/// Sending a response ends the exchange.
pub open spec fn send(response: ResponseView) -> (Phase, CommandView) {
    (Phase::Closed, CommandView::Send { bytes: response.wire() })
}

/// How an action is set about: a response is sent, and a file operation
/// is commanded and waited for.
pub open spec fn begin(action: ActionView) -> (Phase, CommandView) {
    match action {
        ActionView::Respond(response) => send(response),
        ActionView::ReadFile { path } => (Phase::AwaitingRead, CommandView::ReadFile { path }),
        ActionView::WriteFile { path, contents } => (
            Phase::AwaitingWrite,
            CommandView::WriteFile { path, contents },
        ),
    }
}

/// What a failure leads to.
///
/// A request that cannot be read is answered with `400 Bad Request`. A
/// file that cannot be read is answered with `404 Not Found`, one that
/// cannot be written with `500 Internal Server Error`. A failure of the
/// socket, and any failure that does not belong to the phase, closes the
/// connection unanswered. No failure reaches beyond its own connection.
pub open spec fn fail(phase: Phase, kind: ErrorKind) -> (Phase, CommandView) {
    match (phase, kind) {
        (Phase::AwaitingRequest, ErrorKind::MalformedRequest) => send(
            ResponseView::bare(Status::BadRequest),
        ),
        (Phase::AwaitingRequest, ErrorKind::UnsupportedMethod) => send(
            ResponseView::bare(Status::BadRequest),
        ),
        (Phase::AwaitingRequest, ErrorKind::InvalidEncoding) => send(
            ResponseView::bare(Status::BadRequest),
        ),
        (Phase::AwaitingRead, ErrorKind::StorageFailure) => send(read_response(None)),
        (Phase::AwaitingWrite, ErrorKind::StorageFailure) => send(write_response(false)),
        _ => (Phase::Closed, CommandView::Close),
    }
}

/// The next phase and the command, given the phase and what happened.
///
/// An event that does not belong to the phase closes the connection, and
/// once closed it stays closed.
pub open spec fn step_of(base: Seq<u8>, phase: Phase, event: EventView) -> (Phase, CommandView) {
    match (phase, event) {
        (Phase::AwaitingRequest, EventView::Received(buffer)) => begin(plan_for(base, buffer)),
        (Phase::AwaitingRead, EventView::FileRead(contents)) => send(
            read_response(Some(contents)),
        ),
        (Phase::AwaitingWrite, EventView::FileWritten) => send(write_response(true)),
        (_, EventView::Failed(kind)) => fail(phase, kind),
        _ => (Phase::Closed, CommandView::Close),
    }
}

/// The commands that a run of events draws, from a given phase on.
pub open spec fn run(base: Seq<u8>, phase: Phase, events: Seq<EventView>) -> Seq<CommandView>
    decreases events.len(),
{
    if events.len() == 0 {
        seq![]
    } else {
        let (next, command) = step_of(base, phase, events[0]);
        seq![command] + run(base, next, events.drop_first())
    }
}

/// How many of the commands send a response.
pub open spec fn sends(commands: Seq<CommandView>) -> nat
    decreases commands.len(),
{
    if commands.len() == 0 {
        0
    } else {
        sends(commands.drop_last()) + if commands.last() is Send {
            1nat
        } else {
            0nat
        }
    }
}

fn send_response(response: Response) -> (next: (Phase, Command))
    ensures
        (next.0, next.1@) == send(response@),
{
    (Phase::Closed, Command::Send { bytes: response.to_bytes() })
}

/// Says what is to happen next on a connection in phase `phase` on which
/// `event` has happened.
pub fn step(config: &ServerConfig, phase: Phase, event: Event) -> (next: (Phase, Command))
    ensures
        (next.0, next.1@) == step_of(config@, phase, event@),
{
    match event {
        Event::Received(buffer) => match phase {
            Phase::AwaitingRequest => match plan(config, buffer.as_slice()) {
                Action::Respond(response) => send_response(response),
                Action::ReadFile { path } => (Phase::AwaitingRead, Command::ReadFile { path }),
                Action::WriteFile { path, contents } => (
                    Phase::AwaitingWrite,
                    Command::WriteFile { path, contents },
                ),
            },
            _ => (Phase::Closed, Command::Close),
        },
        Event::FileRead(contents) => match phase {
            Phase::AwaitingRead => send_response(answer_read(Some(contents))),
            _ => (Phase::Closed, Command::Close),
        },
        Event::FileWritten => match phase {
            Phase::AwaitingWrite => send_response(answer_write(true)),
            _ => (Phase::Closed, Command::Close),
        },
        Event::Failed(kind) => match (phase, kind) {
            (Phase::AwaitingRequest, ErrorKind::MalformedRequest) => send_response(
                Response::bare(Status::BadRequest),
            ),
            (Phase::AwaitingRequest, ErrorKind::UnsupportedMethod) => send_response(
                Response::bare(Status::BadRequest),
            ),
            (Phase::AwaitingRequest, ErrorKind::InvalidEncoding) => send_response(
                Response::bare(Status::BadRequest),
            ),
            (Phase::AwaitingRead, ErrorKind::StorageFailure) => send_response(answer_read(None)),
            (Phase::AwaitingWrite, ErrorKind::StorageFailure) => send_response(
                answer_write(false),
            ),
            _ => (Phase::Closed, Command::Close),
        },
    }
}

} // verus!
