//! The two ends of the bridge between the interface and the worker: how the
//! interface waits for the connection, and what the worker does step by
//! step.

use crate::error::ArchiveError;
use vstd::prelude::*;

pub mod request;

pub use request::{Answer, Call, DataType, Handler, Message, Request, Step};

verus! {

/// What a message means to an interface that waits for the worker's
/// connection.
#[derive(Debug, PartialEq, Eq)]
pub enum Handshake {
    /// The connection stands: the interface can start.
    Connected,
    /// The connection failed: the interface cannot start.
    Failed(ArchiveError),
    /// The message is none of the two and is dropped; the wait goes on.
    Waiting,
}

/// Reads a message that arrives while the interface waits for the worker's
/// connection.
pub fn handshake(message: Message) -> (r: Handshake)
    ensures
        r == match message {
            Message::Connected => Handshake::Connected,
            Message::Error(error) => Handshake::Failed(error),
            _ => Handshake::Waiting,
        },
{
    match message {
        Message::Connected => Handshake::Connected,
        Message::Error(error) => Handshake::Failed(error),
        _ => Handshake::Waiting,
    }
}

/// Where the worker stands.
#[derive(Debug, PartialEq, Eq)]
pub enum Worker {
    /// It connects to the archive.
    Connecting,
    /// It tells the interface that the connection stands.
    Greeting,
    /// It tells the interface that the connection failed, and stops then.
    Failing,
    /// It waits for the next request.
    Idle,
    /// It handles a request and waits for the answer to a call.
    Handling(Handler),
    /// It sends the message that closes a request.
    Replying,
    /// It has stopped for good.
    Stopped,
}

/// What the worker is to do next.
#[derive(Debug, PartialEq, Eq)]
pub enum Action {
    /// Wait for the next request.
    Receive,
    /// Make the call and come back with its answer.
    Ask(Call),
    /// Send the message to the interface and come back with whether it went
    /// out.
    Send(Message),
    Stop,
}

/// What happened to the worker.
#[derive(Debug, PartialEq, Eq)]
pub enum Event {
    /// The attempt to connect to the archive ended.
    Connection(Result<(), ArchiveError>),
    /// A request arrived, or the interface is gone.
    Request(Option<Request>),
    /// A call was answered.
    Answer(Answer),
    /// A message went out, or could not.
    Sent(bool),
}

impl Worker {
    /// The worker begins by connecting to the archive.
    pub fn new() -> (r: Self)
        ensures
            r == Worker::Connecting,
    {
        Worker::Connecting
    }

    /// `next` and `action` are what `event` leads to where the worker stands
    /// at `self`. The worker takes one request at a time, and goes back to
    /// waiting once the message that closes it went out. It stops when the
    /// connection fails, when the interface is gone, when a message cannot
    /// go out, and on an event that cannot happen where it stands.
    pub open spec fn steps(self, event: Event, next: Worker, action: Action) -> bool {
        match (self, event) {
            (Worker::Connecting, Event::Connection(Ok(()))) => next == Worker::Greeting && action
                == Action::Send(Message::Connected),
            (Worker::Connecting, Event::Connection(Err(error))) => next == Worker::Failing
                && action == Action::Send(Message::Error(error)),
            (Worker::Greeting, Event::Sent(true)) => next == Worker::Idle && action
                == Action::Receive,
            (Worker::Idle, Event::Request(Some(request))) => {
                &&& next matches Worker::Handling(handler)
                &&& action matches Action::Ask(call)
                &&& request.begins((handler, call))
            },
            (Worker::Handling(handler), Event::Answer(answer)) => {
                ||| {
                    &&& next matches Worker::Handling(then)
                    &&& action matches Action::Ask(call)
                    &&& handler.leads(answer, Step::Ask(then, call))
                }
                ||| {
                    &&& next == Worker::Replying
                    &&& action matches Action::Send(message)
                    &&& handler.leads(answer, Step::Reply(message))
                }
            },
            (Worker::Replying, Event::Sent(true)) => next == Worker::Idle && action
                == Action::Receive,
            _ => next == Worker::Stopped && action == Action::Stop,
        }
    }

    /// Takes in what happened, and says what to do next.
    pub fn step(self, event: Event) -> (r: (Worker, Action))
        ensures
            self.steps(event, r.0, r.1),
    {
        match (self, event) {
            (Worker::Connecting, Event::Connection(Ok(()))) => (
                Worker::Greeting,
                Action::Send(Message::Connected),
            ),
            (Worker::Connecting, Event::Connection(Err(error))) => (
                Worker::Failing,
                Action::Send(Message::Error(error)),
            ),
            (Worker::Greeting, Event::Sent(true)) => (Worker::Idle, Action::Receive),
            (Worker::Idle, Event::Request(Some(request))) => {
                let (handler, call) = request.handle();
                (Worker::Handling(handler), Action::Ask(call))
            },
            (Worker::Handling(handler), Event::Answer(answer)) => {
                match handler.resume(answer) {
                    Step::Ask(then, call) => (Worker::Handling(then), Action::Ask(call)),
                    Step::Reply(message) => (Worker::Replying, Action::Send(message)),
                }
            },
            (Worker::Replying, Event::Sent(true)) => (Worker::Idle, Action::Receive),
            _ => (Worker::Stopped, Action::Stop),
        }
    }
}

/// The worker answers each request by one message: it takes a request only
/// while it waits, sends nothing until the handling of the request ends,
/// sends the one message that closes it then, and takes the next request
/// only after that message went out.
pub proof fn lemma_one_message_per_request(
    worker: Worker,
    event: Event,
    next: Worker,
    action: Action,
)
    requires
        worker.steps(event, next, action),
    ensures
        event matches Event::Request(Some(_)) && !(next is Stopped) ==> worker is Idle
            && next is Handling && action is Ask,
        worker is Handling ==> (next is Handling && action is Ask) || (next is Replying
            && action is Send) || (next is Stopped && action is Stop),
        worker is Handling && next is Handling ==> {
            &&& worker matches Worker::Handling(before)
            &&& next matches Worker::Handling(after)
            &&& after.phase() < before.phase() || (after.phase() == before.phase()
                && after.unnamed() < before.unnamed())
        },
        worker is Handling && action is Send ==> (action matches Action::Send(message)
            && message.is_terminal()),
        action is Send ==> worker is Handling || worker is Connecting,
        worker is Replying ==> (next is Idle && action is Receive) || (next is Stopped && action
            is Stop),
        action is Receive ==> next is Idle && (worker is Replying || worker is Greeting),
{
    if let (Worker::Handling(handler), Event::Answer(answer)) = (worker, event) {
        if let Worker::Handling(then) = next {
            if let Action::Ask(call) = action {
                request::lemma_handling_ends(handler, answer, Step::Ask(then, call));
            }
        }
        if let Action::Send(message) = action {
            request::lemma_handling_ends(handler, answer, Step::Reply(message));
        }
    }
}

/// One step of the worker, as it happened.
pub struct Turn {
    pub before: Worker,
    pub event: Event,
    pub after: Worker,
    pub action: Action,
}

/// The event is what the action can come back with: a request for a wait, an
/// answer for a call, and for a message whether it went out. Nothing comes
/// back once the worker was told to stop.
pub open spec fn answers(event: Event, action: Action) -> bool {
    match action {
        Action::Receive => event is Request,
        Action::Ask(_) => event is Answer,
        Action::Send(_) => event is Sent,
        Action::Stop => false,
    }
}

/// `turns` is a run of a worker that waits for a request at its start: each
/// turn is a step of the worker from where the turn before left it, on an
/// event that the action of the turn before can come back with.
pub open spec fn is_run(turns: Seq<Turn>) -> bool {
    forall|i: int|
        0 <= i < turns.len() ==> {
            &&& (#[trigger] turns[i]).before.steps(turns[i].event, turns[i].after, turns[i].action)
            &&& turns[i].before == if i == 0 {
                Worker::Idle
            } else {
                turns[i - 1].after
            }
            &&& answers(
                turns[i].event,
                if i == 0 {
                    Action::Receive
                } else {
                    turns[i - 1].action
                },
            )
        }
}

/// How many requests the worker took in the run.
pub open spec fn taken(turns: Seq<Turn>) -> nat
    decreases turns.len(),
{
    if turns.len() == 0 {
        0
    } else if turns.last().event matches Event::Request(Some(_)) {
        taken(turns.drop_last()) + 1
    } else {
        taken(turns.drop_last())
    }
}

/// How many messages that close a request the worker sent in the run.
pub open spec fn closed(turns: Seq<Turn>) -> nat
    decreases turns.len(),
{
    if turns.len() == 0 {
        0
    } else if turns.last().action matches Action::Send(message) && message.is_terminal() {
        closed(turns.drop_last()) + 1
    } else {
        closed(turns.drop_last())
    }
}

/// Where the run has left the worker.
pub open spec fn left_at(turns: Seq<Turn>) -> Worker {
    if turns.len() == 0 {
        Worker::Idle
    } else {
        turns.last().after
    }
}

/// In every run, the worker has sent one closing message for each request
/// that it took, but for the request that it is handling. So whenever it
/// waits for the next request, each request taken so far has been closed by
/// exactly one message, and it was closed before the next one was taken.
pub proof fn lemma_each_request_is_closed_once(turns: Seq<Turn>)
    requires
        is_run(turns),
    ensures
        taken(turns) == closed(turns) + if left_at(turns) is Handling {
            1nat
        } else {
            0nat
        },
        left_at(turns) is Idle ==> taken(turns) == closed(turns),
        left_at(turns) is Idle || left_at(turns) is Handling || left_at(turns) is Replying
            || left_at(turns) is Stopped,
        turns.len() > 0 ==> (left_at(turns) is Idle <==> turns.last().action is Receive),
        turns.len() > 0 ==> (left_at(turns) is Handling <==> turns.last().action is Ask),
        turns.len() > 0 ==> (left_at(turns) is Replying <==> turns.last().action is Send),
    decreases turns.len(),
{
    if turns.len() > 0 {
        let before = turns.drop_last();
        let last = turns.last();
        assert(is_run(before)) by {
            assert forall|i: int| 0 <= i < before.len() implies {
                &&& (#[trigger] before[i]).before.steps(
                    before[i].event,
                    before[i].after,
                    before[i].action,
                )
                &&& before[i].before == if i == 0 {
                    Worker::Idle
                } else {
                    before[i - 1].after
                }
                &&& answers(
                    before[i].event,
                    if i == 0 {
                        Action::Receive
                    } else {
                        before[i - 1].action
                    },
                )
            } by {
                assert(before[i] == turns[i]);
                if i > 0 {
                    assert(before[i - 1] == turns[i - 1]);
                }
            }
        }
        lemma_each_request_is_closed_once(before);
        assert(last == turns[turns.len() - 1]);
        if before.len() > 0 {
            assert(before.last() == turns[turns.len() - 2]);
        }
        assert(last.before == left_at(before));
        lemma_one_message_per_request(last.before, last.event, last.after, last.action);
    }
}

} // verus!
