use argos_gui::data_types::PulsarMeta;
use argos_gui::error::ArchiveError;
use argos_gui::helpers::downloader::FetchType;
use argos_gui::pipeline::Status;
use argos_gui::syncher::{
    handshake, Action, Answer, Call, DataType, Event, Handler, Handshake, Message, Request, Worker,
};

fn failure() -> ArchiveError {
    ArchiveError::Other("no route to host".to_string())
}

fn pulsar(id: i32, alias: &str) -> PulsarMeta {
    PulsarMeta {
        id,
        alias: alias.to_string(),
        j_name: None,
        b_name: None,
        j2000_ra: None,
        j2000_dec: None,
        master_parfile_id: None,
    }
}

fn serving() -> Worker {
    let (worker, action) = Worker::new().step(Event::Connection(Ok(())));
    assert_eq!(action, Action::Send(Message::Connected));
    let (worker, action) = worker.step(Event::Sent(true));
    assert_eq!(action, Action::Receive);
    worker
}

#[test]
fn handshake_waits_for_connected_or_error() {
    assert_eq!(handshake(Message::Connected), Handshake::Connected);
    assert_eq!(handshake(Message::Error(failure())), Handshake::Failed(failure()));
    assert_eq!(handshake(Message::CommitSuccess), Handshake::Waiting);
    assert_eq!(handshake(Message::PipelineFinished), Handshake::Waiting);
    assert_eq!(handshake(Message::PipelineStatus(Status::Idle)), Handshake::Waiting);
    assert_eq!(handshake(Message::Pulsars(vec![])), Handshake::Waiting);
}

#[test]
fn the_worker_greets_and_waits() {
    assert_eq!(Worker::new(), Worker::Connecting);
    assert_eq!(serving(), Worker::Idle);
}

#[test]
fn the_worker_reports_a_failed_connection_and_stops() {
    let (worker, action) = Worker::new().step(Event::Connection(Err(failure())));
    assert_eq!(worker, Worker::Failing);
    assert_eq!(action, Action::Send(Message::Error(failure())));
    assert_eq!(worker.step(Event::Sent(true)), (Worker::Stopped, Action::Stop));
}

#[test]
fn the_worker_stops_when_the_greeting_cannot_go_out() {
    let (worker, _) = Worker::new().step(Event::Connection(Ok(())));
    assert_eq!(worker.step(Event::Sent(false)), (Worker::Stopped, Action::Stop));
}

#[test]
fn the_worker_answers_each_request_by_one_message() {
    let mut worker = serving();
    let mut sent = Vec::new();
    let requests = vec![
        Request::Commit,
        Request::Download(DataType::Pulsar, FetchType::Id(2)),
        Request::Rollback,
    ];
    for request in requests {
        let (next, action) = worker.step(Event::Request(Some(request)));
        worker = next;
        let answer = match action {
            Action::Ask(Call::Commit) => Answer::Done,
            Action::Ask(Call::GetPulsar(2)) => Answer::Pulsar(pulsar(2, "b")),
            Action::Ask(Call::Rollback) => Answer::Failed(failure()),
            other => panic!("{:?}", other),
        };
        let (next, action) = worker.step(Event::Answer(answer));
        assert_eq!(next, Worker::Replying);
        match action {
            Action::Send(message) => sent.push(message),
            other => panic!("{:?}", other),
        }
        let (next, action) = next.step(Event::Sent(true));
        assert_eq!(action, Action::Receive);
        worker = next;
    }
    assert_eq!(worker, Worker::Idle);
    assert_eq!(
        sent,
        vec![
            Message::CommitSuccess,
            Message::SinglePulsar(pulsar(2, "b")),
            Message::Error(failure())
        ]
    );
}

#[test]
fn the_worker_keeps_asking_until_the_request_is_closed() {
    let worker = serving();
    let (worker, action) = worker.step(Event::Request(Some(Request::AddPar {
        path: "/p".to_string(),
        pulsar: "3".to_string(),
        master: false,
    })));
    assert_eq!(action, Action::Ask(Call::AssertPulsar(3)));
    assert!(matches!(worker, Worker::Handling(Handler::ResolvingPulsar { .. })));
    let (worker, action) = worker.step(Event::Answer(Answer::Done));
    assert_eq!(action, Action::Ask(Call::InsertPar { path: "/p".to_string(), pulsar_id: 3 }));
    let (worker, action) = worker.step(Event::Answer(Answer::Id(9)));
    assert_eq!(action, Action::Send(Message::ItemAdded(DataType::Ephemeride, 9)));
    assert_eq!(worker, Worker::Replying);
}

#[test]
fn the_worker_stops_when_the_interface_is_gone() {
    assert_eq!(serving().step(Event::Request(None)), (Worker::Stopped, Action::Stop));
    let (worker, _) = serving().step(Event::Request(Some(Request::Commit)));
    let (worker, _) = worker.step(Event::Answer(Answer::Done));
    assert_eq!(worker.step(Event::Sent(false)), (Worker::Stopped, Action::Stop));
}

#[test]
fn the_worker_stops_on_an_event_out_of_turn() {
    assert_eq!(serving().step(Event::Answer(Answer::Done)), (Worker::Stopped, Action::Stop));
    assert_eq!(serving().step(Event::Sent(true)), (Worker::Stopped, Action::Stop));
    assert_eq!(
        Worker::new().step(Event::Request(Some(Request::Commit))),
        (Worker::Stopped, Action::Stop)
    );
    assert_eq!(Worker::Stopped.step(Event::Request(None)), (Worker::Stopped, Action::Stop));
    let (worker, _) = serving().step(Event::Request(Some(Request::Commit)));
    assert_eq!(
        worker.step(Event::Request(Some(Request::Rollback))),
        (Worker::Stopped, Action::Stop)
    );
}
