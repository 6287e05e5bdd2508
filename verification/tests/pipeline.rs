use pushshift_importer::pipeline::WorkerAction::{Finish, NextFile, ReadLine, Send};
use pushshift_importer::pipeline::WorkerEvent::{
    Admitted, EndOfFile, FileOpened, OpenFailed, ParseFailed, QueueEmpty, ReadFailed, Rejected,
    Sent,
};
use pushshift_importer::pipeline::WorkerState::{Between, Finished, InFile};
use pushshift_importer::pipeline::{
    consumer_step, planned_workers, trim_line, worker_count, worker_step, ChannelEvent,
    ConsumerAction, FileQueue, WorkerAction, WorkerEvent, WorkerState, CHANNEL_CAPACITY,
    POLL_SECONDS,
};

#[test]
fn trim_line_keeps_what_stands_between_the_braces() {
    assert_eq!(trim_line("{\"a\": 1}"), "{\"a\": 1}");
    assert_eq!(trim_line("\0\0{\"a\": 1}\n"), "{\"a\": 1}");
    assert_eq!(trim_line("  {\"a\": {\"b\": 2}}  \r\n"), "{\"a\": {\"b\": 2}}");
    assert_eq!(trim_line("x}{y"), "}{");
    assert_eq!(trim_line("{"), "{");
    assert_eq!(trim_line("ab}"), "}");
    assert_eq!(trim_line("{ab"), "{");
    assert_eq!(trim_line("\u{e9}{\u{10348}}\u{e9}\u{e9}"), "{\u{10348}}");
}

#[test]
fn trim_line_of_a_line_without_braces_is_empty() {
    assert_eq!(trim_line(""), "");
    assert_eq!(trim_line("\n"), "");
    assert_eq!(trim_line("[1, 2, 3]"), "");
    assert_eq!(trim_line("\u{e9}\u{10348}"), "");
}

#[test]
fn workers_leave_one_core_to_the_consumer() {
    assert_eq!(worker_count(0), 0);
    assert_eq!(worker_count(1), 0);
    assert_eq!(worker_count(2), 1);
    assert_eq!(worker_count(8), 7);
    assert_eq!(worker_count(usize::MAX), usize::MAX - 1);
    assert!(planned_workers() < usize::MAX);
}

#[test]
fn pipeline_constants() {
    assert_eq!(CHANNEL_CAPACITY, 10000);
    assert_eq!(POLL_SECONDS, 1);
}

#[test]
fn queue_hands_files_out_from_the_back() {
    let mut queue = FileQueue::new(vec!["a.gz".to_string(), "b.zst".to_string(), "c.xz".to_string()]);
    assert_eq!(queue.len(), 3);
    assert_eq!(queue.pop(), Some("c.xz".to_string()));
    assert_eq!(queue.pop(), Some("b.zst".to_string()));
    assert_eq!(queue.len(), 1);
    assert_eq!(queue.pop(), Some("a.gz".to_string()));
    assert_eq!(queue.len(), 0);
    assert_eq!(queue.pop(), None);
    assert_eq!(queue.pop(), None);
    assert_eq!(queue.len(), 0);
}

#[test]
fn worker_steps() {
    assert_eq!(worker_step(Between, QueueEmpty), (Finished, Finish));
    assert_eq!(worker_step(Between, OpenFailed), (Between, NextFile));
    assert_eq!(worker_step(Between, FileOpened), (InFile, ReadLine));
    assert_eq!(worker_step(InFile, ReadFailed), (Between, NextFile));
    assert_eq!(worker_step(InFile, EndOfFile), (Between, NextFile));
    assert_eq!(worker_step(InFile, ParseFailed), (InFile, ReadLine));
    assert_eq!(worker_step(InFile, Rejected), (InFile, ReadLine));
    assert_eq!(worker_step(InFile, Admitted), (InFile, Send));
    assert_eq!(worker_step(InFile, Sent), (InFile, ReadLine));
}

#[test]
fn worker_ignores_events_out_of_place() {
    for event in [ReadFailed, EndOfFile, ParseFailed, Rejected, Admitted, Sent] {
        assert_eq!(worker_step(Between, event), (Between, NextFile));
    }
    for event in [QueueEmpty, OpenFailed, FileOpened] {
        assert_eq!(worker_step(InFile, event), (InFile, ReadLine));
    }
    for event in [
        QueueEmpty, OpenFailed, FileOpened, ReadFailed, EndOfFile, ParseFailed, Rejected,
        Admitted, Sent,
    ] {
        assert_eq!(worker_step(Finished, event), (Finished, Finish));
    }
}

#[test]
fn an_unsupported_file_does_not_stop_the_worker() {
    // Three files wait; the second cannot be opened.
    let mut queue = FileQueue::new(vec!["c.gz".to_string(), "b.txt".to_string(), "a.gz".to_string()]);
    let mut state = WorkerState::Between;
    let mut opened = Vec::new();
    let mut action = WorkerAction::NextFile;
    while action != WorkerAction::Finish {
        let event = match action {
            WorkerAction::NextFile => match queue.pop() {
                None => WorkerEvent::QueueEmpty,
                Some(name) if name.ends_with(".gz") => {
                    opened.push(name);
                    WorkerEvent::FileOpened
                }
                Some(_) => WorkerEvent::OpenFailed,
            },
            WorkerAction::ReadLine => WorkerEvent::EndOfFile,
            WorkerAction::Send => WorkerEvent::Sent,
            WorkerAction::Finish => unreachable!(),
        };
        let next = worker_step(state, event);
        state = next.0;
        action = next.1;
    }
    assert_eq!(state, WorkerState::Finished);
    assert_eq!(opened, vec!["a.gz".to_string(), "c.gz".to_string()]);
}

#[test]
fn a_bad_line_does_not_end_the_file() {
    let events = [
        WorkerEvent::FileOpened,
        WorkerEvent::Admitted,
        WorkerEvent::Sent,
        WorkerEvent::ParseFailed,
        WorkerEvent::ParseFailed,
        WorkerEvent::Admitted,
        WorkerEvent::Sent,
        WorkerEvent::Rejected,
        WorkerEvent::EndOfFile,
        WorkerEvent::QueueEmpty,
    ];
    let mut state = WorkerState::Between;
    let mut sent = 0;
    let mut lines = 0;
    for event in events {
        let next = worker_step(state, event);
        state = next.0;
        match next.1 {
            WorkerAction::Send => sent += 1,
            WorkerAction::ReadLine => lines += 1,
            _ => {}
        }
    }
    assert_eq!(state, WorkerState::Finished);
    assert_eq!(sent, 2);
    assert_eq!(lines, 6);
}

#[test]
fn a_failed_read_ends_the_file_and_not_the_worker() {
    // The first file fails at its second read, the second file is read to
    // its end.
    let events = [
        WorkerEvent::FileOpened,
        WorkerEvent::Rejected,
        WorkerEvent::ReadFailed,
        WorkerEvent::FileOpened,
        WorkerEvent::Admitted,
        WorkerEvent::Sent,
        WorkerEvent::EndOfFile,
        WorkerEvent::QueueEmpty,
    ];
    let mut state = WorkerState::Between;
    let mut actions = Vec::new();
    for event in events {
        let next = worker_step(state, event);
        state = next.0;
        actions.push(next.1);
    }
    assert_eq!(state, WorkerState::Finished);
    assert_eq!(
        actions,
        vec![ReadLine, ReadLine, NextFile, ReadLine, Send, ReadLine, NextFile, Finish]
    );
}

#[test]
fn a_stream_that_fails_on_every_read_is_left_after_one() {
    let mut queue = FileQueue::new(vec!["good.gz".to_string(), "corrupt.gz".to_string()]);
    let mut state = WorkerState::Between;
    let mut action = WorkerAction::NextFile;
    let mut current = String::new();
    let mut reads_of_corrupt = 0;
    let mut steps = 0;
    while action != WorkerAction::Finish {
        steps += 1;
        assert!(steps < 20, "the worker does not end");
        let event = match action {
            WorkerAction::NextFile => match queue.pop() {
                None => WorkerEvent::QueueEmpty,
                Some(name) => {
                    current = name;
                    WorkerEvent::FileOpened
                }
            },
            WorkerAction::ReadLine => {
                if current == "corrupt.gz" {
                    reads_of_corrupt += 1;
                    WorkerEvent::ReadFailed
                } else {
                    WorkerEvent::EndOfFile
                }
            }
            WorkerAction::Send => WorkerEvent::Sent,
            WorkerAction::Finish => unreachable!(),
        };
        let next = worker_step(state, event);
        state = next.0;
        action = next.1;
    }
    assert_eq!(reads_of_corrupt, 1);
    assert_eq!(queue.len(), 0);
    assert_eq!(state, WorkerState::Finished);
}

#[test]
fn consumer_steps() {
    assert_eq!(consumer_step(ChannelEvent::Received, 0, 3), ConsumerAction::Store);
    assert_eq!(consumer_step(ChannelEvent::Received, 3, 3), ConsumerAction::Store);
    assert_eq!(consumer_step(ChannelEvent::Disconnected, 0, 3), ConsumerAction::Abort);
    assert_eq!(consumer_step(ChannelEvent::Empty, 0, 3), ConsumerAction::Sleep);
    assert_eq!(consumer_step(ChannelEvent::Empty, 2, 3), ConsumerAction::Sleep);
    assert_eq!(consumer_step(ChannelEvent::Empty, 3, 3), ConsumerAction::Stop);
    assert_eq!(consumer_step(ChannelEvent::Empty, 4, 3), ConsumerAction::Stop);
    assert_eq!(consumer_step(ChannelEvent::Empty, 0, 0), ConsumerAction::Stop);
    assert_eq!(consumer_step(ChannelEvent::StoreFailed, 0, 3), ConsumerAction::Abort);
    assert_eq!(consumer_step(ChannelEvent::StoreFailed, 3, 3), ConsumerAction::Abort);
}

#[test]
fn queue_holds_names_of_any_type() {
    let mut queue = FileQueue::new(vec![std::path::PathBuf::from("a.gz"), std::path::PathBuf::from("b.gz")]);
    assert_eq!(queue.pop(), Some(std::path::PathBuf::from("b.gz")));
    assert_eq!(queue.len(), 1);
}
