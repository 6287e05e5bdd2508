//! The decisions of a run: what a worker does with a file and with each of
//! its lines, and what the consumer does with what the workers send.

use vstd::prelude::*;
use vstd::std_specs::iter::IteratorSpec;
use vstd::string::StrSliceExecFns;

verus! {

/// How many records the channel between the workers and the consumer holds
/// before a sender has to wait.
pub const CHANNEL_CAPACITY: usize = 10000;

/// How many seconds the consumer sleeps when the channel is empty and
/// workers are still at work.
pub const POLL_SECONDS: u64 = 1;

/// Whether `c` opens or closes an object.
pub open spec fn is_brace(c: char) -> bool {
    c == '{' || c == '}'
}

/// `text` without the characters before its first brace.
pub open spec fn trim_front(text: Seq<char>) -> Seq<char>
    decreases text.len(),
{
    if text.len() == 0 || is_brace(text[0]) {
        text
    } else {
        trim_front(text.drop_first())
    }
}

/// `text` without the characters after its last brace.
pub open spec fn trim_back(text: Seq<char>) -> Seq<char>
    decreases text.len(),
{
    if text.len() == 0 || is_brace(text.last()) {
        text
    } else {
        trim_back(text.drop_last())
    }
}

/// `text` from its first brace to its last: nothing where it holds none.
pub open spec fn trimmed(text: Seq<char>) -> Seq<char> {
    trim_back(trim_front(text))
}

/// Taking off a run of leading characters that are no braces.
pub proof fn lemma_trim_front(text: Seq<char>, from: int)
    requires
        0 <= from <= text.len(),
        forall|i: int| 0 <= i < from ==> !is_brace(text[i]),
        from < text.len() ==> is_brace(text[from]),
    ensures
        trim_front(text) == text.subrange(from, text.len() as int),
    decreases from,
{
    if from == 0 {
        assert(text.subrange(0, text.len() as int) =~= text);
    } else {
        let rest = text.drop_first();
        assert forall|i: int| 0 <= i < from - 1 implies !is_brace(rest[i]) by {
            assert(rest[i] == text[i + 1]);
        }
        lemma_trim_front(rest, from - 1);
        assert(rest.subrange(from - 1, rest.len() as int) =~= text.subrange(
            from,
            text.len() as int,
        ));
    }
}

/// Taking off a run of trailing characters that are no braces.
pub proof fn lemma_trim_back(text: Seq<char>, to: int)
    requires
        0 <= to <= text.len(),
        forall|i: int| to <= i < text.len() ==> !is_brace(text[i]),
        0 < to ==> is_brace(text[to - 1]),
    ensures
        trim_back(text) == text.subrange(0, to),
    decreases text.len() - to,
{
    if to == text.len() {
        assert(text.subrange(0, to) =~= text);
    } else {
        let rest = text.drop_last();
        lemma_trim_back(rest, to);
        assert(rest.subrange(0, to) =~= text.subrange(0, to));
    }
}

/// Trims a line to what stands between its first and its last brace, both
/// included, so that stray bytes around a record do no harm.
pub fn trim_line(line: &str) -> (kept: &str)
    ensures
        kept@ == trimmed(line@),
{
    broadcast use vstd::string::group_string_axioms;

    let length = line.unicode_len();
    let mut first: usize = length;
    let mut end: usize = 0;
    let mut position: usize = 0;
    let mut rest = line.chars();
    loop
        invariant
            length == line@.len(),
            position <= length,
            rest.remaining() == line@.subrange(position as int, length as int),
            first <= length,
            end <= position,
            forall|i: int| 0 <= i < position && i < first ==> !is_brace(line@[i]),
            first < length ==> first < position && is_brace(line@[first as int]),
            first == length ==> end == 0,
            first < length ==> first < end,
            forall|i: int| end <= i < position ==> !is_brace(line@[i]),
            0 < end ==> is_brace(line@[end - 1]),
            rest.obeys_prophetic_iter_laws(),
        ensures
            position == length,
        decreases length - position,
    {
        match rest.next() {
            Some(c) => {
                assert(c == line@[position as int]);
                if c == '{' || c == '}' {
                    if first == length {
                        first = position;
                    }
                    end = position + 1;
                }
                position += 1;
                assert(rest.remaining() =~= line@.subrange(position as int, length as int));
            },
            None => {
                break ;
            },
        }
    }
    if first == length {
        proof {
            lemma_trim_front(line@, length as int);
            assert(line@.subrange(length as int, length as int) =~= Seq::<char>::empty());
        }
        line.substring_char(0, 0)
    } else {
        proof {
            lemma_trim_front(line@, first as int);
            let tail = line@.subrange(first as int, length as int);
            assert forall|i: int| end - first <= i < tail.len() implies !is_brace(tail[i]) by {
                assert(tail[i] == line@[i + first]);
            }
            lemma_trim_back(tail, end - first);
            assert(tail.subrange(0, end - first) =~= line@.subrange(first as int, end as int));
        }
        line.substring_char(first, end)
    }
}

/// Calls `num_cpus::get_physical`: the number of physical cores of the
/// machine, which is at least one.
#[verifier::external_body]
fn physical_cores() -> (cores: usize)
    ensures
        cores >= 1,
{
    num_cpus::get_physical()
}

/// How many workers a machine with `cores` physical cores runs: one core is
/// left to the consumer.
pub open spec fn workers_for(cores: nat) -> nat {
    if cores == 0 {
        0
    } else {
        (cores - 1) as nat
    }
}

/// How many workers a machine with `cores` physical cores runs.
pub fn worker_count(cores: usize) -> (workers: usize)
    ensures
        workers == workers_for(cores as nat),
{
    if cores == 0 {
        0
    } else {
        cores - 1
    }
}

/// How many workers this machine runs.
pub fn planned_workers() -> (workers: usize)
    ensures
        workers < usize::MAX,
{
    worker_count(physical_cores())
}

/// The files that wait to be read, each by its name of whatever type.
/// Workers take them from the back.
pub struct FileQueue<T> {
    files: Vec<T>,
}

impl<T> View for FileQueue<T> {
    type V = Seq<T>;

    closed spec fn view(&self) -> Seq<T> {
        self.files@
    }
}

impl<T> FileQueue<T> {
    /// The queue of the given files.
    pub fn new(files: Vec<T>) -> (queue: FileQueue<T>)
        ensures
            queue@ == files@,
    {
        FileQueue { files }
    }

    /// How many files wait.
    pub fn len(&self) -> (len: usize)
        ensures
            len == self@.len(),
    {
        self.files.len()
    }

    /// Takes the last file off the queue, if one waits.
    pub fn pop(&mut self) -> (file: Option<T>)
        ensures
            match file {
                Some(name) => old(self)@.len() > 0 && name == old(self)@.last() && final(self)@
                    == old(self)@.drop_last(),
                None => old(self)@.len() == 0 && final(self)@ == old(self)@,
            },
    {
        self.files.pop()
    }
}

/// Where a worker stands.
#[derive(Debug, Clone, Copy, PartialEq, Eq, Structural)]
pub enum WorkerState {
    /// Between two files.
    Between,
    /// Reading the lines of a file.
    InFile,
    /// At the end of its work.
    Finished,
}

/// What happened to a worker since its last step.
#[derive(Debug, Clone, Copy, PartialEq, Eq, Structural)]
pub enum WorkerEvent {
    /// The queue held no file.
    QueueEmpty,
    /// The file taken from the queue could not be opened: its format is
    /// not supported, or the system refused.
    OpenFailed,
    /// The file taken from the queue is open.
    FileOpened,
    /// Reading a line failed: the stream is corrupt or the system refused.
    ReadFailed,
    /// The file has no further line.
    EndOfFile,
    /// The line is no record.
    ParseFailed,
    /// The record of the line is not admitted.
    Rejected,
    /// The record of the line is admitted.
    Admitted,
    /// The admitted record was sent to the consumer.
    Sent,
}

/// What a worker is to do next.
#[derive(Debug, Clone, Copy, PartialEq, Eq, Structural)]
pub enum WorkerAction {
    /// Take a file from the queue and open it.
    NextFile,
    /// Read the next line of the file, parse it and ask the filter.
    ReadLine,
    /// Send the admitted record to the consumer, waiting while the channel
    /// is full.
    Send,
    /// Report completion and end.
    Finish,
}

/// What a worker in the given state waits for.
pub open spec fn awaited(state: WorkerState) -> WorkerAction {
    match state {
        WorkerState::Between => WorkerAction::NextFile,
        WorkerState::InFile => WorkerAction::ReadLine,
        WorkerState::Finished => WorkerAction::Finish,
    }
}

/// The step of a worker: where it stands after the event and what it does
/// next. A file that cannot be opened is passed over. A file on which a
/// read fails is given up: the worker goes on to the next file. A line that
/// is no record is passed over, and the worker goes on to the next line.
/// The worker ends when the queue is empty and only then. An event that
/// cannot come in a state changes nothing.
pub open spec fn worker_next(state: WorkerState, event: WorkerEvent) -> (
    WorkerState,
    WorkerAction,
) {
    match (state, event) {
        (WorkerState::Between, WorkerEvent::QueueEmpty) => (
            WorkerState::Finished,
            WorkerAction::Finish,
        ),
        (WorkerState::Between, WorkerEvent::OpenFailed) => (
            WorkerState::Between,
            WorkerAction::NextFile,
        ),
        (WorkerState::Between, WorkerEvent::FileOpened) => (
            WorkerState::InFile,
            WorkerAction::ReadLine,
        ),
        (WorkerState::InFile, WorkerEvent::ReadFailed) => (
            WorkerState::Between,
            WorkerAction::NextFile,
        ),
        (WorkerState::InFile, WorkerEvent::EndOfFile) => (
            WorkerState::Between,
            WorkerAction::NextFile,
        ),
        (WorkerState::InFile, WorkerEvent::Admitted) => (WorkerState::InFile, WorkerAction::Send),
        _ => (state, awaited(state)),
    }
}

/// Takes one step of a worker.
pub fn worker_step(state: WorkerState, event: WorkerEvent) -> (next: (WorkerState, WorkerAction))
    ensures
        next == worker_next(state, event),
{
    match (state, event) {
        (WorkerState::Between, WorkerEvent::QueueEmpty) => (
            WorkerState::Finished,
            WorkerAction::Finish,
        ),
        (WorkerState::Between, WorkerEvent::OpenFailed) => (
            WorkerState::Between,
            WorkerAction::NextFile,
        ),
        (WorkerState::Between, WorkerEvent::FileOpened) => (
            WorkerState::InFile,
            WorkerAction::ReadLine,
        ),
        (WorkerState::InFile, WorkerEvent::ReadFailed) => (
            WorkerState::Between,
            WorkerAction::NextFile,
        ),
        (WorkerState::InFile, WorkerEvent::EndOfFile) => (
            WorkerState::Between,
            WorkerAction::NextFile,
        ),
        (WorkerState::InFile, WorkerEvent::Admitted) => (WorkerState::InFile, WorkerAction::Send),
        (WorkerState::Between, _) => (WorkerState::Between, WorkerAction::NextFile),
        (WorkerState::InFile, _) => (WorkerState::InFile, WorkerAction::ReadLine),
        (WorkerState::Finished, _) => (WorkerState::Finished, WorkerAction::Finish),
    }
}

/// A file that cannot be opened is passed over: the worker goes on to the
/// next file of the queue.
pub proof fn lemma_unopened_file_is_skipped()
    ensures
        worker_next(WorkerState::Between, WorkerEvent::OpenFailed) == (
            WorkerState::Between,
            WorkerAction::NextFile,
        ),
{
}

/// A line that is no record is passed over: the worker goes on to the next
/// line of the same file.
pub proof fn lemma_bad_line_is_skipped()
    ensures
        worker_next(WorkerState::InFile, WorkerEvent::ParseFailed) == (
            WorkerState::InFile,
            WorkerAction::ReadLine,
        ),
{
}

/// A read that fails ends the file and nothing more: the worker goes on to
/// the next file of the queue.
pub proof fn lemma_failed_read_ends_the_file()
    ensures
        worker_next(WorkerState::InFile, WorkerEvent::ReadFailed) == (
            WorkerState::Between,
            WorkerAction::NextFile,
        ),
{
}

/// The worker stays in a file only while its lines can be read: each step
/// out of a line that was read leads back into the file, and every other
/// step out of the file leaves it.
pub proof fn lemma_worker_leaves_a_file(event: WorkerEvent)
    ensures
        worker_next(WorkerState::InFile, event).0 == WorkerState::Between <==> event
            == WorkerEvent::ReadFailed || event == WorkerEvent::EndOfFile,
        worker_next(WorkerState::InFile, event).0 != WorkerState::Finished,
{
}

/// A worker that is at work ends only when the queue is empty.
pub proof fn lemma_worker_ends_on_empty_queue(state: WorkerState, event: WorkerEvent)
    requires
        state != WorkerState::Finished,
    ensures
        worker_next(state, event).1 == WorkerAction::Finish <==> state == WorkerState::Between
            && event == WorkerEvent::QueueEmpty,
        worker_next(state, event).0 == WorkerState::Finished <==> worker_next(state, event).1
            == WorkerAction::Finish,
{
}

/// What the consumer found when it looked into the channel.
#[derive(Debug, Clone, Copy, PartialEq, Eq, Structural)]
pub enum ChannelEvent {
    /// A record.
    Received,
    /// Nothing, and no sender is left.
    Disconnected,
    /// Nothing for now.
    Empty,
    /// The store refused or failed on the record that was handed to it.
    StoreFailed,
}

/// What the consumer is to do next.
#[derive(Debug, Clone, Copy, PartialEq, Eq, Structural)]
pub enum ConsumerAction {
    /// Hand the record to the store and look again.
    Store,
    /// Give the run up: the workers are gone before they reported, or the
    /// store has failed.
    Abort,
    /// Sleep for the poll interval and look again.
    Sleep,
    /// Leave the loop: every worker has reported and the channel is empty.
    Stop,
}

/// The step of the consumer, given how many of the workers have reported
/// completion. A record that was received is stored; a store that fails
/// ends the run, and so does a channel without senders.
pub open spec fn consumer_next(event: ChannelEvent, completed: nat, workers: nat) -> ConsumerAction {
    match event {
        ChannelEvent::Received => ConsumerAction::Store,
        ChannelEvent::Disconnected => ConsumerAction::Abort,
        ChannelEvent::StoreFailed => ConsumerAction::Abort,
        ChannelEvent::Empty => if completed < workers {
            ConsumerAction::Sleep
        } else {
            ConsumerAction::Stop
        },
    }
}

/// Takes one step of the consumer.
pub fn consumer_step(event: ChannelEvent, completed: usize, workers: usize) -> (action:
    ConsumerAction)
    ensures
        action == consumer_next(event, completed as nat, workers as nat),
{
    match event {
        ChannelEvent::Received => ConsumerAction::Store,
        ChannelEvent::Disconnected => ConsumerAction::Abort,
        ChannelEvent::StoreFailed => ConsumerAction::Abort,
        ChannelEvent::Empty => {
            if completed < workers {
                ConsumerAction::Sleep
            } else {
                ConsumerAction::Stop
            }
        },
    }
}

} // verus!
