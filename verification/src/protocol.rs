//! The protocol as a function: what the session decides on each read of the
//! transport, stated over plain values. The transitions of the session are
//! proved against these.

use crate::accumulator::{accepts, applied, TranscriptionView};
use crate::error::GummyError;
use crate::event::{decoded, EventView};
use vstd::prelude::*;

verus! {

/// The mathematical value of a [`Received`].
pub enum ReceivedView {
    Text(Seq<char>),
    Other,
    Closed,
    Failed,
}

/// What one read of the transport delivered.
#[derive(Debug)]
pub enum Received {
    /// A text frame.
    Text(String),
    /// A frame that is not text.
    Other,
    /// The end of the stream: the peer closed the channel.
    Closed,
    /// The transport reported an error, on this read or on the send before it.
    Failed,
}

impl View for Received {
    type V = ReceivedView;

    open spec fn view(&self) -> ReceivedView {
        match *self {
            Received::Text(text) => ReceivedView::Text(text@),
            Received::Other => ReceivedView::Other,
            Received::Closed => ReceivedView::Closed,
            Received::Failed => ReceivedView::Failed,
        }
    }
}

/// The values of a script of reads, in order.
pub open spec fn script_view(script: Seq<Received>) -> Seq<ReceivedView> {
    script.map_values(|r: Received| r@)
}

/// The state of one task: its identifier, the sentences recorded so far and
/// whether the service has finished it.
pub struct TaskView {
    pub task_id: Seq<char>,
    pub entries: Seq<TranscriptionView>,
    pub finished: bool,
}

/// The task after one event while it is converting.
///
/// A `result-generated` event for the task is recorded, unless its index
/// would leave a gap: then the frame is malformed. A `task-finished` event
/// for the task marks it finished. Events of other tasks and of other
/// kinds change nothing.
pub open spec fn recorded(task: TaskView, event: EventView) -> Result<TaskView, GummyError> {
    match event {
        EventView::ResultGenerated { task_id, sentence_id, update, sentence_end } => {
            if task_id != task.task_id {
                Ok(task)
            } else if accepts(task.entries.len(), sentence_id as int) {
                Ok(TaskView { entries: applied(task.entries, update, sentence_id as int), ..task })
            } else {
                Err(GummyError::MalformedMessage)
            }
        },
        EventView::TaskFinished { task_id } => {
            if task_id == task.task_id {
                Ok(TaskView { finished: true, ..task })
            } else {
                Ok(task)
            }
        },
        _ => Ok(task),
    }
}

/// The task after one read while it is converting.
///
/// The event of a text frame is recorded. Frames that are not text and the
/// end of the stream change nothing. Text that cannot be decoded and
/// transport errors are reported.
pub open spec fn absorbed(task: TaskView, received: ReceivedView) -> Result<TaskView, GummyError> {
    match received {
        ReceivedView::Text(text) => match decoded(text) {
            Ok(event) => recorded(task, event),
            Err(e) => Err(e),
        },
        ReceivedView::Other => Ok(task),
        ReceivedView::Closed => Ok(task),
        ReceivedView::Failed => Err(GummyError::Transport),
    }
}

/// What a session that waits for the start of its task does after one read.
pub enum StartView {
    /// Go on waiting.
    Waiting,
    /// The task runs.
    Started,
    /// The start is given up.
    Failed(GummyError),
}

/// The decision on one read while the start of the task `task_id` is
/// awaited.
///
/// A `task-started` event for the task completes the start. The end of the
/// stream is a protocol error. Text that cannot be decoded and transport
/// errors are reported. Anything else is passed over: frames that are not
/// text, events of other kinds and events of other tasks.
pub open spec fn acknowledged(task_id: Seq<char>, received: ReceivedView) -> StartView {
    match received {
        ReceivedView::Text(text) => match decoded(text) {
            Ok(EventView::TaskStarted { task_id: id }) => if id == task_id {
                StartView::Started
            } else {
                StartView::Waiting
            },
            Ok(_) => StartView::Waiting,
            Err(e) => StartView::Failed(e),
        },
        ReceivedView::Other => StartView::Waiting,
        ReceivedView::Closed => StartView::Failed(GummyError::Protocol),
        ReceivedView::Failed => StartView::Failed(GummyError::Transport),
    }
}

/// The decision after a script of reads: that of the first read that ends
/// the wait, or to go on waiting where none does.
pub open spec fn settled(task_id: Seq<char>, script: Seq<ReceivedView>) -> StartView
    decreases script.len(),
{
    if script.len() == 0 {
        StartView::Waiting
    } else {
        match acknowledged(task_id, script[0]) {
            StartView::Waiting => settled(task_id, script.skip(1)),
            decision => decision,
        }
    }
}

/// What a session that waits for the end of its task does after one read,
/// with the task as it then is.
pub enum FinishView {
    /// Go on waiting.
    Waiting(TaskView),
    /// The task is finished.
    Finished(TaskView),
    /// The wait is given up; the task is as it was before the read.
    Failed(TaskView, GummyError),
}

/// The decision on one read while the end of a task is awaited.
///
/// The end of the stream is a protocol error. Any other read is taken in as
/// while converting: an error there gives the wait up, a `task-finished`
/// event for the task ends it, and everything else, results included,
/// leaves the session waiting.
pub open spec fn advanced(task: TaskView, received: ReceivedView) -> FinishView {
    if received is Closed {
        FinishView::Failed(task, GummyError::Protocol)
    } else {
        match absorbed(task, received) {
            Ok(next) => if next.finished {
                FinishView::Finished(next)
            } else {
                FinishView::Waiting(next)
            },
            Err(e) => FinishView::Failed(task, e),
        }
    }
}

/// The decision after a script of reads: that of the first read that ends
/// the wait, or to go on waiting where none does.
pub open spec fn drained(task: TaskView, script: Seq<ReceivedView>) -> FinishView
    decreases script.len(),
{
    if script.len() == 0 {
        FinishView::Waiting(task)
    } else {
        match advanced(task, script[0]) {
            FinishView::Waiting(next) => drained(next, script.skip(1)),
            decision => decision,
        }
    }
}

} // verus!
