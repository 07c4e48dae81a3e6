//! The session: one value per protocol phase, and the transitions between
//! them.
//!
//! A session owns no socket. A transition that sends hands back the message
//! to put on the wire; a transition that waits takes what the transport
//! delivered, one [`Received`] at a time, and says whether to go on waiting.
//! The caller moves the frames; every decision is made here.

use crate::accumulator::{views, Accumulator, Transcription};
use crate::error::GummyError;
use crate::event::{decode_event, InboundEvent};
use crate::handshake::{
    accepts_address, address_accepted, plan_connection, plan_view, planned, ConnectRequest,
    Handshake,
};
use crate::protocol::{
    absorbed, acknowledged, advanced, drained, recorded, script_view, settled, FinishView,
    Received, StartView, TaskView,
};
use crate::request::{finish_request, start_request, FinishMessage, StartMessage};
use vstd::prelude::*;

verus! {

/// The phase before a connection is made, and after it is released.
#[derive(Debug)]
pub struct Closed;

/// The phase between the opening request and the outcome of the handshake.
#[derive(Debug)]
pub struct Connecting;

/// The phase of an open connection on which no task has been started.
#[derive(Debug)]
pub struct Connected;

/// The phase of a running task: audio goes out, results come in.
#[derive(Debug)]
pub struct Converting {
    task_id: String,
    result: Accumulator,
    finished: bool,
}

impl View for Converting {
    type V = TaskView;

    closed spec fn view(&self) -> TaskView {
        TaskView { task_id: self.task_id@, entries: self.result@, finished: self.finished }
    }
}

impl Converting {
    /// Takes in one event. On an error nothing changes.
    fn record(&mut self, event: InboundEvent) -> (r: Result<(), GummyError>)
        ensures
            match recorded(old(self)@, event@) {
                Ok(task) => r == Ok::<(), GummyError>(()) && final(self)@ == task,
                Err(e) => r == Err::<(), GummyError>(e) && final(self)@ == old(self)@,
            },
    {
        match event {
            InboundEvent::ResultGenerated { task_id, sentence_id, update, sentence_end } => {
                if task_id == self.task_id {
                    self.result.apply(update, sentence_id)
                } else {
                    Ok(())
                }
            },
            InboundEvent::TaskFinished { task_id } => {
                if task_id == self.task_id {
                    self.finished = true;
                }
                Ok(())
            },
            _ => Ok(()),
        }
    }

    /// Takes in one read. On an error nothing changes.
    fn absorb(&mut self, received: &Received) -> (r: Result<(), GummyError>)
        ensures
            match absorbed(old(self)@, received@) {
                Ok(task) => r == Ok::<(), GummyError>(()) && final(self)@ == task,
                Err(e) => r == Err::<(), GummyError>(e) && final(self)@ == old(self)@,
            },
    {
        match received {
            Received::Text(text) => match decode_event(text.as_str()) {
                Ok(event) => self.record(event),
                Err(e) => Err(e),
            },
            Received::Other => Ok(()),
            Received::Closed => Ok(()),
            Received::Failed => Err(GummyError::Transport),
        }
    }
}

/// The phase between the start message and its acknowledgement. It keeps
/// the phase that the session came from, to return to it if the start fails.
#[derive(Debug)]
pub struct Starting<Prior> {
    task_id: String,
    prior: Prior,
}

impl<Prior> Starting<Prior> {
    /// The identifier of the task whose start is awaited.
    pub closed spec fn pending(&self) -> Seq<char> {
        self.task_id@
    }

    /// The phase that the session came from.
    pub closed spec fn prior(&self) -> Prior {
        self.prior
    }
}

/// The phase between the finish message and the end of the task.
#[derive(Debug)]
pub struct Finishing {
    task: Converting,
}

impl View for Finishing {
    type V = TaskView;

    closed spec fn view(&self) -> TaskView {
        self.task@
    }
}

/// The phase of a finished task, whose results can be read until the next
/// task starts.
#[derive(Debug)]
pub struct Finished {
    task_id: String,
    result: Accumulator,
}

impl View for Finished {
    type V = TaskView;

    closed spec fn view(&self) -> TaskView {
        TaskView { task_id: self.task_id@, entries: self.result@, finished: true }
    }
}

/// A client session in the phase `State`.
#[derive(Debug)]
pub struct Gummy<State = Closed> {
    api_key: String,
    state: State,
}

impl<State> Gummy<State> {
    /// The credential that the session was made with.
    pub closed spec fn credential(&self) -> Seq<char> {
        self.api_key@
    }

    /// The phase-specific part of the session.
    pub closed spec fn phase(&self) -> State {
        self.state
    }

    /// The credential that the session presents.
    pub fn api_key(&self) -> (r: &str)
        ensures
            r@ == self.credential(),
    {
        self.api_key.as_str()
    }

    /// Releases the session from whatever phase it is in. Results that were
    /// not read before are lost.
    pub fn close(self) -> (r: Gummy<Closed>)
        ensures
            r.credential() == self.credential(),
    {
        Gummy { api_key: self.api_key, state: Closed }
    }
}

impl Gummy<Closed> {
    /// A closed session that will present the given credential.
    pub fn new(api_key: &str) -> (r: Self)
        ensures
            r.credential() == api_key@,
    {
        Gummy { api_key: api_key.to_owned(), state: Closed }
    }
}

impl Gummy<Converting> {
    /// The binary frame that carries the given audio: the bytes as they are.
    pub fn send(&self, data: &[u8]) -> (r: Vec<u8>)
        ensures
            r@ == data@,
    {
        vstd::slice::slice_to_vec(data)
    }

    /// Whether the service has finished the task.
    pub fn is_finished(&self) -> (r: bool)
        ensures
            r == self.phase()@.finished,
    {
        self.state.finished
    }

    /// The identifier of the running task.
    pub fn task_id(&self) -> (r: &str)
        ensures
            r@ == self.phase()@.task_id,
    {
        self.state.task_id.as_str()
    }

    /// The sentences recorded so far, in index order.
    pub fn snapshot(&self) -> (r: Vec<Transcription>)
        ensures
            views(r@) == self.phase()@.entries,
    {
        self.state.result.snapshot()
    }

    /// Takes in one read of the transport and returns the sentences recorded
    /// so far.
    ///
    /// Once the task is finished nothing is taken in any more. Before that
    /// the read is folded in as [`absorbed`] says. On an error the session is
    /// as it was: the frame is dropped and the caller may go on.
    pub fn receive(&mut self, received: &Received) -> (r: Result<Vec<Transcription>, GummyError>)
        ensures
            final(self).credential() == old(self).credential(),
            old(self).phase()@.finished ==> final(self).phase()@ == old(self).phase()@ && r is Ok,
            !old(self).phase()@.finished ==> match absorbed(old(self).phase()@, received@) {
                Ok(task) => r is Ok && final(self).phase()@ == task,
                Err(e) => r == Err::<Vec<Transcription>, GummyError>(e) && final(self).phase()@
                    == old(self).phase()@,
            },
            r matches Ok(sentences) ==> views(sentences@) == final(self).phase()@.entries,
    {
        if !self.state.finished {
            match self.state.absorb(received) {
                Ok(()) => {},
                Err(e) => {
                    return Err(e);
                },
            }
        }
        Ok(self.state.result.snapshot())
    }

    /// Asks to finish the task. Where the service has finished it already
    /// the session is finished at once; otherwise the finish message is to be
    /// sent and the end of the task awaited.
    pub fn finish(self) -> (r: FinishStart)
        ensures
            match r {
                FinishStart::Done(session) => self.phase()@.finished && session.credential()
                    == self.credential() && session.phase()@ == self.phase()@,
                FinishStart::Send(session, message) => !self.phase()@.finished
                    && session.credential() == self.credential() && session.phase()@
                    == self.phase()@ && message@ == finish_request(self.phase()@.task_id),
            },
    {
        if self.state.finished {
            FinishStart::Done(
                Gummy {
                    api_key: self.api_key,
                    state: Finished { task_id: self.state.task_id, result: self.state.result },
                },
            )
        } else {
            let message = FinishMessage::new(self.state.task_id.as_str());
            FinishStart::Send(
                Gummy { api_key: self.api_key, state: Finishing { task: self.state } },
                message,
            )
        }
    }
}

/// The outcome of one step of a start.
#[derive(Debug)]
pub enum StartStep<Prior> {
    /// The acknowledgement has not come yet: hand over the next read.
    Waiting(Gummy<Starting<Prior>>),
    /// The service acknowledged the task.
    Started(Gummy<Converting>),
    /// The start failed: the session is back in the phase it came from.
    Failed(Gummy<Prior>, GummyError),
}

/// The outcome of one step of a finish.
#[derive(Debug)]
pub enum FinishStep {
    /// The task has not ended yet: hand over the next read.
    Waiting(Gummy<Finishing>),
    /// The task has ended and its results are complete.
    Finished(Gummy<Finished>),
    /// The finish failed: the session is converting again, with the results
    /// recorded before the read that failed.
    Failed(Gummy<Converting>, GummyError),
}

/// What a converting session does when asked to finish.
#[derive(Debug)]
pub enum FinishStart {
    /// The service had finished the task already: nothing is sent.
    Done(Gummy<Finished>),
    /// The message is to be sent, and the end of the task awaited.
    Send(Gummy<Finishing>, FinishMessage),
}

/// Whether a step of a finish is the one that a decision asks for, for a
/// session with the given credential.
pub open spec fn finish_decides(
    credential: Seq<char>,
    decision: FinishView,
    step: FinishStep,
) -> bool {
    match decision {
        FinishView::Waiting(task) => step matches FinishStep::Waiting(session)
            && session.credential() == credential && session.phase()@ == task,
        FinishView::Finished(task) => step matches FinishStep::Finished(session)
            && session.credential() == credential && session.phase()@ == task,
        FinishView::Failed(task, e) => step matches FinishStep::Failed(session, error) && error
            == e && session.credential() == credential && session.phase()@ == task,
    }
}

/// Decides on one read while the start of a task is awaited.
fn decide_start(task_id: &String, received: &Received) -> (r: StartView)
    ensures
        r == acknowledged(task_id@, received@),
{
    match received {
        Received::Text(text) => match decode_event(text.as_str()) {
            Ok(InboundEvent::TaskStarted { task_id: id }) => if id == *task_id {
                StartView::Started
            } else {
                StartView::Waiting
            },
            Ok(_) => StartView::Waiting,
            Err(e) => StartView::Failed(e),
        },
        Received::Other => StartView::Waiting,
        Received::Closed => StartView::Failed(GummyError::Protocol),
        Received::Failed => StartView::Failed(GummyError::Transport),
    }
}

impl<Prior> Gummy<Starting<Prior>> {
    /// The session as it was before the start.
    pub closed spec fn prior_session(&self) -> Gummy<Prior> {
        Gummy { api_key: self.api_key, state: self.state.prior }
    }

    /// Whether a step is the one that a decision asks for: the session
    /// itself while waiting, a converting session for the awaited task with
    /// no results yet, or the session as it was before the start.
    pub open spec fn decides(self, decision: StartView, step: StartStep<Prior>) -> bool {
        match decision {
            StartView::Waiting => step == StartStep::Waiting(self),
            StartView::Started => step matches StartStep::Started(session) && session.credential()
                == self.credential() && session.phase()@ == (TaskView {
                task_id: self.phase().pending(),
                entries: Seq::empty(),
                finished: false,
            }),
            StartView::Failed(e) => step == StartStep::Failed(self.prior_session(), e),
        }
    }

    /// The identifier of the task whose start is awaited.
    pub fn task_id(&self) -> (r: &str)
        ensures
            r@ == self.phase().pending(),
    {
        self.state.task_id.as_str()
    }

    fn conclude(self, decision: StartView) -> (r: StartStep<Prior>)
        ensures
            self.decides(decision, r),
    {
        match decision {
            StartView::Waiting => StartStep::Waiting(self),
            StartView::Started => StartStep::Started(
                Gummy {
                    api_key: self.api_key,
                    state: Converting {
                        task_id: self.state.task_id,
                        result: Accumulator::new(),
                        finished: false,
                    },
                },
            ),
            StartView::Failed(e) => StartStep::Failed(
                Gummy { api_key: self.api_key, state: self.state.prior },
                e,
            ),
        }
    }

    /// Takes in one read of the transport while the acknowledgement of the
    /// start is awaited, and decides as [`acknowledged`] says.
    pub fn acknowledge(self, received: &Received) -> (r: StartStep<Prior>)
        ensures
            self.decides(acknowledged(self.phase().pending(), received@), r),
    {
        let decision = decide_start(&self.state.task_id, received);
        self.conclude(decision)
    }

    /// Takes in a script of reads, one after the other, up to the first that
    /// ends the wait.
    pub fn settle(self, script: &[Received]) -> (r: StartStep<Prior>)
        ensures
            self.decides(settled(self.phase().pending(), script_view(script@)), r),
    {
        let ghost all = script_view(script@);
        let mut i: usize = 0;
        assert(all.skip(0) =~= all);
        while i < script.len()
            invariant
                i <= script.len(),
                all == script_view(script@),
                settled(self.phase().pending(), all) == settled(
                    self.phase().pending(),
                    all.skip(i as int),
                ),
            decreases script.len() - i,
        {
            let decision = decide_start(&self.state.task_id, &script[i]);
            proof {
                assert(all.skip(i as int)[0] == script[i as int]@);
                assert(all.skip(i as int).skip(1) =~= all.skip(i + 1));
            }
            match decision {
                StartView::Waiting => {},
                _ => {
                    return self.conclude(decision);
                },
            }
            i += 1;
        }
        self.conclude(StartView::Waiting)
    }
}

/// Puts a session into the phase that awaits the start of a new task.
fn begin<Prior>(
    session: Gummy<Prior>,
    format: Option<&str>,
    sample_rate: Option<u32>,
    source_language: Option<&str>,
    target_language: Option<&str>,
) -> (r: (Gummy<Starting<Prior>>, StartMessage))
    ensures
        r.0.prior_session() == session,
        r.0.credential() == session.credential(),
        r.1@ == start_request(
            r.0.phase().pending(),
            format,
            sample_rate,
            source_language,
            target_language,
        ),
{
    let message = StartMessage::new(format, sample_rate, source_language, target_language);
    let task_id = message.id().to_owned();
    (
        Gummy { api_key: session.api_key, state: Starting { task_id, prior: session.state } },
        message,
    )
}

/// What a closed session does when asked to connect.
#[derive(Debug)]
pub enum ConnectStart {
    /// The channel is to be opened with the request.
    Open(Gummy<Connecting>, ConnectRequest),
    /// No attempt is to be made: the session stays closed.
    Refused(Gummy<Closed>, GummyError),
}

/// The outcome of a connection attempt.
#[derive(Debug)]
pub enum ConnectStep {
    /// The channel is open.
    Connected(Gummy<Connected>),
    /// The attempt failed: the session is closed again.
    Failed(Gummy<Closed>, GummyError),
}

impl Gummy<Closed> {
    /// What to open the channel with: the address, the service's own where
    /// none is given, and the four headers that the service asks for.
    ///
    /// A caller's address that the transport does not take is a transport
    /// error. A credential that cannot stand in a header is refused.
    pub fn connect_request(&self, url: Option<&str>) -> (r: Result<ConnectRequest, GummyError>)
        ensures
            plan_view(r) == planned(self.credential(), url, address_accepted(url)),
    {
        plan_connection(self.api_key.as_str(), url, accepts_address(url))
    }

    /// Begins to connect. Where a request can be made the session awaits the
    /// outcome of the handshake; where none can, nothing is attempted and the
    /// session is handed back with the reason.
    pub fn connect(self, url: Option<&str>) -> (r: ConnectStart)
        ensures
            match planned(self.credential(), url, address_accepted(url)) {
                Ok(request) => r matches ConnectStart::Open(session, plan) && session.credential()
                    == self.credential() && plan@ == request,
                Err(e) => r matches ConnectStart::Refused(session, error) && session == self
                    && error == e,
            },
    {
        match self.connect_request(url) {
            Ok(plan) => ConnectStart::Open(Gummy { api_key: self.api_key, state: Connecting }, plan),
            Err(e) => ConnectStart::Refused(self, e),
        }
    }
}

impl Gummy<Connecting> {
    /// Takes in the outcome of the handshake: an open channel connects the
    /// session, a failed attempt is a transport error and leaves it closed.
    pub fn complete(self, handshake: Handshake) -> (r: ConnectStep)
        ensures
            match handshake {
                Handshake::Opened => r matches ConnectStep::Connected(session)
                    && session.credential() == self.credential(),
                Handshake::Failed => r matches ConnectStep::Failed(session, error)
                    && session.credential() == self.credential() && error
                    == GummyError::Transport,
            },
    {
        match handshake {
            Handshake::Opened => ConnectStep::Connected(
                Gummy { api_key: self.api_key, state: Connected },
            ),
            Handshake::Failed => ConnectStep::Failed(
                Gummy { api_key: self.api_key, state: Closed },
                GummyError::Transport,
            ),
        }
    }
}

impl Gummy<Connected> {
    /// Starts the first task on a connection: returns the start message to
    /// send, under a fresh task identifier, and the session that awaits its
    /// acknowledgement.
    pub fn start(
        self,
        format: Option<&str>,
        sample_rate: Option<u32>,
        source_language: Option<&str>,
        target_language: Option<&str>,
    ) -> (r: (Gummy<Starting<Connected>>, StartMessage))
        ensures
            r.0.prior_session() == self,
            r.0.credential() == self.credential(),
            r.1@ == start_request(
                r.0.phase().pending(),
                format,
                sample_rate,
                source_language,
                target_language,
            ),
    {
        begin(self, format, sample_rate, source_language, target_language)
    }
}

impl Gummy<Finishing> {
    /// Takes in one read of the transport while the end of the task is
    /// awaited, and decides as [`advanced`] says. Results that arrive during
    /// the wait are recorded like any other.
    pub fn advance(self, received: &Received) -> (r: FinishStep)
        ensures
            finish_decides(self.credential(), advanced(self.phase()@, received@), r),
    {
        let Gummy { api_key, state } = self;
        let mut task = state.task;
        let outcome: Result<(), GummyError> = match received {
            Received::Closed => Err(GummyError::Protocol),
            other => task.absorb(other),
        };
        match outcome {
            Ok(()) => if task.finished {
                FinishStep::Finished(
                    Gummy { api_key, state: Finished { task_id: task.task_id, result: task.result } },
                )
            } else {
                FinishStep::Waiting(Gummy { api_key, state: Finishing { task } })
            },
            Err(e) => FinishStep::Failed(Gummy { api_key, state: task }, e),
        }
    }

    /// Takes in a script of reads, one after the other, up to the first that
    /// ends the wait. Every result before that read is recorded.
    pub fn drain(self, script: &[Received]) -> (r: FinishStep)
        ensures
            finish_decides(self.credential(), drained(self.phase()@, script_view(script@)), r),
    {
        let ghost all = script_view(script@);
        let ghost credential = self.credential();
        let ghost task = self.phase()@;
        let mut current = self;
        let mut i: usize = 0;
        assert(all.skip(0) =~= all);
        while i < script.len()
            invariant
                i <= script.len(),
                all == script_view(script@),
                credential == self.credential(),
                task == self.phase()@,
                current.credential() == credential,
                drained(task, all) == drained(current.phase()@, all.skip(i as int)),
            decreases script.len() - i,
        {
            let ghost before = current.phase()@;
            proof {
                assert(all.skip(i as int)[0] == script[i as int]@);
                assert(all.skip(i as int).skip(1) =~= all.skip(i + 1));
                assert(drained(before, all.skip(i as int)) == match advanced(
                    before,
                    script[i as int]@,
                ) {
                    FinishView::Waiting(next) => drained(next, all.skip(i + 1)),
                    decision => decision,
                });
            }
            match current.advance(&script[i]) {
                FinishStep::Waiting(next) => {
                    current = next;
                },
                FinishStep::Finished(session) => {
                    return FinishStep::Finished(session);
                },
                FinishStep::Failed(session, error) => {
                    return FinishStep::Failed(session, error);
                },
            }
            i += 1;
        }
        FinishStep::Waiting(current)
    }
}

impl Gummy<Finished> {
    /// Starts another task on the same connection: returns the start message
    /// to send, under a fresh task identifier, and the session that awaits
    /// its acknowledgement. The results of the finished task are given up
    /// once the new task is acknowledged.
    pub fn start(
        self,
        format: Option<&str>,
        sample_rate: Option<u32>,
        source_language: Option<&str>,
        target_language: Option<&str>,
    ) -> (r: (Gummy<Starting<Finished>>, StartMessage))
        ensures
            r.0.prior_session() == self,
            r.0.credential() == self.credential(),
            r.1@ == start_request(
                r.0.phase().pending(),
                format,
                sample_rate,
                source_language,
                target_language,
            ),
    {
        begin(self, format, sample_rate, source_language, target_language)
    }

    /// The identifier of the finished task.
    pub fn task_id(&self) -> (r: &str)
        ensures
            r@ == self.phase()@.task_id,
    {
        self.state.task_id.as_str()
    }

    /// The sentences of the finished task, in index order.
    pub fn get_result(&self) -> (r: Vec<Transcription>)
        ensures
            views(r@) == self.phase()@.entries,
    {
        self.state.result.snapshot()
    }
}

} // verus!
