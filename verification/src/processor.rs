//! What is done with one utterance, step by step.
//!
//! The network and the audio device are not reached from here. A
//! [`Processor`] says what to do next; its caller does it and reports what
//! happened as an [`Event`], until the processor says [`Action::Finish`].

use vstd::prelude::*;
use crate::config::MimicConfig;
use crate::request::{
    body_text, build_request, is_request_target, outbound_request, url_text, Method,
    SynthesisRequest,
};

verus! {

/// The status code of a response that carries a clip.
pub const STATUS_OK: u16 = 200;

/// How long a clip plays: whole seconds and the nanoseconds beyond them.
#[derive(Clone, Copy, PartialEq, Eq, Structural, Debug)]
pub struct ClipLength {
    pub secs: u64,
    pub nanos: u32,
}

/// Why an utterance was not spoken.
#[derive(Clone, Copy, PartialEq, Eq, Structural, Debug)]
pub enum ProcessError {
    /// The URL is not one that a request can be made for.
    InvalidRequest,
    /// The request could not be sent or no response came back.
    Transport,
    /// The response's body could not be read.
    BodyRead,
    /// The body is not WAV audio.
    Decode,
    /// The clip does not say how long it plays.
    UnknownDuration,
    /// An event was reported that does not answer the pending action.
    OutOfTurn,
}

/// How the processing of one utterance ended.
#[derive(Clone, Copy, PartialEq, Eq, Structural, Debug)]
pub enum Outcome {
    /// The clip was handed to the device and its length was waited out.
    Spoken,
    /// The service answered with a status other than 200. Nothing is played;
    /// the caller is owed a notice, not an error.
    Rejected { status: u16 },
    /// The utterance was given up.
    Failed { error: ProcessError },
}

impl Outcome {
    /// Whether the caller is told of success.
    pub open spec fn is_success(self) -> bool {
        !(self is Failed)
    }

    /// What the caller is told: an error only where the utterance was given
    /// up.
    pub fn into_result(self) -> (result: Result<(), ProcessError>)
        ensures
            result is Ok <==> self.is_success(),
            self matches Outcome::Failed { error } ==> result == Err::<(), ProcessError>(error),
    {
        match self {
            Outcome::Failed { error } => Err(error),
            _ => Ok(()),
        }
    }
}

/// What the processor waits for.
#[derive(Clone, Copy, PartialEq, Eq, Structural, Debug)]
pub enum Phase {
    /// The request is to be sent; the response is awaited.
    AwaitingResponse,
    /// The status was 200; the body is being read.
    AwaitingBody,
    /// The body is being decoded.
    AwaitingClip,
    /// The clip is being handed to the device.
    AwaitingPlayback { length: ClipLength },
    /// The clip's length is being waited out.
    AwaitingWake,
    /// Nothing more is to be done.
    Finished,
}

/// What the caller reports.
#[derive(Clone, Copy, PartialEq, Eq, Structural, Debug)]
pub enum Event {
    /// Sending failed, or no response came.
    TransportFailed,
    /// A response came, with this status code.
    Responded { status: u16 },
    /// The body was read in full.
    BodyRead,
    /// Reading the body failed.
    BodyFailed,
    /// The body is a WAV clip of this length.
    Decoded { length: ClipLength },
    /// The body is a WAV clip whose length cannot be told.
    DecodedWithoutLength,
    /// The body is not a WAV clip.
    DecodeFailed,
    /// The device took the clip.
    PlaybackAccepted,
    /// The device refused the clip.
    PlaybackRefused,
    /// The wait is over.
    Woke,
}

/// What the caller is to do next.
#[derive(Clone, Copy, PartialEq, Eq, Structural, Debug)]
pub enum Action {
    /// Read the response's body into memory.
    ReadBody,
    /// Decode the body as WAV and find the clip's length.
    Decode,
    /// Hand the clip to the default device.
    Play,
    /// Block for the clip's length. Where the device refused the clip, say
    /// so first; the wait is the same.
    Wait { length: ClipLength, playback_failed: bool },
    /// Return to the loop with this outcome.
    Finish { outcome: Outcome },
}

/// The phase that follows an event, and the action it calls for.
pub open spec fn step(phase: Phase, event: Event) -> (Phase, Action) {
    match (phase, event) {
        (Phase::AwaitingResponse, Event::TransportFailed) => failed(ProcessError::Transport),
        (Phase::AwaitingResponse, Event::Responded { status }) => if status == STATUS_OK {
            (Phase::AwaitingBody, Action::ReadBody)
        } else {
            (Phase::Finished, Action::Finish { outcome: Outcome::Rejected { status } })
        },
        (Phase::AwaitingBody, Event::BodyRead) => (Phase::AwaitingClip, Action::Decode),
        (Phase::AwaitingBody, Event::BodyFailed) => failed(ProcessError::BodyRead),
        (Phase::AwaitingClip, Event::Decoded { length }) => (
            Phase::AwaitingPlayback { length },
            Action::Play,
        ),
        (Phase::AwaitingClip, Event::DecodedWithoutLength) => failed(
            ProcessError::UnknownDuration,
        ),
        (Phase::AwaitingClip, Event::DecodeFailed) => failed(ProcessError::Decode),
        (Phase::AwaitingPlayback { length }, Event::PlaybackAccepted) => (
            Phase::AwaitingWake,
            Action::Wait { length, playback_failed: false },
        ),
        (Phase::AwaitingPlayback { length }, Event::PlaybackRefused) => (
            Phase::AwaitingWake,
            Action::Wait { length, playback_failed: true },
        ),
        (Phase::AwaitingWake, Event::Woke) => (
            Phase::Finished,
            Action::Finish { outcome: Outcome::Spoken },
        ),
        _ => failed(ProcessError::OutOfTurn),
    }
}

/// Giving the utterance up with an error.
pub open spec fn failed(error: ProcessError) -> (Phase, Action) {
    (Phase::Finished, Action::Finish { outcome: Outcome::Failed { error } })
}

/// The actions that a run of events calls for, one for each event.
pub open spec fn actions(phase: Phase, events: Seq<Event>) -> Seq<Action>
    decreases events.len(),
{
    if events.len() == 0 {
        Seq::empty()
    } else {
        seq![step(phase, events[0]).1] + actions(step(phase, events[0]).0, events.drop_first())
    }
}

/// The phase reached after a run of events.
pub open spec fn phase_after(phase: Phase, events: Seq<Event>) -> Phase
    decreases events.len(),
{
    if events.len() == 0 {
        phase
    } else {
        phase_after(step(phase, events[0]).0, events.drop_first())
    }
}

/// What the caller is shown when the service answers with a status other
/// than 200.
#[derive(Clone, Debug)]
pub struct StatusNotice {
    /// The body that was sent.
    pub text: String,
    /// The URL that was used.
    pub url: String,
    /// The status that came back.
    pub status: u16,
}

/// The processing of one utterance.
pub struct Processor {
    request: SynthesisRequest,
    phase: Phase,
}

impl Processor {
    /// The request of this utterance.
    pub closed spec fn spec_request(&self) -> SynthesisRequest {
        self.request
    }

    /// What the processor waits for.
    pub closed spec fn spec_phase(&self) -> Phase {
        self.phase
    }

    /// Takes up an utterance: builds its request, hands it out in the form in
    /// which the caller is to send it, and waits for the response. Where the
    /// URL that the settings give is no target of a request, the utterance
    /// is given up before anything is sent.
    pub fn start(config: &MimicConfig, utterance: &str) -> (started: Result<
        (Processor, hyper::Request<hyper::Body>),
        ProcessError,
    >)
        ensures
            started is Ok <==> is_request_target(url_text(config)),
            started matches Ok(pair) ==> {
                &&& pair.0.spec_phase() == Phase::AwaitingResponse
                &&& pair.0.spec_request().method == Method::Post
                &&& pair.0.spec_request().url@ == url_text(config)
                &&& pair.0.spec_request().body@ == body_text(config.ssml, utterance@)
            },
            started matches Err(error) ==> error == ProcessError::InvalidRequest,
    {
        let request = build_request(config, utterance);
        let outbound = outbound_request(&request);
        Processor::launch(request, outbound)
    }

    /// Takes up a request that was built: with its outbound form it is
    /// ready to be sent and the response is awaited; without one the
    /// utterance is given up.
    pub fn launch(request: SynthesisRequest, outbound: Option<hyper::Request<hyper::Body>>) -> (started:
        Result<(Processor, hyper::Request<hyper::Body>), ProcessError>)
        ensures
            started is Ok <==> outbound is Some,
            started matches Ok(pair) ==> {
                &&& pair.0.spec_phase() == Phase::AwaitingResponse
                &&& pair.0.spec_request() == request
                &&& Some(pair.1) == outbound
            },
            started matches Err(error) ==> error == ProcessError::InvalidRequest,
    {
        match outbound {
            Some(outbound) => Ok((Processor { request, phase: Phase::AwaitingResponse }, outbound)),
            None => Err(ProcessError::InvalidRequest),
        }
    }

    /// The request of this utterance.
    pub fn request(&self) -> (request: &SynthesisRequest)
        ensures
            *request == self.spec_request(),
    {
        &self.request
    }

    /// What the processor waits for.
    #[verifier::when_used_as_spec(spec_phase)]
    pub fn phase(&self) -> (phase: Phase)
        ensures
            phase == self.spec_phase(),
    {
        self.phase
    }

    /// Takes what happened and says what to do next. The request stays as it
    /// is.
    pub fn advance(&mut self, event: Event) -> (action: Action)
        ensures
            final(self).spec_request() == old(self).spec_request(),
            (final(self).spec_phase(), action) == step(old(self).spec_phase(), event),
    {
        let (next, action) = transition(self.phase, event);
        self.phase = next;
        action
    }

    /// The notice for a response of the given status: the body that was
    /// sent, the URL that was used, and the status.
    pub fn status_notice(&self, status: u16) -> (notice: StatusNotice)
        ensures
            notice.text@ == self.spec_request().body@,
            notice.url@ == self.spec_request().url@,
            notice.status == status,
    {
        StatusNotice { text: self.request.body.clone(), url: self.request.url.clone(), status }
    }
}

/// The phase that follows an event, and the action it calls for.
pub fn transition(phase: Phase, event: Event) -> (next: (Phase, Action))
    ensures
        next == step(phase, event),
{
    let out_of_turn = give_up(ProcessError::OutOfTurn);
    match phase {
        Phase::AwaitingResponse => match event {
            Event::TransportFailed => give_up(ProcessError::Transport),
            Event::Responded { status } => if status == STATUS_OK {
                (Phase::AwaitingBody, Action::ReadBody)
            } else {
                (Phase::Finished, Action::Finish { outcome: Outcome::Rejected { status } })
            },
            _ => out_of_turn,
        },
        Phase::AwaitingBody => match event {
            Event::BodyRead => (Phase::AwaitingClip, Action::Decode),
            Event::BodyFailed => give_up(ProcessError::BodyRead),
            _ => out_of_turn,
        },
        Phase::AwaitingClip => match event {
            Event::Decoded { length } => (Phase::AwaitingPlayback { length }, Action::Play),
            Event::DecodedWithoutLength => give_up(ProcessError::UnknownDuration),
            Event::DecodeFailed => give_up(ProcessError::Decode),
            _ => out_of_turn,
        },
        Phase::AwaitingPlayback { length } => match event {
            Event::PlaybackAccepted => (
                Phase::AwaitingWake,
                Action::Wait { length, playback_failed: false },
            ),
            Event::PlaybackRefused => (
                Phase::AwaitingWake,
                Action::Wait { length, playback_failed: true },
            ),
            _ => out_of_turn,
        },
        Phase::AwaitingWake => match event {
            Event::Woke => (Phase::Finished, Action::Finish { outcome: Outcome::Spoken }),
            _ => out_of_turn,
        },
        Phase::Finished => out_of_turn,
    }
}

fn give_up(error: ProcessError) -> (next: (Phase, Action))
    ensures
        next == failed(error),
{
    (Phase::Finished, Action::Finish { outcome: Outcome::Failed { error } })
}

/// A response with status 200 whose body is a clip of known length is
/// played, the caller is then held for exactly that length, whether or not
/// the device took the clip, and only then is success returned.
pub proof fn lemma_clip_is_waited_out(length: ClipLength, accepted: bool)
    ensures
        ({
            let playback = if accepted {
                Event::PlaybackAccepted
            } else {
                Event::PlaybackRefused
            };
            let events = seq![
                Event::Responded { status: STATUS_OK },
                Event::BodyRead,
                Event::Decoded { length },
                playback,
                Event::Woke,
            ];
            &&& actions(Phase::AwaitingResponse, events) == seq![
                Action::ReadBody,
                Action::Decode,
                Action::Play,
                Action::Wait { length, playback_failed: !accepted },
                Action::Finish { outcome: Outcome::Spoken },
            ]
            &&& phase_after(Phase::AwaitingResponse, events) == Phase::Finished
            &&& Outcome::Spoken.is_success()
        }),
{
    let playback = if accepted {
        Event::PlaybackAccepted
    } else {
        Event::PlaybackRefused
    };
    let e0 = seq![
        Event::Responded { status: STATUS_OK },
        Event::BodyRead,
        Event::Decoded { length },
        playback,
        Event::Woke,
    ];
    let e1 = e0.drop_first();
    let e2 = e1.drop_first();
    let e3 = e2.drop_first();
    let e4 = e3.drop_first();
    let e5 = e4.drop_first();
    assert(e5.len() == 0);
    assert(actions(Phase::Finished, e5) =~= Seq::empty());
    assert(actions(Phase::AwaitingWake, e4) =~= seq![Action::Finish { outcome: Outcome::Spoken }]);
    assert(actions(Phase::AwaitingPlayback { length }, e3) =~= seq![
        Action::Wait { length, playback_failed: !accepted },
        Action::Finish { outcome: Outcome::Spoken },
    ]);
    assert(actions(Phase::AwaitingClip, e2) =~= seq![
        Action::Play,
        Action::Wait { length, playback_failed: !accepted },
        Action::Finish { outcome: Outcome::Spoken },
    ]);
    assert(actions(Phase::AwaitingBody, e1) =~= seq![
        Action::Decode,
        Action::Play,
        Action::Wait { length, playback_failed: !accepted },
        Action::Finish { outcome: Outcome::Spoken },
    ]);
    assert(actions(Phase::AwaitingResponse, e0) =~= seq![
        Action::ReadBody,
        Action::Decode,
        Action::Play,
        Action::Wait { length, playback_failed: !accepted },
        Action::Finish { outcome: Outcome::Spoken },
    ]);
    assert(phase_after(Phase::Finished, e5) == Phase::Finished);
    assert(phase_after(Phase::AwaitingWake, e4) == Phase::Finished);
    assert(phase_after(Phase::AwaitingPlayback { length }, e3) == Phase::Finished);
    assert(phase_after(Phase::AwaitingClip, e2) == Phase::Finished);
    assert(phase_after(Phase::AwaitingBody, e1) == Phase::Finished);
}

/// A response with any status other than 200 ends the processing at once:
/// nothing is read or played, and the caller is told of success, with the
/// status to give notice of.
pub proof fn lemma_other_status_is_no_error(status: u16)
    requires
        status != STATUS_OK,
    ensures
        step(Phase::AwaitingResponse, Event::Responded { status }) == (
            Phase::Finished,
            Action::Finish { outcome: Outcome::Rejected { status } },
        ),
        (Outcome::Rejected { status }).is_success(),
{
}

/// A failure of the transport ends the processing at once with an error.
pub proof fn lemma_transport_failure_is_an_error()
    ensures
        step(Phase::AwaitingResponse, Event::TransportFailed) == (
            Phase::Finished,
            Action::Finish { outcome: Outcome::Failed { error: ProcessError::Transport } },
        ),
        !(Outcome::Failed { error: ProcessError::Transport }).is_success(),
{
}

/// How many events a phase is from the end, at most.
pub open spec fn steps_left(phase: Phase) -> nat {
    match phase {
        Phase::AwaitingResponse => 5,
        Phase::AwaitingBody => 4,
        Phase::AwaitingClip => 3,
        Phase::AwaitingPlayback { .. } => 2,
        Phase::AwaitingWake => 1,
        Phase::Finished => 0,
    }
}

/// Every event brings the end nearer: nothing is tried a second time.
pub proof fn lemma_step_brings_the_end_nearer(phase: Phase, event: Event)
    ensures
        steps_left(step(phase, event).0) < steps_left(phase) || step(phase, event).0
            == Phase::Finished,
{
}

/// Whatever is reported, the processing of an utterance is over after as
/// many events as the phase has steps left: five from the start.
pub proof fn lemma_processing_ends(phase: Phase, events: Seq<Event>)
    requires
        events.len() >= steps_left(phase),
    ensures
        phase_after(phase, events) == Phase::Finished,
    decreases events.len(),
{
    if events.len() > 0 {
        lemma_step_brings_the_end_nearer(phase, events[0]);
        lemma_processing_ends(step(phase, events[0]).0, events.drop_first());
    }
}

/// Once finished, a processor stays finished, and no event makes it ask for
/// the network or the device again.
pub proof fn lemma_finished_stays_finished(events: Seq<Event>, i: int)
    requires
        0 <= i < events.len(),
    ensures
        phase_after(Phase::Finished, events) == Phase::Finished,
        actions(Phase::Finished, events).len() == events.len(),
        actions(Phase::Finished, events)[i] == (Action::Finish {
            outcome: Outcome::Failed { error: ProcessError::OutOfTurn },
        }),
    decreases events.len(),
{
    if i > 0 {
        lemma_finished_stays_finished(events.drop_first(), i - 1);
    } else if events.len() > 1 {
        lemma_finished_stays_finished(events.drop_first(), 0);
    } else {
        assert(events.drop_first().len() == 0);
        assert(actions(Phase::Finished, events.drop_first()).len() == 0);
    }
}

} // verus!
