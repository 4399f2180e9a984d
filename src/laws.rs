use vstd::prelude::*;

use crate::control::{
    after_bus_message, after_duration_answer, after_position_answer, after_seek,
    after_status_request, playback_wf, seek_outcome, seek_request_spec, status_action, BusMessage,
    Error, PipelineAction, PlayStatus, PlaybackView, Position,
};

verus! {

/// On a live capture, seeking and the duration query have no effect: the
/// duration stays zero, no seek reaches the pipeline, a seek reports success
/// and leaves status and position as they were.
pub proof fn lemma_live_capture_is_inert(
    p: PlaybackView,
    target: Position,
    accepted: bool,
    duration_answer: Option<nat>,
    position_answer: Option<nat>,
)
    requires
        playback_wf(p),
        p.live_capture,
    ensures
        after_duration_answer(p, duration_answer).duration == 0,
        after_duration_answer(p, duration_answer) == p,
        after_position_answer(p, position_answer) == p,
        seek_request_spec(p, target) is None,
        after_seek(p, accepted) == p,
        seek_outcome(p, accepted) == Ok::<(), Error>(()),
{
}

/// A seek that the pipeline takes while the stream has ended resumes
/// playing, and the refresh that follows keeps it playing unless the bus
/// reports the end of the stream or a failure again.
pub proof fn lemma_seek_after_end_resumes(
    p: PlaybackView,
    duration_answer: Option<nat>,
    position_answer: Option<nat>,
    m: BusMessage,
)
    requires
        playback_wf(p),
        !p.live_capture,
        p.status == PlayStatus::End,
        m == BusMessage::Other,
    ensures
        after_seek(p, true).status == PlayStatus::Playing,
        after_bus_message(
            after_position_answer(
                after_duration_answer(after_seek(p, true), duration_answer),
                position_answer,
            ),
            m,
        ).status == PlayStatus::Playing,
{
}

/// A request to play always ends in `Playing`, one to stop in `Stop`,
/// whatever the state before.
pub proof fn lemma_status_request_is_obeyed(p: PlaybackView)
    ensures
        after_status_request(p, PlayStatus::Playing).status == PlayStatus::Playing,
        after_status_request(p, PlayStatus::Stop).status == PlayStatus::Stop,
        status_action(PlayStatus::Playing) == PipelineAction::SetPlaying,
        status_action(PlayStatus::Stop) == PipelineAction::SetPaused,
{
}

/// Once the duration is nonzero, no later step changes it, whatever the
/// pipeline answers.
pub proof fn lemma_duration_is_latched(
    p: PlaybackView,
    duration_answer: Option<nat>,
    position_answer: Option<nat>,
    m: BusMessage,
    s: PlayStatus,
    accepted: bool,
)
    requires
        playback_wf(p),
        p.duration != 0,
    ensures
        after_duration_answer(p, duration_answer).duration == p.duration,
        after_position_answer(p, position_answer).duration == p.duration,
        after_bus_message(p, m).duration == p.duration,
        after_status_request(p, s).duration == p.duration,
        after_seek(p, accepted).duration == p.duration,
{
}

/// The end of the stream is reached only from `Playing`, through a bus
/// message: every other step that yields `End` started there.
pub proof fn lemma_end_only_from_playing(
    p: PlaybackView,
    duration_answer: Option<nat>,
    position_answer: Option<nat>,
    m: BusMessage,
    s: PlayStatus,
    accepted: bool,
)
    requires
        p.status != PlayStatus::End,
    ensures
        after_bus_message(p, m).status == PlayStatus::End ==> p.status == PlayStatus::Playing
            && m == BusMessage::Eos,
        after_duration_answer(p, duration_answer).status != PlayStatus::End,
        after_position_answer(p, position_answer).status != PlayStatus::End,
        after_status_request(p, s).status != PlayStatus::End,
        after_seek(p, accepted).status != PlayStatus::End,
{
}

} // verus!
