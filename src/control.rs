use vstd::prelude::*;

verus! {

/// Period of the refresh tick that the host merges into its event stream.
pub const TICK_MILLIS: u64 = 50;

/// Playback state as the user sees it.
#[derive(Debug, Clone, Copy, PartialEq, Eq, Structural)]
pub enum PlayStatus {
    Stop,
    Playing,
    End,
}

/// Events that the host feeds back into [`GstreamerIced::update`].
#[derive(Debug, Clone, Copy, PartialEq, Eq, Structural)]
pub enum GStreamerMessage {
    /// The periodic tick.
    Update,
    /// A new frame was written to the frame slot.
    FrameUpdate,
    /// The user asked for another play status.
    PlayStatusChanged(PlayStatus),
}

/// A seek target.
#[derive(Debug, Clone, Copy, PartialEq, Eq, Structural, Hash)]
pub enum Position {
    /// Position in time, in nanoseconds. Not the most accurate format for videos.
    Time(u64),
    /// Position as the index of a frame.
    Frame(u64),
}

impl From<u64> for Position {
    fn from(f: u64) -> (r: Position)
        ensures
            r == Position::Frame(f),
    {
        Position::Frame(f)
    }
}

impl vstd::std_specs::convert::FromSpecImpl<u64> for Position {
    open spec fn obeys_from_spec() -> bool {
        true
    }

    open spec fn from_spec(f: u64) -> Position {
        Position::Frame(f)
    }
}

/// Failures of the bridge.
#[derive(Debug, Clone, Copy, PartialEq, Eq, Structural)]
pub enum Error {
    /// The pipeline library could not be initialised or an element could not be made.
    Glib,
    /// A pipeline call reported failure.
    Bool,
    /// The pipeline has no message bus.
    Bus,
    /// The pipeline could not change state.
    StateChange,
    /// An expected pipeline element was absent or of another kind.
    Cast,
    /// Input or output failed.
    Io,
    /// The source address is not valid.
    Uri,
    /// The media capabilities of a sample could not be read.
    Caps,
    /// The duration or position of the media is not known yet.
    Duration,
    /// The pipeline refused a seek.
    Sync,
    /// The pipeline reported a fatal error on its bus: the session is over.
    Pipeline,
}

/// What the caller must ask of the pipeline after a play status change.
#[derive(Debug, Clone, Copy, PartialEq, Eq, Structural)]
pub enum PipelineAction {
    Nothing,
    SetPlaying,
    SetPaused,
}

/// A message read from the pipeline's bus, reduced to what the controller reads.
#[derive(Debug, Clone, Copy, PartialEq, Eq, Structural)]
pub enum BusMessage {
    Error,
    Eos,
    Other,
}

/// Whether the caller should keep draining the bus.
#[derive(Debug, Clone, Copy, PartialEq, Eq, Structural)]
pub enum BusStep {
    /// Go on with the next queued message.
    Continue,
    /// End of stream was seen: stop draining for this refresh.
    EndOfStream,
    /// A fatal pipeline error was seen: the session is over.
    Fatal,
}

/// The playback controller's state, without the pipeline it drives.
#[derive(Debug)]
pub struct GstreamerIced {
    play_status: PlayStatus,
    duration: u64,
    position: u64,
    duration_pending: bool,
    is_pipewire: bool,
}

/// The mathematical state of a controller. Times are in nanoseconds.
pub struct PlaybackView {
    pub status: PlayStatus,
    pub duration: nat,
    pub position: nat,
    /// The duration has still to be resolved.
    pub duration_pending: bool,
    /// The source is a live capture: no seek, volume or duration.
    pub live_capture: bool,
}

impl View for GstreamerIced {
    type V = PlaybackView;

    closed spec fn view(&self) -> PlaybackView {
        PlaybackView {
            status: self.play_status,
            duration: self.duration as nat,
            position: self.position as nat,
            duration_pending: self.duration_pending,
            live_capture: self.is_pipewire,
        }
    }
}

/// The invariant of every controller: a live capture never resolves a
/// duration, and a nonzero duration is latched.
pub open spec fn playback_wf(p: PlaybackView) -> bool {
    &&& p.live_capture ==> !p.duration_pending && p.duration == 0 && p.position == 0
    &&& p.duration != 0 ==> !p.duration_pending
}

/// The state right after a source from an address was opened.
pub open spec fn url_start(is_live: bool) -> PlaybackView {
    PlaybackView {
        status: PlayStatus::Stop,
        duration: 0,
        position: 0,
        duration_pending: !is_live,
        live_capture: false,
    }
}

/// The state right after a live capture was opened and started.
pub open spec fn capture_start() -> PlaybackView {
    PlaybackView {
        status: PlayStatus::Playing,
        duration: 0,
        position: 0,
        duration_pending: false,
        live_capture: true,
    }
}

/// Effect of a play status request on the state.
pub open spec fn after_status_request(p: PlaybackView, s: PlayStatus) -> PlaybackView {
    match s {
        PlayStatus::End => p,
        _ => PlaybackView { status: s, ..p },
    }
}

/// The pipeline action that a play status request asks for.
pub open spec fn status_action(s: PlayStatus) -> PipelineAction {
    match s {
        PlayStatus::Playing => PipelineAction::SetPlaying,
        PlayStatus::Stop => PipelineAction::SetPaused,
        PlayStatus::End => PipelineAction::Nothing,
    }
}

/// Whether a refresh should query the duration.
pub open spec fn wants_duration_spec(p: PlaybackView) -> bool {
    !p.live_capture && p.duration_pending
}

/// Whether a refresh should query the position.
pub open spec fn wants_position_spec(p: PlaybackView) -> bool {
    !p.live_capture && p.duration != 0
}

/// Effect of one duration query's answer (`None`: not available yet).
pub open spec fn after_duration_answer(p: PlaybackView, answer: Option<nat>) -> PlaybackView {
    if wants_duration_spec(p) && answer is Some {
        PlaybackView { duration: answer.unwrap(), duration_pending: false, ..p }
    } else {
        p
    }
}

/// Effect of one position query's answer (`None`: not available yet).
pub open spec fn after_position_answer(p: PlaybackView, answer: Option<nat>) -> PlaybackView {
    if wants_position_spec(p) && answer is Some {
        PlaybackView { position: answer.unwrap(), ..p }
    } else {
        p
    }
}

/// The seek that the pipeline should be asked for, if any.
pub open spec fn seek_request_spec(p: PlaybackView, target: Position) -> Option<Position> {
    if p.live_capture {
        None
    } else {
        Some(target)
    }
}

/// Effect of a seek once the pipeline answered whether it took it.
pub open spec fn after_seek(p: PlaybackView, accepted: bool) -> PlaybackView {
    if !p.live_capture && accepted && p.status == PlayStatus::End {
        PlaybackView { status: PlayStatus::Playing, ..p }
    } else {
        p
    }
}

/// What a seek returns once the pipeline answered.
pub open spec fn seek_outcome(p: PlaybackView, accepted: bool) -> Result<(), Error> {
    if p.live_capture || accepted {
        Ok(())
    } else {
        Err(Error::Sync)
    }
}

/// Effect of one bus message on the state.
pub open spec fn after_bus_message(p: PlaybackView, m: BusMessage) -> PlaybackView {
    if m == BusMessage::Eos && p.status == PlayStatus::Playing {
        PlaybackView { status: PlayStatus::End, ..p }
    } else {
        p
    }
}

/// What draining does after one bus message.
pub open spec fn bus_step(m: BusMessage) -> BusStep {
    match m {
        BusMessage::Error => BusStep::Fatal,
        BusMessage::Eos => BusStep::EndOfStream,
        BusMessage::Other => BusStep::Continue,
    }
}

impl GstreamerIced {
    /// The controller's invariant, over its view.
    pub open spec fn wf(&self) -> bool {
        playback_wf(self@)
    }

    /// The controller of a source read from an address. It starts stopped; a
    /// live stream never resolves its duration.
    pub fn new_url(islive: bool) -> (r: GstreamerIced)
        ensures
            r.wf(),
            r@ == url_start(islive),
    {
        GstreamerIced {
            play_status: PlayStatus::Stop,
            duration: 0,
            position: 0,
            duration_pending: !islive,
            is_pipewire: false,
        }
    }

    /// The controller of a live capture. The pipeline is started at once.
    pub fn new_pipewire() -> (r: GstreamerIced)
        ensures
            r.wf(),
            r@ == capture_start(),
    {
        GstreamerIced {
            play_status: PlayStatus::Playing,
            duration: 0,
            position: 0,
            duration_pending: false,
            is_pipewire: true,
        }
    }

    /// The current play status.
    pub fn play_status(&self) -> (r: PlayStatus)
        ensures
            r == self@.status,
    {
        self.play_status
    }

    /// Whether the host should subscribe to ticks and frame events: only while playing.
    pub fn is_playing(&self) -> (r: bool)
        ensures
            r == (self@.status == PlayStatus::Playing),
    {
        self.play_status == PlayStatus::Playing
    }

    /// Whether the source is a live capture.
    pub fn is_pipewire(&self) -> (r: bool)
        ensures
            r == self@.live_capture,
    {
        self.is_pipewire
    }

    /// The duration in nanoseconds; zero for a live source or before it is known.
    pub fn duration_nanos(&self) -> (r: u64)
        ensures
            r == self@.duration,
    {
        self.duration
    }

    /// The position in nanoseconds.
    pub fn position_nanos(&self) -> (r: u64)
        ensures
            r == self@.position,
    {
        self.position
    }

    /// Whether the volume is meaningful for this source.
    pub fn has_volume(&self) -> (r: bool)
        ensures
            r == !self@.live_capture,
    {
        !self.is_pipewire
    }

    /// Handles a play status request and says what to ask of the pipeline.
    /// Ticks and frame events leave the state alone here: they start a
    /// refresh, see [`GstreamerIced::wants_duration`].
    pub fn update(&mut self, message: GStreamerMessage) -> (r: PipelineAction)
        requires
            old(self).wf(),
        ensures
            final(self).wf(),
            match message {
                GStreamerMessage::PlayStatusChanged(s) => final(self)@ == after_status_request(
                    old(self)@,
                    s,
                ) && r == status_action(s),
                _ => final(self)@ == old(self)@ && r == PipelineAction::Nothing,
            },
    {
        match message {
            GStreamerMessage::PlayStatusChanged(status) => match status {
                PlayStatus::Playing => {
                    self.play_status = PlayStatus::Playing;
                    PipelineAction::SetPlaying
                },
                PlayStatus::Stop => {
                    self.play_status = PlayStatus::Stop;
                    PipelineAction::SetPaused
                },
                PlayStatus::End => PipelineAction::Nothing,
            },
            _ => PipelineAction::Nothing,
        }
    }

    /// Whether this refresh should make its one attempt at the duration.
    pub fn wants_duration(&self) -> (r: bool)
        ensures
            r == wants_duration_spec(self@),
    {
        !self.is_pipewire && self.duration_pending
    }

    /// Records the answer of the duration query of this refresh. A first
    /// answer is latched; `None` leaves the attempt for the next tick.
    pub fn record_duration(&mut self, answer: Option<u64>)
        requires
            old(self).wf(),
        ensures
            final(self).wf(),
            final(self)@ == after_duration_answer(
                old(self)@,
                match answer {
                    Some(d) => Some(d as nat),
                    None => None,
                },
            ),
    {
        if !self.is_pipewire && self.duration_pending {
            if let Some(d) = answer {
                self.duration = d;
                self.duration_pending = false;
            }
        }
    }

    /// Whether this refresh should make its one attempt at the position.
    pub fn wants_position(&self) -> (r: bool)
        ensures
            r == wants_position_spec(self@),
    {
        !self.is_pipewire && self.duration != 0
    }

    /// Records the answer of the position query of this refresh.
    pub fn record_position(&mut self, answer: Option<u64>)
        requires
            old(self).wf(),
        ensures
            final(self).wf(),
            final(self)@ == after_position_answer(
                old(self)@,
                match answer {
                    Some(d) => Some(d as nat),
                    None => None,
                },
            ),
    {
        if !self.is_pipewire && self.duration != 0 {
            if let Some(p) = answer {
                self.position = p;
            }
        }
    }

    /// Handles one queued bus message of a refresh and says whether to go on.
    pub fn on_bus_message(&mut self, message: BusMessage) -> (r: BusStep)
        requires
            old(self).wf(),
        ensures
            final(self).wf(),
            final(self)@ == after_bus_message(old(self)@, message),
            r == bus_step(message),
    {
        match message {
            BusMessage::Error => BusStep::Fatal,
            BusMessage::Eos => {
                if self.play_status == PlayStatus::Playing {
                    self.play_status = PlayStatus::End;
                }
                BusStep::EndOfStream
            },
            BusMessage::Other => BusStep::Continue,
        }
    }

    /// Whether a message starts a refresh (duration and position attempts,
    /// volume, bus drain): ticks and frame events do, play status requests
    /// do not.
    pub fn starts_refresh(message: GStreamerMessage) -> (r: bool)
        ensures
            r == (message == GStreamerMessage::Update || message == GStreamerMessage::FrameUpdate),
    {
        match message {
            GStreamerMessage::PlayStatusChanged(_) => false,
            _ => true,
        }
    }

    /// Drains the queued bus messages of a refresh, in order, up to and
    /// including the first error or end of stream. Returns how draining ended
    /// and how many messages were consumed; the rest stay queued for the next
    /// refresh.
    pub fn drain_bus(&mut self, messages: &Vec<BusMessage>) -> (r: (BusStep, usize))
        requires
            old(self).wf(),
        ensures
            final(self).wf(),
            r.1 <= messages@.len(),
            forall|j: int| 0 <= j < r.1 - 1 ==> messages@[j] == BusMessage::Other,
            r.0 == BusStep::Continue ==> r.1 == messages@.len() && (r.1 == 0
                || messages@[r.1 - 1] == BusMessage::Other),
            r.0 != BusStep::Continue ==> r.1 >= 1 && r.0 == bus_step(messages@[r.1 - 1])
                && messages@[r.1 - 1] != BusMessage::Other,
            final(self)@ == (if r.0 == BusStep::EndOfStream {
                after_bus_message(old(self)@, BusMessage::Eos)
            } else {
                old(self)@
            }),
    {
        let mut i: usize = 0;
        while i < messages.len()
            invariant
                self.wf(),
                self@ == old(self)@,
                i <= messages@.len(),
                forall|j: int| 0 <= j < i ==> messages@[j] == BusMessage::Other,
            decreases messages@.len() - i,
        {
            let step = self.on_bus_message(messages[i]);
            i = i + 1;
            match step {
                BusStep::Continue => {},
                _ => {
                    return (step, i);
                },
            }
        }
        (BusStep::Continue, i)
    }

    /// The seek to issue to the pipeline; `None` for a live capture, where
    /// seeking does nothing.
    pub fn seek_request(&self, position: Position) -> (r: Option<Position>)
        ensures
            r == seek_request_spec(self@, position),
    {
        if self.is_pipewire {
            None
        } else {
            Some(position)
        }
    }

    /// Completes a seek once the pipeline answered whether it took it. A
    /// seek taken while the stream had ended resumes playing; a refused one
    /// fails with [`Error::Sync`].
    pub fn seek_done(&mut self, accepted: bool) -> (r: Result<(), Error>)
        requires
            old(self).wf(),
        ensures
            final(self).wf(),
            final(self)@ == after_seek(old(self)@, accepted),
            r == seek_outcome(old(self)@, accepted),
    {
        if self.is_pipewire {
            return Ok(());
        }
        if !accepted {
            return Err(Error::Sync);
        }
        if self.play_status == PlayStatus::End {
            self.play_status = PlayStatus::Playing;
        }
        Ok(())
    }
}

} // verus!
