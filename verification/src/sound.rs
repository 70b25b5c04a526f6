//! The tone sequencer: a track of notes, the generator that sounds one note at
//! a time, and the state machine that owns the generator.
//!
//! The generator is held as the record of what was last programmed into it.
//! Whoever drives the hardware carries that record over after each call.
use crate::notes::{is_silent, playable, silent, Note, Notes, MAX_DUTY, SAMPLE_FREQ};
use vstd::prelude::*;

verus! {

/// The tone generator before it is taken into service.
#[derive(Debug, PartialEq, Eq)]
pub struct Pwm0 {}

/// The pin of the speaker, not wired to anything.
#[derive(Debug, PartialEq, Eq)]
pub struct SpeakerPin {
    pub pin: u8,
}

/// The tone generator, as it was last programmed.
#[derive(Debug, PartialEq, Eq)]
pub struct Pwm {
    /// The pin that the generator drives, if one is wired to it.
    pub output: Option<SpeakerPin>,
    /// Whether the generator is switched on.
    pub enabled: bool,
    /// Whether the end of a sequence raises the interrupt.
    pub interrupt: bool,
    /// The length of one sample's period in clock ticks.
    pub max_duty: u16,
    /// Whether a sequence was started and not stopped since.
    pub running: bool,
    /// How many times the loaded waveform is played.
    pub loop_times: u16,
    /// How many sample periods of silence follow the waveform.
    pub seq_end_delay: u32,
    /// The waveform that was loaded last.
    pub samples: Option<&'static [u16]>,
    /// The first `split` samples are the first half of the sequence, the rest
    /// the second.
    pub split: usize,
}

/// The repeat count of a note as a number: the samples that fit into its time,
/// in whole waveforms, and at least one.
pub open spec fn loops_exact(t_ms: int, sample_len: int) -> int {
    let whole = t_ms * (SAMPLE_FREQ as int) / 1000 / sample_len;
    if whole < 1 {
        1
    } else {
        whole
    }
}

/// The repeat count as the generator takes it: the sixteen low bits of
/// [`loops_exact`].
pub open spec fn loops_spec(t_ms: u16, sample_len: usize) -> u16 {
    (loops_exact(t_ms as int, sample_len as int) % 0x1_0000) as u16
}

impl Pwm {
    /// The generator as it comes into service: switched off, nothing wired,
    /// nothing loaded.
    pub open spec fn reset() -> Pwm {
        Pwm {
            output: None,
            enabled: false,
            interrupt: false,
            max_duty: 0,
            running: false,
            loop_times: 0,
            seq_end_delay: 0,
            samples: None,
            split: 0,
        }
    }

    /// Wired to `speaker` and switched on, with no silence after a sequence.
    pub open spec fn enabled_with(self, speaker: SpeakerPin) -> Pwm {
        Pwm {
            output: Some(speaker),
            enabled: true,
            interrupt: true,
            max_duty: MAX_DUTY,
            seq_end_delay: 0,
            ..self
        }
    }

    /// Halted; what was loaded stays loaded.
    pub open spec fn stopped(self) -> Pwm {
        Pwm { running: false, ..self }
    }

    /// Switched off, the pin taken away.
    pub open spec fn released(self) -> Pwm {
        Pwm { enabled: false, output: None, ..self }
    }

    /// Programmed with `note` and started. A sounding waveform is looped for
    /// its repeat count. The silent waveform is played once and followed by a
    /// silence of as many sample periods as its repeat count.
    pub open spec fn playing(self, note: Note) -> Pwm {
        let repeat = loops_spec(note.1, note.0@.len() as usize);
        Pwm {
            loop_times: if is_silent(note.0@) {
                1
            } else {
                repeat
            },
            seq_end_delay: if is_silent(note.0@) {
                repeat as u32
            } else {
                0
            },
            samples: Some(note.0),
            split: (note.0@.len() / 2) as usize,
            running: true,
            ..self
        }
    }

    /// Take the generator into service.
    pub fn new(pwm: Pwm0) -> (generator: Pwm)
        ensures
            generator == Pwm::reset(),
    {
        let Pwm0 {  } = pwm;
        Pwm {
            output: None,
            enabled: false,
            interrupt: false,
            max_duty: 0,
            running: false,
            loop_times: 0,
            seq_end_delay: 0,
            samples: None,
            split: 0,
        }
    }
}

/// An ordered sequence of notes with a cursor.
#[derive(Debug, PartialEq, Eq)]
pub struct Track {
    pub notes: Notes,
    pub position: usize,
}

impl Track {
    /// The cursor lies within the track or at its end.
    pub open spec fn wf(&self) -> bool {
        self.position <= self.notes@.len()
    }

    /// No entry is left.
    pub open spec fn exhausted(&self) -> bool {
        self.position >= self.notes@.len()
    }

    /// The track with its cursor at the first note.
    pub open spec fn fresh(notes: Notes) -> Track {
        Track { notes, position: 0 }
    }

    /// The entry under the cursor, if there is one.
    pub open spec fn current(&self) -> Option<Note> {
        if self.exhausted() {
            None
        } else {
            Some(self.notes@[self.position as int])
        }
    }

    /// The track after one call of [`Track::next_note`]: the cursor has moved
    /// on by one, unless the track was exhausted.
    pub open spec fn advanced(self) -> Track {
        if self.exhausted() {
            self
        } else {
            Track { notes: self.notes, position: (self.position + 1) as usize }
        }
    }

    /// The track after `calls` calls of [`Track::next_note`].
    pub open spec fn advanced_by(self, calls: nat) -> Track
        decreases calls,
    {
        if calls == 0 {
            self
        } else {
            self.advanced().advanced_by((calls - 1) as nat)
        }
    }

    pub fn new(notes: Notes) -> (track: Self)
        ensures
            track == Track::fresh(notes),
            track.wf(),
    {
        Self { notes, position: 0 }
    }

    /// The entry under the cursor, which then moves on; `None`, and no change,
    /// once the track is exhausted.
    pub fn next_note(&mut self) -> (note: Option<Note>)
        ensures
            note == old(self).current(),
            *final(self) == old(self).advanced(),
            old(self).wf() ==> final(self).wf(),
    {
        if self.position < self.notes.len() {
            let note = self.notes[self.position];
            self.position = self.position + 1;
            Some(note)
        } else {
            None
        }
    }
}

/// The three modes of the sequencer. Each owns the generator.
#[derive(Debug, PartialEq, Eq)]
pub enum AudioState {
    /// The generator is switched off and the speaker's pin is not wired to it.
    Disconnected { pwm: Pwm, speaker: SpeakerPin },
    /// The pin is wired and the generator is switched on, but halted.
    Idle { pwm: Pwm },
    /// A track is being played.
    Playing { pwm: Pwm, track: Track },
}

impl AudioState {
    /// The generator that the state owns.
    pub open spec fn pwm_spec(&self) -> Pwm {
        match self {
            AudioState::Disconnected { pwm, speaker: _ } => *pwm,
            AudioState::Idle { pwm } => *pwm,
            AudioState::Playing { pwm, track: _ } => *pwm,
        }
    }

    /// The generator holds the pin exactly when the state does not, it is
    /// switched on exactly when it holds the pin, it runs only while a track is
    /// played, and every waveform of that track has a sample.
    pub open spec fn wf(&self) -> bool {
        match self {
            AudioState::Disconnected { pwm, speaker: _ } => pwm.output is None && !pwm.enabled
                && !pwm.running,
            AudioState::Idle { pwm } => pwm.output is Some && pwm.enabled && !pwm.running,
            AudioState::Playing { pwm, track } => pwm.output is Some && pwm.enabled && track.wf()
                && playable(track.notes@),
        }
    }

    /// The state at system start.
    pub open spec fn initial(speaker: SpeakerPin) -> AudioState {
        AudioState::Disconnected { pwm: Pwm::reset(), speaker }
    }

    /// `connect` as a function: from Disconnected to Idle, else no change.
    pub open spec fn connected(self) -> AudioState {
        match self {
            AudioState::Disconnected { pwm, speaker } => AudioState::Idle {
                pwm: pwm.enabled_with(speaker),
            },
            _ => self,
        }
    }

    /// `set_track` as a function: from Idle to Playing with the cursor at the
    /// first note, else no change.
    pub open spec fn with_track(self, notes: Notes) -> AudioState {
        match self {
            AudioState::Idle { pwm } => AudioState::Playing { pwm, track: Track::fresh(notes) },
            _ => self,
        }
    }

    /// `stop` as a function: from Playing to Idle, else no change.
    pub open spec fn stopped(self) -> AudioState {
        match self {
            AudioState::Playing { pwm, track: _ } => AudioState::Idle { pwm: pwm.stopped() },
            _ => self,
        }
    }

    /// `disconnect` as a function: from Idle to Disconnected, else no change.
    pub open spec fn disconnected(self) -> AudioState {
        match self {
            AudioState::Idle { pwm } => AudioState::Disconnected {
                pwm: pwm.released(),
                speaker: pwm.output->0,
            },
            _ => self,
        }
    }

    /// `play_next_note` as a function. While a track is played and has an
    /// entry left, the generator is programmed with it and the cursor moves
    /// on; the flag is set where the track was exhausted.
    pub open spec fn next_note_played(self) -> (AudioState, bool) {
        match self {
            AudioState::Playing { pwm, track } => match track.current() {
                Some(note) => (
                    AudioState::Playing { pwm: pwm.playing(note), track: track.advanced() },
                    false,
                ),
                None => (self, true),
            },
            _ => (self, false),
        }
    }

    pub fn new(pwm: Pwm0, speaker: SpeakerPin) -> (state: Self)
        ensures
            state == AudioState::initial(speaker),
            state.wf(),
    {
        Self::Disconnected { pwm: Pwm::new(pwm), speaker }
    }

    /// Set track and switch to playing.
    pub fn set_track(self, notes: Notes) -> (state: Self)
        ensures
            state == self.with_track(notes),
            !(self is Idle) ==> state == self,
            self.wf() && playable(notes@) ==> state.wf(),
    {
        match self {
            AudioState::Idle { pwm } => AudioState::Playing { pwm, track: Track::new(notes) },
            other => other,
        }
    }

    /// Stop the generator, unset track and switch to idle.
    pub fn stop(self) -> (state: Self)
        ensures
            state == self.stopped(),
            !(self is Playing) ==> state == self,
            self.wf() ==> state.wf(),
    {
        match self {
            AudioState::Playing { pwm, track: _ } => {
                let mut pwm = pwm;
                pwm.running = false;
                AudioState::Idle { pwm }
            },
            other => other,
        }
    }

    /// Connect speaker pin to the generator.
    ///
    /// Switch from Disconnected to Idle.
    pub fn connect(self) -> (state: Self)
        ensures
            state == self.connected(),
            !(self is Disconnected) ==> state == self,
            self.wf() ==> state.wf(),
    {
        match self {
            AudioState::Disconnected { pwm, speaker } => {
                let pwm = Self::enable(pwm, speaker);
                AudioState::Idle { pwm }
            },
            other => other,
        }
    }

    /// Disconnect speaker pin to save power.
    ///
    /// Switch from Idle to Disconnected.
    pub fn disconnect(self) -> (state: Self)
        requires
            self.wf(),
        ensures
            state == self.disconnected(),
            !(self is Idle) ==> state == self,
            state.wf(),
    {
        match self {
            AudioState::Idle { pwm } => {
                let mut pwm = pwm;
                pwm.enabled = false;
                let speaker = pwm.output.take().unwrap();
                AudioState::Disconnected { pwm, speaker }
            },
            other => other,
        }
    }

    /// The generator that the state owns.
    #[inline]
    pub fn pwm(&self) -> (pwm: &Pwm)
        ensures
            *pwm == self.pwm_spec(),
    {
        match self {
            AudioState::Disconnected { pwm, speaker: _ } => pwm,
            AudioState::Idle { pwm } => pwm,
            AudioState::Playing { pwm, track: _ } => pwm,
        }
    }

    /// Play next note.
    ///
    /// Won't do anything if currently not Playing.
    ///
    /// Returns the state, and whether the track was found exhausted.
    pub fn play_next_note(self) -> (next: (Self, bool))
        requires
            self.wf(),
        ensures
            next == self.next_note_played(),
            !(self is Playing) ==> next.0 == self && !next.1,
            next.0.wf(),
    {
        match self {
            AudioState::Playing { pwm, track } => {
                let mut track = track;
                if let Some(note) = track.next_note() {
                    let pwm = Self::play_note(pwm, note);
                    (AudioState::Playing { pwm, track }, false)
                } else {
                    (AudioState::Playing { pwm, track }, true)
                }
            },
            other => (other, false),
        }
    }

    /// Program the generator with one note and start it. A silent note is
    /// turned into a delay instead of a loop.
    pub fn play_note(pwm: Pwm, note: Note) -> (programmed: Pwm)
        requires
            note.0@.len() > 0,
        ensures
            programmed == pwm.playing(note),
    {
        let (samples, t_ms) = note;
        let repeat = Self::loops(t_ms, samples.len());
        let mut pwm = pwm;
        if silent(samples) {
            pwm.loop_times = 1;
            pwm.seq_end_delay = repeat as u32;
        } else {
            pwm.loop_times = repeat;
            pwm.seq_end_delay = 0;
        }
        pwm.samples = Some(samples);
        pwm.split = samples.len() / 2;
        pwm.running = true;
        pwm
    }

    /// Wire the speaker's pin to the generator and switch it on.
    pub fn enable(pwm: Pwm, speaker: SpeakerPin) -> (enabled: Pwm)
        ensures
            enabled == pwm.enabled_with(speaker),
    {
        let mut pwm = pwm;
        pwm.seq_end_delay = 0;
        pwm.interrupt = true;
        pwm.output = Some(speaker);
        pwm.max_duty = MAX_DUTY;
        pwm.enabled = true;
        pwm
    }

    /// The repeat count of a note of `t_ms` milliseconds whose waveform has
    /// `sample_len` samples.
    #[inline]
    pub fn loops(t_ms: u16, sample_len: usize) -> (repeat: u16)
        requires
            sample_len > 0,
        ensures
            repeat == loops_spec(t_ms, sample_len),
            loops_exact(t_ms as int, sample_len as int) <= u16::MAX ==> repeat == loops_exact(
                t_ms as int,
                sample_len as int,
            ),
    {
        let frequency: u64 = SAMPLE_FREQ as u64;
        assert(t_ms * frequency == t_ms * 62500) by (nonlinear_arith)
            requires
                frequency == 62500,
        ;
        let samples: u64 = t_ms as u64 * frequency / 1000;
        let whole: u64 = samples / (sample_len as u64);
        let repeat: u64 = if whole < 1 {
            1
        } else {
            whole
        };
        (repeat % 0x1_0000) as u16
    }
}

/// The state once the machine was brought to Playing and asked for a note:
/// connect if Disconnected, then set the track if Idle, then play the next
/// note.
pub open spec fn played_from(state: AudioState, track: Notes) -> AudioState {
    state.connected().with_track(track).next_note_played().0
}

/// The state after a request to play `track`: a track that is being played is
/// stopped first.
pub open spec fn started(state: AudioState, track: Notes) -> AudioState {
    played_from(state.stopped(), track)
}

/// The state after the generator has signalled the end of a sequence. While a
/// track is played, its next note is programmed; once it is exhausted, the
/// machine is stopped and disconnected. An idle machine is disconnected.
pub open spec fn after_loops_done(state: AudioState) -> AudioState {
    match state {
        AudioState::Playing { .. } => {
            let (next, done) = state.next_note_played();
            if done {
                next.stopped().disconnected()
            } else {
                next
            }
        },
        AudioState::Idle { .. } => state.disconnected(),
        AudioState::Disconnected { .. } => state,
    }
}

/// How many transitions a request to play still has to make from `state`.
pub open spec fn transitions_to_play(state: AudioState) -> nat {
    match state {
        AudioState::Disconnected { .. } => 3,
        AudioState::Idle { .. } => 2,
        AudioState::Playing { .. } => 1,
    }
}

/// How many transitions the end of a sequence can still cause from `state`.
pub open spec fn transitions_to_rest(state: AudioState) -> nat {
    match state {
        AudioState::Playing { .. } => 3,
        AudioState::Idle { .. } => 1,
        AudioState::Disconnected { .. } => 0,
    }
}

/// The single slot that holds the sequencer's state.
#[derive(Debug)]
pub struct Sound(Option<AudioState>);

impl Sound {
    /// The slot is filled, and what it holds is well-formed.
    pub closed spec fn wf(&self) -> bool {
        self.0 is Some && self.0->0.wf()
    }

    /// The state in the slot.
    pub closed spec fn state_spec(&self) -> AudioState {
        self.0->0
    }

    pub fn new(pwm: Pwm0, speaker: SpeakerPin) -> (sound: Self)
        ensures
            sound.wf(),
            sound.state_spec() == AudioState::initial(speaker),
    {
        Self(Some(AudioState::new(pwm, speaker)))
    }

    /// The state in the slot.
    pub fn state(&self) -> (state: &AudioState)
        requires
            self.wf(),
        ensures
            *state == self.state_spec(),
            state.wf(),
    {
        self.0.as_ref().unwrap()
    }

    /// Set track and start playing.
    /// If currently playing, stop this track.
    pub fn play_track(&mut self, track: Notes)
        requires
            old(self).wf(),
            playable(track@),
        ensures
            final(self).wf(),
            final(self).state_spec() == started(old(self).state_spec(), track),
    {
        // stop the playing track.
        let state = self.0.take().unwrap();
        let ghost mut transitions: nat = if state is Playing {
            1
        } else {
            0
        };
        let mut state = state.stop();
        // if disconnected, connect.
        // if idle, set track.
        // if track set, play next note.
        loop
            invariant_except_break
                state.wf(),
                playable(track@),
                !(state is Playing) ==> played_from(state, track) == started(
                    old(self).state_spec(),
                    track,
                ),
                state is Playing ==> state.next_note_played().0 == started(
                    old(self).state_spec(),
                    track,
                ),
                transitions + transitions_to_play(state) <= 3,
            ensures
                state.wf(),
                state == started(old(self).state_spec(), track),
                transitions <= 3,
            decreases transitions_to_play(state),
        {
            proof {
                transitions = transitions + 1;
            }
            match state {
                AudioState::Disconnected { .. } => {
                    state = state.connect();
                },
                AudioState::Idle { .. } => {
                    state = state.set_track(track);
                },
                AudioState::Playing { .. } => {
                    let (next, _) = state.play_next_note();
                    state = next;
                    break ;
                },
            }
        }
        self.0 = Some(state);
    }

    /// Handles the signal that the generator has finished its sequence.
    pub fn handle_interrupt(&mut self)
        requires
            old(self).wf(),
        ensures
            final(self).wf(),
            final(self).state_spec() == after_loops_done(old(self).state_spec()),
    {
        // if track unfinished, play next note.
        // if track finished, stop playing.
        // if idle, disconnect.
        // if disconnected, do nothing.
        let mut state = self.0.take().unwrap();
        loop
            invariant_except_break
                state.wf(),
                after_loops_done(state) == after_loops_done(old(self).state_spec()),
            ensures
                state.wf(),
                state == after_loops_done(old(self).state_spec()),
            decreases transitions_to_rest(state),
        {
            match state {
                AudioState::Playing { .. } => {
                    let (next, done) = state.play_next_note();
                    if done {
                        state = next.stop();
                        // go on to execute disconnect
                    } else {
                        state = next;
                        break ;
                    }
                },
                AudioState::Idle { .. } => {
                    state = state.disconnect();
                    break ;
                },
                AudioState::Disconnected { .. } => {
                    break ;
                },
            }
        }
        self.0 = Some(state);
    }
}

/// A fresh track hands out its entries once each and in order, and nothing
/// after them: the call number `calls`, counted from zero, finds the cursor on
/// `calls` and returns that entry while one is left, and finds the cursor at
/// the end and returns nothing ever after.
pub proof fn lemma_track_in_order(notes: Notes, calls: nat)
    ensures
        Track::fresh(notes).advanced_by(calls).notes == notes,
        Track::fresh(notes).advanced_by(calls).wf(),
        calls < notes@.len() ==> Track::fresh(notes).advanced_by(calls).position == calls
            && Track::fresh(notes).advanced_by(calls).current() == Some(notes@[calls as int]),
        calls >= notes@.len() ==> Track::fresh(notes).advanced_by(calls).position == notes@.len()
            && Track::fresh(notes).advanced_by(calls).current() is None,
{
    lemma_advanced_by(Track::fresh(notes), calls);
}

/// `calls` calls move the cursor on by `calls`, but not past the end.
pub proof fn lemma_advanced_by(track: Track, calls: nat)
    requires
        track.wf(),
    ensures
        track.advanced_by(calls).notes == track.notes,
        track.advanced_by(calls).position == if track.position + calls <= track.notes@.len() {
            track.position + calls
        } else {
            track.notes@.len() as int
        },
    decreases calls,
{
    assert(vstd::slice::spec_slice_len(track.notes) == track.notes@.len());
    if calls > 0 {
        lemma_advanced_by(track.advanced(), (calls - 1) as nat);
    }
}

/// The four transitions change a state only from the mode that each is made
/// for: everywhere else they hand the state back as it is.
pub proof fn lemma_transitions_elsewhere_change_nothing(state: AudioState, notes: Notes)
    ensures
        !(state is Disconnected) ==> state.connected() == state,
        !(state is Idle) ==> state.with_track(notes) == state,
        !(state is Playing) ==> state.stopped() == state,
        !(state is Idle) ==> state.disconnected() == state,
        !(state is Playing) ==> state.next_note_played() == (state, false),
        state is Disconnected ==> state.connected() is Idle,
        state is Idle ==> state.with_track(notes) is Playing,
        state is Playing ==> state.stopped() is Idle,
        state is Idle ==> state.disconnected() is Disconnected,
{
}

/// Every transition keeps a well-formed state well-formed.
pub proof fn lemma_transitions_keep_wf(state: AudioState, notes: Notes)
    requires
        state.wf(),
        playable(notes@),
    ensures
        state.connected().wf(),
        state.with_track(notes).wf(),
        state.stopped().wf(),
        state.disconnected().wf(),
        state.next_note_played().0.wf(),
{
}

/// A request to play is served by at most three transitions of the table:
/// from Disconnected by connect, set-track and play-next-note; from Idle by the
/// last two; from Playing by stop and the same two.
pub proof fn lemma_started_in_three(state: AudioState, track: Notes)
    ensures
        state is Disconnected ==> started(state, track)
            == state.connected().with_track(track).next_note_played().0,
        state is Idle ==> started(state, track) == state.with_track(track).next_note_played().0,
        state is Playing ==> started(state, track)
            == state.stopped().with_track(track).next_note_played().0,
{
}

/// A request to play a track that has a note ends, from any mode, with that
/// track being played, its first note programmed and running, and the cursor
/// on the second. A request to play an empty track leaves the generator
/// halted.
pub proof fn lemma_started_plays_first_note(state: AudioState, track: Notes)
    requires
        state.wf(),
        playable(track@),
    ensures
        started(state, track) is Playing,
        started(state, track)->track.notes == track,
        track@.len() > 0 ==> {
            &&& started(state, track)->track.position == 1
            &&& started(state, track).pwm_spec().running
            &&& started(state, track).pwm_spec().samples == Some(track@[0].0)
            &&& !is_silent(track@[0].0@) ==> started(state, track).pwm_spec().loop_times
                == loops_spec(track@[0].1, track@[0].0@.len() as usize)
            &&& is_silent(track@[0].0@) ==> started(state, track).pwm_spec().loop_times == 1
                && started(state, track).pwm_spec().seq_end_delay == loops_spec(
                track@[0].1,
                track@[0].0@.len() as usize,
            )
        },
        track@.len() == 0 ==> started(state, track)->track.position == 0 && !started(
            state,
            track,
        ).pwm_spec().running,
{
}

/// The end of a sequence either arms the next note, or leaves the machine
/// disconnected with the generator halted and the pin handed back. With the
/// last note sounding, one signal winds the machine down; with the last note
/// still to come, two do.
pub proof fn lemma_loops_done_winds_down(state: AudioState)
    requires
        state.wf(),
    ensures
        after_loops_done(state).wf(),
        after_loops_done(state) is Playing || after_loops_done(state) is Disconnected,
        after_loops_done(state) is Playing <==> state is Playing && !state->track.exhausted(),
        after_loops_done(state) is Playing ==> after_loops_done(state).pwm_spec().running,
        after_loops_done(state) is Disconnected ==> !after_loops_done(state).pwm_spec().running,
        state is Playing && state->track.position + 1 == state->track.notes@.len()
            ==> after_loops_done(after_loops_done(state)) is Disconnected,
        !(state is Disconnected) && after_loops_done(state) is Disconnected ==> Some(
            after_loops_done(state)->speaker,
        ) == state.pwm_spec().output,
{
    if state is Playing {
        assert(vstd::slice::spec_slice_len(state->track.notes) == state->track.notes@.len());
    }
}

} // verus!
