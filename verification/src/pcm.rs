//! Decode pipeline state: generation-tagged sample chunks, the decode
//! thread's command handling, and the consumer-side sample iterator.
//!
//! One decode thread pulls samples from an external decoder and emits
//! fixed-size chunks into a bounded channel; the consumer pulls one sample at
//! a time and never blocks, padding with silence when starved. Seeks are
//! cancelled cooperatively: a shared generation counter is bumped, the
//! thread tags everything it produces with the generation it last adopted,
//! and the consumer discards messages whose tag is not current. The
//! blocking machinery (threads, channels, atomics, the decoder itself) is
//! the caller's; every decision it defers to is here, with a contract.

use vstd::prelude::*;

verus! {

/// Samples pulled from the decoder per emitted chunk.
pub const PCM_CHUNK_SAMPLES: usize = 8192;

/// Bound on the sample channel, in chunks. The decode thread blocks once
/// this many chunks are queued, so a consumer that never pulls cannot make
/// memory grow without bound.
pub const SAMPLE_CHANNEL_CAPACITY: usize = 32;

/// A message from the decode thread to the consumer: a chunk of samples, or
/// the end of the stream, each tagged with the generation it was produced
/// under.
pub enum SampleMessage<S> {
    /// A chunk of decoded samples and its generation tag.
    Samples(Vec<S>, u64),
    /// End of stream under the tagged generation.
    Finished(u64),
}

/// Mathematical model of a sample message.
pub ghost enum MessageModel<S> {
    /// A chunk of decoded samples and its generation tag.
    Samples(Seq<S>, int),
    /// End of stream under the tagged generation.
    Finished(int),
}

impl<S> View for SampleMessage<S> {
    type V = MessageModel<S>;

    open spec fn view(&self) -> MessageModel<S> {
        match self {
            SampleMessage::Samples(chunk, g) => MessageModel::Samples(chunk@, *g as int),
            SampleMessage::Finished(g) => MessageModel::Finished(*g as int),
        }
    }
}

/// An out-of-band command to the decode thread.
#[derive(Clone, Copy, Debug, PartialEq, Eq, Structural)]
pub enum DecoderCommand {
    /// Ask the decoder to seek and adopt `generation` as the tag for
    /// everything produced afterwards.
    Seek {
        /// Seek target, in milliseconds of playback time.
        position_millis: u64,
        /// The generation the seek was issued under.
        generation: u64,
    },
    /// End the decode loop.
    Stop,
}

/// The producer-side controller: it owns the authoritative playback
/// generation and forms the commands sent to the decode thread. Seeking
/// advances the generation, superseding everything produced before it.
pub struct StreamController {
    /// The current playback generation.
    pub generation: u64,
}

impl StreamController {
    /// The pair a seek produces: the advanced controller and the command to
    /// send.
    pub open spec fn seek_model(self, position_millis: u64) -> (StreamController, DecoderCommand) {
        (
            StreamController { generation: (self.generation + 1) as u64 },
            DecoderCommand::Seek {
                position_millis: position_millis,
                generation: (self.generation + 1) as u64,
            },
        )
    }

    /// A fresh controller; playback epochs start at generation 0.
    pub fn new() -> (r: Self)
        ensures
            r.generation == 0,
    {
        StreamController { generation: 0 }
    }

    /// Request a seek: advance the generation and form the command carrying
    /// the target and the new generation.
    pub fn seek(&mut self, position_millis: u64) -> (cmd: DecoderCommand)
        requires
            old(self).generation < u64::MAX,
        ensures
            (*final(self), cmd) == old(self).seek_model(position_millis),
            final(self).generation == old(self).generation + 1,
    {
        self.generation = self.generation + 1;
        DecoderCommand::Seek { position_millis: position_millis, generation: self.generation }
    }

    /// Request a stop; the generation is untouched.
    pub fn stop(&self) -> (cmd: DecoderCommand)
        ensures
            cmd == DecoderCommand::Stop,
    {
        DecoderCommand::Stop
    }
}

/// The decode thread's own state: the generation it tags produced messages
/// with, and whether a stop was requested.
#[derive(Clone, Copy, Debug, PartialEq, Eq, Structural)]
pub struct DecodeState {
    /// Tag adopted for everything produced from now on.
    pub active_generation: u64,
    /// True once a stop command was drained; the loop exits.
    pub stopped: bool,
}

impl DecodeState {
    /// The state after draining one command.
    pub open spec fn apply_model(self, cmd: DecoderCommand) -> DecodeState {
        match cmd {
            DecoderCommand::Seek { position_millis, generation } => DecodeState {
                active_generation: generation,
                ..self
            },
            DecoderCommand::Stop => DecodeState { stopped: true, ..self },
        }
    }

    /// The seek target a command forwards to the decoder, if any.
    pub open spec fn forward_of(cmd: DecoderCommand) -> Option<u64> {
        match cmd {
            DecoderCommand::Seek { position_millis, generation } => Some(position_millis),
            DecoderCommand::Stop => None,
        }
    }

    /// The message a decoded chunk becomes: an empty chunk means the decoder
    /// is exhausted and ends the stream; a non-empty chunk is tagged with
    /// the active generation.
    pub open spec fn emit_model<S>(self, chunk: Seq<S>) -> MessageModel<S> {
        if chunk.len() == 0 {
            MessageModel::Finished(self.active_generation as int)
        } else {
            MessageModel::Samples(chunk, self.active_generation as int)
        }
    }

    /// The thread's state when it starts, before any command has arrived.
    pub fn new(initial_generation: u64) -> (r: Self)
        ensures
            r.active_generation == initial_generation,
            !r.stopped,
    {
        DecodeState { active_generation: initial_generation, stopped: false }
    }

    /// Drain one command: a seek adopts the command's generation as the tag
    /// for subsequently produced samples and returns the target to forward
    /// to the decoder's own seek; a stop raises the stopped flag.
    pub fn apply_command(&mut self, cmd: &DecoderCommand) -> (fwd: Option<u64>)
        ensures
            *final(self) == old(self).apply_model(*cmd),
            fwd == DecodeState::forward_of(*cmd),
    {
        match cmd {
            DecoderCommand::Seek { position_millis, generation } => {
                self.active_generation = *generation;
                Some(*position_millis)
            },
            DecoderCommand::Stop => {
                self.stopped = true;
                None
            },
        }
    }

    /// Tag a decoded chunk for the channel.
    pub fn emit<S>(&self, chunk: Vec<S>) -> (msg: SampleMessage<S>)
        ensures
            msg@ == self.emit_model(chunk@),
    {
        if chunk.len() == 0 {
            SampleMessage::Finished(self.active_generation)
        } else {
            SampleMessage::Samples(chunk, self.active_generation)
        }
    }
}

/// What one consumer poll step decides: yield a sample, pad with one sample
/// of silence, report the stream over, or keep draining the channel.
pub enum PollStep<S> {
    /// Deliver this sample.
    Yield(S),
    /// Deliver one sample of silence; the channel is momentarily empty.
    Silence,
    /// The stream is over: finished, drained, or the producer is gone.
    Done,
    /// Nothing delivered yet; drain the next message.
    Continue,
}

/// Mathematical model of the consumer: the buffered chunk, the replay
/// cursor into it, the generation last observed, and whether the current
/// generation's stream has finished.
#[verifier::ext_equal]
pub ghost struct ConsumerModel<S> {
    /// Samples of the most recently accepted chunk.
    pub pending: Seq<S>,
    /// Replay cursor into `pending`.
    pub cursor: int,
    /// Generation last observed from the controller.
    pub generation: int,
    /// The generation whose `Finished` message has been seen, if any.
    pub finished: Option<int>,
}

impl<S> ConsumerModel<S> {
    /// Well-formedness: the cursor stays within the buffered chunk.
    pub open spec fn wf(self) -> bool {
        0 <= self.cursor <= self.pending.len()
    }

    /// Observing a moved generation drops all replay state and adopts it.
    pub open spec fn sync_model(self, current: int) -> Self {
        if self.generation == current {
            self
        } else {
            ConsumerModel { pending: Seq::empty(), cursor: 0, generation: current, finished: None }
        }
    }

    /// Taking the next buffered sample: the advanced consumer and the
    /// sample, if one is left in the chunk.
    pub open spec fn take_model(self) -> (Self, Option<S>) {
        if self.cursor < self.pending.len() {
            (
                ConsumerModel { cursor: self.cursor + 1, ..self },
                Some(self.pending[self.cursor]),
            )
        } else {
            (self, None)
        }
    }

    /// Accepting one channel message under observed generation `current`:
    /// messages tagged otherwise are discarded without effect; a current
    /// chunk is adopted and its first sample yielded; a current finish is
    /// remembered, ending the stream once the buffer is drained.
    pub open spec fn accept_model(self, msg: MessageModel<S>, current: int) -> (Self, PollStep<
        S,
    >) {
        match msg {
            MessageModel::Samples(chunk, tag) => {
                if tag != current {
                    (self, PollStep::Continue)
                } else if chunk.len() > 0 {
                    (
                        ConsumerModel { pending: chunk, cursor: 1, ..self },
                        PollStep::Yield(chunk[0]),
                    )
                } else {
                    (ConsumerModel { pending: chunk, cursor: 0, ..self }, PollStep::Continue)
                }
            },
            MessageModel::Finished(tag) => {
                if tag != current {
                    (self, PollStep::Continue)
                } else {
                    let noted = ConsumerModel { finished: Some(current), ..self };
                    if self.cursor >= self.pending.len() {
                        (noted, PollStep::Done)
                    } else {
                        (noted, PollStep::Continue)
                    }
                }
            },
        }
    }

    /// The step when the channel is momentarily empty: the stream is over if
    /// the current generation has finished, else one sample of silence.
    pub open spec fn empty_model(self, current: int) -> PollStep<S> {
        if self.finished == Some(current) {
            PollStep::Done
        } else {
            PollStep::Silence
        }
    }

    /// A consumer-level seek clears replay state at once; the observed
    /// generation is left for `sync_model` to advance.
    pub open spec fn reset_model(self) -> Self {
        ConsumerModel { pending: Seq::empty(), cursor: 0, finished: None, ..self }
    }
}

/// Seek invalidation: when a seek is superseded by a second seek before the
/// first one's samples drain, a consumer that has observed the second seek's
/// generation discards everything the decode thread produced under the
/// first — its state does not change and no sample is yielded — while a
/// chunk produced after the thread drains the second seek is delivered.
/// No sample decoded for the first seek's target ever reaches the consumer.
pub proof fn lemma_seek_invalidation<S>(
    ctrl: StreamController,
    pos1: u64,
    pos2: u64,
    d: DecodeState,
    consumer: ConsumerModel<S>,
    chunk: Seq<S>,
)
    requires
        ctrl.generation + 2 <= u64::MAX,
        chunk.len() > 0,
    ensures
        ({
            let (ctrl1, cmd1) = ctrl.seek_model(pos1);
            let (ctrl2, cmd2) = ctrl1.seek_model(pos2);
            // the thread has drained only the first seek and produces a chunk
            let d1 = d.apply_model(cmd1);
            let stale = d1.emit_model(chunk);
            // the consumer has observed the second seek's generation
            let synced = consumer.sync_model(ctrl2.generation as int);
            // the thread then drains the second seek and produces a chunk
            let d2 = d1.apply_model(cmd2);
            let fresh = d2.emit_model(chunk);
            &&& synced.accept_model(stale, ctrl2.generation as int) == (
                synced,
                PollStep::<S>::Continue,
            )
            &&& synced.accept_model(fresh, ctrl2.generation as int) == (
                (ConsumerModel { pending: chunk, cursor: 1, ..synced }),
                PollStep::<S>::Yield(chunk[0]),
            )
        }),
{
}

/// Re-seek idempotence: seeking twice in a row to the same position leaves
/// the decode thread exactly where the second seek alone would — the same
/// active generation tag and the same forwarded decoder target — so nothing
/// beyond the generation bump is restarted.
pub proof fn lemma_reseek_idempotent(d: DecodeState, pos: u64, g1: u64, g2: u64)
    ensures
        d.apply_model(
            DecoderCommand::Seek { position_millis: pos, generation: g1 },
        ).apply_model(DecoderCommand::Seek { position_millis: pos, generation: g2 })
            == d.apply_model(DecoderCommand::Seek { position_millis: pos, generation: g2 }),
        DecodeState::forward_of(DecoderCommand::Seek { position_millis: pos, generation: g1 })
            == DecodeState::forward_of(
            DecoderCommand::Seek { position_millis: pos, generation: g2 },
        ),
{
}

/// The consumer side of the sample channel: it replays the most recently
/// received chunk one sample at a time, discards messages from superseded
/// generations, and pads with silence instead of blocking when starved.
pub struct BufferedStreamingSource<S> {
    /// Samples of the most recently accepted chunk.
    pub pending_samples: Vec<S>,
    /// Replay cursor into `pending_samples`.
    pub sample_pos: usize,
    /// Generation last observed from the controller.
    pub pending_generation: u64,
    /// The generation whose `Finished` message has been seen, if any.
    pub finished_generation: Option<u64>,
}

impl<S> View for BufferedStreamingSource<S> {
    type V = ConsumerModel<S>;

    open spec fn view(&self) -> ConsumerModel<S> {
        ConsumerModel {
            pending: self.pending_samples@,
            cursor: self.sample_pos as int,
            generation: self.pending_generation as int,
            finished: match self.finished_generation {
                Some(g) => Some(g as int),
                None => None,
            },
        }
    }
}

impl<S: Copy> BufferedStreamingSource<S> {
    /// A fresh consumer that has observed `initial_generation` and buffered
    /// nothing.
    pub fn new(initial_generation: u64) -> (r: Self)
        ensures
            r@ == (ConsumerModel::<S> {
                pending: Seq::empty(),
                cursor: 0,
                generation: initial_generation as int,
                finished: None,
            }),
            r@.wf(),
    {
        let r = BufferedStreamingSource {
            pending_samples: Vec::new(),
            sample_pos: 0,
            pending_generation: initial_generation,
            finished_generation: None,
        };
        proof {
            assert(r@ =~= (ConsumerModel::<S> {
                pending: Seq::empty(),
                cursor: 0,
                generation: initial_generation as int,
                finished: None,
            }));
        }
        r
    }

    /// First step of every pull: when the shared generation has moved past
    /// the one last observed, drop the buffered chunk, reset the replay
    /// cursor, forget the finish and adopt the new generation. In-flight
    /// chunks of the old generation will be discarded on receipt — this is
    /// what makes a seek instantaneous from the consumer's point of view.
    pub fn sync_generation(&mut self, current: u64)
        requires
            old(self)@.wf(),
        ensures
            final(self)@ == old(self)@.sync_model(current as int),
            final(self)@.wf(),
    {
        if self.pending_generation != current {
            self.pending_generation = current;
            self.pending_samples.clear();
            self.sample_pos = 0;
            self.finished_generation = None;
            proof {
                assert(self@ =~= old(self)@.sync_model(current as int));
            }
        }
    }

    /// Take the next sample still buffered from the current chunk, if any.
    pub fn buffered_next(&mut self) -> (r: Option<S>)
        requires
            old(self)@.wf(),
        ensures
            final(self)@ == old(self)@.take_model().0,
            r == old(self)@.take_model().1,
            final(self)@.wf(),
    {
        if self.sample_pos < self.pending_samples.len() {
            let s = self.pending_samples[self.sample_pos];
            self.sample_pos = self.sample_pos + 1;
            Some(s)
        } else {
            None
        }
    }

    /// Handle one received channel message under observed generation
    /// `current`: discard it if its tag is stale, adopt and start replaying
    /// a current chunk, or note a current finish.
    pub fn handle_message(&mut self, msg: SampleMessage<S>, current: u64) -> (step: PollStep<S>)
        requires
            old(self)@.wf(),
        ensures
            final(self)@ == old(self)@.accept_model(msg@, current as int).0,
            step == old(self)@.accept_model(msg@, current as int).1,
            final(self)@.wf(),
    {
        match msg {
            SampleMessage::Samples(chunk, tag) => {
                if tag != current {
                    PollStep::Continue
                } else {
                    self.pending_samples = chunk;
                    self.sample_pos = 0;
                    if self.sample_pos < self.pending_samples.len() {
                        let s = self.pending_samples[self.sample_pos];
                        self.sample_pos = self.sample_pos + 1;
                        PollStep::Yield(s)
                    } else {
                        PollStep::Continue
                    }
                }
            },
            SampleMessage::Finished(tag) => {
                if tag == current {
                    self.finished_generation = Some(tag);
                    if self.sample_pos >= self.pending_samples.len() {
                        PollStep::Done
                    } else {
                        PollStep::Continue
                    }
                } else {
                    PollStep::Continue
                }
            },
        }
    }

    /// Decide the step when the channel is momentarily empty: the stream is
    /// over if the current generation has finished; otherwise one sample of
    /// silence is delivered, padding the sink instead of stalling its pull
    /// thread.
    pub fn handle_empty(&self, current: u64) -> (step: PollStep<S>)
        ensures
            step == self@.empty_model(current as int),
    {
        match self.finished_generation {
            Some(g) => if g == current {
                PollStep::Done
            } else {
                PollStep::Silence
            },
            None => PollStep::Silence,
        }
    }

    /// A closed channel ends the stream: the decode thread is gone.
    pub fn handle_disconnected(&self) -> (step: PollStep<S>)
        ensures
            step is Done,
    {
        PollStep::Done
    }

    /// A consumer-level seek clears local replay state immediately and does
    /// not block; the caller forwards the request to the controller, and
    /// playback resumes from silence until the decode thread catches up.
    pub fn reset_for_seek(&mut self)
        ensures
            final(self)@ == old(self)@.reset_model(),
            final(self)@.wf(),
    {
        self.pending_samples.clear();
        self.sample_pos = 0;
        self.finished_generation = None;
        proof {
            assert(self@ =~= old(self)@.reset_model());
        }
    }
}

} // verus!
