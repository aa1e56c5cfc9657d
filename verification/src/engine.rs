//! The audio thread's bookkeeping: which model is running, when a newly
//! loaded one takes over, and where the replaced one goes.
//!
//! A swap never releases anything on the audio thread. The replaced model is
//! queued on a second channel for the loading side to collect, and while that
//! channel has no free slot the swap waits in the exchange channel. Through
//! every step each handle sits in exactly one place.

use crate::block::pass_through;
use crate::exchange::{
    after_pop, after_push, eldest, has_room, LoadedModel, ModelChannel, Pending,
};
use vstd::prelude::*;

verus! {

/// What the inference stage does with a block.
#[derive(Clone, Copy, PartialEq, Eq, Structural, Debug)]
pub enum Stage {
    /// No model is loaded: the block goes through untouched.
    PassThrough,
    /// The model at this address processes the block.
    Inference { model: usize },
}

/// The stage that goes with the model in place, if any.
pub open spec fn stage_for(amp: Option<Pending>) -> Stage {
    match amp {
        Some(loaded) => Stage::Inference { model: loaded.0 },
        None => Stage::PassThrough,
    }
}

/// What the contracts see of an engine.
pub struct EngineView {
    /// The model in place, with the path it was loaded from.
    pub amp: Option<Pending>,
    /// Whether a stream is set up.
    pub active: bool,
    /// Sample rate of the stream, as last set up.
    pub sample_rate_hz: u32,
    /// Longest block of the stream, as last set up.
    pub max_buffer_size: u32,
}

/// The three places a handle can be while it travels through the engine.
pub struct Handoff {
    /// Models replaced and waiting to be released, eldest first.
    pub retired: Seq<Pending>,
    /// The model in place.
    pub amp: Option<Pending>,
    /// Models loaded and waiting to be put in place, eldest first.
    pub exchange: Seq<Pending>,
}

impl Handoff {
    /// Whether a poll puts a new model in place: one must be waiting, and the
    /// one it replaces, if any, must have somewhere to go.
    pub open spec fn can_swap(self, retired_capacity: nat) -> bool {
        self.exchange.len() > 0 && (self.amp is None || has_room(self.retired, retired_capacity))
    }

    /// The state after one poll.
    pub open spec fn polled(self, retired_capacity: nat) -> Handoff {
        if self.can_swap(retired_capacity) {
            Handoff {
                retired: match self.amp {
                    Some(replaced) => self.retired.push(replaced),
                    None => self.retired,
                },
                amp: eldest(self.exchange),
                exchange: after_pop(self.exchange),
            }
        } else {
            self
        }
    }

    /// Every model in the hand-off, in the order in which they were loaded.
    pub open spec fn lineup(self) -> Seq<Pending> {
        self.retired + match self.amp {
            Some(loaded) => seq![loaded],
            None => Seq::<Pending>::empty(),
        } + self.exchange
    }
}

/// State of the audio thread between blocks.
pub struct Engine {
    amp: Option<LoadedModel>,
    active: bool,
    sample_rate_hz: u32,
    max_buffer_size: u32,
}

impl View for Engine {
    type V = EngineView;

    closed spec fn view(&self) -> EngineView {
        EngineView {
            amp: match self.amp {
                Some(loaded) => Some(loaded@),
                None => None,
            },
            active: self.active,
            sample_rate_hz: self.sample_rate_hz,
            max_buffer_size: self.max_buffer_size,
        }
    }
}

impl Engine {
    /// An engine with no model and no stream.
    pub fn new() -> (engine: Engine)
        ensures
            engine@ == (EngineView {
                amp: None,
                active: false,
                sample_rate_hz: 0,
                max_buffer_size: 0,
            }),
    {
        Engine { amp: None, active: false, sample_rate_hz: 0, max_buffer_size: 0 }
    }

    /// Sets up a stream. The model in place stays.
    pub fn initialize(&mut self, sample_rate_hz: u32, max_buffer_size: u32)
        ensures
            final(self)@ == (EngineView {
                active: true,
                sample_rate_hz,
                max_buffer_size,
                ..old(self)@
            }),
    {
        self.sample_rate_hz = sample_rate_hz;
        self.max_buffer_size = max_buffer_size;
        self.active = true;
    }

    /// Ends the stream. The model in place stays, to be used by the next one.
    pub fn deactivate(&mut self)
        ensures
            final(self)@ == (EngineView { active: false, ..old(self)@ }),
    {
        self.active = false;
    }

    /// Puts `incoming` in place and returns the model it replaces. With
    /// nothing incoming, nothing changes and nothing is returned.
    pub fn install(&mut self, incoming: Option<LoadedModel>) -> (replaced: Option<LoadedModel>)
        ensures
            match incoming {
                Some(loaded) => {
                    &&& final(self)@ == (EngineView { amp: Some(loaded@), ..old(self)@ })
                    &&& match replaced {
                        Some(previous) => old(self)@.amp == Some(previous@),
                        None => old(self)@.amp is None,
                    }
                },
                None => final(self)@ == old(self)@ && replaced is None,
            },
    {
        match incoming {
            Some(loaded) => {
                let replaced = self.amp.take();
                self.amp = Some(loaded);
                replaced
            },
            None => None,
        }
    }

    /// Takes the model in place out of the engine, for its holder to release.
    /// From then on blocks pass through.
    pub fn unload(&mut self) -> (unloaded: Option<LoadedModel>)
        ensures
            final(self)@ == (EngineView { amp: None, ..old(self)@ }),
            match unloaded {
                Some(previous) => old(self)@.amp == Some(previous@),
                None => old(self)@.amp is None,
            },
    {
        self.amp.take()
    }

    /// Starts a block: looks once for a newly loaded model, swaps it in if
    /// the replaced one can be handed off, and says what the inference stage
    /// is to do with the block.
    pub fn begin_block(
        &mut self,
        exchange: &mut ModelChannel,
        retired: &mut ModelChannel,
    ) -> (stage: Stage)
        ensures
            final(exchange).spec_capacity() == old(exchange).spec_capacity(),
            final(retired).spec_capacity() == old(retired).spec_capacity(),
            final(self)@ == (EngineView { amp: final(self)@.amp, ..old(self)@ }),
            (Handoff {
                retired: final(retired)@,
                amp: final(self)@.amp,
                exchange: final(exchange)@,
            }) == (Handoff {
                retired: old(retired)@,
                amp: old(self)@.amp,
                exchange: old(exchange)@,
            }).polled(old(retired).spec_capacity()),
            stage == stage_for(final(self)@.amp),
    {
        if self.amp.is_none() || !retired.is_full() {
            let incoming = exchange.try_pop();
            if let Some(previous) = self.install(incoming) {
                let handed = retired.try_push(previous);
                assert(handed is Ok);  // room for it was seen before the pop
            }
        }
        self.stage()
    }

    /// Runs the inference stage as far as it needs no model. With no model in
    /// place, `input` is copied to `output` unchanged and the stage is done.
    /// With a model in place, `output` is left as it is, for the caller to
    /// fill with what the model makes of `input`.
    pub fn bypass<S: Copy>(&self, input: &[S], output: &mut [S]) -> (stage: Stage)
        requires
            input@.len() == old(output)@.len(),
        ensures
            stage == stage_for(self@.amp),
            self@.amp is None ==> final(output)@ == input@,
            self@.amp is Some ==> final(output)@ == old(output)@,
    {
        let stage = self.stage();
        match stage {
            Stage::PassThrough => pass_through(input, output),
            Stage::Inference { .. } => {},
        }
        stage
    }

    /// What the inference stage does while the model in place stays.
    pub fn stage(&self) -> (stage: Stage)
        ensures
            stage == stage_for(self@.amp),
    {
        match &self.amp {
            Some(loaded) => Stage::Inference { model: loaded.model.address() },
            None => Stage::PassThrough,
        }
    }

    /// Whether a stream is set up.
    pub fn is_active(&self) -> (active: bool)
        ensures
            active == self@.active,
    {
        self.active
    }

    /// The sample rate that the last `initialize` set.
    pub fn sample_rate_hz(&self) -> (rate: u32)
        ensures
            rate == self@.sample_rate_hz,
    {
        self.sample_rate_hz
    }

    /// The block length that the last `initialize` set as the longest.
    pub fn max_buffer_size(&self) -> (samples: u32)
        ensures
            samples == self@.max_buffer_size,
    {
        self.max_buffer_size
    }

    /// The path the model in place was loaded from, for the loading side to
    /// show and to store.
    pub fn model_path(&self) -> (path: Option<&str>)
        ensures
            match path {
                Some(p) => self@.amp matches Some(loaded) && loaded.1 == p@,
                None => self@.amp is None,
            },
    {
        match &self.amp {
            Some(loaded) => Some(loaded.path.as_str()),
            None => None,
        }
    }
}

impl Default for Engine {
    fn default() -> (engine: Engine)
        ensures
            engine@ == (EngineView {
                amp: None,
                active: false,
                sample_rate_hz: 0,
                max_buffer_size: 0,
            }),
    {
        Engine::new()
    }
}

/// A poll only moves models along the hand-off: taken in load order, the
/// models waiting to be released, the one in place and the ones waiting to be
/// put in place are the same before and after. None is dropped, none appears
/// twice, so each can be released exactly once.
pub proof fn lemma_poll_keeps_every_model(handoff: Handoff, retired_capacity: nat)
    ensures
        handoff.polled(retired_capacity).lineup() == handoff.lineup(),
{
    if handoff.can_swap(retired_capacity) {
        let first = handoff.exchange[0];
        assert(seq![first] + handoff.exchange.drop_first() == handoff.exchange);
        match handoff.amp {
            Some(replaced) => {
                assert(handoff.retired.push(replaced) + seq![first] + handoff.exchange.drop_first()
                    == handoff.retired + seq![replaced] + handoff.exchange);
            },
            None => {
                assert(handoff.retired + seq![first] + handoff.exchange.drop_first()
                    == handoff.retired + Seq::<Pending>::empty() + handoff.exchange);
            },
        }
    }
}

/// A poll takes at most one model from the exchange and retires at most one,
/// never beyond the room there is for retired models. When it cannot swap it
/// changes nothing, so a model that has to wait is still first in line.
pub proof fn lemma_poll_swaps_at_most_once(handoff: Handoff, retired_capacity: nat)
    requires
        handoff.retired.len() <= retired_capacity,
    ensures
        ({
            let after = handoff.polled(retired_capacity);
            &&& after.retired.len() <= retired_capacity
            &&& if handoff.can_swap(retired_capacity) {
                &&& after.amp == Some(handoff.exchange[0])
                &&& after.exchange == handoff.exchange.drop_first()
                &&& after.retired.len() <= handoff.retired.len() + 1
            } else {
                after == handoff
            }
        }),
{
}

/// What can happen to the hand-off between one moment and the next.
pub enum Event {
    /// The loading side offers a freshly loaded model to the exchange.
    Offer(Pending),
    /// The audio thread starts a block.
    Poll,
    /// The loading side collects the retired models and releases them.
    Collect,
}

/// The hand-off together with a record of what went into it and what came
/// out.
pub struct Ledger {
    /// Every model the exchange has accepted so far, in the order accepted.
    pub accepted: Seq<Pending>,
    /// Every model released so far, in the order released.
    pub released: Seq<Pending>,
    /// Where the models in between are now.
    pub handoff: Handoff,
}

impl Ledger {
    /// The ledger after one event, for channels of the given capacities. An
    /// offer that finds the exchange full changes nothing: the model stays
    /// with whoever offered it.
    pub open spec fn step(
        self,
        exchange_capacity: nat,
        retired_capacity: nat,
        event: Event,
    ) -> Ledger {
        match event {
            Event::Offer(item) => Ledger {
                accepted: if has_room(self.handoff.exchange, exchange_capacity) {
                    self.accepted.push(item)
                } else {
                    self.accepted
                },
                handoff: Handoff {
                    exchange: after_push(self.handoff.exchange, exchange_capacity, item),
                    ..self.handoff
                },
                ..self
            },
            Event::Poll => Ledger { handoff: self.handoff.polled(retired_capacity), ..self },
            Event::Collect => Ledger {
                released: self.released + self.handoff.retired,
                handoff: Handoff { retired: Seq::empty(), ..self.handoff },
                ..self
            },
        }
    }

    /// The ledger after a run of events.
    pub open spec fn run(
        self,
        exchange_capacity: nat,
        retired_capacity: nat,
        events: Seq<Event>,
    ) -> Ledger
        decreases events.len(),
    {
        if events.len() == 0 {
            self
        } else {
            self.run(exchange_capacity, retired_capacity, events.drop_last()).step(
                exchange_capacity,
                retired_capacity,
                events.last(),
            )
        }
    }

    /// Whether the books balance: the models released, followed by those
    /// still in the hand-off, are the models accepted, in the same order.
    pub open spec fn balanced(self) -> bool {
        self.released + self.handoff.lineup() == self.accepted
    }
}

/// However offers, blocks and collections follow one another, the books stay
/// balanced. Every model the exchange accepted is waiting, in place, retired
/// or released, in exactly one of these; models take over in the order in
/// which they were accepted and are released in that order.
pub proof fn lemma_every_model_is_accounted_for(
    start: Ledger,
    exchange_capacity: nat,
    retired_capacity: nat,
    events: Seq<Event>,
)
    requires
        start.balanced(),
    ensures
        start.run(exchange_capacity, retired_capacity, events).balanced(),
    decreases events.len(),
{
    if events.len() > 0 {
        lemma_every_model_is_accounted_for(
            start,
            exchange_capacity,
            retired_capacity,
            events.drop_last(),
        );
        let before = start.run(exchange_capacity, retired_capacity, events.drop_last());
        let after = before.step(exchange_capacity, retired_capacity, events.last());
        let amp = match before.handoff.amp {
            Some(loaded) => seq![loaded],
            None => Seq::<Pending>::empty(),
        };
        match events.last() {
            Event::Offer(item) => {
                if has_room(before.handoff.exchange, exchange_capacity) {
                    assert(after.released + after.handoff.lineup() == (before.released
                        + before.handoff.lineup()).push(item));
                }
            },
            Event::Poll => {
                lemma_poll_keeps_every_model(before.handoff, retired_capacity);
            },
            Event::Collect => {
                assert(after.released + (Seq::<Pending>::empty() + amp + before.handoff.exchange)
                    == before.released + (before.handoff.retired + amp + before.handoff.exchange));
            },
        }
    }
}

} // verus!
