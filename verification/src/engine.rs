//! The engine: the one long-lived object that owns the configuration, the
//! watchers and the outcome of the resolution, and that is handed the
//! samples of each tick.

use crate::decision::{action_of, decide, Samples, TimerAction, TimerPhase, Watchers};
use crate::resolver::{Resolution, ResolvedAddressSet};
use crate::settings::SplitConfiguration;
use vstd::prelude::*;

verus! {

/// The state that lives as long as the host keeps the engine loaded.
#[derive(Clone, Copy, Debug)]
pub struct Engine {
    pub settings: SplitConfiguration,
    pub watchers: Watchers,
    /// The resolved addresses of the attached process; `None` while no
    /// process is attached or its addresses could not be had.
    pub resolution: Option<Resolution>,
}

impl Engine {
    /// Whether the engine holds nothing of any attachment.
    pub open spec fn is_detached(self) -> bool {
        self.resolution.is_none() && self.watchers.is_empty()
    }

    /// The engine after one tick with the given samples. Without resolved
    /// addresses the tick changes nothing.
    pub open spec fn ticked(self, samples: Samples) -> Self {
        match self.resolution {
            Some(outcome) => Engine { watchers: self.watchers.fed(outcome.tier, samples), ..self },
            None => self,
        }
    }

    /// The command that the tick yields: the decision on the watchers as
    /// they are after the samples; nothing without resolved addresses.
    pub open spec fn action_on(self, samples: Samples, phase: TimerPhase) -> TimerAction {
        match self.resolution {
            Some(outcome) => action_of(
                phase,
                self.watchers.fed(outcome.tier, samples),
                self.settings,
                outcome.tier,
            ),
            None => TimerAction::Nothing,
        }
    }

    /// An engine with the given configuration and no attachment.
    pub fn new(settings: SplitConfiguration) -> (engine: Self)
        ensures
            engine.settings == settings,
            engine.is_detached(),
    {
        Engine { settings, watchers: Watchers::new(), resolution: None }
    }

    /// Replaces the configuration; it takes effect from the next tick on.
    pub fn configure(&mut self, settings: SplitConfiguration)
        ensures
            *final(self) == (Engine { settings, ..*old(self) }),
    {
        self.settings = settings;
    }

    /// Takes the addresses resolved for a new attachment. The watchers
    /// start out empty: nothing sampled from an earlier process is kept.
    pub fn attach(&mut self, outcome: Resolution)
        ensures
            final(self).settings == old(self).settings,
            final(self).resolution == Some(outcome),
            final(self).watchers.is_empty(),
    {
        self.watchers = Watchers::new();
        self.resolution = Some(outcome);
    }

    /// Drops the addresses and empties the watchers: the process is gone.
    pub fn detach(&mut self)
        ensures
            final(self).settings == old(self).settings,
            final(self).is_detached(),
    {
        self.watchers = Watchers::new();
        self.resolution = None;
    }

    /// The addresses to sample, while there are any.
    pub fn addresses(&self) -> (addresses: Option<ResolvedAddressSet>)
        ensures
            addresses == match self.resolution {
                Some(outcome) => Some(outcome.addresses),
                None => None,
            },
    {
        match self.resolution {
            Some(outcome) => Some(outcome.addresses),
            None => None,
        }
    }

    /// One tick: feeds the samples to the watchers, then decides the
    /// command for the timer in the given phase.
    pub fn tick(&mut self, samples: Samples, phase: TimerPhase) -> (action: TimerAction)
        ensures
            *final(self) == old(self).ticked(samples),
            action == old(self).action_on(samples, phase),
    {
        match self.resolution {
            Some(outcome) => {
                let mut watchers = self.watchers;
                watchers.update(outcome.tier, samples);
                self.watchers = watchers;
                decide(phase, &watchers, &self.settings, outcome.tier)
            },
            None => TimerAction::Nothing,
        }
    }
}

/// Without resolved addresses every tick yields nothing and leaves the
/// engine as it is, whatever was sampled and whatever the timer does.
pub proof fn lemma_detached_engine_is_idle(engine: Engine, samples: Samples, phase: TimerPhase)
    requires
        engine.resolution.is_none(),
    ensures
        engine.ticked(samples) == engine,
        engine.action_on(samples, phase) == TimerAction::Nothing,
{
}

} // verus!
