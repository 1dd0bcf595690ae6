//! The controller: one temperature applied to every output of a display.
//!
//! The library does not talk to a display server. It decides what has to be
//! asked of one and what follows from each answer: the caller performs the
//! [`Action`] that [`Controller::next_action`] names and hands the answer to
//! [`Controller::handle`], until the action is [`Action::Finish`]. Outputs
//! are dealt with one after the other, and a failure at one of them is
//! recorded and never keeps the controller from going on to the next.

use crate::ramp::{generate, ramp_of, table_of, GammaRamp, RampError, Table};
use crate::temperature::{convert, tint_of, ColorFactor, Tint};
use vstd::prelude::*;

verus! {

/// What went wrong at the back end.
#[derive(Clone, Copy, Debug, PartialEq, Eq)]
pub enum BackendError {
    /// The outputs of the screen could not be listed.
    Enumeration,
    /// The output did not answer the query for its ramp size.
    RampSize { output: u64 },
    /// The output reported a ramp size that no ramp can have.
    InvalidSize { output: u64, size: i32 },
    /// The output did not take the ramp.
    SetRamp { output: u64 },
}

/// The back end's answer to the action last named.
#[derive(Clone, Copy, Debug, PartialEq, Eq)]
pub enum Reply {
    /// The ramp size that the output reports, or `None` where the query
    /// failed.
    RampSize(Option<i32>),
    /// Whether the output took the ramp.
    RampSet(bool),
}

/// What the caller is to do next.
#[derive(Debug)]
pub enum Action<'a> {
    /// Ask `output` for its ramp size and answer with `Reply::RampSize`.
    QueryRampSize { output: u64 },
    /// Set `ramp` on `output` and answer with `Reply::RampSet`.
    SetRamp { output: u64, ramp: &'a GammaRamp },
    /// Every output has been dealt with.
    Finish,
}

/// An action with the ramp's entries in place of the ramp.
pub enum Demand {
    /// The ramp size of `output` is wanted.
    RampSize { output: u64 },
    /// `table` is to be set on `output`.
    SetRamp { output: u64, table: Table },
    /// The run is over.
    Nothing,
}

impl<'a> View for Action<'a> {
    type V = Demand;

    open spec fn view(&self) -> Demand {
        match *self {
            Action::QueryRampSize { output } => Demand::RampSize { output },
            Action::SetRamp { output, ramp } => Demand::SetRamp { output, table: ramp@ },
            Action::Finish => Demand::Nothing,
        }
    }
}

/// An enumeration of outputs as a sequence, or `None` where it failed.
pub open spec fn listed(listing: Option<Vec<u64>>) -> Option<Seq<u64>> {
    match listing {
        Some(outputs) => Some(outputs@),
        None => None,
    }
}

/// How far a run has come.
pub struct Progress {
    /// The factor that every ramp of the run is made with.
    pub tint: Tint,
    /// The outputs of the screen, in the order in which they are dealt with.
    pub outputs: Seq<u64>,
    /// How many outputs have been dealt with.
    pub cursor: int,
    /// The size of the ramp waiting to be set on `outputs[cursor]`, once that
    /// output has reported one.
    pub uploading: Option<i32>,
    /// Every failure so far, oldest first.
    pub failures: Seq<BackendError>,
}

impl Progress {
    /// The state in which a run starts. `listing` is the enumeration of the
    /// screen's outputs, or `None` where it failed: a run without a listing
    /// has that one failure and nothing to do.
    pub open spec fn begin(tint: Tint, listing: Option<Seq<u64>>) -> Progress {
        match listing {
            Some(outputs) => Progress {
                tint,
                outputs,
                cursor: 0,
                uploading: None,
                failures: Seq::empty(),
            },
            None => Progress {
                tint,
                outputs: Seq::empty(),
                cursor: 0,
                uploading: None,
                failures: seq![BackendError::Enumeration],
            },
        }
    }

    /// What holds of every state of a run: the cursor is within the outputs,
    /// and a ramp waits only for an output that is there and reported a
    /// positive size.
    pub open spec fn well_formed(self) -> bool {
        &&& 0 <= self.cursor <= self.outputs.len()
        &&& self.uploading matches Some(size) ==> size > 0 && self.cursor < self.outputs.len()
    }

    /// Every output has been dealt with.
    pub open spec fn finished(self) -> bool {
        self.cursor >= self.outputs.len()
    }

    /// The run is over and nothing failed.
    pub open spec fn succeeded(self) -> bool {
        self.finished() && self.failures.len() == 0
    }

    /// Whether `reply` answers what the state asks for.
    pub open spec fn answered_by(self, reply: Reply) -> bool {
        !self.finished() && match reply {
            Reply::RampSize(_) => self.uploading is None,
            Reply::RampSet(_) => self.uploading is Some,
        }
    }

    /// The failure that `reply` reports, if it answers what the state asks
    /// for and reports one.
    pub open spec fn failure_in(self, reply: Reply) -> Option<BackendError> {
        if !self.answered_by(reply) {
            None
        } else {
            let output = self.outputs[self.cursor];
            match reply {
                Reply::RampSize(None) => Some(BackendError::RampSize { output }),
                Reply::RampSize(Some(size)) => if size > 0 {
                    None
                } else {
                    Some(BackendError::InvalidSize { output, size })
                },
                Reply::RampSet(taken) => if taken {
                    None
                } else {
                    Some(BackendError::SetRamp { output })
                },
            }
        }
    }

    /// The state after `reply`. An answer to what was not asked changes
    /// nothing. A failure is recorded and ends the work on the current
    /// output, not the run. A usable ramp size leads to the upload, and a
    /// ramp that was taken to the next output.
    pub open spec fn after(self, reply: Reply) -> Progress {
        if !self.answered_by(reply) {
            self
        } else {
            match self.failure_in(reply) {
                Some(failure) => Progress {
                    cursor: self.cursor + 1,
                    uploading: None,
                    failures: self.failures.push(failure),
                    ..self
                },
                None => match reply {
                    Reply::RampSize(size) => Progress { uploading: size, ..self },
                    Reply::RampSet(_) => Progress {
                        cursor: self.cursor + 1,
                        uploading: None,
                        ..self
                    },
                },
            }
        }
    }

    /// What the state asks of the back end.
    pub open spec fn demand(self) -> Demand {
        if self.finished() {
            Demand::Nothing
        } else {
            let output = self.outputs[self.cursor];
            match self.uploading {
                None => Demand::RampSize { output },
                Some(size) => Demand::SetRamp { output, table: table_of(size as int, self.tint) },
            }
        }
    }

    /// The number of answers that the run can still take before it is over.
    pub open spec fn remaining(self) -> int {
        2 * (self.outputs.len() - self.cursor) - if self.uploading is Some {
            1int
        } else {
            0int
        }
    }
}

/// One answer moves a run on by one output at most and never back. It
/// changes neither the outputs nor the factor, and it drops no failure that
/// was recorded: where it reports none, the record stays as it is.
pub proof fn lemma_answer_keeps_history(state: Progress, reply: Reply)
    requires
        state.well_formed(),
    ensures
        state.after(reply).well_formed(),
        state.after(reply).tint == state.tint,
        state.after(reply).outputs == state.outputs,
        state.cursor <= state.after(reply).cursor <= state.cursor + 1,
        state.failures.is_prefix_of(state.after(reply).failures),
        state.failure_in(reply) is None ==> state.after(reply).failures == state.failures,
{
    if state.failure_in(reply) is Some {
        assert(state.after(reply).failures.take(state.failures.len() as int) =~= state.failures);
    }
}

/// A failure at one output is recorded with that output, and the run goes on:
/// what it asks for next is the ramp size of the output that follows, or
/// nothing where none follows.
pub proof fn lemma_failure_does_not_end_run(state: Progress, reply: Reply)
    requires
        state.well_formed(),
        state.failure_in(reply) is Some,
    ensures
        state.after(reply).failures == state.failures.push(state.failure_in(reply)->0),
        state.after(reply).cursor == state.cursor + 1,
        state.after(reply).demand() == (if state.cursor + 1 < state.outputs.len() {
            Demand::RampSize { output: state.outputs[state.cursor + 1] }
        } else {
            Demand::Nothing
        }),
{
}

/// Every answer to what was asked brings the end nearer, so a run takes at
/// most two answers for each output; it is over exactly when none is left
/// to take.
pub proof fn lemma_answer_makes_progress(state: Progress, reply: Reply)
    requires
        state.well_formed(),
        state.answered_by(reply),
    ensures
        0 <= state.after(reply).remaining() < state.remaining(),
        state.remaining() <= 2 * state.outputs.len(),
        state.after(reply).finished() <==> state.after(reply).remaining() == 0,
{
}

/// Every ramp that a run hands out is the one generated from the run's
/// factor for the size that the output reported.
pub proof fn lemma_ramps_share_the_factor(state: Progress)
    requires
        state.well_formed(),
        state.demand() is SetRamp,
    ensures
        state.uploading is Some,
        state.demand() == (Demand::SetRamp {
            output: state.outputs[state.cursor],
            table: table_of(state.uploading->0 as int, state.tint),
        }),
        ramp_of(state.uploading->0 as int, state.tint) == Ok::<Table, RampError>(
            table_of(state.uploading->0 as int, state.tint),
        ),
{
}

/// A run in progress.
#[derive(Debug)]
pub struct Controller {
    factor: ColorFactor,
    outputs: Vec<u64>,
    cursor: usize,
    uploading: Option<GammaRamp>,
    failures: Vec<BackendError>,
}

impl View for Controller {
    type V = Progress;

    closed spec fn view(&self) -> Progress {
        Progress {
            tint: self.factor@,
            outputs: self.outputs@,
            cursor: self.cursor as int,
            uploading: match self.uploading {
                Some(ramp) => Some(ramp@.size() as i32),
                None => None,
            },
            failures: self.failures@,
        }
    }
}

impl Controller {
    #[verifier::type_invariant]
    spec fn consistent(self) -> bool {
        &&& self.cursor <= self.outputs@.len()
        &&& self.uploading matches Some(ramp) ==> {
            &&& self.cursor < self.outputs@.len()
            &&& 0 < ramp@.size() <= i32::MAX
            &&& ramp@ == table_of(ramp@.size() as int, self.factor@)
        }
    }

    /// A run that applies `factor` to `listing`, the enumeration of the
    /// screen's outputs, or `None` where the enumeration failed.
    pub fn new(factor: ColorFactor, listing: Option<Vec<u64>>) -> (controller: Controller)
        ensures
            controller@ == Progress::begin(factor@, listed(listing)),
            controller@.well_formed(),
    {
        match listing {
            Some(outputs) => Controller {
                factor,
                outputs,
                cursor: 0,
                uploading: None,
                failures: Vec::new(),
            },
            None => {
                let mut failures: Vec<BackendError> = Vec::new();
                failures.push(BackendError::Enumeration);
                assert(failures@ =~= seq![BackendError::Enumeration]);
                Controller { factor, outputs: Vec::new(), cursor: 0, uploading: None, failures }
            },
        }
    }

    /// What the caller is to do next. Asking again without an answer in
    /// between names the same action.
    pub fn next_action(&self) -> (action: Action<'_>)
        ensures
            action@ == self@.demand(),
            self@.well_formed(),
    {
        proof {
            use_type_invariant(self);
        }
        if self.cursor >= self.outputs.len() {
            Action::Finish
        } else {
            let output: u64 = self.outputs[self.cursor];
            match &self.uploading {
                Some(ramp) => Action::SetRamp { output, ramp },
                None => Action::QueryRampSize { output },
            }
        }
    }

    /// The run after the back end's answer to the action last named.
    pub fn handle(self, reply: Reply) -> (next: Controller)
        ensures
            next@ == self@.after(reply),
            next@.well_formed(),
    {
        proof {
            use_type_invariant(&self);
        }
        if self.cursor >= self.outputs.len() {
            return self;
        }
        let output: u64 = self.outputs[self.cursor];
        let Controller { factor, outputs, cursor, uploading, mut failures } = self;
        match reply {
            Reply::RampSize(answer) => {
                if uploading.is_some() {
                    return Controller { factor, outputs, cursor, uploading, failures };
                }
                match answer {
                    None => {
                        failures.push(BackendError::RampSize { output });
                        Controller { factor, outputs, cursor: cursor + 1, uploading: None, failures }
                    },
                    Some(size) => match generate(size, &factor) {
                        Ok(ramp) => Controller {
                            factor,
                            outputs,
                            cursor,
                            uploading: Some(ramp),
                            failures,
                        },
                        Err(_) => {
                            failures.push(BackendError::InvalidSize { output, size });
                            Controller {
                                factor,
                                outputs,
                                cursor: cursor + 1,
                                uploading: None,
                                failures,
                            }
                        },
                    },
                }
            },
            Reply::RampSet(taken) => {
                if uploading.is_none() {
                    return Controller { factor, outputs, cursor, uploading, failures };
                }
                if !taken {
                    failures.push(BackendError::SetRamp { output });
                }
                Controller { factor, outputs, cursor: cursor + 1, uploading: None, failures }
            },
        }
    }

    /// Whether every output has been dealt with.
    pub fn finished(&self) -> (done: bool)
        ensures
            done == self@.finished(),
    {
        proof {
            use_type_invariant(self);
        }
        self.cursor >= self.outputs.len()
    }

    /// Every failure so far, oldest first. Once the run is finished, an empty
    /// list says that every output took its ramp, and anything else is a
    /// partial failure: the outputs not named have their new ramp all the
    /// same.
    pub fn failures(&self) -> (failures: &Vec<BackendError>)
        ensures
            failures@ == self@.failures,
    {
        &self.failures
    }
}

/// Starts the run that applies the temperature `temp` to the outputs in
/// `listing`. `log` is the logarithm that [`convert`] asks for. No
/// temperature is turned away: the model is defined for every one of them.
pub fn apply_temperature(temp: u32, log: u64, listing: Option<Vec<u64>>) -> (controller:
    Controller)
    ensures
        controller@ == Progress::begin(tint_of(temp as int, log as int), listed(listing)),
        controller@.well_formed(),
{
    Controller::new(convert(temp, log), listing)
}

} // verus!
