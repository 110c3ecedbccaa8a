//! A named, caller-driven sequence of steps that reports its progress as an
//! ordered log of events.
use vstd::prelude::*;

use crate::error::{message_of, IloaderError};

verus! {

/// One event of an operation, in emission order.
#[derive(Debug)]
pub enum OperationEvent {
    Started { step: String },
    AdvancedTo { from: String, to: String },
    Failed { step: String, message: String },
    Completed { step: String },
}

pub enum EventView {
    Started(Seq<char>),
    AdvancedTo(Seq<char>, Seq<char>),
    Failed(Seq<char>, Seq<char>),
    Completed(Seq<char>),
}

impl View for OperationEvent {
    type V = EventView;

    open spec fn view(&self) -> EventView {
        match self {
            OperationEvent::Started { step } => EventView::Started(step@),
            OperationEvent::AdvancedTo { from, to } => EventView::AdvancedTo(from@, to@),
            OperationEvent::Failed { step, message } => EventView::Failed(step@, message@),
            OperationEvent::Completed { step } => EventView::Completed(step@),
        }
    }
}

/// Where an operation stands.
#[derive(Debug)]
pub enum Stage {
    NotStarted,
    InStep(String),
    Failed(String),
    Completed(String),
}

pub enum StageView {
    NotStarted,
    InStep(Seq<char>),
    Failed(Seq<char>),
    Completed(Seq<char>),
}

impl View for Stage {
    type V = StageView;

    open spec fn view(&self) -> StageView {
        match self {
            Stage::NotStarted => StageView::NotStarted,
            Stage::InStep(s) => StageView::InStep(s@),
            Stage::Failed(s) => StageView::Failed(s@),
            Stage::Completed(s) => StageView::Completed(s@),
        }
    }
}

/// Why a step call on an operation did not go through.
#[derive(Debug)]
pub enum OpError {
    /// A transition was asked for from a step the operation is not in: a bug
    /// in the caller's step order, not a failure of the work itself.
    OutOfOrder,
    /// The work of `step` failed with `message`.
    StepFailed { step: String, message: String },
}

/// `r` reports that the work of `step` failed with `message`.
pub open spec fn step_failed(r: OpError, step: Seq<char>, message: Seq<char>) -> bool {
    r matches OpError::StepFailed { step: s, message: m } && s@ == step && m@ == message
}

impl OpError {
    /// The human-readable message reported at the command boundary.
    pub fn message(&self) -> (r: String)
        ensures
            self matches OpError::StepFailed { message, .. } ==> r@ == message@,
            self is OutOfOrder ==> r@ == "Operation steps were called out of order"@,
    {
        match self {
            OpError::OutOfOrder => String::from_str("Operation steps were called out of order"),
            OpError::StepFailed { message, .. } => message.clone(),
        }
    }
}

pub open spec fn is_terminal_event(e: EventView) -> bool {
    e is Failed || e is Completed
}

pub open spec fn is_terminal_stage(s: StageView) -> bool {
    s is Failed || s is Completed
}

/// An operation run: its name, the step it is in and every event it has
/// emitted so far.
pub struct Operation {
    name: String,
    stage: Stage,
    events: Vec<OperationEvent>,
}

impl Operation {
    pub closed spec fn name_view(&self) -> Seq<char> {
        self.name@
    }

    pub closed spec fn stage(&self) -> StageView {
        self.stage@
    }

    /// The events emitted so far, oldest first.
    pub closed spec fn log(&self) -> Seq<EventView> {
        self.events@.map_values(|e: OperationEvent| e@)
    }

    /// The log agrees with the stage: nothing before the start, no terminal
    /// event while a step runs, and once finished, one terminal event that is
    /// the last of the log.
    pub closed spec fn wf(&self) -> bool {
        let log = self.log();
        match self.stage() {
            StageView::NotStarted => log.len() == 0,
            StageView::InStep(_) => forall|i: int|
                0 <= i < log.len() ==> !is_terminal_event(#[trigger] log[i]),
            _ => {
                &&& log.len() > 0
                &&& is_terminal_event(log.last())
                &&& forall|i: int| 0 <= i < log.len() - 1 ==> !is_terminal_event(#[trigger] log[i])
            },
        }
    }

    /// A run that has not started, named `name`.
    pub fn new(name: &str) -> (r: Operation)
        ensures
            r.wf(),
            r.name_view() == name@,
            r.stage() == StageView::NotStarted,
            r.log() == Seq::<EventView>::empty(),
    {
        let r = Operation { name: String::from_str(name), stage: Stage::NotStarted, events: Vec::new() };
        assert(r.log() =~= Seq::<EventView>::empty());
        r
    }

    pub fn name(&self) -> (r: &String)
        ensures
            r@ == self.name_view(),
    {
        &self.name
    }

    pub fn events(&self) -> (r: &Vec<OperationEvent>)
        ensures
            r@.map_values(|e: OperationEvent| e@) == self.log(),
    {
        &self.events
    }

    fn emit(&mut self, e: OperationEvent, stage: Stage)
        ensures
            final(self).name_view() == old(self).name_view(),
            final(self).stage() == stage@,
            final(self).log() == old(self).log().push(e@),
    {
        self.events.push(e);
        self.stage = stage;
        assert(self.log() =~= old(self).log().push(e@));
    }

    /// Enters the first step. Only a run that has not started can start.
    pub fn start(&mut self, step: &str) -> (r: Result<(), OpError>)
        requires
            old(self).wf(),
        ensures
            final(self).wf(),
            final(self).name_view() == old(self).name_view(),
            old(self).stage() is NotStarted ==> {
                &&& r is Ok
                &&& final(self).stage() == StageView::InStep(step@)
                &&& final(self).log() == old(self).log().push(EventView::Started(step@))
            },
            !(old(self).stage() is NotStarted) ==> {
                &&& r matches Err(OpError::OutOfOrder)
                &&& final(self).stage() == old(self).stage()
                &&& final(self).log() == old(self).log()
            },
    {
        match &self.stage {
            Stage::NotStarted => {
                let s = String::from_str(step);
                self.emit(OperationEvent::Started { step: s.clone() }, Stage::InStep(s));
                Ok(())
            },
            _ => Err(OpError::OutOfOrder),
        }
    }

    /// Moves from step `from` to step `to`. Called from any other stage, it
    /// changes nothing and reports the caller's step-order bug.
    pub fn move_on(&mut self, from: &str, to: &str) -> (r: Result<(), OpError>)
        requires
            old(self).wf(),
        ensures
            final(self).wf(),
            final(self).name_view() == old(self).name_view(),
            old(self).stage() == StageView::InStep(from@) ==> {
                &&& r is Ok
                &&& final(self).stage() == StageView::InStep(to@)
                &&& final(self).log() == old(self).log().push(EventView::AdvancedTo(from@, to@))
            },
            old(self).stage() != StageView::InStep(from@) ==> {
                &&& r matches Err(OpError::OutOfOrder)
                &&& final(self).stage() == old(self).stage()
                &&& final(self).log() == old(self).log()
            },
    {
        let f = String::from_str(from);
        let in_from = match &self.stage {
            Stage::InStep(s) => *s == f,
            _ => false,
        };
        if in_from {
            let t = String::from_str(to);
            self.emit(OperationEvent::AdvancedTo { from: f, to: t.clone() }, Stage::InStep(t));
            Ok(())
        } else {
            Err(OpError::OutOfOrder)
        }
    }

    /// Finishes the run in its last step, `step`. Called from any other stage,
    /// it changes nothing and reports the caller's step-order bug.
    pub fn complete(&mut self, step: &str) -> (r: Result<(), OpError>)
        requires
            old(self).wf(),
        ensures
            final(self).wf(),
            final(self).name_view() == old(self).name_view(),
            old(self).stage() == StageView::InStep(step@) ==> {
                &&& r is Ok
                &&& final(self).stage() == StageView::Completed(step@)
                &&& final(self).log() == old(self).log().push(EventView::Completed(step@))
            },
            old(self).stage() != StageView::InStep(step@) ==> {
                &&& r matches Err(OpError::OutOfOrder)
                &&& final(self).stage() == old(self).stage()
                &&& final(self).log() == old(self).log()
            },
    {
        let s = String::from_str(step);
        let in_step = match &self.stage {
            Stage::InStep(cur) => *cur == s,
            _ => false,
        };
        if in_step {
            self.emit(OperationEvent::Completed { step: s.clone() }, Stage::Completed(s));
            Ok(())
        } else {
            Err(OpError::OutOfOrder)
        }
    }

    /// Fails the run in `step` with `message` and hands back the failure for
    /// the caller to return. A run that has already finished emits nothing
    /// more.
    pub fn fail(&mut self, step: &str, message: String) -> (r: OpError)
        requires
            old(self).wf(),
        ensures
            final(self).wf(),
            final(self).name_view() == old(self).name_view(),
            step_failed(r, step@, message@),
            !is_terminal_stage(old(self).stage()) ==> {
                &&& final(self).stage() == StageView::Failed(step@)
                &&& final(self).log() == old(self).log().push(EventView::Failed(step@, message@))
            },
            is_terminal_stage(old(self).stage()) ==> {
                &&& final(self).stage() == old(self).stage()
                &&& final(self).log() == old(self).log()
            },
    {
        let s = String::from_str(step);
        let finished = match &self.stage {
            Stage::Failed(_) => true,
            Stage::Completed(_) => true,
            _ => false,
        };
        if !finished {
            self.emit(
                OperationEvent::Failed { step: s.clone(), message: message.clone() },
                Stage::Failed(s.clone()),
            );
        }
        OpError::StepFailed { step: s, message }
    }

    /// Passes the success value of an attempted action through unchanged, or
    /// fails the run in `step` with the action's error message.
    pub fn fail_if_err<T>(&mut self, step: &str, result: Result<T, IloaderError>) -> (r: Result<
        T,
        OpError,
    >)
        requires
            old(self).wf(),
        ensures
            final(self).wf(),
            final(self).name_view() == old(self).name_view(),
            result is Ok ==> {
                &&& r is Ok
                &&& r->Ok_0 == result->Ok_0
                &&& final(self).stage() == old(self).stage()
                &&& final(self).log() == old(self).log()
            },
            result is Err ==> r is Err && step_failed(r->Err_0, step@, message_of(result->Err_0)),
            result is Err && !is_terminal_stage(old(self).stage()) ==> {
                &&& final(self).stage() == StageView::Failed(step@)
                &&& final(self).log() == old(self).log().push(
                    EventView::Failed(step@, message_of(result->Err_0)),
                )
            },
            result is Err && is_terminal_stage(old(self).stage()) ==> {
                &&& final(self).stage() == old(self).stage()
                &&& final(self).log() == old(self).log()
            },
    {
        match result {
            Ok(v) => Ok(v),
            Err(e) => Err(self.fail(step, e.message())),
        }
    }
}

/// A finished run has emitted exactly one terminal event, `Failed` or
/// `Completed`, and it is the last event of its log; a run that has not
/// finished has emitted none.
pub proof fn lemma_one_terminal_event(op: Operation)
    requires
        op.wf(),
    ensures
        is_terminal_stage(op.stage()) ==> {
            &&& op.log().len() > 0
            &&& is_terminal_event(op.log().last())
            &&& forall|i: int|
                0 <= i < op.log().len() - 1 ==> !is_terminal_event(#[trigger] op.log()[i])
        },
        !is_terminal_stage(op.stage()) ==> forall|i: int|
            0 <= i < op.log().len() ==> !is_terminal_event(#[trigger] op.log()[i]),
{
}

} // verus!
