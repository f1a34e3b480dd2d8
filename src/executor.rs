//! The corrective-action executor. It does no I/O itself: it tells its driver
//! which operation to perform next and is told how it went.
//!
//! A correction runs: guard check, layout switch, guard check, erase the word
//! and its boundary character, guard check, type the corrected word and a
//! space. Every mutation is asked for only right after a guard check that
//! answered "not forbidden"; a forbidden context or a failed check ends the
//! run. The layout switch is advisory: its result does not stop the run. A
//! failed erasure or injection ends the run without retry.
use vstd::prelude::*;

use crate::decision::{CorrectionDecision, DecisionView, Direction};
use crate::errors::PlatformError;
use crate::lang::{LANG_ID_EN_US, LANG_ID_RU};
use crate::text::push_char;

verus! {

/// How a run ended.
#[derive(Clone, Copy, Debug, PartialEq, Eq, Structural)]
pub enum ExecResult {
    Corrected,
    /// The decision asked for no correction.
    NothingToDo,
    /// The guard forbade action or could not tell.
    Blocked,
    ErasureFailed,
    InjectionFailed,
}

/// The operation the driver is to perform next.
#[derive(Debug, PartialEq, Eq)]
pub enum ExecAction {
    CheckGuard,
    SwitchLayout(u16),
    SendBackspaces(usize),
    SendText(String),
    Finish(ExecResult),
}

/// The guard's answer for the foreground context.
#[derive(Clone, Copy, Debug, PartialEq, Eq, Structural)]
pub enum GuardAnswer {
    Allowed,
    Forbidden,
    /// The check itself failed; treated as forbidden.
    Unavailable,
}

/// What the driver reports back.
#[derive(Clone, Copy, Debug, PartialEq, Eq, Structural)]
pub enum ExecEvent {
    Guard(GuardAnswer),
    /// The last mutation was carried out (`true`) or not (`false`).
    Completed(bool),
    /// The last mutation failed with an error.
    Failed,
}

impl GuardAnswer {
    /// Reads the result of "is the context forbidden?".
    pub fn from_check(r: Result<bool, PlatformError>) -> (a: GuardAnswer)
        ensures
            a == (match r {
                Ok(false) => GuardAnswer::Allowed,
                Ok(true) => GuardAnswer::Forbidden,
                Err(_) => GuardAnswer::Unavailable,
            }),
    {
        match r {
            Ok(false) => GuardAnswer::Allowed,
            Ok(true) => GuardAnswer::Forbidden,
            Err(_) => GuardAnswer::Unavailable,
        }
    }
}

impl ExecEvent {
    /// Reads the result of a mutation.
    pub fn from_completion(r: Result<bool, PlatformError>) -> (e: ExecEvent)
        ensures
            e == (match r {
                Ok(done) => ExecEvent::Completed(done),
                Err(_) => ExecEvent::Failed,
            }),
    {
        match r {
            Ok(done) => ExecEvent::Completed(done),
            Err(_) => ExecEvent::Failed,
        }
    }
}

#[derive(Clone, Copy, Debug, PartialEq, Eq, Structural)]
pub enum Stage {
    GuardBeforeLayout,
    Layout,
    GuardBeforeErase,
    Erase,
    GuardBeforeInject,
    Inject,
    Done,
}

/// An action as a value.
pub enum ActionView {
    CheckGuard,
    SwitchLayout(u16),
    SendBackspaces(usize),
    SendText(Seq<char>),
    Finish(ExecResult),
}

impl View for ExecAction {
    type V = ActionView;

    open spec fn view(&self) -> ActionView {
        match self {
            ExecAction::CheckGuard => ActionView::CheckGuard,
            ExecAction::SwitchLayout(id) => ActionView::SwitchLayout(*id),
            ExecAction::SendBackspaces(n) => ActionView::SendBackspaces(*n),
            ExecAction::SendText(t) => ActionView::SendText(t@),
            ExecAction::Finish(r) => ActionView::Finish(*r),
        }
    }
}

pub open spec fn is_mutation(a: ActionView) -> bool {
    a is SwitchLayout || a is SendBackspaces || a is SendText
}

pub open spec fn allowed(ev: ExecEvent) -> bool {
    ev == ExecEvent::Guard(GuardAnswer::Allowed)
}

pub open spec fn succeeded(ev: ExecEvent) -> bool {
    ev == ExecEvent::Completed(true)
}

pub open spec fn target_lang(d: Direction) -> u16 {
    if d == Direction::EnToRu {
        LANG_ID_RU
    } else {
        LANG_ID_EN_US
    }
}

/// The executor as a value.
pub struct ExecView {
    pub stage: Stage,
    pub lang_id: u16,
    pub backspaces: usize,
    pub text: Seq<char>,
}

/// The run's initial state and first action for a decision on a word of
/// `buffered_len` keys.
pub open spec fn exec_start(d: DecisionView, buffered_len: usize) -> (ExecView, ActionView) {
    let v = ExecView {
        stage: if d.direction == Direction::NoCorrection {
            Stage::Done
        } else {
            Stage::GuardBeforeLayout
        },
        lang_id: target_lang(d.direction),
        backspaces: (buffered_len + 1) as usize,
        text: d.converted.push(' '),
    };
    (v, if d.direction == Direction::NoCorrection {
        ActionView::Finish(ExecResult::NothingToDo)
    } else {
        ActionView::CheckGuard
    })
}

pub open spec fn finish(v: ExecView, result: ExecResult) -> (ExecView, ActionView) {
    (ExecView { stage: Stage::Done, ..v }, ActionView::Finish(result))
}

/// One transition of the executor on the driver's report `ev`.
pub open spec fn exec_step(v: ExecView, ev: ExecEvent) -> (ExecView, ActionView) {
    match v.stage {
        Stage::GuardBeforeLayout => if allowed(ev) {
            (ExecView { stage: Stage::Layout, ..v }, ActionView::SwitchLayout(v.lang_id))
        } else {
            finish(v, ExecResult::Blocked)
        },
        Stage::Layout => if ev is Guard {
            finish(v, ExecResult::Blocked)
        } else {
            (ExecView { stage: Stage::GuardBeforeErase, ..v }, ActionView::CheckGuard)
        },
        Stage::GuardBeforeErase => if allowed(ev) {
            (ExecView { stage: Stage::Erase, ..v }, ActionView::SendBackspaces(v.backspaces))
        } else {
            finish(v, ExecResult::Blocked)
        },
        Stage::Erase => if succeeded(ev) {
            (ExecView { stage: Stage::GuardBeforeInject, ..v }, ActionView::CheckGuard)
        } else {
            finish(v, ExecResult::ErasureFailed)
        },
        Stage::GuardBeforeInject => if allowed(ev) {
            (ExecView { stage: Stage::Inject, ..v }, ActionView::SendText(v.text))
        } else {
            finish(v, ExecResult::Blocked)
        },
        Stage::Inject => if succeeded(ev) {
            finish(v, ExecResult::Corrected)
        } else {
            finish(v, ExecResult::InjectionFailed)
        },
        Stage::Done => (v, ActionView::Finish(ExecResult::NothingToDo)),
    }
}

/// The actions the executor asks for from state `v` when answered with
/// `replies` in turn, up to and including its first `Finish`, or until the
/// replies run out.
pub open spec fn exec_trace(v: ExecView, replies: Seq<ExecEvent>) -> Seq<ActionView>
    decreases replies.len(),
{
    if replies.len() == 0 {
        Seq::empty()
    } else {
        let next = exec_step(v, replies[0]);
        if next.1 is Finish {
            seq![next.1]
        } else {
            seq![next.1] + exec_trace(next.0, replies.drop_first())
        }
    }
}

/// The whole run for decision `d`: the first action, then the trace.
pub open spec fn correction_run(d: DecisionView, buffered_len: usize, replies: Seq<ExecEvent>) -> Seq<ActionView> {
    let first = exec_start(d, buffered_len);
    if first.1 is Finish {
        seq![first.1]
    } else {
        seq![first.1] + exec_trace(first.0, replies)
    }
}

/// Along any trace: each mutation answers a guard reply of "allowed" given
/// just before it, every erasure asks for the state's Backspace count, and a
/// finished executor asks for nothing more.
pub proof fn lemma_trace_guarded(v: ExecView, replies: Seq<ExecEvent>)
    ensures
        exec_trace(v, replies).len() <= replies.len(),
        forall|i: int|
            0 <= i < exec_trace(v, replies).len() && #[trigger] is_mutation(exec_trace(v, replies)[i])
                ==> allowed(replies[i]),
        forall|i: int|
            0 <= i < exec_trace(v, replies).len() ==> (#[trigger] exec_trace(v, replies)[i] matches ActionView::SendBackspaces(n)
                ==> n == v.backspaces),
        v.stage == Stage::Done ==> forall|i: int|
            0 <= i < exec_trace(v, replies).len() ==> !#[trigger] is_mutation(exec_trace(v, replies)[i]),
    decreases replies.len(),
{
    if replies.len() > 0 {
        let next = exec_step(v, replies[0]);
        lemma_trace_guarded(next.0, replies.drop_first());
        let t = exec_trace(v, replies);
        if !(next.1 is Finish) {
            let rest = exec_trace(next.0, replies.drop_first());
            assert(t == seq![next.1] + rest);
            assert forall|i: int| 0 < i < t.len() implies t[i] == rest[i - 1] && replies[i] == replies.drop_first()[i - 1] by {}
        }
    }
}

pub struct Executor {
    pub stage: Stage,
    pub lang_id: u16,
    pub backspaces: usize,
    pub text: String,
}

impl View for Executor {
    type V = ExecView;

    open spec fn view(&self) -> ExecView {
        ExecView { stage: self.stage, lang_id: self.lang_id, backspaces: self.backspaces, text: self.text@ }
    }
}

impl Executor {
    /// Starts a run for `decision`, taken on a word of `buffered_len` keys
    /// whose boundary character already reached the target field.
    pub fn start(decision: CorrectionDecision, buffered_len: usize) -> (r: (Executor, ExecAction))
        requires
            buffered_len < usize::MAX,
        ensures
            (r.0@, r.1@) == exec_start(decision@, buffered_len),
    {
        let mut text = decision.converted;
        push_char(&mut text, ' ');
        let lang_id = if decision.direction == Direction::EnToRu {
            LANG_ID_RU
        } else {
            LANG_ID_EN_US
        };
        let ex = Executor { stage: Stage::Done, lang_id, backspaces: buffered_len + 1, text };
        if decision.direction == Direction::NoCorrection {
            (ex, ExecAction::Finish(ExecResult::NothingToDo))
        } else {
            (Executor { stage: Stage::GuardBeforeLayout, ..ex }, ExecAction::CheckGuard)
        }
    }

    fn finish(&mut self, result: ExecResult) -> (r: ExecAction)
        ensures
            (final(self)@, r@) == finish(old(self)@, result),
    {
        self.stage = Stage::Done;
        ExecAction::Finish(result)
    }

    /// Advances the run on the driver's report `ev` and names the next operation.
    pub fn step(&mut self, ev: ExecEvent) -> (r: ExecAction)
        ensures
            (final(self)@, r@) == exec_step(old(self)@, ev),
    {
        let allowed = ev == ExecEvent::Guard(GuardAnswer::Allowed);
        let succeeded = ev == ExecEvent::Completed(true);
        match self.stage {
            Stage::GuardBeforeLayout => {
                if allowed {
                    self.stage = Stage::Layout;
                    ExecAction::SwitchLayout(self.lang_id)
                } else {
                    self.finish(ExecResult::Blocked)
                }
            },
            Stage::Layout => {
                match ev {
                    ExecEvent::Guard(_) => self.finish(ExecResult::Blocked),
                    _ => {
                        self.stage = Stage::GuardBeforeErase;
                        ExecAction::CheckGuard
                    },
                }
            },
            Stage::GuardBeforeErase => {
                if allowed {
                    self.stage = Stage::Erase;
                    ExecAction::SendBackspaces(self.backspaces)
                } else {
                    self.finish(ExecResult::Blocked)
                }
            },
            Stage::Erase => {
                if succeeded {
                    self.stage = Stage::GuardBeforeInject;
                    ExecAction::CheckGuard
                } else {
                    self.finish(ExecResult::ErasureFailed)
                }
            },
            Stage::GuardBeforeInject => {
                if allowed {
                    self.stage = Stage::Inject;
                    ExecAction::SendText(self.text.clone())
                } else {
                    self.finish(ExecResult::Blocked)
                }
            },
            Stage::Inject => {
                if succeeded {
                    self.finish(ExecResult::Corrected)
                } else {
                    self.finish(ExecResult::InjectionFailed)
                }
            },
            Stage::Done => ExecAction::Finish(ExecResult::NothingToDo),
        }
    }
}

} // verus!
