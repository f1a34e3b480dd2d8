//! The layout-switching module, and a whole correction run driven by a given
//! sequence of replies.
use vstd::prelude::*;

use crate::config::LayoutSwitcherConfig;
use crate::errors::PlatformError;
use crate::heuristics::{accepts_en_to_ru, accepts_ru_to_en};
use crate::lang::{class_of, LayoutClass, LANG_ID_EN_US, LANG_ID_RU};
use crate::translit::transliterated;
use crate::decision::{
    boundary_decision, filtered_out, guard_allows, CorrectionDecision, DecisionView, Direction,
};
use crate::executor::{
    allowed, correction_run, exec_start, exec_step, exec_trace, is_mutation, lemma_trace_guarded,
    target_lang, ActionView, ExecAction, ExecEvent, ExecResult, Executor, GuardAnswer,
};

verus! {

/// The layout-switching module and its configuration.
pub struct LayoutSwitcherModule {
    pub config: LayoutSwitcherConfig,
}

impl LayoutSwitcherModule {
    pub fn new(config: LayoutSwitcherConfig) -> (r: Self)
        ensures
            r.config == config,
    {
        LayoutSwitcherModule { config }
    }
}

/// Over a whole run: no mutation comes first, each mutation directly follows
/// a guard reply of "allowed", every erasure asks for one Backspace more than
/// the word's length, and a decision of no correction asks for no mutation.
pub proof fn lemma_run_guarded(d: DecisionView, buffered_len: usize, replies: Seq<ExecEvent>)
    requires
        buffered_len < usize::MAX,
    ensures
        correction_run(d, buffered_len, replies).len() >= 1,
        !is_mutation(correction_run(d, buffered_len, replies)[0]),
        forall|i: int|
            0 < i < correction_run(d, buffered_len, replies).len() && #[trigger] is_mutation(
                correction_run(d, buffered_len, replies)[i],
            ) ==> allowed(replies[i - 1]),
        forall|i: int|
            0 <= i < correction_run(d, buffered_len, replies).len() ==> (#[trigger] correction_run(
                d,
                buffered_len,
                replies,
            )[i] matches ActionView::SendBackspaces(n) ==> n == buffered_len + 1),
        d.direction == Direction::NoCorrection ==> forall|i: int|
            0 <= i < correction_run(d, buffered_len, replies).len() ==> !#[trigger] is_mutation(
                correction_run(d, buffered_len, replies)[i],
            ),
{
    let first = exec_start(d, buffered_len);
    let run = correction_run(d, buffered_len, replies);
    if !(first.1 is Finish) {
        let t = exec_trace(first.0, replies);
        lemma_trace_guarded(first.0, replies);
        assert(run == seq![first.1] + t);
        assert forall|i: int| 0 < i < run.len() implies run[i] == t[i - 1] by {}
    }
}

/// Runs a correction for `decision` on a word of `buffered_len` keys,
/// answering the executor's requests with `replies` in turn, and returns every
/// operation it asked for: its first action, then one per reply, ending at
/// its `Finish` or when the replies run out.
pub fn plan_correction(decision: CorrectionDecision, buffered_len: usize, replies: &Vec<ExecEvent>) -> (r: Vec<
    ExecAction,
>)
    requires
        buffered_len < usize::MAX,
    ensures
        r@.map_values(|a: ExecAction| a@) == correction_run(decision@, buffered_len, replies@),
{
    let ghost full = correction_run(decision@, buffered_len, replies@);
    let (mut ex, first) = Executor::start(decision, buffered_len);
    let mut finished = matches!(first, ExecAction::Finish(_));
    let mut actions: Vec<ExecAction> = Vec::new();
    actions.push(first);
    let mut i: usize = 0;
    assert(replies@.subrange(0, replies@.len() as int) =~= replies@);
    assert(actions@.map_values(|a: ExecAction| a@) =~= seq![first@]);
    while i < replies.len() && !finished
        invariant
            i <= replies@.len(),
            finished ==> actions@.map_values(|a: ExecAction| a@) == full,
            !finished ==> actions@.map_values(|a: ExecAction| a@) + exec_trace(
                ex@,
                replies@.subrange(i as int, replies@.len() as int),
            ) == full,
        decreases replies.len() - i,
    {
        let ghost before = actions@.map_values(|a: ExecAction| a@);
        let ghost rest = replies@.subrange(i as int, replies@.len() as int);
        let ghost v = ex@;
        let next = ex.step(replies[i]);
        finished = matches!(next, ExecAction::Finish(_));
        actions.push(next);
        proof {
            assert(rest[0] == replies@[i as int]);
            assert(rest.drop_first() =~= replies@.subrange(i + 1, replies@.len() as int));
            assert(actions@.map_values(|a: ExecAction| a@) =~= before.push(next@));
            if !finished {
                assert(exec_trace(v, rest) == seq![next@] + exec_trace(ex@, rest.drop_first()));
                assert(before + exec_trace(v, rest) =~= before.push(next@) + exec_trace(ex@, rest.drop_first()));
            } else {
                assert(exec_trace(v, rest) == seq![next@]);
                assert(before + exec_trace(v, rest) =~= before.push(next@));
            }
        }
        i = i + 1;
    }
    proof {
        if !finished {
            assert(replies@.subrange(i as int, replies@.len() as int).len() == 0);
            assert(actions@.map_values(|a: ExecAction| a@) + Seq::<ActionView>::empty() =~= actions@.map_values(|a: ExecAction| a@));
        }
    }
    actions
}

/// Every operation succeeds and every guard check allows action.
pub open spec fn all_succeed() -> Seq<ExecEvent> {
    seq![
        ExecEvent::Guard(GuardAnswer::Allowed),
        ExecEvent::Completed(true),
        ExecEvent::Guard(GuardAnswer::Allowed),
        ExecEvent::Completed(true),
        ExecEvent::Guard(GuardAnswer::Allowed),
        ExecEvent::Completed(true),
    ]
}

/// The run of a correction in which everything succeeds: switch to the
/// target layout, erase the word and its boundary character, type the
/// converted text and a space.
pub open spec fn successful_run(d: DecisionView, buffered_len: usize) -> Seq<ActionView> {
    seq![
        ActionView::CheckGuard,
        ActionView::SwitchLayout(target_lang(d.direction)),
        ActionView::CheckGuard,
        ActionView::SendBackspaces((buffered_len + 1) as usize),
        ActionView::CheckGuard,
        ActionView::SendText(d.converted.push(' ')),
        ActionView::Finish(ExecResult::Corrected),
    ]
}

/// A correction whose every step succeeds runs exactly as `successful_run`.
pub proof fn lemma_successful_run(d: DecisionView, buffered_len: usize)
    requires
        buffered_len < usize::MAX,
        d.direction != Direction::NoCorrection,
    ensures
        correction_run(d, buffered_len, all_succeed()) == successful_run(d, buffered_len),
{
    let r = all_succeed();
    let v0 = exec_start(d, buffered_len).0;
    let s1 = exec_step(v0, r[0]);
    let s2 = exec_step(s1.0, r[1]);
    let s3 = exec_step(s2.0, r[2]);
    let s4 = exec_step(s3.0, r[3]);
    let s5 = exec_step(s4.0, r[4]);
    let s6 = exec_step(s5.0, r[5]);
    let t6 = exec_trace(s6.0, r.drop_first().drop_first().drop_first().drop_first().drop_first().drop_first());
    assert(r.drop_first().drop_first().drop_first().drop_first().drop_first().drop_first().len() == 0);
    let t5 = exec_trace(s5.0, r.drop_first().drop_first().drop_first().drop_first().drop_first());
    assert(t5 == seq![s6.1]);
    let t4 = exec_trace(s4.0, r.drop_first().drop_first().drop_first().drop_first());
    assert(t4 == seq![s5.1] + t5);
    let t3 = exec_trace(s3.0, r.drop_first().drop_first().drop_first());
    assert(t3 == seq![s4.1] + t4);
    let t2 = exec_trace(s2.0, r.drop_first().drop_first());
    assert(t2 == seq![s3.1] + t3);
    let t1 = exec_trace(s1.0, r.drop_first());
    assert(t1 == seq![s2.1] + t2);
    let t0 = exec_trace(v0, r);
    assert(t0 == seq![s1.1] + t1);
    assert(correction_run(d, buffered_len, r) =~= successful_run(d, buffered_len));
}

/// At a word boundary: when the guard forbids action or cannot answer, the
/// run asks for no layout switch, erasure or injection; in every run each
/// of those directly follows a guard reply of "allowed", and every erasure
/// asks for one Backspace more than the buffered word's length.
pub proof fn lemma_boundary_run_guarded(
    word: Seq<char>,
    forbidden: Result<bool, PlatformError>,
    lang: Result<u16, PlatformError>,
    config: LayoutSwitcherConfig,
    replies: Seq<ExecEvent>,
)
    requires
        word.len() < usize::MAX,
    ensures
        ({
            let run = correction_run(boundary_decision(word, forbidden, lang, config), word.len() as usize, replies);
            &&& !guard_allows(forbidden) ==> forall|i: int| 0 <= i < run.len() ==> !#[trigger] is_mutation(run[i])
            &&& forall|i: int| 0 < i < run.len() && #[trigger] is_mutation(run[i]) ==> allowed(replies[i - 1])
            &&& forall|i: int| 0 <= i < run.len() ==> (#[trigger] run[i] matches ActionView::SendBackspaces(n) ==> n == word.len() + 1)
        }),
{
    lemma_run_guarded(boundary_decision(word, forbidden, lang, config), word.len() as usize, replies);
}

/// Latin keys that are no plausible English word, committed under a Latin
/// layout with the guard allowing action, whose transliteration reads as a
/// Cyrillic word: when every step succeeds the layout is switched to
/// Russian, the word and its space are erased, and the transliteration,
/// case kept, is typed followed by a space.
pub proof fn lemma_latin_word_corrected(word: Seq<char>, lang_id: u16, config: LayoutSwitcherConfig)
    requires
        word.len() < usize::MAX,
        class_of(lang_id) == LayoutClass::Latin,
        !filtered_out(word, config.min_autocorrect_len as nat),
        accepts_en_to_ru(word, transliterated(word), config.thresholds),
    ensures
        correction_run(
            boundary_decision(word, Ok(false), Ok(lang_id), config),
            word.len() as usize,
            all_succeed(),
        ) == seq![
            ActionView::CheckGuard,
            ActionView::SwitchLayout(LANG_ID_RU),
            ActionView::CheckGuard,
            ActionView::SendBackspaces((word.len() + 1) as usize),
            ActionView::CheckGuard,
            ActionView::SendText(transliterated(word).push(' ')),
            ActionView::Finish(ExecResult::Corrected),
        ],
{
    lemma_successful_run(boundary_decision(word, Ok(false), Ok(lang_id), config), word.len() as usize);
}

/// A plausible English word typed under a Cyrillic layout, with the guard
/// allowing action, whose on-screen Cyrillic reads as garbage: when every
/// step succeeds the layout is switched to English, the Cyrillic text and its
/// space are erased, and the typed keys are typed again followed by a space.
pub proof fn lemma_english_word_restored(word: Seq<char>, lang_id: u16, config: LayoutSwitcherConfig)
    requires
        word.len() < usize::MAX,
        class_of(lang_id) == LayoutClass::Cyrillic,
        !filtered_out(word, config.min_autocorrect_len as nat),
        accepts_ru_to_en(word, transliterated(word), config.thresholds),
    ensures
        correction_run(
            boundary_decision(word, Ok(false), Ok(lang_id), config),
            word.len() as usize,
            all_succeed(),
        ) == seq![
            ActionView::CheckGuard,
            ActionView::SwitchLayout(LANG_ID_EN_US),
            ActionView::CheckGuard,
            ActionView::SendBackspaces((word.len() + 1) as usize),
            ActionView::CheckGuard,
            ActionView::SendText(word.push(' ')),
            ActionView::Finish(ExecResult::Corrected),
        ],
{
    lemma_successful_run(boundary_decision(word, Ok(false), Ok(lang_id), config), word.len() as usize);
}

} // verus!
