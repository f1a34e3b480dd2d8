use smart_switcher::decision::{CorrectionDecision, Direction};
use smart_switcher::errors::PlatformError;
use smart_switcher::executor::{ExecAction, ExecEvent, ExecResult, Executor, GuardAnswer};
use smart_switcher::switcher::plan_correction;

fn en_to_ru() -> CorrectionDecision {
    CorrectionDecision {
        direction: Direction::EnToRu,
        original: "ghbdtn".to_string(),
        converted: "привет".to_string(),
    }
}

const ALLOWED: ExecEvent = ExecEvent::Guard(GuardAnswer::Allowed);

#[test]
fn full_correction_run() {
    let (mut ex, first) = Executor::start(en_to_ru(), 6);
    assert_eq!(first, ExecAction::CheckGuard);
    assert_eq!(ex.step(ALLOWED), ExecAction::SwitchLayout(0x0419));
    assert_eq!(ex.step(ExecEvent::Completed(false)), ExecAction::CheckGuard);
    assert_eq!(ex.step(ALLOWED), ExecAction::SendBackspaces(7));
    assert_eq!(ex.step(ExecEvent::Completed(true)), ExecAction::CheckGuard);
    assert_eq!(ex.step(ALLOWED), ExecAction::SendText("привет ".to_string()));
    assert_eq!(ex.step(ExecEvent::Completed(true)), ExecAction::Finish(ExecResult::Corrected));
    assert_eq!(ex.step(ALLOWED), ExecAction::Finish(ExecResult::NothingToDo));
}

#[test]
fn ru_to_en_targets_english_layout() {
    let d = CorrectionDecision {
        direction: Direction::RuToEn,
        original: "руддщ".to_string(),
        converted: "hello".to_string(),
    };
    let (mut ex, _) = Executor::start(d, 5);
    assert_eq!(ex.step(ALLOWED), ExecAction::SwitchLayout(0x0409));
    ex.step(ExecEvent::Failed);
    assert_eq!(ex.step(ALLOWED), ExecAction::SendBackspaces(6));
    ex.step(ExecEvent::Completed(true));
    assert_eq!(ex.step(ALLOWED), ExecAction::SendText("hello ".to_string()));
}

#[test]
fn forbidden_context_stops_every_mutation() {
    for bad in [GuardAnswer::Forbidden, GuardAnswer::Unavailable] {
        let (mut ex, _) = Executor::start(en_to_ru(), 6);
        assert_eq!(ex.step(ExecEvent::Guard(bad)), ExecAction::Finish(ExecResult::Blocked));

        let (mut ex, _) = Executor::start(en_to_ru(), 6);
        ex.step(ALLOWED);
        ex.step(ExecEvent::Completed(true));
        assert_eq!(ex.step(ExecEvent::Guard(bad)), ExecAction::Finish(ExecResult::Blocked));

        let (mut ex, _) = Executor::start(en_to_ru(), 6);
        ex.step(ALLOWED);
        ex.step(ExecEvent::Completed(true));
        ex.step(ALLOWED);
        ex.step(ExecEvent::Completed(true));
        assert_eq!(ex.step(ExecEvent::Guard(bad)), ExecAction::Finish(ExecResult::Blocked));
    }
}

#[test]
fn failed_erasure_or_injection_is_not_retried() {
    let (mut ex, _) = Executor::start(en_to_ru(), 6);
    ex.step(ALLOWED);
    ex.step(ExecEvent::Completed(true));
    ex.step(ALLOWED);
    assert_eq!(ex.step(ExecEvent::Completed(false)), ExecAction::Finish(ExecResult::ErasureFailed));

    let (mut ex, _) = Executor::start(en_to_ru(), 6);
    ex.step(ALLOWED);
    ex.step(ExecEvent::Completed(true));
    ex.step(ALLOWED);
    ex.step(ExecEvent::Completed(true));
    ex.step(ALLOWED);
    assert_eq!(ex.step(ExecEvent::Failed), ExecAction::Finish(ExecResult::InjectionFailed));
}

#[test]
fn no_correction_finishes_at_once() {
    let d = CorrectionDecision {
        direction: Direction::NoCorrection,
        original: "hello".to_string(),
        converted: "hello".to_string(),
    };
    let (_, first) = Executor::start(d, 5);
    assert_eq!(first, ExecAction::Finish(ExecResult::NothingToDo));
}

#[test]
fn planned_run_erases_word_and_boundary() {
    let replies = vec![ALLOWED, ExecEvent::Completed(true), ALLOWED, ExecEvent::Completed(true), ALLOWED, ExecEvent::Completed(true)];
    let actions = plan_correction(en_to_ru(), 6, &replies);
    assert_eq!(actions.len(), 7);
    assert_eq!(actions[3], ExecAction::SendBackspaces(7));
    assert_eq!(actions[6], ExecAction::Finish(ExecResult::Corrected));

    let blocked = vec![ExecEvent::Guard(GuardAnswer::Forbidden), ALLOWED, ALLOWED];
    let actions = plan_correction(en_to_ru(), 6, &blocked);
    assert_eq!(actions, vec![ExecAction::CheckGuard, ExecAction::Finish(ExecResult::Blocked)]);
}

#[test]
fn replies_from_platform_results() {
    assert_eq!(GuardAnswer::from_check(Ok(false)), GuardAnswer::Allowed);
    assert_eq!(GuardAnswer::from_check(Ok(true)), GuardAnswer::Forbidden);
    assert_eq!(GuardAnswer::from_check(Err(PlatformError::OsQueryFailure)), GuardAnswer::Unavailable);
    assert_eq!(ExecEvent::from_completion(Ok(true)), ExecEvent::Completed(true));
    assert_eq!(ExecEvent::from_completion(Err(PlatformError::InjectionFailure)), ExecEvent::Failed);
}
