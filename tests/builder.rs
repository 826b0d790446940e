use commit_guide::builder::{BuildEvent, BuildStep, RecordBuilder, Stage};
use commit_guide::collector::{Action, Event};

fn field(e: Event) -> BuildEvent {
    BuildEvent::Field(e)
}

fn entered(t: &str) -> BuildEvent {
    field(Event::Entered(t.to_string()))
}

/// Enters a value that passes the spell checker and confirms it.
fn checked_value(b: &mut RecordBuilder, t: &str) -> BuildStep {
    assert!(matches!(b.step(entered(t)), BuildStep::Field(Action::CheckSpelling(_))));
    assert!(matches!(b.step(field(Event::SpellReport(String::new()))), BuildStep::Field(Action::Confirm(_))));
    b.step(field(Event::Answered(true)))
}

fn through_summary(b: &mut RecordBuilder) {
    assert!(matches!(b.stage(), Stage::Kind));
    assert!(matches!(b.step(entered("Star: New feature or enhancement")), BuildStep::Field(Action::Confirm(_))));
    assert!(matches!(b.step(field(Event::Answered(true))), BuildStep::Field(Action::Ask { too_long: false })));
    assert!(matches!(b.stage(), Stage::Scope));
    assert!(matches!(checked_value(b, "core"), BuildStep::Field(Action::Ask { too_long: false })));
    assert!(matches!(b.stage(), Stage::Summary));
    assert!(matches!(checked_value(b, "add x"), BuildStep::Field(Action::Ask { too_long: false })));
    assert!(matches!(b.stage(), Stage::Why));
}

#[test]
fn full_assembly() {
    let mut b = RecordBuilder::new();
    through_summary(&mut b);
    assert!(matches!(checked_value(&mut b, "because"), BuildStep::Ask(Stage::MoreWhy)));
    assert!(matches!(b.step(BuildEvent::Answered(true)), BuildStep::Field(Action::Ask { .. })));
    assert!(matches!(checked_value(&mut b, "and more"), BuildStep::Ask(Stage::MoreWhy)));
    assert!(matches!(b.step(BuildEvent::Answered(false)), BuildStep::Ask(Stage::BreakingGate)));
    assert!(matches!(b.step(BuildEvent::Answered(true)), BuildStep::Field(Action::Ask { .. })));
    assert!(matches!(b.step(entered("api")), BuildStep::Field(Action::Confirm(_))));
    assert!(matches!(b.step(field(Event::Answered(true))), BuildStep::Ask(Stage::FixesGate)));
    assert!(matches!(b.step(BuildEvent::Answered(true)), BuildStep::Field(Action::Ask { .. })));
    assert!(matches!(b.step(entered("12")), BuildStep::Ask(Stage::MoreFixes)));
    assert!(matches!(b.step(BuildEvent::Answered(false)), BuildStep::Ask(Stage::ClosesGate)));
    assert!(b.finish().is_none());
    assert!(matches!(b.step(BuildEvent::Answered(false)), BuildStep::Finished));
    let r = b.finish().unwrap();
    assert_eq!(r.kind(), "Star");
    assert_eq!(r.scope(), "core");
    assert_eq!(r.summary(), "add x");
    assert_eq!(r.rationale(), &vec!["because".to_string(), "and more".to_string()]);
    assert_eq!(r.footer(), "BREAKING CHANGE: api\n\tFixes #12\n");
}

#[test]
fn no_record_without_rationale() {
    let mut b = RecordBuilder::new();
    through_summary(&mut b);
    for _ in 0..3 {
        b.step(BuildEvent::Answered(false));
        assert!(matches!(b.stage(), Stage::Why));
    }
    b.step(entered(""));
    assert!(matches!(b.stage(), Stage::Why));
    assert!(b.finish().is_none());
}

#[test]
fn declined_kind_is_asked_again() {
    let mut b = RecordBuilder::new();
    b.step(entered("Comet: Bug fix or error resolution"));
    assert!(matches!(b.step(field(Event::Answered(false))), BuildStep::Field(Action::Ask { too_long: false })));
    assert!(matches!(b.stage(), Stage::Kind));
}

#[test]
fn closes_only() {
    let mut b = RecordBuilder::new();
    through_summary(&mut b);
    checked_value(&mut b, "why");
    b.step(BuildEvent::Answered(false));
    b.step(BuildEvent::Answered(false));
    b.step(BuildEvent::Answered(false));
    assert!(matches!(b.step(BuildEvent::Answered(true)), BuildStep::Field(_)));
    assert!(matches!(b.step(entered("4")), BuildStep::Ask(Stage::MoreCloses)));
    b.step(BuildEvent::Answered(true));
    b.step(entered("5"));
    assert!(matches!(b.step(BuildEvent::Answered(false)), BuildStep::Finished));
    assert_eq!(b.finish().unwrap().footer(), "\n\tCloses #4\n\n\tCloses #5\n");
}

#[test]
fn unknown_kind_is_refused() {
    let mut b = RecordBuilder::new();
    assert!(matches!(b.step(entered("Nova: not a kind")), BuildStep::Field(Action::Ask { too_long: false })));
    assert!(matches!(b.stage(), Stage::Kind));
    assert!(matches!(b.step(entered("Void: Removal of a module, component, or feature")), BuildStep::Field(Action::Confirm(_))));
}
