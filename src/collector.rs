//! The guided collection of one field of a change record: a state machine that
//! takes what the user did and answers with what to do next.
use vstd::prelude::*;

use crate::record::{SCOPE_MAX, SUMMARY_MAX};

verus! {

/// The constraints that a collected value must meet.
#[derive(Clone, Copy)]
pub struct FieldRules {
    /// Most characters accepted, if bounded.
    pub max_len: Option<usize>,
    /// Whether the value goes through the spell checker.
    pub spell_check: bool,
    /// Whether the user must confirm the value.
    pub confirm: bool,
}

/// Where the collection of a value stands.
pub enum Phase {
    /// Waiting for the user to enter a value.
    Prompting,
    /// Waiting for the spell checker's report on a value.
    SpellChecking(String),
    /// Waiting for the user to correct the spelling of a value.
    Correcting(String),
    /// Waiting for the user to confirm a value.
    Confirming(String),
    /// The value is accepted.
    Accepted(String),
}

/// What happened outside since the last step.
pub enum Event {
    /// The user entered a value.
    Entered(String),
    /// The spell checker listed the words it did not know (nothing: all known).
    SpellReport(String),
    /// The user corrected the value, which now reads so.
    Corrected(String),
    /// The user answered the confirmation.
    Answered(bool),
}

/// What to do next.
pub enum Action {
    /// Ask for a value; `too_long` where the last one was over the maximum.
    Ask { too_long: bool },
    /// Run the spell checker on the text.
    CheckSpelling(String),
    /// Let the user correct the spelling of the text.
    Correct(String),
    /// Ask the user to confirm the text.
    Confirm(String),
    /// The text is the accepted value.
    Accept(String),
}

pub enum PhaseView {
    Prompting,
    SpellChecking(Seq<char>),
    Correcting(Seq<char>),
    Confirming(Seq<char>),
    Accepted(Seq<char>),
}

pub enum EventView {
    Entered(Seq<char>),
    SpellReport(Seq<char>),
    Corrected(Seq<char>),
    Answered(bool),
}

pub enum ActionView {
    Ask { too_long: bool },
    CheckSpelling(Seq<char>),
    Correct(Seq<char>),
    Confirm(Seq<char>),
    Accept(Seq<char>),
}

impl View for Phase {
    type V = PhaseView;

    open spec fn view(&self) -> PhaseView {
        match self {
            Phase::Prompting => PhaseView::Prompting,
            Phase::SpellChecking(t) => PhaseView::SpellChecking(t@),
            Phase::Correcting(t) => PhaseView::Correcting(t@),
            Phase::Confirming(t) => PhaseView::Confirming(t@),
            Phase::Accepted(t) => PhaseView::Accepted(t@),
        }
    }
}

impl View for Event {
    type V = EventView;

    open spec fn view(&self) -> EventView {
        match self {
            Event::Entered(t) => EventView::Entered(t@),
            Event::SpellReport(t) => EventView::SpellReport(t@),
            Event::Corrected(t) => EventView::Corrected(t@),
            Event::Answered(b) => EventView::Answered(*b),
        }
    }
}

impl View for Action {
    type V = ActionView;

    open spec fn view(&self) -> ActionView {
        match self {
            Action::Ask { too_long } => ActionView::Ask { too_long: *too_long },
            Action::CheckSpelling(t) => ActionView::CheckSpelling(t@),
            Action::Correct(t) => ActionView::Correct(t@),
            Action::Confirm(t) => ActionView::Confirm(t@),
            Action::Accept(t) => ActionView::Accept(t@),
        }
    }
}

/// What to do once a text has passed the spell checker (or needs none).
pub open spec fn after_spelling(rules: FieldRules, t: Seq<char>) -> (PhaseView, ActionView) {
    if rules.confirm {
        (PhaseView::Confirming(t), ActionView::Confirm(t))
    } else {
        (PhaseView::Accepted(t), ActionView::Accept(t))
    }
}

/// What to do with a text that the user entered or corrected: ask again where it
/// is empty or too long, else check its spelling or go on.
pub open spec fn take_text(rules: FieldRules, t: Seq<char>) -> (PhaseView, ActionView) {
    if t.len() == 0 {
        (PhaseView::Prompting, ActionView::Ask { too_long: false })
    } else if rules.max_len matches Some(m) && t.len() > m {
        (PhaseView::Prompting, ActionView::Ask { too_long: true })
    } else if rules.spell_check {
        (PhaseView::SpellChecking(t), ActionView::CheckSpelling(t))
    } else {
        after_spelling(rules, t)
    }
}

/// The action that a phase waits on.
pub open spec fn pending(p: PhaseView) -> ActionView {
    match p {
        PhaseView::Prompting => ActionView::Ask { too_long: false },
        PhaseView::SpellChecking(t) => ActionView::CheckSpelling(t),
        PhaseView::Correcting(t) => ActionView::Correct(t),
        PhaseView::Confirming(t) => ActionView::Confirm(t),
        PhaseView::Accepted(t) => ActionView::Accept(t),
    }
}

/// One step: the next phase and the action to take. An event that the phase does
/// not wait on changes nothing.
pub open spec fn next(rules: FieldRules, p: PhaseView, e: EventView) -> (PhaseView, ActionView) {
    match (p, e) {
        (PhaseView::Prompting, EventView::Entered(t)) => take_text(rules, t),
        (PhaseView::SpellChecking(t), EventView::SpellReport(report)) => {
            if report.len() == 0 {
                after_spelling(rules, t)
            } else {
                (PhaseView::Correcting(t), ActionView::Correct(t))
            }
        },
        (PhaseView::Correcting(_), EventView::Corrected(t)) => take_text(rules, t),
        (PhaseView::Confirming(t), EventView::Answered(yes)) => {
            if yes {
                (PhaseView::Accepted(t), ActionView::Accept(t))
            } else {
                (PhaseView::Prompting, ActionView::Ask { too_long: false })
            }
        },
        _ => (p, pending(p)),
    }
}

/// The phase reached from `p` after the events, in order.
pub open spec fn run(rules: FieldRules, p: PhaseView, events: Seq<EventView>) -> PhaseView
    decreases events.len(),
{
    if events.len() == 0 {
        p
    } else {
        next(rules, run(rules, p, events.drop_last()), events.last()).0
    }
}

/// A text that meets the length constraints.
pub open spec fn fits(rules: FieldRules, t: Seq<char>) -> bool {
    1 <= t.len() && (rules.max_len matches Some(m) ==> t.len() <= m)
}

/// Every text that the phase holds meets the length constraints.
pub open spec fn phase_fits(rules: FieldRules, p: PhaseView) -> bool {
    match p {
        PhaseView::Prompting => true,
        PhaseView::SpellChecking(t) => fits(rules, t),
        PhaseView::Correcting(t) => fits(rules, t),
        PhaseView::Confirming(t) => fits(rules, t),
        PhaseView::Accepted(t) => fits(rules, t),
    }
}

/// One step keeps every text that the phase holds within the constraints.
pub proof fn lemma_next_fits(rules: FieldRules, p: PhaseView, e: EventView)
    requires
        phase_fits(rules, p),
    ensures
        phase_fits(rules, next(rules, p, e).0),
{
}

/// Whatever the user does, a value that collection accepts meets the length
/// constraints: at least one character, and at most the maximum where there is one.
pub proof fn lemma_accepted_fits(rules: FieldRules, events: Seq<EventView>)
    ensures
        run(rules, PhaseView::Prompting, events) matches PhaseView::Accepted(t) ==> fits(rules, t),
    decreases events.len(),
{
    lemma_run_fits(rules, events);
}

proof fn lemma_run_fits(rules: FieldRules, events: Seq<EventView>)
    ensures
        phase_fits(rules, run(rules, PhaseView::Prompting, events)),
    decreases events.len(),
{
    if events.len() > 0 {
        lemma_run_fits(rules, events.drop_last());
        lemma_next_fits(rules, run(rules, PhaseView::Prompting, events.drop_last()), events.last());
    }
}

/// Where the user must confirm, no value is accepted unless the user says yes:
/// after any events without a "yes" answer, the collection has accepted nothing.
pub proof fn lemma_declines_never_accept(rules: FieldRules, events: Seq<EventView>)
    requires
        rules.confirm,
        forall|i: int| 0 <= i < events.len() ==> events[i] != EventView::Answered(true),
    ensures
        !(run(rules, PhaseView::Prompting, events) is Accepted),
    decreases events.len(),
{
    if events.len() > 0 {
        let rest = events.drop_last();
        assert forall|i: int| 0 <= i < rest.len() implies rest[i] != EventView::Answered(true) by {
            assert(rest[i] == events[i]);
        }
        lemma_declines_never_accept(rules, rest);
        assert(events.last() == events[events.len() - 1]);
    }
}

/// The rules for a scope: at most 20 characters, spell checked, confirmed.
pub open spec fn scope_rules() -> FieldRules {
    FieldRules { max_len: Some(SCOPE_MAX), spell_check: true, confirm: true }
}

/// The rules for a summary or a rationale entry: at most 50 characters, spell
/// checked, confirmed.
pub open spec fn summary_rules() -> FieldRules {
    FieldRules { max_len: Some(SUMMARY_MAX), spell_check: true, confirm: true }
}

/// The collection of one value under the given rules.
pub struct FieldCollector {
    pub rules: FieldRules,
    pub phase: Phase,
}

fn take_entered(rules: FieldRules, t: String) -> (r: (Phase, Action))
    ensures
        (r.0@, r.1@) == take_text(rules, t@),
{
    let n = t.as_str().unicode_len();
    if n == 0 {
        (Phase::Prompting, Action::Ask { too_long: false })
    } else if match rules.max_len {
        Some(m) => n > m,
        None => false,
    } {
        (Phase::Prompting, Action::Ask { too_long: true })
    } else if rules.spell_check {
        let a = t.clone();
        (Phase::SpellChecking(t), Action::CheckSpelling(a))
    } else {
        passed_spelling(rules, t)
    }
}

fn passed_spelling(rules: FieldRules, t: String) -> (r: (Phase, Action))
    ensures
        (r.0@, r.1@) == after_spelling(rules, t@),
{
    let a = t.clone();
    if rules.confirm {
        (Phase::Confirming(t), Action::Confirm(a))
    } else {
        (Phase::Accepted(t), Action::Accept(a))
    }
}

pub(crate) fn pending_action(p: &Phase) -> (r: Action)
    ensures
        r@ == pending(p@),
{
    match p {
        Phase::Prompting => Action::Ask { too_long: false },
        Phase::SpellChecking(t) => Action::CheckSpelling(t.clone()),
        Phase::Correcting(t) => Action::Correct(t.clone()),
        Phase::Confirming(t) => Action::Confirm(t.clone()),
        Phase::Accepted(t) => Action::Accept(t.clone()),
    }
}

impl FieldCollector {
    /// A collection under `rules` that starts by asking for a value.
    pub fn new(rules: FieldRules) -> (r: FieldCollector)
        ensures
            r.rules == rules,
            r.phase@ == PhaseView::Prompting,
    {
        FieldCollector { rules, phase: Phase::Prompting }
    }

    /// Takes in what happened and answers with what to do next.
    pub fn step(&mut self, event: Event) -> (a: Action)
        ensures
            final(self).rules == old(self).rules,
            (final(self).phase@, a@) == next(old(self).rules, old(self).phase@, event@),
    {
        let rules = self.rules;
        let (p, a) = match (&self.phase, event) {
            (Phase::Prompting, Event::Entered(t)) => take_entered(rules, t),
            (Phase::SpellChecking(t), Event::SpellReport(report)) => {
                if report.as_str().unicode_len() == 0 {
                    passed_spelling(rules, t.clone())
                } else {
                    (Phase::Correcting(t.clone()), Action::Correct(t.clone()))
                }
            },
            (Phase::Correcting(_), Event::Corrected(t)) => take_entered(rules, t),
            (Phase::Confirming(t), Event::Answered(yes)) => {
                if yes {
                    (Phase::Accepted(t.clone()), Action::Accept(t.clone()))
                } else {
                    (Phase::Prompting, Action::Ask { too_long: false })
                }
            },
            _ => {
                let a = pending_action(&self.phase);
                let p = match &self.phase {
                    Phase::Prompting => Phase::Prompting,
                    Phase::SpellChecking(t) => Phase::SpellChecking(t.clone()),
                    Phase::Correcting(t) => Phase::Correcting(t.clone()),
                    Phase::Confirming(t) => Phase::Confirming(t.clone()),
                    Phase::Accepted(t) => Phase::Accepted(t.clone()),
                };
                (p, a)
            },
        };
        self.phase = p;
        a
    }

    /// The accepted value, once there is one.
    pub fn accepted(&self) -> (r: Option<String>)
        ensures
            self.phase@ matches PhaseView::Accepted(t) ==> r matches Some(v) && v@ == t,
            !(self.phase@ is Accepted) ==> r is None,
    {
        match &self.phase {
            Phase::Accepted(t) => Some(t.clone()),
            _ => None,
        }
    }
}

/// The collection of a scope.
pub fn get_scope() -> (r: FieldCollector)
    ensures
        r.rules == scope_rules(),
        r.phase@ == PhaseView::Prompting,
{
    FieldCollector::new(FieldRules { max_len: Some(SCOPE_MAX), spell_check: true, confirm: true })
}

/// The collection of a summary.
pub fn get_summary() -> (r: FieldCollector)
    ensures
        r.rules == summary_rules(),
        r.phase@ == PhaseView::Prompting,
{
    FieldCollector::new(FieldRules { max_len: Some(SUMMARY_MAX), spell_check: true, confirm: true })
}

/// The collection of one rationale entry.
pub fn get_why() -> (r: FieldCollector)
    ensures
        r.rules == summary_rules(),
        r.phase@ == PhaseView::Prompting,
{
    FieldCollector::new(FieldRules { max_len: Some(SUMMARY_MAX), spell_check: true, confirm: true })
}

/// Entering `v`, a clean spelling report, and the given answer to the confirmation.
pub open spec fn round(v: Seq<char>, yes: bool) -> Seq<EventView> {
    seq![EventView::Entered(v), EventView::SpellReport(Seq::empty()), EventView::Answered(yes)]
}

/// One declined round for each value, in order.
pub open spec fn declined_rounds(vs: Seq<Seq<char>>) -> Seq<EventView>
    decreases vs.len(),
{
    if vs.len() == 0 {
        Seq::empty()
    } else {
        declined_rounds(vs.drop_last()) + round(vs.last(), false)
    }
}

proof fn lemma_run_concat(rules: FieldRules, p: PhaseView, a: Seq<EventView>, b: Seq<EventView>)
    ensures
        run(rules, p, a + b) == run(rules, run(rules, p, a), b),
    decreases b.len(),
{
    if b.len() == 0 {
        assert(a + b =~= a);
    } else {
        assert((a + b).drop_last() =~= a + b.drop_last());
        assert((a + b).last() == b.last());
        lemma_run_concat(rules, p, a, b.drop_last());
    }
}

proof fn lemma_round(rules: FieldRules, v: Seq<char>, yes: bool)
    requires
        rules.spell_check,
        rules.confirm,
        fits(rules, v),
    ensures
        run(rules, PhaseView::Prompting, round(v, yes)) == if yes {
            PhaseView::Accepted(v)
        } else {
            PhaseView::Prompting
        },
{
    let r = round(v, yes);
    assert(r.drop_last().drop_last().drop_last() =~= Seq::<EventView>::empty());
    assert(r.drop_last().drop_last().last() == EventView::Entered(v));
    assert(r.drop_last().last() == EventView::SpellReport(Seq::empty()));
    assert(r.last() == EventView::Answered(yes));
    let r1 = r.drop_last().drop_last();
    assert(run(rules, PhaseView::Prompting, r1.drop_last()) == PhaseView::Prompting);
    assert(next(rules, PhaseView::Prompting, EventView::Entered(v)).0 == PhaseView::SpellChecking(v));
    assert(run(rules, PhaseView::Prompting, r1) == PhaseView::SpellChecking(v));
    assert(run(rules, PhaseView::Prompting, r.drop_last()) == PhaseView::Confirming(v));
}

proof fn lemma_declined_rounds(rules: FieldRules, vs: Seq<Seq<char>>)
    requires
        rules.spell_check,
        rules.confirm,
        forall|i: int| 0 <= i < vs.len() ==> fits(rules, #[trigger] vs[i]),
    ensures
        run(rules, PhaseView::Prompting, declined_rounds(vs)) == PhaseView::Prompting,
    decreases vs.len(),
{
    if vs.len() > 0 {
        let rest = vs.drop_last();
        assert forall|i: int| 0 <= i < rest.len() implies fits(rules, #[trigger] rest[i]) by {
            assert(rest[i] == vs[i]);
        }
        lemma_declined_rounds(rules, rest);
        lemma_run_concat(rules, PhaseView::Prompting, declined_rounds(rest), round(vs.last(), false));
        lemma_round(rules, vs.last(), false);
    }
}

/// A spell-checked field that must be confirmed, offered N valid values that the
/// user declines and then a value `v` that the user confirms, accepts exactly `v`;
/// before that last "yes" it has accepted nothing.
pub proof fn lemma_declines_then_accept(rules: FieldRules, vs: Seq<Seq<char>>, v: Seq<char>)
    requires
        rules.spell_check,
        rules.confirm,
        forall|i: int| 0 <= i < vs.len() ==> fits(rules, #[trigger] vs[i]),
        fits(rules, v),
    ensures
        run(rules, PhaseView::Prompting, declined_rounds(vs) + round(v, true)) == PhaseView::Accepted(v),
        forall|k: int|
            0 <= k < (declined_rounds(vs) + round(v, true)).len() ==> !(run(
                rules,
                PhaseView::Prompting,
                #[trigger] (declined_rounds(vs) + round(v, true)).subrange(0, k),
            ) is Accepted),
{
    let all = declined_rounds(vs) + round(v, true);
    lemma_declined_rounds(rules, vs);
    lemma_run_concat(rules, PhaseView::Prompting, declined_rounds(vs), round(v, true));
    lemma_round(rules, v, true);
    lemma_no_yes_in_declines(vs);
    assert forall|k: int| 0 <= k < all.len() implies !(run(
        rules,
        PhaseView::Prompting,
        #[trigger] all.subrange(0, k),
    ) is Accepted) by {
        let pre = all.subrange(0, k);
        assert forall|i: int| 0 <= i < pre.len() implies pre[i] != EventView::Answered(true) by {
            assert(pre[i] == all[i]);
            if i >= declined_rounds(vs).len() {
                assert(all[i] == round(v, true)[i - declined_rounds(vs).len()]);
            }
        }
        lemma_declines_never_accept(rules, pre);
    }
}

proof fn lemma_no_yes_in_declines(vs: Seq<Seq<char>>)
    ensures
        forall|i: int| 0 <= i < declined_rounds(vs).len() ==> #[trigger] declined_rounds(vs)[i]
            != EventView::Answered(true),
    decreases vs.len(),
{
    if vs.len() > 0 {
        lemma_no_yes_in_declines(vs.drop_last());
        let a = declined_rounds(vs.drop_last());
        let b = round(vs.last(), false);
        assert forall|i: int| 0 <= i < (a + b).len() implies #[trigger] (a + b)[i]
            != EventView::Answered(true) by {
            if i < a.len() {
                assert((a + b)[i] == a[i]);
            } else {
                assert((a + b)[i] == b[i - a.len()]);
            }
        }
    }
}

} // verus!
