//! The guided assembly of a whole change record: the field collections in turn,
//! the rationale entries until the user has no more, then the three optional
//! sections of the footer.
use vstd::prelude::*;

use crate::collector::{
    fits, get_scope, get_summary, get_why, next, pending, pending_action, phase_fits, scope_rules,
    summary_rules, Action, ActionView, Event, EventView, FieldCollector, FieldRules, Phase,
    PhaseView,
};
use crate::menu::{commit_type_labels, is_commit_type};
use crate::record::{
    before_colon, is_taxonomy_kind, footer_of, get_footer, kind_of_label, valid_record, ChangeRecord, RecordView,
    SCOPE_MAX, SUMMARY_MAX,
};

verus! {

/// What the assembly is collecting or asking.
#[derive(Clone, Copy)]
pub enum Stage {
    /// The kind, as a label of the taxonomy.
    Kind,
    Scope,
    Summary,
    /// One rationale entry.
    Why,
    /// Whether there is another rationale entry.
    MoreWhy,
    /// Whether the change breaks something.
    BreakingGate,
    /// The description of what breaks.
    Breaking,
    /// Whether the change fixes issues.
    FixesGate,
    /// The number of a fixed issue.
    Fix,
    /// Whether it fixes another issue.
    MoreFixes,
    /// Whether the change closes issues.
    ClosesGate,
    /// The number of a closed issue.
    Close,
    /// Whether it closes another issue.
    MoreCloses,
    /// Everything is collected.
    Done,
}

/// What the user did since the last step.
pub enum BuildEvent {
    /// Something for the collection of the current field.
    Field(Event),
    /// The answer to the current yes/no question.
    Answered(bool),
}

/// What to do next.
pub enum BuildStep {
    /// What the collection of the current field asks for.
    Field(Action),
    /// Ask the yes/no question of the stage (the answer defaults to no).
    Ask(Stage),
    /// The record is complete.
    Finished,
}

pub enum BuildEventView {
    Field(EventView),
    Answered(bool),
}

pub enum BuildStepView {
    Field(ActionView),
    Ask(Stage),
    Finished,
}

impl View for BuildEvent {
    type V = BuildEventView;

    open spec fn view(&self) -> BuildEventView {
        match self {
            BuildEvent::Field(e) => BuildEventView::Field(e@),
            BuildEvent::Answered(b) => BuildEventView::Answered(*b),
        }
    }
}

impl View for BuildStep {
    type V = BuildStepView;

    open spec fn view(&self) -> BuildStepView {
        match self {
            BuildStep::Field(a) => BuildStepView::Field(a@),
            BuildStep::Ask(s) => BuildStepView::Ask(*s),
            BuildStep::Finished => BuildStepView::Finished,
        }
    }
}

/// A record under assembly, as text.
pub struct DraftView {
    pub stage: Stage,
    pub rules: FieldRules,
    pub phase: PhaseView,
    pub label: Seq<char>,
    pub scope: Seq<char>,
    pub summary: Seq<char>,
    pub rationale: Seq<Seq<char>>,
    pub breaking: Option<Seq<char>>,
    pub fixes: Seq<Seq<char>>,
    pub closes: Seq<Seq<char>>,
}

/// The stages that collect a value.
pub open spec fn collects(s: Stage) -> bool {
    s is Kind || s is Scope || s is Summary || s is Why || s is Breaking || s is Fix || s is Close
}

/// The stages that ask a yes/no question.
pub open spec fn asks(s: Stage) -> bool {
    !collects(s) && !(s is Done)
}

/// The constraints of the value that a stage collects.
pub open spec fn rules_of(s: Stage) -> FieldRules {
    match s {
        Stage::Scope => scope_rules(),
        Stage::Summary => summary_rules(),
        Stage::Why => summary_rules(),
        Stage::Kind => FieldRules { max_len: None, spell_check: false, confirm: true },
        Stage::Breaking => FieldRules { max_len: None, spell_check: false, confirm: true },
        _ => FieldRules { max_len: None, spell_check: false, confirm: false },
    }
}

/// What to do on entering a stage.
pub open spec fn opening(s: Stage) -> BuildStepView {
    if collects(s) {
        BuildStepView::Field(ActionView::Ask { too_long: false })
    } else if s is Done {
        BuildStepView::Finished
    } else {
        BuildStepView::Ask(s)
    }
}

/// Entering stage `s`, with a fresh collection where it collects a value.
pub open spec fn enter(d: DraftView, s: Stage) -> (DraftView, BuildStepView) {
    (DraftView { stage: s, rules: rules_of(s), phase: PhaseView::Prompting, ..d }, opening(s))
}

/// The draft once the value `t` of its stage is accepted.
pub open spec fn store(d: DraftView, t: Seq<char>) -> DraftView {
    match d.stage {
        Stage::Kind => DraftView { label: t, ..d },
        Stage::Scope => DraftView { scope: t, ..d },
        Stage::Summary => DraftView { summary: t, ..d },
        Stage::Why => DraftView { rationale: d.rationale.push(t), ..d },
        Stage::Breaking => DraftView { breaking: Some(t), ..d },
        Stage::Fix => DraftView { fixes: d.fixes.push(t), ..d },
        Stage::Close => DraftView { closes: d.closes.push(t), ..d },
        _ => d,
    }
}

/// The stage that follows an accepted value.
pub open spec fn after_value(s: Stage) -> Stage {
    match s {
        Stage::Kind => Stage::Scope,
        Stage::Scope => Stage::Summary,
        Stage::Summary => Stage::Why,
        Stage::Why => Stage::MoreWhy,
        Stage::Breaking => Stage::FixesGate,
        Stage::Fix => Stage::MoreFixes,
        Stage::Close => Stage::MoreCloses,
        _ => s,
    }
}

/// The stage that follows an answer: yes goes (back) to collecting, no goes on.
pub open spec fn after_answer(s: Stage, yes: bool) -> Stage {
    match s {
        Stage::MoreWhy => if yes {
            Stage::Why
        } else {
            Stage::BreakingGate
        },
        Stage::BreakingGate => if yes {
            Stage::Breaking
        } else {
            Stage::FixesGate
        },
        Stage::FixesGate | Stage::MoreFixes => if yes {
            Stage::Fix
        } else {
            Stage::ClosesGate
        },
        Stage::ClosesGate | Stage::MoreCloses => if yes {
            Stage::Close
        } else {
            Stage::Done
        },
        _ => s,
    }
}

/// What the draft waits on.
pub open spec fn waiting(d: DraftView) -> BuildStepView {
    if collects(d.stage) {
        BuildStepView::Field(pending(d.phase))
    } else if d.stage is Done {
        BuildStepView::Finished
    } else {
        BuildStepView::Ask(d.stage)
    }
}

/// A kind entered that is not a label of the taxonomy: it is refused before it is
/// confirmed.
pub open spec fn rejects_kind(d: DraftView, e: EventView) -> bool {
    &&& d.stage is Kind
    &&& d.phase is Prompting
    &&& e matches EventView::Entered(t) && !commit_type_labels().contains(t)
}

/// One step of the assembly. An event that the stage does not wait on changes
/// nothing.
pub open spec fn draft_next(d: DraftView, e: BuildEventView) -> (DraftView, BuildStepView) {
    match e {
        BuildEventView::Field(fe) => if rejects_kind(d, fe) {
            (d, BuildStepView::Field(ActionView::Ask { too_long: false }))
        } else if collects(d.stage) {
            let (p, a) = next(d.rules, d.phase, fe);
            match a {
                ActionView::Accept(t) => enter(store(d, t), after_value(d.stage)),
                _ => (DraftView { phase: p, ..d }, BuildStepView::Field(a)),
            }
        } else {
            (d, waiting(d))
        },
        BuildEventView::Answered(yes) => if asks(d.stage) {
            enter(d, after_answer(d.stage, yes))
        } else {
            (d, waiting(d))
        },
    }
}

/// The draft at the start: collecting the kind, nothing collected.
pub open spec fn start() -> DraftView {
    DraftView {
        stage: Stage::Kind,
        rules: rules_of(Stage::Kind),
        phase: PhaseView::Prompting,
        label: Seq::empty(),
        scope: Seq::empty(),
        summary: Seq::empty(),
        rationale: Seq::empty(),
        breaking: None,
        fixes: Seq::empty(),
        closes: Seq::empty(),
    }
}

/// The draft after the events, in order.
pub open spec fn draft_run(d: DraftView, events: Seq<BuildEventView>) -> DraftView
    decreases events.len(),
{
    if events.len() == 0 {
        d
    } else {
        draft_next(draft_run(d, events.drop_last()), events.last()).0
    }
}

/// The stages after the rationale entries have begun to be confirmed.
pub open spec fn past_why(s: Stage) -> bool {
    !(s is Kind || s is Scope || s is Summary || s is Why)
}

/// What holds of every draft reached from the start.
pub open spec fn draft_ok(d: DraftView) -> bool {
    &&& collects(d.stage) ==> d.rules == rules_of(d.stage)
    &&& collects(d.stage) ==> phase_fits(d.rules, d.phase)
    &&& !(d.stage is Kind || d.stage is Scope) ==> fits(scope_rules(), d.scope)
    &&& !(d.stage is Kind || d.stage is Scope || d.stage is Summary) ==> fits(
        summary_rules(),
        d.summary,
    )
    &&& forall|i: int| 0 <= i < d.rationale.len() ==> fits(summary_rules(), #[trigger] d.rationale[i])
    &&& past_why(d.stage) ==> d.rationale.len() >= 1
    &&& d.stage is Kind ==> (d.phase is Prompting || (d.phase matches PhaseView::Confirming(t)
        && commit_type_labels().contains(t)))
    &&& !(d.stage is Kind) ==> commit_type_labels().contains(d.label)
}

proof fn lemma_accept_comes_with_accepted(rules: FieldRules, p: PhaseView, e: EventView)
    requires
        phase_fits(rules, p),
    ensures
        next(rules, p, e).1 matches ActionView::Accept(t) ==> fits(rules, t),
{
}

proof fn lemma_draft_next_ok(d: DraftView, e: BuildEventView)
    requires
        draft_ok(d),
    ensures
        draft_ok(draft_next(d, e).0),
{
    match e {
        BuildEventView::Field(fe) => {
            if collects(d.stage) {
                lemma_accept_comes_with_accepted(d.rules, d.phase, fe);
                let (p, a) = next(d.rules, d.phase, fe);
                match a {
                    ActionView::Accept(t) => {
                        let s = store(d, t);
                        if d.stage is Why {
                            assert forall|i: int| 0 <= i < s.rationale.len() implies fits(
                                summary_rules(),
                                #[trigger] s.rationale[i],
                            ) by {
                                if i < d.rationale.len() {
                                    assert(s.rationale[i] == d.rationale[i]);
                                }
                            }
                        }
                    },
                    _ => {
                        crate::collector::lemma_next_fits(d.rules, d.phase, fe);
                    },
                }
            }
        },
        BuildEventView::Answered(_) => {},
    }
}

proof fn lemma_draft_run_ok(events: Seq<BuildEventView>)
    ensures
        draft_ok(draft_run(start(), events)),
    decreases events.len(),
{
    if events.len() > 0 {
        lemma_draft_run_ok(events.drop_last());
        lemma_draft_next_ok(draft_run(start(), events.drop_last()), events.last());
    }
}

/// Whatever the user does, a record whose assembly is complete has at least one
/// rationale entry, a scope of 1 to 20 characters, a summary of 1 to 50, and a
/// kind that the taxonomy names.
pub proof fn lemma_done_has_rationale(events: Seq<BuildEventView>)
    ensures
        draft_run(start(), events).stage is Done ==> {
            let d = draft_run(start(), events);
            &&& d.rationale.len() >= 1
            &&& 1 <= d.scope.len() <= SCOPE_MAX
            &&& 1 <= d.summary.len() <= SUMMARY_MAX
            &&& is_taxonomy_kind(record_of(d).kind)
        },
{
    lemma_draft_run_ok(events);
    let d = draft_run(start(), events);
    if d.stage is Done {
        let i = choose|i: int| 0 <= i < commit_type_labels().len() && commit_type_labels()[i] == d.label;
        assert(before_colon(commit_type_labels()[i]) == record_of(d).kind);
    }
}

/// The record that a draft describes.
pub open spec fn record_of(d: DraftView) -> RecordView {
    RecordView {
        kind: before_colon(d.label),
        scope: d.scope,
        summary: d.summary,
        rationale: d.rationale,
        footer: footer_of(d.breaking, d.fixes, d.closes),
    }
}

fn collects_value(s: Stage) -> (r: bool)
    ensures
        r == collects(s),
{
    match s {
        Stage::Kind | Stage::Scope | Stage::Summary | Stage::Why | Stage::Breaking | Stage::Fix
        | Stage::Close => true,
        _ => false,
    }
}

fn rules_for(s: Stage) -> (r: FieldRules)
    ensures
        r == rules_of(s),
{
    match s {
        Stage::Scope => FieldRules { max_len: Some(SCOPE_MAX), spell_check: true, confirm: true },
        Stage::Summary | Stage::Why => FieldRules {
            max_len: Some(SUMMARY_MAX),
            spell_check: true,
            confirm: true,
        },
        Stage::Kind | Stage::Breaking => FieldRules {
            max_len: None,
            spell_check: false,
            confirm: true,
        },
        _ => FieldRules { max_len: None, spell_check: false, confirm: false },
    }
}

fn next_after_value(s: Stage) -> (r: Stage)
    ensures
        r == after_value(s),
{
    match s {
        Stage::Kind => Stage::Scope,
        Stage::Scope => Stage::Summary,
        Stage::Summary => Stage::Why,
        Stage::Why => Stage::MoreWhy,
        Stage::Breaking => Stage::FixesGate,
        Stage::Fix => Stage::MoreFixes,
        Stage::Close => Stage::MoreCloses,
        _ => s,
    }
}

fn next_after_answer(s: Stage, yes: bool) -> (r: Stage)
    ensures
        r == after_answer(s, yes),
{
    match s {
        Stage::MoreWhy => if yes {
            Stage::Why
        } else {
            Stage::BreakingGate
        },
        Stage::BreakingGate => if yes {
            Stage::Breaking
        } else {
            Stage::FixesGate
        },
        Stage::FixesGate | Stage::MoreFixes => if yes {
            Stage::Fix
        } else {
            Stage::ClosesGate
        },
        Stage::ClosesGate | Stage::MoreCloses => if yes {
            Stage::Close
        } else {
            Stage::Done
        },
        _ => s,
    }
}

/// A change record under assembly.
pub struct RecordBuilder {
    stage: Stage,
    field: FieldCollector,
    label: String,
    scope: String,
    summary: String,
    rationale: Vec<String>,
    breaking: Option<String>,
    fixes: Vec<String>,
    closes: Vec<String>,
}

impl View for RecordBuilder {
    type V = DraftView;

    closed spec fn view(&self) -> DraftView {
        DraftView {
            stage: self.stage,
            rules: self.field.rules,
            phase: self.field.phase@,
            label: self.label@,
            scope: self.scope@,
            summary: self.summary@,
            rationale: self.rationale@.map_values(|e: String| e@),
            breaking: match self.breaking {
                Some(b) => Some(b@),
                None => None,
            },
            fixes: self.fixes@.map_values(|e: String| e@),
            closes: self.closes@.map_values(|e: String| e@),
        }
    }
}

impl RecordBuilder {
    /// An assembly that starts by collecting the kind.
    pub fn new() -> (r: RecordBuilder)
        ensures
            r@ == start(),
    {
        let r = RecordBuilder {
            stage: Stage::Kind,
            field: FieldCollector::new(rules_for(Stage::Kind)),
            label: String::new(),
            scope: String::new(),
            summary: String::new(),
            rationale: Vec::new(),
            breaking: None,
            fixes: Vec::new(),
            closes: Vec::new(),
        };
        assert(r@.rationale =~= Seq::<Seq<char>>::empty());
        assert(r@.fixes =~= Seq::<Seq<char>>::empty());
        assert(r@.closes =~= Seq::<Seq<char>>::empty());
        r
    }

    /// The stage that the assembly is at.
    pub fn stage(&self) -> (r: Stage)
        ensures
            r == self@.stage,
    {
        self.stage
    }

    fn enter_stage(&mut self, s: Stage) -> (r: BuildStep)
        ensures
            (final(self)@, r@) == enter(old(self)@, s),
    {
        self.stage = s;
        self.field = match s {
            Stage::Scope => get_scope(),
            Stage::Summary => get_summary(),
            Stage::Why => get_why(),
            _ => FieldCollector::new(rules_for(s)),
        };
        if collects_value(s) {
            BuildStep::Field(Action::Ask { too_long: false })
        } else if let Stage::Done = s {
            BuildStep::Finished
        } else {
            BuildStep::Ask(s)
        }
    }

    fn store_value(&mut self, t: String)
        ensures
            final(self)@ == store(old(self)@, t@),
    {
        let ghost d = self@;
        match self.stage {
            Stage::Kind => self.label = t,
            Stage::Scope => self.scope = t,
            Stage::Summary => self.summary = t,
            Stage::Why => {
                self.rationale.push(t);
                assert(self@.rationale =~= d.rationale.push(t@));
            },
            Stage::Breaking => self.breaking = Some(t),
            Stage::Fix => {
                self.fixes.push(t);
                assert(self@.fixes =~= d.fixes.push(t@));
            },
            Stage::Close => {
                self.closes.push(t);
                assert(self@.closes =~= d.closes.push(t@));
            },
            _ => {},
        }
    }

    fn waiting_step(&self) -> (r: BuildStep)
        ensures
            r@ == waiting(self@),
    {
        if collects_value(self.stage) {
            BuildStep::Field(pending_action(&self.field.phase))
        } else if let Stage::Done = self.stage {
            BuildStep::Finished
        } else {
            BuildStep::Ask(self.stage)
        }
    }

    /// Takes in what the user did and answers with what to do next.
    pub fn step(&mut self, event: BuildEvent) -> (r: BuildStep)
        ensures
            (final(self)@, r@) == draft_next(old(self)@, event@),
    {
        let refused = match (&self.stage, &self.field.phase, &event) {
            (Stage::Kind, Phase::Prompting, BuildEvent::Field(Event::Entered(t))) => !is_commit_type(
                t.as_str(),
            ),
            _ => false,
        };
        if refused {
            return BuildStep::Field(Action::Ask { too_long: false });
        }
        match event {
            BuildEvent::Field(e) => {
                if collects_value(self.stage) {
                    let a = self.field.step(e);
                    match a {
                        Action::Accept(t) => {
                            let s = self.stage;
                            self.store_value(t);
                            self.enter_stage(next_after_value(s))
                        },
                        _ => BuildStep::Field(a),
                    }
                } else {
                    self.waiting_step()
                }
            },
            BuildEvent::Answered(yes) => {
                if !collects_value(self.stage) && !matches!(self.stage, Stage::Done) {
                    let s = next_after_answer(self.stage, yes);
                    self.enter_stage(s)
                } else {
                    self.waiting_step()
                }
            },
        }
    }

    /// The assembled record, once every stage is through and the values make a
    /// valid record.
    pub fn finish(&self) -> (r: Option<ChangeRecord>)
        ensures
            r is Some <==> (self@.stage is Done && valid_record(record_of(self@))),
            r matches Some(c) ==> c@ == record_of(self@),
    {
        if let Stage::Done = self.stage {
            let footer = get_footer(
                match &self.breaking {
                    Some(b) => Some(b.as_str()),
                    None => None,
                },
                &self.fixes,
                &self.closes,
            );
            ChangeRecord::new(
                kind_of_label(self.label.as_str()),
                self.scope.clone(),
                self.summary.clone(),
                self.rationale.clone(),
                footer,
            )
        } else {
            None
        }
    }
}

} // verus!
