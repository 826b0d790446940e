//! Change records and their canonical text.
use vstd::prelude::*;

use crate::date::{iso_text, Date};
use crate::menu::{commit_type_labels, commit_types};
use crate::text::same_text;

verus! {

/// Most characters in a scope.
pub const SCOPE_MAX: usize = 20;

/// Most characters in a summary, and in each rationale entry.
pub const SUMMARY_MAX: usize = 50;

/// What a change record holds, as text.
pub struct RecordView {
    pub kind: Seq<char>,
    pub scope: Seq<char>,
    pub summary: Seq<char>,
    pub rationale: Seq<Seq<char>>,
    pub footer: Seq<char>,
}

/// A kind of the taxonomy: the part before the colon of one of its labels.
pub open spec fn is_taxonomy_kind(k: Seq<char>) -> bool {
    exists|i: int|
        0 <= i < commit_type_labels().len() && #[trigger] before_colon(commit_type_labels()[i]) == k
}

/// The values that a change record accepts.
pub open spec fn valid_record(r: RecordView) -> bool {
    &&& r.kind.len() >= 1
    &&& is_taxonomy_kind(r.kind)
    &&& 1 <= r.scope.len() <= SCOPE_MAX
    &&& 1 <= r.summary.len() <= SUMMARY_MAX
    &&& r.rationale.len() >= 1
    &&& forall|i: int| 0 <= i < r.rationale.len() ==> 1 <= #[trigger] r.rationale[i].len() <= SUMMARY_MAX
}

/// The structured description of one change, ready to be rendered.
pub struct ChangeRecord {
    kind: String,
    scope: String,
    summary: String,
    rationale: Vec<String>,
    footer: String,
}

impl View for ChangeRecord {
    type V = RecordView;

    closed spec fn view(&self) -> RecordView {
        RecordView {
            kind: self.kind@,
            scope: self.scope@,
            summary: self.summary@,
            rationale: self.rationale@.map_values(|e: String| e@),
            footer: self.footer@,
        }
    }
}

impl ChangeRecord {
    #[verifier::type_invariant]
    closed spec fn inv(&self) -> bool {
        valid_record(self@)
    }

    /// A record of the given fields, or `None` where one of them is out of its bounds:
    /// an empty kind or one that the taxonomy does not name, a scope of 0 or over 20 characters, a summary of 0 or over 50
    /// characters, no rationale entry, or one of 0 or over 50 characters.
    pub fn new(kind: String, scope: String, summary: String, rationale: Vec<String>, footer: String) -> (r: Option<ChangeRecord>)
        ensures
            r is Some <==> valid_record(
                (RecordView {
                    kind: kind@,
                    scope: scope@,
                    summary: summary@,
                    rationale: rationale@.map_values(|e: String| e@),
                    footer: footer@,
                }),
            ),
            r matches Some(c) ==> c@ == (RecordView {
                kind: kind@,
                scope: scope@,
                summary: summary@,
                rationale: rationale@.map_values(|e: String| e@),
                footer: footer@,
            }),
    {
        let ghost entries = rationale@.map_values(|e: String| e@);
        let scope_len = scope.as_str().unicode_len();
        let summary_len = summary.as_str().unicode_len();
        if kind.as_str().unicode_len() == 0 || !is_kind(kind.as_str()) || scope_len == 0 || scope_len > SCOPE_MAX
            || summary_len == 0 || summary_len > SUMMARY_MAX || rationale.len() == 0 {
            return None;
        }
        let mut i: usize = 0;
        while i < rationale.len()
            invariant
                i <= rationale@.len(),
                entries == rationale@.map_values(|e: String| e@),
                forall|k: int| 0 <= k < i ==> 1 <= #[trigger] entries[k].len() <= SUMMARY_MAX,
            decreases rationale@.len() - i,
        {
            let n = rationale[i].as_str().unicode_len();
            assert(entries[i as int] == rationale@[i as int]@);
            if n == 0 || n > SUMMARY_MAX {
                return None;
            }
            i += 1;
        }
        Some(ChangeRecord { kind, scope, summary, rationale, footer })
    }

    pub fn kind(&self) -> (r: &String)
        ensures
            r@ == self@.kind,
    {
        &self.kind
    }

    pub fn scope(&self) -> (r: &String)
        ensures
            r@ == self@.scope,
    {
        &self.scope
    }

    pub fn summary(&self) -> (r: &String)
        ensures
            r@ == self@.summary,
    {
        &self.summary
    }

    pub fn rationale(&self) -> (r: &Vec<String>)
        ensures
            r@.map_values(|e: String| e@) == self@.rationale,
            r@.len() >= 1,
            valid_record(self@),
    {
        proof {
            use_type_invariant(self);
        }
        &self.rationale
    }

    pub fn footer(&self) -> (r: &String)
        ensures
            r@ == self@.footer,
    {
        &self.footer
    }
}

/// Who made a change and when, read from the environment at render time.
pub struct Authorship {
    pub name: String,
    pub email: String,
    pub date: Date,
}

/// One rationale entry on its own line.
pub open spec fn entry_line(e: Seq<char>) -> Seq<char> {
    "\t\t* "@ + e
}

/// The rationale entries, one line each, in order.
pub open spec fn rationale_block(entries: Seq<Seq<char>>) -> Seq<char>
    decreases entries.len(),
{
    if entries.len() == 0 {
        Seq::empty()
    } else if entries.len() == 1 {
        entry_line(entries[0])
    } else {
        rationale_block(entries.drop_last()) + "\n"@ + entry_line(entries.last())
    }
}

/// The canonical text of a change record.
pub open spec fn record_text(r: RecordView, name: Seq<char>, email: Seq<char>, date: Seq<char>) -> Seq<char> {
    r.kind + "("@ + r.scope + "): "@ + r.summary + "\n\n\tThe following changes were made :\n\n"@
        + rationale_block(r.rationale) + "\n\n"@ + r.footer + "\n\n\tAuthored by :\n\n\t\t* "@ + name
        + " <"@ + email + "> the "@ + date + "\n"@
}

/// The canonical text of `record`, signed by `author`.
pub fn render(record: &ChangeRecord, author: &Authorship) -> (r: String)
    ensures
        r@ == record_text(record@, author.name@, author.email@, iso_text(author.date@.0, author.date@.1, author.date@.2)),
{
    let ghost entries = record@.rationale;
    let mut out = String::from_str(record.kind().as_str());
    out.append("(");
    out.append(record.scope().as_str());
    out.append("): ");
    out.append(record.summary().as_str());
    out.append("\n\n\tThe following changes were made :\n\n");
    let ghost head = out@;
    let rationale = record.rationale();
    let mut i: usize = 0;
    while i < rationale.len()
        invariant
            i <= rationale@.len(),
            entries == rationale@.map_values(|e: String| e@),
            out@ == head + rationale_block(entries.subrange(0, i as int)),
        decreases rationale@.len() - i,
    {
        assert(entries.subrange(0, i + 1).drop_last() =~= entries.subrange(0, i as int));
        if i > 0 {
            out.append("\n");
        }
        out.append("\t\t* ");
        out.append(rationale[i].as_str());
        assert(out@ =~= head + rationale_block(entries.subrange(0, i + 1)));
        i += 1;
    }
    assert(entries.subrange(0, rationale@.len() as int) =~= entries);
    out.append("\n\n");
    out.append(record.footer().as_str());
    out.append("\n\n\tAuthored by :\n\n\t\t* ");
    out.append(author.name.as_str());
    out.append(" <");
    out.append(author.email.as_str());
    out.append("> the ");
    let date = author.date.to_text();
    out.append(date.as_str());
    out.append("\n");
    assert(out@ =~= record_text(record@, author.name@, author.email@, date@));
    out
}

/// Rendering depends on the record and the authorship alone: equal inputs give
/// equal text.
pub proof fn lemma_render_deterministic(r1: RecordView, r2: RecordView, name1: Seq<char>, name2: Seq<char>, email1: Seq<char>, email2: Seq<char>, date1: Seq<char>, date2: Seq<char>)
    requires
        r1 == r2,
        name1 == name2,
        email1 == email2,
        date1 == date2,
    ensures
        record_text(r1, name1, email1, date1) == record_text(r2, name2, email2, date2),
{
}

/// Issue references, each as the marker, the number and a line break.
pub open spec fn references(marker: Seq<char>, numbers: Seq<Seq<char>>) -> Seq<char>
    decreases numbers.len(),
{
    if numbers.len() == 0 {
        Seq::empty()
    } else {
        references(marker, numbers.drop_last()) + marker + numbers.last() + "\n"@
    }
}

/// The footer of a change record: the breaking change notice, if any, then the
/// issues that the change fixes, then those that it closes.
pub open spec fn footer_of(
    breaking: Option<Seq<char>>,
    fixes: Seq<Seq<char>>,
    closes: Seq<Seq<char>>,
) -> Seq<char> {
    let notice = match breaking {
        Some(b) => "BREAKING CHANGE: "@ + b,
        None => Seq::empty(),
    };
    notice + references("\n\tFixes #"@, fixes) + references("\n\tCloses #"@, closes)
}

fn append_references(out: &mut String, marker: &str, numbers: &Vec<String>)
    ensures
        final(out)@ == old(out)@ + references(marker@, numbers@.map_values(|n: String| n@)),
{
    let ghost ns = numbers@.map_values(|n: String| n@);
    let ghost head = old(out)@;
    let mut i: usize = 0;
    while i < numbers.len()
        invariant
            i <= numbers@.len(),
            ns == numbers@.map_values(|n: String| n@),
            out@ == head + references(marker@, ns.subrange(0, i as int)),
        decreases numbers@.len() - i,
    {
        assert(ns.subrange(0, i + 1).drop_last() =~= ns.subrange(0, i as int));
        out.append(marker);
        out.append(numbers[i].as_str());
        out.append("\n");
        assert(out@ =~= head + references(marker@, ns.subrange(0, i + 1)));
        i += 1;
    }
    assert(ns.subrange(0, numbers@.len() as int) =~= ns);
}

/// The footer of a change record from its three optional sections.
pub fn get_footer(breaking: Option<&str>, fixes: &Vec<String>, closes: &Vec<String>) -> (r: String)
    ensures
        r@ == footer_of(
            match breaking {
                Some(b) => Some(b@),
                None => None,
            },
            fixes@.map_values(|n: String| n@),
            closes@.map_values(|n: String| n@),
        ),
{
    let mut out = String::new();
    if let Some(b) = breaking {
        out.append("BREAKING CHANGE: ");
        out.append(b);
    }
    append_references(&mut out, "\n\tFixes #", fixes);
    append_references(&mut out, "\n\tCloses #", closes);
    out
}

/// The text of `s` before its first `:`, or all of it where it has none.
pub open spec fn before_colon(s: Seq<char>) -> Seq<char>
    decreases s.len(),
{
    if s.len() == 0 || s[0] == ':' {
        Seq::empty()
    } else {
        seq![s[0]] + before_colon(s.drop_first())
    }
}

proof fn lemma_before_colon(s: Seq<char>, k: int)
    requires
        0 <= k <= s.len(),
        forall|i: int| 0 <= i < k ==> s[i] != ':',
        k == s.len() || s[k] == ':',
    ensures
        before_colon(s) == s.subrange(0, k),
    decreases k,
{
    if k > 0 {
        let t = s.drop_first();
        assert forall|i: int| 0 <= i < k - 1 implies t[i] != ':' by {
            assert(t[i] == s[i + 1]);
        }
        if k < s.len() {
            assert(t[k - 1] == s[k]);
        }
        lemma_before_colon(t, k - 1);
        assert(s.subrange(0, k) =~= seq![s[0]] + t.subrange(0, k - 1));
    } else {
        assert(s.subrange(0, k) =~= Seq::<char>::empty());
    }
}

/// The kind named by a label of the taxonomy: the text before its first `:`, or
/// the whole label where it has none.
pub fn kind_of_label(label: &str) -> (r: String)
    ensures
        r@ == before_colon(label@),
{
    let n = label.unicode_len();
    let mut k: usize = 0;
    while k < n && label.get_char(k) != ':'
        invariant
            k <= n,
            n == label@.len(),
            forall|i: int| 0 <= i < k ==> label@[i] != ':',
        decreases n - k,
    {
        k += 1;
    }
    proof {
        lemma_before_colon(label@, k as int);
    }
    String::from_str(label.substring_char(0, k))
}

/// Whether `k` is a kind of the taxonomy.
pub fn is_kind(k: &str) -> (r: bool)
    ensures
        r == is_taxonomy_kind(k@),
{
    let labels = commit_types();
    let ghost ls = labels@.map_values(|s: String| s@);
    let mut i: usize = 0;
    while i < labels.len()
        invariant
            i <= labels@.len(),
            ls == labels@.map_values(|s: String| s@),
            ls == commit_type_labels(),
            forall|j: int| 0 <= j < i ==> before_colon(#[trigger] ls[j]) != k@,
        decreases labels@.len() - i,
    {
        let kind = kind_of_label(labels[i].as_str());
        assert(labels@[i as int]@ == ls[i as int]);
        if same_text(kind.as_str(), k) {
            return true;
        }
        i += 1;
    }
    false
}

} // verus!
