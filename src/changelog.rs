//! The release changelog: classification of the lines of past change records, and
//! the document around them.
use vstd::prelude::*;

use crate::date::{iso_text, Date};
use crate::links::{discussions, forge_link, issues, projects, pulls_request, releases, wiki};
use crate::text::{contains, has_part, occurs_at, lines_of, split_lines, strip_stars, trim, trimmed, without_stars};

verus! {

/// A line without its stars, trimmed.
pub open spec fn unstarred(l: Seq<char>) -> Seq<char> {
    trimmed(without_stars(l))
}

/// `seq![e]` where `cond` holds, else nothing.
pub open spec fn emit_if(cond: bool, e: Seq<char>) -> Seq<Seq<char>> {
    if cond {
        seq![e]
    } else {
        Seq::empty()
    }
}

/// What one line of a past change record adds to the changelog. Each rule is
/// tried on its own, so that a line can be written more than once.
pub open spec fn line_entries(raw: Seq<char>) -> Seq<Seq<char>> {
    let l = trimmed(raw);
    if l.len() == 0 {
        Seq::empty()
    } else {
        emit_if(has_part(l, "("@), "- "@ + l) + emit_if(
            has_part(l, "The following changes were made :"@),
            "\t- "@ + l,
        ) + emit_if(has_part(l, "*"@), "\t\t- "@ + unstarred(l)) + emit_if(
            has_part(l, "by"@),
            "\t- "@ + unstarred(l),
        ) + emit_if(has_part(l, "@"@), "\t\t- "@ + unstarred(l)) + emit_if(
            has_part(l, "#"@),
            "\t\t- "@ + unstarred(l),
        )
    }
}

/// What the lines add, in order.
pub open spec fn lines_entries(ls: Seq<Seq<char>>) -> Seq<Seq<char>>
    decreases ls.len(),
{
    if ls.len() == 0 {
        Seq::empty()
    } else {
        lines_entries(ls.drop_last()) + line_entries(ls.last())
    }
}

/// What the messages of past change records add, in the order given.
pub open spec fn history_entries(messages: Seq<Seq<char>>) -> Seq<Seq<char>>
    decreases messages.len(),
{
    if messages.len() == 0 {
        Seq::empty()
    } else {
        history_entries(messages.drop_last()) + lines_entries(lines_of(messages.last()))
    }
}

fn push_if(out: &mut Vec<String>, cond: bool, prefix: &str, body: &str)
    ensures
        final(out)@.map_values(|e: String| e@) == old(out)@.map_values(|e: String| e@) + emit_if(
            cond,
            prefix@ + body@,
        ),
{
    if cond {
        let mut e = String::from_str(prefix);
        e.append(body);
        out.push(e);
        assert(final(out)@.map_values(|e: String| e@) =~= old(out)@.map_values(|e: String| e@) + emit_if(
            cond,
            prefix@ + body@,
        ));
    } else {
        assert(out@.map_values(|e: String| e@) =~= old(out)@.map_values(|e: String| e@) + emit_if(
            cond,
            prefix@ + body@,
        ));
    }
}

/// The changelog entries of one line of a past change record, in rule order.
pub fn line_entries_of(raw: &str) -> (r: Vec<String>)
    ensures
        r@.map_values(|e: String| e@) == line_entries(raw@),
{
    let mut out: Vec<String> = Vec::new();
    let line = trim(raw);
    let l = line.as_str();
    if l.unicode_len() == 0 {
        assert(out@.map_values(|e: String| e@) =~= line_entries(raw@));
        return out;
    }
    let bare_s = strip_stars(l);
    let bare = trim(bare_s.as_str());
    let b = bare.as_str();
    let ghost start = out@.map_values(|e: String| e@);
    push_if(&mut out, contains(l, "("), "- ", l);
    push_if(&mut out, contains(l, "The following changes were made :"), "\t- ", l);
    push_if(&mut out, contains(l, "*"), "\t\t- ", b);
    push_if(&mut out, contains(l, "by"), "\t- ", b);
    push_if(&mut out, contains(l, "@"), "\t\t- ", b);
    push_if(&mut out, contains(l, "#"), "\t\t- ", b);
    assert(start =~= Seq::<Seq<char>>::empty());
    assert(out@.map_values(|e: String| e@) =~= line_entries(raw@));
    out
}

fn append_all(out: &mut Vec<String>, more: Vec<String>)
    ensures
        final(out)@.map_values(|e: String| e@) == old(out)@.map_values(|e: String| e@) + more@.map_values(|e: String| e@),
{
    let mut more = more;
    let ghost init = old(out)@.map_values(|e: String| e@);
    let ghost added = more@.map_values(|e: String| e@);
    out.append(&mut more);
    assert(final(out)@.map_values(|e: String| e@) =~= init + added);
}

/// The changelog entries of one past change record.
pub fn message_entries(message: &str) -> (r: Vec<String>)
    ensures
        r@.map_values(|e: String| e@) == lines_entries(lines_of(message@)),
{
    let lines = split_lines(message);
    let ghost ls = lines@.map_values(|l: String| l@);
    let mut out: Vec<String> = Vec::new();
    let mut i: usize = 0;
    while i < lines.len()
        invariant
            i <= lines@.len(),
            ls == lines@.map_values(|l: String| l@),
            ls == lines_of(message@),
            out@.map_values(|e: String| e@) == lines_entries(ls.subrange(0, i as int)),
        decreases lines@.len() - i,
    {
        assert(ls.subrange(0, i + 1).drop_last() =~= ls.subrange(0, i as int));
        let more = line_entries_of(lines[i].as_str());
        append_all(&mut out, more);
        i += 1;
    }
    assert(ls.subrange(0, lines@.len() as int) =~= ls);
    out
}

/// The changelog entries of past change records, most recent first.
pub fn history(messages: &Vec<String>) -> (r: Vec<String>)
    ensures
        r@.map_values(|e: String| e@) == history_entries(messages@.map_values(|m: String| m@)),
{
    let ghost ms = messages@.map_values(|m: String| m@);
    let mut out: Vec<String> = Vec::new();
    let mut i: usize = 0;
    while i < messages.len()
        invariant
            i <= messages@.len(),
            ms == messages@.map_values(|m: String| m@),
            out@.map_values(|e: String| e@) == history_entries(ms.subrange(0, i as int)),
        decreases messages@.len() - i,
    {
        assert(ms.subrange(0, i + 1).drop_last() =~= ms.subrange(0, i as int));
        let more = message_entries(messages[i].as_str());
        append_all(&mut out, more);
        i += 1;
    }
    assert(ms.subrange(0, messages@.len() as int) =~= ms);
    out
}

/// What the changelog tells of the project.
pub struct ProjectInfo {
    pub name: String,
    pub version: String,
    pub description: String,
    pub keywords: Vec<String>,
    pub authors: Vec<String>,
    pub repository: String,
    pub homepage: String,
}

/// The items, with `sep` between each two.
pub open spec fn joined(items: Seq<Seq<char>>, sep: Seq<char>) -> Seq<char>
    decreases items.len(),
{
    if items.len() == 0 {
        Seq::empty()
    } else if items.len() == 1 {
        items[0]
    } else {
        joined(items.drop_last(), sep) + sep + items.last()
    }
}

/// The items, with `sep` between each two.
pub fn join(items: &Vec<String>, sep: &str) -> (r: String)
    ensures
        r@ == joined(items@.map_values(|e: String| e@), sep@),
{
    let ghost its = items@.map_values(|e: String| e@);
    let mut out = String::new();
    let mut i: usize = 0;
    while i < items.len()
        invariant
            i <= items@.len(),
            its == items@.map_values(|e: String| e@),
            out@ == joined(its.subrange(0, i as int), sep@),
        decreases items@.len() - i,
    {
        assert(its.subrange(0, i + 1).drop_last() =~= its.subrange(0, i as int));
        if i > 0 {
            out.append(sep);
        }
        out.append(items[i].as_str());
        assert(out@ =~= joined(its.subrange(0, i + 1), sep@));
        i += 1;
    }
    assert(its.subrange(0, items@.len() as int) =~= its);
    out
}

/// How the project calls itself: a library where its manifest mentions `lib`.
pub open spec fn flavor(manifest: Seq<char>) -> Seq<char> {
    if has_part(manifest, "lib"@) {
        "library"@
    } else {
        "software"@
    }
}

/// "library" where the manifest text mentions `lib`, else "software".
pub fn program_or_lib(manifest: &str) -> (r: String)
    ensures
        r@ == flavor(manifest@),
{
    if contains(manifest, "lib") {
        String::from_str("library")
    } else {
        String::from_str("software")
    }
}

/// The head of the changelog: what the release is, and the project's links.
pub open spec fn header_text(
    name: Seq<char>,
    version: Seq<char>,
    date: Seq<char>,
    kind: Seq<char>,
    description: Seq<char>,
    keywords: Seq<Seq<char>>,
    authors: Seq<Seq<char>>,
    repository: Seq<char>,
    homepage: Seq<char>,
) -> Seq<char> {
    "# \u{1f680} "@ + name + " "@ + version + " released\n\nToday the `"@ + date
        + "`, we are very happy to present the **"@ + version + "** version of our `"@ + name
        + "` "@ + kind + " !\n\nThis release marks a significant step forward for our "@ + kind
        + " "@ + name + ".\n\n## Demonstration\n\n"@ + name + "\n\n## What it's?\n\nIt's "@
        + description + "\n\n## What we do ?\n\n- "@ + joined(keywords, "\n- "@)
        + "\n\n## Our team\n\n- "@ + joined(authors, "\n- "@) + "\n\n## Links\n\n- [Source code]("@
        + repository + ")\n- [Home]("@ + homepage + ")\n- [Issues]("@ + forge_link(
        repository,
        "/issues"@,
        Some("/-/issues"@),
    ) + ")\n- [Pull Request]("@ + forge_link(repository, "/pulls"@, Some("/-/merge_requests"@))
        + ")\n- [Discussions]("@ + forge_link(repository, "/discussions"@, None)
        + ")\n- [Wiki]("@ + forge_link(repository, "/wiki"@, Some("/-/wikis"@))
        + ")\n- [Projects]("@ + forge_link(repository, "/projects"@, None) + ")\n- [Releases]("@
        + forge_link(repository, "/releases"@, Some("/-/tags"@))
        + ")\n- [Crates.io](https://crates.io/crates/"@ + name + "/"@ + version + ")\n\n"@
}

/// The head of the changelog of `info`'s release on `date`.
pub fn header(info: &ProjectInfo, manifest: &str, date: &Date) -> (r: String)
    ensures
        r@ == header_text(
            info.name@,
            info.version@,
            iso_text(date@.0, date@.1, date@.2),
            flavor(manifest@),
            info.description@,
            info.keywords@.map_values(|e: String| e@),
            info.authors@.map_values(|e: String| e@),
            info.repository@,
            info.homepage@,
        ),
{
    let name = info.name.as_str();
    let version = info.version.as_str();
    let repo = info.repository.as_str();
    let day = date.to_text();
    let kind = program_or_lib(manifest);
    let keywords = join(&info.keywords, "\n- ");
    let authors = join(&info.authors, "\n- ");
    let mut out = String::from_str("# \u{1f680} ");
    out.append(name);
    out.append(" ");
    out.append(version);
    out.append(" released\n\nToday the `");
    out.append(day.as_str());
    out.append("`, we are very happy to present the **");
    out.append(version);
    out.append("** version of our `");
    out.append(name);
    out.append("` ");
    out.append(kind.as_str());
    out.append(" !\n\nThis release marks a significant step forward for our ");
    out.append(kind.as_str());
    out.append(" ");
    out.append(name);
    out.append(".\n\n## Demonstration\n\n");
    out.append(name);
    out.append("\n\n## What it's?\n\nIt's ");
    out.append(info.description.as_str());
    out.append("\n\n## What we do ?\n\n- ");
    out.append(keywords.as_str());
    out.append("\n\n## Our team\n\n- ");
    out.append(authors.as_str());
    out.append("\n\n## Links\n\n- [Source code](");
    out.append(repo);
    out.append(")\n- [Home](");
    out.append(info.homepage.as_str());
    out.append(")\n- [Issues](");
    out.append(issues(repo).as_str());
    out.append(")\n- [Pull Request](");
    out.append(pulls_request(repo).as_str());
    out.append(")\n- [Discussions](");
    out.append(discussions(repo).as_str());
    out.append(")\n- [Wiki](");
    out.append(wiki(repo).as_str());
    out.append(")\n- [Projects](");
    out.append(projects(repo).as_str());
    out.append(")\n- [Releases](");
    out.append(releases(repo).as_str());
    out.append(")\n- [Crates.io](https://crates.io/crates/");
    out.append(name);
    out.append("/");
    out.append(version);
    out.append(")\n\n");
    out
}

/// A line one heading level down: a line that starts with `#` gets one more `#`;
/// any other line stays as it is.
pub open spec fn demote_line(l: Seq<char>) -> Seq<char> {
    if l.len() > 0 && l[0] == '#' {
        "#"@ + l
    } else {
        l
    }
}

/// `s` with every Markdown heading one level down, line by line.
pub open spec fn demoted(s: Seq<char>) -> Seq<char> {
    joined(lines_of(s).map_values(|l: Seq<char>| demote_line(l)), "\n"@)
}

/// `s` with every Markdown heading one level down.
pub fn demote_headings(s: &str) -> (r: String)
    ensures
        r@ == demoted(s@),
{
    let lines = split_lines(s);
    let ghost ls = lines@.map_values(|l: String| l@);
    let mut out: Vec<String> = Vec::new();
    let mut i: usize = 0;
    while i < lines.len()
        invariant
            i <= lines@.len(),
            ls == lines@.map_values(|l: String| l@),
            ls == lines_of(s@),
            out@.map_values(|l: String| l@) == ls.subrange(0, i as int).map_values(
                |l: Seq<char>| demote_line(l),
            ),
        decreases lines@.len() - i,
    {
        let line = lines[i].as_str();
        let ghost l = ls[i as int];
        assert(line@ == l);
        let heading = line.unicode_len() > 0 && line.get_char(0) == '#';
        let mut d = if heading {
            String::from_str("#")
        } else {
            String::new()
        };
        d.append(line);
        assert(d@ =~= demote_line(l));
        let ghost prev = out@.map_values(|l: String| l@);
        out.push(d);
        assert(out@.map_values(|l: String| l@) =~= prev.push(demote_line(l)));
        assert(ls.subrange(0, i + 1).map_values(|l: Seq<char>| demote_line(l)) =~= ls.subrange(
            0,
            i as int,
        ).map_values(|l: Seq<char>| demote_line(l)).push(demote_line(l)));
        assert(out@.map_values(|l: String| l@) =~= ls.subrange(0, i + 1).map_values(
            |l: Seq<char>| demote_line(l),
        ));
        i += 1;
    }
    assert(ls.subrange(0, lines@.len() as int) =~= ls);
    join(&out, "\n")
}

/// Each entry on a line of its own.
pub open spec fn entry_lines(entries: Seq<Seq<char>>) -> Seq<char>
    decreases entries.len(),
{
    if entries.len() == 0 {
        Seq::empty()
    } else {
        entry_lines(entries.drop_last()) + entries.last() + "\n"@
    }
}

/// The tail of the changelog: the readme, trimmed and with its headings one level
/// down, then the license, trimmed, in a fenced block.
pub open spec fn footer_text(readme: Seq<char>, license: Seq<char>) -> Seq<char> {
    "\n\n"@ + demoted(trimmed(readme)) + "\n\n```\n"@ + trimmed(license) + "\n```\n\n"@
}

/// The whole changelog document.
pub open spec fn document_text(
    head: Seq<char>,
    messages: Seq<Seq<char>>,
    readme: Seq<char>,
    license: Seq<char>,
) -> Seq<char> {
    head + entry_lines(history_entries(messages)) + footer_text(readme, license)
}

/// The changelog of `info`'s release on `date`: its head, the entries drawn from the
/// past change records `messages` (most recent first), then the readme and the
/// license.
pub fn create_changelog(
    info: &ProjectInfo,
    manifest: &str,
    date: &Date,
    messages: &Vec<String>,
    readme: &str,
    license: &str,
) -> (r: String)
    ensures
        r@ == document_text(
            header_text(
                info.name@,
                info.version@,
                iso_text(date@.0, date@.1, date@.2),
                flavor(manifest@),
                info.description@,
                info.keywords@.map_values(|e: String| e@),
                info.authors@.map_values(|e: String| e@),
                info.repository@,
                info.homepage@,
            ),
            messages@.map_values(|m: String| m@),
            readme@,
            license@,
        ),
{
    let mut out = header(info, manifest, date);
    let ghost head = out@;
    let entries = history(messages);
    let ghost es = entries@.map_values(|e: String| e@);
    let mut i: usize = 0;
    while i < entries.len()
        invariant
            i <= entries@.len(),
            es == entries@.map_values(|e: String| e@),
            out@ == head + entry_lines(es.subrange(0, i as int)),
        decreases entries@.len() - i,
    {
        assert(es.subrange(0, i + 1).drop_last() =~= es.subrange(0, i as int));
        out.append(entries[i].as_str());
        out.append("\n");
        assert(out@ =~= head + entry_lines(es.subrange(0, i + 1)));
        i += 1;
    }
    assert(es.subrange(0, entries@.len() as int) =~= es);
    let readme_text = trim(readme);
    let demoted_readme = demote_headings(readme_text.as_str());
    let license_text = trim(license);
    out.append("\n\n");
    out.append(demoted_readme.as_str());
    out.append("\n\n```\n");
    out.append(license_text.as_str());
    out.append("\n```\n\n");
    assert(out@ =~= head + entry_lines(es) + footer_text(readme@, license@));
    out
}

/// The file name of the changelog of a version: `<name>-<version>-changes.md`.
pub fn changelog_file_name(name: &str, version: &str) -> (r: String)
    ensures
        r@ == name@ + "-"@ + version@ + "-changes.md"@,
{
    let mut out = String::from_str(name);
    out.append("-");
    out.append(version);
    out.append("-changes.md");
    out
}

/// The rules do not exclude each other: a line that holds both a `*` and an `@`
/// is written twice two levels deep, once for each of the two rules.
pub proof fn lemma_star_and_at_both_emitted(raw: Seq<char>)
    requires
        has_part(trimmed(raw), "*"@),
        has_part(trimmed(raw), "@"@),
    ensures
        exists|i: int, j: int|
            0 <= i < j < line_entries(raw).len() && line_entries(raw)[i] == "\t\t- "@ + unstarred(
                trimmed(raw),
            ) && line_entries(raw)[j] == "\t\t- "@ + unstarred(trimmed(raw)),
{
    let l = trimmed(raw);
    let w = choose|k: int| #[trigger] occurs_at(l, "*"@, k);
    assert(l.len() > 0) by {
        assert(occurs_at(l, "*"@, w));
        assert("*"@.len() == 1) by {
            reveal_strlit("*");
        }
    }
    let e = "\t\t- "@ + unstarred(l);
    let a = emit_if(has_part(l, "("@), "- "@ + l);
    let b = emit_if(has_part(l, "The following changes were made :"@), "\t- "@ + l);
    let c = emit_if(has_part(l, "by"@), "\t- "@ + unstarred(l));
    let d = emit_if(has_part(l, "#"@), "\t\t- "@ + unstarred(l));
    let all = line_entries(raw);
    assert(all == a + b + seq![e] + c + seq![e] + d);
    let i = a.len() + b.len() as int;
    let j = i + 1 + c.len() as int;
    assert(all[i] == e);
    assert(all[j] == e);
}

} // verus!
