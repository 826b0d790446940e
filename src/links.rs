//! Links of a project's forge, derived from its repository URL.
use vstd::prelude::*;

use crate::text::{contains, has_part};

verus! {

pub open spec fn on_github(repository: Seq<char>) -> bool {
    has_part(repository, "github"@)
}

pub open spec fn on_gitlab(repository: Seq<char>) -> bool {
    has_part(repository, "gitlab"@)
}

/// The repository URL with the suffix for its kind of forge: `github_suffix` for a
/// GitHub-style host, else `gitlab_suffix` (where that forge has the page) for a
/// GitLab-style host, else the URL unchanged.
pub open spec fn forge_link(
    repository: Seq<char>,
    github_suffix: Seq<char>,
    gitlab_suffix: Option<Seq<char>>,
) -> Seq<char> {
    if on_github(repository) {
        repository + github_suffix
    } else if on_gitlab(repository) && gitlab_suffix is Some {
        repository + gitlab_suffix->0
    } else {
        repository
    }
}

fn link(repository: &str, github_suffix: &str, gitlab_suffix: Option<&str>) -> (r: String)
    ensures
        r@ == forge_link(
            repository@,
            github_suffix@,
            match gitlab_suffix {
                Some(g) => Some(g@),
                None => None,
            },
        ),
{
    let mut x = String::from_str(repository);
    if contains(repository, "github") {
        x.append(github_suffix);
    } else if contains(repository, "gitlab") {
        if let Some(g) = gitlab_suffix {
            x.append(g);
        }
    }
    x
}

/// The issue tracker of the repository.
pub fn issues(repository: &str) -> (r: String)
    ensures
        r@ == forge_link(repository@, "/issues"@, Some("/-/issues"@)),
{
    link(repository, "/issues", Some("/-/issues"))
}

/// The wiki of the repository.
pub fn wiki(repository: &str) -> (r: String)
    ensures
        r@ == forge_link(repository@, "/wiki"@, Some("/-/wikis"@)),
{
    link(repository, "/wiki", Some("/-/wikis"))
}

/// The project boards of the repository (GitHub only).
pub fn projects(repository: &str) -> (r: String)
    ensures
        r@ == forge_link(repository@, "/projects"@, None),
{
    link(repository, "/projects", None)
}

/// The pull requests (merge requests on GitLab) of the repository.
pub fn pulls_request(repository: &str) -> (r: String)
    ensures
        r@ == forge_link(repository@, "/pulls"@, Some("/-/merge_requests"@)),
{
    link(repository, "/pulls", Some("/-/merge_requests"))
}

/// The discussions of the repository (GitHub only).
pub fn discussions(repository: &str) -> (r: String)
    ensures
        r@ == forge_link(repository@, "/discussions"@, None),
{
    link(repository, "/discussions", None)
}

/// The releases of the repository (its tags on GitLab).
pub fn releases(repository: &str) -> (r: String)
    ensures
        r@ == forge_link(repository@, "/releases"@, Some("/-/tags"@)),
{
    link(repository, "/releases", Some("/-/tags"))
}

/// A GitHub-style repository URL gets `/issues` for its issues and `/wiki` for its
/// wiki; a GitLab-style one (and no GitHub one) gets `/-/issues` for its issues; a URL
/// of neither kind is every link of its own, unchanged.
pub proof fn lemma_link_derivation(repository: Seq<char>)
    ensures
        on_github(repository) ==> forge_link(repository, "/issues"@, Some("/-/issues"@))
            == repository + "/issues"@ && forge_link(repository, "/wiki"@, Some("/-/wikis"@))
            == repository + "/wiki"@,
        !on_github(repository) && on_gitlab(repository) ==> forge_link(
            repository,
            "/issues"@,
            Some("/-/issues"@),
        ) == repository + "/-/issues"@,
        !on_github(repository) && !on_gitlab(repository) ==> {
            &&& forge_link(repository, "/issues"@, Some("/-/issues"@)) == repository
            &&& forge_link(repository, "/wiki"@, Some("/-/wikis"@)) == repository
            &&& forge_link(repository, "/projects"@, None) == repository
            &&& forge_link(repository, "/pulls"@, Some("/-/merge_requests"@)) == repository
            &&& forge_link(repository, "/discussions"@, None) == repository
            &&& forge_link(repository, "/releases"@, Some("/-/tags"@)) == repository
        },
{
}

} // verus!
