//! The labels that the user chooses among: the menu and the taxonomy of changes.
use vstd::prelude::*;
use vstd::utf8::encode_utf8;

use crate::text::same_text;

verus! {

/// The options of the main menu, in their order of declaration.
pub open spec fn menu_labels() -> Seq<Seq<char>> {
    seq![
        "Init flow"@,
        "Add a commit"@,
        "Stash modification"@,
        "Quit"@,
        "Send modifications to remotes"@,
        "Get modifications from the remote"@,
        "Display of your pull request"@,
        "Update a pull request branch"@,
        "Create a pull request"@,
        "Login to GitHub"@,
        "Logout to GitHub"@,
        "Refresh crendentials"@,
        "Open repository on default browser"@,
        "Show branches"@,
        "Clone a gist"@,
        "Clone a repository"@,
        "Create a gist"@,
        "Display your gists"@,
        "View a gists"@,
        "Edit a gist"@,
        "Unlock issue conversation"@,
        "Fetch a hotfix"@,
        "Fetch a release"@,
        "Remove a gist"@,
        "Create a issue"@,
        "Create a new release"@,
        "Remove an asset from a release"@,
        "Edit a release"@,
        "Display releases"@,
        "Download a release"@,
        "Upload assets to a releases"@,
        "View information about a release"@,
        "Pin an issues"@,
        "Lock issue conversation"@,
        "Close a issue"@,
        "Unpin an issue"@,
        "Edit issues"@,
        "Display issues"@,
        "Reopen issue"@,
        "Show status of a relevant issues"@,
        "Add a comment to an issue"@,
        "Transfer issue to another repository"@,
        "Rename the repository"@,
        "Rename a file in a gist"@,
        "Manage gpg key"@,
        "Remove branches"@,
        "Display logs"@,
        "Display diff"@,
        "Display workflow status"@,
        "Display recent workflows run"@,
        "Cancel a workflow"@,
        "Watch a run until it completes, showing its progress"@,
        "Rerun a run"@,
        "View a summary of a workflow run"@,
        "Remove github actions caches"@,
        "Remove a workflow"@,
        "Download artifacts generated by a workflow run"@,
        "Display github actions caches"@,
        "Remove a feature"@,
        "Start a new feature"@,
        "Finnish a feature"@,
        "Remove a hotfix"@,
        "Start a new hotfix"@,
        "Finnish a hotfix"@,
        "Start a new release"@,
        "Finnish a release"@,
        "Remove a release"@,
        "Display an issue"@,
        "Generate or update the changelog"@,
    ]
}

/// The taxonomy of changes, each as its kind, `:` and what it stands for.
pub open spec fn commit_type_labels() -> Seq<Seq<char>> {
    seq![
        "Star: New feature or enhancement"@,
        "Comet: Bug fix or error resolution"@,
        "Nebula: Code refactoring"@,
        "Pulsar: Performance improvement"@,
        "Quasar: Documentation or clarity improvement"@,
        "Asteroid Belt: Code cleanup and maintenance"@,
        "Solar Flare: Testing-related changes"@,
        "Dwarf Planet: Minor updates or fixes"@,
        "Terraform: Infrastructure changes"@,
        "Black Hole: Removing large chunks of code or features"@,
        "Wormhole: Merging branches or connecting code parts"@,
        "Big Bang: Initial commit or major feature start"@,
        "Launch: Deploying to production or releasing a version"@,
        "Lightspeed: Significant performance improvements"@,
        "Mission Control: Project management changes"@,
        "Spacewalk: Urgent hotfixes"@,
        "Moon Landing: Major milestone or goal completion"@,
        "First Contact: Initial integrations with external systems"@,
        "Interstellar Communication: Improving documentation or communication"@,
        "Solar Eclipse: Temporarily masking functionality"@,
        "Supernova: Major, transformative change"@,
        "Meteor Shower: Series of small changes or fixes"@,
        "Solar Wind: Refactoring code structure"@,
        "Lunar Eclipse: Temporarily disabling a feature"@,
        "Cosmic Dawn: Initial implementation of a feature"@,
        "Solar Storm: Rapid, impactful changes"@,
        "Lunar Transit: Minor, temporary change"@,
        "Perihelion: Brings the project closer to its goals or objectives"@,
        "Aphelion: Immediate goals, but is necessary for long-term progress"@,
        "White Dwarf: Improving code comments or documentation"@,
        "Red Giant: Expanding a feature or functionality"@,
        "Neutron Star: Optimizing code for performance"@,
        "Binary Star: Merging features or components"@,
        "Brown Dwarf: Undeveloped feature with potential"@,
        "Quark Star: Experimental or speculative change"@,
        "Rogue Planet: Independent change"@,
        "Stellar Nursery: Creation of new components"@,
        "Planetary Nebula: Removal or deprecation of a component"@,
        "Globular Cluster: Collection of related changes"@,
        "Void: Removal of a module, component, or feature"@,
        "Gravity: Resolving merge conflicts or dependencies"@,
        "Dark Matter: Fixing unknown or mysterious bugs"@,
        "Time Dilation: Improving code performance"@,
        "Spacetime: Changes to date, time, or scheduling"@,
        "Gravitational Lensing: Altering data or information flow"@,
        "Cosmic String: Connecting code parts"@,
        "Quantum Fluctuation: Small, random change"@,
        "Hawking Radiation: Removing technical debt"@,
        "Quantum Entanglement: Establishing close relationships between code parts"@,
        "Gravitational Redshift: Slowing down or reducing code performance"@,
        "Space Probe: Testing new features or technologies"@,
        "Station: Creating or improving environments"@,
        "Rocket Launch: Deploying to production"@,
        "Spacewalk: Urgent production hotfixes"@,
        "Space Elevator: Making codebase more accessible"@,
        "Warp Drive: Significant speed improvement"@,
        "Dyson Sphere: Comprehensive optimization of a specific area"@,
        "Generation Ship: Long-term project for a self -sustaining system"@,
        "Lagrange Point: Stabilizing or balancing code parts"@,
        "Orbital Maneuver: Changing project direction"@,
        "Mission Control: Represents project management-related changes"@,
        "Moon Landing: Celebrates the completion of major milestones"@,
        "Interstellar Travel: Migration to a new architecture or language"@,
        "Rover: Exploration of new technologies or approaches"@,
        "Singularity: Resolution of a complex or hard-to-reproduce issue"@,
        "Relativity: Changes related to time, dates, or timestamps"@,
        "Expansion: Scaling up the system or increasing capacity"@,
        "Big Crunch: Reduction of codebase size or removal of features"@,
    ]
}

/// The options of the main menu.
pub fn options() -> (r: Vec<String>)
    ensures
        r@.map_values(|s: String| s@) == menu_labels(),
{
    let mut v: Vec<String> = Vec::new();
    v.push(String::from_str("Init flow"));
    v.push(String::from_str("Add a commit"));
    v.push(String::from_str("Stash modification"));
    v.push(String::from_str("Quit"));
    v.push(String::from_str("Send modifications to remotes"));
    v.push(String::from_str("Get modifications from the remote"));
    v.push(String::from_str("Display of your pull request"));
    v.push(String::from_str("Update a pull request branch"));
    v.push(String::from_str("Create a pull request"));
    v.push(String::from_str("Login to GitHub"));
    v.push(String::from_str("Logout to GitHub"));
    v.push(String::from_str("Refresh crendentials"));
    v.push(String::from_str("Open repository on default browser"));
    v.push(String::from_str("Show branches"));
    v.push(String::from_str("Clone a gist"));
    v.push(String::from_str("Clone a repository"));
    v.push(String::from_str("Create a gist"));
    v.push(String::from_str("Display your gists"));
    v.push(String::from_str("View a gists"));
    v.push(String::from_str("Edit a gist"));
    v.push(String::from_str("Unlock issue conversation"));
    v.push(String::from_str("Fetch a hotfix"));
    v.push(String::from_str("Fetch a release"));
    v.push(String::from_str("Remove a gist"));
    v.push(String::from_str("Create a issue"));
    v.push(String::from_str("Create a new release"));
    v.push(String::from_str("Remove an asset from a release"));
    v.push(String::from_str("Edit a release"));
    v.push(String::from_str("Display releases"));
    v.push(String::from_str("Download a release"));
    v.push(String::from_str("Upload assets to a releases"));
    v.push(String::from_str("View information about a release"));
    v.push(String::from_str("Pin an issues"));
    v.push(String::from_str("Lock issue conversation"));
    v.push(String::from_str("Close a issue"));
    v.push(String::from_str("Unpin an issue"));
    v.push(String::from_str("Edit issues"));
    v.push(String::from_str("Display issues"));
    v.push(String::from_str("Reopen issue"));
    v.push(String::from_str("Show status of a relevant issues"));
    v.push(String::from_str("Add a comment to an issue"));
    v.push(String::from_str("Transfer issue to another repository"));
    v.push(String::from_str("Rename the repository"));
    v.push(String::from_str("Rename a file in a gist"));
    v.push(String::from_str("Manage gpg key"));
    v.push(String::from_str("Remove branches"));
    v.push(String::from_str("Display logs"));
    v.push(String::from_str("Display diff"));
    v.push(String::from_str("Display workflow status"));
    v.push(String::from_str("Display recent workflows run"));
    v.push(String::from_str("Cancel a workflow"));
    v.push(String::from_str("Watch a run until it completes, showing its progress"));
    v.push(String::from_str("Rerun a run"));
    v.push(String::from_str("View a summary of a workflow run"));
    v.push(String::from_str("Remove github actions caches"));
    v.push(String::from_str("Remove a workflow"));
    v.push(String::from_str("Download artifacts generated by a workflow run"));
    v.push(String::from_str("Display github actions caches"));
    v.push(String::from_str("Remove a feature"));
    v.push(String::from_str("Start a new feature"));
    v.push(String::from_str("Finnish a feature"));
    v.push(String::from_str("Remove a hotfix"));
    v.push(String::from_str("Start a new hotfix"));
    v.push(String::from_str("Finnish a hotfix"));
    v.push(String::from_str("Start a new release"));
    v.push(String::from_str("Finnish a release"));
    v.push(String::from_str("Remove a release"));
    v.push(String::from_str("Display an issue"));
    v.push(String::from_str("Generate or update the changelog"));
    assert(v@.map_values(|s: String| s@) =~= menu_labels());
    v
}

pub(crate) fn commit_types() -> (r: Vec<String>)
    ensures
        r@.map_values(|s: String| s@) == commit_type_labels(),
{
    let mut v: Vec<String> = Vec::new();
    v.push(String::from_str("Star: New feature or enhancement"));
    v.push(String::from_str("Comet: Bug fix or error resolution"));
    v.push(String::from_str("Nebula: Code refactoring"));
    v.push(String::from_str("Pulsar: Performance improvement"));
    v.push(String::from_str("Quasar: Documentation or clarity improvement"));
    v.push(String::from_str("Asteroid Belt: Code cleanup and maintenance"));
    v.push(String::from_str("Solar Flare: Testing-related changes"));
    v.push(String::from_str("Dwarf Planet: Minor updates or fixes"));
    v.push(String::from_str("Terraform: Infrastructure changes"));
    v.push(String::from_str("Black Hole: Removing large chunks of code or features"));
    v.push(String::from_str("Wormhole: Merging branches or connecting code parts"));
    v.push(String::from_str("Big Bang: Initial commit or major feature start"));
    v.push(String::from_str("Launch: Deploying to production or releasing a version"));
    v.push(String::from_str("Lightspeed: Significant performance improvements"));
    v.push(String::from_str("Mission Control: Project management changes"));
    v.push(String::from_str("Spacewalk: Urgent hotfixes"));
    v.push(String::from_str("Moon Landing: Major milestone or goal completion"));
    v.push(String::from_str("First Contact: Initial integrations with external systems"));
    v.push(String::from_str("Interstellar Communication: Improving documentation or communication"));
    v.push(String::from_str("Solar Eclipse: Temporarily masking functionality"));
    v.push(String::from_str("Supernova: Major, transformative change"));
    v.push(String::from_str("Meteor Shower: Series of small changes or fixes"));
    v.push(String::from_str("Solar Wind: Refactoring code structure"));
    v.push(String::from_str("Lunar Eclipse: Temporarily disabling a feature"));
    v.push(String::from_str("Cosmic Dawn: Initial implementation of a feature"));
    v.push(String::from_str("Solar Storm: Rapid, impactful changes"));
    v.push(String::from_str("Lunar Transit: Minor, temporary change"));
    v.push(String::from_str("Perihelion: Brings the project closer to its goals or objectives"));
    v.push(String::from_str("Aphelion: Immediate goals, but is necessary for long-term progress"));
    v.push(String::from_str("White Dwarf: Improving code comments or documentation"));
    v.push(String::from_str("Red Giant: Expanding a feature or functionality"));
    v.push(String::from_str("Neutron Star: Optimizing code for performance"));
    v.push(String::from_str("Binary Star: Merging features or components"));
    v.push(String::from_str("Brown Dwarf: Undeveloped feature with potential"));
    v.push(String::from_str("Quark Star: Experimental or speculative change"));
    v.push(String::from_str("Rogue Planet: Independent change"));
    v.push(String::from_str("Stellar Nursery: Creation of new components"));
    v.push(String::from_str("Planetary Nebula: Removal or deprecation of a component"));
    v.push(String::from_str("Globular Cluster: Collection of related changes"));
    v.push(String::from_str("Void: Removal of a module, component, or feature"));
    v.push(String::from_str("Gravity: Resolving merge conflicts or dependencies"));
    v.push(String::from_str("Dark Matter: Fixing unknown or mysterious bugs"));
    v.push(String::from_str("Time Dilation: Improving code performance"));
    v.push(String::from_str("Spacetime: Changes to date, time, or scheduling"));
    v.push(String::from_str("Gravitational Lensing: Altering data or information flow"));
    v.push(String::from_str("Cosmic String: Connecting code parts"));
    v.push(String::from_str("Quantum Fluctuation: Small, random change"));
    v.push(String::from_str("Hawking Radiation: Removing technical debt"));
    v.push(String::from_str("Quantum Entanglement: Establishing close relationships between code parts"));
    v.push(String::from_str("Gravitational Redshift: Slowing down or reducing code performance"));
    v.push(String::from_str("Space Probe: Testing new features or technologies"));
    v.push(String::from_str("Station: Creating or improving environments"));
    v.push(String::from_str("Rocket Launch: Deploying to production"));
    v.push(String::from_str("Spacewalk: Urgent production hotfixes"));
    v.push(String::from_str("Space Elevator: Making codebase more accessible"));
    v.push(String::from_str("Warp Drive: Significant speed improvement"));
    v.push(String::from_str("Dyson Sphere: Comprehensive optimization of a specific area"));
    v.push(String::from_str("Generation Ship: Long-term project for a self -sustaining system"));
    v.push(String::from_str("Lagrange Point: Stabilizing or balancing code parts"));
    v.push(String::from_str("Orbital Maneuver: Changing project direction"));
    v.push(String::from_str("Mission Control: Represents project management-related changes"));
    v.push(String::from_str("Moon Landing: Celebrates the completion of major milestones"));
    v.push(String::from_str("Interstellar Travel: Migration to a new architecture or language"));
    v.push(String::from_str("Rover: Exploration of new technologies or approaches"));
    v.push(String::from_str("Singularity: Resolution of a complex or hard-to-reproduce issue"));
    v.push(String::from_str("Relativity: Changes related to time, dates, or timestamps"));
    v.push(String::from_str("Expansion: Scaling up the system or increasing capacity"));
    v.push(String::from_str("Big Crunch: Reduction of codebase size or removal of features"));
    assert(v@.map_values(|s: String| s@) =~= commit_type_labels());
    v
}

/// `a` comes before `b`, or equals it, in the order of their UTF-8 bytes.
pub open spec fn bytes_le(a: Seq<u8>, b: Seq<u8>) -> bool
    decreases a.len(),
{
    if a.len() == 0 {
        true
    } else if b.len() == 0 {
        false
    } else if a[0] != b[0] {
        a[0] < b[0]
    } else {
        bytes_le(a.drop_first(), b.drop_first())
    }
}

/// Each text comes before the next in the order of `str`.
pub open spec fn ascending(v: Seq<String>) -> bool {
    forall|i: int| 0 <= i < v.len() - 1 ==> bytes_le(
        encode_utf8(#[trigger] v[i]@),
        encode_utf8(v[i + 1]@),
    )
}

/// Relies on `slice::sort_unstable`: the items are put in ascending order of `Ord`,
/// which orders strings by their bytes, and none is added or lost.
#[verifier::external_body]
fn sort_texts(v: &mut Vec<String>)
    ensures
        final(v)@.map_values(|s: String| s@).to_multiset() == old(v)@.map_values(|s: String| s@).to_multiset(),
        ascending(final(v)@),
{
    v.sort_unstable()
}

/// The taxonomy of changes, in ascending order.
pub fn commit_types_with_help() -> (r: Vec<String>)
    ensures
        r@.map_values(|s: String| s@).to_multiset() == commit_type_labels().to_multiset(),
        ascending(r@),
{
    let mut v = commit_types();
    sort_texts(&mut v);
    v
}

/// One line of the working tree's status: the path (`unknown` where it has none
/// that can be shown), `: ` and the status.
pub fn display_status(path: Option<&str>, status: &str) -> (r: String)
    ensures
        r@ == (match path {
            Some(p) => p@,
            None => "unknown"@,
        }) + ": "@ + status@,
{
    let mut out = match path {
        Some(p) => String::from_str(p),
        None => String::from_str("unknown"),
    };
    out.append(": ");
    out.append(status);
    out
}

/// Whether `label` is one of the labels of the taxonomy of changes.
pub fn is_commit_type(label: &str) -> (r: bool)
    ensures
        r == commit_type_labels().contains(label@),
{
    let labels = commit_types();
    let ghost ls = labels@.map_values(|s: String| s@);
    let mut i: usize = 0;
    while i < labels.len()
        invariant
            i <= labels@.len(),
            ls == labels@.map_values(|s: String| s@),
            ls == commit_type_labels(),
            forall|k: int| 0 <= k < i ==> ls[k] != label@,
        decreases labels@.len() - i,
    {
        if same_text(labels[i].as_str(), label) {
            assert(ls[i as int] == label@);
            return true;
        }
        i += 1;
    }
    false
}

/// The options of the main menu, in ascending order.
pub fn sorted_options() -> (r: Vec<String>)
    ensures
        r@.map_values(|s: String| s@).to_multiset() == menu_labels().to_multiset(),
        ascending(r@),
{
    let mut v = options();
    sort_texts(&mut v);
    v
}

} // verus!
