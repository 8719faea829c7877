//! Where a new terminal starts: the directory that a policy picks from the
//! workspace, or the user's home directory where it picks none.

use vstd::prelude::*;
use crate::project::{Workspace, WorkspaceModel, Worktree, WorktreeModel};

verus! {

/// The policy by which a new terminal's directory is chosen.
#[derive(Clone, Debug)]
pub enum WorkingDirectory {
    CurrentProjectDirectory,
    FirstProjectDirectory,
    AlwaysHome,
    Always { directory: String },
}

/// What the environment and the disk said of a fixed directory: the text after
/// expansion, if it could be expanded, and whether a directory stands there.
#[derive(Clone, Debug)]
pub struct FixedProbe {
    pub expanded: Option<String>,
    pub is_dir: bool,
}

/// A policy as contracts see it.
pub enum PolicyModel {
    CurrentProjectDirectory,
    FirstProjectDirectory,
    AlwaysHome,
    Always { directory: Seq<char> },
}

/// A probe as contracts see it.
pub struct ProbeModel {
    pub expanded: Option<Seq<char>>,
    pub is_dir: bool,
}

impl View for WorkingDirectory {
    type V = PolicyModel;

    open spec fn view(&self) -> PolicyModel {
        match self {
            WorkingDirectory::CurrentProjectDirectory => PolicyModel::CurrentProjectDirectory,
            WorkingDirectory::FirstProjectDirectory => PolicyModel::FirstProjectDirectory,
            WorkingDirectory::AlwaysHome => PolicyModel::AlwaysHome,
            WorkingDirectory::Always { directory } => PolicyModel::Always {
                directory: directory@,
            },
        }
    }
}

impl View for FixedProbe {
    type V = ProbeModel;

    open spec fn view(&self) -> ProbeModel {
        ProbeModel { expanded: path_view(self.expanded), is_dir: self.is_dir }
    }
}

/// A path as contracts see it.
pub open spec fn path_view(path: Option<String>) -> Option<Seq<char>> {
    match path {
        Some(p) => Some(p@),
        None => None,
    }
}

/// The root path of a worktree whose root entry is a directory.
pub open spec fn root_directory(wt: WorktreeModel) -> Option<Seq<char>> {
    if wt.entries.len() > 0 && wt.entries[0].is_dir {
        Some(wt.abs_path)
    } else {
        None
    }
}

/// The root directory of a worktree on this machine.
pub open spec fn local_root_directory(wt: WorktreeModel) -> Option<Seq<char>> {
    if wt.local {
        root_directory(wt)
    } else {
        None
    }
}

/// The root directory of the first worktree in enumeration order.
pub open spec fn first_directory(ws: WorkspaceModel) -> Option<Seq<char>> {
    if ws.worktrees.len() > 0 {
        local_root_directory(ws.worktrees[0])
    } else {
        None
    }
}

/// The worktree of the active entry, else the first worktree.
pub open spec fn current_worktree(ws: WorkspaceModel) -> Option<int> {
    if ws.active_entry is Some && ws.owner_of(ws.active_entry->0) is Some {
        ws.owner_of(ws.active_entry->0)
    } else if ws.worktrees.len() > 0 {
        Some(0)
    } else {
        None
    }
}

/// The root directory of the worktree that the active entry selects.
pub open spec fn current_directory(ws: WorkspaceModel) -> Option<Seq<char>> {
    match current_worktree(ws) {
        Some(i) => local_root_directory(ws.worktrees[i]),
        None => None,
    }
}

/// The fixed directory, where its expansion names a directory that exists.
pub open spec fn fixed_directory(probe: ProbeModel) -> Option<Seq<char>> {
    if probe.expanded is Some && probe.is_dir {
        probe.expanded
    } else {
        None
    }
}

/// What a policy picks, before the home directory is considered.
pub open spec fn policy_directory(
    policy: PolicyModel,
    ws: WorkspaceModel,
    probe: ProbeModel,
) -> Option<Seq<char>> {
    match policy {
        PolicyModel::CurrentProjectDirectory => current_directory(ws),
        PolicyModel::FirstProjectDirectory => first_directory(ws),
        PolicyModel::AlwaysHome => None,
        PolicyModel::Always { .. } => fixed_directory(probe),
    }
}

/// The policy's directory, and the home directory in its place where there is none.
pub open spec fn home_fallback(step: Option<Seq<char>>, home: Option<Seq<char>>) -> Option<
    Seq<char>,
> {
    if step is Some {
        step
    } else {
        home
    }
}

pub fn get_path_from_wt(wt: &Worktree) -> (path: Option<String>)
    ensures
        path_view(path) == root_directory(wt@),
{
    match wt.root_entry() {
        Some(root) => {
            if root.is_dir {
                Some(wt.abs_path.clone())
            } else {
                None
            }
        },
        None => None,
    }
}

fn local_path(wt: &Worktree) -> (path: Option<String>)
    ensures
        path_view(path) == local_root_directory(wt@),
{
    if wt.local {
        get_path_from_wt(wt)
    } else {
        None
    }
}

/// The first worktree's root, if that root is a directory. The active entry
/// plays no part.
pub fn first_project_directory(workspace: &Workspace) -> (path: Option<String>)
    ensures
        path_view(path) == first_directory(workspace@),
{
    if workspace.worktrees.len() > 0 {
        local_path(&workspace.worktrees[0])
    } else {
        None
    }
}

/// The root of the active entry's worktree, or of the first worktree where no
/// entry is active or none holds it, if that root is a directory. A file root
/// is rejected, never replaced by another worktree.
pub fn current_project_directory(workspace: &Workspace) -> (path: Option<String>)
    ensures
        path_view(path) == current_directory(workspace@),
{
    let owner: Option<usize> = match workspace.active_entry {
        Some(id) => workspace.worktree_for_entry(id),
        None => None,
    };
    match owner {
        Some(i) => {
            proof {
                let id = workspace.active_entry->0;
                assert(workspace@.is_first_owner(id, i as int));
                assert(workspace@.worktrees[i as int] == workspace.worktrees@[i as int]@);
            }
            local_path(&workspace.worktrees[i])
        },
        None => first_project_directory(workspace),
    }
}

/// What `policy` picks from the workspace and, for a fixed directory, from what
/// was learned of it outside. `None` asks for the home directory.
pub fn resolve(policy: &WorkingDirectory, workspace: &Workspace, probe: &FixedProbe) -> (path:
    Option<String>)
    ensures
        path_view(path) == policy_directory(policy@, workspace@, probe@),
{
    match policy {
        WorkingDirectory::CurrentProjectDirectory => current_project_directory(workspace),
        WorkingDirectory::FirstProjectDirectory => first_project_directory(workspace),
        WorkingDirectory::AlwaysHome => None,
        WorkingDirectory::Always { .. } => {
            match &probe.expanded {
                Some(dir) => {
                    if probe.is_dir {
                        Some(dir.clone())
                    } else {
                        None
                    }
                },
                None => None,
            }
        },
    }
}

/// The one place where the home directory stands in for a policy that picked
/// nothing.
pub fn with_home(step: Option<String>, home: Option<String>) -> (path: Option<String>)
    ensures
        path_view(path) == home_fallback(path_view(step), path_view(home)),
{
    match step {
        Some(dir) => Some(dir),
        None => home,
    }
}

/// A text in which every character that stands right behind a `$` is ASCII.
/// On any other text the expansion may cut a character in two.
pub open spec fn dollar_safe(raw: Seq<char>) -> bool {
    forall|j: int| 1 <= j < raw.len() && raw[j - 1] == '$' ==> (#[trigger] raw[j]) as u32 <= 127
}

/// Whether `raw` can be handed to the expansion.
pub fn is_dollar_safe(raw: &str) -> (ok: bool)
    ensures
        ok == dollar_safe(raw@),
{
    let n = raw.unicode_len();
    let mut j: usize = 1;
    while j < n
        invariant
            1 <= j,
            n == raw@.len(),
            forall|k: int| 1 <= k < j && k < n && raw@[k - 1] == '$' ==> (#[trigger] raw@[k]) as u32
                <= 127,
        decreases n - j,
    {
        if raw.get_char(j - 1) == '$' && raw.get_char(j) as u32 > 127 {
            return false;
        }
        j += 1;
    }
    true
}

/// `shellexpand::full`: the text with a leading `~` and its `$NAME` and
/// `${NAME}` references replaced from the process environment, or `None` where
/// a variable cannot be looked up. Nothing is claimed of the text that comes
/// back. The call takes the character behind a `$` for one byte long where it
/// may start a name, so a text with a longer one there is kept out.
#[verifier::external_body]
fn expand_full(raw: &str) -> (expanded: Option<String>)
    requires
        dollar_safe(raw@),
{
    match shellexpand::full(raw) {
        Ok(dir) => Some(dir.to_string()),
        Err(_) => None,
    }
}

/// `std::path::Path::is_dir`: whether a directory stands at `path` right now.
/// Nothing is claimed of the answer.
#[verifier::external_body]
fn is_dir(path: &str) -> (found: bool) {
    std::path::Path::new(path).is_dir()
}

/// `dirs::home_dir`: the user's home directory as the platform reports it, if
/// it reports one. Nothing is claimed of the answer.
#[verifier::external_body]
fn home_dir() -> (home: Option<String>) {
    match dirs::home_dir() {
        Some(path) => Some(path.to_string_lossy().into_owned()),
        None => None,
    }
}

/// Expands a fixed directory and looks on disk for what it expands to. A text
/// that cannot be handed to the expansion counts as one that does not expand,
/// and nothing is looked for, and nothing found, where it does not expand.
fn probe_fixed(directory: &String) -> (probe: FixedProbe)
    ensures
        !dollar_safe(directory@) ==> probe@.expanded is None,
        probe@.expanded is None ==> !probe@.is_dir,
{
    if !is_dollar_safe(directory.as_str()) {
        return FixedProbe { expanded: None, is_dir: false };
    }
    let expanded = expand_full(directory.as_str());
    let found = match &expanded {
        Some(dir) => is_dir(dir.as_str()),
        None => false,
    };
    FixedProbe { expanded, is_dir: found }
}

/// The policy in force where none was set.
pub open spec fn effective_policy(setting: Option<WorkingDirectory>) -> PolicyModel {
    match setting {
        Some(policy) => policy@,
        None => PolicyModel::CurrentProjectDirectory,
    }
}

/// The policy in force: the one that was set, else the current project directory.
pub fn policy_in_force(setting: Option<WorkingDirectory>) -> (policy: WorkingDirectory)
    ensures
        policy@ == effective_policy(setting),
{
    match setting {
        Some(policy) => policy,
        None => WorkingDirectory::CurrentProjectDirectory,
    }
}

/// The directory that a policy picks from the workspace alone.
pub open spec fn project_directory(policy: PolicyModel, ws: WorkspaceModel) -> Option<Seq<char>> {
    match policy {
        PolicyModel::CurrentProjectDirectory => current_directory(ws),
        PolicyModel::FirstProjectDirectory => first_directory(ws),
        _ => None,
    }
}

/// The directory for a new terminal under `setting`, which defaults to the
/// current project directory. A directory that the policy finds in the
/// workspace is returned as it is. Everything else rests on the environment:
/// a fixed directory is expanded, unless a `$` in it stands before a character
/// that is not ASCII, and looked for on disk, and where the policy picks
/// nothing the home directory is asked for, once. `resolve` and `with_home`
/// say what is returned for each answer from outside.
pub fn get_working_directory(workspace: &Workspace, setting: Option<WorkingDirectory>) -> (path:
    Option<String>)
    ensures
        project_directory(effective_policy(setting), workspace@) is Some ==> path_view(path)
            == project_directory(effective_policy(setting), workspace@),
{
    let wd_setting = policy_in_force(setting);
    let probe = match &wd_setting {
        WorkingDirectory::Always { directory } => probe_fixed(directory),
        _ => FixedProbe { expanded: None, is_dir: false },
    };
    let res = resolve(&wd_setting, workspace, &probe);
    if res.is_some() {
        res
    } else {
        with_home(res, home_dir())
    }
}

/// Where the policy picks nothing, the resolved directory is the home directory.
pub proof fn lemma_none_resolves_to_home(
    policy: PolicyModel,
    ws: WorkspaceModel,
    probe: ProbeModel,
    home: Option<Seq<char>>,
)
    requires
        policy_directory(policy, ws, probe) is None,
    ensures
        home_fallback(policy_directory(policy, ws, probe), home) == home,
{
}

/// The home policy never picks a directory of its own.
pub proof fn lemma_always_home_picks_nothing(ws: WorkspaceModel, probe: ProbeModel)
    ensures
        policy_directory(PolicyModel::AlwaysHome, ws, probe) is None,
{
}

/// Without a worktree neither project policy picks a directory, whatever entry
/// is active.
pub proof fn lemma_no_worktree(ws: WorkspaceModel)
    requires
        ws.worktrees.len() == 0,
    ensures
        current_directory(ws) is None,
        first_directory(ws) is None,
{
    if ws.active_entry is Some {
        let id = ws.active_entry->0;
        assert forall|i: int| !ws.is_first_owner(id, i) by {}
    }
}

/// A worktree whose root is a file, or that has no root entry yet, gives no
/// directory, also where it is the only worktree.
pub proof fn lemma_file_root_rejected(ws: WorkspaceModel)
    requires
        ws.worktrees.len() == 1,
        !(ws.worktrees[0].root_entry() is Some && ws.worktrees[0].root_entry()->0.is_dir),
    ensures
        current_directory(ws) is None,
        first_directory(ws) is None,
{
    if ws.active_entry is Some {
        let id = ws.active_entry->0;
        if ws.owner_of(id) is Some {
            assert(ws.is_first_owner(id, ws.owner_of(id)->0));
        }
    }
}

/// The worktree that the current-project policy selects decides alone: where
/// its root is no directory the answer is `None`, whatever other worktrees
/// there are.
pub proof fn lemma_selected_worktree_decides(ws: WorkspaceModel, i: int)
    requires
        current_worktree(ws) == Some(i),
    ensures
        current_directory(ws) == local_root_directory(ws.worktrees[i]),
        root_directory(ws.worktrees[i]) is None ==> current_directory(ws) is None,
{
}

/// With no active entry both project policies pick the first worktree's root
/// directory.
pub proof fn lemma_no_active_entry(ws: WorkspaceModel)
    requires
        ws.active_entry is None,
    ensures
        current_directory(ws) == first_directory(ws),
        ws.worktrees.len() > 0 && ws.worktrees[0].local && ws.worktrees[0].root_entry() is Some
            && ws.worktrees[0].root_entry()->0.is_dir ==> first_directory(ws) == Some(
            ws.worktrees[0].abs_path,
        ),
{
}

/// An active entry that a worktree holds selects the first such worktree: where
/// that worktree's root is no directory the current-project policy picks
/// nothing, whatever other worktrees there are. The first-project policy still
/// looks at the first worktree only.
pub proof fn lemma_active_entry_selects_owner(ws: WorkspaceModel, id: u64, i: int)
    requires
        ws.active_entry == Some(id),
        ws.is_first_owner(id, i),
    ensures
        current_directory(ws) == local_root_directory(ws.worktrees[i]),
        root_directory(ws.worktrees[i]) is None ==> current_directory(ws) is None,
        first_directory(ws) == local_root_directory(ws.worktrees[0]),
{
    ws.lemma_owner_unique(id, i);
}

/// Resolving twice on the same workspace, policy and outside answers gives the
/// same directory.
pub proof fn lemma_resolve_repeatable(
    policy: WorkingDirectory,
    workspace: Workspace,
    probe: FixedProbe,
    first: Option<String>,
    second: Option<String>,
)
    requires
        path_view(first) == policy_directory(policy@, workspace@, probe@),
        path_view(second) == policy_directory(policy@, workspace@, probe@),
    ensures
        path_view(first) == path_view(second),
{
}

} // verus!
