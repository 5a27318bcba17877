//! Project identities and records, the registry that holds them, and the
//! paths and URLs derived from a project's name and branch.
use vstd::prelude::*;

use crate::actions::{action_of, action_outcome, kind_matches, ActionCommand, ActionError, ProjectKind};
use crate::plan::ProjectIoHandle;
use crate::config::{PROJECT_FOLDER, WEBHOOK_URL_PATH};
use crate::plan::{CommandSpec, CommandView};
use crate::text::{contains_char, has_char, has_prefix, remove_first, remove_first_spec, starts_with};

verus! {

/// The identity of a project: its name and the branch it deploys.
pub struct BaseProject {
    pub name: String,
    pub branch: String,
}

impl Clone for BaseProject {
    fn clone(&self) -> (r: Self)
        ensures
            r == *self,
    {
        BaseProject { name: self.name.clone(), branch: self.branch.clone() }
    }
}

/// How the repository of a new project is reached.
pub enum GitAuth {
    /// A public repository.
    Anonymous,
    /// A repository reached with an access token.
    Token(String),
}

impl GitAuth {
    /// Whether no credential is used.
    pub fn is_none(&self) -> (r: bool)
        ensures
            r == (self is Anonymous),
    {
        match self {
            GitAuth::Anonymous => true,
            GitAuth::Token(_) => false,
        }
    }
}

/// Why a project request was refused, or a registry change failed.
#[derive(Debug, Clone, Copy, PartialEq, Eq, Structural)]
pub enum ProjectError {
    /// The name holds a path separator.
    InvalidName,
    /// The repository URL does not use HTTPS.
    NotHttps,
    /// A project with the same name and branch is already registered.
    Duplicate,
    /// No project with that name and branch is registered.
    NotFound,
}

/// A request to create a project.
pub struct NewProject {
    pub name: String,
    pub branch: String,
    pub https_url: String,
    pub auth: GitAuth,
    pub project_kind: ProjectKind,
}

/// A registered project.
pub struct Project {
    /// The webhook route of the project, also its lookup key.
    pub uri: String,
    /// The project's working directory.
    pub path: String,
    pub project_name: String,
    pub branch: String,
    pub project_kind: ProjectKind,
}

impl Clone for Project {
    fn clone(&self) -> (r: Self)
        ensures
            r == *self,
    {
        Project {
            uri: self.uri.clone(),
            path: self.path.clone(),
            project_name: self.project_name.clone(),
            branch: self.branch.clone(),
            project_kind: self.project_kind.clone(),
        }
    }
}

/// A project name may not hold a path separator.
pub open spec fn valid_name(name: Seq<char>) -> bool {
    !contains_char(name, '/') && !contains_char(name, '\\')
}

/// Whether `name` is acceptable as a project name.
pub fn is_valid_name(name: &str) -> (r: bool)
    ensures
        r == valid_name(name@),
{
    !has_char(name, '/') && !has_char(name, '\\')
}

/// The clone URL for `url` under `auth`: the token, if any, goes in as the
/// user part after the scheme.
pub open spec fn git_auth_url(url: Seq<char>, auth: GitAuth) -> Seq<char> {
    match auth {
        GitAuth::Anonymous => url,
        GitAuth::Token(t) => "https://"@ + t@ + "@"@ + remove_first_spec(url, "https://"@),
    }
}

/// The URL to clone `https_url` from, with the credential of `auth`.
pub fn create_git_auth_url(https_url: &str, auth: &GitAuth) -> (r: String)
    ensures
        r@ == git_auth_url(https_url@, *auth),
{
    match auth {
        GitAuth::Anonymous => String::from_str(https_url),
        GitAuth::Token(t) => {
            let rest = remove_first(https_url, "https://");
            let mut r = String::from_str("https://");
            r.append(t.as_str());
            r.append("@");
            r.append(rest.as_str());
            r
        },
    }
}

/// The webhook route of a project, absolute or relative to the webhook prefix.
pub open spec fn webhook_url(name: Seq<char>, branch: Seq<char>, absolute: bool) -> Seq<char> {
    if absolute {
        WEBHOOK_URL_PATH@ + "/"@ + name + "/"@ + branch
    } else {
        name + "/"@ + branch
    }
}

/// The webhook route of project `name` on `branch`.
pub fn format_webhook_url(name: &str, branch: &str, absolute: bool) -> (r: String)
    ensures
        r@ == webhook_url(name@, branch@, absolute),
{
    let mut r = if absolute {
        let mut r = String::from_str(WEBHOOK_URL_PATH);
        r.append("/");
        r.append(name);
        r
    } else {
        String::from_str(name)
    };
    r.append("/");
    r.append(branch);
    r
}

/// The directory holding all branches of project `name`.
pub open spec fn project_root_folder(name: Seq<char>) -> Seq<char> {
    PROJECT_FOLDER@ + "/"@ + name
}

/// The working directory of project `name` on `branch`.
pub open spec fn project_folder(name: Seq<char>, branch: Seq<char>) -> Seq<char> {
    project_root_folder(name) + "/"@ + branch
}

/// The directory holding all branches of project `name`.
pub fn format_project_root_folder(name: &str) -> (r: String)
    ensures
        r@ == project_root_folder(name@),
{
    let mut r = String::from_str(PROJECT_FOLDER);
    r.append("/");
    r.append(name);
    r
}

/// The working directory of project `name` on `branch`.
pub fn format_project_folder(name: &str, branch: &str) -> (r: String)
    ensures
        r@ == project_folder(name@, branch@),
{
    let mut r = format_project_root_folder(name);
    r.append("/");
    r.append(branch);
    r
}

/// The `git pull` that refreshes the working copy of `name` on `branch`;
/// refused where the name is not valid.
pub fn pull_command(name: &str, branch: &str) -> (r: Result<CommandSpec, ProjectError>)
    ensures
        valid_name(name@) <==> r is Ok,
        !valid_name(name@) ==> r == Err::<CommandSpec, ProjectError>(ProjectError::InvalidName),
        r matches Ok(c) ==> c@ == (CommandView {
            program: "git"@,
            args: seq!["pull"@],
            current_dir: project_folder(name@, branch@),
        }),
{
    if !is_valid_name(name) {
        return Err(ProjectError::InvalidName);
    }
    let dir = format_project_folder(name, branch);
    let r = CommandSpec::new("git", dir.as_str()).arg("pull");
    assert(r@.args =~= seq!["pull"@]);
    Ok(r)
}

impl NewProject {
    /// Whether the request may go ahead: a name without path separators and
    /// an HTTPS repository URL.
    pub fn validate(&self) -> (r: Result<(), ProjectError>)
        ensures
            !valid_name(self.name@) ==> r == Err::<(), ProjectError>(ProjectError::InvalidName),
            valid_name(self.name@) && !starts_with(self.https_url@, "https://"@) ==> r == Err::<(), ProjectError>(ProjectError::NotHttps),
            valid_name(self.name@) && starts_with(self.https_url@, "https://"@) ==> r is Ok,
    {
        if !is_valid_name(self.name.as_str()) {
            return Err(ProjectError::InvalidName);
        }
        if !has_prefix(self.https_url.as_str(), "https://") {
            return Err(ProjectError::NotHttps);
        }
        Ok(())
    }

    /// The `git clone` that fetches the requested branch into the project's
    /// working directory.
    pub fn clone_command(&self) -> (r: CommandSpec)
        ensures
            r@ == (CommandView {
                program: "git"@,
                args: seq![
                    "clone"@,
                    git_auth_url(self.https_url@, self.auth),
                    "-b"@,
                    self.branch@,
                    "."@,
                ],
                current_dir: project_folder(self.name@, self.branch@),
            }),
    {
        let dir = format_project_folder(self.name.as_str(), self.branch.as_str());
        let url = create_git_auth_url(self.https_url.as_str(), &self.auth);
        let r = CommandSpec::new("git", dir.as_str())
            .arg("clone")
            .arg(url.as_str())
            .arg("-b")
            .arg(self.branch.as_str())
            .arg(".");
        assert(r@.args =~= seq!["clone"@, url@, "-b"@, self.branch@, "."@]);
        r
    }

    /// The record of the project once its working copy is at `path`.
    pub fn into_project(self, path: String) -> (r: Project)
        ensures
            r.uri@ == webhook_url(self.name@, self.branch@, true),
            r.path == path,
            r.project_name == self.name,
            r.branch == self.branch,
            r.project_kind == self.project_kind,
    {
        let uri = format_webhook_url(self.name.as_str(), self.branch.as_str(), true);
        Project {
            uri,
            path,
            project_name: self.name,
            branch: self.branch,
            project_kind: self.project_kind,
        }
    }
}

impl Project {
    /// The identity of the project.
    pub fn base(&self) -> (r: BaseProject)
        ensures
            r.name == self.project_name,
            r.branch == self.branch,
    {
        BaseProject { name: self.project_name.clone(), branch: self.branch.clone() }
    }
}

/// `keys` names the field `k`.
pub open spec fn has_field(keys: Seq<String>, k: Seq<char>) -> bool {
    exists|i: int| 0 <= i < keys.len() && keys[i]@ == k
}

/// Whether `keys` names the field `k`.
fn find_field(keys: &Vec<String>, k: &str) -> (r: bool)
    ensures
        r == has_field(keys@, k@),
{
    let t = String::from_str(k);
    let mut i: usize = 0;
    while i < keys.len()
        invariant
            t@ == k@,
            i <= keys@.len(),
            forall|j: int| 0 <= j < i ==> (#[trigger] keys@[j])@ != k@,
        decreases keys@.len() - i,
    {
        if keys[i] == t {
            return true;
        }
        i = i + 1;
    }
    false
}

/// Whether a webhook payload with top-level fields `keys` reports a push:
/// it names `before`, `after` and `compare`. Any other payload is ignored.
pub fn is_push_event(keys: &Vec<String>) -> (r: bool)
    ensures
        r == (has_field(keys@, "before"@) && has_field(keys@, "after"@) && has_field(keys@, "compare"@)),
{
    find_field(keys, "before") && find_field(keys, "after") && find_field(keys, "compare")
}

/// Whether record `p` is the project `name` on `branch`.
pub open spec fn has_key(p: Project, name: Seq<char>, branch: Seq<char>) -> bool {
    p.project_name@ == name && p.branch@ == branch
}

/// Some record of `s` is the project `name` on `branch`.
pub open spec fn contains_key(s: Seq<Project>, name: Seq<char>, branch: Seq<char>) -> bool {
    exists|i: int| 0 <= i < s.len() && has_key(s[i], name, branch)
}

/// `i` is the first record of `s` that is the project `name` on `branch`.
pub open spec fn first_key(s: Seq<Project>, name: Seq<char>, branch: Seq<char>, i: int) -> bool {
    &&& 0 <= i < s.len()
    &&& has_key(s[i], name, branch)
    &&& forall|j: int| 0 <= j < i ==> !has_key(#[trigger] s[j], name, branch)
}

/// How many records of `s` are the project `name` on `branch`.
pub open spec fn count_key(s: Seq<Project>, name: Seq<char>, branch: Seq<char>) -> nat
    decreases s.len(),
{
    if s.len() == 0 {
        0
    } else {
        count_key(s.drop_last(), name, branch) + if has_key(s.last(), name, branch) { 1nat } else { 0nat }
    }
}

/// No two records of `s` share a name and branch.
pub open spec fn unique_keys(s: Seq<Project>) -> bool {
    forall|i: int, j: int|
        0 <= i < s.len() && 0 <= j < s.len() && i != j
            ==> !has_key(#[trigger] s[i], #[trigger] s[j].project_name@, s[j].branch@)
}

/// The registry's records after inserting `p`: refused when its name and
/// branch are taken, appended otherwise.
pub open spec fn insert_spec(s: Seq<Project>, p: Project) -> Result<Seq<Project>, ProjectError> {
    if contains_key(s, p.project_name@, p.branch@) {
        Err(ProjectError::Duplicate)
    } else {
        Ok(s.push(p))
    }
}

/// Without a record of the key, the count of the key is zero.
proof fn lemma_count_absent(s: Seq<Project>, name: Seq<char>, branch: Seq<char>)
    requires
        !contains_key(s, name, branch),
    ensures
        count_key(s, name, branch) == 0,
    decreases s.len(),
{
    if s.len() > 0 {
        assert forall|i: int| 0 <= i < s.drop_last().len() implies !has_key(s.drop_last()[i], name, branch) by {
            assert(s.drop_last()[i] == s[i]);
        }
        lemma_count_absent(s.drop_last(), name, branch);
        assert(!has_key(s[s.len() - 1], name, branch));
    }
}

/// With unique keys, a key that is present is counted once.
proof fn lemma_count_unique(s: Seq<Project>, name: Seq<char>, branch: Seq<char>)
    requires
        unique_keys(s),
        contains_key(s, name, branch),
    ensures
        count_key(s, name, branch) == 1,
    decreases s.len(),
{
    let t = s.drop_last();
    let k = s.len() - 1;
    assert(unique_keys(t)) by {
        assert forall|i: int, j: int|
            0 <= i < t.len() && 0 <= j < t.len() && i != j implies !has_key(#[trigger] t[i], #[trigger] t[j].project_name@, t[j].branch@) by {
            assert(t[i] == s[i] && t[j] == s[j]);
        }
    }
    if has_key(s[k], name, branch) {
        assert forall|i: int| 0 <= i < t.len() implies !has_key(t[i], name, branch) by {
            assert(t[i] == s[i]);
            assert(!has_key(s[i], s[k].project_name@, s[k].branch@));
        }
        lemma_count_absent(t, name, branch);
    } else {
        let i = choose|i: int| 0 <= i < s.len() && has_key(s[i], name, branch);
        assert(t[i] == s[i]);
        lemma_count_unique(t, name, branch);
    }
}

/// Inserting the same project twice: the second insertion is refused as a
/// duplicate, and the registry holds exactly one record of its name and
/// branch.
pub proof fn lemma_insert_twice(s: Seq<Project>, p: Project)
    requires
        unique_keys(s),
    ensures
        ({
            let once = match insert_spec(s, p) {
                Ok(t) => t,
                Err(_) => s,
            };
            &&& insert_spec(once, p) == Err::<Seq<Project>, ProjectError>(ProjectError::Duplicate)
            &&& count_key(once, p.project_name@, p.branch@) == 1
        }),
{
    let name = p.project_name@;
    let branch = p.branch@;
    if contains_key(s, name, branch) {
        lemma_count_unique(s, name, branch);
    } else {
        let t = s.push(p);
        assert(t.drop_last() =~= s);
        lemma_count_absent(s, name, branch);
        assert(has_key(t[s.len() as int], name, branch));
    }
}

/// The registered projects, in insertion order; no two share a name and branch.
pub struct Projects(Vec<Project>);

impl View for Projects {
    type V = Seq<Project>;

    closed spec fn view(&self) -> Seq<Project> {
        self.0@
    }
}

impl Clone for Projects {
    fn clone(&self) -> (r: Self)
        ensures
            r@ == self@,
    {
        let mut v: Vec<Project> = Vec::new();
        let mut i: usize = 0;
        while i < self.0.len()
            invariant
                i <= self@.len(),
                v@ =~= self@.subrange(0, i as int),
            decreases self@.len() - i,
        {
            v.push(self.0[i].clone());
            i = i + 1;
        }
        Projects(v)
    }
}

impl Projects {
    /// An empty registry.
    pub fn new() -> (r: Projects)
        ensures
            r@ == Seq::<Project>::empty(),
    {
        Projects(Vec::new())
    }

    /// The registry's records are well formed: keys are unique.
    pub open spec fn wf(&self) -> bool {
        unique_keys(self@)
    }

    /// The position of the first record of `name` on `branch`.
    pub fn position(&self, name: &str, branch: &str) -> (r: Option<usize>)
        ensures
            r is None <==> !contains_key(self@, name@, branch@),
            r matches Some(i) ==> first_key(self@, name@, branch@, i as int),
    {
        let n = String::from_str(name);
        let b = String::from_str(branch);
        let mut i: usize = 0;
        while i < self.0.len()
            invariant
                n@ == name@,
                b@ == branch@,
                i <= self@.len(),
                forall|j: int| 0 <= j < i ==> !has_key(#[trigger] self@[j], name@, branch@),
            decreases self@.len() - i,
        {
            if self.0[i].project_name == n && self.0[i].branch == b {
                return Some(i);
            }
            i = i + 1;
        }
        None
    }

    /// A copy of the record of `name` on `branch`, if there is one.
    pub fn get(&self, name: &str, branch: &str) -> (r: Option<Project>)
        ensures
            r is None <==> !contains_key(self@, name@, branch@),
            r matches Some(p) ==> exists|i: int| first_key(self@, name@, branch@, i) && p == self@[i],
    {
        match self.position(name, branch) {
            Some(i) => Some(self.0[i].clone()),
            None => None,
        }
    }

    /// Adds `project`, unless one of the same name and branch is registered.
    pub fn insert(&mut self, project: Project) -> (r: Result<(), ProjectError>)
        ensures
            match insert_spec(old(self)@, project) {
                Ok(s) => r is Ok && final(self)@ == s,
                Err(e) => r == Err::<(), ProjectError>(e) && final(self)@ == old(self)@,
            },
            old(self).wf() ==> final(self).wf(),
    {
        if self.position(project.project_name.as_str(), project.branch.as_str()).is_some() {
            return Err(ProjectError::Duplicate);
        }
        self.0.push(project);
        Ok(())
    }

    /// Takes out the record of `project`, or reports that there is none.
    pub fn remove(&mut self, project: &BaseProject) -> (r: Result<(), ProjectError>)
        ensures
            !contains_key(old(self)@, project.name@, project.branch@)
                ==> r == Err::<(), ProjectError>(ProjectError::NotFound) && final(self)@ == old(self)@,
            contains_key(old(self)@, project.name@, project.branch@) ==> r is Ok && exists|i: int|
                first_key(old(self)@, project.name@, project.branch@, i) && final(self)@ == old(self)@.remove(i),
            old(self).wf() ==> final(self).wf(),
    {
        match self.position(project.name.as_str(), project.branch.as_str()) {
            Some(i) => {
                self.0.remove(i);
                Ok(())
            },
            None => Err(ProjectError::NotFound),
        }
    }

    /// The records, in insertion order.
    pub fn records(&self) -> (r: &Vec<Project>)
        ensures
            r@ == self@,
    {
        &self.0
    }

    /// Plans `command` for the project `name` on `branch`, in place: the
    /// strategy's own state (an image version) is advanced in the stored
    /// record. Returns the project's identity and the plan.
    pub fn run_action(&mut self, name: &str, branch: &str, command: &ActionCommand) -> (r: Result<(BaseProject, ProjectIoHandle), ActionError>)
        ensures
            !contains_key(old(self)@, name@, branch@) ==> r == Err::<(BaseProject, ProjectIoHandle), ActionError>(ActionError::NotFound)
                && final(self)@ == old(self)@,
            contains_key(old(self)@, name@, branch@) ==> exists|i: int| {
                &&& first_key(old(self)@, name@, branch@, i)
                &&& final(self)@.len() == old(self)@.len()
                &&& forall|j: int| 0 <= j < old(self)@.len() && j != i ==> final(self)@[j] == old(self)@[j]
                &&& final(self)@[i] == (Project { project_kind: final(self)@[i].project_kind, ..old(self)@[i] })
                &&& if kind_matches(command.action_kind, old(self)@[i].project_kind) {
                    let base = BaseProject { name: old(self)@[i].project_name, branch: old(self)@[i].branch };
                    &&& action_outcome(
                        old(self)@[i].project_kind,
                        action_of(command.action_kind),
                        old(self)@[i].path@,
                        base,
                        match r { Ok(x) => Ok(x.1), Err(e) => Err(e) },
                        final(self)@[i].project_kind,
                    )
                    &&& r matches Ok(x) ==> x.0 == base
                } else {
                    r == Err::<(BaseProject, ProjectIoHandle), ActionError>(ActionError::KindMismatch)
                        && final(self)@[i] == old(self)@[i]
                }
            },
            old(self).wf() ==> final(self).wf(),
    {
        let i = match self.position(name, branch) {
            Some(i) => i,
            None => return Err(ActionError::NotFound),
        };
        let mut record = self.0[i].clone();
        let base = record.base();
        let dir = record.path.clone();
        let res = command.try_exec(dir.as_str(), &base, &mut record);
        self.0.set(i, record);
        match res {
            Ok(plan) => Ok((base, plan)),
            Err(e) => Err(e),
        }
    }
}

} // verus!
