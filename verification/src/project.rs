//! The durable data model of a project: identity, filesystem location,
//! authentication preference, and the cached outcome of the most recent
//! synchronization attempts.
//!
//! Loading is backward compatible: a persisted record may omit any of the
//! defaulted fields, and an authentication-preference tag that is no longer
//! recognized resolves to the current default rather than failing the load.
//! The persisted shape, with every defaulted field still optional, is modeled
//! by [`RawProject`]; [`Project::from_raw`] fills the documented defaults and
//! [`Project::to_raw`] writes a record back out. Timestamps are carried as
//! milliseconds since the epoch, commit and project identifiers as their
//! string forms, and filesystem paths as plain strings.

use vstd::prelude::*;

verus! {

/// The authentication mechanism used when talking to the project's git
/// remote. `SystemExecutable` is the default, and also the target that any
/// unrecognized legacy tag resolves to on load.
#[derive(Debug)]
pub enum AuthKey {
    GitCredentialsHelper,
    Local { private_key_path: String },
    SystemExecutable,
}

/// Ghost model of an [`AuthKey`].
pub enum AuthKeyV {
    GitCredentialsHelper,
    Local { private_key_path: Seq<char> },
    SystemExecutable,
}

impl View for AuthKey {
    type V = AuthKeyV;

    open spec fn view(&self) -> AuthKeyV {
        match self {
            AuthKey::GitCredentialsHelper => AuthKeyV::GitCredentialsHelper,
            AuthKey::Local { private_key_path } => AuthKeyV::Local {
                private_key_path: private_key_path@,
            },
            AuthKey::SystemExecutable => AuthKeyV::SystemExecutable,
        }
    }
}

impl Clone for AuthKey {
    fn clone(&self) -> (r: Self)
        ensures
            r@ == self@,
    {
        match self {
            AuthKey::GitCredentialsHelper => AuthKey::GitCredentialsHelper,
            AuthKey::Local { private_key_path } => AuthKey::Local {
                private_key_path: private_key_path.clone(),
            },
            AuthKey::SystemExecutable => AuthKey::SystemExecutable,
        }
    }
}

impl Default for AuthKey {
    fn default() -> (r: Self)
        ensures
            r@ == AuthKeyV::SystemExecutable,
    {
        AuthKey::SystemExecutable
    }
}

/// The backend-hosted counterpart record of a local project: its remote
/// metadata, the two remote URLs, and whether backend-mediated
/// synchronization is enabled.
#[derive(Debug)]
pub struct ApiProject {
    pub name: String,
    pub description: Option<String>,
    pub repository_id: String,
    pub git_url: String,
    pub code_git_url: Option<String>,
    pub created_at: String,
    pub updated_at: String,
    pub sync: bool,
}

/// Ghost model of an [`ApiProject`].
pub struct ApiProjectV {
    pub name: Seq<char>,
    pub description: Option<Seq<char>>,
    pub repository_id: Seq<char>,
    pub git_url: Seq<char>,
    pub code_git_url: Option<Seq<char>>,
    pub created_at: Seq<char>,
    pub updated_at: Seq<char>,
    pub sync: bool,
}

impl View for ApiProject {
    type V = ApiProjectV;

    open spec fn view(&self) -> ApiProjectV {
        ApiProjectV {
            name: self.name@,
            description: self.description.deep_view(),
            repository_id: self.repository_id@,
            git_url: self.git_url@,
            code_git_url: self.code_git_url.deep_view(),
            created_at: self.created_at@,
            updated_at: self.updated_at@,
            sync: self.sync,
        }
    }
}

impl DeepView for ApiProject {
    type V = ApiProjectV;

    open spec fn deep_view(&self) -> ApiProjectV {
        self.view()
    }
}

impl Clone for ApiProject {
    fn clone(&self) -> (r: Self)
        ensures
            r@ == self@,
    {
        ApiProject {
            name: self.name.clone(),
            description: clone_opt_string(&self.description),
            repository_id: self.repository_id.clone(),
            git_url: self.git_url.clone(),
            code_git_url: clone_opt_string(&self.code_git_url),
            created_at: self.created_at.clone(),
            updated_at: self.updated_at.clone(),
            sync: self.sync,
        }
    }
}

/// Outcome of one fetch attempt: success or failure, each stamped with the
/// instant (milliseconds since the epoch) at which the attempt finished.
#[derive(Debug)]
pub enum FetchResult {
    Fetched { timestamp: u64 },
    Error { timestamp: u64, error: String },
}

/// Ghost model of a [`FetchResult`].
pub enum FetchResultV {
    Fetched { timestamp: u64 },
    Error { timestamp: u64, error: Seq<char> },
}

impl View for FetchResult {
    type V = FetchResultV;

    open spec fn view(&self) -> FetchResultV {
        match self {
            FetchResult::Fetched { timestamp } => FetchResultV::Fetched { timestamp: *timestamp },
            FetchResult::Error { timestamp, error } => FetchResultV::Error {
                timestamp: *timestamp,
                error: error@,
            },
        }
    }
}

impl DeepView for FetchResult {
    type V = FetchResultV;

    open spec fn deep_view(&self) -> FetchResultV {
        self.view()
    }
}

impl Clone for FetchResult {
    fn clone(&self) -> (r: Self)
        ensures
            r@ == self@,
    {
        match self {
            FetchResult::Fetched { timestamp } => FetchResult::Fetched { timestamp: *timestamp },
            FetchResult::Error { timestamp, error } => FetchResult::Error {
                timestamp: *timestamp,
                error: error.clone(),
            },
        }
    }
}

impl FetchResult {
    /// The instant of the attempt, retrievable uniformly whichever way the
    /// attempt went.
    pub open spec fn spec_timestamp(self) -> u64 {
        match self {
            FetchResult::Fetched { timestamp } => timestamp,
            FetchResult::Error { timestamp, .. } => timestamp,
        }
    }

    pub fn timestamp(&self) -> (t: u64)
        ensures
            t == self.spec_timestamp(),
    {
        match self {
            FetchResult::Fetched { timestamp } => *timestamp,
            FetchResult::Error { timestamp, .. } => *timestamp,
        }
    }
}

/// The last commit successfully pushed on the code channel, and when.
#[derive(Debug)]
pub struct CodePushState {
    pub id: String,
    pub timestamp: u64,
}

/// Ghost model of a [`CodePushState`].
pub struct CodePushStateV {
    pub id: Seq<char>,
    pub timestamp: u64,
}

impl View for CodePushState {
    type V = CodePushStateV;

    open spec fn view(&self) -> CodePushStateV {
        CodePushStateV { id: self.id@, timestamp: self.timestamp }
    }
}

impl DeepView for CodePushState {
    type V = CodePushStateV;

    open spec fn deep_view(&self) -> CodePushStateV {
        self.view()
    }
}

impl Clone for CodePushState {
    fn clone(&self) -> (r: Self)
        ensures
            r@ == self@,
    {
        CodePushState { id: self.id.clone(), timestamp: self.timestamp }
    }
}

/// A project: identity, user-facing metadata, worktree location,
/// authentication preference, and the cached state of the last
/// synchronization attempts with the backend and the code host.
#[derive(Debug)]
pub struct Project {
    pub id: String,
    pub title: String,
    pub description: Option<String>,
    /// The worktree directory of the project's repository.
    pub path: String,
    pub preferred_key: AuthKey,
    /// If true, force pushing is allowed without extra confirmation, for
    /// example when updating the base branch.
    pub ok_with_force_push: bool,
    pub api: Option<ApiProject>,
    pub gitbutler_data_last_fetch: Option<FetchResult>,
    pub gitbutler_code_push_state: Option<CodePushState>,
    pub project_data_last_fetch: Option<FetchResult>,
    pub omit_certificate_check: Option<bool>,
    /// The number of changed lines that will trigger a snapshot.
    pub snapshot_lines_threshold: Option<usize>,
    pub use_new_locking: bool,
    pub ignore_project_semaphore: bool,
}

/// Ghost model of a [`Project`].
#[verifier::ext_equal]
pub struct ProjectV {
    pub id: Seq<char>,
    pub title: Seq<char>,
    pub description: Option<Seq<char>>,
    pub path: Seq<char>,
    pub preferred_key: AuthKeyV,
    pub ok_with_force_push: bool,
    pub api: Option<ApiProjectV>,
    pub gitbutler_data_last_fetch: Option<FetchResultV>,
    pub gitbutler_code_push_state: Option<CodePushStateV>,
    pub project_data_last_fetch: Option<FetchResultV>,
    pub omit_certificate_check: Option<bool>,
    pub snapshot_lines_threshold: Option<usize>,
    pub use_new_locking: bool,
    pub ignore_project_semaphore: bool,
}

impl View for Project {
    type V = ProjectV;

    open spec fn view(&self) -> ProjectV {
        ProjectV {
            id: self.id@,
            title: self.title@,
            description: self.description.deep_view(),
            path: self.path@,
            preferred_key: self.preferred_key@,
            ok_with_force_push: self.ok_with_force_push,
            api: self.api.deep_view(),
            gitbutler_data_last_fetch: self.gitbutler_data_last_fetch.deep_view(),
            gitbutler_code_push_state: self.gitbutler_code_push_state.deep_view(),
            project_data_last_fetch: self.project_data_last_fetch.deep_view(),
            omit_certificate_check: self.omit_certificate_check,
            snapshot_lines_threshold: self.snapshot_lines_threshold,
            use_new_locking: self.use_new_locking,
            ignore_project_semaphore: self.ignore_project_semaphore,
        }
    }
}

/// An authentication-preference tag as read from storage. Every tag that was
/// ever written but is no longer recognized reads as `Unrecognized`.
#[derive(Debug)]
pub enum RawAuthKey {
    GitCredentialsHelper,
    Local { private_key_path: String },
    SystemExecutable,
    Unrecognized,
}

/// Ghost model of a [`RawAuthKey`].
pub enum RawAuthKeyV {
    GitCredentialsHelper,
    Local { private_key_path: Seq<char> },
    SystemExecutable,
    Unrecognized,
}

impl View for RawAuthKey {
    type V = RawAuthKeyV;

    open spec fn view(&self) -> RawAuthKeyV {
        match self {
            RawAuthKey::GitCredentialsHelper => RawAuthKeyV::GitCredentialsHelper,
            RawAuthKey::Local { private_key_path } => RawAuthKeyV::Local {
                private_key_path: private_key_path@,
            },
            RawAuthKey::SystemExecutable => RawAuthKeyV::SystemExecutable,
            RawAuthKey::Unrecognized => RawAuthKeyV::Unrecognized,
        }
    }
}

impl DeepView for RawAuthKey {
    type V = RawAuthKeyV;

    open spec fn deep_view(&self) -> RawAuthKeyV {
        self.view()
    }
}

impl Clone for RawAuthKey {
    fn clone(&self) -> (r: Self)
        ensures
            r@ == self@,
    {
        match self {
            RawAuthKey::GitCredentialsHelper => RawAuthKey::GitCredentialsHelper,
            RawAuthKey::Local { private_key_path } => RawAuthKey::Local {
                private_key_path: private_key_path.clone(),
            },
            RawAuthKey::SystemExecutable => RawAuthKey::SystemExecutable,
            RawAuthKey::Unrecognized => RawAuthKey::Unrecognized,
        }
    }
}

/// A project record as it stands in storage: every field that loading
/// defaults is still an explicit option here, so "absent" and "explicitly
/// set to the default" stay distinguishable at the storage boundary.
#[derive(Debug)]
pub struct RawProject {
    pub id: String,
    pub title: String,
    pub description: Option<String>,
    pub path: String,
    pub preferred_key: Option<RawAuthKey>,
    pub ok_with_force_push: Option<bool>,
    pub api: Option<ApiProject>,
    pub gitbutler_data_last_fetch: Option<FetchResult>,
    pub gitbutler_code_push_state: Option<CodePushState>,
    pub project_data_last_fetch: Option<FetchResult>,
    pub omit_certificate_check: Option<bool>,
    pub snapshot_lines_threshold: Option<usize>,
    pub use_new_locking: Option<bool>,
    pub ignore_project_semaphore: Option<bool>,
}

/// Ghost model of a [`RawProject`].
#[verifier::ext_equal]
pub struct RawProjectV {
    pub id: Seq<char>,
    pub title: Seq<char>,
    pub description: Option<Seq<char>>,
    pub path: Seq<char>,
    pub preferred_key: Option<RawAuthKeyV>,
    pub ok_with_force_push: Option<bool>,
    pub api: Option<ApiProjectV>,
    pub gitbutler_data_last_fetch: Option<FetchResultV>,
    pub gitbutler_code_push_state: Option<CodePushStateV>,
    pub project_data_last_fetch: Option<FetchResultV>,
    pub omit_certificate_check: Option<bool>,
    pub snapshot_lines_threshold: Option<usize>,
    pub use_new_locking: Option<bool>,
    pub ignore_project_semaphore: Option<bool>,
}

impl View for RawProject {
    type V = RawProjectV;

    open spec fn view(&self) -> RawProjectV {
        RawProjectV {
            id: self.id@,
            title: self.title@,
            description: self.description.deep_view(),
            path: self.path@,
            preferred_key: self.preferred_key.deep_view(),
            ok_with_force_push: self.ok_with_force_push,
            api: self.api.deep_view(),
            gitbutler_data_last_fetch: self.gitbutler_data_last_fetch.deep_view(),
            gitbutler_code_push_state: self.gitbutler_code_push_state.deep_view(),
            project_data_last_fetch: self.project_data_last_fetch.deep_view(),
            omit_certificate_check: self.omit_certificate_check,
            snapshot_lines_threshold: self.snapshot_lines_threshold,
            use_new_locking: self.use_new_locking,
            ignore_project_semaphore: self.ignore_project_semaphore,
        }
    }
}

/// The default value of the boolean flags that default to true.
pub fn default_true() -> (r: bool)
    ensures
        r,
{
    true
}

/// How a stored authentication preference resolves on load: a missing or
/// unrecognized tag falls back to the system executable.
pub open spec fn spec_resolve_auth_key(k: Option<RawAuthKeyV>) -> AuthKeyV {
    match k {
        Some(RawAuthKeyV::GitCredentialsHelper) => AuthKeyV::GitCredentialsHelper,
        Some(RawAuthKeyV::Local { private_key_path }) => AuthKeyV::Local { private_key_path },
        Some(RawAuthKeyV::SystemExecutable) => AuthKeyV::SystemExecutable,
        Some(RawAuthKeyV::Unrecognized) => AuthKeyV::SystemExecutable,
        None => AuthKeyV::SystemExecutable,
    }
}

/// What loading a stored record yields: identity and cached state carried
/// over as they stand, every absent defaulted field filled with its
/// documented default.
pub open spec fn spec_load(r: RawProjectV) -> ProjectV {
    ProjectV {
        id: r.id,
        title: r.title,
        description: r.description,
        path: r.path,
        preferred_key: spec_resolve_auth_key(r.preferred_key),
        ok_with_force_push: match r.ok_with_force_push {
            Some(b) => b,
            None => true,
        },
        api: r.api,
        gitbutler_data_last_fetch: r.gitbutler_data_last_fetch,
        gitbutler_code_push_state: r.gitbutler_code_push_state,
        project_data_last_fetch: r.project_data_last_fetch,
        omit_certificate_check: r.omit_certificate_check,
        snapshot_lines_threshold: r.snapshot_lines_threshold,
        use_new_locking: match r.use_new_locking {
            Some(b) => b,
            None => true,
        },
        ignore_project_semaphore: match r.ignore_project_semaphore {
            Some(b) => b,
            None => false,
        },
    }
}

/// What storing a record writes: every field present, the authentication
/// preference under its current tag.
pub open spec fn spec_store(p: ProjectV) -> RawProjectV {
    RawProjectV {
        id: p.id,
        title: p.title,
        description: p.description,
        path: p.path,
        preferred_key: Some(
            match p.preferred_key {
                AuthKeyV::GitCredentialsHelper => RawAuthKeyV::GitCredentialsHelper,
                AuthKeyV::Local { private_key_path } => RawAuthKeyV::Local { private_key_path },
                AuthKeyV::SystemExecutable => RawAuthKeyV::SystemExecutable,
            },
        ),
        ok_with_force_push: Some(p.ok_with_force_push),
        api: p.api,
        gitbutler_data_last_fetch: p.gitbutler_data_last_fetch,
        gitbutler_code_push_state: p.gitbutler_code_push_state,
        project_data_last_fetch: p.project_data_last_fetch,
        omit_certificate_check: p.omit_certificate_check,
        snapshot_lines_threshold: p.snapshot_lines_threshold,
        use_new_locking: Some(p.use_new_locking),
        ignore_project_semaphore: Some(p.ignore_project_semaphore),
    }
}

fn clone_opt_string(s: &Option<String>) -> (r: Option<String>)
    ensures
        r.deep_view() == s.deep_view(),
{
    match s {
        Some(v) => Some(v.clone()),
        None => None,
    }
}

impl Project {
    /// Load a record from its stored shape, filling the documented default
    /// for every absent field and resolving a missing or unrecognized
    /// authentication-preference tag to the system executable.
    pub fn from_raw(raw: RawProject) -> (p: Project)
        ensures
            p@ == spec_load(raw@),
    {
        Project {
            id: raw.id,
            title: raw.title,
            description: raw.description,
            path: raw.path,
            preferred_key: match raw.preferred_key {
                Some(RawAuthKey::GitCredentialsHelper) => AuthKey::GitCredentialsHelper,
                Some(RawAuthKey::Local { private_key_path }) => AuthKey::Local {
                    private_key_path,
                },
                Some(RawAuthKey::SystemExecutable) => AuthKey::SystemExecutable,
                Some(RawAuthKey::Unrecognized) => AuthKey::SystemExecutable,
                None => AuthKey::SystemExecutable,
            },
            ok_with_force_push: match raw.ok_with_force_push {
                Some(b) => b,
                None => default_true(),
            },
            api: raw.api,
            gitbutler_data_last_fetch: raw.gitbutler_data_last_fetch,
            gitbutler_code_push_state: raw.gitbutler_code_push_state,
            project_data_last_fetch: raw.project_data_last_fetch,
            omit_certificate_check: raw.omit_certificate_check,
            snapshot_lines_threshold: raw.snapshot_lines_threshold,
            use_new_locking: match raw.use_new_locking {
                Some(b) => b,
                None => default_true(),
            },
            ignore_project_semaphore: match raw.ignore_project_semaphore {
                Some(b) => b,
                None => false,
            },
        }
    }

    /// Write the record back into its stored shape, with every field
    /// present.
    pub fn to_raw(&self) -> (r: RawProject)
        ensures
            r@ == spec_store(self@),
    {
        RawProject {
            id: self.id.clone(),
            title: self.title.clone(),
            description: clone_opt_string(&self.description),
            path: self.path.clone(),
            preferred_key: Some(
                match &self.preferred_key {
                    AuthKey::GitCredentialsHelper => RawAuthKey::GitCredentialsHelper,
                    AuthKey::Local { private_key_path } => RawAuthKey::Local {
                        private_key_path: private_key_path.clone(),
                    },
                    AuthKey::SystemExecutable => RawAuthKey::SystemExecutable,
                },
            ),
            ok_with_force_push: Some(self.ok_with_force_push),
            api: match &self.api {
                Some(a) => Some(a.clone()),
                None => None,
            },
            gitbutler_data_last_fetch: match &self.gitbutler_data_last_fetch {
                Some(f) => Some(f.clone()),
                None => None,
            },
            gitbutler_code_push_state: match &self.gitbutler_code_push_state {
                Some(s) => Some(s.clone()),
                None => None,
            },
            project_data_last_fetch: match &self.project_data_last_fetch {
                Some(f) => Some(f.clone()),
                None => None,
            },
            omit_certificate_check: self.omit_certificate_check,
            snapshot_lines_threshold: self.snapshot_lines_threshold,
            use_new_locking: Some(self.use_new_locking),
            ignore_project_semaphore: Some(self.ignore_project_semaphore),
        }
    }

    /// True iff a backend linkage exists and its sync flag is set.
    pub fn is_sync_enabled(&self) -> (r: bool)
        ensures
            r == (self@.api matches Some(a) && a.sync),
    {
        match &self.api {
            Some(api) => api.sync,
            None => false,
        }
    }

    /// True iff a backend linkage exists and carries a secondary code
    /// remote URL.
    pub fn has_code_url(&self) -> (r: bool)
        ensures
            r == (self@.api matches Some(a) && a.code_git_url is Some),
    {
        match &self.api {
            Some(api) => api.code_git_url.is_some(),
            None => false,
        }
    }

    /// The directory holding this project's private on-disk state: derived
    /// from the worktree path alone, never stored.
    pub fn gb_dir(&self) -> (r: String)
        ensures
            r@ == self@.path + "/.git/gitbutler"@,
    {
        let mut dir = self.path.clone();
        dir.append("/.git/gitbutler");
        dir
    }

    /// The configured snapshot threshold, or the fixed default of 20 when
    /// none is configured.
    pub fn snapshot_lines_threshold(&self) -> (r: usize)
        ensures
            self@.snapshot_lines_threshold matches Some(v) ==> r == v,
            self@.snapshot_lines_threshold is None ==> r == 20,
    {
        match self.snapshot_lines_threshold {
            Some(v) => v,
            None => 20,
        }
    }

    /// The project's working-directory path.
    pub fn worktree_path(&self) -> (r: String)
        ensures
            r@ == self@.path,
    {
        self.path.clone()
    }
}

/// Law: a stored record that carries no authentication preference, or one
/// whose preference tag is no longer recognized, loads with the
/// system-executable preference.
pub proof fn lemma_load_preferred_key_fallback(r: RawProjectV)
    requires
        r.preferred_key is None || r.preferred_key == Some(RawAuthKeyV::Unrecognized),
    ensures
        spec_load(r).preferred_key == AuthKeyV::SystemExecutable,
{
}

/// Law: a stored record that omits the three defaulted flags loads with
/// force push allowed, the new locking in use, and the process-wide
/// semaphore honored.
pub proof fn lemma_load_flag_defaults(r: RawProjectV)
    requires
        r.ok_with_force_push is None,
        r.use_new_locking is None,
        r.ignore_project_semaphore is None,
    ensures
        spec_load(r).ok_with_force_push == true,
        spec_load(r).use_new_locking == true,
        spec_load(r).ignore_project_semaphore == false,
{
}

/// Law: storing a record and loading it back yields the record unchanged,
/// whatever its fields hold.
pub proof fn lemma_store_load_round_trip(p: ProjectV)
    ensures
        spec_load(spec_store(p)) == p,
{
    assert(spec_load(spec_store(p)) =~= p);
}

} // verus!
