//! The onboarding run as a state machine. The caller performs each requested
//! action (spawning the compose command, an HTTP call, a file write, a sleep)
//! and hands the result back as the next event, together with whether a stop
//! was requested and the seconds elapsed on a monotonic clock; the machine
//! decides what happens next. Every event is a cancellation checkpoint.
use vstd::prelude::*;
use vstd::string::*;
use crate::artifacts::{build_bundle, bundle_matches, ArtifactBundle};
use crate::config::{config_text, resolve, views, EdgeConfig, Resolved};
use crate::envfile::EnvFile;
use crate::naming::{device_code, device_code_prefix};
use crate::provision::{
    company_selected, company_selected_spec, login_token, register_url, registration_parts, Branch, Company, DeviceRecord,
    LoginReply, ProvisionError, Registration,
};
use crate::request::{given, is_given, parse_mode, Mode, RunRequest};
use crate::text::{decimal_string, is_blank_str, trim_end_char_str, trim_str};

verus! {

/// Seconds the stack gets to report healthy.
pub const HEALTH_TIMEOUT_S: u64 = 300;

/// Pause between two health polls, in milliseconds.
pub const HEALTH_POLL_MS: u64 = 2000;

/// How an external command ended.
pub enum ProcessEnd {
    Exited(i32),
    SpawnFailed(String),
}

/// What a health poll saw.
pub enum HealthReply {
    /// A reply; `status` is its `status` field where that is a string, and
    /// `shown` how the field reads in the log.
    Status { status: Option<String>, shown: String },
    /// No usable reply.
    Unreachable(String),
}

/// Why a run failed.
pub enum RunError {
    /// `pos` mode without a remote API base URL.
    MissingApiBaseUrl,
    /// No API URL for the devices.
    MissingPosUrl,
    /// Sync enabled without a sync key.
    MissingSyncKey,
    /// The compose file is not where the run expects it.
    ComposeFileMissing,
    /// A file could not be prepared or written.
    Io(String),
    /// The compose command failed.
    Process(ProcessEnd),
    /// The stack did not become healthy in time; holds the last reason seen.
    HealthTimeout(String),
    /// An API call failed.
    Http(String),
    /// Login or device registration was refused.
    Provision(ProvisionError),
    /// An event that the current step does not wait for.
    Unexpected,
}

/// How a run ended.
pub enum Outcome {
    Completed,
    Failed(RunError),
    Stopped,
}

/// What the caller is to do next.
pub enum Action {
    /// Copy the bundled stack assets into the edge home.
    PrepareBundle,
    /// Read the persisted configuration file and check for the compose file.
    ReadConfig,
    /// Write the configuration file with this text.
    WriteConfig(String),
    /// Bring the stack up; `build` builds from the source checkout, else
    /// images are pulled. `refresh` marks the final restart, whose result is
    /// not checked.
    ComposeUp { build: bool, refresh: bool },
    /// GET this health URL.
    PollHealth(String),
    /// Wait this many milliseconds and report `Woke`.
    Sleep(u64),
    /// POST these credentials to this URL.
    Login { url: String, email: String, password: String },
    /// GET the tenants.
    ListCompanies { url: String, token: String },
    /// GET the branches of a tenant.
    ListBranches { url: String, token: String, company_id: String },
    /// POST a device registration.
    Register { url: String, token: String, company_id: String },
    /// Write the bundle.
    WriteArtifacts(ArtifactBundle),
    /// The run is over.
    Finish(Outcome),
}

/// The result of the last action.
pub enum Event {
    Start,
    BundleReady(Result<(), String>),
    ConfigRead { exists: bool, text: String, compose_exists: bool },
    Written(Result<(), String>),
    ProcessExited(ProcessEnd),
    Health(HealthReply),
    Woke,
    LoggedIn(Result<LoginReply, String>),
    Companies(Result<Vec<Company>, String>),
    /// The branches of the current tenant; the first one is used.
    Branches(Result<Vec<Branch>, String>),
    Registered(Result<Registration, String>),
}

/// Log lines to emit, and the next action.
pub struct Step {
    pub log: Vec<String>,
    pub action: Action,
}

/// Where a run stands: the result it waits for, or `Done`.
#[derive(Clone, Copy, PartialEq, Eq, Structural)]
pub enum Phase {
    Begin,
    PreparingBundle,
    ReadingConfig,
    WritingConfig,
    StartingStack,
    WaitingHealth,
    LoggingIn,
    ListingCompanies,
    ListingBranches,
    Registering,
    WritingArtifacts,
    WritingHardened,
    Refreshing,
    Done,
}

/// Phases in which the run talks to the provisioning API or writes devices.
pub open spec fn provisioning_phase(p: Phase) -> bool {
    p == Phase::LoggingIn || p == Phase::ListingCompanies || p == Phase::ListingBranches || p
        == Phase::Registering || p == Phase::WritingArtifacts
}

/// Actions that provision devices or write their bundle.
pub open spec fn is_provisioning(a: Action) -> bool {
    a is Login || a is ListCompanies || a is ListBranches || a is Register || a is WriteArtifacts
}

/// One onboarding run.
pub struct Onboarding {
    pub req: RunRequest,
    pub mode: Mode,
    /// Run from the source checkout; else from the bundled assets.
    pub use_repo: bool,
    pub hostname: String,
    pub phase: Phase,
    pub outcome: Option<Outcome>,
    pub resolved: Option<Resolved>,
    pub compose_exists: bool,
    pub api_base: String,
    pub health_started_s: u64,
    pub last_health_error: String,
    pub token: String,
    pub companies: Vec<Company>,
    pub company_index: usize,
    pub company_name: String,
    pub prefix: String,
    pub branch: Option<Branch>,
    pub company_id: String,
    pub code: String,
    pub seq: u16,
    pub device_count: u16,
    pub devices: Vec<DeviceRecord>,
}

impl Onboarding {
    pub open spec fn wf(&self) -> bool {
        &&& (self.phase == Phase::Done) == (self.outcome is Some)
        &&& self.mode == Mode::OnPrem ==> !provisioning_phase(self.phase)
        &&& self.mode == Mode::OnPrem ==> self.devices@.len() == 0
        &&& self.mode == Mode::Pos ==> self.phase != Phase::StartingStack && self.phase
            != Phase::Refreshing
        &&& self.device_count >= 1
    }

    /// What every step keeps: the invariant, the mode, that a finishing action
    /// and the final phase go together, that nothing is provisioned in
    /// on-premises mode and that nothing is started in point-of-sale mode.
    pub open spec fn sane(old: Onboarding, new: Onboarding, r: Step) -> bool {
        &&& new.wf()
        &&& new.mode == old.mode
        &&& new.req == old.req
        &&& new.use_repo == old.use_repo
        &&& new.hostname == old.hostname
        &&& (r.action is Finish) == (new.phase == Phase::Done)
        &&& (r.action is Finish ==> new.outcome == Some(r.action->Finish_0))
        &&& new.mode == Mode::OnPrem ==> !is_provisioning(r.action)
        &&& new.mode == Mode::Pos ==> !(r.action is ComposeUp)
    }

    /// A run for a request. `repo_layout_ok` says whether the request's
    /// source checkout holds the stack files; `hostname` names this machine.
    pub fn new(req: RunRequest, repo_layout_ok: bool, hostname: String) -> (r: Onboarding)
        ensures
            r.wf(),
            r.phase == Phase::Begin,
            r.mode == crate::request::mode_spec(req.mode@),
            r.req == req,
            r.use_repo == (!crate::text::is_blank(req.repo_path@) && repo_layout_ok),
            r.device_count == (match req.device_count {
                Some(n) => if n < 1 {
                    1
                } else {
                    n
                },
                None => 1u16,
            }),
            r.devices@.len() == 0,
    {
        let mode = parse_mode(req.mode.as_str());
        let use_repo = !is_blank_str(req.repo_path.as_str()) && repo_layout_ok;
        let count = match req.device_count {
            Some(n) => if n < 1 {
                1
            } else {
                n
            },
            None => 1,
        };
        Onboarding {
            req,
            mode,
            use_repo,
            hostname,
            phase: Phase::Begin,
            outcome: None,
            resolved: None,
            compose_exists: false,
            api_base: String::new(),
            health_started_s: 0,
            last_health_error: String::new(),
            token: String::new(),
            companies: Vec::new(),
            company_index: 0,
            company_name: String::new(),
            prefix: String::new(),
            branch: None,
            company_id: String::new(),
            code: String::new(),
            seq: 1,
            device_count: count,
            devices: Vec::new(),
        }
    }

    fn finish(&mut self, o: Outcome, log: Vec<String>) -> (r: Step)
        requires
            old(self).wf(),
        ensures
            Self::sane(*old(self), *final(self), r),
            final(self).phase == Phase::Done,
            r.action == Action::Finish(o),
            r.log == log,
            final(self).resolved == old(self).resolved,
            final(self).devices@ == old(self).devices@,
            Self::keeps_tenants(*old(self), *final(self)),
            Self::keeps_api(*old(self), *final(self)),
            final(self).compose_exists == old(self).compose_exists,
    {
        self.phase = Phase::Done;
        self.outcome = Some(o);
        let o2 = match &self.outcome {
            Some(x) => copy_outcome(x),
            None => Outcome::Stopped,
        };
        Step { log, action: Action::Finish(o2) }
    }

    fn fail(&mut self, e: RunError) -> (r: Step)
        requires
            old(self).wf(),
        ensures
            Self::sane(*old(self), *final(self), r),
            r.action == Action::Finish(Outcome::Failed(e)),
            final(self).resolved == old(self).resolved,
            final(self).devices@ == old(self).devices@,
            Self::keeps_tenants(*old(self), *final(self)),
            Self::keeps_api(*old(self), *final(self)),
            final(self).compose_exists == old(self).compose_exists,
    {
        self.finish(Outcome::Failed(e), Vec::new())
    }
}

fn copy_end(e: &ProcessEnd) -> (r: ProcessEnd)
    ensures
        r == *e,
{
    match e {
        ProcessEnd::Exited(c) => ProcessEnd::Exited(*c),
        ProcessEnd::SpawnFailed(m) => ProcessEnd::SpawnFailed(m.clone()),
    }
}

fn copy_provision_error(e: &ProvisionError) -> (r: ProvisionError)
    ensures
        r == *e,
{
    match e {
        ProvisionError::MfaRequired => ProvisionError::MfaRequired,
        ProvisionError::NoToken => ProvisionError::NoToken,
        ProvisionError::NoCompanies => ProvisionError::NoCompanies,
        ProvisionError::RegistrationIncomplete(c) => ProvisionError::RegistrationIncomplete(c.clone()),
    }
}

fn copy_error(e: &RunError) -> (r: RunError)
    ensures
        r == *e,
{
    match e {
        RunError::MissingApiBaseUrl => RunError::MissingApiBaseUrl,
        RunError::MissingPosUrl => RunError::MissingPosUrl,
        RunError::MissingSyncKey => RunError::MissingSyncKey,
        RunError::ComposeFileMissing => RunError::ComposeFileMissing,
        RunError::Io(m) => RunError::Io(m.clone()),
        RunError::Process(p) => RunError::Process(copy_end(p)),
        RunError::HealthTimeout(m) => RunError::HealthTimeout(m.clone()),
        RunError::Http(m) => RunError::Http(m.clone()),
        RunError::Provision(p) => RunError::Provision(copy_provision_error(p)),
        RunError::Unexpected => RunError::Unexpected,
    }
}

/// A copy of an outcome.
fn copy_outcome(o: &Outcome) -> (r: Outcome)
    ensures
        r == *o,
{
    match o {
        Outcome::Completed => Outcome::Completed,
        Outcome::Failed(e) => Outcome::Failed(copy_error(e)),
        Outcome::Stopped => Outcome::Stopped,
    }
}

/// Exit code reported when a run ends: zero on completion, one on failure,
/// and a code of its own for a stopped run.
pub open spec fn exit_code_spec(o: Outcome) -> i32 {
    match o {
        Outcome::Completed => 0,
        Outcome::Failed(_) => 1,
        Outcome::Stopped => 2,
    }
}

/// The exit code of the terminal event.
pub fn exit_code(o: &Outcome) -> (r: i32)
    ensures
        r == exit_code_spec(*o),
{
    match o {
        Outcome::Completed => 0,
        Outcome::Failed(_) => 1,
        Outcome::Stopped => 2,
    }
}

/// What a finished compose command means for the run: nothing on success,
/// else the failure.
pub open spec fn process_failure_spec(e: ProcessEnd) -> Option<RunError> {
    match e {
        ProcessEnd::Exited(c) => if c == 0 {
            None
        } else {
            Some(RunError::Process(ProcessEnd::Exited(c)))
        },
        ProcessEnd::SpawnFailed(m) => Some(RunError::Process(ProcessEnd::SpawnFailed(m))),
    }
}

pub fn process_failure(e: ProcessEnd) -> (r: Option<RunError>)
    ensures
        r == process_failure_spec(e),
{
    match e {
        ProcessEnd::Exited(c) => if c == 0 {
            None
        } else {
            Some(RunError::Process(ProcessEnd::Exited(c)))
        },
        ProcessEnd::SpawnFailed(m) => Some(RunError::Process(ProcessEnd::SpawnFailed(m))),
    }
}

/// Whether a health reply reports the stack ready: its status is `ok`.
pub open spec fn healthy_spec(h: HealthReply) -> bool {
    match h {
        HealthReply::Status { status, shown: _ } => match status {
            Some(s) => s@ == "ok"@,
            None => false,
        },
        HealthReply::Unreachable(_) => false,
    }
}

pub fn healthy(h: &HealthReply) -> (r: bool)
    ensures
        r == healthy_spec(*h),
{
    match h {
        HealthReply::Status { status, shown: _ } => match status {
            Some(s) => {
                let ok = String::from_str("ok");
                *s == ok
            },
            None => false,
        },
        HealthReply::Unreachable(_) => false,
    }
}

/// The request's configuration problem, checked before anything runs: a
/// point-of-sale run without remote API, no device URL, or sync without key.
pub open spec fn config_problem(req: RunRequest, mode: Mode) -> Option<RunError> {
    if mode == Mode::Pos && given(req.api_base_url) is None {
        Some(RunError::MissingApiBaseUrl)
    } else if crate::text::trim_end_char(crate::text::trim(req.edge_api_url_for_pos@), '/').len() == 0 {
        Some(RunError::MissingPosUrl)
    } else if req.enable_sync == Some(true) && given(req.edge_sync_key) is None {
        Some(RunError::MissingSyncKey)
    } else {
        None
    }
}

fn trimmed_url(s: &str) -> (r: String)
    ensures
        r@ == crate::text::trim_end_char(crate::text::trim(s@), '/'),
{
    let t = trim_str(s);
    trim_end_char_str(t.as_str(), '/')
}

fn text_of(o: &Option<String>) -> (r: String)
    ensures
        r@ == crate::config::or_default(crate::request::opt_view(*o), Seq::empty()),
{
    match o {
        Some(s) => s.clone(),
        None => String::new(),
    }
}

/// A log of one line.
fn line(s: &str) -> (r: Vec<String>)
    ensures
        r@.len() == 1 && r@[0]@ == s@,
{
    let mut v: Vec<String> = Vec::new();
    v.push(String::from_str(s));
    v
}

fn joined(a: &str, b: &str) -> (r: String)
    ensures
        r@ == a@ + b@,
{
    let mut s = String::from_str(a);
    s.append(b);
    s
}

impl Onboarding {
    fn begin(&mut self) -> (r: Step)
        requires
            old(self).wf(),
            old(self).phase == Phase::Begin,
        ensures
            Self::sane(*old(self), *final(self), r),
            config_problem(old(self).req, old(self).mode) is Some ==> r.action == Action::Finish(
                Outcome::Failed(config_problem(old(self).req, old(self).mode)->Some_0),
            ),
            config_problem(old(self).req, old(self).mode) is None ==> (if old(self).use_repo {
                r.action is ReadConfig && final(self).phase == Phase::ReadingConfig
            } else {
                r.action is PrepareBundle && final(self).phase == Phase::PreparingBundle
            }),
    {
        if self.mode == Mode::Pos && !is_given(&self.req.api_base_url) {
            return self.fail(RunError::MissingApiBaseUrl);
        }
        let pos_url = trimmed_url(self.req.edge_api_url_for_pos.as_str());
        if pos_url.as_str().unicode_len() == 0 {
            return self.fail(RunError::MissingPosUrl);
        }
        if self.req.enable_sync == Some(true) && !is_given(&self.req.edge_sync_key) {
            return self.fail(RunError::MissingSyncKey);
        }
        if self.use_repo {
            self.phase = Phase::ReadingConfig;
            Step { log: line("Starting onboarding..."), action: Action::ReadConfig }
        } else {
            self.phase = Phase::PreparingBundle;
            Step { log: line("Starting onboarding..."), action: Action::PrepareBundle }
        }
    }

    fn after_config(&mut self, now_s: u64) -> (r: Step)
        requires
            old(self).wf(),
            old(self).phase != Phase::Done,
            !provisioning_phase(old(self).phase),
        ensures
            Self::sane(*old(self), *final(self), r),
            final(self).resolved == old(self).resolved,
            final(self).compose_exists == old(self).compose_exists,
            Self::after_config_post(*old(self), now_s, *final(self), r),
    {
        if self.mode == Mode::Pos {
            let mut s = self.enter_health(now_s);
            s.log.insert(0, String::from_str("Skipping stack start (point-of-sale mode)."));
            return s;
        }
        if !self.compose_exists {
            return self.fail(RunError::ComposeFileMissing);
        }
        self.phase = Phase::StartingStack;
        Step {
            log: line("Starting the edge stack..."),
            action: Action::ComposeUp { build: self.use_repo, refresh: false },
        }
    }

    /// Once the configuration is in place: the stack is brought up unless
    /// the run targets a remote stack, whose health is polled right away.
    pub open spec fn after_config_post(s: Onboarding, now_s: u64, new: Onboarding, r: Step) -> bool {
        &&& s.mode == Mode::Pos ==> Self::enter_health_post(s.req, s.resolved, now_s, new, r)
        &&& s.mode != Mode::Pos && s.compose_exists ==> r.action == Action::ComposeUp {
            build: s.use_repo,
            refresh: false,
        } && new.phase == Phase::StartingStack
        &&& s.mode != Mode::Pos && !s.compose_exists ==> r.action == Action::Finish(
            Outcome::Failed(RunError::ComposeFileMissing),
        )
    }

    /// Entering the health wait: the poll goes to `/health` under the API
    /// base, and the wait starts now with no failure seen yet.
    pub open spec fn enter_health_post(
        req: RunRequest,
        res: Option<Resolved>,
        now_s: u64,
        new: Onboarding,
        r: Step,
    ) -> bool {
        &&& r.action is PollHealth
        &&& r.action->PollHealth_0@ == api_base_spec(req, res) + "/health"@
        &&& new.api_base@ == api_base_spec(req, res)
        &&& new.phase == Phase::WaitingHealth
        &&& new.health_started_s == now_s
        &&& new.last_health_error@ == Seq::<char>::empty()
    }

    fn enter_health(&mut self, now_s: u64) -> (r: Step)
        requires
            old(self).wf(),
            old(self).phase != Phase::Done,
            !provisioning_phase(old(self).phase),
        ensures
            Self::sane(*old(self), *final(self), r),
            Self::enter_health_post(old(self).req, old(self).resolved, now_s, *final(self), r),
            final(self).resolved == old(self).resolved,
            final(self).compose_exists == old(self).compose_exists,
    {
        let given_base = trimmed_url(text_of(&self.req.api_base_url).as_str());
        if given_base.as_str().unicode_len() == 0 {
            let port = match &self.resolved {
                Some(r) => r.config.api_port,
                None => crate::config::DEFAULT_API_PORT,
            };
            self.api_base = joined("http://127.0.0.1:", decimal_string(port as u64).as_str());
        } else {
            self.api_base = given_base;
        }
        self.health_started_s = now_s;
        self.last_health_error = String::new();
        self.phase = Phase::WaitingHealth;
        let url = joined(self.api_base.as_str(), "/health");
        let log = line("Waiting for the edge API to report healthy...");
        Step { log, action: Action::PollHealth(url) }
    }

    /// A healthy stack: in on-premises mode the run goes on past the
    /// devices; otherwise the admin logs in with the configured credentials.
    pub open spec fn after_health_post(before: Seq<Seq<char>>, old: Onboarding, new: Onboarding, r: Step) -> bool {
        &&& old.mode == Mode::OnPrem ==> Self::after_devices_post(
            before.push("Skipping device registration (on-premises mode)."@),
            old.devices@,
            old.req,
            old.resolved,
            new,
            r,
        )
        &&& old.mode != Mode::OnPrem && old.resolved is Some ==> r.action is Login
            && r.action->Login_url@ == old.api_base@ + "/auth/login"@
            && r.action->Login_email@ == old.resolved->Some_0.config.bootstrap_admin_email@
            && r.action->Login_password@ == old.resolved->Some_0.config.bootstrap_admin_password@
            && new.phase == Phase::LoggingIn && Self::keeps_api(old, new)
    }

    fn after_health(&mut self, log: Vec<String>) -> (r: Step)
        requires
            old(self).wf(),
            old(self).phase == Phase::WaitingHealth,
        ensures
            Self::sane(*old(self), *final(self), r),
            Self::after_health_post(views(log@), *old(self), *final(self), r),
    {
        let mut log = log;
        let ghost before = views(log@);
        if self.mode == Mode::OnPrem {
            log.push(String::from_str("Skipping device registration (on-premises mode)."));
            assert(views(log@) =~= before.push("Skipping device registration (on-premises mode)."@));
            return self.after_devices(log);
        }
        match &self.resolved {
            Some(res) => {
                let email = res.config.bootstrap_admin_email.clone();
                let password = res.config.bootstrap_admin_password.clone();
                self.phase = Phase::LoggingIn;
                log.push(String::from_str("Authenticating admin..."));
                Step {
                    log,
                    action: Action::Login {
                        url: joined(self.api_base.as_str(), "/auth/login"),
                        email,
                        password,
                    },
                }
            },
            None => self.fail(RunError::Unexpected),
        }
    }

    /// Past the devices: with devices registered, their bundle is written;
    /// with none, the run hardens its configuration.
    pub open spec fn after_devices_post(
        before: Seq<Seq<char>>,
        devs: Seq<DeviceRecord>,
        req: RunRequest,
        res: Option<Resolved>,
        new: Onboarding,
        r: Step,
    ) -> bool {
        if devs.len() > 0 {
            &&& r.action is WriteArtifacts
            &&& bundle_matches(
                r.action->WriteArtifacts_0,
                devs,
                cloud_url_spec(req),
                pos_url_spec(req),
            )
            &&& new.phase == Phase::WritingArtifacts
            &&& new.resolved == res
            &&& views(r.log@) == before
        } else {
            Self::harden_post(before, req, res, new, r)
        }
    }

    fn after_devices(&mut self, log: Vec<String>) -> (r: Step)
        requires
            old(self).wf(),
            old(self).phase != Phase::Done,
        ensures
            Self::sane(*old(self), *final(self), r),
            final(self).devices@ == old(self).devices@,
            Self::keeps_tenants(*old(self), *final(self)),
            Self::keeps_api(*old(self), *final(self)),
            !(r.action is ListBranches),
            Self::after_devices_post(views(log@), old(self).devices@, old(self).req, old(self).resolved, *final(self), r),
    {
        if self.devices.len() > 0 {
            let cloud = trimmed_url(text_of(&self.req.cloud_api_url).as_str());
            let pos_url = trimmed_url(self.req.edge_api_url_for_pos.as_str());
            let bundle = build_bundle(&self.devices, cloud.as_str(), pos_url.as_str());
            self.phase = Phase::WritingArtifacts;
            return Step { log, action: Action::WriteArtifacts(bundle) };
        }
        self.harden_step(log)
    }

    /// Hardening: where this run writes the configuration, it is written
    /// again with both bootstrap switches off and every other value kept;
    /// otherwise the run completes.
    pub open spec fn harden_post(
        before: Seq<Seq<char>>,
        req: RunRequest,
        res: Option<Resolved>,
        new: Onboarding,
        r: Step,
    ) -> bool {
        if res is Some && res->Some_0.should_write {
            &&& r.action is WriteConfig
            &&& new.resolved is Some
            &&& hardened(res->Some_0.config, new.resolved->Some_0.config)
            &&& new.resolved->Some_0.should_write
            &&& new.resolved->Some_0.generated_admin_password == res->Some_0.generated_admin_password
            &&& r.action->WriteConfig_0@ == config_text(new.resolved->Some_0.config)
            &&& new.phase == Phase::WritingHardened
            &&& views(r.log@) == before
        } else {
            &&& r.action == Action::Finish(Outcome::Completed)
            &&& views(r.log@) == before + completion_log(req, res)
        }
    }

    fn harden_step(&mut self, log: Vec<String>) -> (r: Step)
        requires
            old(self).wf(),
            old(self).phase != Phase::Done,
        ensures
            Self::sane(*old(self), *final(self), r),
            final(self).devices@ == old(self).devices@,
            Self::keeps_tenants(*old(self), *final(self)),
            Self::keeps_api(*old(self), *final(self)),
            !(r.action is ListBranches),
            Self::harden_post(views(log@), old(self).req, old(self).resolved, *final(self), r),
    {
        let write = match &self.resolved {
            Some(r) => r.should_write,
            None => false,
        };
        if write {
            match &mut self.resolved {
                Some(r) => {
                    r.config.harden();
                },
                None => {},
            }
            let text = match &self.resolved {
                Some(r) => r.config.render(),
                None => String::new(),
            };
            self.phase = Phase::WritingHardened;
            return Step { log, action: Action::WriteConfig(text) };
        }
        self.complete(log)
    }

    fn complete(&mut self, log: Vec<String>) -> (r: Step)
        requires
            old(self).wf(),
        ensures
            Self::sane(*old(self), *final(self), r),
            final(self).devices@ == old(self).devices@,
            Self::keeps_tenants(*old(self), *final(self)),
            Self::keeps_api(*old(self), *final(self)),
            !(r.action is ListBranches),
            r.action == Action::Finish(Outcome::Completed),
            views(r.log@) == views(log@) + completion_log(old(self).req, old(self).resolved),
    {
        let mut log = log;
        let ghost before = views(log@);
        log.push(String::new());
        log.push(String::from_str("Onboarding complete."));
        let pos_url = trimmed_url(self.req.edge_api_url_for_pos.as_str());
        log.push(joined("- Edge API URL for devices: ", pos_url.as_str()));
        if self.req.enable_sync == Some(true) {
            let cloud = trimmed_url(text_of(&self.req.cloud_api_url).as_str());
            log.push(joined("- Edge to cloud sync target: ", cloud.as_str()));
        } else {
            log.push(String::from_str("- Edge to cloud sync: disabled"));
        }
        let ghost base = views(log@);
        assert(base =~= before + seq![
            Seq::<char>::empty(),
            "Onboarding complete."@,
            "- Edge API URL for devices: "@ + pos_url_spec(self.req),
            sync_line(self.req),
        ]);
        match &self.resolved {
            Some(res) => {
                if res.generated_admin_password {
                    log.push(String::from_str(PASSWORD_NOTICE));
                    log.push(joined("  ", res.config.bootstrap_admin_password.as_str()));
                }
            },
            None => {},
        }
        assert(views(log@) =~= views(log@).subrange(0, base.len() as int) + views(log@).subrange(
            base.len() as int,
            views(log@).len() as int,
        ));
        assert(views(log@) =~= before + completion_log(self.req, self.resolved));
        self.finish(Outcome::Completed, log)
    }
}

/// Log line that announces a generated admin password on the next line.
pub const PASSWORD_NOTICE: &'static str = "- Bootstrap admin password was generated for this run:";

/// The API URL for the devices, trimmed and without trailing slashes.
pub open spec fn pos_url_spec(req: RunRequest) -> Seq<char> {
    crate::text::trim_end_char(crate::text::trim(req.edge_api_url_for_pos@), '/')
}

/// The cloud API URL, trimmed and without trailing slashes; empty if absent.
pub open spec fn cloud_url_spec(req: RunRequest) -> Seq<char> {
    crate::text::trim_end_char(
        crate::text::trim(crate::config::or_default(crate::request::opt_view(req.cloud_api_url), Seq::empty())),
        '/',
    )
}

/// The base URL of the provisioning API: the requested one, trimmed and
/// without trailing slashes, else the local stack on its API port.
pub open spec fn api_base_spec(req: RunRequest, res: Option<Resolved>) -> Seq<char> {
    let given = crate::text::trim_end_char(
        crate::text::trim(crate::config::or_default(crate::request::opt_view(req.api_base_url), Seq::empty())),
        '/',
    );
    if given.len() > 0 {
        given
    } else {
        "http://127.0.0.1:"@ + crate::text::decimal(
            (match res {
                Some(x) => x.config.api_port,
                None => crate::config::DEFAULT_API_PORT,
            }) as nat,
        )
    }
}

/// Why a health poll did not count as healthy.
pub open spec fn health_reason(h: HealthReply) -> Seq<char> {
    match h {
        HealthReply::Status { status: _, shown } => "health status="@ + shown@,
        HealthReply::Unreachable(m) => m@,
    }
}

pub open spec fn sync_line(req: RunRequest) -> Seq<char> {
    if req.enable_sync == Some(true) {
        "- Edge to cloud sync target: "@ + cloud_url_spec(req)
    } else {
        "- Edge to cloud sync: disabled"@
    }
}

/// The closing lines of a completed run. A generated admin password is
/// shown once, on the line after the notice; otherwise it is not shown.
pub open spec fn completion_log(req: RunRequest, res: Option<Resolved>) -> Seq<Seq<char>> {
    let base = seq![
        Seq::<char>::empty(),
        "Onboarding complete."@,
        "- Edge API URL for devices: "@ + pos_url_spec(req),
        sync_line(req),
    ];
    match res {
        Some(x) => if x.generated_admin_password {
            base + seq![PASSWORD_NOTICE@, "  "@ + x.config.bootstrap_admin_password@]
        } else {
            base
        },
        None => base,
    }
}

/// `b` is `a` hardened: both bootstrap switches off, all else the same.
pub open spec fn hardened(a: EdgeConfig, b: EdgeConfig) -> bool {
    &&& b.bootstrap_admin@ == "0"@
    &&& b.bootstrap_admin_reset_password@ == "0"@
    &&& crate::config::same_but_bootstrap(a, b)
}

/// The tenant filter of a request; empty when absent.
pub open spec fn filter_of(req: RunRequest) -> Seq<String> {
    match req.companies {
        Some(f) => f@,
        None => Seq::empty(),
    }
}

/// The id of the first listed branch, if there is a branch.
pub open spec fn first_branch_id(bs: Seq<Branch>) -> Option<String> {
    if bs.len() > 0 {
        bs[0].id
    } else {
        None
    }
}

pub open spec fn branch_id_of(b: Option<Branch>) -> Option<String> {
    match b {
        Some(x) => x.id,
        None => None,
    }
}

/// The name a tenant's devices are prefixed and filed by: its listed name,
/// else its trimmed id.
pub open spec fn tenant_name(c: Company) -> Seq<char> {
    match c.name {
        Some(n) => n@,
        None => crate::text::trim(c.id@),
    }
}

/// The position after `i`.
pub open spec fn next_index(i: usize) -> int {
    if i < usize::MAX {
        i + 1
    } else {
        i as int
    }
}

fn copy_opt(o: &Option<String>) -> (r: Option<String>)
    ensures
        r == *o,
{
    match o {
        Some(s) => Some(s.clone()),
        None => None,
    }
}

impl Onboarding {
    /// The API base and the bearer token stay.
    pub open spec fn keeps_api(old: Onboarding, new: Onboarding) -> bool {
        &&& new.api_base == old.api_base
        &&& new.token == old.token
    }

    /// The tenant list, the position in it and the request stay.
    pub open spec fn keeps_tenants(old: Onboarding, new: Onboarding) -> bool {
        &&& new.companies@ == old.companies@
        &&& new.company_index == old.company_index
        &&& new.req == old.req
    }

    fn on_login(&mut self, reply: Result<LoginReply, String>) -> (r: Step)
        requires
            old(self).wf(),
            old(self).phase == Phase::LoggingIn,
        ensures
            Self::sane(*old(self), *final(self), r),
            Self::login_post(*old(self), reply, *final(self), r),
    {
        match reply {
            Err(m) => self.fail(RunError::Http(m)),
            Ok(l) => match login_token(&l) {
                Err(e) => self.fail(RunError::Provision(e)),
                Ok(t) => {
                    self.token = t;
                    self.phase = Phase::ListingCompanies;
                    Step {
                        log: Vec::new(),
                        action: Action::ListCompanies {
                            url: joined(self.api_base.as_str(), "/companies"),
                            token: self.token.clone(),
                        },
                    }
                },
            },
        }
    }

    /// A login reply: transport errors and refused logins end the run;
    /// otherwise the tenants are listed with the token.
    pub open spec fn login_post(old: Onboarding, reply: Result<LoginReply, String>, new: Onboarding, r: Step) -> bool {
        match reply {
            Err(m) => r.action == Action::Finish(Outcome::Failed(RunError::Http(m))),
            Ok(l) => match crate::provision::login_token_spec(l) {
                Err(e) => r.action == Action::Finish(Outcome::Failed(RunError::Provision(e))),
                Ok(t) => {
                    &&& r.action is ListCompanies
                    &&& r.action->ListCompanies_token@ == t
                    &&& r.action->ListCompanies_url@ == old.api_base@ + "/companies"@
                    &&& new.token@ == t
                    &&& new.api_base == old.api_base
                    &&& new.phase == Phase::ListingCompanies
                },
            },
        }
    }

    fn on_companies(&mut self, reply: Result<Vec<Company>, String>) -> (r: Step)
        requires
            old(self).wf(),
            old(self).phase == Phase::ListingCompanies,
        ensures
            Self::sane(*old(self), *final(self), r),
            reply is Err ==> r.action == Action::Finish(
                Outcome::Failed(RunError::Http(reply->Err_0)),
            ),
            reply is Ok && reply->Ok_0@.len() == 0 ==> r.action == Action::Finish(
                Outcome::Failed(RunError::Provision(ProvisionError::NoCompanies)),
            ),
            reply is Ok && reply->Ok_0@.len() > 0 ==> Self::next_tenant_post(
                Seq::empty(),
                reply->Ok_0@,
                0,
                old(self).devices@,
                *old(self),
                *final(self),
                r,
            ),
    {
        match reply {
            Err(m) => self.fail(RunError::Http(m)),
            Ok(cs) => {
                if cs.len() == 0 {
                    return self.fail(RunError::Provision(ProvisionError::NoCompanies));
                }
                self.companies = cs;
                self.company_index = 0;
                let none: Vec<String> = Vec::new();
                assert(views(none@) =~= Seq::<Seq<char>>::empty());
                self.next_company(none)
            },
        }
    }

    /// Moving on from position `from` of the tenant list `cs`: every tenant
    /// that the filter leaves out is skipped, and the branches of the first
    /// one it selects are asked for, by its trimmed id; with none left the
    /// run goes on past the devices `devs`.
    pub open spec fn next_tenant_post(
        before: Seq<Seq<char>>,
        cs: Seq<Company>,
        from: int,
        devs: Seq<DeviceRecord>,
        old: Onboarding,
        new: Onboarding,
        r: Step,
    ) -> bool {
        &&& new.companies@ == cs
        &&& from <= new.company_index
        &&& forall|j: int|
            from <= j < new.company_index && j < cs.len() ==> !company_selected_spec(
                #[trigger] cs[j].id@,
                filter_of(old.req),
            )
        &&& r.action is ListBranches ==> {
            &&& new.company_index < cs.len()
            &&& company_selected_spec(cs[new.company_index as int].id@, filter_of(old.req))
            &&& new.company_id@ == crate::text::trim(cs[new.company_index as int].id@)
            &&& new.company_name@ == tenant_name(cs[new.company_index as int])
            &&& r.action->ListBranches_company_id == new.company_id
            &&& r.action->ListBranches_url@ == old.api_base@ + "/branches"@
            &&& r.action->ListBranches_token == old.token
            &&& new.phase == Phase::ListingBranches
            &&& new.devices@ == devs
            &&& Self::keeps_api(old, new)
        }
        &&& !(r.action is ListBranches) ==> new.company_index >= cs.len()
            && Self::after_devices_post(before, devs, old.req, old.resolved, new, r)
    }

    fn next_company(&mut self, log: Vec<String>) -> (r: Step)
        requires
            old(self).wf(),
            old(self).phase != Phase::Done,
            old(self).mode != Mode::OnPrem,
        ensures
            Self::sane(*old(self), *final(self), r),
            final(self).devices@ == old(self).devices@,
            Self::next_tenant_post(
                views(log@),
                old(self).companies@,
                old(self).company_index as int,
                old(self).devices@,
                *old(self),
                *final(self),
                r,
            ),
    {
        let filter: Vec<String> = match &self.req.companies {
            Some(f) => clone_all(f),
            None => Vec::new(),
        };
        let mut i: usize = self.company_index;
        while i < self.companies.len() && !company_selected(self.companies[i].id.as_str(), &filter)
            invariant
                old(self).company_index <= i,
                self.companies@ == old(self).companies@,
                self.req == old(self).req,
                filter@ == filter_of(self.req),
                forall|j: int|
                    old(self).company_index <= j < i ==> !company_selected_spec(
                        #[trigger] self.companies@[j].id@,
                        filter@,
                    ),
            decreases self.companies.len() - i,
        {
            i = i + 1;
        }
        if i >= self.companies.len() {
            self.company_index = i;
            return self.after_devices(log);
        }
        self.company_index = i;
        self.company_id = trim_str(self.companies[i].id.as_str());
        self.company_name = match &self.companies[i].name {
            Some(n) => n.clone(),
            None => self.company_id.clone(),
        };
        self.phase = Phase::ListingBranches;
        let mut log = log;
        log.push(joined("Registering devices for ", self.company_name.as_str()));
        Step {
            log,
            action: Action::ListBranches {
                url: joined(self.api_base.as_str(), "/branches"),
                token: self.token.clone(),
                company_id: self.company_id.clone(),
            },
        }
    }

    /// The branches of a tenant: its first device is registered, with code
    /// number 1 under the tenant's prefix and the first branch, if any.
    pub open spec fn branches_post(old: Onboarding, bs: Seq<Branch>, new: Onboarding, r: Step) -> bool {
        &&& new.prefix@ == crate::naming::device_code_prefix_spec(old.company_name@)
        &&& new.seq == 1
        &&& branch_id_of(new.branch) == first_branch_id(bs)
        &&& new.company_id == old.company_id
        &&& new.company_name == old.company_name
        &&& new.devices@ == old.devices@
        &&& Self::keeps_tenants(old, new)
        &&& Self::register_post(new, new, r)
    }

    /// A registration request for device `seq` of the current tenant.
    pub open spec fn register_post(s: Onboarding, new: Onboarding, r: Step) -> bool {
        &&& new.code@ == crate::naming::device_code_spec(s.prefix@, s.seq as nat)
        &&& r.action is Register
        &&& r.action->Register_url@ == crate::provision::register_url_spec(
            s.api_base@,
            s.company_id@,
            new.code@,
            branch_id_of(s.branch),
        )
        &&& r.action->Register_token == s.token
        &&& r.action->Register_company_id == s.company_id
        &&& new.phase == Phase::Registering
    }

    fn on_branches(&mut self, reply: Result<Vec<Branch>, String>) -> (r: Step)
        requires
            old(self).wf(),
            old(self).phase == Phase::ListingBranches,
        ensures
            Self::sane(*old(self), *final(self), r),
            reply is Err ==> r.action == Action::Finish(
                Outcome::Failed(RunError::Http(reply->Err_0)),
            ),
            reply is Ok ==> Self::branches_post(*old(self), reply->Ok_0@, *final(self), r)
                && Self::keeps_api(*old(self), *final(self)),
    {
        match reply {
            Err(m) => self.fail(RunError::Http(m)),
            Ok(bs) => {
                let mut bs = bs;
                let ghost listed = bs@;
                self.branch = if bs.len() > 0 {
                    Some(bs.remove(0))
                } else {
                    None
                };
                self.prefix = device_code_prefix(self.company_name.as_str());
                self.seq = 1;
                self.register_current()
            },
        }
    }

    /// Asks to register device number `seq` of the current tenant.
    fn register_current(&mut self) -> (r: Step)
        requires
            old(self).wf(),
            old(self).phase != Phase::Done,
            old(self).mode != Mode::OnPrem,
        ensures
            Self::sane(*old(self), *final(self), r),
            Self::register_post(*old(self), *final(self), r),
            final(self).devices@ == old(self).devices@,
            final(self).prefix == old(self).prefix,
            final(self).seq == old(self).seq,
            final(self).branch == old(self).branch,
            final(self).company_id == old(self).company_id,
            final(self).company_name == old(self).company_name,
            Self::keeps_tenants(*old(self), *final(self)),
            Self::keeps_api(*old(self), *final(self)),
    {
        self.code = device_code(self.prefix.as_str(), self.seq);
        let bid = match &self.branch {
            Some(b) => copy_opt(&b.id),
            None => None,
        };
        let url = register_url(self.api_base.as_str(), self.company_id.as_str(), self.code.as_str(), &bid);
        self.phase = Phase::Registering;
        Step {
            log: Vec::new(),
            action: Action::Register { url, token: self.token.clone(), company_id: self.company_id.clone() },
        }
    }

    fn on_registered(&mut self, reply: Result<Registration, String>) -> (r: Step)
        requires
            old(self).wf(),
            old(self).phase == Phase::Registering,
        ensures
            Self::sane(*old(self), *final(self), r),
            Self::registered_post(*old(self), reply, *final(self), r),
    {
        match reply {
            Err(m) => self.fail(RunError::Http(m)),
            Ok(reg) => match registration_parts(&reg, self.code.as_str()) {
                Err(e) => self.fail(RunError::Provision(e)),
                Ok((id, token)) => {
                    let (bid, bname) = match &self.branch {
                        Some(b) => (copy_opt(&b.id), copy_opt(&b.name)),
                        None => (None, None),
                    };
                    let ghost before = self.devices@;
                    self.devices.push(
                        DeviceRecord {
                            company_id: self.company_id.clone(),
                            company_name: self.company_name.clone(),
                            branch_id: bid,
                            branch_name: bname,
                            device_code: self.code.clone(),
                            device_id: id,
                            device_token: token,
                        },
                    );
                    assert(self.devices@.subrange(0, before.len() as int) =~= before);
                    let mut log: Vec<String> = Vec::new();
                    log.push(registered_line(self.code.as_str()));
                    assert(views(log@) =~= seq![registered_line_spec(old(self).code@)]);
                    if self.seq < self.device_count {
                        self.seq = self.seq + 1;
                        let mut s = self.register_current();
                        s.log.insert(0, log[0].clone());
                        s
                    } else {
                        self.company_index = if self.company_index < usize::MAX {
                            self.company_index + 1
                        } else {
                            self.company_index
                        };
                        self.next_company(log)
                    }
                },
            },
        }
    }

    /// A registration reply: a transport error or an incomplete reply ends
    /// the run. A complete one adds exactly one device, under the code just
    /// registered, with the reply's id and token; the next device number of
    /// the tenant follows up to the device count, and after the last one the
    /// next selected tenant.
    pub open spec fn registered_post(
        old: Onboarding,
        reply: Result<Registration, String>,
        new: Onboarding,
        r: Step,
    ) -> bool {
        match reply {
            Err(m) => r.action == Action::Finish(Outcome::Failed(RunError::Http(m))),
            Ok(reg) => if crate::provision::registration_ok(reg) {
                &&& new.devices@.len() == old.devices@.len() + 1
                &&& new.devices@.subrange(0, old.devices@.len() as int) == old.devices@
                &&& new.devices@.last().device_code@ == old.code@
                &&& new.devices@.last().company_id@ == old.company_id@
                &&& new.devices@.last().company_name@ == old.company_name@
                &&& new.devices@.last().device_id@ == reg.id->Some_0@
                &&& new.devices@.last().device_token@ == reg.token->Some_0@
                &&& old.seq < old.device_count ==> {
                    &&& new.seq == old.seq + 1
                    &&& new.prefix == old.prefix
                    &&& new.branch == old.branch
                    &&& new.company_id == old.company_id
                    &&& new.company_name == old.company_name
                    &&& Self::keeps_tenants(old, new)
                    &&& Self::keeps_api(old, new)
                    &&& Self::register_post(new, new, r)
                }
                &&& old.seq >= old.device_count ==> Self::next_tenant_post(
                    seq![registered_line_spec(old.code@)],
                    old.companies@,
                    next_index(old.company_index),
                    new.devices@,
                    old,
                    new,
                    r,
                )
            } else {
                r.action is Finish && r.action->Finish_0 is Failed
            },
        }
    }

    fn on_config_read(&mut self, exists: bool, text: String, compose_exists: bool, now_s: u64) -> (r: Step)
        requires
            old(self).wf(),
            old(self).phase == Phase::ReadingConfig,
        ensures
            Self::sane(*old(self), *final(self), r),
            Self::config_read_post(*old(self), exists, text@, compose_exists, now_s, *final(self), r),
    {
        let existing = EnvFile::parse(text.as_str());
        let res = resolve(&self.req, &existing, exists, self.hostname.as_str());
        let write = res.should_write;
        let rendered = res.config.render();
        self.resolved = Some(res);
        self.compose_exists = compose_exists;
        if write {
            self.phase = Phase::WritingConfig;
            Step { log: line("Writing the stack configuration."), action: Action::WriteConfig(rendered) }
        } else {
            let mut s = self.after_config(now_s);
            s.log.insert(0, String::from_str("Reusing the existing stack configuration."));
            s
        }
    }

    /// The persisted file read: the configuration is resolved against it.
    /// Where this run writes the file, the action writes the rendered
    /// configuration; otherwise nothing is written and the stack comes next.
    pub open spec fn config_read_post(
        old: Onboarding,
        exists: bool,
        text: Seq<char>,
        compose_exists: bool,
        now_s: u64,
        new: Onboarding,
        r: Step,
    ) -> bool {
        &&& new.resolved is Some
        &&& crate::config::resolved(
            old.req,
            crate::envfile::parse_env(text),
            exists,
            old.hostname@,
            new.resolved->Some_0,
        )
        &&& new.compose_exists == compose_exists
        &&& new.resolved->Some_0.should_write ==> r.action is WriteConfig
            && r.action->WriteConfig_0@ == config_text(new.resolved->Some_0.config)
            && new.phase == Phase::WritingConfig
        &&& !new.resolved->Some_0.should_write ==> !(r.action is WriteConfig)
            && Self::after_config_post(new, now_s, new, r)
    }

    fn on_health(&mut self, h: HealthReply) -> (r: Step)
        requires
            old(self).wf(),
            old(self).phase == Phase::WaitingHealth,
        ensures
            Self::sane(*old(self), *final(self), r),
            Self::health_post(*old(self), h, *final(self), r),
    {
        if healthy(&h) {
            let log = line("Edge API is healthy.");
            assert(views(log@) =~= seq!["Edge API is healthy."@]);
            return self.after_health(log);
        }
        self.last_health_error = match h {
            HealthReply::Status { status: _, shown } => joined("health status=", shown.as_str()),
            HealthReply::Unreachable(m) => m,
        };
        let mut log: Vec<String> = Vec::new();
        log.push(joined("Waiting for API health... ", self.last_health_error.as_str()));
        Step { log, action: Action::Sleep(HEALTH_POLL_MS) }
    }

    /// A health reply: a healthy one ends the wait; any other records its
    /// reason and waits one poll interval.
    pub open spec fn health_post(old: Onboarding, h: HealthReply, new: Onboarding, r: Step) -> bool {
        &&& healthy_spec(h) ==> Self::after_health_post(seq!["Edge API is healthy."@], old, new, r)
        &&& !healthy_spec(h) ==> {
            &&& r.action == Action::Sleep(HEALTH_POLL_MS)
            &&& new.phase == Phase::WaitingHealth
            &&& new.last_health_error@ == health_reason(h)
            &&& new.health_started_s == old.health_started_s
            &&& new.api_base == old.api_base
            &&& new.resolved == old.resolved
        }
    }

    fn on_woke(&mut self, now_s: u64) -> (r: Step)
        requires
            old(self).wf(),
            old(self).phase == Phase::WaitingHealth,
        ensures
            Self::sane(*old(self), *final(self), r),
            Self::woke_post(*old(self), now_s, *final(self), r),
    {
        if now_s >= self.health_started_s && now_s - self.health_started_s >= HEALTH_TIMEOUT_S {
            let e = self.last_health_error.clone();
            return self.fail(RunError::HealthTimeout(e));
        }
        Step { log: Vec::new(), action: Action::PollHealth(joined(self.api_base.as_str(), "/health")) }
    }

    /// After a pause in the health wait: past the timeout the run fails with
    /// the last reason seen; before it, `/health` is polled again.
    pub open spec fn woke_post(old: Onboarding, now_s: u64, new: Onboarding, r: Step) -> bool {
        if old.health_started_s <= now_s && now_s - old.health_started_s >= HEALTH_TIMEOUT_S {
            r.action == Action::Finish(Outcome::Failed(RunError::HealthTimeout(old.last_health_error)))
        } else {
            &&& r.action is PollHealth
            &&& r.action->PollHealth_0@ == old.api_base@ + "/health"@
            &&& new.phase == Phase::WaitingHealth
            &&& new.api_base == old.api_base
            &&& new.health_started_s == old.health_started_s
            &&& new.last_health_error == old.last_health_error
            &&& new.resolved == old.resolved
        }
    }

    /// What one step does, as far as the callers rely on it.
    pub open spec fn step_post(
        old: Onboarding,
        ev: Event,
        stop: bool,
        now_s: u64,
        new: Onboarding,
        r: Step,
    ) -> bool {
        &&& Self::sane(old, new, r)
        &&& old.phase == Phase::Done ==> r.action == Action::Finish(old.outcome->Some_0)
            && new.outcome == old.outcome && new.phase == Phase::Done
        &&& old.phase != Phase::Done && stop ==> r.action == Action::Finish(Outcome::Stopped)
        &&& old.phase == Phase::Begin && !stop && ev is Start && config_problem(old.req, old.mode) is Some
            ==> r.action == Action::Finish(Outcome::Failed(config_problem(old.req, old.mode)->Some_0))
        &&& old.phase == Phase::Begin && !stop && ev is Start && config_problem(old.req, old.mode) is None
            ==> (if old.use_repo {
            r.action is ReadConfig && new.phase == Phase::ReadingConfig
        } else {
            r.action is PrepareBundle && new.phase == Phase::PreparingBundle
        })
        &&& old.phase == Phase::PreparingBundle && !stop && ev is BundleReady ==> match ev->BundleReady_0 {
            Ok(_) => r.action is ReadConfig && new.phase == Phase::ReadingConfig,
            Err(m) => r.action == Action::Finish(Outcome::Failed(RunError::Io(m))),
        }
        &&& old.phase == Phase::ReadingConfig && !stop && ev is ConfigRead ==> Self::config_read_post(
            old,
            ev->ConfigRead_exists,
            ev->ConfigRead_text@,
            ev->ConfigRead_compose_exists,
            now_s,
            new,
            r,
        )
        &&& (old.phase == Phase::WritingConfig || old.phase == Phase::WritingArtifacts || old.phase
            == Phase::WritingHardened) && !stop && ev is Written && ev->Written_0 is Err
            ==> r.action == Action::Finish(Outcome::Failed(RunError::Io(ev->Written_0->Err_0)))
        &&& old.phase == Phase::WritingConfig && !stop && ev is Written && ev->Written_0 is Ok
            ==> Self::after_config_post(old, now_s, new, r)
        &&& old.phase == Phase::StartingStack && !stop && ev is ProcessExited ==> match process_failure_spec(
            ev->ProcessExited_0,
        ) {
            Some(e) => r.action == Action::Finish(Outcome::Failed(e)),
            None => Self::enter_health_post(old.req, old.resolved, now_s, new, r),
        }
        &&& old.phase == Phase::WaitingHealth && !stop && ev is Health ==> Self::health_post(
            old,
            ev->Health_0,
            new,
            r,
        )
        &&& old.phase == Phase::WaitingHealth && !stop && ev is Woke ==> Self::woke_post(old, now_s, new, r)
        &&& old.phase == Phase::LoggingIn && !stop && ev is LoggedIn ==> Self::login_post(
            old,
            ev->LoggedIn_0,
            new,
            r,
        )
        &&& old.phase == Phase::ListingCompanies && !stop && ev is Companies && ev->Companies_0 is Ok
            && ev->Companies_0->Ok_0@.len() == 0 ==> r.action == Action::Finish(
            Outcome::Failed(RunError::Provision(ProvisionError::NoCompanies)),
        )
        &&& old.phase == Phase::ListingCompanies && !stop && ev is Companies && ev->Companies_0 is Ok
            && ev->Companies_0->Ok_0@.len() > 0 ==> Self::next_tenant_post(
            Seq::empty(),
            ev->Companies_0->Ok_0@,
            0,
            old.devices@,
            old,
            new,
            r,
        )
        &&& old.phase == Phase::ListingBranches && !stop && ev is Branches && ev->Branches_0 is Ok
            ==> Self::branches_post(old, ev->Branches_0->Ok_0@, new, r) && Self::keeps_api(old, new)
        &&& old.phase == Phase::Registering && !stop && ev is Registered ==> Self::registered_post(
            old,
            ev->Registered_0,
            new,
            r,
        )
        &&& old.phase == Phase::WritingArtifacts && !stop && ev is Written && ev->Written_0 is Ok
            ==> Self::harden_post(
            seq!["Wrote the onboarding bundle."@],
            old.req,
            old.resolved,
            new,
            r,
        )
        &&& old.phase == Phase::WritingHardened && !stop && ev is Written && ev->Written_0 is Ok
            ==> (if old.mode != Mode::Pos {
            r.action == Action::ComposeUp { build: false, refresh: true } && new.phase
                == Phase::Refreshing && new.resolved == old.resolved
        } else {
            r.action == Action::Finish(Outcome::Completed) && views(r.log@) == completion_log(
                old.req,
                old.resolved,
            )
        })
        &&& old.phase == Phase::Refreshing && !stop && ev is ProcessExited ==> r.action
            == Action::Finish(Outcome::Completed) && views(r.log@) == completion_log(
            old.req,
            old.resolved,
        )
    }

    /// Advances the run by one event.
    pub fn step(&mut self, ev: Event, stop: bool, now_s: u64) -> (r: Step)
        requires
            old(self).wf(),
        ensures
            Self::step_post(*old(self), ev, stop, now_s, *final(self), r),
    {
        if self.phase == Phase::Done {
            let o = match &self.outcome {
                Some(o) => copy_outcome(o),
                None => Outcome::Stopped,
            };
            return Step { log: Vec::new(), action: Action::Finish(o) };
        }
        if stop {
            return self.finish(Outcome::Stopped, line("Stopped."));
        }
        match ev {
            Event::Start => {
                if self.phase == Phase::Begin {
                    self.begin()
                } else {
                    self.fail(RunError::Unexpected)
                }
            },
            Event::BundleReady(res) => {
                if self.phase != Phase::PreparingBundle {
                    return self.fail(RunError::Unexpected);
                }
                match res {
                    Ok(()) => {
                        self.phase = Phase::ReadingConfig;
                        Step { log: Vec::new(), action: Action::ReadConfig }
                    },
                    Err(m) => self.fail(RunError::Io(m)),
                }
            },
            Event::ConfigRead { exists, text, compose_exists } => {
                if self.phase != Phase::ReadingConfig {
                    return self.fail(RunError::Unexpected);
                }
                self.on_config_read(exists, text, compose_exists, now_s)
            },
            Event::Written(res) => {
                match res {
                    Err(m) => {
                        if self.phase == Phase::WritingConfig || self.phase == Phase::WritingArtifacts
                            || self.phase == Phase::WritingHardened {
                            self.fail(RunError::Io(m))
                        } else {
                            self.fail(RunError::Unexpected)
                        }
                    },
                    Ok(()) => {
                        if self.phase == Phase::WritingConfig {
                            self.after_config(now_s)
                        } else if self.phase == Phase::WritingArtifacts {
                            let log = line("Wrote the onboarding bundle.");
                            assert(views(log@) =~= seq!["Wrote the onboarding bundle."@]);
                            self.harden_step(log)
                        } else if self.phase == Phase::WritingHardened {
                            if self.mode != Mode::Pos {
                                self.phase = Phase::Refreshing;
                                Step {
                                    log: line("Applying the hardened configuration..."),
                                    action: Action::ComposeUp { build: false, refresh: true },
                                }
                            } else {
                                let none: Vec<String> = Vec::new();
                                assert(views(none@) =~= Seq::<Seq<char>>::empty());
                                assert(Seq::<Seq<char>>::empty() + completion_log(self.req, self.resolved)
                                    =~= completion_log(self.req, self.resolved));
                                self.complete(none)
                            }
                        } else {
                            self.fail(RunError::Unexpected)
                        }
                    },
                }
            },
            Event::ProcessExited(end) => {
                if self.phase == Phase::StartingStack {
                    match process_failure(end) {
                        Some(e) => self.fail(e),
                        None => self.enter_health(now_s),
                    }
                } else if self.phase == Phase::Refreshing {
                    let none: Vec<String> = Vec::new();
                    assert(views(none@) =~= Seq::<Seq<char>>::empty());
                    assert(Seq::<Seq<char>>::empty() + completion_log(self.req, self.resolved)
                        =~= completion_log(self.req, self.resolved));
                    self.complete(none)
                } else {
                    self.fail(RunError::Unexpected)
                }
            },
            Event::Health(h) => {
                if self.phase != Phase::WaitingHealth {
                    return self.fail(RunError::Unexpected);
                }
                self.on_health(h)
            },
            Event::Woke => {
                if self.phase != Phase::WaitingHealth {
                    return self.fail(RunError::Unexpected);
                }
                self.on_woke(now_s)
            },
            Event::LoggedIn(res) => {
                if self.phase != Phase::LoggingIn {
                    return self.fail(RunError::Unexpected);
                }
                self.on_login(res)
            },
            Event::Companies(res) => {
                if self.phase != Phase::ListingCompanies {
                    return self.fail(RunError::Unexpected);
                }
                self.on_companies(res)
            },
            Event::Branches(res) => {
                if self.phase != Phase::ListingBranches {
                    return self.fail(RunError::Unexpected);
                }
                self.on_branches(res)
            },
            Event::Registered(res) => {
                if self.phase != Phase::Registering {
                    return self.fail(RunError::Unexpected);
                }
                self.on_registered(res)
            },
        }
    }
}

/// Arguments of `docker` that bring the stack up detached with an explicit
/// env file and compose file: a source checkout builds its images on the
/// first start, bundled assets always pull theirs.
pub open spec fn compose_up_args_spec(
    env_file: Seq<char>,
    compose_file: Seq<char>,
    use_repo: bool,
    refresh: bool,
) -> Seq<Seq<char>> {
    let base = seq!["compose"@, "--env-file"@, env_file, "-f"@, compose_file, "up"@, "-d"@];
    if !use_repo {
        base + seq!["--pull"@, "always"@]
    } else if !refresh {
        base + seq!["--build"@]
    } else {
        base
    }
}

/// The `docker` arguments of a `ComposeUp` action.
pub fn compose_up_args(env_file: &str, compose_file: &str, use_repo: bool, refresh: bool) -> (r: Vec<
    String,
>)
    ensures
        views(r@) == compose_up_args_spec(env_file@, compose_file@, use_repo, refresh),
{
    let mut v: Vec<String> = Vec::new();
    v.push(String::from_str("compose"));
    v.push(String::from_str("--env-file"));
    v.push(String::from_str(env_file));
    v.push(String::from_str("-f"));
    v.push(String::from_str(compose_file));
    v.push(String::from_str("up"));
    v.push(String::from_str("-d"));
    if !use_repo {
        v.push(String::from_str("--pull"));
        v.push(String::from_str("always"));
    } else if !refresh {
        v.push(String::from_str("--build"));
    }
    assert(views(v@) =~= compose_up_args_spec(env_file@, compose_file@, use_repo, refresh));
    v
}

/// The log line of a registered device.
pub open spec fn registered_line_spec(code: Seq<char>) -> Seq<char> {
    "  - "@ + code + " registered"@
}

fn registered_line(code: &str) -> (r: String)
    ensures
        r@ == registered_line_spec(code@),
{
    joined(joined("  - ", code).as_str(), " registered")
}

fn clone_all(v: &Vec<String>) -> (r: Vec<String>)
    ensures
        r@ == v@,
{
    let mut out: Vec<String> = Vec::new();
    let mut i: usize = 0;
    while i < v.len()
        invariant
            i <= v.len(),
            out@ == v@.subrange(0, i as int),
        decreases v.len() - i,
    {
        out.push(v[i].clone());
        i = i + 1;
        assert(out@ =~= v@.subrange(0, i as int));
    }
    assert(v@.subrange(0, v.len() as int) =~= v@);
    out
}

/// Stopping during the health wait: the step that observes the stop ends the
/// run as stopped, and no later step provisions anything or leaves the
/// terminal state.
pub proof fn lemma_stop_during_health_wait(
    s0: Onboarding,
    ev: Event,
    now1: u64,
    s1: Onboarding,
    r1: Step,
    later: Event,
    stop2: bool,
    now2: u64,
    s2: Onboarding,
    r2: Step,
)
    requires
        s0.wf(),
        s0.phase == Phase::WaitingHealth,
        Onboarding::step_post(s0, ev, true, now1, s1, r1),
        Onboarding::step_post(s1, later, stop2, now2, s2, r2),
    ensures
        r1.action == Action::Finish(Outcome::Stopped),
        s1.phase == Phase::Done,
        s1.outcome == Some(Outcome::Stopped),
        r2.action == Action::Finish(Outcome::Stopped),
        !is_provisioning(r2.action),
        s2.phase == Phase::Done,
{
}

/// On-premises runs provision nothing: no step of such a run logs in, lists
/// tenants, registers a device or writes a bundle.
pub proof fn lemma_onprem_never_provisions(
    s0: Onboarding,
    ev: Event,
    stop: bool,
    now: u64,
    s1: Onboarding,
    r: Step,
)
    requires
        s0.wf(),
        s0.mode == Mode::OnPrem,
        Onboarding::step_post(s0, ev, stop, now, s1, r),
    ensures
        !is_provisioning(r.action),
        s1.mode == Mode::OnPrem,
        s1.devices@.len() == 0,
{
}

/// A point-of-sale run without a remote API fails on its first step with a
/// configuration error, before anything is started.
pub proof fn lemma_pos_without_api_fails_first(s0: Onboarding, now: u64, s1: Onboarding, r: Step)
    requires
        s0.wf(),
        s0.phase == Phase::Begin,
        s0.mode == Mode::Pos,
        given(s0.req.api_base_url) is None,
        Onboarding::step_post(s0, Event::Start, false, now, s1, r),
    ensures
        r.action == Action::Finish(Outcome::Failed(RunError::MissingApiBaseUrl)),
        s1.phase == Phase::Done,
{
}

} // verus!
