//! CI provider detection and the pipeline-cancellation fallback chain.
//!
//! The chain is a state machine: the controller names the next action (run
//! the script, call a provider, or finish with an outcome) and the host
//! performs it and reports whether it exited successfully.
use vstd::prelude::*;

verus! {

/// A snapshot of the process environment, as key/value pairs.
pub struct EnvSnapshot {
    pub vars: Vec<(String, String)>,
}

/// The value of the first entry whose key is `key`.
pub open spec fn env_value(vars: Seq<(String, String)>, key: Seq<char>) -> Option<Seq<char>>
    decreases vars.len(),
{
    if vars.len() == 0 {
        None
    } else if vars[0].0@ == key {
        Some(vars[0].1@)
    } else {
        env_value(vars.drop_first(), key)
    }
}

/// The view of an optional string.
pub open spec fn opt_view(o: Option<String>) -> Option<Seq<char>> {
    match o {
        Some(s) => Some(s@),
        None => None,
    }
}

impl EnvSnapshot {
    pub fn new() -> (r: EnvSnapshot)
        ensures
            r.vars@.len() == 0,
    {
        EnvSnapshot { vars: Vec::new() }
    }

    /// Adds a variable; an earlier entry with the same key keeps precedence.
    pub fn set(&mut self, key: String, value: String)
        ensures
            final(self).vars@ == old(self).vars@.push((key, value)),
    {
        self.vars.push((key, value));
    }

    /// The value of `key`, if it is set.
    pub fn get(&self, key: &str) -> (r: Option<String>)
        ensures
            opt_view(r) == env_value(self.vars@, key@),
    {
        let k = key.to_owned();
        let mut i: usize = 0;
        assert(self.vars@.subrange(0, self.vars@.len() as int) =~= self.vars@);
        while i < self.vars.len()
            invariant
                i <= self.vars@.len(),
                k@ == key@,
                env_value(self.vars@, key@) == env_value(
                    self.vars@.subrange(i as int, self.vars@.len() as int),
                    key@,
                ),
            decreases self.vars.len() - i,
        {
            let ghost rest = self.vars@.subrange(i as int, self.vars@.len() as int);
            assert(rest[0] == self.vars@[i as int]);
            if self.vars[i].0 == k {
                return Some(self.vars[i].1.clone());
            }
            assert(rest.drop_first() =~= self.vars@.subrange(i + 1, self.vars@.len() as int));
            i = i + 1;
        }
        None
    }
}

/// The CI provider found in the environment, with the identifiers and
/// credentials its cancellation needs (each possibly missing).
pub enum Provider {
    GitHub { run_id: Option<String>, repository: Option<String> },
    GitLab { project_id: Option<String>, pipeline_id: Option<String>, token: Option<String> },
    NoProvider,
}

/// What the cancellation controller reads from the environment.
pub struct CiEnvironment {
    /// Where the cancellation script is looked for.
    pub script_path: String,
    pub provider: Provider,
}

/// The script path: the override variable, else `cancel_pipeline.sh` in the
/// home directory, else in `/tmp`.
pub open spec fn script_path_of(vars: Seq<(String, String)>) -> Seq<char> {
    match env_value(vars, "FLODVIDDAR_CANCEL_SCRIPT"@) {
        Some(p) => p,
        None => match env_value(vars, "HOME"@) {
            Some(h) => h + "/cancel_pipeline.sh"@,
            None => "/tmp"@ + "/cancel_pipeline.sh"@,
        },
    }
}

/// `ci` is what the environment `vars` describes. The GitHub marker is
/// checked first: GitLab is the provider only when it is absent.
pub open spec fn describes(vars: Seq<(String, String)>, ci: CiEnvironment) -> bool {
    &&& ci.script_path@ == script_path_of(vars)
    &&& if env_value(vars, "GITHUB_ACTIONS"@) is Some {
        ci.provider matches Provider::GitHub { run_id, repository } && opt_view(run_id)
            == env_value(vars, "GITHUB_RUN_ID"@) && opt_view(repository) == env_value(
            vars,
            "GITHUB_REPOSITORY"@,
        )
    } else if env_value(vars, "GITLAB_CI"@) is Some {
        ci.provider matches Provider::GitLab { project_id, pipeline_id, token } && opt_view(
            project_id,
        ) == env_value(vars, "CI_PROJECT_ID"@) && opt_view(pipeline_id) == env_value(
            vars,
            "CI_PIPELINE_ID"@,
        ) && opt_view(token) == env_value(vars, "GITLAB_TOKEN"@)
    } else {
        ci.provider is NoProvider
    }
}

/// Reads the cancellation settings from an environment snapshot.
pub fn detect_ci_environment(env: &EnvSnapshot) -> (r: CiEnvironment)
    ensures
        describes(env.vars@, r),
{
    let script_path = match env.get("FLODVIDDAR_CANCEL_SCRIPT") {
        Some(p) => p,
        None => {
            let home = match env.get("HOME") {
                Some(h) => h,
                None => String::from_str("/tmp"),
            };
            home.concat("/cancel_pipeline.sh")
        },
    };
    let provider = if env.get("GITHUB_ACTIONS").is_some() {
        Provider::GitHub { run_id: env.get("GITHUB_RUN_ID"), repository: env.get("GITHUB_REPOSITORY") }
    } else if env.get("GITLAB_CI").is_some() {
        Provider::GitLab {
            project_id: env.get("CI_PROJECT_ID"),
            pipeline_id: env.get("CI_PIPELINE_ID"),
            token: env.get("GITLAB_TOKEN"),
        }
    } else {
        Provider::NoProvider
    };
    CiEnvironment { script_path, provider }
}

/// The strategy that cancelled the pipeline; `NoStrategy` when none did.
#[derive(Clone, Copy, Debug, PartialEq, Eq, Structural)]
pub enum Strategy {
    Script,
    GithubApi,
    GitlabApi,
    NoStrategy,
}

/// The result of one cancellation attempt.
pub struct CancellationOutcome {
    pub strategy_used: Strategy,
    pub succeeded: bool,
    pub detail: String,
}

/// The next thing the controller asks the host to do.
pub enum CancelAction {
    /// Run the script at `path` with `reason` as its argument.
    RunScript { path: String, reason: String },
    /// Cancel a GitHub Actions run.
    CancelGithubRun { run_id: String, repository: String },
    /// Cancel a GitLab pipeline with an access token.
    CancelGitlabPipeline { project_id: String, pipeline_id: String, token: String },
    /// The attempt is over.
    Finish(CancellationOutcome),
}

/// The shape of an action, without its strings.
#[derive(Clone, Copy, Debug, PartialEq, Eq, Structural)]
pub enum Step {
    RunScript,
    CancelGithubRun,
    CancelGitlabPipeline,
    Finish(Strategy, bool),
}

impl CancelAction {
    pub open spec fn step(self) -> Step {
        match self {
            CancelAction::RunScript { .. } => Step::RunScript,
            CancelAction::CancelGithubRun { .. } => Step::CancelGithubRun,
            CancelAction::CancelGitlabPipeline { .. } => Step::CancelGitlabPipeline,
            CancelAction::Finish(o) => Step::Finish(o.strategy_used, o.succeeded),
        }
    }

    /// The shape of this action.
    pub fn kind(&self) -> (r: Step)
        ensures
            r == self.step(),
    {
        match self {
            CancelAction::RunScript { .. } => Step::RunScript,
            CancelAction::CancelGithubRun { .. } => Step::CancelGithubRun,
            CancelAction::CancelGitlabPipeline { .. } => Step::CancelGitlabPipeline,
            CancelAction::Finish(o) => Step::Finish(o.strategy_used, o.succeeded),
        }
    }
}

/// The provider strategy: it applies when its marker was found, and calls out
/// only when every identifier and credential it needs is present.
pub open spec fn provider_step(p: Provider) -> Step {
    match p {
        Provider::GitHub { run_id, repository } => if run_id is Some && repository is Some {
            Step::CancelGithubRun
        } else {
            Step::Finish(Strategy::NoStrategy, false)
        },
        Provider::GitLab { project_id, pipeline_id, token } => if project_id is Some
            && pipeline_id is Some && token is Some {
            Step::CancelGitlabPipeline
        } else {
            Step::Finish(Strategy::NoStrategy, false)
        },
        Provider::NoProvider => Step::Finish(Strategy::NoStrategy, false),
    }
}

/// The first step: the script when it exists, else the provider strategy.
pub open spec fn first_step(ci: CiEnvironment, script_present: bool) -> Step {
    if script_present {
        Step::RunScript
    } else {
        provider_step(ci.provider)
    }
}

/// The step after `attempted` exited with success `ok`.
pub open spec fn next_step(ci: CiEnvironment, attempted: Step, ok: bool) -> Step {
    match attempted {
        Step::RunScript => if ok {
            Step::Finish(Strategy::Script, true)
        } else {
            provider_step(ci.provider)
        },
        Step::CancelGithubRun => if ok {
            Step::Finish(Strategy::GithubApi, true)
        } else {
            Step::Finish(Strategy::NoStrategy, false)
        },
        Step::CancelGitlabPipeline => if ok {
            Step::Finish(Strategy::GitlabApi, true)
        } else {
            Step::Finish(Strategy::NoStrategy, false)
        },
        Step::Finish(s, b) => Step::Finish(s, b),
    }
}

/// The strings of an action come from the environment and the reason.
pub open spec fn carries(ci: CiEnvironment, reason: Seq<char>, a: CancelAction) -> bool {
    match a {
        CancelAction::RunScript { path, reason: r } => path@ == ci.script_path@ && r@ == reason,
        CancelAction::CancelGithubRun { run_id, repository } => ci.provider matches Provider::GitHub {
            run_id: Some(i),
            repository: Some(p),
        } && run_id@ == i@ && repository@ == p@,
        CancelAction::CancelGitlabPipeline { project_id, pipeline_id, token } => ci.provider matches Provider::GitLab {
            project_id: Some(p),
            pipeline_id: Some(q),
            token: Some(t),
        } && project_id@ == p@ && pipeline_id@ == q@ && token@ == t@,
        CancelAction::Finish(_) => true,
    }
}

fn finish(strategy_used: Strategy, succeeded: bool, detail: &str) -> (r: CancelAction)
    ensures
        r matches CancelAction::Finish(o) && o.strategy_used == strategy_used && o.succeeded
            == succeeded && o.detail@ == detail@,
{
    CancelAction::Finish(CancellationOutcome { strategy_used, succeeded, detail: detail.to_owned() })
}

/// The provider strategy for `ci`. A provider with a missing identifier or
/// credential finishes the attempt without calling out.
pub fn provider_action(ci: &CiEnvironment) -> (r: CancelAction)
    ensures
        r.step() == provider_step(ci.provider),
        carries(*ci, Seq::empty(), r),
        ci.provider is GitHub && r is Finish ==> r->Finish_0.detail@
            == "missing GITHUB_RUN_ID or GITHUB_REPOSITORY"@,
        ci.provider is GitLab && r is Finish ==> r->Finish_0.detail@
            == "missing CI_PROJECT_ID, CI_PIPELINE_ID or GITLAB_TOKEN"@,
        ci.provider is NoProvider ==> r->Finish_0.detail@ == "no CI provider detected"@,
{
    match &ci.provider {
        Provider::GitHub { run_id, repository } => match (run_id, repository) {
            (Some(i), Some(p)) => CancelAction::CancelGithubRun {
                run_id: i.clone(),
                repository: p.clone(),
            },
            _ => finish(Strategy::NoStrategy, false, "missing GITHUB_RUN_ID or GITHUB_REPOSITORY"),
        },
        Provider::GitLab { project_id, pipeline_id, token } => match (project_id, pipeline_id, token) {
            (Some(p), Some(q), Some(t)) => CancelAction::CancelGitlabPipeline {
                project_id: p.clone(),
                pipeline_id: q.clone(),
                token: t.clone(),
            },
            _ => finish(
                Strategy::NoStrategy,
                false,
                "missing CI_PROJECT_ID, CI_PIPELINE_ID or GITLAB_TOKEN",
            ),
        },
        Provider::NoProvider => finish(Strategy::NoStrategy, false, "no CI provider detected"),
    }
}

/// Starts a cancellation attempt for `reason`; `script_present` tells whether
/// the cancellation script exists at `ci.script_path`.
pub fn cancel_start(ci: &CiEnvironment, reason: &str, script_present: bool) -> (r: CancelAction)
    ensures
        r.step() == first_step(*ci, script_present),
        carries(*ci, reason@, r),
{
    if script_present {
        CancelAction::RunScript { path: ci.script_path.clone(), reason: reason.to_owned() }
    } else {
        provider_action(ci)
    }
}

/// The action after `attempted` was performed; `exit_ok` tells whether it
/// exited successfully. A finished attempt stays finished.
pub fn cancel_next(ci: &CiEnvironment, attempted: CancelAction, exit_ok: bool) -> (r: CancelAction)
    ensures
        r.step() == next_step(*ci, attempted.step(), exit_ok),
        attempted is Finish ==> r == attempted,
        carries(*ci, Seq::empty(), r),
{
    match attempted {
        CancelAction::RunScript { .. } => if exit_ok {
            finish(Strategy::Script, true, "pipeline cancelled by script")
        } else {
            provider_action(ci)
        },
        CancelAction::CancelGithubRun { .. } => if exit_ok {
            finish(Strategy::GithubApi, true, "GitHub Actions run cancelled")
        } else {
            finish(Strategy::NoStrategy, false, "cancelling the GitHub Actions run failed")
        },
        CancelAction::CancelGitlabPipeline { .. } => if exit_ok {
            finish(Strategy::GitlabApi, true, "GitLab pipeline cancelled")
        } else {
            finish(Strategy::NoStrategy, false, "cancelling the GitLab pipeline failed")
        },
        CancelAction::Finish(o) => CancelAction::Finish(o),
    }
}

/// A finished step names a strategy exactly when it reports success.
pub open spec fn consistent(s: Step) -> bool {
    s matches Step::Finish(st, ok) ==> (ok <==> st != Strategy::NoStrategy)
}

/// Every cancellation attempt concludes with an outcome after at most two
/// outside calls, whatever the environment and whatever those calls return;
/// each outcome on the way reports success exactly when it names a strategy.
pub proof fn cancellation_always_concludes(
    ci: CiEnvironment,
    script_present: bool,
    first_ok: bool,
    second_ok: bool,
)
    ensures
        next_step(ci, next_step(ci, first_step(ci, script_present), first_ok), second_ok) is Finish,
        consistent(first_step(ci, script_present)),
        consistent(next_step(ci, first_step(ci, script_present), first_ok)),
        consistent(
            next_step(ci, next_step(ci, first_step(ci, script_present), first_ok), second_ok),
        ),
{
}

/// The script goes first: when it exists it is the first action, and a
/// provider is tried only after it failed. Without the script the provider
/// strategy is the first action.
pub proof fn script_strategy_goes_first(ci: CiEnvironment, script_present: bool)
    ensures
        script_present ==> first_step(ci, script_present) == Step::RunScript,
        next_step(ci, Step::RunScript, true) == Step::Finish(Strategy::Script, true),
        next_step(ci, Step::RunScript, false) == provider_step(ci.provider),
        !script_present ==> first_step(ci, script_present) == provider_step(ci.provider),
{
}

/// With the GitHub marker set, the GitLab strategy is never attempted, even
/// when the GitLab variables are set too.
pub proof fn github_marker_excludes_gitlab(
    vars: Seq<(String, String)>,
    ci: CiEnvironment,
    script_present: bool,
    script_ok: bool,
)
    requires
        describes(vars, ci),
        env_value(vars, "GITHUB_ACTIONS"@) is Some,
    ensures
        first_step(ci, script_present) != Step::CancelGitlabPipeline,
        next_step(ci, first_step(ci, script_present), script_ok) != Step::CancelGitlabPipeline,
{
}

/// A provider whose identifiers or credentials are incomplete finishes the
/// attempt unsuccessfully, without an outside call.
pub proof fn missing_credentials_make_no_call(ci: CiEnvironment, script_present: bool)
    requires
        match ci.provider {
            Provider::GitHub { run_id, repository } => run_id is None || repository is None,
            Provider::GitLab { project_id, pipeline_id, token } => project_id is None
                || pipeline_id is None || token is None,
            Provider::NoProvider => false,
        },
    ensures
        provider_step(ci.provider) == Step::Finish(Strategy::NoStrategy, false),
        !script_present ==> first_step(ci, script_present) == Step::Finish(
            Strategy::NoStrategy,
            false,
        ),
        next_step(ci, Step::RunScript, false) == Step::Finish(Strategy::NoStrategy, false),
{
}

} // verus!
