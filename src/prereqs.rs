//! Layout and tool checks made before a run: where the onboarding assets are
//! and whether the container tooling answers.
use vstd::prelude::*;
use vstd::string::*;

verus! {

/// `base` and `part` joined with a `/`, as a relative path joins.
pub open spec fn join_path_spec(base: Seq<char>, part: Seq<char>) -> Seq<char> {
    if base.len() == 0 {
        part
    } else if base.last() == '/' {
        base + part
    } else {
        base + seq!['/'] + part
    }
}

/// Joins a relative path component onto a base path.
pub fn join_path(base: &str, part: &str) -> (r: String)
    ensures
        r@ == join_path_spec(base@, part@),
{
    let n = base.unicode_len();
    if n == 0 {
        return String::from_str(part);
    }
    let mut out = String::from_str(base);
    if base.get_char(n - 1) != '/' {
        out.append("/");
        proof {
            reveal_strlit("/");
        }
    }
    out.append(part);
    assert(out@ =~= join_path_spec(base@, part@));
    out
}

/// The onboarding runner inside a source checkout.
pub fn repo_script(repo: &str) -> (r: String)
    ensures
        r@ == join_path_spec(join_path_spec(repo@, "scripts"@), "onboard_onprem_pos.py"@),
{
    let d = join_path(repo, "scripts");
    join_path(d.as_str(), "onboard_onprem_pos.py")
}

/// The compose file inside a source checkout.
pub fn repo_compose_file(repo: &str) -> (r: String)
    ensures
        r@ == join_path_spec(join_path_spec(repo@, "deploy"@), "docker-compose.edge.yml"@),
{
    let d = join_path(repo, "deploy");
    join_path(d.as_str(), "docker-compose.edge.yml")
}

/// A source checkout is usable when both its runner and its compose file exist.
pub fn has_repo_layout(script_exists: bool, compose_exists: bool) -> (r: bool)
    ensures
        r == (script_exists && compose_exists),
{
    script_exists && compose_exists
}

/// Whether `docker --version` succeeded, from its exit code (`None` when it
/// could not run or was killed).
pub fn docker_ok(version_exit: Option<i32>) -> (r: bool)
    ensures
        r == (version_exit == Some(0i32)),
{
    match version_exit {
        Some(c) => c == 0,
        None => false,
    }
}

/// Whether `docker compose version` succeeded, from its exit code.
pub fn docker_compose_ok(version_exit: Option<i32>) -> (r: bool)
    ensures
        r == (version_exit == Some(0i32)),
{
    match version_exit {
        Some(c) => c == 0,
        None => false,
    }
}

/// Findings of the prerequisite check.
pub struct Prereqs {
    pub repo_ok: bool,
    pub docker_ok: bool,
    pub docker_compose_ok: bool,
    /// One hint per problem found.
    pub details: Vec<String>,
}

/// The hints of the check, in order: one for a missing runner, one for
/// missing docker, and one for missing compose when docker itself answers.
pub open spec fn hints(repo_ok: bool, docker: bool, compose: bool) -> Seq<Seq<char>> {
    let a: Seq<Seq<char>> = if repo_ok {
        Seq::empty()
    } else {
        seq![HINT_RUNNER@]
    };
    let b: Seq<Seq<char>> = if docker {
        Seq::empty()
    } else {
        seq![HINT_DOCKER@]
    };
    let c: Seq<Seq<char>> = if docker && !compose {
        seq![HINT_COMPOSE@]
    } else {
        Seq::empty()
    };
    a + b + c
}

pub const HINT_RUNNER: &'static str =
    "Missing onboarding runner. Either provide a valid repo path, or reinstall with bundled Edge assets.";

pub const HINT_DOCKER: &'static str =
    "Docker not found in PATH. Install Docker Desktop (Windows/macOS) and ensure `docker --version` works.";

pub const HINT_COMPOSE: &'static str =
    "Docker Compose not available (`docker compose version` failed). Update Docker Desktop.";

/// Gathers the prerequisite findings and their hints.
pub fn check_prereqs(repo_ok: bool, docker: bool, compose: bool) -> (r: Prereqs)
    ensures
        r.repo_ok == repo_ok,
        r.docker_ok == docker,
        r.docker_compose_ok == compose,
        r.details@.map_values(|s: String| s@) == hints(repo_ok, docker, compose),
{
    let mut details: Vec<String> = Vec::new();
    if !repo_ok {
        details.push(String::from_str(HINT_RUNNER));
    }
    if !docker {
        details.push(String::from_str(HINT_DOCKER));
    }
    if docker && !compose {
        details.push(String::from_str(HINT_COMPOSE));
    }
    assert(details@.map_values(|s: String| s@) =~= hints(repo_ok, docker, compose));
    Prereqs { repo_ok, docker_ok: docker, docker_compose_ok: compose, details }
}

} // verus!
