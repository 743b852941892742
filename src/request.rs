//! What an onboarding run is asked to do.
use vstd::prelude::*;
use vstd::string::*;
use crate::text::{is_blank, lower_of, lowercase, trim, trim_str};

verus! {

/// Deployment mode of a run.
#[derive(Clone, Copy, Debug, PartialEq, Eq, Structural)]
pub enum Mode {
    /// Bring the stack up and register devices.
    Hybrid,
    /// Bring the stack up only.
    OnPrem,
    /// Register devices against a remote stack without starting one here.
    Pos,
}

/// The mode named by an already trimmed and lower-cased text; anything else
/// than `onprem` or `pos` runs every step.
pub open spec fn mode_of_lowered(l: Seq<char>) -> Mode {
    if l == "onprem"@ {
        Mode::OnPrem
    } else if l == "pos"@ {
        Mode::Pos
    } else {
        Mode::Hybrid
    }
}

pub open spec fn mode_spec(raw: Seq<char>) -> Mode {
    mode_of_lowered(lower_of(trim(raw)))
}

pub open spec fn opt_view(o: Option<String>) -> Option<Seq<char>> {
    match o {
        Some(s) => Some(s@),
        None => None,
    }
}

/// The text of an optional request field that is given and not blank.
pub open spec fn given(o: Option<String>) -> Option<Seq<char>> {
    match o {
        Some(s) => if is_blank(s@) {
            None
        } else {
            Some(s@)
        },
        None => None,
    }
}

/// Input of one onboarding run; it does not change while the run goes on.
pub struct RunRequest {
    /// Source checkout to run from; empty to use the bundled assets.
    pub repo_path: String,
    /// `hybrid`, `onprem` or `pos`.
    pub mode: String,
    pub edge_home: Option<String>,
    pub api_port: Option<u16>,
    pub admin_port: Option<u16>,
    /// Remote API base URL; required in `pos` mode.
    pub api_base_url: Option<String>,
    /// API URL that point-of-sale devices are to use.
    pub edge_api_url_for_pos: String,
    pub admin_email: Option<String>,
    pub admin_password: Option<String>,
    pub device_count: Option<u16>,
    /// Tenant ids to provision; all tenants when absent or empty.
    pub companies: Option<Vec<String>>,
    pub enable_sync: Option<bool>,
    pub cloud_api_url: Option<String>,
    pub edge_sync_key: Option<String>,
    pub edge_node_id: Option<String>,
    /// Rewrite the persisted configuration even when one exists.
    pub update_env: Option<bool>,
}

/// Whether an optional text is given and not blank.
pub fn is_given(o: &Option<String>) -> (r: bool)
    ensures
        r == (given(*o) is Some),
{
    match o {
        Some(s) => !crate::text::is_blank_str(s.as_str()),
        None => false,
    }
}

/// The mode named by an already trimmed and lower-cased text.
pub fn mode_from_lowered(l: &str) -> (r: Mode)
    ensures
        r == mode_of_lowered(l@),
{
    let lv = String::from_str(l);
    let onprem = String::from_str("onprem");
    let pos = String::from_str("pos");
    if lv == onprem {
        Mode::OnPrem
    } else if lv == pos {
        Mode::Pos
    } else {
        Mode::Hybrid
    }
}

/// Recognises the mode of a run.
pub fn parse_mode(raw: &str) -> (r: Mode)
    ensures
        r == mode_spec(raw@),
{
    let t = trim_str(raw);
    let l = lowercase(t.as_str());
    mode_from_lowered(l.as_str())
}

} // verus!
