//! The stack configuration: a typed record, how it is resolved from a run
//! request and the previously persisted file, and how it is written.
use vstd::prelude::*;
use vstd::string::*;
use crate::envfile::{
    join_lines, key_ok, kv_line, lemma_clean_trim, lemma_parse_blank, lemma_parse_comment,
    lemma_parse_kv, lemma_parsed_values_clean, lemma_split_join, lemma_lookup_is_entry, lookup,
    lookup_upto, no_newline, parse_env, parse_upto, clean, EnvFile,
};
use crate::request::{given, opt_view, RunRequest};
use crate::text::{
    decimal, decimal_string, is_ascii_alnum, is_blank, is_blank_str, parse_u16, parse_u16_spec,
    trim, trim_end, trim_end_char, trim_end_char_str, trim_str,
};

verus! {

/// Length of generated database and object-storage passwords.
pub const SECRET_LEN: usize = 24;

/// Length of a generated bootstrap-admin password.
pub const ADMIN_SECRET_LEN: usize = 20;

pub const DEFAULT_API_PORT: u16 = 8001;

pub const DEFAULT_ADMIN_PORT: u16 = 3000;

/// Values of the stack configuration file, one field per key.
pub struct EdgeConfig {
    pub api_port: u16,
    pub admin_port: u16,
    pub postgres_db: String,
    pub postgres_user: String,
    pub postgres_password: String,
    pub app_db_user: String,
    pub app_db_password: String,
    /// `1` while the stack is to create the bootstrap admin on start.
    pub bootstrap_admin: String,
    pub bootstrap_admin_email: String,
    pub bootstrap_admin_password: String,
    pub bootstrap_admin_reset_password: String,
    pub minio_root_user: String,
    pub minio_root_password: String,
    pub s3_bucket: String,
    pub sync_target_url: String,
    pub sync_key: String,
    pub sync_node_id: String,
}

/// The lines of the written file, in their fixed order.
pub open spec fn config_lines(c: EdgeConfig) -> Seq<Seq<char>> {
    seq![
        "# Auto-generated edge stack configuration"@,
        "# Do not commit this file (contains secrets)."@,
        Seq::empty(),
        "# Edge service ports"@,
        kv_line("API_PORT"@, decimal(c.api_port as nat)),
        kv_line("ADMIN_PORT"@, decimal(c.admin_port as nat)),
        Seq::empty(),
        "# Postgres"@,
        kv_line("POSTGRES_DB"@, c.postgres_db@),
        kv_line("POSTGRES_USER"@, c.postgres_user@),
        kv_line("POSTGRES_PASSWORD"@, c.postgres_password@),
        Seq::empty(),
        "# App DB role"@,
        kv_line("APP_DB_USER"@, c.app_db_user@),
        kv_line("APP_DB_PASSWORD"@, c.app_db_password@),
        Seq::empty(),
        "# Bootstrap admin (switched off after provisioning)"@,
        kv_line("BOOTSTRAP_ADMIN"@, c.bootstrap_admin@),
        kv_line("BOOTSTRAP_ADMIN_EMAIL"@, c.bootstrap_admin_email@),
        kv_line("BOOTSTRAP_ADMIN_PASSWORD"@, c.bootstrap_admin_password@),
        kv_line("BOOTSTRAP_ADMIN_RESET_PASSWORD"@, c.bootstrap_admin_reset_password@),
        Seq::empty(),
        "# MinIO / attachments"@,
        kv_line("MINIO_ROOT_USER"@, c.minio_root_user@),
        kv_line("MINIO_ROOT_PASSWORD"@, c.minio_root_password@),
        kv_line("S3_BUCKET"@, c.s3_bucket@),
        Seq::empty(),
        "# Edge -> cloud sync (optional)"@,
        kv_line("EDGE_SYNC_TARGET_URL"@, c.sync_target_url@),
        kv_line("EDGE_SYNC_KEY"@, c.sync_key@),
        kv_line("EDGE_SYNC_NODE_ID"@, c.sync_node_id@),
        Seq::empty(),
    ]
}

/// The text of the written file.
pub open spec fn config_text(c: EdgeConfig) -> Seq<char> {
    join_lines(config_lines(c))
}

/// What reading gives back for a written value.
pub open spec fn read_back(v: Seq<char>) -> Seq<char> {
    trim(trim_end(v))
}

/// The entries that reading the written file gives, in file order.
pub open spec fn config_entries_read(c: EdgeConfig) -> Seq<(Seq<char>, Seq<char>)> {
    seq![
        ("API_PORT"@, read_back(decimal(c.api_port as nat))),
        ("ADMIN_PORT"@, read_back(decimal(c.admin_port as nat))),
        ("POSTGRES_DB"@, read_back(c.postgres_db@)),
        ("POSTGRES_USER"@, read_back(c.postgres_user@)),
        ("POSTGRES_PASSWORD"@, read_back(c.postgres_password@)),
        ("APP_DB_USER"@, read_back(c.app_db_user@)),
        ("APP_DB_PASSWORD"@, read_back(c.app_db_password@)),
        ("BOOTSTRAP_ADMIN"@, read_back(c.bootstrap_admin@)),
        ("BOOTSTRAP_ADMIN_EMAIL"@, read_back(c.bootstrap_admin_email@)),
        ("BOOTSTRAP_ADMIN_PASSWORD"@, read_back(c.bootstrap_admin_password@)),
        ("BOOTSTRAP_ADMIN_RESET_PASSWORD"@, read_back(c.bootstrap_admin_reset_password@)),
        ("MINIO_ROOT_USER"@, read_back(c.minio_root_user@)),
        ("MINIO_ROOT_PASSWORD"@, read_back(c.minio_root_password@)),
        ("S3_BUCKET"@, read_back(c.s3_bucket@)),
        ("EDGE_SYNC_TARGET_URL"@, read_back(c.sync_target_url@)),
        ("EDGE_SYNC_KEY"@, read_back(c.sync_key@)),
        ("EDGE_SYNC_NODE_ID"@, read_back(c.sync_node_id@)),
    ]
}

/// No value of the record holds a line break.
pub open spec fn config_values_ok(c: EdgeConfig) -> bool {
    &&& no_newline(c.postgres_db@)
    &&& no_newline(c.postgres_user@)
    &&& no_newline(c.postgres_password@)
    &&& no_newline(c.app_db_user@)
    &&& no_newline(c.app_db_password@)
    &&& no_newline(c.bootstrap_admin@)
    &&& no_newline(c.bootstrap_admin_email@)
    &&& no_newline(c.bootstrap_admin_password@)
    &&& no_newline(c.bootstrap_admin_reset_password@)
    &&& no_newline(c.minio_root_user@)
    &&& no_newline(c.minio_root_password@)
    &&& no_newline(c.s3_bucket@)
    &&& no_newline(c.sync_target_url@)
    &&& no_newline(c.sync_key@)
    &&& no_newline(c.sync_node_id@)
}

proof fn lemma_kv_no_newline(k: Seq<char>, v: Seq<char>)
    requires
        key_ok(k),
        no_newline(v),
    ensures
        no_newline(kv_line(k, v)),
{
    let s = kv_line(k, v);
    assert forall|i: int| 0 <= i < s.len() implies #[trigger] s[i] != '\n' by {
        if i < k.len() {
            assert(s[i] == k[i]);
        } else if i > k.len() {
            assert(s[i] == v[i - k.len() - 1]);
        }
    }
}

proof fn lemma_decimal_no_newline(n: nat)
    ensures
        no_newline(decimal(n)),
{
    crate::text::lemma_decimal_value(n);
}

proof fn lemma_keys_ok()
    ensures
        key_ok("API_PORT"@),
        key_ok("ADMIN_PORT"@),
        key_ok("POSTGRES_DB"@),
        key_ok("POSTGRES_USER"@),
        key_ok("POSTGRES_PASSWORD"@),
        key_ok("APP_DB_USER"@),
        key_ok("APP_DB_PASSWORD"@),
        key_ok("BOOTSTRAP_ADMIN"@),
        key_ok("BOOTSTRAP_ADMIN_EMAIL"@),
        key_ok("BOOTSTRAP_ADMIN_PASSWORD"@),
        key_ok("BOOTSTRAP_ADMIN_RESET_PASSWORD"@),
        key_ok("MINIO_ROOT_USER"@),
        key_ok("MINIO_ROOT_PASSWORD"@),
        key_ok("S3_BUCKET"@),
        key_ok("EDGE_SYNC_TARGET_URL"@),
        key_ok("EDGE_SYNC_KEY"@),
        key_ok("EDGE_SYNC_NODE_ID"@),
{
    reveal_strlit("API_PORT");
    reveal_strlit("ADMIN_PORT");
    reveal_strlit("POSTGRES_DB");
    reveal_strlit("POSTGRES_USER");
    reveal_strlit("POSTGRES_PASSWORD");
    reveal_strlit("APP_DB_USER");
    reveal_strlit("APP_DB_PASSWORD");
    reveal_strlit("BOOTSTRAP_ADMIN");
    reveal_strlit("BOOTSTRAP_ADMIN_EMAIL");
    reveal_strlit("BOOTSTRAP_ADMIN_PASSWORD");
    reveal_strlit("BOOTSTRAP_ADMIN_RESET_PASSWORD");
    reveal_strlit("MINIO_ROOT_USER");
    reveal_strlit("MINIO_ROOT_PASSWORD");
    reveal_strlit("S3_BUCKET");
    reveal_strlit("EDGE_SYNC_TARGET_URL");
    reveal_strlit("EDGE_SYNC_KEY");
    reveal_strlit("EDGE_SYNC_NODE_ID");
}

proof fn lemma_comments()
    ensures
        no_newline("# Auto-generated edge stack configuration"@),
        no_newline("# Do not commit this file (contains secrets)."@),
        no_newline("# Edge service ports"@),
        no_newline("# Postgres"@),
        no_newline("# App DB role"@),
        no_newline("# Bootstrap admin (switched off after provisioning)"@),
        no_newline("# MinIO / attachments"@),
        no_newline("# Edge -> cloud sync (optional)"@),
        parse_line_none("# Auto-generated edge stack configuration"@),
        parse_line_none("# Do not commit this file (contains secrets)."@),
        parse_line_none("# Edge service ports"@),
        parse_line_none("# Postgres"@),
        parse_line_none("# App DB role"@),
        parse_line_none("# Bootstrap admin (switched off after provisioning)"@),
        parse_line_none("# MinIO / attachments"@),
        parse_line_none("# Edge -> cloud sync (optional)"@),
{
    reveal_strlit("# Auto-generated edge stack configuration");
    reveal_strlit("# Do not commit this file (contains secrets).");
    reveal_strlit("# Edge service ports");
    reveal_strlit("# Postgres");
    reveal_strlit("# App DB role");
    reveal_strlit("# Bootstrap admin (switched off after provisioning)");
    reveal_strlit("# MinIO / attachments");
    reveal_strlit("# Edge -> cloud sync (optional)");
    lemma_parse_comment("# Auto-generated edge stack configuration"@);
    lemma_parse_comment("# Do not commit this file (contains secrets)."@);
    lemma_parse_comment("# Edge service ports"@);
    lemma_parse_comment("# Postgres"@);
    lemma_parse_comment("# App DB role"@);
    lemma_parse_comment("# Bootstrap admin (switched off after provisioning)"@);
    lemma_parse_comment("# MinIO / attachments"@);
    lemma_parse_comment("# Edge -> cloud sync (optional)"@);
}

/// Reading a written configuration back gives every key once, in the written
/// order, with its value as written up to surrounding whitespace.
pub proof fn lemma_config_round_trip(c: EdgeConfig)
    requires
        config_values_ok(c),
    ensures
        parse_env(config_text(c)) == config_entries_read(c),
{
    lemma_keys_ok();
    lemma_comments();
    lemma_parse_blank();
    lemma_decimal_no_newline(c.api_port as nat);
    lemma_decimal_no_newline(c.admin_port as nat);
    lemma_kv_no_newline("API_PORT"@, decimal(c.api_port as nat));
    lemma_kv_no_newline("ADMIN_PORT"@, decimal(c.admin_port as nat));
    lemma_kv_no_newline("POSTGRES_DB"@, c.postgres_db@);
    lemma_kv_no_newline("POSTGRES_USER"@, c.postgres_user@);
    lemma_kv_no_newline("POSTGRES_PASSWORD"@, c.postgres_password@);
    lemma_kv_no_newline("APP_DB_USER"@, c.app_db_user@);
    lemma_kv_no_newline("APP_DB_PASSWORD"@, c.app_db_password@);
    lemma_kv_no_newline("BOOTSTRAP_ADMIN"@, c.bootstrap_admin@);
    lemma_kv_no_newline("BOOTSTRAP_ADMIN_EMAIL"@, c.bootstrap_admin_email@);
    lemma_kv_no_newline("BOOTSTRAP_ADMIN_PASSWORD"@, c.bootstrap_admin_password@);
    lemma_kv_no_newline("BOOTSTRAP_ADMIN_RESET_PASSWORD"@, c.bootstrap_admin_reset_password@);
    lemma_kv_no_newline("MINIO_ROOT_USER"@, c.minio_root_user@);
    lemma_kv_no_newline("MINIO_ROOT_PASSWORD"@, c.minio_root_password@);
    lemma_kv_no_newline("S3_BUCKET"@, c.s3_bucket@);
    lemma_kv_no_newline("EDGE_SYNC_TARGET_URL"@, c.sync_target_url@);
    lemma_kv_no_newline("EDGE_SYNC_KEY"@, c.sync_key@);
    lemma_kv_no_newline("EDGE_SYNC_NODE_ID"@, c.sync_node_id@);
    lemma_parse_kv("API_PORT"@, decimal(c.api_port as nat));
    lemma_parse_kv("ADMIN_PORT"@, decimal(c.admin_port as nat));
    lemma_parse_kv("POSTGRES_DB"@, c.postgres_db@);
    lemma_parse_kv("POSTGRES_USER"@, c.postgres_user@);
    lemma_parse_kv("POSTGRES_PASSWORD"@, c.postgres_password@);
    lemma_parse_kv("APP_DB_USER"@, c.app_db_user@);
    lemma_parse_kv("APP_DB_PASSWORD"@, c.app_db_password@);
    lemma_parse_kv("BOOTSTRAP_ADMIN"@, c.bootstrap_admin@);
    lemma_parse_kv("BOOTSTRAP_ADMIN_EMAIL"@, c.bootstrap_admin_email@);
    lemma_parse_kv("BOOTSTRAP_ADMIN_PASSWORD"@, c.bootstrap_admin_password@);
    lemma_parse_kv("BOOTSTRAP_ADMIN_RESET_PASSWORD"@, c.bootstrap_admin_reset_password@);
    lemma_parse_kv("MINIO_ROOT_USER"@, c.minio_root_user@);
    lemma_parse_kv("MINIO_ROOT_PASSWORD"@, c.minio_root_password@);
    lemma_parse_kv("S3_BUCKET"@, c.s3_bucket@);
    lemma_parse_kv("EDGE_SYNC_TARGET_URL"@, c.sync_target_url@);
    lemma_parse_kv("EDGE_SYNC_KEY"@, c.sync_key@);
    lemma_parse_kv("EDGE_SYNC_NODE_ID"@, c.sync_node_id@);
    let ls = config_lines(c);
    assert(no_newline(Seq::<char>::empty()));
    assert forall|i: int| 0 <= i < ls.len() implies no_newline(#[trigger] ls[i]) by {}
    lemma_split_join(ls);
    reveal_with_fuel(parse_upto, 33);
    assert(parse_upto(ls, 32) =~= config_entries_read(c));
}

/// The value, if given, else `d`.
pub open spec fn or_default(e: Option<Seq<char>>, d: Seq<char>) -> Seq<char> {
    match e {
        Some(v) => v,
        None => d,
    }
}

/// The requested port, else the persisted one where it parses, else `d`.
pub open spec fn port_spec(req: Option<u16>, existing: Option<Seq<char>>, d: u16) -> u16 {
    match req {
        Some(p) => p,
        None => match existing {
            Some(t) => match parse_u16_spec(t) {
                Some(p) => p,
                None => d,
            },
            None => d,
        },
    }
}

/// A freshly generated secret: `len` ASCII letters and digits.
pub open spec fn fresh_secret(s: Seq<char>, len: nat) -> bool {
    s.len() == len && forall|i: int| 0 <= i < s.len() ==> is_ascii_alnum(#[trigger] s[i])
}

/// Whether a persisted value is set: present and not blank.
pub open spec fn is_set(e: Option<Seq<char>>) -> bool {
    e is Some && !is_blank(e->Some_0)
}

/// A secret keeps its persisted value where one is set, and is generated
/// otherwise.
pub open spec fn kept_secret(existing: Option<Seq<char>>, out: Seq<char>, len: nat) -> bool {
    if is_set(existing) {
        out == existing->Some_0
    } else {
        fresh_secret(out, len)
    }
}

/// The request's value when given and not blank, else the persisted value when
/// present, else `d`.
pub open spec fn first_given(req: Option<String>, existing: Option<Seq<char>>, d: Seq<char>) -> Seq<
    char,
> {
    match given(req) {
        Some(v) => v,
        None => or_default(existing, d),
    }
}

/// The admin password before generation: requested, else persisted, else empty.
pub open spec fn admin_password_base(req: RunRequest, existing: Seq<(Seq<char>, Seq<char>)>) -> Seq<
    char,
> {
    first_given(req.admin_password, lookup(existing, "BOOTSTRAP_ADMIN_PASSWORD"@), Seq::empty())
}

pub open spec fn sync_enabled(req: RunRequest) -> bool {
    req.enable_sync == Some(true)
}

/// Whether the configuration file is (re)written on this run.
pub open spec fn should_write_spec(req: RunRequest, env_exists: bool) -> bool {
    !env_exists || req.update_env == Some(true)
}

/// Outcome of resolving the configuration for a run.
pub struct Resolved {
    pub config: EdgeConfig,
    /// The file is written on this run: it is missing or a rewrite was asked for.
    pub should_write: bool,
    /// The admin password was generated on this run.
    pub generated_admin_password: bool,
}

/// For every key: the request's value, else the persisted value, else a fixed
/// default; secrets generated only where none is persisted.
pub open spec fn resolved(
    req: RunRequest,
    existing: Seq<(Seq<char>, Seq<char>)>,
    env_exists: bool,
    hostname: Seq<char>,
    r: Resolved,
) -> bool {
    let c = r.config;
    let sw = should_write_spec(req, env_exists);
    let base = admin_password_base(req, existing);
    &&& r.should_write == sw
    &&& c.api_port == port_spec(req.api_port, lookup(existing, "API_PORT"@), DEFAULT_API_PORT)
    &&& c.admin_port == port_spec(
        req.admin_port,
        lookup(existing, "ADMIN_PORT"@),
        DEFAULT_ADMIN_PORT,
    )
    &&& c.postgres_db@ == or_default(lookup(existing, "POSTGRES_DB"@), "ahtrading"@)
    &&& c.postgres_user@ == or_default(lookup(existing, "POSTGRES_USER"@), "ahtrading"@)
    &&& kept_secret(
        lookup(existing, "POSTGRES_PASSWORD"@),
        c.postgres_password@,
        SECRET_LEN as nat,
    )
    &&& c.app_db_user@ == or_default(lookup(existing, "APP_DB_USER"@), "ahapp"@)
    &&& kept_secret(lookup(existing, "APP_DB_PASSWORD"@), c.app_db_password@, SECRET_LEN as nat)
    &&& c.bootstrap_admin@ == (if sw {
        "1"@
    } else {
        or_default(lookup(existing, "BOOTSTRAP_ADMIN"@), "0"@)
    })
    &&& c.bootstrap_admin_email@ == first_given(
        req.admin_email,
        lookup(existing, "BOOTSTRAP_ADMIN_EMAIL"@),
        "admin@ahtrading.local"@,
    )
    &&& r.generated_admin_password == is_blank(base)
    &&& (if is_blank(base) {
        fresh_secret(c.bootstrap_admin_password@, ADMIN_SECRET_LEN as nat)
    } else {
        c.bootstrap_admin_password@ == base
    })
    &&& c.bootstrap_admin_reset_password@ == (if sw {
        "1"@
    } else {
        or_default(lookup(existing, "BOOTSTRAP_ADMIN_RESET_PASSWORD"@), "0"@)
    })
    &&& c.minio_root_user@ == or_default(lookup(existing, "MINIO_ROOT_USER"@), "minioadmin"@)
    &&& kept_secret(
        lookup(existing, "MINIO_ROOT_PASSWORD"@),
        c.minio_root_password@,
        SECRET_LEN as nat,
    )
    &&& c.s3_bucket@ == or_default(lookup(existing, "S3_BUCKET"@), "attachments"@)
    &&& c.sync_target_url@ == (if sync_enabled(req) {
        trim_end_char(trim(or_default(opt_view(req.cloud_api_url), Seq::empty())), '/')
    } else {
        Seq::empty()
    })
    &&& c.sync_key@ == (if sync_enabled(req) {
        or_default(opt_view(req.edge_sync_key), Seq::empty())
    } else {
        Seq::empty()
    })
    &&& c.sync_node_id@ == first_given(
        req.edge_node_id,
        lookup(existing, "EDGE_SYNC_NODE_ID"@),
        hostname,
    )
}

/// Relies on `rand::thread_rng` and `Alphanumeric::sample_string` of rand:
/// `len` characters, each an ASCII letter or digit.
#[verifier::external_body]
fn rand_secret(len: usize) -> (r: String)
    ensures
        fresh_secret(r@, len as nat),
{
    rand::distributions::DistString::sample_string(
        &rand::distributions::Alphanumeric,
        &mut rand::thread_rng(),
        len,
    )
}

fn existing_or(env: &EnvFile, key: &str, d: &str) -> (r: String)
    requires
        env.wf(),
    ensures
        r@ == or_default(lookup(env@, key@), d@),
{
    match env.get(key) {
        Some(v) => v,
        None => String::from_str(d),
    }
}

fn port_or(req: Option<u16>, env: &EnvFile, key: &str, d: u16) -> (r: u16)
    requires
        env.wf(),
    ensures
        r == port_spec(req, lookup(env@, key@), d),
{
    match req {
        Some(p) => p,
        None => match env.get(key) {
            Some(v) => match parse_u16(v.as_str()) {
                Some(p) => p,
                None => d,
            },
            None => d,
        },
    }
}

fn kept_or_fresh(env: &EnvFile, key: &str, len: usize) -> (r: String)
    requires
        env.wf(),
    ensures
        kept_secret(lookup(env@, key@), r@, len as nat),
{
    match env.get(key) {
        Some(v) => {
            if !is_blank_str(v.as_str()) {
                v
            } else {
                rand_secret(len)
            }
        },
        None => rand_secret(len),
    }
}

fn first_given_or(req: &Option<String>, env: &EnvFile, key: &str, d: &str) -> (r: String)
    requires
        env.wf(),
    ensures
        r@ == first_given(*req, lookup(env@, key@), d@),
{
    match req {
        Some(s) => {
            if !is_blank_str(s.as_str()) {
                return s.clone();
            }
        },
        None => {},
    }
    existing_or(env, key, d)
}

fn text_or_empty(o: &Option<String>) -> (r: String)
    ensures
        r@ == or_default(opt_view(*o), Seq::empty()),
{
    match o {
        Some(s) => s.clone(),
        None => String::new(),
    }
}

/// Resolves the configuration of a run from its request, the entries of the
/// persisted file (empty where there is none), whether that file exists, and
/// the machine's host name.
pub fn resolve(req: &RunRequest, existing: &EnvFile, env_exists: bool, hostname: &str) -> (r: Resolved)
    requires
        existing.wf(),
    ensures
        resolved(*req, existing@, env_exists, hostname@, r),
{
    let should_write = !env_exists || req.update_env == Some(true);
    let sync = req.enable_sync == Some(true);
    let mut admin_password = first_given_or(&req.admin_password, existing, "BOOTSTRAP_ADMIN_PASSWORD", "");
    assert(""@ == Seq::<char>::empty()) by {
        reveal_strlit("");
    }
    let generated = is_blank_str(admin_password.as_str());
    if generated {
        admin_password = rand_secret(ADMIN_SECRET_LEN);
    }
    let config = EdgeConfig {
        api_port: port_or(req.api_port, existing, "API_PORT", DEFAULT_API_PORT),
        admin_port: port_or(req.admin_port, existing, "ADMIN_PORT", DEFAULT_ADMIN_PORT),
        postgres_db: existing_or(existing, "POSTGRES_DB", "ahtrading"),
        postgres_user: existing_or(existing, "POSTGRES_USER", "ahtrading"),
        postgres_password: kept_or_fresh(existing, "POSTGRES_PASSWORD", SECRET_LEN),
        app_db_user: existing_or(existing, "APP_DB_USER", "ahapp"),
        app_db_password: kept_or_fresh(existing, "APP_DB_PASSWORD", SECRET_LEN),
        bootstrap_admin: if should_write {
            String::from_str("1")
        } else {
            existing_or(existing, "BOOTSTRAP_ADMIN", "0")
        },
        bootstrap_admin_email: first_given_or(
            &req.admin_email,
            existing,
            "BOOTSTRAP_ADMIN_EMAIL",
            "admin@ahtrading.local",
        ),
        bootstrap_admin_password: admin_password,
        bootstrap_admin_reset_password: if should_write {
            String::from_str("1")
        } else {
            existing_or(existing, "BOOTSTRAP_ADMIN_RESET_PASSWORD", "0")
        },
        minio_root_user: existing_or(existing, "MINIO_ROOT_USER", "minioadmin"),
        minio_root_password: kept_or_fresh(existing, "MINIO_ROOT_PASSWORD", SECRET_LEN),
        s3_bucket: existing_or(existing, "S3_BUCKET", "attachments"),
        sync_target_url: if sync {
            let t = trim_str(text_or_empty(&req.cloud_api_url).as_str());
            trim_end_char_str(t.as_str(), '/')
        } else {
            String::new()
        },
        sync_key: if sync {
            text_or_empty(&req.edge_sync_key)
        } else {
            String::new()
        },
        sync_node_id: first_given_or(&req.edge_node_id, existing, "EDGE_SYNC_NODE_ID", hostname),
    };
    Resolved { config, should_write, generated_admin_password: generated }
}

/// The line `KEY=VALUE`.
pub fn kv_string(k: &str, v: &str) -> (r: String)
    ensures
        r@ == kv_line(k@, v@),
{
    let mut out = String::from_str(k);
    out.append("=");
    out.append(v);
    proof {
        reveal_strlit("=");
    }
    assert(out@ =~= kv_line(k@, v@));
    out
}

/// The views of a vector of strings.
pub open spec fn views(v: Seq<String>) -> Seq<Seq<char>> {
    v.map_values(|s: String| s@)
}

/// Lines joined with `\n` between them.
pub fn join_newline(lines: &Vec<String>) -> (r: String)
    ensures
        r@ == join_lines(views(lines@)),
{
    if lines.len() == 0 {
        return String::new();
    }
    let mut acc = lines[0].clone();
    let mut i: usize = 1;
    assert(views(lines@).subrange(0, 1) =~= seq![lines@[0]@]);
    while i < lines.len()
        invariant
            1 <= i <= lines.len(),
            acc@ == join_lines(views(lines@).subrange(0, i as int)),
        decreases lines.len() - i,
    {
        let ghost prev = views(lines@).subrange(0, i as int);
        let ghost next = views(lines@).subrange(0, i + 1);
        assert(next.drop_last() =~= prev);
        acc.append("\n");
        acc.append(lines[i].as_str());
        proof {
            reveal_strlit("\n");
        }
        assert(acc@ =~= join_lines(next));
        i = i + 1;
    }
    assert(views(lines@).subrange(0, lines.len() as int) =~= views(lines@));
    acc
}

impl EdgeConfig {
    /// The text of the configuration file.
    pub fn render(&self) -> (r: String)
        ensures
            r@ == config_text(*self),
    {
        let mut ls: Vec<String> = Vec::new();
        ls.push(String::from_str("# Auto-generated edge stack configuration"));
        ls.push(String::from_str("# Do not commit this file (contains secrets)."));
        ls.push(String::new());
        ls.push(String::from_str("# Edge service ports"));
        ls.push(kv_string("API_PORT", decimal_string(self.api_port as u64).as_str()));
        ls.push(kv_string("ADMIN_PORT", decimal_string(self.admin_port as u64).as_str()));
        ls.push(String::new());
        ls.push(String::from_str("# Postgres"));
        ls.push(kv_string("POSTGRES_DB", self.postgres_db.as_str()));
        ls.push(kv_string("POSTGRES_USER", self.postgres_user.as_str()));
        ls.push(kv_string("POSTGRES_PASSWORD", self.postgres_password.as_str()));
        ls.push(String::new());
        ls.push(String::from_str("# App DB role"));
        ls.push(kv_string("APP_DB_USER", self.app_db_user.as_str()));
        ls.push(kv_string("APP_DB_PASSWORD", self.app_db_password.as_str()));
        ls.push(String::new());
        ls.push(String::from_str("# Bootstrap admin (switched off after provisioning)"));
        ls.push(kv_string("BOOTSTRAP_ADMIN", self.bootstrap_admin.as_str()));
        ls.push(kv_string("BOOTSTRAP_ADMIN_EMAIL", self.bootstrap_admin_email.as_str()));
        ls.push(kv_string("BOOTSTRAP_ADMIN_PASSWORD", self.bootstrap_admin_password.as_str()));
        ls.push(
            kv_string("BOOTSTRAP_ADMIN_RESET_PASSWORD", self.bootstrap_admin_reset_password.as_str()),
        );
        ls.push(String::new());
        ls.push(String::from_str("# MinIO / attachments"));
        ls.push(kv_string("MINIO_ROOT_USER", self.minio_root_user.as_str()));
        ls.push(kv_string("MINIO_ROOT_PASSWORD", self.minio_root_password.as_str()));
        ls.push(kv_string("S3_BUCKET", self.s3_bucket.as_str()));
        ls.push(String::new());
        ls.push(String::from_str("# Edge -> cloud sync (optional)"));
        ls.push(kv_string("EDGE_SYNC_TARGET_URL", self.sync_target_url.as_str()));
        ls.push(kv_string("EDGE_SYNC_KEY", self.sync_key.as_str()));
        ls.push(kv_string("EDGE_SYNC_NODE_ID", self.sync_node_id.as_str()));
        ls.push(String::new());
        assert(views(ls@) =~= config_lines(*self));
        join_newline(&ls)
    }

    /// Hardening: the stack stops creating and resetting the bootstrap admin
    /// on start; every other value stays.
    pub fn harden(&mut self)
        ensures
            final(self).bootstrap_admin@ == "0"@,
            final(self).bootstrap_admin_reset_password@ == "0"@,
            same_but_bootstrap(*old(self), *final(self)),
    {
        self.bootstrap_admin = String::from_str("0");
        self.bootstrap_admin_reset_password = String::from_str("0");
    }
}

/// Equal values but for the two bootstrap switches.
pub open spec fn same_but_bootstrap(a: EdgeConfig, b: EdgeConfig) -> bool {
    &&& a.api_port == b.api_port
    &&& a.admin_port == b.admin_port
    &&& a.postgres_db@ == b.postgres_db@
    &&& a.postgres_user@ == b.postgres_user@
    &&& a.postgres_password@ == b.postgres_password@
    &&& a.app_db_user@ == b.app_db_user@
    &&& a.app_db_password@ == b.app_db_password@
    &&& a.bootstrap_admin_email@ == b.bootstrap_admin_email@
    &&& a.bootstrap_admin_password@ == b.bootstrap_admin_password@
    &&& a.minio_root_user@ == b.minio_root_user@
    &&& a.minio_root_password@ == b.minio_root_password@
    &&& a.s3_bucket@ == b.s3_bucket@
    &&& a.sync_target_url@ == b.sync_target_url@
    &&& a.sync_key@ == b.sync_key@
    &&& a.sync_node_id@ == b.sync_node_id@
}

/// What reading a secret back from the file written for `c` gives, against
/// what the file read before held: the earlier value where one was set, and a
/// fresh `len`-character secret where none was.
pub open spec fn secret_survives(
    before: Seq<(Seq<char>, Seq<char>)>,
    after: Seq<(Seq<char>, Seq<char>)>,
    key: Seq<char>,
    len: nat,
) -> bool {
    if is_set(lookup(before, key)) {
        lookup(after, key) == lookup(before, key)
    } else {
        lookup(after, key) is Some && fresh_secret(lookup(after, key)->Some_0, len)
    }
}

proof fn lemma_fresh_clean(s: Seq<char>, len: nat)
    requires
        fresh_secret(s, len),
    ensures
        clean(s),
{
    if s.len() > 0 {
        assert(is_ascii_alnum(s[0]));
        assert(is_ascii_alnum(s[s.len() - 1]));
    }
}

proof fn lemma_secret_read_back(before: Seq<(Seq<char>, Seq<char>)>, key: Seq<char>, v: Seq<char>, len: nat)
    requires
        kept_secret(lookup(before, key), v, len),
        forall|j: int| 0 <= j < before.len() ==> clean(#[trigger] before[j].1),
    ensures
        read_back(v) == v,
{
    if is_set(lookup(before, key)) {
        lemma_lookup_is_entry(before, key, before.len() as int);
        let j = choose|j: int| 0 <= j < before.len() && before[j].1 == lookup_upto(before, key, before.len() as int)->Some_0;
        assert(clean(before[j].1));
        lemma_clean_trim(v);
    } else {
        lemma_fresh_clean(v, len);
        lemma_clean_trim(v);
    }
}

/// Rewriting the configuration keeps the secrets: resolve a run against the
/// entries read from a file, write the result, and read it again; each
/// database and object-storage password is the earlier one where it was set,
/// and a fresh one of the secret length only where it was missing or blank.
pub proof fn lemma_secrets_persist(
    req: RunRequest,
    before_text: Seq<char>,
    env_exists: bool,
    hostname: Seq<char>,
    r: Resolved,
)
    requires
        resolved(req, parse_env(before_text), env_exists, hostname, r),
        config_values_ok(r.config),
    ensures
        secret_survives(
            parse_env(before_text),
            parse_env(config_text(r.config)),
            "POSTGRES_PASSWORD"@,
            SECRET_LEN as nat,
        ),
        secret_survives(
            parse_env(before_text),
            parse_env(config_text(r.config)),
            "APP_DB_PASSWORD"@,
            SECRET_LEN as nat,
        ),
        secret_survives(
            parse_env(before_text),
            parse_env(config_text(r.config)),
            "MINIO_ROOT_PASSWORD"@,
            SECRET_LEN as nat,
        ),
{
    let before = parse_env(before_text);
    let c = r.config;
    lemma_parsed_values_clean(before_text);
    lemma_config_round_trip(c);
    lemma_secret_read_back(before, "POSTGRES_PASSWORD"@, c.postgres_password@, SECRET_LEN as nat);
    lemma_secret_read_back(before, "APP_DB_PASSWORD"@, c.app_db_password@, SECRET_LEN as nat);
    lemma_secret_read_back(before, "MINIO_ROOT_PASSWORD"@, c.minio_root_password@, SECRET_LEN as nat);
    lemma_lookup_config_keys(c);
}

/// Where each key is found in the entries read back.
proof fn lemma_lookup_config_keys(c: EdgeConfig)
    ensures
        lookup(config_entries_read(c), "POSTGRES_PASSWORD"@) == Some(read_back(c.postgres_password@)),
        lookup(config_entries_read(c), "APP_DB_PASSWORD"@) == Some(read_back(c.app_db_password@)),
        lookup(config_entries_read(c), "MINIO_ROOT_PASSWORD"@) == Some(
            read_back(c.minio_root_password@),
        ),
        lookup(config_entries_read(c), "BOOTSTRAP_ADMIN"@) == Some(read_back(c.bootstrap_admin@)),
        lookup(config_entries_read(c), "BOOTSTRAP_ADMIN_PASSWORD"@) == Some(
            read_back(c.bootstrap_admin_password@),
        ),
{
    lemma_key_shapes();
    reveal_with_fuel(lookup_upto, 18);
}

/// Length and first character of each key, which tell the keys apart.
proof fn lemma_key_shapes()
    ensures
        "API_PORT"@.len() == 8 && "API_PORT"@[0] == 'A',
        "ADMIN_PORT"@.len() == 10 && "ADMIN_PORT"@[0] == 'A',
        "POSTGRES_DB"@.len() == 11 && "POSTGRES_DB"@[0] == 'P',
        "POSTGRES_USER"@.len() == 13 && "POSTGRES_USER"@[0] == 'P',
        "POSTGRES_PASSWORD"@.len() == 17 && "POSTGRES_PASSWORD"@[0] == 'P',
        "APP_DB_USER"@.len() == 11 && "APP_DB_USER"@[0] == 'A',
        "APP_DB_PASSWORD"@.len() == 15 && "APP_DB_PASSWORD"@[0] == 'A',
        "BOOTSTRAP_ADMIN"@.len() == 15 && "BOOTSTRAP_ADMIN"@[0] == 'B',
        "BOOTSTRAP_ADMIN_EMAIL"@.len() == 21 && "BOOTSTRAP_ADMIN_EMAIL"@[0] == 'B',
        "BOOTSTRAP_ADMIN_PASSWORD"@.len() == 24 && "BOOTSTRAP_ADMIN_PASSWORD"@[0] == 'B',
        "BOOTSTRAP_ADMIN_RESET_PASSWORD"@.len() == 30 && "BOOTSTRAP_ADMIN_RESET_PASSWORD"@[0] == 'B',
        "MINIO_ROOT_USER"@.len() == 15 && "MINIO_ROOT_USER"@[0] == 'M',
        "MINIO_ROOT_PASSWORD"@.len() == 19 && "MINIO_ROOT_PASSWORD"@[0] == 'M',
        "S3_BUCKET"@.len() == 9 && "S3_BUCKET"@[0] == 'S',
        "EDGE_SYNC_TARGET_URL"@.len() == 20 && "EDGE_SYNC_TARGET_URL"@[0] == 'E',
        "EDGE_SYNC_KEY"@.len() == 13 && "EDGE_SYNC_KEY"@[0] == 'E',
        "EDGE_SYNC_NODE_ID"@.len() == 17 && "EDGE_SYNC_NODE_ID"@[0] == 'E',
{
    reveal_strlit("API_PORT");
    reveal_strlit("ADMIN_PORT");
    reveal_strlit("POSTGRES_DB");
    reveal_strlit("POSTGRES_USER");
    reveal_strlit("POSTGRES_PASSWORD");
    reveal_strlit("APP_DB_USER");
    reveal_strlit("APP_DB_PASSWORD");
    reveal_strlit("BOOTSTRAP_ADMIN");
    reveal_strlit("BOOTSTRAP_ADMIN_EMAIL");
    reveal_strlit("BOOTSTRAP_ADMIN_PASSWORD");
    reveal_strlit("BOOTSTRAP_ADMIN_RESET_PASSWORD");
    reveal_strlit("MINIO_ROOT_USER");
    reveal_strlit("MINIO_ROOT_PASSWORD");
    reveal_strlit("S3_BUCKET");
    reveal_strlit("EDGE_SYNC_TARGET_URL");
    reveal_strlit("EDGE_SYNC_KEY");
    reveal_strlit("EDGE_SYNC_NODE_ID");
}

pub open spec fn parse_line_none(l: Seq<char>) -> bool {
    crate::envfile::parse_line(l) is None
}

} // verus!
