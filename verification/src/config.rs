use vstd::prelude::*;

use crate::error::Error;
use crate::text::{blank, chars_of, concat2, is_blank};

verus! {

/// The pool size used when none, or an unreadable one, is configured.
pub const DEFAULT_DB_POOL_SIZE: usize = 4;

/// The service's configuration.
#[derive(Clone, Debug, PartialEq, Eq)]
pub struct Config {
    pub jwt_secret: String,
    pub upload_dir: String,
    pub cloud: CloudConfig,
    pub server: ServerConfig,
    pub db: DbConfig,
    pub auth: AuthConfig,
}

/// Where files are kept in the cloud.
#[derive(Clone, Debug, PartialEq, Eq)]
pub struct CloudConfig {
    pub project_id: String,
    pub credentials: String,
    pub bucket: String,
}

/// Where the server listens.
#[derive(Clone, Debug, PartialEq, Eq)]
pub struct ServerConfig {
    pub address: String,
}

/// Where the database lives and how many connections it may use.
#[derive(Clone, Debug, PartialEq, Eq)]
pub struct DbConfig {
    pub dir: String,
    pub pool_size: usize,
}

/// Where accounts are checked.
#[derive(Clone, Debug, PartialEq, Eq)]
pub struct AuthConfig {
    pub api_url: String,
}

/// The environment as the configuration reads it: each variable's value, when
/// it is set and readable.
#[derive(Clone, Debug, PartialEq, Eq)]
pub struct EnvSnapshot {
    pub database_dir: Option<String>,
    pub database_pool_size: Option<String>,
    pub jwt_secret: Option<String>,
    pub upload_dir: Option<String>,
    pub google_project_id: Option<String>,
    pub google_application_credentials: Option<String>,
    pub google_storage_bucket: Option<String>,
    pub server_address: Option<String>,
    pub auth_api_base_url: Option<String>,
}

/// The value of an optional setting: set and not blank.
pub open spec fn optional_value(v: Option<String>) -> Option<String> {
    match v {
        Some(s) => if is_blank(s@) {
            None
        } else {
            Some(s)
        },
        None => None,
    }
}

/// The value of an optional setting: `None` when unset or blank.
pub fn optional_env(value: Option<String>) -> (r: Option<String>)
    ensures
        r == optional_value(value),
{
    match value {
        Some(s) => if blank(s.as_str()) {
            None
        } else {
            Some(s)
        },
        None => None,
    }
}

/// The value of a required setting; an error naming the setting when unset.
pub fn required_env(name: &str, value: Option<String>) -> (r: Result<String, Error>)
    ensures
        match value {
            Some(s) => r == Ok::<String, Error>(s),
            None => r matches Err(e) && e matches Error::Config { msg } && msg@ == name@ + " is required."@,
        },
{
    match value {
        Some(s) => Ok(s),
        None => Err(Error::Config { msg: concat2(name, " is required.") }),
    }
}

/// The value of a decimal digit.
pub open spec fn digit_value(c: char) -> int {
    c as int - '0' as int
}

/// Whether a character is a decimal digit.
pub open spec fn is_digit(c: char) -> bool {
    '0' <= c && c <= '9'
}

/// The number that a sequence of decimal digits writes.
pub open spec fn digits_value(d: Seq<char>) -> int
    decreases d.len(),
{
    if d.len() == 0 {
        0
    } else {
        digits_value(d.drop_last()) * 10 + digit_value(d.last())
    }
}

/// A text without its leading `+`, if it has one.
pub open spec fn sign_stripped(s: Seq<char>) -> Seq<char> {
    if s.len() > 0 && s[0] == '+' {
        s.skip(1)
    } else {
        s
    }
}

/// Whether every character of a text is a decimal digit.
pub open spec fn all_digits(d: Seq<char>) -> bool {
    forall|i: int| 0 <= i < d.len() ==> is_digit(#[trigger] d[i])
}

/// What std's `str::parse::<usize>` makes of a text: an optional `+` followed
/// by at least one decimal digit and nothing else, whose value fits a `usize`.
pub open spec fn parsed_usize(s: Seq<char>) -> Option<usize> {
    let d = sign_stripped(s);
    if d.len() > 0 && all_digits(d) && digits_value(d) <= usize::MAX {
        Some(digits_value(d) as usize)
    } else {
        None
    }
}

proof fn lemma_digits_value_grows(d: Seq<char>, i: int)
    requires
        0 <= i <= d.len(),
        forall|k: int| 0 <= k < d.len() ==> is_digit(#[trigger] d[k]),
    ensures
        digits_value(d.take(i)) <= digits_value(d),
        0 <= digits_value(d.take(i)),
    decreases d.len() - i,
{
    if i < d.len() {
        lemma_digits_value_grows(d, i + 1);
        assert(d.take(i + 1).drop_last() =~= d.take(i));
        assert(is_digit(d.take(i + 1).last()));
        lemma_digits_value_nonneg(d.take(i));
    } else {
        assert(d.take(i) =~= d);
        lemma_digits_value_nonneg(d);
    }
}

proof fn lemma_digits_value_nonneg(d: Seq<char>)
    requires
        forall|k: int| 0 <= k < d.len() ==> is_digit(#[trigger] d[k]),
    ensures
        0 <= digits_value(d),
    decreases d.len(),
{
    if d.len() > 0 {
        lemma_digits_value_nonneg(d.drop_last());
    }
}

/// A decimal number as std's `str::parse::<usize>` reads it.
pub fn parse_usize(s: &str) -> (r: Option<usize>)
    ensures
        r == parsed_usize(s@),
{
    let cs = chars_of(s);
    let mut i: usize = 0;
    if cs.len() > 0 && cs[0] == '+' {
        i = 1;
    }
    let ghost d = sign_stripped(s@);
    assert(d =~= cs@.skip(i as int));
    if i == cs.len() {
        assert(d.len() == 0);
        return None;
    }
    let start = i;
    let mut acc: usize = 0;
    let mut overflow = false;
    while i < cs.len()
        invariant
            cs@ == s@,
            d =~= cs@.skip(start as int),
            d == sign_stripped(s@),
            start <= i <= cs@.len(),
            forall|k: int| start <= k < i ==> is_digit(#[trigger] cs@[k]),
            !overflow ==> acc == digits_value(d.take(i - start)),
            overflow ==> digits_value(d.take(i - start)) > usize::MAX,
        decreases cs@.len() - i,
    {
        let c = cs[i];
        if !('0' <= c && c <= '9') {
            proof {
                assert(d[i - start] == c);
                assert(!is_digit(d[i - start]));
                assert(0 <= i - start < d.len());
                assert(!all_digits(d));
            }
            return None;
        }
        proof {
            assert(d.take(i - start + 1).drop_last() =~= d.take(i - start));
            assert(d.take(i - start + 1).last() == c);
            if overflow {
                lemma_digits_value_nonneg(d.take(i - start));
            }
        }
        if !overflow {
            let dv = (c as u32 - '0' as u32) as usize;
            match acc.checked_mul(10) {
                Some(m) => match m.checked_add(dv) {
                    Some(v) => {
                        acc = v;
                    },
                    None => {
                        overflow = true;
                    },
                },
                None => {
                    proof {
                        lemma_digits_value_nonneg(d.take(i - start));
                    }
                    overflow = true;
                },
            }
        }
        i = i + 1;
    }
    proof {
        assert(d.take(i - start) =~= d);
    }
    if overflow {
        None
    } else {
        Some(acc)
    }
}

/// The pool size a configuration uses.
pub open spec fn pool_size_of(v: Option<String>) -> usize {
    match optional_value(v) {
        Some(s) => match parsed_usize(s@) {
            Some(n) => n,
            None => DEFAULT_DB_POOL_SIZE,
        },
        None => DEFAULT_DB_POOL_SIZE,
    }
}

/// The message of an unset required setting.
pub open spec fn required_message(name: Seq<char>) -> Seq<char> {
    name + " is required."@
}

/// The message of the first check that a configuration fails, in the order
/// the checks run, if any.
pub open spec fn config_error(env: EnvSnapshot, db_dir_exists: bool, upload_dir_exists: bool) -> Option<Seq<char>> {
    if env.database_dir is None {
        Some(required_message("DATABASE_DIR"@))
    } else if !db_dir_exists {
        Some("Database directory does not exist."@)
    } else if env.jwt_secret is None {
        Some(required_message("JWT_SECRET"@))
    } else if env.upload_dir is None {
        Some(required_message("UPLOAD_DIR"@))
    } else if env.google_project_id is None {
        Some(required_message("GOOGLE_PROJECT_ID"@))
    } else if env.google_application_credentials is None {
        Some(required_message("GOOGLE_APPLICATION_CREDENTIALS"@))
    } else if env.google_storage_bucket is None {
        Some(required_message("GOOGLE_STORAGE_BUCKET"@))
    } else if env.server_address is None {
        Some(required_message("SERVER_ADDRESS"@))
    } else if env.auth_api_base_url is None {
        Some(required_message("AUTH_API_BASE_URL"@))
    } else if env.jwt_secret->0@.len() == 0 {
        Some("Jwt secret is required."@)
    } else if env.google_project_id->0@.len() == 0 {
        Some("Google Cloud Project ID is required."@)
    } else if env.google_application_credentials->0@.len() == 0 {
        Some("Google Cloud credentials file is required."@)
    } else if !upload_dir_exists {
        Some("Upload directory does not exist."@)
    } else {
        None
    }
}

impl Config {
    /// The configuration that an environment describes. `db_dir_exists` and
    /// `upload_dir_exists` tell whether the two configured directories exist.
    pub fn build(env: EnvSnapshot, db_dir_exists: bool, upload_dir_exists: bool) -> (r: Result<Config, Error>)
        ensures
            match config_error(env, db_dir_exists, upload_dir_exists) {
                Some(m) => r matches Err(e) && e matches Error::Config { msg } && msg@ == m,
                None => r matches Ok(c) && c.jwt_secret == env.jwt_secret->0 && c.upload_dir
                    == env.upload_dir->0 && c.cloud.project_id == env.google_project_id->0
                    && c.cloud.credentials == env.google_application_credentials->0
                    && c.cloud.bucket == env.google_storage_bucket->0 && c.server.address
                    == env.server_address->0 && c.db.dir == env.database_dir->0 && c.db.pool_size
                    == pool_size_of(env.database_pool_size) && c.auth.api_url
                    == env.auth_api_base_url->0,
            },
    {
        let ghost e0 = env;
        let db_dir = required_env("DATABASE_DIR", env.database_dir)?;
        if !db_dir_exists {
            return Err(Error::Config { msg: "Database directory does not exist.".to_owned() });
        }
        let pool_size = match optional_env(env.database_pool_size) {
            Some(s) => match parse_usize(s.as_str()) {
                Some(n) => n,
                None => DEFAULT_DB_POOL_SIZE,
            },
            None => DEFAULT_DB_POOL_SIZE,
        };
        let jwt_secret = required_env("JWT_SECRET", env.jwt_secret)?;
        let upload_dir = required_env("UPLOAD_DIR", env.upload_dir)?;
        let project_id = required_env("GOOGLE_PROJECT_ID", env.google_project_id)?;
        let credentials = required_env(
            "GOOGLE_APPLICATION_CREDENTIALS",
            env.google_application_credentials,
        )?;
        let bucket = required_env("GOOGLE_STORAGE_BUCKET", env.google_storage_bucket)?;
        let address = required_env("SERVER_ADDRESS", env.server_address)?;
        let api_url = required_env("AUTH_API_BASE_URL", env.auth_api_base_url)?;
        if jwt_secret.as_str().is_empty() {
            return Err(Error::Config { msg: "Jwt secret is required.".to_owned() });
        }
        if project_id.as_str().is_empty() {
            return Err(Error::Config { msg: "Google Cloud Project ID is required.".to_owned() });
        }
        if credentials.as_str().is_empty() {
            return Err(
                Error::Config { msg: "Google Cloud credentials file is required.".to_owned() },
            );
        }
        if !upload_dir_exists {
            return Err(Error::Config { msg: "Upload directory does not exist.".to_owned() });
        }
        Ok(
            Config {
                jwt_secret,
                upload_dir,
                cloud: CloudConfig { project_id, credentials, bucket },
                server: ServerConfig { address },
                db: DbConfig { dir: db_dir, pool_size },
                auth: AuthConfig { api_url },
            },
        )
    }
}

} // verus!
