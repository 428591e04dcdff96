use vstd::prelude::*;

use crate::dir::DirDto;
use crate::error::Error;

verus! {

/// The configuration of the id migration.
#[derive(Clone, Debug, PartialEq, Eq)]
pub struct Config {
    pub db_dir: String,
}

impl Config {
    /// The configuration of the id migration: the database directory must be set
    /// and exist.
    pub fn build(database_dir: Option<String>, exists: bool) -> (r: Result<Config, Error>)
        ensures
            database_dir is None ==> (r matches Err(e) && e matches Error::Config { msg } && msg@ == "DATABASE_DIR"@ + " is required."@),
            database_dir is Some && !exists ==> (r matches Err(e) && e matches Error::Config { msg } && msg@ == "Database directory does not exist."@),
            database_dir is Some && exists ==> (r matches Ok(c) && c.db_dir == database_dir->0),
    {
        let db_dir = crate::config::required_env("DATABASE_DIR", database_dir)?;
        if !exists {
            return Err(Error::Config { msg: "Database directory does not exist.".to_owned() });
        }
        Ok(Config { db_dir })
    }
}

/// A copy of a directory under a new id, every other field kept.
pub fn renamed_dir(dir: DirDto, new_id: String) -> (r: DirDto)
    ensures
        r == (DirDto { id: new_id, ..dir }),
{
    let mut d = dir;
    d.id = new_id;
    d
}

} // verus!
