use vstd::prelude::*;

use crate::text::concat2;

verus! {

/// Errors of the storage layer. Underlying causes are held as their rendered
/// text.
#[derive(Clone, Debug, PartialEq, Eq)]
pub enum Error {
    Io { source: String },
    DbBuilder { source: String },
    DbConnect { source: String },
    DbExecute { source: String },
    DbPrepare { source: String },
    DbStatement { source: String },
    DbQuery { source: String },
    DbRow { source: String },
    DbResult { source: String },
    DbValue { source: String },
    DbTransaction { source: String },
    DbPoolConfig { msg: String },
    DbPoolAcquireTimeout { source: String },
    DbPoolState { msg: String },
    Validation { msg: String },
    MaxClientsReached,
    MaxUsersReached,
    MaxBucketsReached,
    MaxDirsReached,
    MaxFilesReached,
    HashPassword { source: String },
    Whatever { msg: String },
}

/// The text an error displays as.
pub open spec fn message_of(e: Error) -> Seq<char> {
    match e {
        Error::Io { source } => "I/O error: "@ + source@,
        Error::DbBuilder { source } => "DB Builder error: "@ + source@,
        Error::DbConnect { source } => "DB Connect error: "@ + source@,
        Error::DbExecute { source } => "DB Execute error: "@ + source@,
        Error::DbPrepare { source } => "DB Prepare error: "@ + source@,
        Error::DbStatement { source } => "DB Statement error: "@ + source@,
        Error::DbQuery { source } => "DB Query error: "@ + source@,
        Error::DbRow { source } => "DB Row error: "@ + source@,
        Error::DbResult { source } => "DB Result error: "@ + source@,
        Error::DbValue { source } => "DB Value error: "@ + source@,
        Error::DbTransaction { source } => "DB Transaction error: "@ + source@,
        Error::DbPoolConfig { msg } => "Database pool configuration error: "@ + msg@,
        Error::DbPoolAcquireTimeout { .. } => "Timed out acquiring database connection from pool"@,
        Error::DbPoolState { msg } => "Database pool state error: "@ + msg@,
        Error::Validation { msg } => msg@,
        Error::MaxClientsReached => "Maximum number of clients reached: 10"@,
        Error::MaxUsersReached => "Maximum number of users reached: 100"@,
        Error::MaxBucketsReached => "Maximum number of buckets reached: 50"@,
        Error::MaxDirsReached => "Maximum number of directories reached: 1000"@,
        Error::MaxFilesReached => "Maximum number of files reached: 1000"@,
        Error::HashPassword { source } => source@,
        Error::Whatever { msg } => msg@,
    }
}

impl Error {
    /// The text this error displays as.
    pub fn message(&self) -> (r: String)
        ensures
            r@ == message_of(*self),
    {
        match self {
            Error::Io { source } => concat2("I/O error: ", source.as_str()),
            Error::DbBuilder { source } => concat2("DB Builder error: ", source.as_str()),
            Error::DbConnect { source } => concat2("DB Connect error: ", source.as_str()),
            Error::DbExecute { source } => concat2("DB Execute error: ", source.as_str()),
            Error::DbPrepare { source } => concat2("DB Prepare error: ", source.as_str()),
            Error::DbStatement { source } => concat2("DB Statement error: ", source.as_str()),
            Error::DbQuery { source } => concat2("DB Query error: ", source.as_str()),
            Error::DbRow { source } => concat2("DB Row error: ", source.as_str()),
            Error::DbResult { source } => concat2("DB Result error: ", source.as_str()),
            Error::DbValue { source } => concat2("DB Value error: ", source.as_str()),
            Error::DbTransaction { source } => concat2("DB Transaction error: ", source.as_str()),
            Error::DbPoolConfig { msg } => concat2("Database pool configuration error: ", msg.as_str()),
            Error::DbPoolAcquireTimeout { .. } => "Timed out acquiring database connection from pool".to_owned(),
            Error::DbPoolState { msg } => concat2("Database pool state error: ", msg.as_str()),
            Error::Validation { msg } => msg.clone(),
            Error::MaxClientsReached => "Maximum number of clients reached: 10".to_owned(),
            Error::MaxUsersReached => "Maximum number of users reached: 100".to_owned(),
            Error::MaxBucketsReached => "Maximum number of buckets reached: 50".to_owned(),
            Error::MaxDirsReached => "Maximum number of directories reached: 1000".to_owned(),
            Error::MaxFilesReached => "Maximum number of files reached: 1000".to_owned(),
            Error::HashPassword { source } => source.clone(),
            Error::Whatever { msg } => msg.clone(),
        }
    }

    /// An error that carries a bare message.
    pub fn from_message(val: &str) -> (r: Error)
        ensures
            r matches Error::Whatever { msg } && msg@ == val@,
    {
        Error::Whatever { msg: val.to_owned() }
    }
}

impl From<String> for Error {
    fn from(val: String) -> (r: Error) {
        Error::Whatever { msg: val }
    }
}

impl vstd::std_specs::convert::FromSpecImpl<String> for Error {
    open spec fn obeys_from_spec() -> bool {
        true
    }

    open spec fn from_spec(val: String) -> Error {
        Error::Whatever { msg: val }
    }
}

} // verus!
