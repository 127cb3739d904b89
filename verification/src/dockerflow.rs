//! The heartbeat of the service: what the status of its databases comes
//! to in the reply.

use crate::deadman::STATUS_OK;
use crate::error::SERVICE_UNAVAILABLE;
use vstd::prelude::*;

verus! {

/// What a check of a database gave.
#[derive(Debug, Clone, Copy, PartialEq, Eq, Structural)]
pub enum DbStatus {
    /// The check passed.
    Okay,
    /// The check failed.
    Failed,
    /// No check has answered.
    Unknown,
}

/// Whether a part of the service is in order.
#[derive(Debug, Clone, Copy, PartialEq, Eq, Structural)]
pub enum Status {
    Okay,
    Failed,
}

/// The message for a check that failed without saying why.
pub const CHECK_FAILED: &'static str = "check failed without error";

/// The reply of the heartbeat, with the quota in the form `Q`.
#[derive(Debug)]
pub struct HeartbeatResponse<Q> {
    pub database: DbStatus,
    pub database_msg: Option<&'static str>,
    pub status: Status,
    pub version: String,
    pub quota: Q,
    pub tokenserver: TokenserverHeartbeatResponse,
}

/// The part of the reply that speaks of the token server.
#[derive(Debug, Clone, Copy)]
pub struct TokenserverHeartbeatResponse {
    pub database: DbStatus,
    pub database_msg: Option<&'static str>,
    pub status: Status,
}

/// The message that goes with the status of a database.
pub open spec fn message_for(status: DbStatus) -> Option<Seq<char>> {
    if status == DbStatus::Failed {
        Some(CHECK_FAILED@)
    } else {
        None
    }
}

/// Whether a database with this status is in order.
pub open spec fn status_for(status: DbStatus) -> Status {
    if status == DbStatus::Okay {
        Status::Okay
    } else {
        Status::Failed
    }
}

/// The text of an optional constant.
pub open spec fn const_text(s: Option<&'static str>) -> Option<Seq<char>> {
    match s {
        Some(t) => Some(t@),
        None => None,
    }
}

fn message(status: DbStatus) -> (m: Option<&'static str>)
    ensures
        const_text(m) == message_for(status),
{
    match status {
        DbStatus::Failed => Some(CHECK_FAILED),
        _ => None,
    }
}

fn in_order(status: DbStatus) -> (s: Status)
    ensures
        s == status_for(status),
{
    match status {
        DbStatus::Okay => Status::Okay,
        _ => Status::Failed,
    }
}

/// The status of the whole reply: the service is unavailable where the
/// state of either database is not known.
pub open spec fn heartbeat_status(storage: DbStatus, tokenserver: DbStatus) -> u16 {
    if storage == DbStatus::Unknown || tokenserver == DbStatus::Unknown {
        SERVICE_UNAVAILABLE
    } else {
        STATUS_OK
    }
}

/// Answers the heartbeat. The message and the status, of the service and
/// of the token server alike, follow the database of the storage; each
/// part names the status of its own database.
pub fn heartbeat<Q>(
    quota: Q,
    syncstorage_db_status: DbStatus,
    tokenserver_db_status: DbStatus,
    version: String,
) -> (r: (u16, HeartbeatResponse<Q>))
    ensures
        r.0 == heartbeat_status(syncstorage_db_status, tokenserver_db_status),
        r.1.database == syncstorage_db_status,
        const_text(r.1.database_msg) == message_for(syncstorage_db_status),
        r.1.status == status_for(syncstorage_db_status),
        r.1.version == version,
        r.1.quota == quota,
        r.1.tokenserver.database == tokenserver_db_status,
        const_text(r.1.tokenserver.database_msg) == message_for(syncstorage_db_status),
        r.1.tokenserver.status == status_for(syncstorage_db_status),
{
    let response = HeartbeatResponse {
        database: syncstorage_db_status,
        database_msg: message(syncstorage_db_status),
        status: in_order(syncstorage_db_status),
        version,
        quota,
        tokenserver: TokenserverHeartbeatResponse {
            database: tokenserver_db_status,
            database_msg: message(syncstorage_db_status),
            status: in_order(syncstorage_db_status),
        },
    };
    let unknown = match (syncstorage_db_status, tokenserver_db_status) {
        (DbStatus::Unknown, _) => true,
        (_, DbStatus::Unknown) => true,
        _ => false,
    };
    if unknown {
        (SERVICE_UNAVAILABLE, response)
    } else {
        (STATUS_OK, response)
    }
}

} // verus!
