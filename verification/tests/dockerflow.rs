use syncserver::dockerflow::{heartbeat, DbStatus, Status};

#[test]
fn heartbeat_of_a_healthy_service() {
    let (status, body) = heartbeat((true, 5u32), DbStatus::Okay, DbStatus::Okay, "0.13.1".to_owned());
    assert_eq!(status, 200);
    assert_eq!(body.database, DbStatus::Okay);
    assert_eq!(body.database_msg, None);
    assert_eq!(body.status, Status::Okay);
    assert_eq!(body.version, "0.13.1");
    assert_eq!(body.quota, (true, 5));
    assert_eq!(body.tokenserver.database, DbStatus::Okay);
    assert_eq!(body.tokenserver.database_msg, None);
    assert_eq!(body.tokenserver.status, Status::Okay);
}

#[test]
fn heartbeat_of_a_failed_storage_database() {
    let (status, body) = heartbeat((), DbStatus::Failed, DbStatus::Okay, "v".to_owned());
    assert_eq!(status, 200);
    assert_eq!(body.database, DbStatus::Failed);
    assert_eq!(body.database_msg, Some("check failed without error"));
    assert_eq!(body.status, Status::Failed);
    assert_eq!(body.tokenserver.database, DbStatus::Okay);
    assert_eq!(body.tokenserver.database_msg, Some("check failed without error"));
    assert_eq!(body.tokenserver.status, Status::Failed);
}

#[test]
fn heartbeat_follows_the_storage_database() {
    let (status, body) = heartbeat((), DbStatus::Okay, DbStatus::Failed, "v".to_owned());
    assert_eq!(status, 200);
    assert_eq!(body.status, Status::Okay);
    assert_eq!(body.database_msg, None);
    assert_eq!(body.tokenserver.database, DbStatus::Failed);
    assert_eq!(body.tokenserver.database_msg, None);
    assert_eq!(body.tokenserver.status, Status::Okay);
}

#[test]
fn heartbeat_with_an_unknown_database_is_unavailable() {
    let (status, body) = heartbeat((), DbStatus::Unknown, DbStatus::Okay, "v".to_owned());
    assert_eq!(status, 503);
    assert_eq!(body.status, Status::Failed);
    assert_eq!(body.database_msg, None);
    let (status, body) = heartbeat((), DbStatus::Okay, DbStatus::Unknown, "v".to_owned());
    assert_eq!(status, 503);
    assert_eq!(body.status, Status::Okay);
    let (status, _) = heartbeat((), DbStatus::Unknown, DbStatus::Unknown, "v".to_owned());
    assert_eq!(status, 503);
    let (status, _) = heartbeat((), DbStatus::Failed, DbStatus::Failed, "v".to_owned());
    assert_eq!(status, 200);
}
