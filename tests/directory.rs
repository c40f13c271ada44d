use necko_xray::api::{dispatch, engine_reply, EngineOp, Request, Route};
use necko_xray::directory::{Directory, StoreError};
use necko_xray::reconcile::{
    count_reply, create_step, created_reply, delete_plan, deleted_reply, deprovisioning_calls, not_found_reply,
    updated_reply, emails_reply, online_metric, provisioning_calls, traffic_metrics,
    traffic_reply, EngineCall,
};
use necko_xray::types::{CreateUser, IpLimitPunishment, UtcTime};

fn at(secs: i64) -> UtcTime {
    UtcTime { secs, nanos: 0 }
}

fn alice() -> CreateUser {
    CreateUser {
        email: "alice@example.com".to_string(),
        traffic_limit: 5000000,
        ip_limit: 2,
        inbounds: Some(vec!["vless-in".to_string()]),
        ..CreateUser::default()
    }
}

#[test]
fn create_defaults() {
    let d = CreateUser::default();
    assert_eq!(d.email, "");
    assert_eq!(d.ip_limit, 0);
    assert_eq!(d.traffic_limit, 0);
    assert_eq!(d.ip_expire_after, 0);
    assert!(d.is_active);
    assert!(d.tags.is_none() && d.inbounds.is_none() && d.ip_limit_punishment.is_none());
}

#[test]
fn created_record_matches_request() {
    let mut dir = Directory::new();
    let mut data = alice();
    data.ip_limit_punishment = Some(IpLimitPunishment::SuspendUser { time: 60 });
    data.tags = Some(vec!["vip".to_string()]);
    let u = dir.create_user(data, "id-1".to_string(), at(100)).unwrap();
    assert_eq!(u.id, "id-1");
    assert_eq!(u.email, "alice@example.com");
    assert_eq!(u.tags, Some(vec!["vip".to_string()]));
    assert_eq!(u.traffic_limit, 5000000);
    assert_eq!(u.traffic_used, 0);
    assert_eq!(u.ip_limit, 2);
    assert_eq!(u.ip_limit_punishment, Some(IpLimitPunishment::SuspendUser { time: 60 }));
    assert!(u.ip_list.is_none());
    assert!(u.last_traffic_reset_at.is_none());
    assert!(u.is_active);
    assert_eq!(u.created_at, at(100));
    assert_eq!(u.updated_at, at(100));
}

#[test]
fn create_alice_provisions_one_inbound() {
    let mut dir = Directory::new();
    let u = dir.create_user(alice(), "id-a".to_string(), at(1)).unwrap();
    assert_eq!(dir.len(), 1);
    let stored = dir.get_user_by_email("alice@example.com").unwrap();
    assert_eq!(stored.traffic_limit, 5000000);
    assert_eq!(stored.ip_limit, 2);
    assert_eq!(stored.inbounds, Some(vec!["vless-in".to_string()]));
    assert_eq!(dir.get_all_user_emails(), vec!["alice@example.com".to_string()]);
    let calls = provisioning_calls(&u);
    assert_eq!(calls.len(), 1);
    match &calls[0] {
        EngineCall::AddUser { inbound, id, email } => {
            assert_eq!(inbound, "vless-in");
            assert_eq!(id, "id-a");
            assert_eq!(email, "alice@example.com");
        }
        other => panic!("unexpected call {:?}", other),
    }
}

#[test]
fn delete_alice_deprovisions_then_not_found() {
    let mut dir = Directory::new();
    dir.create_user(alice(), "id-a".to_string(), at(1)).unwrap();
    let removed = dir.delete_user_by_email("alice@example.com").unwrap();
    let calls = deprovisioning_calls(&removed);
    assert_eq!(calls.len(), 1);
    match &calls[0] {
        EngineCall::RemoveUser { inbound, email } => {
            assert_eq!(inbound, "vless-in");
            assert_eq!(email, "alice@example.com");
        }
        other => panic!("unexpected call {:?}", other),
    }
    assert!(dir.get_user_by_email("alice@example.com").is_none());
    assert_eq!(dir.delete_user_by_email("alice@example.com").err(), Some(StoreError::NotFound));
}

#[test]
fn delete_missing_changes_nothing() {
    let mut dir = Directory::new();
    dir.create_user(alice(), "id-a".to_string(), at(1)).unwrap();
    assert_eq!(dir.delete_user_by_email("bob@example.com").err(), Some(StoreError::NotFound));
    assert_eq!(dir.len(), 1);
    assert_eq!(dir.get_all_user_emails(), vec!["alice@example.com".to_string()]);
}

#[test]
fn duplicate_email_rejected() {
    let mut dir = Directory::new();
    assert!(dir.create_user(alice(), "id-1".to_string(), at(1)).is_ok());
    let second = dir.create_user(alice(), "id-2".to_string(), at(2));
    assert_eq!(second.err(), Some(StoreError::ConstraintViolation));
    assert_eq!(dir.len(), 1);
    let mut other = alice();
    other.email = "carol@example.com".to_string();
    assert_eq!(dir.create_user(other, "id-1".to_string(), at(3)).err(), Some(StoreError::ConstraintViolation));
}

#[test]
fn update_merges_fields() {
    let mut dir = Directory::new();
    dir.create_user(alice(), "id-a".to_string(), at(1)).unwrap();
    let req = Request::UpdateUser {
        email: "alice@example.com".to_string(),
        tags: Some(vec!["gold".to_string()]),
        inbounds: None,
        traffic_limit: None,
        reset_traffic_every: Some(3600),
        expire_at: None,
        ip_limit: Some(5),
        ip_limit_punishment: None,
        ip_expire_after: None,
        is_active: Some(false),
    };
    let u = dir.update_user(req, at(50)).unwrap();
    assert_eq!(u.tags, Some(vec!["gold".to_string()]));
    assert_eq!(u.inbounds, Some(vec!["vless-in".to_string()]));
    assert_eq!(u.traffic_limit, 5000000);
    assert_eq!(u.reset_traffic_every, Some(3600));
    assert_eq!(u.ip_limit, 5);
    assert!(!u.is_active);
    assert_eq!(u.created_at, at(1));
    assert_eq!(u.updated_at, at(50));
    let missing = Request::UpdateUser {
        email: "nobody".to_string(),
        tags: None,
        inbounds: None,
        traffic_limit: None,
        reset_traffic_every: None,
        expire_at: None,
        ip_limit: None,
        ip_limit_punishment: None,
        ip_expire_after: None,
        is_active: None,
    };
    assert_eq!(dir.update_user(missing, at(60)).err(), Some(StoreError::NotFound));
    assert_eq!(dir.update_user(Request::GetAllUsers, at(60)).err(), Some(StoreError::InvalidArgument));
}

#[test]
fn lookups_and_queries() {
    let mut dir = Directory::new();
    let mut a = alice();
    a.tags = Some(vec!["vip".to_string(), "eu".to_string()]);
    dir.create_user(a, "id-a".to_string(), at(1)).unwrap();
    let mut b = CreateUser::default();
    b.email = "bob@example.com".to_string();
    b.tags = Some(vec!["eu".to_string()]);
    dir.create_user(b, "id-b".to_string(), at(2)).unwrap();
    let mut c = CreateUser::default();
    c.email = "carol@example.com".to_string();
    dir.create_user(c, "id-c".to_string(), at(3)).unwrap();
    let eu: Vec<String> = dir.query_users_by_tags(&vec!["eu".to_string()]).into_iter().map(|u| u.email).collect();
    assert_eq!(eu, vec!["alice@example.com".to_string(), "bob@example.com".to_string()]);
    let vip_eu = dir.query_users_by_tags(&vec!["vip".to_string(), "eu".to_string()]);
    assert_eq!(vip_eu.len(), 1);
    let on_vless = dir.query_users_by_inbounds(&vec!["vless-in".to_string()]);
    assert_eq!(on_vless.len(), 1);
    assert_eq!(dir.get_user_by_id("id-b").unwrap().email, "bob@example.com");
    let all: Vec<String> = dir.get_all_users().into_iter().map(|u| u.email).collect();
    assert_eq!(all, vec!["carol@example.com".to_string(), "bob@example.com".to_string(), "alice@example.com".to_string()]);
    assert!(dir.delete_user_by_id("id-b"));
    assert!(!dir.delete_user_by_id("id-b"));
    assert_eq!(dir.len(), 2);
}

#[test]
fn stats_names_and_replies() {
    assert_eq!(online_metric("a@b"), "user>>>a@b>>>online");
    let (up, down) = traffic_metrics("inbound", "vless-in");
    assert_eq!(up, "inbound>>>vless-in>>>traffic>>>uplink");
    assert_eq!(down, "inbound>>>vless-in>>>traffic>>>downlink");
    assert_eq!(count_reply(Some(3)), "3");
    assert_eq!(count_reply(None), "0");
    assert_eq!(traffic_reply(Some(1024), None), "1024 0");
    assert_eq!(traffic_reply(Some(-5), Some(i64::MIN)), "-5 -9223372036854775808");
    assert_eq!(emails_reply(&vec![]), "[]");
    assert_eq!(
        emails_reply(&vec!["a@b".to_string(), "c@d".to_string()]),
        "[\n  \"a@b\",\n  \"c@d\"\n]"
    );
}

#[test]
fn requests_are_routed() {
    match dispatch(Request::GetStatsUserTraffic { email: "a@b".to_string() }) {
        Route::Traffic { uplink, downlink } => {
            assert_eq!(uplink, "user>>>a@b>>>traffic>>>uplink");
            assert_eq!(downlink, "user>>>a@b>>>traffic>>>downlink");
        }
        other => panic!("unexpected route {:?}", other),
    }
    match dispatch(Request::GetStatsUserOnlineIpList { email: "a@b".to_string() }) {
        Route::OnlineIpList { metric } => assert_eq!(metric, "user>>>a@b>>>online"),
        other => panic!("unexpected route {:?}", other),
    }
    match dispatch(Request::RestartXray) {
        Route::Engine(op) => assert_eq!(op, EngineOp::Restart),
        other => panic!("unexpected route {:?}", other),
    }
    match dispatch(Request::DeleteUser { email: "a@b".to_string() }) {
        Route::Delete { email } => assert_eq!(email, "a@b"),
        other => panic!("unexpected route {:?}", other),
    }
    assert_eq!(engine_reply(EngineOp::Start), "Xray started");
    assert_eq!(engine_reply(EngineOp::Stop), "Xray stopped");
}

#[test]
fn provisioning_failures_are_reported() {
    assert_eq!(created_reply(&vec![]), "User created");
    assert_eq!(
        created_reply(&vec!["a down".to_string(), "b down".to_string()]),
        "User created; provisioning failed: a down; b down"
    );
    assert_eq!(deleted_reply(true, &vec![]), "true");
    assert_eq!(deleted_reply(false, &vec!["x".to_string()]), "false; de-provisioning failed: x");
}

#[test]
fn unknown_email_delete_makes_no_engine_call() {
    let mut dir = Directory::new();
    assert_eq!(delete_plan("alice@example.com", &None).err(), Some("User alice@example.com not found".to_string()));
    dir.create_user(alice(), "id-a".to_string(), at(1)).unwrap();
    let found = dir.get_user_by_email("alice@example.com");
    let calls = delete_plan("alice@example.com", &found).unwrap();
    assert_eq!(calls.len(), 1);
    dir.delete_user_by_email("alice@example.com").unwrap();
    let again = dir.get_user_by_email("alice@example.com");
    assert_eq!(delete_plan("alice@example.com", &again).err(), Some("User alice@example.com not found".to_string()));
    assert_eq!(not_found_reply("bob"), "User bob not found");
    assert_eq!(updated_reply("bob"), "User bob updated");
}

#[test]
fn create_step_follows_the_store() {
    let refused: Result<necko_xray::types::User, String> = Err("duplicate key".to_string());
    assert_eq!(create_step(&refused).err(), Some("duplicate key".to_string()));
    let mut dir = Directory::new();
    let u = dir.create_user(alice(), "id-a".to_string(), at(1)).unwrap();
    let calls = create_step(&Ok(u)).unwrap();
    assert_eq!(calls.len(), 1);
    match &calls[0] {
        EngineCall::AddUser { inbound, id, .. } => {
            assert_eq!(inbound, "vless-in");
            assert_eq!(id, "id-a");
        }
        other => panic!("unexpected call {:?}", other),
    }
}
