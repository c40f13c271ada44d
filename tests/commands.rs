use necko_xray::api::Request;
use necko_xray::commands::{
    build_user_fields, command_action, parse_traffic_limit, traffic_bytes, CoreAction, CoreCommands,
    DatabaseCommands, FieldError, StatsCommands, UserCommonArgs, UserStatsCommands, UserStatsOnlineCommands,
    UsersCommands,
};
use necko_xray::datetime::DurationError;
use necko_xray::text::split_list;

fn no_args() -> UserCommonArgs {
    UserCommonArgs {
        tags: None,
        inbounds: None,
        traffic_limit: None,
        reset_traffic_every: None,
        ip_limit: None,
        ip_expire_after: None,
        is_active: None,
    }
}

#[test]
fn traffic_units() {
    assert_eq!(traffic_bytes("5B"), Ok(5));
    assert_eq!(traffic_bytes("5KB"), Ok(5 * 1024));
    assert_eq!(traffic_bytes("5MB"), Ok(5 * 1024 * 1024));
    assert_eq!(traffic_bytes("2GB"), Ok(2 * 1024 * 1024 * 1024));
    assert_eq!(traffic_bytes("1TB"), Ok(1024i64 * 1024 * 1024 * 1024));
}

#[test]
fn traffic_limit_is_trimmed_and_upper_cased() {
    assert_eq!(parse_traffic_limit(" 5mb "), Ok(5 * 1024 * 1024));
    assert_eq!(parse_traffic_limit("10kb"), Ok(10 * 1024));
}

#[test]
fn traffic_errors() {
    assert_eq!(traffic_bytes("5"), Err(FieldError::MissingTrafficUnit));
    assert_eq!(traffic_bytes(""), Err(FieldError::MissingTrafficUnit));
    assert_eq!(traffic_bytes("MB"), Err(FieldError::InvalidTrafficValue));
    assert_eq!(traffic_bytes("99999999999999999999B"), Err(FieldError::InvalidTrafficValue));
    assert_eq!(traffic_bytes("5PB"), Err(FieldError::UnsupportedTrafficUnit));
    assert_eq!(traffic_bytes("9999999TB"), Err(FieldError::TrafficOverflow));
}

#[test]
fn lists_are_split_and_trimmed() {
    assert_eq!(split_list("a, b ,c"), vec!["a".to_string(), "b".to_string(), "c".to_string()]);
    assert_eq!(split_list(""), vec!["".to_string()]);
    assert_eq!(split_list("x,,y"), vec!["x".to_string(), "".to_string(), "y".to_string()]);
}

#[test]
fn user_fields_from_arguments() {
    let args = UserCommonArgs {
        tags: Some("vip, eu".to_string()),
        inbounds: Some("vless-in".to_string()),
        traffic_limit: Some("5MB".to_string()),
        reset_traffic_every: Some("30d".to_string()),
        ip_limit: Some(2),
        ip_expire_after: Some("1h".to_string()),
        is_active: Some(false),
    };
    let (tags, inbounds, traffic, reset, ip_limit, expire, active) = build_user_fields(args).unwrap();
    assert_eq!(tags, Some(vec!["vip".to_string(), "eu".to_string()]));
    assert_eq!(inbounds, Some(vec!["vless-in".to_string()]));
    assert_eq!(traffic, Some(5 * 1024 * 1024));
    assert_eq!(reset, Some(30 * 86400));
    assert_eq!(ip_limit, Some(2));
    assert_eq!(expire, Some(3600));
    assert_eq!(active, Some(false));
}

#[test]
fn untyped_fields_stay_unset() {
    let (tags, inbounds, traffic, reset, ip_limit, expire, active) = build_user_fields(no_args()).unwrap();
    assert_eq!(tags, None);
    assert_eq!(inbounds, None);
    assert_eq!(traffic, None);
    assert_eq!(reset, None);
    assert_eq!(ip_limit, None);
    assert_eq!(expire, None);
    assert_eq!(active, None);
}

#[test]
fn user_fields_errors_in_order() {
    let mut args = no_args();
    args.traffic_limit = Some("5XB".to_string());
    args.reset_traffic_every = Some("5x".to_string());
    assert_eq!(build_user_fields(args), Err(FieldError::UnsupportedTrafficUnit));
    let mut args = no_args();
    args.reset_traffic_every = Some("5x".to_string());
    assert_eq!(build_user_fields(args), Err(FieldError::Duration(DurationError::UnsupportedUnit)));
    let mut args = no_args();
    args.ip_expire_after = Some("18446744073709551615".to_string());
    assert_eq!(build_user_fields(args), Err(FieldError::DurationTooLarge));
}

#[test]
fn create_command_fills_defaults() {
    let cmd = CoreCommands::Database(DatabaseCommands::Users(UsersCommands::Create {
        email: "alice@example.com".to_string(),
        args: no_args(),
    }));
    match command_action(cmd).unwrap() {
        CoreAction::Send(Request::CreateUser {
            email, tags, inbounds, traffic_limit, reset_traffic_every, expire_at, ip_limit,
            ip_limit_punishment, ip_expire_after, is_active,
        }) => {
            assert_eq!(email, "alice@example.com");
            assert_eq!(tags, None);
            assert_eq!(inbounds, None);
            assert_eq!(traffic_limit, 0);
            assert_eq!(reset_traffic_every, None);
            assert!(expire_at.is_none());
            assert_eq!(ip_limit, 0);
            assert!(ip_limit_punishment.is_none());
            assert_eq!(ip_expire_after, 0);
            assert!(is_active);
        }
        other => panic!("unexpected action {:?}", other),
    }
}

#[test]
fn update_command_leaves_unset_fields_unset() {
    let mut args = no_args();
    args.ip_limit = Some(3);
    let cmd = CoreCommands::Database(DatabaseCommands::Users(UsersCommands::Update {
        email: "bob@example.com".to_string(),
        args,
    }));
    match command_action(cmd).unwrap() {
        CoreAction::Send(Request::UpdateUser { email, tags, traffic_limit, ip_limit, is_active, .. }) => {
            assert_eq!(email, "bob@example.com");
            assert_eq!(tags, None);
            assert_eq!(traffic_limit, None);
            assert_eq!(ip_limit, Some(3));
            assert_eq!(is_active, None);
        }
        other => panic!("unexpected action {:?}", other),
    }
}

#[test]
fn profile_and_stats_commands() {
    match command_action(CoreCommands::Profile { path: "home.json".to_string() }).unwrap() {
        CoreAction::WriteConfig { profile_path } => assert_eq!(profile_path, "/etc/xray/profiles/home.json"),
        other => panic!("unexpected action {:?}", other),
    }
    let cmd = CoreCommands::Stats(StatsCommands::User(UserStatsCommands::Online(UserStatsOnlineCommands::Count {
        email: "a@b".to_string(),
    })));
    match command_action(cmd).unwrap() {
        CoreAction::Send(Request::GetStatsUserOnlineCount { email }) => assert_eq!(email, "a@b"),
        other => panic!("unexpected action {:?}", other),
    }
    match command_action(CoreCommands::Database(DatabaseCommands::Users(UsersCommands::Get))).unwrap() {
        CoreAction::Send(Request::GetAllUsers) => {}
        other => panic!("unexpected action {:?}", other),
    }
}

#[test]
fn error_messages() {
    assert_eq!(FieldError::MissingTrafficUnit.message(), "Traffic limit must contain a value and unit");
    assert_eq!(FieldError::Duration(DurationError::UnexpectedChar('!')).message(), "Unexpected character `!`");
    assert_eq!(DurationError::AddOverflow.message(), "Overflow while adding");
    assert_eq!(
        necko_xray::supervisor::SupervisorError::NotRunning.message(),
        "Xray daemon is not running"
    );
}
