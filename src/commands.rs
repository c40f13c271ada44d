//! The administrative commands of the command line, and how each becomes a
//! request for the daemon.
use vstd::prelude::*;
use vstd::string::*;
use crate::text::{
    is_digit, digits_value, trimmed, trimmed_pieces, char_is_digit, chars_equal, chars_between,
    number_value, split_list, trim_str,
};
use crate::datetime::{DurationError, parse_seconds, seconds_of, duration_error_text};
use crate::api::Request;
use crate::types::opt_strings;

verus! {

/// Core (API) commands.
#[derive(Debug, Clone)]
pub enum CoreCommands {
    /// Choose profile.
    Profile { path: String },
    /// Show status.
    Stats(StatsCommands),
    /// Database commands.
    Database(DatabaseCommands),
}

#[derive(Debug, Clone)]
pub enum StatsCommands {
    /// User stats.
    User(UserStatsCommands),
    /// Inbound traffic.
    Inbound { tag: String },
    /// Outbound traffic.
    Outbound { tag: String },
    /// System stats.
    System,
}

#[derive(Debug, Clone)]
pub enum UserStatsCommands {
    /// Show online.
    Online(UserStatsOnlineCommands),
    /// Show traffic.
    Traffic { email: String },
}

#[derive(Debug, Clone)]
pub enum UserStatsOnlineCommands {
    /// User's address count.
    Count { email: String },
    /// User's address list.
    List { email: String },
}

#[derive(Debug, Clone)]
pub enum DatabaseCommands {
    /// Users commands.
    Users(UsersCommands),
}

#[derive(Debug, Clone)]
pub enum UsersCommands {
    /// Create user.
    Create { email: String, args: UserCommonArgs },
    /// Update user.
    Update { email: String, args: UserCommonArgs },
    /// Delete user.
    Delete { email: String },
    /// Get all users.
    Get,
}

/// The user fields as typed on the command line.
#[derive(Debug, Clone)]
pub struct UserCommonArgs {
    /// Comma separated list of tags.
    pub tags: Option<String>,
    /// Comma separated list of inbounds.
    pub inbounds: Option<String>,
    /// A byte count with its unit, such as `5MB`.
    pub traffic_limit: Option<String>,
    /// A duration such as `30d`.
    pub reset_traffic_every: Option<String>,
    pub ip_limit: Option<i64>,
    /// A duration such as `1h`.
    pub ip_expire_after: Option<String>,
    pub is_active: Option<bool>,
}

/// Why the command-line user fields could not be read.
#[derive(Debug, Clone, PartialEq, Eq)]
pub enum FieldError {
    /// The traffic limit has no unit after its digits.
    MissingTrafficUnit,
    /// The traffic limit does not start with a number that fits in 64 bits.
    InvalidTrafficValue,
    /// The traffic unit is none of B, KB, MB, GB, TB.
    UnsupportedTrafficUnit,
    /// The traffic limit in bytes does not fit in a signed 64-bit integer.
    TrafficOverflow,
    /// A duration could not be read.
    Duration(DurationError),
    /// A duration in seconds does not fit in a signed 64-bit integer.
    DurationTooLarge,
}

/// The text that describes a field error.
pub open spec fn field_error_text(e: FieldError) -> Seq<char> {
    match e {
        FieldError::MissingTrafficUnit => "Traffic limit must contain a value and unit"@,
        FieldError::InvalidTrafficValue => "Invalid traffic value"@,
        FieldError::UnsupportedTrafficUnit => "Unsupported traffic unit"@,
        FieldError::TrafficOverflow => "Traffic limit is too large"@,
        FieldError::Duration(d) => duration_error_text(d),
        FieldError::DurationTooLarge => "Duration is too large"@,
    }
}

impl FieldError {
    /// A description of the error for people.
    pub fn message(&self) -> (r: String)
        ensures
            r@ == field_error_text(*self),
    {
        match self {
            FieldError::MissingTrafficUnit => String::from_str("Traffic limit must contain a value and unit"),
            FieldError::InvalidTrafficValue => String::from_str("Invalid traffic value"),
            FieldError::UnsupportedTrafficUnit => String::from_str("Unsupported traffic unit"),
            FieldError::TrafficOverflow => String::from_str("Traffic limit is too large"),
            FieldError::Duration(d) => d.message(),
            FieldError::DurationTooLarge => String::from_str("Duration is too large"),
        }
    }
}

/// What the command line does for a core command.
#[derive(Debug, Clone)]
pub enum CoreAction {
    /// Assemble the engine configuration from the profile at this path.
    WriteConfig { profile_path: String },
    /// Send this request to the daemon and print its answer.
    Send(Request),
}

/// Directory that holds the configuration profiles.
pub const PROFILE_DIR: &'static str = "/etc/xray/profiles/";

/// The upper-cased form of a string, as Unicode defines it.
pub uninterp spec fn upper_of(s: Seq<char>) -> Seq<char>;

/// Relies on `str::to_uppercase`: the result depends on the characters alone.
#[verifier::external_body]
fn uppercase(s: &str) -> (r: String)
    ensures
        r@ == upper_of(s@),
{
    s.to_uppercase()
}

/// Number of leading decimal digits of `s`.
pub open spec fn digit_run(s: Seq<char>) -> nat
    decreases s.len(),
{
    if s.len() > 0 && is_digit(s[0]) {
        1 + digit_run(s.drop_first())
    } else {
        0
    }
}

/// Bytes in one of the traffic units.
pub open spec fn traffic_unit(u: Seq<char>) -> Option<int> {
    if u == "B"@ {
        Some(1)
    } else if u == "KB"@ {
        Some(1024)
    } else if u == "MB"@ {
        Some(1048576)
    } else if u == "GB"@ {
        Some(1073741824)
    } else if u == "TB"@ {
        Some(1099511627776)
    } else {
        None
    }
}

/// The byte count that an upper-cased traffic limit such as `5MB` denotes:
/// leading digits, then the unit.
pub open spec fn traffic_of(s: Seq<char>) -> Result<i64, FieldError> {
    let k = digit_run(s);
    let v = digits_value(s.take(k as int));
    if k == s.len() {
        Err(FieldError::MissingTrafficUnit)
    } else if k == 0 || v > u64::MAX {
        Err(FieldError::InvalidTrafficValue)
    } else {
        match traffic_unit(s.skip(k as int)) {
            None => Err(FieldError::UnsupportedTrafficUnit),
            Some(f) => if v * f > i64::MAX {
                Err(FieldError::TrafficOverflow)
            } else {
                Ok((v * f) as i64)
            },
        }
    }
}

/// The traffic limit as typed: trimmed, upper-cased, then read; `None`
/// when no limit was typed.
pub open spec fn traffic_field(a: Option<String>) -> Result<Option<i64>, FieldError> {
    match a {
        None => Ok(None),
        Some(s) => match traffic_of(upper_of(trimmed(s@))) {
            Ok(b) => Ok(Some(b)),
            Err(e) => Err(e),
        },
    }
}

/// A duration field as typed, in seconds.
pub open spec fn duration_field(a: Option<String>) -> Result<Option<i64>, FieldError> {
    match a {
        None => Ok(None),
        Some(s) => match seconds_of(s@) {
            Err(e) => Err(FieldError::Duration(e)),
            Ok(n) => if n > i64::MAX {
                Err(FieldError::DurationTooLarge)
            } else {
                Ok(Some(n as i64))
            },
        },
    }
}

/// A list field as typed: the trimmed comma-separated pieces.
pub open spec fn list_field(a: Option<String>) -> Option<Seq<Seq<char>>> {
    match a {
        None => None,
        Some(s) => Some(trimmed_pieces(s@)),
    }
}

/// Reads an upper-cased traffic limit such as `5MB` as a byte count.
pub fn traffic_bytes(s: &str) -> (r: Result<i64, FieldError>)
    ensures
        r == traffic_of(s@),
{
    let n = s.unicode_len();
    let mut k: usize = 0;
    assert(s@.skip(0) =~= s@);
    while k < n && char_is_digit(s.get_char(k))
        invariant
            n == s@.len(),
            k <= n,
            digit_run(s@) == k + digit_run(s@.skip(k as int)),
            forall|j: int| 0 <= j < k ==> is_digit(#[trigger] s@[j]),
        decreases n - k,
    {
        assert(s@.skip(k as int).drop_first() =~= s@.skip(k + 1));
        k = k + 1;
    }
    if k == n {
        return Err(FieldError::MissingTrafficUnit);
    }
    if k == 0 {
        return Err(FieldError::InvalidTrafficValue);
    }
    let digits = chars_between(s, 0, k);
    assert(digits@ =~= s@.take(k as int));
    let value = match number_value(&digits) {
        None => { return Err(FieldError::InvalidTrafficValue); }
        Some(v) => v,
    };
    let unit = chars_between(s, k, n);
    assert(unit@ =~= s@.skip(k as int));
    let factor: u64 = if chars_equal(&unit, "B") {
        1
    } else if chars_equal(&unit, "KB") {
        1024
    } else if chars_equal(&unit, "MB") {
        1048576
    } else if chars_equal(&unit, "GB") {
        1073741824
    } else if chars_equal(&unit, "TB") {
        1099511627776
    } else {
        return Err(FieldError::UnsupportedTrafficUnit);
    };
    match value.checked_mul(factor) {
        None => Err(FieldError::TrafficOverflow),
        Some(b) => if b > 9223372036854775807u64 {
            Err(FieldError::TrafficOverflow)
        } else {
            Ok(b as i64)
        },
    }
}

/// Reads a traffic limit as typed on the command line, such as ` 5mb `.
pub fn parse_traffic_limit(s: &str) -> (r: Result<i64, FieldError>)
    ensures
        r == traffic_of(upper_of(trimmed(s@))),
{
    let t = trim_str(s);
    let u = uppercase(t.as_str());
    traffic_bytes(u.as_str())
}

/// Reads an optional duration field as seconds.
fn duration_seconds(a: &Option<String>) -> (r: Result<Option<i64>, FieldError>)
    ensures
        r == duration_field(*a),
{
    match a {
        None => Ok(None),
        Some(s) => {
            let p = parse_seconds(s.as_str());
            match p {
                Err(e) => Err(FieldError::Duration(e)),
                Ok(n) => if n > 9223372036854775807u64 {
                    Err(FieldError::DurationTooLarge)
                } else {
                    Ok(Some(n as i64))
                },
            }
        },
    }
}

/// Reads an optional comma-separated list.
fn list_of(a: &Option<String>) -> (r: Option<Vec<String>>)
    ensures
        opt_strings(r) == list_field(*a),
{
    match a {
        None => None,
        Some(s) => Some(split_list(s.as_str())),
    }
}

/// Reads the user fields typed on the command line: tags, inbounds, traffic
/// limit, reset period, address limit, address expiry and the active flag;
/// a field that was not typed is `None`. The traffic limit is read first, then
/// the reset period, then the address expiry; the first that fails is the error.
pub fn build_user_fields(args: UserCommonArgs) -> (r: Result<
    (
        Option<Vec<String>>,
        Option<Vec<String>>,
        Option<i64>,
        Option<i64>,
        Option<i64>,
        Option<i64>,
        Option<bool>,
    ),
    FieldError,
>)
    ensures
        match (traffic_field(args.traffic_limit), duration_field(args.reset_traffic_every),
            duration_field(args.ip_expire_after)) {
            (Err(e), _, _) => r == Err::<(
                Option<Vec<String>>,
                Option<Vec<String>>,
                Option<i64>,
                Option<i64>,
                Option<i64>,
                Option<i64>,
                Option<bool>,
            ), FieldError>(e),
            (Ok(_), Err(e), _) => r is Err && r->Err_0 == e,
            (Ok(_), Ok(_), Err(e)) => r is Err && r->Err_0 == e,
            (Ok(t), Ok(rte), Ok(iea)) => r is Ok && {
                let f = r->Ok_0;
                &&& opt_strings(f.0) == list_field(args.tags)
                &&& opt_strings(f.1) == list_field(args.inbounds)
                &&& f.2 == t
                &&& f.3 == rte
                &&& f.4 == args.ip_limit
                &&& f.5 == iea
                &&& f.6 == args.is_active
            },
        },
{
    let traffic_limit: Option<i64> = match &args.traffic_limit {
        Some(s) => match parse_traffic_limit(s.as_str()) {
            Ok(b) => Some(b),
            Err(e) => { return Err(e); }
        },
        None => None,
    };
    let reset_traffic_every = match duration_seconds(&args.reset_traffic_every) {
        Ok(v) => v,
        Err(e) => { return Err(e); }
    };
    let ip_expire_after = match duration_seconds(&args.ip_expire_after) {
        Ok(v) => v,
        Err(e) => { return Err(e); }
    };
    let tags = list_of(&args.tags);
    let inbounds = list_of(&args.inbounds);
    Ok((tags, inbounds, traffic_limit, reset_traffic_every, args.ip_limit, ip_expire_after, args.is_active))
}

/// The request that a stats command asks for.
pub open spec fn stats_request(s: StatsCommands) -> Request {
    match s {
        StatsCommands::User(UserStatsCommands::Online(UserStatsOnlineCommands::Count { email })) =>
            Request::GetStatsUserOnlineCount { email },
        StatsCommands::User(UserStatsCommands::Online(UserStatsOnlineCommands::List { email })) =>
            Request::GetStatsUserOnlineIpList { email },
        StatsCommands::User(UserStatsCommands::Traffic { email }) => Request::GetStatsUserTraffic { email },
        StatsCommands::Inbound { tag } => Request::GetStatsInboundTraffic { tag },
        StatsCommands::Outbound { tag } => Request::GetStatsOutboundTraffic { tag },
        StatsCommands::System => Request::GetStatsSystem,
    }
}

/// `o`'s value, or `d` when it has none.
pub open spec fn or_default<T>(o: Option<T>, d: T) -> T {
    match o {
        Some(v) => v,
        None => d,
    }
}

/// The first error among the typed fields, in the order they are read.
pub open spec fn fields_error(args: UserCommonArgs) -> Option<FieldError> {
    match (traffic_field(args.traffic_limit), duration_field(args.reset_traffic_every),
        duration_field(args.ip_expire_after)) {
        (Err(e), _, _) => Some(e),
        (Ok(_), Err(e), _) => Some(e),
        (Ok(_), Ok(_), Err(e)) => Some(e),
        _ => None,
    }
}

/// `r` is the create request for `email` and the typed fields: unset numbers
/// are 0, an unset active flag is true, no expiry and no punishment.
pub open spec fn is_create_action(email: String, args: UserCommonArgs, r: Result<CoreAction, FieldError>) -> bool {
    match fields_error(args) {
        Some(e) => r == Err::<CoreAction, FieldError>(e),
        None => match r {
            Ok(CoreAction::Send(Request::CreateUser {
                email: em, tags, inbounds, traffic_limit, reset_traffic_every, expire_at, ip_limit,
                ip_limit_punishment, ip_expire_after, is_active,
            })) => {
                &&& em == email
                &&& opt_strings(tags) == list_field(args.tags)
                &&& opt_strings(inbounds) == list_field(args.inbounds)
                &&& match traffic_field(args.traffic_limit) {
                    Ok(t) => traffic_limit == or_default(t, 0),
                    Err(_) => false,
                }
                &&& Ok::<Option<i64>, FieldError>(reset_traffic_every) == duration_field(args.reset_traffic_every)
                &&& expire_at is None
                &&& ip_limit == or_default(args.ip_limit, 0)
                &&& ip_limit_punishment is None
                &&& match duration_field(args.ip_expire_after) {
                    Ok(o) => ip_expire_after == or_default(o, 0),
                    Err(_) => false,
                }
                &&& is_active == or_default(args.is_active, true)
            },
            _ => false,
        },
    }
}

/// `r` is the update request for `email` and the typed fields: what was not
/// typed stays unset, so the update keeps its stored value.
pub open spec fn is_update_action(email: String, args: UserCommonArgs, r: Result<CoreAction, FieldError>) -> bool {
    match fields_error(args) {
        Some(e) => r == Err::<CoreAction, FieldError>(e),
        None => match r {
            Ok(CoreAction::Send(Request::UpdateUser {
                email: em, tags, inbounds, traffic_limit, reset_traffic_every, expire_at, ip_limit,
                ip_limit_punishment, ip_expire_after, is_active,
            })) => {
                &&& em == email
                &&& opt_strings(tags) == list_field(args.tags)
                &&& opt_strings(inbounds) == list_field(args.inbounds)
                &&& Ok::<Option<i64>, FieldError>(traffic_limit) == traffic_field(args.traffic_limit)
                &&& Ok::<Option<i64>, FieldError>(reset_traffic_every) == duration_field(args.reset_traffic_every)
                &&& expire_at is None
                &&& ip_limit == args.ip_limit
                &&& ip_limit_punishment is None
                &&& Ok::<Option<i64>, FieldError>(ip_expire_after) == duration_field(args.ip_expire_after)
                &&& is_active == args.is_active
            },
            _ => false,
        },
    }
}

/// What the command line does for `cmd`: `Profile` assembles the engine
/// configuration from the named profile under the profile directory; every
/// other command becomes one request for the daemon.
pub fn command_action(cmd: CoreCommands) -> (r: Result<CoreAction, FieldError>)
    ensures
        match cmd {
            CoreCommands::Profile { path } => match r {
                Ok(CoreAction::WriteConfig { profile_path }) => profile_path@ == "/etc/xray/profiles/"@ + path@,
                _ => false,
            },
            CoreCommands::Stats(s) => r == Ok::<CoreAction, FieldError>(CoreAction::Send(stats_request(s))),
            CoreCommands::Database(DatabaseCommands::Users(u)) => match u {
                UsersCommands::Create { email, args } => is_create_action(email, args, r),
                UsersCommands::Update { email, args } => is_update_action(email, args, r),
                UsersCommands::Delete { email } =>
                    r == Ok::<CoreAction, FieldError>(CoreAction::Send(Request::DeleteUser { email })),
                UsersCommands::Get => r == Ok::<CoreAction, FieldError>(CoreAction::Send(Request::GetAllUsers)),
            },
        },
{
    let request = match cmd {
        CoreCommands::Profile { path } => {
            let mut profile_path = String::from_str(PROFILE_DIR);
            profile_path.append(path.as_str());
            return Ok(CoreAction::WriteConfig { profile_path });
        }
        CoreCommands::Stats(stats_cmd) => match stats_cmd {
            StatsCommands::User(user_cmd) => match user_cmd {
                UserStatsCommands::Online(online_cmd) => match online_cmd {
                    UserStatsOnlineCommands::Count { email } => Request::GetStatsUserOnlineCount { email },
                    UserStatsOnlineCommands::List { email } => Request::GetStatsUserOnlineIpList { email },
                },
                UserStatsCommands::Traffic { email } => Request::GetStatsUserTraffic { email },
            },
            StatsCommands::Inbound { tag } => Request::GetStatsInboundTraffic { tag },
            StatsCommands::Outbound { tag } => Request::GetStatsOutboundTraffic { tag },
            StatsCommands::System => Request::GetStatsSystem,
        },
        CoreCommands::Database(db_cmd) => match db_cmd {
            DatabaseCommands::Users(users_cmd) => match users_cmd {
                UsersCommands::Create { email, args } => {
                    let (tags, inbounds, traffic_limit, reset_traffic_every, ip_limit, ip_expire_after, is_active) =
                        match build_user_fields(args) {
                        Ok(f) => f,
                        Err(e) => { return Err(e); }
                    };
                    Request::CreateUser {
                        email,
                        tags,
                        inbounds,
                        traffic_limit: traffic_limit.unwrap_or(0),
                        reset_traffic_every,
                        expire_at: None,
                        ip_limit: ip_limit.unwrap_or(0),
                        ip_limit_punishment: None,
                        ip_expire_after: ip_expire_after.unwrap_or(0),
                        is_active: is_active.unwrap_or(true),
                    }
                }
                UsersCommands::Update { email, args } => {
                    let (tags, inbounds, traffic_limit, reset_traffic_every, ip_limit, ip_expire_after, is_active) =
                        match build_user_fields(args) {
                        Ok(f) => f,
                        Err(e) => { return Err(e); }
                    };
                    Request::UpdateUser {
                        email,
                        tags,
                        inbounds,
                        traffic_limit,
                        reset_traffic_every,
                        expire_at: None,
                        ip_limit,
                        ip_limit_punishment: None,
                        ip_expire_after,
                        is_active,
                    }
                }
                UsersCommands::Delete { email } => Request::DeleteUser { email },
                UsersCommands::Get => Request::GetAllUsers,
            },
        },
    };
    Ok(CoreAction::Send(request))
}

} // verus!
