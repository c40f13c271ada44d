//! The closed set of requests that the control channel carries.
use vstd::prelude::*;
use vstd::string::*;
use crate::types::{IpLimitPunishment, UtcTime, CreateUser};
use crate::reconcile::{online_metric, online_metric_name, traffic_metrics, traffic_metric_name};

verus! {

/// One operation asked of the daemon.
#[derive(Debug, Clone)]
#[allow(inconsistent_fields)]
pub enum Request {
    StartXray,
    StopXray,
    RestartXray,

    GetStatsUserOnlineCount { email: String },
    GetStatsUserOnlineIpList { email: String },
    GetStatsUserTraffic { email: String },
    GetStatsInboundTraffic { tag: String },
    GetStatsOutboundTraffic { tag: String },
    GetStatsSystem,

    CreateUser {
        email: String,
        tags: Option<Vec<String>>,
        inbounds: Option<Vec<String>>,
        traffic_limit: i64,
        reset_traffic_every: Option<i64>,
        expire_at: Option<UtcTime>,
        ip_limit: i64,
        ip_limit_punishment: Option<IpLimitPunishment>,
        ip_expire_after: i64,
        is_active: bool,
    },
    /// A partial update: every field left `None` keeps its stored value.
    UpdateUser {
        email: String,
        tags: Option<Vec<String>>,
        inbounds: Option<Vec<String>>,
        traffic_limit: Option<i64>,
        reset_traffic_every: Option<i64>,
        expire_at: Option<UtcTime>,
        ip_limit: Option<i64>,
        ip_limit_punishment: Option<IpLimitPunishment>,
        ip_expire_after: Option<i64>,
        is_active: Option<bool>,
    },
    DeleteUser { email: String },
    GetAllUsers,
}

/// An operation on the engine process.
#[derive(Debug, Clone, Copy, PartialEq, Eq, Structural)]
pub enum EngineOp {
    Start,
    Stop,
    /// Stop, then start.
    Restart,
}

/// The component that serves a request, with what it needs.
#[derive(Debug, Clone)]
pub enum Route {
    /// The process supervisor.
    Engine(EngineOp),
    /// Read the online-presence counter with this name.
    OnlineCount { metric: String },
    /// Read the online addresses recorded under this name.
    OnlineIpList { metric: String },
    /// Read these uplink and downlink counters.
    Traffic { uplink: String, downlink: String },
    /// Read the engine's system statistics.
    SystemStats,
    /// Store this user, then provision it.
    Create(CreateUser),
    /// Apply this update request to the directory.
    Update(Request),
    /// De-provision the user with this email, then delete its record.
    Delete { email: String },
    /// List the emails of all users.
    ListEmails,
}

/// `r` reads the traffic counters of `name` within `scope`.
pub open spec fn is_traffic_route(r: Route, scope: Seq<char>, name: Seq<char>) -> bool {
    match r {
        Route::Traffic { uplink, downlink } => uplink@ == traffic_metric_name(scope, name, "uplink"@)
            && downlink@ == traffic_metric_name(scope, name, "downlink"@),
        _ => false,
    }
}

/// Routes a request: engine requests to the supervisor, statistics to the
/// engine's counters under their metric names, directory requests to the
/// directory; a create carries the request's fields unchanged.
pub fn dispatch(req: Request) -> (r: Route)
    ensures
        match req {
            Request::StartXray => r == Route::Engine(EngineOp::Start),
            Request::StopXray => r == Route::Engine(EngineOp::Stop),
            Request::RestartXray => r == Route::Engine(EngineOp::Restart),
            Request::GetStatsUserOnlineCount { email } => match r {
                Route::OnlineCount { metric } => metric@ == online_metric_name(email@),
                _ => false,
            },
            Request::GetStatsUserOnlineIpList { email } => match r {
                Route::OnlineIpList { metric } => metric@ == online_metric_name(email@),
                _ => false,
            },
            Request::GetStatsUserTraffic { email } => is_traffic_route(r, "user"@, email@),
            Request::GetStatsInboundTraffic { tag } => is_traffic_route(r, "inbound"@, tag@),
            Request::GetStatsOutboundTraffic { tag } => is_traffic_route(r, "outbound"@, tag@),
            Request::GetStatsSystem => r == Route::SystemStats,
            Request::CreateUser {
                email, tags, inbounds, traffic_limit, reset_traffic_every, expire_at, ip_limit,
                ip_limit_punishment, ip_expire_after, is_active,
            } => r == Route::Create(
                CreateUser {
                    email, tags, inbounds, traffic_limit, reset_traffic_every, expire_at, ip_limit,
                    ip_limit_punishment, ip_expire_after, is_active,
                },
            ),
            Request::UpdateUser { .. } => r == Route::Update(req),
            Request::DeleteUser { email } => r == (Route::Delete { email }),
            Request::GetAllUsers => r == Route::ListEmails,
        },
{
    match req {
        Request::StartXray => Route::Engine(EngineOp::Start),
        Request::StopXray => Route::Engine(EngineOp::Stop),
        Request::RestartXray => Route::Engine(EngineOp::Restart),
        Request::GetStatsUserOnlineCount { email } => Route::OnlineCount { metric: online_metric(email.as_str()) },
        Request::GetStatsUserOnlineIpList { email } => Route::OnlineIpList { metric: online_metric(email.as_str()) },
        Request::GetStatsUserTraffic { email } => {
            let (uplink, downlink) = traffic_metrics("user", email.as_str());
            Route::Traffic { uplink, downlink }
        }
        Request::GetStatsInboundTraffic { tag } => {
            let (uplink, downlink) = traffic_metrics("inbound", tag.as_str());
            Route::Traffic { uplink, downlink }
        }
        Request::GetStatsOutboundTraffic { tag } => {
            let (uplink, downlink) = traffic_metrics("outbound", tag.as_str());
            Route::Traffic { uplink, downlink }
        }
        Request::GetStatsSystem => Route::SystemStats,
        Request::CreateUser {
            email, tags, inbounds, traffic_limit, reset_traffic_every, expire_at, ip_limit,
            ip_limit_punishment, ip_expire_after, is_active,
        } => Route::Create(
            CreateUser {
                email, tags, inbounds, traffic_limit, reset_traffic_every, expire_at, ip_limit,
                ip_limit_punishment, ip_expire_after, is_active,
            },
        ),
        Request::UpdateUser { .. } => Route::Update(req),
        Request::DeleteUser { email } => Route::Delete { email },
        Request::GetAllUsers => Route::ListEmails,
    }
}

/// The confirmation sent back once an engine operation is done.
pub fn engine_reply(op: EngineOp) -> (r: String)
    ensures
        r@ == match op {
            EngineOp::Start => "Xray started"@,
            EngineOp::Stop => "Xray stopped"@,
            EngineOp::Restart => "Xray restarted"@,
        },
{
    match op {
        EngineOp::Start => String::from_str("Xray started"),
        EngineOp::Stop => String::from_str("Xray stopped"),
        EngineOp::Restart => String::from_str("Xray restarted"),
    }
}

} // verus!
