//! The user record of the directory and the values it is made of.
use vstd::prelude::*;

verus! {

/// An instant in UTC: seconds since the Unix epoch and the nanoseconds past them.
#[derive(Debug, Clone, Copy, PartialEq, Eq, Structural)]
pub struct UtcTime {
    pub secs: i64,
    pub nanos: u32,
}

/// What happens to a user who is seen on more addresses than `ip_limit` allows.
#[derive(Debug, Clone, Copy, PartialEq, Eq, Structural)]
pub enum IpLimitPunishment {
    Nothing,
    SuspendUser { time: i64 },
    BanLastIp { time: i64 },
}

/// One provisioned identity as the directory stores it.
#[derive(Debug, Clone)]
pub struct User {
    /// Opaque identifier in text form, assigned at creation and never reused.
    pub id: String,
    pub email: String,
    pub tags: Option<Vec<String>>,
    /// Inbounds to add the user to.
    pub inbounds: Option<Vec<String>>,
    /// Traffic limit in bytes.
    pub traffic_limit: i64,
    /// Traffic used in bytes.
    pub traffic_used: i64,
    /// Reset `traffic_used` every this many seconds.
    pub reset_traffic_every: Option<i64>,
    pub last_traffic_reset_at: Option<UtcTime>,
    pub expire_at: Option<UtcTime>,
    /// 0 = no limit.
    pub ip_limit: i64,
    /// Observed addresses with the second each was last seen.
    pub ip_list: Option<Vec<(String, i64)>>,
    /// What to do when the user exceeds `ip_limit`.
    pub ip_limit_punishment: Option<IpLimitPunishment>,
    /// Forget an address after this many seconds (0 = never).
    pub ip_expire_after: i64,
    pub is_active: bool,
    pub created_at: UtcTime,
    pub updated_at: UtcTime,
}

/// A user record seen as plain values.
pub struct UserView {
    pub id: Seq<char>,
    pub email: Seq<char>,
    pub tags: Option<Seq<Seq<char>>>,
    pub inbounds: Option<Seq<Seq<char>>>,
    pub traffic_limit: i64,
    pub traffic_used: i64,
    pub reset_traffic_every: Option<i64>,
    pub last_traffic_reset_at: Option<UtcTime>,
    pub expire_at: Option<UtcTime>,
    pub ip_limit: i64,
    pub ip_list: Option<Seq<(Seq<char>, i64)>>,
    pub ip_limit_punishment: Option<IpLimitPunishment>,
    pub ip_expire_after: i64,
    pub is_active: bool,
    pub created_at: UtcTime,
    pub updated_at: UtcTime,
}

/// The addresses of an optional address list, as plain values.
pub open spec fn opt_ips(v: Option<Vec<(String, i64)>>) -> Option<Seq<(Seq<char>, i64)>> {
    match v {
        Some(x) => Some(x@.map_values(|p: (String, i64)| (p.0@, p.1))),
        None => None,
    }
}

impl View for User {
    type V = UserView;

    open spec fn view(&self) -> UserView {
        UserView {
            id: self.id@,
            email: self.email@,
            tags: opt_strings(self.tags),
            inbounds: opt_strings(self.inbounds),
            traffic_limit: self.traffic_limit,
            traffic_used: self.traffic_used,
            reset_traffic_every: self.reset_traffic_every,
            last_traffic_reset_at: self.last_traffic_reset_at,
            expire_at: self.expire_at,
            ip_limit: self.ip_limit,
            ip_list: opt_ips(self.ip_list),
            ip_limit_punishment: self.ip_limit_punishment,
            ip_expire_after: self.ip_expire_after,
            is_active: self.is_active,
            created_at: self.created_at,
            updated_at: self.updated_at,
        }
    }
}

/// Copies an optional address list.
pub fn clone_opt_ips(v: &Option<Vec<(String, i64)>>) -> (r: Option<Vec<(String, i64)>>)
    ensures
        opt_ips(r) == opt_ips(*v),
{
    match v {
        None => None,
        Some(x) => {
            let mut out: Vec<(String, i64)> = Vec::new();
            let mut i: usize = 0;
            while i < x.len()
                invariant
                    i <= x@.len(),
                    out@.len() == i,
                    forall|j: int| 0 <= j < i ==> #[trigger] out@[j].0@ == x@[j].0@ && out@[j].1 == x@[j].1,
                decreases x@.len() - i,
            {
                let ip = x[i].0.clone();
                out.push((ip, x[i].1));
                i = i + 1;
            }
            assert(out@.map_values(|p: (String, i64)| (p.0@, p.1)) =~= x@.map_values(
                |p: (String, i64)| (p.0@, p.1),
            ));
            Some(out)
        }
    }
}

impl User {
    /// A copy of this record.
    pub fn copy(&self) -> (r: User)
        ensures
            r@ == self@,
    {
        User {
            id: self.id.clone(),
            email: self.email.clone(),
            tags: clone_opt_strings(&self.tags),
            inbounds: clone_opt_strings(&self.inbounds),
            traffic_limit: self.traffic_limit,
            traffic_used: self.traffic_used,
            reset_traffic_every: self.reset_traffic_every,
            last_traffic_reset_at: self.last_traffic_reset_at,
            expire_at: self.expire_at,
            ip_limit: self.ip_limit,
            ip_list: clone_opt_ips(&self.ip_list),
            ip_limit_punishment: self.ip_limit_punishment,
            ip_expire_after: self.ip_expire_after,
            is_active: self.is_active,
            created_at: self.created_at,
            updated_at: self.updated_at,
        }
    }
}

/// The fields a new user is created from.
#[derive(Debug, Clone)]
pub struct CreateUser {
    pub email: String,
    pub tags: Option<Vec<String>>,
    /// Inbounds to add the user to.
    pub inbounds: Option<Vec<String>>,
    /// Traffic limit in bytes.
    pub traffic_limit: i64,
    /// Reset `traffic_used` every this many seconds.
    pub reset_traffic_every: Option<i64>,
    pub expire_at: Option<UtcTime>,
    /// 0 = no limit.
    pub ip_limit: i64,
    /// What to do when the user exceeds `ip_limit`.
    pub ip_limit_punishment: Option<IpLimitPunishment>,
    /// Forget an address after this many seconds (0 = never).
    pub ip_expire_after: i64,
    pub is_active: bool,
}

/// The characters of each string of an optional list.
pub open spec fn opt_strings(v: Option<Vec<String>>) -> Option<Seq<Seq<char>>> {
    match v {
        Some(x) => Some(x@.map_values(|s: String| s@)),
        None => None,
    }
}

/// Copies an optional list of strings.
pub fn clone_opt_strings(v: &Option<Vec<String>>) -> (r: Option<Vec<String>>)
    ensures
        opt_strings(r) == opt_strings(*v),
{
    match v {
        None => None,
        Some(x) => {
            let mut out: Vec<String> = Vec::new();
            let mut i: usize = 0;
            while i < x.len()
                invariant
                    i <= x@.len(),
                    out@.len() == i,
                    forall|j: int| 0 <= j < i ==> #[trigger] out@[j]@ == x@[j]@,
                decreases x@.len() - i,
            {
                out.push(x[i].clone());
                i = i + 1;
            }
            assert(out@.map_values(|s: String| s@) =~= x@.map_values(|s: String| s@));
            Some(out)
        }
    }
}

impl Default for CreateUser {
    /// A user with an empty email, no tags or inbounds, no limits and active.
    fn default() -> (r: CreateUser)
        ensures
            r.email@ == Seq::<char>::empty(),
            r.tags is None,
            r.inbounds is None,
            r.traffic_limit == 0,
            r.reset_traffic_every is None,
            r.expire_at is None,
            r.ip_limit == 0,
            r.ip_limit_punishment is None,
            r.ip_expire_after == 0,
            r.is_active,
    {
        CreateUser {
            email: String::new(),
            tags: None,
            inbounds: None,
            traffic_limit: 0,
            reset_traffic_every: None,
            expire_at: None,
            ip_limit: 0,
            ip_limit_punishment: None,
            ip_expire_after: 0,
            is_active: true,
        }
    }
}

} // verus!
