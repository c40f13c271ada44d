//! The user directory as a model: one record per provisioned identity,
//! keyed by email, with the constraints of its table (unique email, unique
//! id) and the merge-style partial update. The daemon keeps its records in
//! a relational database and never consults this in-memory model; the model
//! states, and proves, what the table's operations do (create, look up,
//! delete, update, list), so that the laws about the directory have a
//! subject, and it can stand in for the database where none is at hand.
use vstd::prelude::*;
use crate::types::{User, UserView, CreateUser, UtcTime, opt_strings};
use crate::api::Request;
use crate::text::{str_equal, strings_view};

verus! {

/// Why a directory operation did not take place.
#[derive(Debug, Clone, Copy, PartialEq, Eq, Structural)]
pub enum StoreError {
    /// No record has the given email.
    NotFound,
    /// The record would repeat an email or an id already present.
    ConstraintViolation,
    /// An update was asked with a request that is not an update.
    InvalidArgument,
}

/// Some record has email `e`.
pub open spec fn has_email(rows: Seq<UserView>, e: Seq<char>) -> bool {
    exists|i: int| 0 <= i < rows.len() && #[trigger] rows[i].email == e
}

/// Some record has id `id`.
pub open spec fn has_id(rows: Seq<UserView>, id: Seq<char>) -> bool {
    exists|i: int| 0 <= i < rows.len() && #[trigger] rows[i].id == id
}

/// No two records share an email or an id.
pub open spec fn unique_keys(rows: Seq<UserView>) -> bool {
    forall|i: int, j: int|
        0 <= i < rows.len() && 0 <= j < rows.len() && i != j ==> #[trigger] rows[i].email != #[trigger] rows[j].email
            && rows[i].id != rows[j].id
}

/// Position of the record with email `e`.
pub open spec fn email_index(rows: Seq<UserView>, e: Seq<char>) -> int {
    choose|i: int| 0 <= i < rows.len() && #[trigger] rows[i].email == e
}

/// The record that creating a user from `data` stores: the given fields,
/// the fresh id, nothing used, no address seen, created and updated `now`.
pub open spec fn row_from(data: CreateUser, id: Seq<char>, now: UtcTime) -> UserView {
    UserView {
        id,
        email: data.email@,
        tags: opt_strings(data.tags),
        inbounds: opt_strings(data.inbounds),
        traffic_limit: data.traffic_limit,
        traffic_used: 0,
        reset_traffic_every: data.reset_traffic_every,
        last_traffic_reset_at: None,
        expire_at: data.expire_at,
        ip_limit: data.ip_limit,
        ip_list: None,
        ip_limit_punishment: data.ip_limit_punishment,
        ip_expire_after: data.ip_expire_after,
        is_active: data.is_active,
        created_at: now,
        updated_at: now,
    }
}

/// What creating a user does to the records `rows`: the new record, or the
/// constraint it would break.
pub open spec fn create_outcome(rows: Seq<UserView>, data: CreateUser, id: Seq<char>, now: UtcTime) -> Result<Seq<UserView>, StoreError> {
    if has_email(rows, data.email@) || has_id(rows, id) {
        Err(StoreError::ConstraintViolation)
    } else {
        Ok(rows.push(row_from(data, id, now)))
    }
}

/// What deleting the user with email `e` does to the records `rows`.
pub open spec fn delete_outcome(rows: Seq<UserView>, e: Seq<char>) -> Result<Seq<UserView>, StoreError> {
    if has_email(rows, e) {
        Ok(rows.remove(email_index(rows, e)))
    } else {
        Err(StoreError::NotFound)
    }
}

/// `new` if set, else `old`.
pub open spec fn coalesce<T>(new: Option<T>, old: T) -> T {
    match new {
        Some(v) => v,
        None => old,
    }
}

/// A list field of an update: the new list if one is given, else the stored one.
pub open spec fn coalesce_strings(new: Option<Vec<String>>, old: Option<Seq<Seq<char>>>) -> Option<Seq<Seq<char>>> {
    match new {
        Some(_) => opt_strings(new),
        None => old,
    }
}

/// An optional field of an update: the new value if one is given, else the stored one.
pub open spec fn coalesce_opt<T>(new: Option<T>, old: Option<T>) -> Option<T> {
    match new {
        Some(_) => new,
        None => old,
    }
}

/// The record after an update request: every field the request sets takes
/// its value, every field it leaves unset keeps the stored one, and the
/// record is marked updated `now`.
pub open spec fn patch_row(row: UserView, req: Request, now: UtcTime) -> UserView {
    match req {
        Request::UpdateUser {
            email: _, tags, inbounds, traffic_limit, reset_traffic_every, expire_at, ip_limit,
            ip_limit_punishment, ip_expire_after, is_active,
        } => UserView {
            tags: coalesce_strings(tags, row.tags),
            inbounds: coalesce_strings(inbounds, row.inbounds),
            traffic_limit: coalesce(traffic_limit, row.traffic_limit),
            reset_traffic_every: coalesce_opt(reset_traffic_every, row.reset_traffic_every),
            expire_at: coalesce_opt(expire_at, row.expire_at),
            ip_limit: coalesce(ip_limit, row.ip_limit),
            ip_limit_punishment: coalesce_opt(ip_limit_punishment, row.ip_limit_punishment),
            ip_expire_after: coalesce(ip_expire_after, row.ip_expire_after),
            is_active: coalesce(is_active, row.is_active),
            updated_at: now,
            ..row
        },
        _ => row,
    }
}

/// What an update request does to the records `rows`.
pub open spec fn update_outcome(rows: Seq<UserView>, req: Request, now: UtcTime) -> Result<Seq<UserView>, StoreError> {
    match req {
        Request::UpdateUser { email, .. } => if has_email(rows, email@) {
            let i = email_index(rows, email@);
            Ok(rows.update(i, patch_row(rows[i], req, now)))
        } else {
            Err(StoreError::NotFound)
        },
        _ => Err(StoreError::InvalidArgument),
    }
}

proof fn lemma_remove_keeps_unique(rows: Seq<UserView>, k: int)
    requires
        unique_keys(rows),
        0 <= k < rows.len(),
    ensures
        unique_keys(rows.remove(k)),
{
    let s = rows.remove(k);
    assert forall|a: int, b: int| 0 <= a < s.len() && 0 <= b < s.len() && a != b implies #[trigger] s[a].email
        != #[trigger] s[b].email && s[a].id != s[b].id by {
        let a0 = if a < k { a } else { a + 1 };
        let b0 = if b < k { b } else { b + 1 };
        assert(s[a] == rows[a0] && s[b] == rows[b0]);
        assert(rows[a0].email != rows[b0].email);
    }
}

/// Creating a user with an unused email and a fresh id stores one record
/// that carries every supplied field, the fresh id, nothing used, no
/// address seen and no traffic reset yet, created and updated at the same
/// instant; the table's constraints still hold.
pub proof fn lemma_create_fills_record(rows: Seq<UserView>, data: CreateUser, id: Seq<char>, now: UtcTime)
    requires
        unique_keys(rows),
        !has_email(rows, data.email@),
        !has_id(rows, id),
    ensures
        create_outcome(rows, data, id, now) == Ok::<Seq<UserView>, StoreError>(rows.push(row_from(data, id, now))),
        unique_keys(rows.push(row_from(data, id, now))),
        ({
            let u = row_from(data, id, now);
            &&& u.id == id
            &&& u.email == data.email@
            &&& u.tags == opt_strings(data.tags)
            &&& u.inbounds == opt_strings(data.inbounds)
            &&& u.traffic_limit == data.traffic_limit
            &&& u.traffic_used == 0
            &&& u.reset_traffic_every == data.reset_traffic_every
            &&& u.last_traffic_reset_at is None
            &&& u.expire_at == data.expire_at
            &&& u.ip_limit == data.ip_limit
            &&& u.ip_list is None
            &&& u.ip_limit_punishment == data.ip_limit_punishment
            &&& u.ip_expire_after == data.ip_expire_after
            &&& u.is_active == data.is_active
            &&& u.created_at == now
            &&& u.updated_at == now
        }),
{
    let s = rows.push(row_from(data, id, now));
    assert forall|a: int, b: int| 0 <= a < s.len() && 0 <= b < s.len() && a != b implies #[trigger] s[a].email
        != #[trigger] s[b].email && s[a].id != s[b].id by {
        if a < rows.len() && b < rows.len() {
            assert(s[a] == rows[a] && s[b] == rows[b]);
            assert(rows[a].email != rows[b].email);
        } else if a < rows.len() {
            assert(s[a] == rows[a]);
        } else {
            assert(s[b] == rows[b]);
        }
    }
}

/// Deleting an email that no record has yields `NotFound`, and the records
/// stay as they were.
pub proof fn lemma_delete_missing_is_not_found(rows: Seq<UserView>, e: Seq<char>)
    requires
        !has_email(rows, e),
    ensures
        delete_outcome(rows, e) == Err::<Seq<UserView>, StoreError>(StoreError::NotFound),
{
}

/// Deleting an email that a record has removes that one record: afterwards
/// no record has the email, and deleting it again yields `NotFound`.
pub proof fn lemma_delete_then_missing(rows: Seq<UserView>, e: Seq<char>)
    requires
        unique_keys(rows),
        has_email(rows, e),
    ensures
        delete_outcome(rows, e) is Ok,
        !has_email(delete_outcome(rows, e)->Ok_0, e),
        unique_keys(delete_outcome(rows, e)->Ok_0),
        delete_outcome(rows, e)->Ok_0.len() == rows.len() - 1,
        delete_outcome(delete_outcome(rows, e)->Ok_0, e) == Err::<Seq<UserView>, StoreError>(StoreError::NotFound),
{
    let k = email_index(rows, e);
    let s = rows.remove(k);
    lemma_remove_keeps_unique(rows, k);
    assert forall|a: int| 0 <= a < s.len() implies #[trigger] s[a].email != e by {
        let a0 = if a < k { a } else { a + 1 };
        assert(s[a] == rows[a0]);
        assert(rows[a0].email != rows[k].email);
    }
}

/// Creating a second user with an email already stored is refused with
/// `ConstraintViolation`, whatever its other fields and id: exactly one
/// record keeps that email.
pub proof fn lemma_duplicate_email_rejected(
    rows: Seq<UserView>,
    first: CreateUser,
    id1: Seq<char>,
    t1: UtcTime,
    second: CreateUser,
    id2: Seq<char>,
    t2: UtcTime,
)
    requires
        unique_keys(rows),
        second.email@ == first.email@,
        create_outcome(rows, first, id1, t1) is Ok,
    ensures
        ({
            let after = create_outcome(rows, first, id1, t1)->Ok_0;
            &&& create_outcome(after, second, id2, t2) == Err::<Seq<UserView>, StoreError>(
                StoreError::ConstraintViolation,
            )
            &&& unique_keys(after)
            &&& after[rows.len() as int].email == first.email@
            &&& forall|i: int| 0 <= i < after.len() && i != rows.len() ==> #[trigger] after[i].email != first.email@
        }),
{
    lemma_create_fills_record(rows, first, id1, t1);
    let after = rows.push(row_from(first, id1, t1));
    assert(after[rows.len() as int].email == second.email@);
    assert forall|i: int| 0 <= i < after.len() && i != rows.len() implies #[trigger] after[i].email
        != first.email@ by {
        assert(after[i] == rows[i]);
    }
}

/// An update is a merge: every field the request leaves unset keeps its
/// stored value, every field it sets takes the request's value; the id,
/// the email, the usage, the address list and the creation time never change.
pub proof fn lemma_update_is_coalesce(row: UserView, req: Request, now: UtcTime)
    requires
        req is UpdateUser,
    ensures
        ({
            let post = patch_row(row, req, now);
            &&& post.id == row.id
            &&& post.email == row.email
            &&& post.traffic_used == row.traffic_used
            &&& post.last_traffic_reset_at == row.last_traffic_reset_at
            &&& post.ip_list == row.ip_list
            &&& post.created_at == row.created_at
            &&& post.updated_at == now
            &&& (req->UpdateUser_tags is None ==> post.tags == row.tags)
            &&& (req->UpdateUser_tags is Some ==> post.tags == opt_strings(req->UpdateUser_tags))
            &&& (req->UpdateUser_inbounds is None ==> post.inbounds == row.inbounds)
            &&& (req->UpdateUser_inbounds is Some ==> post.inbounds == opt_strings(req->UpdateUser_inbounds))
            &&& (req->UpdateUser_traffic_limit is None ==> post.traffic_limit == row.traffic_limit)
            &&& (req->UpdateUser_traffic_limit is Some ==> post.traffic_limit == req->UpdateUser_traffic_limit->0)
            &&& (req->UpdateUser_reset_traffic_every is None ==> post.reset_traffic_every == row.reset_traffic_every)
            &&& (req->UpdateUser_reset_traffic_every is Some ==> post.reset_traffic_every
                == req->UpdateUser_reset_traffic_every)
            &&& (req->UpdateUser_expire_at is None ==> post.expire_at == row.expire_at)
            &&& (req->UpdateUser_expire_at is Some ==> post.expire_at == req->UpdateUser_expire_at)
            &&& (req->UpdateUser_ip_limit is None ==> post.ip_limit == row.ip_limit)
            &&& (req->UpdateUser_ip_limit is Some ==> post.ip_limit == req->UpdateUser_ip_limit->0)
            &&& (req->UpdateUser_ip_limit_punishment is None ==> post.ip_limit_punishment == row.ip_limit_punishment)
            &&& (req->UpdateUser_ip_limit_punishment is Some ==> post.ip_limit_punishment
                == req->UpdateUser_ip_limit_punishment)
            &&& (req->UpdateUser_ip_expire_after is None ==> post.ip_expire_after == row.ip_expire_after)
            &&& (req->UpdateUser_ip_expire_after is Some ==> post.ip_expire_after
                == req->UpdateUser_ip_expire_after->0)
            &&& (req->UpdateUser_is_active is None ==> post.is_active == row.is_active)
            &&& (req->UpdateUser_is_active is Some ==> post.is_active == req->UpdateUser_is_active->0)
        }),
{
}

/// The stored list `have` holds every string of `want`; a record without a
/// list holds nothing, not even the empty list.
pub open spec fn contains_all(have: Option<Seq<Seq<char>>>, want: Seq<Seq<char>>) -> bool {
    match have {
        Some(h) => forall|i: int| 0 <= i < want.len() ==> h.contains(#[trigger] want[i]),
        None => false,
    }
}

/// The records selected by a list query on tags, or on inbounds.
pub open spec fn list_query(rows: Seq<UserView>, want: Seq<Seq<char>>, on_inbounds: bool) -> Seq<UserView> {
    rows.filter(|u: UserView| contains_all(if on_inbounds { u.inbounds } else { u.tags }, want))
}

fn list_contains_all(have: &Option<Vec<String>>, want: &Vec<String>) -> (r: bool)
    ensures
        r == contains_all(opt_strings(*have), strings_view(want@)),
{
    let h = match have {
        None => { return false; }
        Some(h) => h,
    };
    let ghost hv = strings_view(h@);
    let mut i: usize = 0;
    while i < want.len()
        invariant
            *have == Some(*h),
            hv == strings_view(h@),
            i <= want@.len(),
            forall|k: int| 0 <= k < i ==> hv.contains(#[trigger] strings_view(want@)[k]),
        decreases want@.len() - i,
    {
        let mut found = false;
        let mut j: usize = 0;
        while j < h.len()
            invariant
                hv == strings_view(h@),
                i < want@.len(),
                j <= h@.len(),
                found ==> hv.contains(want@[i as int]@),
                !found ==> forall|k: int| 0 <= k < j ==> hv[k] != want@[i as int]@,
            decreases h@.len() - j,
        {
            if str_equal(h[j].as_str(), want[i].as_str()) {
                assert(hv[j as int] == want@[i as int]@);
                found = true;
            }
            j = j + 1;
        }
        if !found {
            assert(!hv.contains(strings_view(want@)[i as int]));
            return false;
        }
        assert(strings_view(want@)[i as int] == want@[i as int]@);
        i = i + 1;
    }
    true
}

/// The user records, in the order they were created: an in-memory model of
/// the directory's table, not the table the daemon queries.
pub struct Directory {
    rows: Vec<User>,
}

impl View for Directory {
    type V = Seq<UserView>;

    closed spec fn view(&self) -> Seq<UserView> {
        self.rows@.map_values(|u: User| u@)
    }
}

impl Directory {
    /// The directory's invariant: emails and ids are unique.
    pub open spec fn wf(&self) -> bool {
        unique_keys(self@)
    }

    /// An empty directory.
    pub fn new() -> (r: Directory)
        ensures
            r.wf(),
            r@ == Seq::<UserView>::empty(),
    {
        let r = Directory { rows: Vec::new() };
        assert(r@ =~= Seq::<UserView>::empty());
        r
    }

    /// Number of records.
    pub fn len(&self) -> (r: usize)
        ensures
            r == self@.len(),
    {
        self.rows.len()
    }

    /// Position of the record with email `email`, if there is one.
    fn position_of_email(&self, email: &str) -> (r: Option<usize>)
        requires
            self.wf(),
        ensures
            r is Some <==> has_email(self@, email@),
            r is Some ==> r->0 == email_index(self@, email@) && r->0 < self@.len()
                && self@[r->0 as int].email == email@,
    {
        let mut i: usize = 0;
        while i < self.rows.len()
            invariant
                i <= self.rows@.len(),
                forall|j: int| 0 <= j < i ==> #[trigger] self@[j].email != email@,
                self@.len() == self.rows@.len(),
                self.wf(),
        decreases self.rows@.len() - i,
        {
            assert(self@[i as int] == self.rows@[i as int]@);
            if str_equal(self.rows[i].email.as_str(), email) {
                assert(self@[i as int].email == email@);
                let ghost k = email_index(self@, email@);
                assert(self@[k].email == email@);
                assert(k == i);
                return Some(i);
            }
            i = i + 1;
        }
        None
    }

    /// Position of the record with id `id`, if there is one.
    fn position_of_id(&self, id: &str) -> (r: Option<usize>)
        ensures
            r is Some <==> has_id(self@, id@),
            r is Some ==> r->0 < self@.len() && self@[r->0 as int].id == id@,
    {
        let mut i: usize = 0;
        while i < self.rows.len()
            invariant
                i <= self.rows@.len(),
                forall|j: int| 0 <= j < i ==> #[trigger] self@[j].id != id@,
                self@.len() == self.rows@.len(),
        decreases self.rows@.len() - i,
        {
            assert(self@[i as int] == self.rows@[i as int]@);
            if str_equal(self.rows[i].id.as_str(), id) {
                assert(self@[i as int].id == id@);
                return Some(i);
            }
            i = i + 1;
        }
        None
    }

    /// Stores a new user made from `data`, with the freshly generated `id`,
    /// at time `now`, and returns the stored record. An email or an id that
    /// is already present breaks the table's constraints: nothing is stored.
    pub fn create_user(&mut self, data: CreateUser, id: String, now: UtcTime) -> (r: Result<User, StoreError>)
        requires
            old(self).wf(),
        ensures
            final(self).wf(),
            match create_outcome(old(self)@, data, id@, now) {
                Ok(rows) => r is Ok && final(self)@ == rows && r->Ok_0@ == row_from(data, id@, now),
                Err(e) => r == Err::<User, StoreError>(e) && final(self)@ == old(self)@,
            },
    {
        if self.position_of_email(data.email.as_str()).is_some() || self.position_of_id(id.as_str()).is_some() {
            return Err(StoreError::ConstraintViolation);
        }
        let row = User {
            id,
            email: data.email,
            tags: data.tags,
            inbounds: data.inbounds,
            traffic_limit: data.traffic_limit,
            traffic_used: 0,
            reset_traffic_every: data.reset_traffic_every,
            last_traffic_reset_at: None,
            expire_at: data.expire_at,
            ip_limit: data.ip_limit,
            ip_list: None,
            ip_limit_punishment: data.ip_limit_punishment,
            ip_expire_after: data.ip_expire_after,
            is_active: data.is_active,
            created_at: now,
            updated_at: now,
        };
        let out = row.copy();
        let ghost before = self@;
        self.rows.push(row);
        assert(self@ =~= before.push(out@));
        assert forall|i: int, j: int|
            0 <= i < self@.len() && 0 <= j < self@.len() && i != j implies #[trigger] self@[i].email
            != #[trigger] self@[j].email && self@[i].id != self@[j].id by {
            if i < before.len() && j < before.len() {
                assert(self@[i] == before[i] && self@[j] == before[j]);
            } else if i < before.len() {
                assert(self@[i] == before[i]);
            } else {
                assert(self@[j] == before[j]);
            }
        }
        Ok(out)
    }

    /// The record with email `email`, if there is one.
    pub fn get_user_by_email(&self, email: &str) -> (r: Option<User>)
        requires
            self.wf(),
        ensures
            r is Some <==> has_email(self@, email@),
            r is Some ==> r->0@ == self@[email_index(self@, email@)],
    {
        match self.position_of_email(email) {
            Some(i) => Some(self.rows[i].copy()),
            None => None,
        }
    }

    /// The record with id `id`, if there is one.
    pub fn get_user_by_id(&self, id: &str) -> (r: Option<User>)
        ensures
            r is Some <==> has_id(self@, id@),
            r is Some ==> r->0@.id == id@ && self@.contains(r->0@),
    {
        match self.position_of_id(id) {
            Some(i) => {
                let u = self.rows[i].copy();
                assert(self@[i as int] == u@);
                Some(u)
            }
            None => None,
        }
    }

    /// Removes the record with email `email` and returns it. With no such
    /// record the result is `NotFound` and nothing changes.
    pub fn delete_user_by_email(&mut self, email: &str) -> (r: Result<User, StoreError>)
        requires
            old(self).wf(),
        ensures
            final(self).wf(),
            match delete_outcome(old(self)@, email@) {
                Ok(rows) => r is Ok && final(self)@ == rows
                    && r->Ok_0@ == old(self)@[email_index(old(self)@, email@)],
                Err(e) => r == Err::<User, StoreError>(e) && final(self)@ == old(self)@,
            },
    {
        match self.position_of_email(email) {
            None => Err(StoreError::NotFound),
            Some(i) => {
                let ghost before = self@;
                assert(unique_keys(before));
                let u = self.rows.remove(i);
                assert(self@ =~= before.remove(i as int));
                proof { lemma_remove_keeps_unique(before, i as int); }
                Ok(u)
            }
        }
    }

    /// Removes the record with id `id`; says whether there was one.
    pub fn delete_user_by_id(&mut self, id: &str) -> (r: bool)
        requires
            old(self).wf(),
        ensures
            final(self).wf(),
            r == has_id(old(self)@, id@),
            !r ==> final(self)@ == old(self)@,
            r ==> exists|i: int|
                0 <= i < old(self)@.len() && old(self)@[i].id == id@ && final(self)@ == old(self)@.remove(i),
    {
        match self.position_of_id(id) {
            None => false,
            Some(i) => {
                let ghost before = self@;
                assert(unique_keys(before));
                let _u = self.rows.remove(i);
                assert(self@ =~= before.remove(i as int));
                proof { lemma_remove_keeps_unique(before, i as int); }
                true
            }
        }
    }

    /// Applies an update request to the record with the request's email:
    /// every field the request sets takes its value, every other field keeps
    /// its stored value; the updated record is returned. A request that is
    /// not an update, or an email with no record, changes nothing.
    pub fn update_user(&mut self, req: Request, now: UtcTime) -> (r: Result<User, StoreError>)
        requires
            old(self).wf(),
        ensures
            final(self).wf(),
            match update_outcome(old(self)@, req, now) {
                Ok(rows) => r is Ok && final(self)@ == rows
                    && r->Ok_0@ == rows[email_index(old(self)@, req->UpdateUser_email@)],
                Err(e) => r == Err::<User, StoreError>(e) && final(self)@ == old(self)@,
            },
    {
        let ghost req0 = req;
        match req {
            Request::UpdateUser {
                email, tags, inbounds, traffic_limit, reset_traffic_every, expire_at, ip_limit,
                ip_limit_punishment, ip_expire_after, is_active,
            } => {
                let i = match self.position_of_email(email.as_str()) {
                    None => { return Err(StoreError::NotFound); }
                    Some(i) => i,
                };
                let ghost before = self@;
                let old_row = self.rows[i].copy();
                let row = User {
                    id: old_row.id,
                    email: old_row.email,
                    tags: match tags { Some(v) => Some(v), None => old_row.tags },
                    inbounds: match inbounds { Some(v) => Some(v), None => old_row.inbounds },
                    traffic_limit: match traffic_limit { Some(v) => v, None => old_row.traffic_limit },
                    traffic_used: old_row.traffic_used,
                    reset_traffic_every: match reset_traffic_every { Some(v) => Some(v), None => old_row.reset_traffic_every },
                    last_traffic_reset_at: old_row.last_traffic_reset_at,
                    expire_at: match expire_at { Some(v) => Some(v), None => old_row.expire_at },
                    ip_limit: match ip_limit { Some(v) => v, None => old_row.ip_limit },
                    ip_list: old_row.ip_list,
                    ip_limit_punishment: match ip_limit_punishment { Some(v) => Some(v), None => old_row.ip_limit_punishment },
                    ip_expire_after: match ip_expire_after { Some(v) => v, None => old_row.ip_expire_after },
                    is_active: match is_active { Some(v) => v, None => old_row.is_active },
                    created_at: old_row.created_at,
                    updated_at: now,
                };
                assert(row@ == patch_row(before[i as int], req0, now));
                let out = row.copy();
                self.rows.set(i, row);
                assert(self@ =~= before.update(i as int, out@));
                assert forall|a: int, b: int|
                    0 <= a < self@.len() && 0 <= b < self@.len() && a != b implies #[trigger] self@[a].email
                    != #[trigger] self@[b].email && self@[a].id != self@[b].id by {
                    assert(self@[a].email == before[a].email && self@[a].id == before[a].id);
                    assert(self@[b].email == before[b].email && self@[b].id == before[b].id);
                    assert(before[a].email != before[b].email && before[a].id != before[b].id);
                }
                Ok(out)
            }
            _ => Err(StoreError::InvalidArgument),
        }
    }

    /// The emails of all records, in the order they were created.
    pub fn get_all_user_emails(&self) -> (r: Vec<String>)
        ensures
            r@.map_values(|s: String| s@) == self@.map_values(|u: UserView| u.email),
    {
        let mut out: Vec<String> = Vec::new();
        let mut i: usize = 0;
        while i < self.rows.len()
            invariant
                i <= self.rows@.len(),
                self@.len() == self.rows@.len(),
                out@.len() == i,
                forall|j: int| 0 <= j < i ==> #[trigger] out@[j]@ == self@[j].email,
            decreases self.rows@.len() - i,
        {
            assert(self@[i as int] == self.rows@[i as int]@);
            out.push(self.rows[i].email.clone());
            i = i + 1;
        }
        assert(out@.map_values(|s: String| s@) =~= self@.map_values(|u: UserView| u.email));
        out
    }

    /// All records, most recently created first.
    pub fn get_all_users(&self) -> (r: Vec<User>)
        ensures
            r@.map_values(|u: User| u@) == self@.reverse(),
    {
        let mut out: Vec<User> = Vec::new();
        let n = self.rows.len();
        let mut i: usize = 0;
        while i < n
            invariant
                n == self.rows@.len(),
                i <= n,
                self@.len() == n,
                out@.len() == i,
                forall|j: int| 0 <= j < i ==> #[trigger] out@[j]@ == self@[n - 1 - j],
            decreases n - i,
        {
            assert(self@[n - 1 - i] == self.rows@[n - 1 - i]@);
            out.push(self.rows[n - 1 - i].copy());
            i = i + 1;
        }
        assert(out@.map_values(|u: User| u@) =~= self@.reverse());
        out
    }


    fn query_lists(&self, want: &Vec<String>, on_inbounds: bool) -> (r: Vec<User>)
        ensures
            r@.map_values(|u: User| u@) == list_query(self@, strings_view(want@), on_inbounds),
    {
        let ghost w = strings_view(want@);
        let ghost pred = |u: UserView| contains_all(if on_inbounds { u.inbounds } else { u.tags }, w);
        let mut out: Vec<User> = Vec::new();
        let mut i: usize = 0;
        while i < self.rows.len()
            invariant
                i <= self.rows@.len(),
                self@.len() == self.rows@.len(),
                w == strings_view(want@),
                pred == (|u: UserView| contains_all(if on_inbounds { u.inbounds } else { u.tags }, w)),
                out@.map_values(|u: User| u@) == self@.take(i as int).filter(pred),
            decreases self.rows@.len() - i,
        {
            let row = &self.rows[i];
            assert(self@[i as int] == row@);
            let keep = if on_inbounds {
                list_contains_all(&row.inbounds, want)
            } else {
                list_contains_all(&row.tags, want)
            };
            let ghost prev = out@.map_values(|u: User| u@);
            proof {
                reveal(Seq::filter);
                assert(self@.take(i + 1).drop_last() =~= self@.take(i as int));
                assert(self@.take(i + 1).last() == row@);
            }
            if keep {
                out.push(row.copy());
                assert(out@.map_values(|u: User| u@) =~= prev.push(row@));
            }
            i = i + 1;
        }
        assert(self@.take(i as int) =~= self@);
        out
    }

    /// The records whose tags include every tag of `tags`.
    pub fn query_users_by_tags(&self, tags: &Vec<String>) -> (r: Vec<User>)
        ensures
            r@.map_values(|u: User| u@) == list_query(self@, strings_view(tags@), false),
    {
        self.query_lists(tags, false)
    }

    /// The records whose inbounds include every inbound of `inbounds`.
    pub fn query_users_by_inbounds(&self, inbounds: &Vec<String>) -> (r: Vec<User>)
        ensures
            r@.map_values(|u: User| u@) == list_query(self@, strings_view(inbounds@), true),
    {
        self.query_lists(inbounds, true)
    }

}

} // verus!
