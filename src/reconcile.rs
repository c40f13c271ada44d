//! Keeping the engine's live user tables in step with the directory, and
//! the names and texts of the statistics it is asked for.
use vstd::prelude::*;
use vstd::string::*;
use crate::types::{User, UserView};
use crate::text::{signed_decimal, signed_decimal_string, strings_view};

verus! {

/// One management call to the engine.
#[derive(Debug, Clone)]
pub enum EngineCall {
    /// Add the user with this id and email to the named inbound.
    AddUser { inbound: String, id: String, email: String },
    /// Remove the user with this email from the named inbound.
    RemoveUser { inbound: String, email: String },
}

/// The inbounds a record is provisioned on; a record without a list is on none.
pub open spec fn inbound_list(u: UserView) -> Seq<Seq<char>> {
    match u.inbounds {
        Some(s) => s,
        None => Seq::empty(),
    }
}

/// `c` adds the user `id`/`email` to `inbound`.
pub open spec fn is_add_call(c: EngineCall, inbound: Seq<char>, id: Seq<char>, email: Seq<char>) -> bool {
    match c {
        EngineCall::AddUser { inbound: b, id: i, email: e } => b@ == inbound && i@ == id && e@ == email,
        _ => false,
    }
}

/// `c` removes the user `email` from `inbound`.
pub open spec fn is_remove_call(c: EngineCall, inbound: Seq<char>, email: Seq<char>) -> bool {
    match c {
        EngineCall::RemoveUser { inbound: b, email: e } => b@ == inbound && e@ == email,
        _ => false,
    }
}

/// The calls that provision a newly stored user: one per inbound of the
/// record, in the record's order, each carrying the user's id and email.
pub fn provisioning_calls(user: &User) -> (r: Vec<EngineCall>)
    ensures
        r@.len() == inbound_list(user@).len(),
        forall|i: int| 0 <= i < r@.len() ==> is_add_call(#[trigger] r@[i], inbound_list(user@)[i], user.id@, user.email@),
{
    let mut out: Vec<EngineCall> = Vec::new();
    match &user.inbounds {
        None => {}
        Some(list) => {
            let mut i: usize = 0;
            while i < list.len()
                invariant
                    user.inbounds == Some(*list),
                    i <= list@.len(),
                    out@.len() == i,
                    forall|j: int| 0 <= j < i ==> is_add_call(#[trigger] out@[j], list@[j]@, user.id@, user.email@),
                decreases list@.len() - i,
            {
                out.push(EngineCall::AddUser {
                    inbound: list[i].clone(),
                    id: user.id.clone(),
                    email: user.email.clone(),
                });
                i = i + 1;
            }
        }
    }
    out
}

/// The calls that take a user off the engine before its record is deleted:
/// one per inbound of the record, in the record's order.
pub fn deprovisioning_calls(user: &User) -> (r: Vec<EngineCall>)
    ensures
        r@.len() == inbound_list(user@).len(),
        forall|i: int| 0 <= i < r@.len() ==> is_remove_call(#[trigger] r@[i], inbound_list(user@)[i], user.email@),
{
    let mut out: Vec<EngineCall> = Vec::new();
    match &user.inbounds {
        None => {}
        Some(list) => {
            let mut i: usize = 0;
            while i < list.len()
                invariant
                    user.inbounds == Some(*list),
                    i <= list@.len(),
                    out@.len() == i,
                    forall|j: int| 0 <= j < i ==> is_remove_call(#[trigger] out@[j], list@[j]@, user.email@),
                decreases list@.len() - i,
            {
                out.push(EngineCall::RemoveUser { inbound: list[i].clone(), email: user.email.clone() });
                i = i + 1;
            }
        }
    }
    out
}

/// Name of the counter of a user's online presence.
pub open spec fn online_metric_name(email: Seq<char>) -> Seq<char> {
    "user>>>"@ + email + ">>>online"@
}

/// Name of a traffic counter: `scope` is `user`, `inbound` or `outbound`,
/// `direction` is `uplink` or `downlink`.
pub open spec fn traffic_metric_name(scope: Seq<char>, name: Seq<char>, direction: Seq<char>) -> Seq<char> {
    scope + ">>>"@ + name + ">>>traffic>>>"@ + direction
}

/// The counter of `email`'s online presence.
pub fn online_metric(email: &str) -> (r: String)
    ensures
        r@ == online_metric_name(email@),
{
    let mut s = String::from_str("user>>>");
    s.append(email);
    s.append(">>>online");
    s
}

/// The uplink and downlink counters of `name` within `scope`.
pub fn traffic_metrics(scope: &str, name: &str) -> (r: (String, String))
    ensures
        r.0@ == traffic_metric_name(scope@, name@, "uplink"@),
        r.1@ == traffic_metric_name(scope@, name@, "downlink"@),
{
    let mut up = String::from_str(scope);
    up.append(">>>");
    up.append(name);
    up.append(">>>traffic>>>");
    let mut down = up.clone();
    up.append("uplink");
    down.append("downlink");
    (up, down)
}

/// A counter's value; a counter the engine does not have counts zero.
pub open spec fn counter_value(stat: Option<i64>) -> int {
    match stat {
        Some(v) => v as int,
        None => 0,
    }
}

/// The reply to a counter read: the value in decimal.
pub fn count_reply(stat: Option<i64>) -> (r: String)
    ensures
        r@ == signed_decimal(counter_value(stat)),
{
    match stat {
        Some(v) => signed_decimal_string(v),
        None => signed_decimal_string(0),
    }
}

/// The reply to a traffic read: uplink and downlink in decimal, separated
/// by one space.
pub fn traffic_reply(up: Option<i64>, down: Option<i64>) -> (r: String)
    ensures
        r@ == signed_decimal(counter_value(up)) + " "@ + signed_decimal(counter_value(down)),
{
    let mut s = count_reply(up);
    s.append(" ");
    let d = count_reply(down);
    s.append(d.as_str());
    s
}

/// The pretty-printed JSON array of a list of strings.
pub uninterp spec fn pretty_json_strings(items: Seq<Seq<char>>) -> Seq<char>;

/// Relies on `serde_json::to_string_pretty` on a list of strings: the text
/// depends on the strings alone, an empty list prints as `[]`, and printing
/// fails only where serializing or writing fails, which strings written into
/// memory never do.
#[verifier::external_body]
fn strings_to_pretty_json(items: &Vec<String>) -> (r: Option<String>)
    ensures
        r is Some,
        r->0@ == pretty_json_strings(strings_view(items@)),
        items@.len() == 0 ==> r->0@ == "[]"@,
{
    serde_json::to_string_pretty(items).ok()
}

/// The reply to a listing of emails: a pretty-printed JSON array.
pub fn emails_reply(emails: &Vec<String>) -> (r: String)
    ensures
        r@ == pretty_json_strings(strings_view(emails@)),
        emails@.len() == 0 ==> r@ == "[]"@,
{
    match strings_to_pretty_json(emails) {
        Some(s) => s,
        None => String::new(),
    }
}

/// The strings of `items` joined by `sep`.
pub open spec fn joined(items: Seq<Seq<char>>, sep: Seq<char>) -> Seq<char>
    decreases items.len(),
{
    if items.len() == 0 {
        Seq::empty()
    } else if items.len() == 1 {
        items[0]
    } else {
        joined(items.drop_last(), sep) + sep + items.last()
    }
}

/// `head`, followed by `intro` and the failures joined by `; ` when there
/// are any.
pub open spec fn with_failures(head: Seq<char>, intro: Seq<char>, failures: Seq<Seq<char>>) -> Seq<char> {
    if failures.len() == 0 {
        head
    } else {
        head + intro + joined(failures, "; "@)
    }
}

/// The failure texts joined by `; `.
fn join_failures(failures: &Vec<String>) -> (r: String)
    ensures
        r@ == joined(strings_view(failures@), "; "@),
{
    let mut out = String::new();
    let mut i: usize = 0;
    while i < failures.len()
        invariant
            i <= failures@.len(),
            out@ == joined(strings_view(failures@.take(i as int)), "; "@),
        decreases failures@.len() - i,
    {
        let ghost before = strings_view(failures@.take(i as int));
        assert(strings_view(failures@.take(i + 1)) =~= before.push(failures@[i as int]@));
        assert(strings_view(failures@.take(i + 1)).drop_last() =~= before);
        if i > 0 {
            out.append("; ");
        } else {
            assert(before =~= Seq::<Seq<char>>::empty());
        }
        out.append(failures[i].as_str());
        i = i + 1;
    }
    assert(failures@.take(i as int) =~= failures@);
    out
}

/// The reply to a create: the record was stored; the provisioning calls
/// that failed, if any, are reported after it.
pub fn created_reply(failures: &Vec<String>) -> (r: String)
    ensures
        r@ == with_failures("User created"@, "; provisioning failed: "@, strings_view(failures@)),
{
    let mut s = String::from_str("User created");
    if failures.len() > 0 {
        s.append("; provisioning failed: ");
        let j = join_failures(failures);
        s.append(j.as_str());
    }
    s
}

/// The reply to a delete: whether a record was removed, then the
/// de-provisioning calls that failed, if any.
pub fn deleted_reply(deleted: bool, failures: &Vec<String>) -> (r: String)
    ensures
        r@ == with_failures(
            if deleted { "true"@ } else { "false"@ },
            "; de-provisioning failed: "@,
            strings_view(failures@),
        ),
{
    let mut s = if deleted { String::from_str("true") } else { String::from_str("false") };
    if failures.len() > 0 {
        s.append("; de-provisioning failed: ");
        let j = join_failures(failures);
        s.append(j.as_str());
    }
    s
}

/// The reply to an operation on an email that no record has.
pub open spec fn not_found_text(email: Seq<char>) -> Seq<char> {
    "User "@ + email + " not found"@
}

/// The reply to a delete or update of an email that no record has.
pub fn not_found_reply(email: &str) -> (r: String)
    ensures
        r@ == not_found_text(email@),
{
    let mut s = String::from_str("User ");
    s.append(email);
    s.append(" not found");
    s
}

/// The reply to an update that was applied to the record of `email`.
pub fn updated_reply(email: &str) -> (r: String)
    ensures
        r@ == "User "@ + email@ + " updated"@,
{
    let mut s = String::from_str("User ");
    s.append(email);
    s.append(" updated");
    s
}

/// The first step of a create, once the store has answered: a refused
/// insert ends the request with the store's message and no engine call; a
/// stored record is provisioned on each of its inbounds.
pub fn create_step(stored: &Result<User, String>) -> (r: Result<Vec<EngineCall>, String>)
    ensures
        match *stored {
            Err(msg) => r is Err && r->Err_0@ == msg@,
            Ok(u) => r is Ok && r->Ok_0@.len() == inbound_list(u@).len() && forall|i: int|
                0 <= i < r->Ok_0@.len() ==> is_add_call(#[trigger] r->Ok_0@[i], inbound_list(u@)[i], u.id@, u.email@),
        },
{
    match stored {
        Err(msg) => Err(msg.clone()),
        Ok(u) => Ok(provisioning_calls(u)),
    }
}

/// The first step of a delete, once the record of `email` has been looked
/// up: no record ends the request with the not-found reply, with no engine
/// call and no change to the store; a record is first taken off each of
/// its inbounds, and deleted afterwards whatever those calls return.
pub fn delete_plan(email: &str, found: &Option<User>) -> (r: Result<Vec<EngineCall>, String>)
    ensures
        match *found {
            None => r is Err && r->Err_0@ == not_found_text(email@),
            Some(u) => r is Ok && r->Ok_0@.len() == inbound_list(u@).len() && forall|i: int|
                0 <= i < r->Ok_0@.len() ==> is_remove_call(#[trigger] r->Ok_0@[i], inbound_list(u@)[i], u.email@),
        },
{
    match found {
        None => Err(not_found_reply(email)),
        Some(u) => Ok(deprovisioning_calls(u)),
    }
}

} // verus!
