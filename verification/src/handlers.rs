//! The two endpoints' decisions, kept apart from their I/O: the cache
//! greeting is served read-first against the key-value collaborator, and the
//! user insert validates its payload before the relational store is asked for
//! a row. The collaborators' results come in as plain values.

use vstd::prelude::*;

use vstd::string::StrSliceExecFns;
use vstd::string::StringExecFns;
use vstd::string::StringSliceAdditionalSpecFns;

verus! {

/// The payload of the user-creation endpoint.
pub struct CreateUser {
    pub username: String,
}

/// The row the user-creation endpoint echoes back.
pub struct User {
    pub id: i64,
    pub username: String,
}

/// A payload is valid when its username is not empty.
pub open spec fn valid_username(u: Seq<char>) -> bool {
    u.len() >= 1
}

/// A rejected payload.
#[derive(Debug)]
pub struct ValidationError {}

impl ValidationError {
    /// The message the client sees for an empty username.
    pub fn message(&self) -> (m: String)
        ensures
            m@ == "Can not be empty"@,
    {
        String::from_str("Can not be empty")
    }
}

impl CreateUser {
    /// Accept the payload exactly when the username is non-empty.
    pub fn validate(&self) -> (r: Result<(), ValidationError>)
        ensures
            r is Ok <==> valid_username(self.username@),
    {
        if self.username.as_str().unicode_len() >= 1 {
            Ok(())
        } else {
            Err(ValidationError {  })
        }
    }
}

/// Decide the user insert: a valid payload becomes the row under the id the
/// store assigned; an invalid one is rejected before the store is asked.
pub fn create_user(payload: CreateUser, new_id: i64) -> (r: Result<User, ValidationError>)
    ensures
        valid_username(payload.username@) ==> (r matches Ok(u) && u.id == new_id && u.username@
            == payload.username@),
        !valid_username(payload.username@) ==> r is Err,
{
    match payload.validate() {
        Ok(_) => Ok(User { id: new_id, username: payload.username }),
        Err(e) => Err(e),
    }
}

/// The response status of the user insert: created on success, a validation
/// failure is the client's error.
pub fn create_user_status(ok: bool) -> (s: u16)
    ensures
        ok ==> s == 201,
        !ok ==> s == 422,
{
    if ok {
        201
    } else {
        422
    }
}

/// The greeting the root endpoint serves and caches.
pub open spec fn greeting() -> Seq<u8> {
    "Hello, axio-demo!".spec_bytes()
}

/// The greeting's time-to-live in the cache, in seconds.
pub const GREETING_TTL: u64 = 10;

/// What the root endpoint asks of the cache collaborator after a miss.
pub struct CacheWrite {
    pub value: Vec<u8>,
    pub ttl: u64,
}

/// What the root endpoint does for one request, given what the cache returned
/// for its key.
pub struct RootAction {
    pub body: Vec<u8>,
    pub write: Option<CacheWrite>,
}

/// Decide the root exchange: a cache hit is served as it is, with no second
/// backend write; a miss serves the greeting and writes it back under its
/// time-to-live.
pub fn root(cached: Option<Vec<u8>>) -> (a: RootAction)
    ensures
        cached matches Some(v) ==> a.body@ == v@ && a.write is None,
        cached is None ==> a.body@ == greeting() && (a.write matches Some(w) && w.value@
            == greeting() && w.ttl == GREETING_TTL),
{
    match cached {
        Some(v) => RootAction { body: v, write: None },
        None => RootAction {
            body: "Hello, axio-demo!".as_bytes_vec(),
            write: Some(
                CacheWrite { value: "Hello, axio-demo!".as_bytes_vec(), ttl: GREETING_TTL },
            ),
        },
    }
}

/// A value-level model of the cache collaborator's single greeting slot, for
/// stating and testing the time-to-live behaviour end to end.
pub struct CacheModel {
    pub present: bool,
    pub value: Vec<u8>,
    pub expires: u64,
}

/// Does a read at instant `now` hit?
pub open spec fn cache_hit(c: CacheModel, now: u64) -> bool {
    c.present && now < c.expires
}

/// One whole root exchange against the modeled cache at instant `now`:
/// read-first, write-back on a miss.
pub fn root_exchange(c: &mut CacheModel, now: u64) -> (out: (Vec<u8>, bool))
    requires
        now + GREETING_TTL <= u64::MAX,
    ensures
        cache_hit(*old(c), now) ==> out.0@ == old(c).value@ && out.1 == false && *final(c) == *old(c),
        !cache_hit(*old(c), now) ==> out.0@ == greeting() && out.1 == true && final(c).present
            && final(c).value@ == greeting() && final(c).expires == now + GREETING_TTL,
{
    let hit = c.present && now < c.expires;
    let cached: Option<Vec<u8>> = if hit {
        Some(crate::trace::capture_body(&c.value, c.value.len()))
    } else {
        None
    };
    let action = root(cached);
    match action.write {
        Some(w) => {
            c.present = true;
            c.value = w.value;
            c.expires = now + w.ttl;
            (action.body, true)
        },
        None => (action.body, false),
    }
}

/// Law: a second read within the time-to-live window hits, so — by
/// `root_exchange`'s contract — it returns the identical cached value and
/// performs no second backend write.
pub proof fn lemma_second_read_within_ttl(c: CacheModel, t1: u64)
    requires
        c.present,
        t1 < c.expires,
    ensures
        cache_hit(c, t1),
{
}

} // verus!
