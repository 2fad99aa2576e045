//! Server-side sessions: an opaque payload kept under an id that only the
//! holder of the matching cookie value can name.
//!
//! Cookie values and the ids derived from them come from `async_session`.
//! The store itself is a plain table, so that a shared cache can take its
//! place behind the same three operations.

use vstd::prelude::*;
use vstd::string::*;
use crate::error::SessionError;
use crate::text::{join3, optional_text, same_text};

verus! {

/// The session id that `async_session::Session::id_from_cookie_value`
/// derives from a cookie value. `None` where the value is no base64 text.
pub uninterp spec fn session_id_of(cookie: Seq<char>) -> Option<Seq<char>>;

/// `async_session::Session::new`, then `Session::into_cookie_value`: the
/// cookie value of a new session, drawn at random. A new session always
/// has a cookie value, and `Session::new` has derived the session's id from
/// it, so the value has one. Nothing else is claimed of the value.
#[verifier::external_body]
fn fresh_cookie_value() -> (value: Option<String>)
    ensures
        value.is_some(),
        session_id_of(value.unwrap()@).is_some(),
{
    async_session::Session::new().into_cookie_value()
}

/// `async_session::Session::id_from_cookie_value`: the id under which the
/// session of a cookie value is kept.
#[verifier::external_body]
fn session_id(cookie: &str) -> (id: Option<String>)
    ensures
        optional_text(id) == session_id_of(cookie@),
{
    async_session::Session::id_from_cookie_value(cookie).ok()
}

/// One stored session.
#[derive(Debug)]
pub struct SessionEntry {
    id: String,
    payload: Vec<u8>,
}

/// The sessions of this process, by id.
#[derive(Debug)]
pub struct SessionStore {
    entries: Vec<SessionEntry>,
}

/// The payload kept under an id: that of the last entry with the id.
pub closed spec fn payload_under(entries: Seq<SessionEntry>, id: Seq<char>) -> Option<Seq<u8>>
    decreases entries.len(),
{
    if entries.len() == 0 {
        None
    } else if entries.last().id@ == id {
        Some(entries.last().payload@)
    } else {
        payload_under(entries.drop_last(), id)
    }
}

impl View for SessionStore {
    type V = Map<Seq<char>, Seq<u8>>;

    /// The payloads of the store, by session id.
    closed spec fn view(&self) -> Map<Seq<char>, Seq<u8>> {
        Map::new(
            |id: Seq<char>| payload_under(self.entries@, id).is_some(),
            |id: Seq<char>| payload_under(self.entries@, id).unwrap(),
        )
    }
}

/// The sessions after a payload was stored for a cookie value: one more,
/// under the id of the value. Nothing is stored for a value that has no id
/// or whose id is taken.
pub open spec fn created(
    before: Map<Seq<char>, Seq<u8>>,
    cookie: Seq<char>,
    payload: Seq<u8>,
) -> Option<Map<Seq<char>, Seq<u8>>> {
    match session_id_of(cookie) {
        Some(id) => if before.contains_key(id) {
            None
        } else {
            Some(before.insert(id, payload))
        },
        None => None,
    }
}

/// Whether the id of a cookie value is the id of a stored session.
pub open spec fn id_in_use(sessions: Map<Seq<char>, Seq<u8>>, cookie: Seq<char>) -> bool {
    match session_id_of(cookie) {
        Some(id) => sessions.contains_key(id),
        None => false,
    }
}

/// What loading a cookie value gives.
pub open spec fn loaded(sessions: Map<Seq<char>, Seq<u8>>, cookie: Seq<char>) -> Result<
    Seq<u8>,
    SessionError,
> {
    match session_id_of(cookie) {
        Some(id) => if sessions.contains_key(id) {
            Ok(sessions[id])
        } else {
            Err(SessionError::NotFound)
        },
        None => Err(SessionError::NotFound),
    }
}

/// The sessions after the session of a cookie value was destroyed.
pub open spec fn destroyed(before: Map<Seq<char>, Seq<u8>>, cookie: Seq<char>) -> Map<
    Seq<char>,
    Seq<u8>,
> {
    match session_id_of(cookie) {
        Some(id) => before.remove(id),
        None => before,
    }
}

fn copy_bytes(bytes: &Vec<u8>) -> (copy: Vec<u8>)
    ensures
        copy@ == bytes@,
{
    let mut copy: Vec<u8> = Vec::new();
    let mut i: usize = 0;
    while i < bytes.len()
        invariant
            i <= bytes.len(),
            copy@ =~= bytes@.take(i as int),
        decreases bytes.len() - i,
    {
        copy.push(bytes[i]);
        i += 1;
    }
    assert(bytes@.take(i as int) =~= bytes@);
    copy
}

impl SessionStore {
    /// A store without sessions.
    pub fn new() -> (store: SessionStore)
        ensures
            store@ == Map::<Seq<char>, Seq<u8>>::empty(),
    {
        let store = SessionStore { entries: Vec::new() };
        assert(store@ =~= Map::<Seq<char>, Seq<u8>>::empty());
        store
    }

    fn find(&self, id: &str) -> (payload: Option<&Vec<u8>>)
        ensures
            match payload {
                Some(p) => payload_under(self.entries@, id@) == Some(p@),
                None => payload_under(self.entries@, id@).is_none(),
            },
    {
        let mut i: usize = self.entries.len();
        assert(self.entries@.take(i as int) =~= self.entries@);
        while i > 0
            invariant
                i <= self.entries.len(),
                payload_under(self.entries@, id@) == payload_under(
                    self.entries@.take(i as int),
                    id@,
                ),
            decreases i,
        {
            i -= 1;
            let entry = &self.entries[i];
            assert(self.entries@.take(i as int + 1).last() == *entry);
            assert(self.entries@.take(i as int + 1).drop_last() =~= self.entries@.take(i as int));
            if same_text(entry.id.as_str(), id) {
                return Some(&entry.payload);
            }
        }
        None
    }

    /// Stores a payload for a given cookie value and hands the value back.
    ///
    /// Nothing is stored, and `None` is returned, for a value that has no
    /// session id or whose id is in use: no two sessions share an id.
    pub fn insert(&mut self, cookie: String, payload: Vec<u8>) -> (stored: Option<String>)
        ensures
            match created(old(self)@, cookie@, payload@) {
                Some(after) => final(self)@ == after && optional_text(stored) == Some(cookie@),
                None => final(self)@ == old(self)@ && stored.is_none(),
            },
    {
        let id = match session_id(cookie.as_str()) {
            Some(id) => id,
            None => { return None; },
        };
        if self.find(id.as_str()).is_some() {
            return None;
        }
        let ghost before = self.entries@;
        let ghost id_text = id@;
        let ghost payload_bytes = payload@;
        self.entries.push(SessionEntry { id, payload });
        proof {
            assert(self.entries@.drop_last() =~= before);
            assert(final(self)@ =~= old(self)@.insert(id_text, payload_bytes));
        }
        Some(cookie)
    }

    /// Creates a session for a payload and returns its cookie value.
    ///
    /// The value is drawn at random, and the session is stored under its
    /// id. The one draw that is refused is a value whose id is in use:
    /// `None` is then returned and nothing is stored. A store without
    /// sessions therefore never refuses.
    pub fn create(&mut self, payload: Vec<u8>) -> (cookie: Option<String>)
        ensures
            match cookie {
                Some(c) => created(old(self)@, c@, payload@) == Some(final(self)@),
                None => final(self)@ == old(self)@ && exists|drawn: Seq<char>|
                    id_in_use(old(self)@, drawn),
            },
    {
        match fresh_cookie_value() {
            Some(cookie) => {
                let ghost drawn = cookie@;
                let stored = self.insert(cookie, payload);
                assert(stored.is_none() ==> id_in_use(old(self)@, drawn));
                stored
            },
            None => None,
        }
    }

    /// The payload of the session that a cookie value names.
    pub fn load(&self, cookie: &str) -> (payload: Result<Vec<u8>, SessionError>)
        ensures
            match payload {
                Ok(p) => loaded(self@, cookie@) == Ok::<Seq<u8>, SessionError>(p@),
                Err(e) => loaded(self@, cookie@) == Err::<Seq<u8>, SessionError>(e),
            },
    {
        let id = match session_id(cookie) {
            Some(id) => id,
            None => { return Err(SessionError::NotFound); },
        };
        match self.find(id.as_str()) {
            Some(payload) => Ok(copy_bytes(payload)),
            None => Err(SessionError::NotFound),
        }
    }

    /// Destroys the session that a cookie value names, if there is one.
    pub fn destroy(&mut self, cookie: &str)
        ensures
            final(self)@ == destroyed(old(self)@, cookie@),
    {
        let id = match session_id(cookie) {
            Some(id) => id,
            None => { return ; },
        };
        let mut kept: Vec<SessionEntry> = Vec::new();
        let mut i: usize = 0;
        while i < self.entries.len()
            invariant
                i <= self.entries.len(),
                forall|k: Seq<char>| #[trigger]
                    payload_under(kept@, k) == (if k == id@ {
                        None
                    } else {
                        payload_under(self.entries@.take(i as int), k)
                    }),
            decreases self.entries.len() - i,
        {
            let entry = &self.entries[i];
            let ghost kept_before = kept@;
            let ghost upto = self.entries@.take(i as int + 1);
            assert(upto.last() == *entry);
            assert(upto.drop_last() =~= self.entries@.take(i as int));
            if !same_text(entry.id.as_str(), id.as_str()) {
                let copy = SessionEntry {
                    id: entry.id.clone(),
                    payload: copy_bytes(&entry.payload),
                };
                kept.push(copy);
                assert(kept@.last() == copy);
                assert(kept@.drop_last() =~= kept_before);
            }
            assert forall|k: Seq<char>| #[trigger]
                payload_under(kept@, k) == (if k == id@ {
                    None
                } else {
                    payload_under(upto, k)
                }) by {
                assert(payload_under(kept_before, k) == (if k == id@ {
                    None
                } else {
                    payload_under(self.entries@.take(i as int), k)
                }));
            }
            i += 1;
        }
        proof {
            assert(self.entries@.take(i as int) =~= self.entries@);
        }
        self.entries = kept;
        proof {
            assert(final(self)@ =~= old(self)@.remove(id@));
        }
    }
}

/// The `Set-Cookie` value that hands a session's cookie value to the
/// browser.
pub fn session_cookie_header(cookie: &str) -> (header: String)
    ensures
        header@ == "SESSION="@ + cookie@ + "; SameSite=Lax; Path=/"@,
{
    join3("SESSION=", cookie, "; SameSite=Lax; Path=/")
}

/// After a session was created, loading its cookie value gives back the
/// payload it was created with.
pub proof fn lemma_load_after_create(
    before: Map<Seq<char>, Seq<u8>>,
    cookie: Seq<char>,
    payload: Seq<u8>,
)
    requires
        created(before, cookie, payload) is Some,
    ensures
        loaded(created(before, cookie, payload).unwrap(), cookie) == Ok::<Seq<u8>, SessionError>(
            payload,
        ),
{
}

/// Two sessions created one after the other have different ids and
/// different cookie values, and each cookie value loads its own payload.
pub proof fn lemma_two_creates_are_distinct(
    before: Map<Seq<char>, Seq<u8>>,
    first_cookie: Seq<char>,
    first_payload: Seq<u8>,
    second_cookie: Seq<char>,
    second_payload: Seq<u8>,
)
    requires
        created(before, first_cookie, first_payload) is Some,
        created(
            created(before, first_cookie, first_payload).unwrap(),
            second_cookie,
            second_payload,
        ) is Some,
    ensures
        session_id_of(first_cookie) != session_id_of(second_cookie),
        first_cookie != second_cookie,
        ({
            let after = created(
                created(before, first_cookie, first_payload).unwrap(),
                second_cookie,
                second_payload,
            ).unwrap();
            &&& loaded(after, first_cookie) == Ok::<Seq<u8>, SessionError>(first_payload)
            &&& loaded(after, second_cookie) == Ok::<Seq<u8>, SessionError>(second_payload)
        }),
{
}

/// After a session was destroyed, loading its cookie value finds nothing.
pub proof fn lemma_load_after_destroy(sessions: Map<Seq<char>, Seq<u8>>, cookie: Seq<char>)
    ensures
        loaded(destroyed(sessions, cookie), cookie) == Err::<Seq<u8>, SessionError>(
            SessionError::NotFound,
        ),
{
}

/// Destroying one session leaves every other session as it was.
pub proof fn lemma_destroy_keeps_others(
    sessions: Map<Seq<char>, Seq<u8>>,
    cookie: Seq<char>,
    other: Seq<char>,
)
    requires
        session_id_of(other) != session_id_of(cookie),
    ensures
        loaded(destroyed(sessions, cookie), other) == loaded(sessions, other),
{
}

} // verus!
