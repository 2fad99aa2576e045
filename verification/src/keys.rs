//! The identity provider's signing keys: the published key set, how it is
//! read from the discovery document, and the cache that decides when the
//! set has to be fetched again.

use vstd::prelude::*;
use vstd::string::*;
use crate::error::{AuthError, KeyFetchError};
use crate::json::{items, items_of, json_document, json_tree, member, member_of, parse, text, text_of,
    read_text_member, text_member, trees, JsonModel};
use crate::text::{join3, same_text};

verus! {

/// One published key: its id and the first certificate of its chain, as
/// the base64 text the provider publishes.
#[derive(Debug)]
pub struct SigningKey {
    pub kid: String,
    pub certificate: String,
}

/// What a signing key holds, as text.
pub ghost struct KeyModel {
    pub kid: Seq<char>,
    pub certificate: Seq<char>,
}

impl View for SigningKey {
    type V = KeyModel;

    open spec fn view(&self) -> KeyModel {
        KeyModel { kid: self.kid@, certificate: self.certificate@ }
    }
}

impl Clone for SigningKey {
    fn clone(&self) -> (copy: SigningKey)
        ensures
            copy@ == self@,
    {
        SigningKey { kid: self.kid.clone(), certificate: self.certificate.clone() }
    }
}

impl SigningKey {
    /// The certificate in PEM armour, as a key loader expects it.
    pub fn certificate_pem(&self) -> (pem: String)
        ensures
            pem@ == "-----BEGIN CERTIFICATE-----\n"@ + self.certificate@
                + "\n-----END CERTIFICATE-----"@,
    {
        join3(
            "-----BEGIN CERTIFICATE-----\n",
            self.certificate.as_str(),
            "\n-----END CERTIFICATE-----",
        )
    }
}

/// The first certificate of an entry's `x5c` chain.
pub open spec fn entry_certificate(entry: JsonModel) -> Option<Seq<char>> {
    match member_of(entry, "x5c"@) {
        Some(chain) => match items_of(chain) {
            Some(certs) => if certs.len() > 0 {
                text_of(certs[0])
            } else {
                None
            },
            None => None,
        },
        None => None,
    }
}

/// The key an entry of the discovery document stands for: its own `kid`
/// with its own first certificate. An entry that lacks either stands for no
/// key.
pub open spec fn entry_key(entry: JsonModel) -> Option<KeyModel> {
    match (text_member(entry, "kid"@), entry_certificate(entry)) {
        (Some(kid), Some(certificate)) => Some(KeyModel { kid, certificate }),
        _ => None,
    }
}

/// The keys of a list of entries, in the order of the entries.
pub open spec fn keys_of_entries(entries: Seq<JsonModel>) -> Seq<KeyModel>
    decreases entries.len(),
{
    if entries.len() == 0 {
        Seq::empty()
    } else {
        let earlier = keys_of_entries(entries.drop_last());
        match entry_key(entries.last()) {
            Some(key) => earlier.push(key),
            None => earlier,
        }
    }
}

/// Every key of a list of entries is the key of one of the entries: no key
/// stands under a `kid` other than that of the entry it was read from.
pub proof fn lemma_keys_match_entries(entries: Seq<JsonModel>, i: int)
    requires
        0 <= i < keys_of_entries(entries).len(),
    ensures
        exists|j: int|
            0 <= j < entries.len() && #[trigger] entry_key(entries[j]) == Some(
                keys_of_entries(entries)[i],
            ),
    decreases entries.len(),
{
    if entries.len() > 0 {
        let earlier_entries = entries.drop_last();
        let earlier = keys_of_entries(earlier_entries);
        let last = entries.len() - 1;
        if i < earlier.len() {
            lemma_keys_match_entries(earlier_entries, i);
            let j = choose|j: int|
                0 <= j < earlier_entries.len() && #[trigger] entry_key(earlier_entries[j]) == Some(
                    earlier[i],
                );
            assert(entries[j] == earlier_entries[j]);
            assert(entry_key(entries[j]) == Some(keys_of_entries(entries)[i]));
        } else {
            assert(entry_key(entries[last]) == Some(keys_of_entries(entries)[i]));
        }
    }
}

/// The keys of a discovery document: those of its `keys` array.
pub open spec fn keys_of_document(doc: JsonModel) -> Option<Seq<KeyModel>> {
    match member_of(doc, "keys"@) {
        Some(list) => match items_of(list) {
            Some(entries) => Some(keys_of_entries(entries)),
            None => None,
        },
        None => None,
    }
}

/// The keys of a response body, or why it holds none.
pub open spec fn keys_of_body(body: Seq<char>) -> Result<Seq<KeyModel>, KeyFetchError> {
    match json_document(body) {
        None => Err(KeyFetchError::MalformedBody),
        Some(doc) => match keys_of_document(doc) {
            None => Err(KeyFetchError::MissingKeys),
            Some(keys) => Ok(keys),
        },
    }
}

/// The first key with the given id.
pub open spec fn first_with_kid(keys: Seq<KeyModel>, kid: Seq<char>) -> Option<KeyModel>
    decreases keys.len(),
{
    if keys.len() == 0 {
        None
    } else if keys.first().kid == kid {
        Some(keys.first())
    } else {
        first_with_kid(keys.drop_first(), kid)
    }
}

/// Whether some key has the given id.
pub open spec fn has_kid(keys: Seq<KeyModel>, kid: Seq<char>) -> bool {
    exists|i: int| 0 <= i < keys.len() && (#[trigger] keys[i]).kid == kid
}

/// A key is found exactly when the set holds its id, and the key found
/// carries the id that was asked for.
pub proof fn lemma_first_with_kid(keys: Seq<KeyModel>, kid: Seq<char>)
    ensures
        first_with_kid(keys, kid).is_some() <==> has_kid(keys, kid),
        first_with_kid(keys, kid).is_some() ==> first_with_kid(keys, kid).unwrap().kid == kid,
        first_with_kid(keys, kid).is_some() ==> keys.contains(first_with_kid(keys, kid).unwrap()),
    decreases keys.len(),
{
    if keys.len() == 0 {
    } else if keys.first().kid == kid {
        assert(keys[0].kid == kid);
        assert(keys[0] == keys.first());
    } else {
        let rest = keys.drop_first();
        lemma_first_with_kid(rest, kid);
        if has_kid(rest, kid) {
            let i = choose|i: int| 0 <= i < rest.len() && (#[trigger] rest[i]).kid == kid;
            assert(keys[i + 1] == rest[i]);
            let found = first_with_kid(rest, kid).unwrap();
            let j = choose|j: int| 0 <= j < rest.len() && rest[j] == found;
            assert(keys[j + 1] == found);
        }
        if has_kid(keys, kid) {
            let i = choose|i: int| 0 <= i < keys.len() && (#[trigger] keys[i]).kid == kid;
            assert(i > 0);
            assert(rest[i - 1] == keys[i]);
        }
    }
}

/// The text of the address the keys of a tenant are published at.
pub open spec fn discovery_url_text(tenant: Seq<char>) -> Seq<char> {
    "https://login.microsoftonline.com/"@ + tenant + "/discovery/v2.0/keys"@
}

/// The text of the issuer that signs a tenant's tokens.
pub open spec fn issuer_text(tenant: Seq<char>) -> Seq<char> {
    "https://login.microsoftonline.com/"@ + tenant + "/v2.0"@
}

pub fn discovery_url(tenant: &str) -> (url: String)
    ensures
        url@ == discovery_url_text(tenant@),
{
    join3("https://login.microsoftonline.com/", tenant, "/discovery/v2.0/keys")
}

pub fn issuer_url(tenant: &str) -> (url: String)
    ensures
        url@ == issuer_text(tenant@),
{
    join3("https://login.microsoftonline.com/", tenant, "/v2.0")
}

/// The keys one fetch of the discovery document gave, with the address they
/// came from and the time of the fetch. A set is never changed; a refresh
/// builds a new one.
#[derive(Debug)]
pub struct SigningKeySet {
    pub source_url: String,
    pub fetched_at: u64,
    pub keys: Vec<SigningKey>,
}

fn read_entry(entry: &serde_json::Value) -> (key: Option<SigningKey>)
    ensures
        match key {
            Some(k) => entry_key(json_tree(*entry)) == Some(k@),
            None => entry_key(json_tree(*entry)).is_none(),
        },
{
    let kid = match read_text_member(entry, "kid") {
        Some(kid) => kid,
        None => { return None; },
    };
    let chain = match member(entry, "x5c") {
        Some(chain) => chain,
        None => { return None; },
    };
    let certs = match items(chain) {
        Some(certs) => certs,
        None => { return None; },
    };
    if certs.len() == 0 {
        return None;
    }
    assert(trees(certs@)[0] == json_tree(certs@[0]));
    match text(&certs[0]) {
        Some(certificate) => Some(SigningKey { kid, certificate: certificate.to_owned() }),
        None => None,
    }
}

impl SigningKeySet {
    /// The keys of the set, in order.
    pub open spec fn key_models(&self) -> Seq<KeyModel> {
        self.keys@.map_values(|k: SigningKey| k@)
    }

    pub fn new(source_url: &str, fetched_at: u64, keys: Vec<SigningKey>) -> (set: SigningKeySet)
        ensures
            set.source_url@ == source_url@,
            set.fetched_at == fetched_at,
            set.keys == keys,
    {
        SigningKeySet { source_url: String::from_str(source_url), fetched_at, keys }
    }

    /// Reads the key set out of the body of a discovery response.
    ///
    /// A body that is no JSON document is `MalformedBody`; a document with
    /// no `keys` array is `MissingKeys`. Every entry that has a `kid` and a
    /// certificate becomes a key, under its own `kid`.
    pub fn from_body(body: &str, source_url: &str, now: u64) -> (read: Result<
        SigningKeySet,
        KeyFetchError,
    >)
        ensures
            match read {
                Ok(set) => keys_of_body(body@) == Ok::<Seq<KeyModel>, KeyFetchError>(
                    set.key_models(),
                ) && set.source_url@ == source_url@ && set.fetched_at == now,
                Err(e) => keys_of_body(body@) == Err::<Seq<KeyModel>, KeyFetchError>(e),
            },
    {
        let doc = match parse(body) {
            Some(doc) => doc,
            None => { return Err(KeyFetchError::MalformedBody); },
        };
        let list = match member(&doc, "keys") {
            Some(list) => list,
            None => { return Err(KeyFetchError::MissingKeys); },
        };
        let entries = match items(list) {
            Some(entries) => entries,
            None => { return Err(KeyFetchError::MissingKeys); },
        };
        let mut keys: Vec<SigningKey> = Vec::new();
        let mut i: usize = 0;
        let ghost all = trees(entries@);
        assert(all.take(0) =~= Seq::empty());
        assert(keys@.map_values(|k: SigningKey| k@) =~= Seq::empty());
        while i < entries.len()
            invariant
                i <= entries.len(),
                all == trees(entries@),
                keys@.map_values(|k: SigningKey| k@) == keys_of_entries(all.take(i as int)),
            decreases entries.len() - i,
        {
            let ghost before = keys@;
            let ghost upto = all.take(i as int + 1);
            assert(upto.drop_last() =~= all.take(i as int));
            assert(upto.last() == json_tree(entries@[i as int]));
            match read_entry(&entries[i]) {
                Some(key) => {
                    keys.push(key);
                    assert(keys@.map_values(|k: SigningKey| k@) =~= before.map_values(
                        |k: SigningKey| k@,
                    ).push(key@));
                },
                None => {},
            }
            i += 1;
        }
        assert(all.take(i as int) =~= all);
        Ok(SigningKeySet { source_url: String::from_str(source_url), fetched_at: now, keys })
    }

    /// The first key of the set with the given id.
    pub fn find(&self, kid: &str) -> (found: Option<&SigningKey>)
        ensures
            match found {
                Some(key) => first_with_kid(self.key_models(), kid@) == Some(key@),
                None => first_with_kid(self.key_models(), kid@).is_none(),
            },
    {
        let ghost all = self.key_models();
        let mut i: usize = 0;
        assert(all.skip(0) =~= all);
        while i < self.keys.len()
            invariant
                i <= self.keys.len(),
                all == self.key_models(),
                first_with_kid(all, kid@) == first_with_kid(all.skip(i as int), kid@),
            decreases self.keys.len() - i,
        {
            let key = &self.keys[i];
            assert(all.skip(i as int).first() == key@);
            assert(all.skip(i as int).drop_first() =~= all.skip(i as int + 1));
            if same_text(key.kid.as_str(), kid) {
                return Some(key);
            }
            i += 1;
        }
        None
    }
}

/// What went wrong when a key was asked of the cache after a fetch.
#[derive(Clone, Copy, Debug, PartialEq, Eq, Structural)]
pub enum KeyError {
    /// The set that was fetched does not hold the key either: the tenant is
    /// unknown or the token is forged.
    KeyNotFound,
    /// The set could not be fetched or read.
    Fetch(KeyFetchError),
}

impl KeyError {
    /// A key that could not be had, for either reason, is an unknown key to
    /// the verification that asked for it.
    pub fn as_auth_error(&self) -> (e: AuthError)
        ensures
            e == AuthError::UnknownKey,
    {
        AuthError::UnknownKey
    }
}

/// Answer of the cache to a request for a key.
#[derive(Debug)]
pub enum KeyLookup {
    /// The key is cached.
    Found(SigningKey),
    /// The caller fetches the document at this address and reports back
    /// with `finish_fetch`.
    Fetch(String),
    /// Another request is fetching the set for this tenant: wait for it and
    /// ask again, without a call of one's own.
    Wait,
}

/// The keys of one tenant, as last fetched.
#[derive(Debug)]
pub struct KeyCache {
    pub tenant: String,
    pub max_age: u64,
    pub current: Option<SigningKeySet>,
    pub fetching: bool,
}

/// Whether a set fetched at `fetched_at` may still be used at `now`.
pub open spec fn is_fresh(fetched_at: u64, max_age: u64, now: u64) -> bool {
    now <= fetched_at || now - fetched_at <= max_age
}

impl KeyCache {
    /// The keys that may be used at `now`: those of the current set if it
    /// has not expired, none otherwise.
    pub open spec fn usable_keys(&self, now: u64) -> Seq<KeyModel> {
        match self.current {
            Some(set) => if is_fresh(set.fetched_at, self.max_age, now) {
                set.key_models()
            } else {
                Seq::empty()
            },
            None => Seq::empty(),
        }
    }

    /// An empty cache for a tenant; a fetched set is used for `max_age`
    /// seconds.
    pub fn new(tenant: &str, max_age: u64) -> (cache: KeyCache)
        ensures
            cache.tenant@ == tenant@,
            cache.max_age == max_age,
            cache.current.is_none(),
            !cache.fetching,
    {
        KeyCache { tenant: String::from_str(tenant), max_age, current: None, fetching: false }
    }

    /// Asks for the key with the given id.
    ///
    /// A key of an unexpired cached set is handed out and nothing changes:
    /// no call is owed. Otherwise, if no fetch is under way, the caller is
    /// told to fetch and the cache records that a fetch is under way; if one
    /// is, the caller is told to wait, so that misses for one tenant end in
    /// one call.
    pub fn get_key(&mut self, kid: &str, now: u64) -> (answer: KeyLookup)
        ensures
            final(self).tenant == old(self).tenant,
            final(self).max_age == old(self).max_age,
            final(self).current == old(self).current,
            match first_with_kid(old(self).usable_keys(now), kid@) {
                Some(key) => answer matches KeyLookup::Found(k) && k@ == key && final(self).fetching == old(self).fetching,
                None => if old(self).fetching {
                    answer is Wait && final(self).fetching
                } else {
                    answer matches KeyLookup::Fetch(url) && url@ == discovery_url_text(
                        old(self).tenant@,
                    ) && final(self).fetching
                },
            },
    {
        let cached: Option<SigningKey> = match &self.current {
            Some(set) => {
                if now <= set.fetched_at || now - set.fetched_at <= self.max_age {
                    match set.find(kid) {
                        Some(key) => Some(key.clone()),
                        None => None,
                    }
                } else {
                    None
                }
            },
            None => None,
        };
        match cached {
            Some(key) => KeyLookup::Found(key),
            None => {
                if self.fetching {
                    KeyLookup::Wait
                } else {
                    self.fetching = true;
                    KeyLookup::Fetch(discovery_url(self.tenant.as_str()))
                }
            },
        }
    }

    /// Takes the outcome of the fetch that `get_key` asked for: the body of
    /// the response, or `None` where the call failed or timed out.
    ///
    /// A body that holds a key set replaces the cached set as a whole, and
    /// the key is looked up in the new set. Where the body holds none, the
    /// cached set stays as it was. Either way the fetch is over.
    pub fn finish_fetch(&mut self, body: Option<&str>, kid: &str, now: u64) -> (answer: Result<
        SigningKey,
        KeyError,
    >)
        ensures
            final(self).tenant == old(self).tenant,
            final(self).max_age == old(self).max_age,
            !final(self).fetching,
            match body {
                None => answer == Err::<SigningKey, KeyError>(
                    KeyError::Fetch(KeyFetchError::Network),
                ) && final(self).current == old(self).current,
                Some(b) => match keys_of_body(b@) {
                    Err(e) => answer == Err::<SigningKey, KeyError>(KeyError::Fetch(e)) && final(self).current == old(self).current,
                    Ok(keys) => {
                        &&& final(self).current matches Some(set) && set.key_models() == keys
                            && set.fetched_at == now && set.source_url@ == discovery_url_text(
                            old(self).tenant@,
                        )
                        &&& match first_with_kid(keys, kid@) {
                            Some(key) => answer matches Ok(k) && k@ == key,
                            None => answer == Err::<SigningKey, KeyError>(KeyError::KeyNotFound),
                        }
                    },
                },
            },
    {
        self.fetching = false;
        let body = match body {
            Some(body) => body,
            None => { return Err(KeyError::Fetch(KeyFetchError::Network)); },
        };
        let url = discovery_url(self.tenant.as_str());
        match SigningKeySet::from_body(body, url.as_str(), now) {
            Err(e) => Err(KeyError::Fetch(e)),
            Ok(set) => {
                let answer = match set.find(kid) {
                    Some(key) => Ok(key.clone()),
                    None => Err(KeyError::KeyNotFound),
                };
                self.current = Some(set);
                answer
            },
        }
    }
}

impl KeyCache {
    /// Gives up the fetch that `get_key` asked for, where the request that
    /// was to make it ended before it could report: the next request that
    /// misses is told to fetch. Nothing else changes.
    pub fn abandon_fetch(&mut self)
        ensures
            !final(self).fetching,
            final(self).tenant == old(self).tenant,
            final(self).max_age == old(self).max_age,
            final(self).current == old(self).current,
    {
        self.fetching = false;
    }
}

/// How often a request that was told to wait asks again.
pub const MAX_WAIT_ROUNDS: u32 = 200;

/// Milliseconds between two such questions.
pub const WAIT_MILLIS: u64 = 50;

/// What a request does that was told to wait for another's fetch and has
/// already waited `rounds` times: it waits once more, for so many
/// milliseconds, or gives the fetch up as failed.
pub fn after_wait(rounds: u32) -> (step: Result<u64, KeyError>)
    ensures
        step == if rounds < MAX_WAIT_ROUNDS {
            Ok::<u64, KeyError>(WAIT_MILLIS)
        } else {
            Err::<u64, KeyError>(KeyError::Fetch(KeyFetchError::Network))
        },
{
    if rounds < MAX_WAIT_ROUNDS {
        Ok(WAIT_MILLIS)
    } else {
        Err(KeyError::Fetch(KeyFetchError::Network))
    }
}

} // verus!
