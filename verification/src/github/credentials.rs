//! Credentials. They are read locally, before any quota is looked at. What is known of a
//! quota belongs to a credential, and only a digest of the credential names it.

use crate::evidence;
use crate::github::cache::{ApiState, ApiStateView};
use crate::github::response;
use crate::text;
use crate::text_map::TextMap;
use vstd::prelude::*;

verus! {

broadcast use vstd::seq_lib::group_seq_properties;

/// The longest credential, in bytes.
pub const MAX_CREDENTIAL: usize = 16_384;

/// How many credentials are remembered.
pub const MAX_SESSIONS: usize = 64;

/// Whether a text can be a credential.
pub open spec fn is_credential(token: Seq<char>) -> bool {
    &&& token.len() > 0
    &&& vstd::utf8::encode_utf8(token).len() <= MAX_CREDENTIAL
    &&& forall|i: int| 0 <= i < token.len() ==> !text::is_space(#[trigger] token[i])
}

/// The credential that the GitHub CLI printed, or why there is none.
pub open spec fn credential_of(succeeded: bool, printed: Seq<u8>) -> Result<Seq<char>, Seq<char>> {
    if !succeeded {
        Err("Cannot read GitHub credentials; run gh auth login"@)
    } else if !vstd::utf8::valid_utf8(printed) {
        Err("Invalid GitHub credential encoding"@)
    } else {
        let token = text::trimmed(vstd::utf8::decode_utf8(printed));
        if is_credential(token) {
            Ok(token)
        } else {
            Err("Invalid GitHub credential; run gh auth login"@)
        }
    }
}

/// The name of a credential: its digest.
pub open spec fn credential_key(token: Seq<char>) -> Seq<char> {
    evidence::hash_of(vstd::utf8::encode_utf8(token))
}

/// Whether a text has white space.
fn has_space(t: &str) -> (r: bool)
    ensures
        r == exists|i: int| 0 <= i < t@.len() && text::is_space(#[trigger] t@[i]),
{
    let letters = text::chars(t);
    let mut i: usize = 0;
    while i < letters.len()
        invariant
            letters@ == t@,
            i <= letters@.len(),
            forall|k: int| 0 <= k < i ==> !text::is_space(#[trigger] t@[k]),
        decreases letters.len() - i,
    {
        if text::is_whitespace(letters[i]) {
            assert(text::is_space(t@[i as int]));
            return true;
        }
        i += 1;
    }
    false
}

/// The credential that the GitHub CLI printed.
pub fn read_credential(succeeded: bool, printed: &[u8]) -> (r: Result<String, String>)
    ensures
        crate::github::fields::result_view(r) == credential_of(succeeded, printed@),
{
    if !succeeded {
        return Err("Cannot read GitHub credentials; run gh auth login".to_owned());
    }
    let printed = match response::utf8_text(printed) {
        Some(printed) => printed,
        None => {
            return Err("Invalid GitHub credential encoding".to_owned());
        },
    };
    let token = text::trim(&printed);
    if token.as_str().is_empty() || token.as_str().as_bytes().len() > MAX_CREDENTIAL || has_space(&token) {
        return Err("Invalid GitHub credential; run gh auth login".to_owned());
    }
    Ok(token)
}

/// What is known of the quotas of each credential, and which one was used last.
pub struct Sessions {
    pub states: TextMap<ApiState>,
    pub active: Option<String>,
}

/// The contents of [`Sessions`].
#[verifier::ext_equal]
pub struct SessionsView {
    pub states: Map<Seq<char>, ApiStateView>,
    pub active: Option<Seq<char>>,
}

impl View for Sessions {
    type V = SessionsView;

    open spec fn view(&self) -> SessionsView {
        SessionsView { states: self.states@, active: self.active.deep_view() }
    }
}

impl SessionsView {
    /// What is known of a credential's quotas.
    pub open spec fn state(self, key: Seq<char>) -> ApiStateView {
        if self.states.contains_key(key) {
            self.states[key]
        } else {
            ApiStateView::fresh()
        }
    }

    /// A credential is in use. What is known of others is kept, as far as there is room.
    pub open spec fn using(self, token: Seq<char>) -> SessionsView {
        let key = credential_key(token);
        if self.states.contains_key(key) {
            SessionsView { active: Some(key), ..self }
        } else if self.states.len() >= MAX_SESSIONS {
            SessionsView { states: Map::empty().insert(key, ApiStateView::fresh()), active: Some(key) }
        } else {
            SessionsView { states: self.states.insert(key, ApiStateView::fresh()), active: Some(key) }
        }
    }

    /// What is known of the quotas of the credential in use.
    pub open spec fn current(self) -> Option<ApiStateView> {
        match self.active {
            Some(key) => if self.states.contains_key(key) {
                Some(self.states[key])
            } else {
                None
            },
            None => None,
        }
    }
}

impl Default for Sessions {
    fn default() -> (r: Self)
        ensures
            r@ == (SessionsView { states: Map::empty(), active: None }),
    {
        Sessions { states: TextMap::new(), active: None }
    }
}

impl Sessions {
    /// A credential is in use. The result says whether it is another one than before.
    pub fn switch(&mut self, token: &str) -> (r: bool)
        ensures
            final(self)@ == old(self)@.using(token@),
            r == (old(self)@.active != Some(credential_key(token@))),
    {
        let key = evidence::hash(token.as_bytes());
        let same = match &self.active {
            Some(active) => text::same(active, &key),
            None => false,
        };
        if !self.states.contains_key(&key) {
            if self.states.len() >= MAX_SESSIONS {
                self.states = TextMap::new();
            }
            self.states.insert(key.clone(), ApiState::new());
        }
        self.active = Some(key);
        !same
    }

    /// How long requests of the credential in use have to wait, in milliseconds.
    pub fn delay(&self, resource: Option<&str>, now: u64) -> (r: u64)
        ensures
            match self@.current() {
                Some(api) => api.waits(crate::github::exchange::account_view(resource), now, r) && (r > 0) == api.paused(
                    crate::github::exchange::account_view(resource),
                    now,
                ),
                None => r == 0,
            },
    {
        match &self.active {
            Some(key) => match self.states.get(key) {
                Some(api) => api.delay(resource, now),
                None => 0,
            },
            None => 0,
        }
    }

    /// Takes out what is known of a credential's quotas, to be changed.
    pub fn take(&mut self, key: &str) -> (r: ApiState)
        ensures
            r@ == old(self)@.state(key@),
            final(self)@ == (SessionsView { states: old(self)@.states.remove(key@), ..old(self)@ }),
    {
        match self.states.remove(key) {
            Some(api) => api,
            None => ApiState::new(),
        }
    }

    /// Puts back what is known of a credential's quotas.
    pub fn put(&mut self, key: &str, api: ApiState)
        ensures
            final(self)@ == (SessionsView { states: old(self)@.states.insert(key@, api@), ..old(self)@ }),
    {
        self.states.insert(key.to_owned(), api);
    }
}

/// Whether the account is asked for by a plain request: while the quota of queries has to be
/// waited for and the other one does not.
pub fn asks_plainly(api: &ApiState, now: u64) -> (r: bool)
    ensures
        r == (api@.paused(Some("graphql"@), now) && !api@.paused(Some("core"@), now)),
{
    api.delay(Some("graphql"), now) > 0 && api.delay(Some("core"), now) == 0
}

// ---------------------------------------------------------------- laws

/// A switch to another credential and back forgets nothing of the first one's quotas, as long
/// as there is room for both.
pub proof fn switching_resets_nothing(sessions: SessionsView, token: Seq<char>, other: Seq<char>)
    requires
        sessions.active == Some(credential_key(token)),
        sessions.states.contains_key(credential_key(token)),
        sessions.states.len() < MAX_SESSIONS,
    ensures
        sessions.using(other).using(token).current() == sessions.current(),
        sessions.using(token) == sessions,
{
}

/// A credential that was never used has no quota to wait for, whatever the others have.
pub proof fn new_credentials_wait_for_nothing(sessions: SessionsView, token: Seq<char>, resource: Option<Seq<char>>, now: u64)
    requires
        !sessions.states.contains_key(credential_key(token)),
    ensures
        sessions.using(token).current() == Some(ApiStateView::fresh()),
        !ApiStateView::fresh().paused(resource, now),
{
}

} // verus!
