//! The shared holder of the client's current token: at most one token,
//! replaced whole by a login and removed whole by a logout, read by any
//! number of guard instances. Writes are publications: each appends to a
//! single history and bumps the version that numbers it, so every observer
//! sees the same write under the same number, and no observer can see a
//! later write before an earlier one exists.

use vstd::prelude::*;

verus! {

/// One publication: the new current token, appended to the history.
pub open spec fn write_step(
    history: Seq<Option<Seq<char>>>,
    token: Option<Seq<char>>,
) -> Seq<Option<Seq<char>>> {
    history.push(token)
}

/// Mathematical image of [`AuthContext`]: the current token, the number of
/// the latest publication, and the whole publication history.
pub ghost struct AuthContextView {
    pub token: Option<Seq<char>>,
    pub version: u64,
    pub history: Seq<Option<Seq<char>>>,
}

impl AuthContextView {
    /// The version numbers the latest publication: entry 0 is the tokenless
    /// startup state, and the current token is the last entry.
    pub open spec fn wf(self) -> bool {
        &&& self.history.len() == self.version + 1
        &&& self.history.first() == None::<Seq<char>>
        &&& self.history.last() == self.token
    }
}

/// The single source of truth for "am I currently holding a token". One
/// writer path — login sets, logout clears — and many readers; reads are
/// snapshots of the whole value, never partial.
pub struct AuthContext {
    token: Option<String>,
    version: u64,
    history: Ghost<Seq<Option<Seq<char>>>>,
}

impl View for AuthContext {
    type V = AuthContextView;

    closed spec fn view(&self) -> AuthContextView {
        AuthContextView {
            token: match self.token {
                Some(t) => Some(t@),
                None => None,
            },
            version: self.version,
            history: self.history@,
        }
    }
}

impl AuthContext {
    /// A fresh context at client startup: no token held yet, one
    /// publication — the tokenless state itself.
    pub fn new() -> (c: AuthContext)
        ensures
            c@ == (AuthContextView {
                token: None,
                version: 0,
                history: seq![None::<Seq<char>>],
            }),
            c@.wf(),
    {
        let ghost start: Seq<Option<Seq<char>>> = seq![None];
        AuthContext { token: None, version: 0, history: Ghost(start) }
    }

    /// A snapshot of the current token, or nothing.
    pub fn get(&self) -> (t: Option<&String>)
        ensures
            crate::guard::token_view(t) == self@.token,
    {
        self.token.as_ref()
    }

    /// Whether a token is currently held.
    pub fn has_token(&self) -> (r: bool)
        ensures
            r == (self@.token is Some),
    {
        self.token.is_some()
    }

    /// Login: replace the current token whole and publish the replacement.
    pub fn set(&mut self, token: String)
        requires
            old(self)@.version < u64::MAX,
            old(self)@.wf(),
        ensures
            final(self)@ == (AuthContextView {
                token: Some(token@),
                version: (old(self)@.version + 1) as u64,
                history: write_step(old(self)@.history, Some(token@)),
            }),
            final(self)@.wf(),
    {
        proof {
            self.history@ = write_step(self.history@, Some(token@));
        }
        self.token = Some(token);
        self.version = self.version + 1;
    }

    /// Logout: remove the current token and publish the removal.
    pub fn clear(&mut self)
        requires
            old(self)@.version < u64::MAX,
            old(self)@.wf(),
        ensures
            final(self)@ == (AuthContextView {
                token: None,
                version: (old(self)@.version + 1) as u64,
                history: write_step(old(self)@.history, None),
            }),
            final(self)@.wf(),
    {
        proof {
            self.history@ = write_step(self.history@, None);
        }
        self.token = None;
        self.version = self.version + 1;
    }

    /// The number of the latest publication.
    pub fn version(&self) -> (v: u64)
        ensures
            v == self@.version,
    {
        self.version
    }
}

/// Law (publication order): a write only appends — every publication
/// already made keeps its place and its number, and the new one comes after
/// all of them. Writes are therefore totally ordered by version, all
/// observers of version `n` see the same publication, and none can observe
/// a later write before every earlier one has been made.
pub proof fn lemma_writes_append_only(history: Seq<Option<Seq<char>>>, token: Option<Seq<char>>)
    ensures
        write_step(history, token).len() == history.len() + 1,
        forall|i: int| 0 <= i < history.len() ==> write_step(history, token)[i] == history[i],
        write_step(history, token).last() == token,
{
}

} // verus!
