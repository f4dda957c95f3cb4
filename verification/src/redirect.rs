//! The persisted "where the user was trying to go" entry: one durable
//! key-to-path slot, written by the guard when it denies access, and
//! consumed exactly once after a successful login.

use vstd::prelude::*;

verus! {

/// The landing path used when no redirect is pending after login.
pub open spec fn default_landing() -> Seq<char> {
    "/"@
}

/// Taking the slot hands its content out and leaves it empty: the pair
/// (what is returned, what remains).
pub open spec fn take_step(state: Option<Seq<char>>) -> (Option<Seq<char>>, Option<Seq<char>>) {
    (state, None)
}

/// The single durable `redirect_after_login` slot. Absence is the common,
/// valid state: no redirect is pending.
pub struct RedirectStore {
    value: Option<String>,
}

impl View for RedirectStore {
    type V = Option<Seq<char>>;

    closed spec fn view(&self) -> Option<Seq<char>> {
        match self.value {
            Some(p) => Some(p@),
            None => None,
        }
    }
}

impl RedirectStore {
    /// An empty slot: no redirect pending.
    pub fn new() -> (s: RedirectStore)
        ensures
            s@ is None,
    {
        RedirectStore { value: None }
    }

    /// Record `path` as where the user was trying to go, replacing whatever
    /// was pending.
    pub fn record(&mut self, path: &str)
        ensures
            final(self)@ == Some(path@),
    {
        self.value = Some(path.to_owned());
    }

    /// Whether a redirect is pending, without consuming it.
    pub fn is_pending(&self) -> (r: bool)
        ensures
            r == (self@ is Some),
    {
        self.value.is_some()
    }

    /// Consume the slot: hand out the pending path, if any, and leave the
    /// slot empty either way.
    pub fn take(&mut self) -> (r: Option<String>)
        ensures
            (match r {
                Some(p) => Some(p@),
                None => None,
            }) == take_step(old(self)@).0,
            final(self)@ == take_step(old(self)@).1,
    {
        self.value.take()
    }

    /// After a successful login: navigate to the pending redirect if one is
    /// recorded — consuming it — and to the default landing path otherwise.
    pub fn resolve_after_login(&mut self) -> (target: String)
        ensures
            final(self)@ is None,
            old(self)@ matches Some(p) ==> target@ == p,
            old(self)@ is None ==> target@ == default_landing(),
    {
        match self.take() {
            Some(path) => path,
            None => "/".to_owned(),
        }
    }
}

/// Law: consumption is exactly once — whatever the slot held, after one take
/// the slot is empty, so a second take hands out nothing.
pub proof fn lemma_take_exactly_once(state: Option<Seq<char>>)
    ensures
        take_step(take_step(state).1).0 is None,
{
}

} // verus!
