//! The route guard: a per-protected-view state machine. Entered `Pending`,
//! it asks for one asynchronous validation of the token snapshot it took on
//! entry and ends `Authorized` or `Unauthorized` — fail-closed: no token, or
//! any failure, denies. A torn-down instance discards a late outcome.
//!
//! The guard only decides; the host performs the returned [`GuardAction`]
//! (run the validation call, or navigate to the login view) and feeds the
//! outcome back in.

use vstd::prelude::*;

use crate::redirect::RedirectStore;

verus! {

/// The three states of one guard instance.
#[derive(Clone, Copy, Debug, PartialEq, Eq, Structural)]
pub enum GuardState {
    /// A validation call is outstanding; render neither content nor redirect.
    Pending,
    /// Access denied; redirect to the login view. Terminal.
    Unauthorized,
    /// Validation succeeded; the protected content renders. Terminal.
    Authorized,
}

/// How the single validation attempt of a guard instance came back. Every
/// variant but success — rejection by the authority, a network failure, a
/// timeout — denies alike: the guard fails closed.
#[derive(Clone, Copy, Debug, PartialEq, Eq, Structural)]
pub enum ValidationOutcome {
    /// The authority accepted the token.
    Succeeded,
    /// The authority rejected it: invalid, expired, or its own configuration
    /// error.
    Rejected,
    /// The round trip itself failed.
    NetworkFailed,
    /// The bounded wait for the round trip ran out.
    TimedOut,
}

/// What the host must do after handing the guard an event.
#[derive(Clone, Debug, PartialEq, Eq)]
pub enum GuardAction {
    /// Nothing: the event changed nothing that the host must act on.
    Idle,
    /// Start one asynchronous validation of the given token snapshot.
    Validate(String),
    /// Persist the requested path and navigate to the login view.
    RedirectToLogin,
}

/// What a guard in a given state puts on screen.
#[derive(Clone, Copy, Debug, PartialEq, Eq, Structural)]
pub enum RenderOutcome {
    /// A neutral placeholder while validation is outstanding.
    Placeholder,
    /// The protected content itself.
    Protected,
    /// The redirect to the login view.
    LoginRedirect,
}

/// Mathematical image of a guard instance.
pub ghost struct GuardView {
    pub state: GuardState,
    pub path: Seq<char>,
    pub torn_down: bool,
}

/// The token a guard reads from the context, at the specification level.
pub open spec fn token_view(token: Option<&String>) -> Option<Seq<char>> {
    match token {
        Some(t) => Some(t@),
        None => None,
    }
}

/// The state a guard enters on activation: an absent or empty token denies
/// at once — fail-closed, with no network round trip — and a present token
/// leaves the guard pending on its one validation call.
pub open spec fn entry_state(token: Option<Seq<char>>) -> GuardState {
    match token {
        Some(t) => if t.len() > 0 {
            GuardState::Pending
        } else {
            GuardState::Unauthorized
        },
        None => GuardState::Unauthorized,
    }
}

/// The redirect slot after entry: denial records the requested path; any
/// other entry leaves the slot alone.
pub open spec fn redirect_after_entry(
    token: Option<Seq<char>>,
    path: Seq<char>,
    store: Option<Seq<char>>,
) -> Option<Seq<char>> {
    if entry_state(token) == GuardState::Unauthorized {
        Some(path)
    } else {
        store
    }
}

/// The state after a validation outcome arrives: a live, pending guard moves
/// to `Authorized` on success and `Unauthorized` otherwise; a torn-down
/// instance, or one already settled, keeps its state.
pub open spec fn outcome_state(g: GuardView, o: ValidationOutcome) -> GuardState {
    if g.torn_down || g.state != GuardState::Pending {
        g.state
    } else if o == ValidationOutcome::Succeeded {
        GuardState::Authorized
    } else {
        GuardState::Unauthorized
    }
}

/// The redirect slot after a validation outcome: only a live, pending guard
/// that is denied records its requested path.
pub open spec fn redirect_after_outcome(
    g: GuardView,
    o: ValidationOutcome,
    store: Option<Seq<char>>,
) -> Option<Seq<char>> {
    if !g.torn_down && g.state == GuardState::Pending && o != ValidationOutcome::Succeeded {
        Some(g.path)
    } else {
        store
    }
}

/// What each state renders: `Pending` a neutral placeholder, `Authorized`
/// the protected content, `Unauthorized` the redirect to login.
pub open spec fn render_of(s: GuardState) -> RenderOutcome {
    match s {
        GuardState::Pending => RenderOutcome::Placeholder,
        GuardState::Authorized => RenderOutcome::Protected,
        GuardState::Unauthorized => RenderOutcome::LoginRedirect,
    }
}

/// One guard instance, created fresh each time a protected view is entered
/// and torn down when the view is left.
pub struct RouteGuard {
    state: GuardState,
    requested_path: String,
    torn_down: bool,
}

impl View for RouteGuard {
    type V = GuardView;

    closed spec fn view(&self) -> GuardView {
        GuardView {
            state: self.state,
            path: self.requested_path@,
            torn_down: self.torn_down,
        }
    }
}

impl RouteGuard {
    /// A fresh guard for one activation of the protected view at
    /// `requested_path`: pending, live.
    pub fn new(requested_path: String) -> (g: RouteGuard)
        ensures
            g@ == (GuardView {
                state: GuardState::Pending,
                path: requested_path@,
                torn_down: false,
            }),
    {
        RouteGuard { state: GuardState::Pending, requested_path, torn_down: false }
    }

    /// The entry step, run once on activation with a snapshot of the current
    /// token. No token, or an empty one, denies immediately and records the
    /// requested path; otherwise the guard stays pending and the host must
    /// run one validation of exactly that snapshot.
    pub fn on_enter(&mut self, token: Option<&String>, store: &mut RedirectStore) -> (a:
        GuardAction)
        requires
            old(self)@.state == GuardState::Pending,
            !old(self)@.torn_down,
        ensures
            final(self)@.state == entry_state(token_view(token)),
            final(self)@.path == old(self)@.path,
            final(self)@.torn_down == old(self)@.torn_down,
            final(store)@ == redirect_after_entry(token_view(token), old(self)@.path, old(store)@),
            final(self)@.state == GuardState::Pending ==> (a matches GuardAction::Validate(t)
                && Some(t@) == token_view(token)),
            final(self)@.state == GuardState::Unauthorized ==> a == GuardAction::RedirectToLogin,
    {
        match token {
            Some(t) if !t.as_str().is_empty() => {
                GuardAction::Validate(t.clone())
            },
            _ => {
                self.state = GuardState::Unauthorized;
                store.record(self.requested_path.as_str());
                GuardAction::RedirectToLogin
            },
        }
    }

    /// The resolution step, run when the outcome of the validation call
    /// arrives. A torn-down instance discards it — no observable change. A
    /// live, pending guard settles: success authorizes; anything else denies,
    /// records the requested path, and sends the host to the login view. A
    /// guard already settled ignores late events.
    pub fn on_outcome(&mut self, outcome: ValidationOutcome, store: &mut RedirectStore) -> (a:
        GuardAction)
        ensures
            final(self)@.state == outcome_state(old(self)@, outcome),
            final(self)@.path == old(self)@.path,
            final(self)@.torn_down == old(self)@.torn_down,
            final(store)@ == redirect_after_outcome(old(self)@, outcome, old(store)@),
            old(self)@.torn_down ==> (final(self)@ == old(self)@ && final(store)@ == old(store)@
                && a == GuardAction::Idle),
            (a == GuardAction::RedirectToLogin) <==> (old(self)@.state == GuardState::Pending
                && !old(self)@.torn_down && outcome != ValidationOutcome::Succeeded),
            a != GuardAction::RedirectToLogin ==> a == GuardAction::Idle,
    {
        if self.torn_down || !matches!(self.state, GuardState::Pending) {
            return GuardAction::Idle;
        }
        match outcome {
            ValidationOutcome::Succeeded => {
                self.state = GuardState::Authorized;
                GuardAction::Idle
            },
            _ => {
                self.state = GuardState::Unauthorized;
                store.record(self.requested_path.as_str());
                GuardAction::RedirectToLogin
            },
        }
    }

    /// Tear the instance down: the view was left before (or after) the
    /// validation resolved. From here on every outcome is discarded.
    pub fn teardown(&mut self)
        ensures
            final(self)@ == (GuardView { torn_down: true, ..old(self)@ }),
    {
        self.torn_down = true;
    }

    /// What this guard currently puts on screen.
    pub fn render(&self) -> (r: RenderOutcome)
        ensures
            r == render_of(self@.state),
    {
        match self.state {
            GuardState::Pending => RenderOutcome::Placeholder,
            GuardState::Authorized => RenderOutcome::Protected,
            GuardState::Unauthorized => RenderOutcome::LoginRedirect,
        }
    }

    /// The current state of this instance.
    pub fn state(&self) -> (s: GuardState)
        ensures
            s == self@.state,
    {
        self.state
    }

    /// Whether this instance has been torn down.
    pub fn is_torn_down(&self) -> (r: bool)
        ensures
            r == self@.torn_down,
    {
        self.torn_down
    }
}

/// Law (fail-closed): entering with no token, or an empty one, ends the
/// guard `Unauthorized` without any validation call, never renders the
/// protected content, and records the requested path.
pub proof fn lemma_fail_closed(token: Option<Seq<char>>, path: Seq<char>, store: Option<Seq<char>>)
    requires
        token is None || token->0.len() == 0,
    ensures
        entry_state(token) == GuardState::Unauthorized,
        render_of(entry_state(token)) != RenderOutcome::Protected,
        redirect_after_entry(token, path, store) == Some(path),
{
}

/// Law (no flicker): a successful outcome for a live, pending guard
/// authorizes it and renders the protected content, leaves the redirect slot
/// alone, and `Authorized` is terminal — no later outcome moves the guard
/// away from it.
pub proof fn lemma_authorized_once(
    g: GuardView,
    later: ValidationOutcome,
    store: Option<Seq<char>>,
)
    requires
        g.state == GuardState::Pending,
        !g.torn_down,
    ensures
        outcome_state(g, ValidationOutcome::Succeeded) == GuardState::Authorized,
        render_of(outcome_state(g, ValidationOutcome::Succeeded)) == RenderOutcome::Protected,
        redirect_after_outcome(g, ValidationOutcome::Succeeded, store) == store,
        outcome_state(GuardView { state: GuardState::Authorized, ..g }, later)
            == GuardState::Authorized,
{
}

/// Law (cancellation): once an instance is torn down, an outcome that still
/// arrives mutates nothing — neither the guard's state nor the persisted
/// redirect.
pub proof fn lemma_torn_down_discards(
    g: GuardView,
    o: ValidationOutcome,
    store: Option<Seq<char>>,
)
    requires
        g.torn_down,
    ensures
        outcome_state(g, o) == g.state,
        redirect_after_outcome(g, o, store) == store,
{
}

} // verus!
