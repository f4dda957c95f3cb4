use session_auth::context::AuthContext;
use session_auth::guard::{GuardAction, GuardState, RenderOutcome, RouteGuard, ValidationOutcome};
use session_auth::redirect::RedirectStore;
use session_auth::token::TokenAuthority;

#[test]
fn no_token_fails_closed() {
    let mut store = RedirectStore::new();
    let mut guard = RouteGuard::new("/notes-app".to_owned());
    let action = guard.on_enter(None, &mut store);
    assert_eq!(action, GuardAction::RedirectToLogin);
    assert_eq!(guard.state(), GuardState::Unauthorized);
    assert_eq!(guard.render(), RenderOutcome::LoginRedirect);
    assert_eq!(store.take(), Some("/notes-app".to_owned()));
}

#[test]
fn empty_token_fails_closed() {
    let mut store = RedirectStore::new();
    let mut guard = RouteGuard::new("/discord-bot".to_owned());
    let empty = String::new();
    let action = guard.on_enter(Some(&empty), &mut store);
    assert_eq!(action, GuardAction::RedirectToLogin);
    assert_eq!(guard.state(), GuardState::Unauthorized);
    assert_eq!(store.take(), Some("/discord-bot".to_owned()));
}

#[test]
fn successful_validation_authorizes_exactly_once() {
    let mut store = RedirectStore::new();
    let mut guard = RouteGuard::new("/notes-app".to_owned());
    let token = "some-token".to_owned();
    let action = guard.on_enter(Some(&token), &mut store);
    assert_eq!(action, GuardAction::Validate("some-token".to_owned()));
    assert_eq!(guard.state(), GuardState::Pending);
    assert_eq!(guard.render(), RenderOutcome::Placeholder);
    assert!(store.take().is_none());

    let action = guard.on_outcome(ValidationOutcome::Succeeded, &mut store);
    assert_eq!(action, GuardAction::Idle);
    assert_eq!(guard.state(), GuardState::Authorized);
    assert_eq!(guard.render(), RenderOutcome::Protected);

    // Authorized is terminal: a stray later outcome cannot flicker the view
    // back to a redirect.
    let action = guard.on_outcome(ValidationOutcome::Rejected, &mut store);
    assert_eq!(action, GuardAction::Idle);
    assert_eq!(guard.state(), GuardState::Authorized);
    assert_eq!(guard.render(), RenderOutcome::Protected);
    assert!(store.take().is_none());
}

#[test]
fn every_failure_outcome_denies() {
    for outcome in [
        ValidationOutcome::Rejected,
        ValidationOutcome::NetworkFailed,
        ValidationOutcome::TimedOut,
    ] {
        let mut store = RedirectStore::new();
        let mut guard = RouteGuard::new("/notes-app".to_owned());
        let token = "some-token".to_owned();
        guard.on_enter(Some(&token), &mut store);
        let action = guard.on_outcome(outcome, &mut store);
        assert_eq!(action, GuardAction::RedirectToLogin);
        assert_eq!(guard.state(), GuardState::Unauthorized);
        assert_eq!(guard.render(), RenderOutcome::LoginRedirect);
        assert_eq!(store.take(), Some("/notes-app".to_owned()));
    }
}

#[test]
fn torn_down_guard_discards_late_outcome() {
    let mut store = RedirectStore::new();
    let mut guard = RouteGuard::new("/notes-app".to_owned());
    let token = "some-token".to_owned();
    guard.on_enter(Some(&token), &mut store);
    guard.teardown();
    assert!(guard.is_torn_down());

    // The in-flight validation resolves after the view was left: nothing
    // observable may change, in particular no redirect is persisted.
    for outcome in [ValidationOutcome::Succeeded, ValidationOutcome::Rejected] {
        let action = guard.on_outcome(outcome, &mut store);
        assert_eq!(action, GuardAction::Idle);
        assert_eq!(guard.state(), GuardState::Pending);
        assert!(store.take().is_none());
    }
}

#[test]
fn denial_then_login_resolves_saved_redirect() {
    let mut store = RedirectStore::new();
    let mut guard = RouteGuard::new("/notes-app".to_owned());
    let action = guard.on_enter(None, &mut store);
    assert_eq!(action, GuardAction::RedirectToLogin);
    assert_eq!(guard.state(), GuardState::Unauthorized);
    assert!(store.is_pending());

    // After the simulated login succeeds, the resolver consumes the entry...
    let target = store.resolve_after_login();
    assert_eq!(target, "/notes-app");
    assert!(!store.is_pending());

    // ...exactly once: a second resolution falls back to the landing page.
    let target = store.resolve_after_login();
    assert_eq!(target, "/");
}

#[test]
fn auth_context_single_writer() {
    let mut ctx = AuthContext::new();
    assert!(ctx.get().is_none());
    assert!(!ctx.has_token());
    assert_eq!(ctx.version(), 0);

    ctx.set("tok-1".to_owned());
    assert_eq!(ctx.get(), Some(&"tok-1".to_owned()));
    assert!(ctx.has_token());
    assert_eq!(ctx.version(), 1);

    ctx.set("tok-2".to_owned());
    assert_eq!(ctx.get(), Some(&"tok-2".to_owned()));
    assert_eq!(ctx.version(), 2);

    ctx.clear();
    assert!(ctx.get().is_none());
    assert_eq!(ctx.version(), 3);
}

#[test]
fn guard_with_real_authority_end_to_end() {
    let now: u64 = 1_700_000_000;
    let auth = TokenAuthority::new(Some("test-signing-secret".to_owned()));
    let mut ctx = AuthContext::new();
    ctx.set(auth.issue("user-123", now).expect("issuing must succeed"));

    let mut store = RedirectStore::new();
    let mut guard = RouteGuard::new("/notes-app".to_owned());
    let action = guard.on_enter(ctx.get(), &mut store);
    let snapshot = match action {
        GuardAction::Validate(t) => t,
        other => panic!("expected a validation request, got {:?}", other),
    };

    // The host performs the validation round trip and reports back.
    let outcome = match auth.validate(&snapshot, now) {
        Ok(_) => ValidationOutcome::Succeeded,
        Err(_) => ValidationOutcome::Rejected,
    };
    guard.on_outcome(outcome, &mut store);
    assert_eq!(guard.render(), RenderOutcome::Protected);

    // The same flow with the token long expired ends in a redirect.
    let mut store = RedirectStore::new();
    let mut guard = RouteGuard::new("/notes-app".to_owned());
    let action = guard.on_enter(ctx.get(), &mut store);
    let snapshot = match action {
        GuardAction::Validate(t) => t,
        other => panic!("expected a validation request, got {:?}", other),
    };
    let later = now + 13 * 60 * 60;
    let outcome = match auth.validate(&snapshot, later) {
        Ok(_) => ValidationOutcome::Succeeded,
        Err(_) => ValidationOutcome::Rejected,
    };
    guard.on_outcome(outcome, &mut store);
    assert_eq!(guard.render(), RenderOutcome::LoginRedirect);
    assert_eq!(store.take(), Some("/notes-app".to_owned()));
}
