use webstreamer::refresh::{apply_refresh, plan_tick, RefreshOutcome, Token, LOW_WATER_SECS};

#[test]
fn tick_below_low_water_refreshes_once_and_validates() {
    // 59 seconds of validity left: one refresh, one validation.
    let plan = plan_tick(1_000, 1_059);
    assert!(plan.refresh);
    assert!(plan.validate);
}

#[test]
fn tick_above_low_water_only_validates() {
    // 61 seconds left: no refresh, still one validation.
    let plan = plan_tick(1_000, 1_061);
    assert!(!plan.refresh);
    assert!(plan.validate);
}

#[test]
fn tick_at_exactly_low_water_does_not_refresh() {
    let plan = plan_tick(1_000, 1_000 + LOW_WATER_SECS);
    assert!(!plan.refresh);
    assert!(plan.validate);
}

#[test]
fn expired_token_refreshes() {
    let plan = plan_tick(2_000, 1_500);
    assert!(plan.refresh);
    assert!(plan.validate);
}

#[test]
fn successful_refresh_swaps_the_token() {
    let mut token = Token {
        access_token: "old-access".to_string(),
        refresh_token: "old-refresh".to_string(),
        expires_at: 1_030,
    };
    let fresh = Token {
        access_token: "new-access".to_string(),
        refresh_token: "new-refresh".to_string(),
        expires_at: 5_000,
    };
    let ok = apply_refresh(&mut token, RefreshOutcome::Refreshed(fresh));
    assert!(ok);
    assert_eq!(token.access_token, "new-access".to_string());
    assert_eq!(token.refresh_token, "new-refresh".to_string());
    assert_eq!(token.expires_at, 5_000);
}

#[test]
fn failed_refresh_leaves_the_token_untouched() {
    let mut token = Token {
        access_token: "old-access".to_string(),
        refresh_token: "old-refresh".to_string(),
        expires_at: 1_030,
    };
    let ok = apply_refresh(&mut token, RefreshOutcome::Failed);
    assert!(!ok);
    assert_eq!(token.access_token, "old-access".to_string());
    assert_eq!(token.refresh_token, "old-refresh".to_string());
    assert_eq!(token.expires_at, 1_030);
}
