use bit_casino_slots::currency::{
    transaction_result, TransactionRequestBody, WagerRequestFailure,
};
use bit_casino_slots::failure::Failure;
use bit_casino_slots::helper::{extract_authn_token, AuthHeaderFailure, HeaderLookup};
use bit_casino_slots::player::{authn_result, PlayerId, TokenAuthnFailure};
use bit_casino_slots::settlement::{
    AuthFailureKind, SettlementPhase, SpinFailure, SpinSettlement,
};

const ONE: [bool; 8] = [false, false, false, false, false, false, false, true];
const FOUR: [bool; 8] = [false, false, false, false, false, true, false, false];
const ZERO: [bool; 8] = [false; 8];

fn authed_settlement(multiplier: u32, spin_id: &str) -> SpinSettlement {
    let mut s = SpinSettlement::new(multiplier, spin_id.to_string());
    s.on_auth(Ok(PlayerId { id: "player-7".to_string() }));
    s
}

#[test]
fn token_extraction_requires_bearer_scheme() {
    assert_eq!(
        extract_authn_token(&HeaderLookup::Missing),
        Err(AuthHeaderFailure::NotFound)
    );
    assert_eq!(
        extract_authn_token(&HeaderLookup::Unreadable),
        Err(AuthHeaderFailure::Nonparceable)
    );
    assert_eq!(
        extract_authn_token(&HeaderLookup::Value("Bearer tok-123".to_string())),
        Ok("tok-123".to_string())
    );
    assert_eq!(
        extract_authn_token(&HeaderLookup::Value("Bearer ".to_string())),
        Ok("".to_string())
    );
    assert_eq!(
        extract_authn_token(&HeaderLookup::Value("Basic tok".to_string())),
        Err(AuthHeaderFailure::NoPrefix)
    );
    assert_eq!(
        extract_authn_token(&HeaderLookup::Value("Bearer".to_string())),
        Err(AuthHeaderFailure::NoPrefix)
    );
}

#[test]
fn auth_failures_have_messages() {
    assert_eq!(
        AuthHeaderFailure::NotFound.message(),
        "Authorization header is missing."
    );
    assert_eq!(
        AuthHeaderFailure::Nonparceable.message(),
        "Authorization header value could not be parsed."
    );
    assert_eq!(
        AuthHeaderFailure::NoPrefix.message(),
        "Authorization header missing \"Bearer \" prefix."
    );
    assert_eq!(
        TokenAuthnFailure::RequestFailed.message(),
        "Could not reach the player microservice to authenticate token."
    );
    assert_eq!(
        TokenAuthnFailure::BadToken.message(),
        "The provided token could not be used to authenticate the player."
    );
}

#[test]
fn authn_reply_interpretation() {
    assert_eq!(
        authn_result(None, None),
        Err(TokenAuthnFailure::RequestFailed)
    );
    assert_eq!(
        authn_result(Some(200), Some("abc".to_string())),
        Ok(PlayerId { id: "abc".to_string() })
    );
    assert_eq!(authn_result(Some(200), None), Err(TokenAuthnFailure::BadToken));
    assert_eq!(
        authn_result(Some(401), Some("abc".to_string())),
        Err(TokenAuthnFailure::BadToken)
    );
}

#[test]
fn ledger_reply_interpretation() {
    assert_eq!(transaction_result(None), Err(WagerRequestFailure::ReqFailed));
    assert_eq!(transaction_result(Some((200, Some(500)))), Ok(500));
    assert_eq!(
        transaction_result(Some((200, None))),
        Err(WagerRequestFailure::ServerSide)
    );
    assert_eq!(
        transaction_result(Some((409, None))),
        Err(WagerRequestFailure::Conflict)
    );
    assert_eq!(
        transaction_result(Some((401, None))),
        Err(WagerRequestFailure::Unauthorized)
    );
    assert_eq!(
        transaction_result(Some((503, None))),
        Err(WagerRequestFailure::ServerSide)
    );
}

#[test]
fn transaction_bodies_embed_tag_timestamp_and_spin_id() {
    let wager = TransactionRequestBody::wager(2, "spin-9", "2026-01-01T00:00:00Z");
    assert_eq!(wager.amount, -256);
    assert_eq!(
        wager.reason,
        "BYTE_BUILDER_WAGER DATE=2026-01-01T00:00:00Z SPIN_ID=spin-9"
    );
    let payout = TransactionRequestBody::payout(2, 512, "spin-9", "2026-01-01T00:00:01Z");
    assert_eq!(payout.amount, 768);
    assert_eq!(
        payout.reason,
        "BYTE_BUILDER_PAYOUT DATE=2026-01-01T00:00:01Z SPIN_ID=spin-9"
    );
}

#[test]
fn settled_spin_with_multiplier_one() {
    let mut s = authed_settlement(1, "spin-1");
    let wager = s.wager_request("t0");
    assert_eq!(wager.amount, -128);
    s.on_wager_outcome(Ok(872), ONE);
    let payout = s.payout_request("t1");
    assert_eq!(payout.amount, 129); // 128 × 1 returned, plus the decode of 1
    s.on_payout(Ok(1001));
    let response = s.success_response();
    assert_eq!(response.payout, 1);
    assert_eq!(response.byte, "0000 0001");
    assert_eq!(response.event, Some("PowerOfTwo".to_string()));
    assert_eq!(response.balance, 1001);
}

#[test]
fn settled_null_byte_spin_with_multiplier_two() {
    let mut s = authed_settlement(2, "spin-2");
    let wager = s.wager_request("t0");
    assert_eq!(wager.amount, -256);
    s.on_wager_outcome(Ok(744), ZERO);
    assert_eq!(s.machine.curr_payout, 512);
    let payout = s.payout_request("t1");
    assert_eq!(payout.amount, 768);
    s.on_payout(Ok(1256));
    let response = s.success_response();
    assert_eq!(response.payout, 512);
    assert_eq!(response.byte, "0000 0000");
    assert_eq!(response.event, Some("NullByte".to_string()));
    assert_eq!(response.balance, 1256);
}

#[test]
fn settled_power_of_two_spin_grants_a_free_spin() {
    let mut s = authed_settlement(1, "spin-3");
    s.on_wager_outcome(Ok(872), FOUR);
    assert_eq!(s.machine.remaining_free_spins, 1);
    assert_eq!(s.machine.curr_payout, 4); // payout computed normally from the decode
    s.on_payout(Ok(1004));
    let response = s.success_response();
    assert_eq!(response.event, Some("PowerOfTwo".to_string()));
    assert_eq!(response.payout, 4);
}

#[test]
fn insufficient_funds_rejects_the_spin_before_it_happens() {
    let mut s = authed_settlement(1, "spin-4");
    s.on_wager_outcome(Err(WagerRequestFailure::Conflict), ZERO);
    let failure = match &s.phase {
        SettlementPhase::Failed { failure } => *failure,
        other => panic!("expected a failed settlement, got {:?}", other),
    };
    assert_eq!(failure, SpinFailure::Wager(WagerRequestFailure::Conflict));
    assert_eq!(failure.http_status(), 409);
    assert_eq!(failure.message(), "You do not have enough money.");
    // no spin occurred and no payout was recorded
    assert_eq!(s.machine.total_spins, 0);
    assert_eq!(s.machine.total_free_spins, 0);
    assert_eq!(s.machine.total_payout, 0);
}

#[test]
fn payout_failure_after_wager_is_a_distinct_fatal_error() {
    let mut s = authed_settlement(1, "spin-5");
    let wager = s.wager_request("ta");
    s.on_wager_outcome(Ok(872), ONE);
    let payout = s.payout_request("tb");
    s.on_payout(Err(WagerRequestFailure::ReqFailed));
    let failure = match &s.phase {
        SettlementPhase::Failed { failure } => *failure,
        other => panic!("expected a failed settlement, got {:?}", other),
    };
    assert_eq!(failure, SpinFailure::Settlement(WagerRequestFailure::ReqFailed));
    assert_ne!(failure, SpinFailure::Wager(WagerRequestFailure::ReqFailed));
    assert_eq!(failure.http_status(), 500);
    assert_eq!(failure.message(), "The machine ate your bits! Oh no!");
    // both ledger calls carried the same spin id
    assert!(wager.reason.ends_with("SPIN_ID=spin-5"));
    assert!(payout.reason.ends_with("SPIN_ID=spin-5"));
}

#[test]
fn authentication_failure_moves_no_funds() {
    let mut s = SpinSettlement::new(1, "spin-6".to_string());
    s.on_auth(Err(AuthFailureKind::Token(TokenAuthnFailure::BadToken)));
    let failure = match &s.phase {
        SettlementPhase::Failed { failure } => *failure,
        other => panic!("expected a failed settlement, got {:?}", other),
    };
    assert_eq!(
        failure,
        SpinFailure::Auth(AuthFailureKind::Token(TokenAuthnFailure::BadToken))
    );
    assert_eq!(failure.http_status(), 401);
    assert_eq!(failure.message(), "Token authentication failed.");
    assert_eq!(s.machine.total_spins, 0);
}

#[test]
fn begin_generates_a_spin_id_and_stamped_requests() {
    let mut s = SpinSettlement::begin(1);
    let spin_id = s.spin_id.clone();
    assert!(!spin_id.is_empty());
    s.on_auth(Ok(PlayerId { id: "player-1".to_string() }));
    let wager = s.wager_request_now();
    assert_eq!(wager.amount, -128);
    assert!(wager.reason.ends_with(&format!("SPIN_ID={}", spin_id)));
    assert!(wager.reason.starts_with("BYTE_BUILDER_WAGER DATE="));
    s.on_wager(Ok(900));
    let payout = s.payout_request_now();
    assert!(payout.reason.ends_with(&format!("SPIN_ID={}", spin_id)));
    assert!(payout.reason.starts_with("BYTE_BUILDER_PAYOUT DATE="));
    assert_eq!(payout.amount, 128 + s.machine.curr_payout);
}

#[test]
fn each_settlement_gets_its_own_spin_id() {
    let a = SpinSettlement::begin(1);
    let b = SpinSettlement::begin(1);
    assert!(!a.spin_id.is_empty());
    assert_ne!(a.spin_id, b.spin_id);
}

#[test]
fn zero_multiplier_wagers_nothing_but_spins_at_one() {
    let mut s = authed_settlement(0, "spin-7");
    let wager = s.wager_request("t0");
    assert_eq!(wager.amount, 0);
    assert_eq!(s.machine.multiplier, 1);
    s.on_wager_outcome(Ok(900), ONE);
    let payout = s.payout_request("t1");
    assert_eq!(payout.amount, 1); // 128 × 0 returned, plus the decode of 1
}
