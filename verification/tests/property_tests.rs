use cw2981_leveling::{
    execute, instantiate, query, ContractError, ContractState, Cw2981LevelingExecuteMsg,
    Cw2981LevelingQueryMsg, ExecuteMsg, ExecuteOutcome, InstantiateMsg, QueryMsg, QueryResponse,
    TokenLevelResponse,
};
use cw2981_leveling::ids::{parse_token_id, render_token_id};
use cw2981_leveling::royalty::royalty_amount;
use cw2981_leveling::state::Coin;
use cw2981_leveling::supply::increment;
use cosmwasm_std::{Decimal, Uint128};

const ADMIN: &str = "creator";
const T0: u64 = 1571797419;

fn no_funds() -> Vec<Coin> {
    Vec::new()
}

fn coins(amount: u128, denom: &str) -> Vec<Coin> {
    vec![Coin { denom: denom.to_string(), amount }]
}

fn setup(collection_size: u64) -> ContractState {
    let msg = InstantiateMsg {
        name: "PlayerX".to_string(),
        symbol: "PX".to_string(),
        base_token_uri: "uri".to_string(),
        collection_size,
        royalty_percentage: 4,
        royalty_payment_address: "address".to_string(),
        og_price: 100000,
        allowlist_price: 100000,
        public_price: 100000,
        max_per_og: 1,
        max_per_allowlist: 1,
        max_per_public: 5,
    };
    instantiate(msg, ADMIN.to_string()).unwrap()
}

fn exec(state: &mut ContractState, now: u64, sender: &str, funds: &Vec<Coin>, msg: ExecuteMsg) -> Result<ExecuteOutcome, ContractError> {
    execute(state, now, &sender.to_string(), funds, msg)
}

fn set_leveling(state: &mut ContractState, open: bool, max: u64, now: u64) {
    exec(state, now, ADMIN, &no_funds(), ExecuteMsg::Extension {
        msg: Cw2981LevelingExecuteMsg::UpdateLevelingConfig {
            leveling_open: open,
            max_experience: max,
        },
    })
    .unwrap();
}

fn toggle(state: &mut ContractState, sender: &str, token_id: &str, now: u64) -> Result<ExecuteOutcome, ContractError> {
    exec(state, now, sender, &no_funds(), ExecuteMsg::Extension {
        msg: Cw2981LevelingExecuteMsg::ToggleLeveling { token_id: token_id.to_string() },
    })
}

fn grant(state: &mut ContractState, ids: &[&str], experience: u64) -> Result<ExecuteOutcome, ContractError> {
    let token_ids: Vec<String> = ids.iter().map(|s| s.to_string()).collect();
    exec(state, T0, ADMIN, &no_funds(), ExecuteMsg::Extension {
        msg: Cw2981LevelingExecuteMsg::GrantBonusExperience { token_ids, experience },
    })
}

fn level_of(state: &ContractState, token_id: &str) -> TokenLevelResponse {
    match query(state, QueryMsg::Extension {
        msg: Cw2981LevelingQueryMsg::TokenLevel { token_id: token_id.to_string() },
    }) {
        Ok(QueryResponse::TokenLevel(v)) => v,
        _ => panic!("unexpected response"),
    }
}

fn page(state: &ContractState, start_after: Option<&str>, limit: Option<u32>) -> Vec<(String, TokenLevelResponse)> {
    match query(state, QueryMsg::Extension {
        msg: Cw2981LevelingQueryMsg::AllTokenLevels {
            start_after: start_after.map(|s| s.to_string()),
            limit,
        },
    }) {
        Ok(QueryResponse::AllTokenLevels(v)) => v.token_levels,
        _ => panic!("unexpected response"),
    }
}

// The supply ledger increments exactly when the new count stays within the
// cap, and is untouched on failure.
#[test]
fn increment_respects_cap() {
    let mut issued: u64 = 0;
    assert_eq!(increment(&mut issued, 10, 10), Ok(0));
    assert_eq!(issued, 10);
    assert_eq!(increment(&mut issued, 1, 10), Err(ContractError::MaxSupplyReached));
    assert_eq!(issued, 10);
    assert_eq!(increment(&mut issued, 0, 10), Ok(10));
    assert_eq!(issued, 10);

    let mut issued: u64 = 3;
    assert_eq!(increment(&mut issued, 7, 10), Ok(3));
    assert_eq!(issued, 10);
}

// Stopping an Active timer after a delay credits exactly the elapsed time,
// capped; an immediate re-toggle credits nothing.
#[test]
fn toggle_round_trip() {
    let mut state = setup(10);
    exec(&mut state, T0, ADMIN, &no_funds(), ExecuteMsg::MintTeam { quantity: 1 }).unwrap();
    set_leveling(&mut state, true, 100, T0);
    grant(&mut state, &["0"], 10).unwrap();

    // Active -> Idle after 5 seconds: exactly 5 credited.
    toggle(&mut state, ADMIN, "0", T0).unwrap();
    toggle(&mut state, ADMIN, "0", T0 + 5).unwrap();
    assert_eq!(
        level_of(&state, "0"),
        TokenLevelResponse { leveling: false, leveling_start_timestamp: 0, total_exp: 15 }
    );

    // Immediate re-toggle: nothing credited.
    toggle(&mut state, ADMIN, "0", T0 + 5).unwrap();
    toggle(&mut state, ADMIN, "0", T0 + 5).unwrap();
    assert_eq!(
        level_of(&state, "0"),
        TokenLevelResponse { leveling: false, leveling_start_timestamp: 0, total_exp: 15 }
    );
}

// Closing the leveling gate twice in a row is safe: the second sweep finds no
// Active token and the timer records stay exactly as they were.
#[test]
fn sweep_idempotent() {
    let mut state = setup(10);
    exec(&mut state, T0, ADMIN, &no_funds(), ExecuteMsg::MintTeam { quantity: 2 }).unwrap();
    set_leveling(&mut state, true, 100, T0);
    toggle(&mut state, ADMIN, "0", T0).unwrap();
    toggle(&mut state, ADMIN, "1", T0).unwrap();

    set_leveling(&mut state, false, 100, T0 + 10);
    let after_first = page(&state, None, Some(1000));
    assert_eq!(
        level_of(&state, "0"),
        TokenLevelResponse { leveling: false, leveling_start_timestamp: 0, total_exp: 10 }
    );
    assert_eq!(
        level_of(&state, "1"),
        TokenLevelResponse { leveling: false, leveling_start_timestamp: 0, total_exp: 10 }
    );

    set_leveling(&mut state, false, 100, T0 + 500);
    let after_second = page(&state, None, Some(1000));
    assert_eq!(after_first, after_second);
}

// Royalty rounding: floor(sale_price * percentage / 100), cross-checked
// against the hosting platform's own decimal arithmetic.
#[test]
fn royalty_rounding() {
    // 43 * 0.04 = 1.72, floor 1
    assert_eq!(royalty_amount(43, 4), 1);
    assert_eq!(royalty_amount(100, 5), 5);

    let prices: [u128; 6] = [0, 1, 7, 43, 100, 12345678901234567890];
    let percentages: [u64; 7] = [0, 1, 4, 5, 50, 99, 100];
    for &p in prices.iter() {
        for &pct in percentages.iter() {
            let expected = Uint128::new(p) * Decimal::percent(pct);
            assert_eq!(royalty_amount(p, pct), expected.u128());
        }
    }
}

// Two team mints assign the sequential ids "0" and "1"; turning leveling off
// at t0+10 forces the Active token "0" Idle with exactly 10 credited.
#[test]
fn team_mint_and_sweep_scenario() {
    let mut state = setup(10);
    let r = exec(&mut state, T0, ADMIN, &no_funds(), ExecuteMsg::MintTeam { quantity: 1 })
        .unwrap();
    assert_eq!(r, ExecuteOutcome::Minted { first_id: 0, quantity: 1 });
    let r = exec(&mut state, T0, ADMIN, &no_funds(), ExecuteMsg::MintTeam { quantity: 1 })
        .unwrap();
    assert_eq!(r, ExecuteOutcome::Minted { first_id: 1, quantity: 1 });

    match query(&state, QueryMsg::NumTokens {}) {
        Ok(QueryResponse::NumTokens(v)) => assert_eq!(v.count, 2),
        _ => panic!("unexpected response"),
    }
    match query(&state, QueryMsg::OwnerOf { token_id: "0".to_string() }) {
        Ok(QueryResponse::OwnerOf(v)) => assert_eq!(v.owner, ADMIN.to_string()),
        _ => panic!("unexpected response"),
    }
    match query(&state, QueryMsg::OwnerOf { token_id: "1".to_string() }) {
        Ok(QueryResponse::OwnerOf(v)) => assert_eq!(v.owner, ADMIN.to_string()),
        _ => panic!("unexpected response"),
    }

    set_leveling(&mut state, true, 100, T0);
    toggle(&mut state, ADMIN, "0", T0).unwrap();
    set_leveling(&mut state, false, 100, T0 + 10);
    assert_eq!(
        level_of(&state, "0"),
        TokenLevelResponse { leveling: false, leveling_start_timestamp: 0, total_exp: 10 }
    );
}

// A bonus grant saturates at the configured ceiling.
#[test]
fn bonus_grant_caps_at_ceiling() {
    let mut state = setup(10);
    exec(&mut state, T0, ADMIN, &no_funds(), ExecuteMsg::MintTeam { quantity: 1 }).unwrap();
    set_leveling(&mut state, true, 100, T0);
    grant(&mut state, &["0"], 10).unwrap();
    assert_eq!(level_of(&state, "0").total_exp, 10);
    grant(&mut state, &["0"], 150).unwrap();
    assert_eq!(level_of(&state, "0").total_exp, 100);
}

// An allowlist entry is single-use: one successful mint consumes it even
// though supply remains.
#[test]
fn allowlist_entry_is_single_use() {
    let mut state = setup(10);
    exec(&mut state, T0, ADMIN, &no_funds(), ExecuteMsg::SetAllowlistSale { open: true })
        .unwrap();
    exec(&mut state, T0, ADMIN, &no_funds(), ExecuteMsg::AddToAllowlist {
        addresses: vec!["user".to_string()],
    })
    .unwrap();

    let funds = coins(100000, "usei");
    exec(&mut state, T0, "user", &funds, ExecuteMsg::MintAllowlist { quantity: 1 }).unwrap();

    // supply remains available, but the second attempt fails on membership
    match query(&state, QueryMsg::NumTokens {}) {
        Ok(QueryResponse::NumTokens(v)) => assert!(v.count < 10),
        _ => panic!("unexpected response"),
    }
    let err = exec(&mut state, T0, "user", &funds, ExecuteMsg::MintAllowlist { quantity: 1 })
        .unwrap_err();
    assert_eq!(err, ContractError::NotOnAllowlist);
}

// Pagination: limit 1 returns exactly one entry in ascending token-id order,
// and the entry's own id works as the exclusive-start cursor of the next page.
#[test]
fn token_level_pagination() {
    let mut state = setup(20);
    exec(&mut state, T0, ADMIN, &no_funds(), ExecuteMsg::MintTeam { quantity: 12 }).unwrap();
    set_leveling(&mut state, true, 100, T0);
    let ids: Vec<String> = (0..12u64).map(|i| i.to_string()).collect();
    let id_refs: Vec<&str> = ids.iter().map(|s| s.as_str()).collect();
    grant(&mut state, &id_refs, 5).unwrap();

    // limit 1: exactly one entry, the smallest id
    let first = page(&state, None, Some(1));
    assert_eq!(first.len(), 1);
    assert_eq!(first[0].0, "0".to_string());

    // the continuation cursor is that entry's id
    let second = page(&state, Some("0"), Some(1));
    assert_eq!(second.len(), 1);
    assert_eq!(second[0].0, "1".to_string());

    // ascending numeric order across the whole map: "10" comes after "9"
    let all = page(&state, None, Some(1000));
    let got: Vec<String> = all.iter().map(|e| e.0.clone()).collect();
    let expected: Vec<String> = (0..12u64).map(|i| i.to_string()).collect();
    assert_eq!(got, expected);

    // default page size is 10
    let default_page = page(&state, None, None);
    assert_eq!(default_page.len(), 10);

    // paging past the end is empty
    let tail = page(&state, Some("11"), Some(3));
    assert_eq!(tail.len(), 0);

    // a cursor that is not a well-formed id yields an empty page
    let none = page(&state, Some("not-an-id"), Some(3));
    assert_eq!(none.len(), 0);
}

// Token ids are canonical decimal strings: renderings parse back, and
// non-canonical spellings name no token.
#[test]
fn token_id_round_trip() {
    for n in [0u64, 1, 9, 10, 42, 100, 999, u64::MAX] {
        let s = render_token_id(n);
        assert_eq!(s, n.to_string());
        assert_eq!(parse_token_id(&s), Some(n));
    }
    assert_eq!(parse_token_id(""), None);
    assert_eq!(parse_token_id("007"), None);
    assert_eq!(parse_token_id("1a"), None);
    assert_eq!(parse_token_id("-1"), None);
    assert_eq!(parse_token_id("18446744073709551615"), Some(u64::MAX));
    assert_eq!(parse_token_id("18446744073709551616"), None);
}

// Level state is keyed by the canonical id: "07" is not "7", and an
// ill-formed id never errs on the level query.
#[test]
fn token_level_canonical_ids() {
    let mut state = setup(10);
    exec(&mut state, T0, ADMIN, &no_funds(), ExecuteMsg::MintTeam { quantity: 8 }).unwrap();
    set_leveling(&mut state, true, 100, T0);
    grant(&mut state, &["7"], 5).unwrap();
    assert_eq!(level_of(&state, "7").total_exp, 5);
    assert_eq!(level_of(&state, "07").total_exp, 0);
    assert_eq!(level_of(&state, "xyz").total_exp, 0);

    // a grant naming an ill-formed id changes nothing, atomically
    let err = grant(&mut state, &["3", "oops"], 5).unwrap_err();
    assert_eq!(err, ContractError::NotFound);
    assert_eq!(level_of(&state, "3").total_exp, 0);

    // toggling an id that names no issued token fails NotFound
    let err = toggle(&mut state, ADMIN, "8", T0).unwrap_err();
    assert_eq!(err, ContractError::NotFound);
    let err = toggle(&mut state, ADMIN, "abc", T0).unwrap_err();
    assert_eq!(err, ContractError::NotFound);
}

// The funds verifier sums every coin of the sale denomination and ignores the
// rest, never erring on unrelated denominations.
#[test]
fn funds_are_summed_per_denomination() {
    let mut state = setup(10);
    exec(&mut state, T0, ADMIN, &no_funds(), ExecuteMsg::SetPublicSale { open: true }).unwrap();

    // split payment in the sale denomination is summed
    let funds = vec![
        Coin { denom: "usei".to_string(), amount: 150000 },
        Coin { denom: "ibc/test".to_string(), amount: 999999 },
        Coin { denom: "usei".to_string(), amount: 50000 },
    ];
    exec(&mut state, T0, "buyer", &funds, ExecuteMsg::MintPublic { quantity: 2 }).unwrap();

    // short by one unit fails, whatever else is attached
    let funds = vec![
        Coin { denom: "usei".to_string(), amount: 99999 },
        Coin { denom: "other".to_string(), amount: 1 },
    ];
    let err = exec(&mut state, T0, "buyer", &funds, ExecuteMsg::MintPublic { quantity: 1 })
        .unwrap_err();
    assert_eq!(err, ContractError::InsufficientFunds);
}

// Each gate answers with its own error, in the documented order.
#[test]
fn gate_errors_are_distinct() {
    let mut state = setup(10);
    let funds = coins(100000, "usei");

    // closed sales
    exec(&mut state, T0, ADMIN, &no_funds(), ExecuteMsg::AddToOgList {
        addresses: vec!["m".to_string()],
    })
    .unwrap();
    exec(&mut state, T0, ADMIN, &no_funds(), ExecuteMsg::AddToAllowlist {
        addresses: vec!["m".to_string()],
    })
    .unwrap();
    let err = exec(&mut state, T0, "m", &funds, ExecuteMsg::MintOg { quantity: 1 }).unwrap_err();
    assert_eq!(err, ContractError::OgSaleClosed);
    let err = exec(&mut state, T0, "m", &funds, ExecuteMsg::MintAllowlist { quantity: 1 })
        .unwrap_err();
    assert_eq!(err, ContractError::AllowlistSaleClosed);
    let err = exec(&mut state, T0, "m", &funds, ExecuteMsg::MintPublic { quantity: 1 })
        .unwrap_err();
    assert_eq!(err, ContractError::PublicSaleClosed);

    // zero quantity comes after the membership and gate checks
    exec(&mut state, T0, ADMIN, &no_funds(), ExecuteMsg::SetOgSale { open: true }).unwrap();
    let err = exec(&mut state, T0, "m", &funds, ExecuteMsg::MintOg { quantity: 0 }).unwrap_err();
    assert_eq!(err, ContractError::InvalidQuantity);

    // handover errors
    let err = exec(&mut state, T0, ADMIN, &no_funds(), ExecuteMsg::UpdateOwnership {
        action: cw2981_leveling::OwnershipAction::Accept,
    })
    .unwrap_err();
    assert_eq!(err, ContractError::NoPendingAdmin);
    exec(&mut state, T0, ADMIN, &no_funds(), ExecuteMsg::UpdateOwnership {
        action: cw2981_leveling::OwnershipAction::Propose { new_admin: "next".to_string() },
    })
    .unwrap();
    let err = exec(&mut state, T0, "stranger", &no_funds(), ExecuteMsg::UpdateOwnership {
        action: cw2981_leveling::OwnershipAction::Accept,
    })
    .unwrap_err();
    assert_eq!(err, ContractError::NotPendingAdmin);
}
