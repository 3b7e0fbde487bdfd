use cw2981_leveling::{
    execute, instantiate, query, ContractError, ContractState, Cw2981LevelingExecuteMsg,
    Cw2981LevelingQueryMsg, ExecuteMsg, InstantiateMsg, LevelingConfigResponse, QueryMsg,
    QueryResponse, RoyaltiesInfoResponse, SaleConfigResponse, TokenLevelResponse,
};
use cw2981_leveling::query::check_royalties;
use cw2981_leveling::state::Coin;

const CREATOR: &str = "creator";
// The mock block time of the hosting platform's test environment, in seconds.
const MOCK_TIME: u64 = 1571797419;

fn no_funds() -> Vec<Coin> {
    Vec::new()
}

fn coins(amount: u128, denom: &str) -> Vec<Coin> {
    vec![Coin { denom: denom.to_string(), amount }]
}

fn leveling_init_msg(royalty_percentage: u64, base_token_uri: &str) -> InstantiateMsg {
    InstantiateMsg {
        name: "PlayerX".to_string(),
        symbol: "PX".to_string(),
        base_token_uri: base_token_uri.to_string(),
        collection_size: 10,
        royalty_percentage,
        royalty_payment_address: "address".to_string(),
        og_price: 0,
        allowlist_price: 1000000,
        public_price: 1000000,
        max_per_og: 0,
        max_per_allowlist: 1,
        max_per_public: 5,
    }
}

fn query_royalty_info(state: &ContractState, token_id: &str, sale_price: u128) -> Result<RoyaltiesInfoResponse, ContractError> {
    let msg = QueryMsg::Extension {
        msg: Cw2981LevelingQueryMsg::RoyaltyInfo {
            token_id: token_id.to_string(),
            sale_price,
        },
    };
    match query(state, msg) {
        Ok(QueryResponse::RoyaltiesInfo(v)) => Ok(v),
        Ok(_) => panic!("unexpected response"),
        Err(e) => Err(e),
    }
}

fn query_level(state: &ContractState, token_id: &str) -> TokenLevelResponse {
    let msg = QueryMsg::Extension {
        msg: Cw2981LevelingQueryMsg::TokenLevel { token_id: token_id.to_string() },
    };
    match query(state, msg) {
        Ok(QueryResponse::TokenLevel(v)) => v,
        _ => panic!("unexpected response"),
    }
}

fn query_lev_config(state: &ContractState) -> LevelingConfigResponse {
    match query(state, QueryMsg::Extension { msg: Cw2981LevelingQueryMsg::LevelingConfig {} }) {
        Ok(QueryResponse::LevelingConfig(v)) => v,
        _ => panic!("unexpected response"),
    }
}

#[test]
fn check_instantiate() {
    let init_msg = leveling_init_msg(10, "token_uri");
    let state = instantiate(init_msg, CREATOR.to_string()).unwrap();

    let sale_config = match query(&state, QueryMsg::SaleConfig {}) {
        Ok(QueryResponse::SaleConfig(v)) => v,
        _ => panic!("unexpected response"),
    };
    assert_eq!(
        sale_config,
        SaleConfigResponse {
            og_price: 0,
            allowlist_price: 1000000,
            public_price: 1000000,
            max_per_og: 0,
            max_per_allowlist: 1,
            max_per_public: 5,
            og_sale_open: false,
            allowlist_sale_open: false,
            public_sale_open: false,
        }
    );
}

#[test]
fn validate_royalty_information() {
    let init_msg = leveling_init_msg(101, "uri");
    let err = instantiate(init_msg, CREATOR.to_string()).unwrap_err();
    assert_eq!(err, ContractError::InvalidRoyaltyPercentage);
}

#[test]
fn check_royalties_response() {
    let state = instantiate(leveling_init_msg(10, "uri"), CREATOR.to_string()).unwrap();

    let res = check_royalties(&state);
    assert!(res.royalty_payments);

    // also check the longhand way
    let msg = QueryMsg::Extension { msg: Cw2981LevelingQueryMsg::CheckRoyalties {} };
    match query(&state, msg) {
        Ok(QueryResponse::CheckRoyalties(v)) => assert!(v.royalty_payments),
        _ => panic!("unexpected response"),
    }
}

#[test]
fn check_token_royalties() {
    let mut state = instantiate(leveling_init_msg(4, "uri"), CREATOR.to_string()).unwrap();
    let creator = CREATOR.to_string();

    let err = query_royalty_info(&state, "0", 100).unwrap_err();
    assert_eq!(err, ContractError::NotFound);
    let err = query_royalty_info(&state, "1", 100).unwrap_err();
    assert_eq!(err, ContractError::NotFound);

    // Mint a token
    execute(
        &mut state,
        MOCK_TIME,
        &creator,
        &no_funds(),
        ExecuteMsg::MintTeam { quantity: 1 },
    )
    .unwrap();

    let res = query_royalty_info(&state, "0", 100).unwrap();
    assert_eq!(
        res,
        RoyaltiesInfoResponse { address: "address".to_string(), royalty_amount: 4 }
    );

    // A sale price whose royalty needs rounding: 43 * 0.04 = 1.72, floor 1.
    let res = query_royalty_info(&state, "0", 43).unwrap();
    assert_eq!(
        res,
        RoyaltiesInfoResponse { address: "address".to_string(), royalty_amount: 1 }
    );
}

#[test]
fn check_update_royalty_info() {
    let mut state = instantiate(leveling_init_msg(4, "uri"), CREATOR.to_string()).unwrap();
    let creator = CREATOR.to_string();
    let random = "random".to_string();

    // Open the public sale and mint some tokens at the public price.
    execute(&mut state, MOCK_TIME, &creator, &no_funds(), ExecuteMsg::SetPublicSale {
        open: true,
    })
    .unwrap();
    let funds = coins(5000000, "usei");
    execute(&mut state, MOCK_TIME, &creator, &funds, ExecuteMsg::MintPublic { quantity: 5 })
        .unwrap();

    let res = query_royalty_info(&state, "0", 100).unwrap();
    assert_eq!(
        res,
        RoyaltiesInfoResponse { address: "address".to_string(), royalty_amount: 4 }
    );

    // Random can't update royalty info
    let msg = ExecuteMsg::Extension {
        msg: Cw2981LevelingExecuteMsg::UpdateRoyaltyConfig {
            royalty_percentage: 8,
            royalty_payment_address: "random".to_string(),
        },
    };
    let err = execute(&mut state, MOCK_TIME, &random, &no_funds(), msg).unwrap_err();
    assert_eq!(err, ContractError::NotAdmin);

    // Update royalty info with error
    let msg = ExecuteMsg::Extension {
        msg: Cw2981LevelingExecuteMsg::UpdateRoyaltyConfig {
            royalty_percentage: 101,
            royalty_payment_address: "address".to_string(),
        },
    };
    let err = execute(&mut state, MOCK_TIME, &creator, &no_funds(), msg).unwrap_err();
    assert_eq!(err, ContractError::InvalidRoyaltyPercentage);

    // Update royalty info with new address and percentage
    let msg = ExecuteMsg::Extension {
        msg: Cw2981LevelingExecuteMsg::UpdateRoyaltyConfig {
            royalty_percentage: 5,
            royalty_payment_address: "address_new".to_string(),
        },
    };
    execute(&mut state, MOCK_TIME, &creator, &no_funds(), msg).unwrap();
    let res = query_royalty_info(&state, "0", 100).unwrap();
    assert_eq!(
        res,
        RoyaltiesInfoResponse { address: "address_new".to_string(), royalty_amount: 5 }
    );
}

#[test]
fn update_leveling_config() {
    let mut state = instantiate(leveling_init_msg(4, "uri"), CREATOR.to_string()).unwrap();
    let creator = CREATOR.to_string();

    assert_eq!(
        query_lev_config(&state),
        LevelingConfigResponse { leveling_open: false, max_experience: 0 }
    );

    // Attempt to update leveling config by an unauthorized user
    let random = "random_user".to_string();
    let msg = ExecuteMsg::Extension {
        msg: Cw2981LevelingExecuteMsg::UpdateLevelingConfig {
            leveling_open: true,
            max_experience: 1000,
        },
    };
    let err = execute(&mut state, MOCK_TIME, &random, &no_funds(), msg).unwrap_err();
    assert_eq!(err, ContractError::NotAdmin);

    // Update leveling config by the creator
    let msg = ExecuteMsg::Extension {
        msg: Cw2981LevelingExecuteMsg::UpdateLevelingConfig {
            leveling_open: true,
            max_experience: 1000,
        },
    };
    execute(&mut state, MOCK_TIME, &creator, &no_funds(), msg).unwrap();
    assert_eq!(
        query_lev_config(&state),
        LevelingConfigResponse { leveling_open: true, max_experience: 1000 }
    );

    let msg = ExecuteMsg::Extension {
        msg: Cw2981LevelingExecuteMsg::UpdateLevelingConfig {
            leveling_open: false,
            max_experience: 1000,
        },
    };
    execute(&mut state, MOCK_TIME, &creator, &no_funds(), msg).unwrap();
    assert_eq!(
        query_lev_config(&state),
        LevelingConfigResponse { leveling_open: false, max_experience: 1000 }
    );
}

#[test]
fn toggle_leveling_status() {
    let mut state = instantiate(leveling_init_msg(4, "uri"), CREATOR.to_string()).unwrap();
    let creator = CREATOR.to_string();

    // Mint a token
    execute(&mut state, MOCK_TIME, &creator, &no_funds(), ExecuteMsg::MintTeam { quantity: 1 })
        .unwrap();

    // Toggle leveling fails because leveling is not open yet
    let toggle = ExecuteMsg::Extension {
        msg: Cw2981LevelingExecuteMsg::ToggleLeveling { token_id: "0".to_string() },
    };
    let err = execute(&mut state, MOCK_TIME, &creator, &no_funds(), toggle).unwrap_err();
    assert_eq!(err, ContractError::LevelingNotOpen);

    // Turn on leveling
    let msg = ExecuteMsg::Extension {
        msg: Cw2981LevelingExecuteMsg::UpdateLevelingConfig {
            leveling_open: true,
            max_experience: 100,
        },
    };
    execute(&mut state, MOCK_TIME, &creator, &no_funds(), msg).unwrap();

    // Toggle leveling for the token
    let toggle = ExecuteMsg::Extension {
        msg: Cw2981LevelingExecuteMsg::ToggleLeveling { token_id: "0".to_string() },
    };
    execute(&mut state, MOCK_TIME, &creator, &no_funds(), toggle).unwrap();
    assert_eq!(
        query_level(&state, "0"),
        TokenLevelResponse { leveling: true, leveling_start_timestamp: MOCK_TIME, total_exp: 0 }
    );

    // Attempt to toggle leveling for a token by a non-owner
    let random = "random_user".to_string();
    let toggle = ExecuteMsg::Extension {
        msg: Cw2981LevelingExecuteMsg::ToggleLeveling { token_id: "0".to_string() },
    };
    let err = execute(&mut state, MOCK_TIME, &random, &no_funds(), toggle).unwrap_err();
    assert_eq!(err, ContractError::UnauthorizedLeveling);

    // Toggle leveling again, ten seconds later, to turn it off
    let toggle = ExecuteMsg::Extension {
        msg: Cw2981LevelingExecuteMsg::ToggleLeveling { token_id: "0".to_string() },
    };
    execute(&mut state, MOCK_TIME + 10, &creator, &no_funds(), toggle).unwrap();
    assert_eq!(
        query_level(&state, "0"),
        TokenLevelResponse { leveling: false, leveling_start_timestamp: 0, total_exp: 10 }
    );

    // Toggle back on
    let toggle = ExecuteMsg::Extension {
        msg: Cw2981LevelingExecuteMsg::ToggleLeveling { token_id: "0".to_string() },
    };
    execute(&mut state, MOCK_TIME + 10, &creator, &no_funds(), toggle).unwrap();

    // Turn off leveling in the config: the sweep credits the elapsed 100
    // seconds but the ceiling caps the total at 100.
    let msg = ExecuteMsg::Extension {
        msg: Cw2981LevelingExecuteMsg::UpdateLevelingConfig {
            leveling_open: false,
            max_experience: 100,
        },
    };
    execute(&mut state, MOCK_TIME + 110, &creator, &no_funds(), msg).unwrap();
    assert_eq!(
        query_level(&state, "0"),
        TokenLevelResponse { leveling: false, leveling_start_timestamp: 0, total_exp: 100 }
    );
}

#[test]
fn grant_bonus_experience() {
    let mut state = instantiate(leveling_init_msg(4, "uri"), CREATOR.to_string()).unwrap();
    let creator = CREATOR.to_string();

    // Mint tokens
    execute(&mut state, MOCK_TIME, &creator, &no_funds(), ExecuteMsg::MintTeam { quantity: 2 })
        .unwrap();

    // Turn on leveling
    let msg = ExecuteMsg::Extension {
        msg: Cw2981LevelingExecuteMsg::UpdateLevelingConfig {
            leveling_open: true,
            max_experience: 100,
        },
    };
    execute(&mut state, MOCK_TIME, &creator, &no_funds(), msg).unwrap();

    // Random doesn't have access
    let msg = ExecuteMsg::Extension {
        msg: Cw2981LevelingExecuteMsg::GrantBonusExperience {
            token_ids: vec!["0".to_string(), "1".to_string()],
            experience: 10,
        },
    };
    let random = "random".to_string();
    let err = execute(&mut state, MOCK_TIME, &random, &no_funds(), msg).unwrap_err();
    assert_eq!(err, ContractError::NotAdmin);

    // Grant bonus experience to the tokens
    let msg = ExecuteMsg::Extension {
        msg: Cw2981LevelingExecuteMsg::GrantBonusExperience {
            token_ids: vec!["0".to_string(), "1".to_string()],
            experience: 10,
        },
    };
    execute(&mut state, MOCK_TIME, &creator, &no_funds(), msg).unwrap();

    assert_eq!(
        query_level(&state, "0"),
        TokenLevelResponse { leveling: false, leveling_start_timestamp: 0, total_exp: 10 }
    );
    assert_eq!(
        query_level(&state, "1"),
        TokenLevelResponse { leveling: false, leveling_start_timestamp: 0, total_exp: 10 }
    );

    // Grant more than max
    let msg = ExecuteMsg::Extension {
        msg: Cw2981LevelingExecuteMsg::GrantBonusExperience {
            token_ids: vec!["1".to_string()],
            experience: 150,
        },
    };
    execute(&mut state, MOCK_TIME, &creator, &no_funds(), msg).unwrap();
    assert_eq!(
        query_level(&state, "1"),
        TokenLevelResponse { leveling: false, leveling_start_timestamp: 0, total_exp: 100 }
    );
}
