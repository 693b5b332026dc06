use coreum_nft::engine::{ExecuteMsg, HandleMsg, State};
use coreum_nft::error::ContractError;
use coreum_nft::fees::fee_amount;
use coreum_nft::numerals::u64_to_dec;
use coreum_nft::registry::{ProptixDeploymentConfig, ProptixRuntimeConfig};

fn deployment_config(max_supply: u64) -> ProptixDeploymentConfig {
    ProptixDeploymentConfig {
        name: "gallery".to_string(),
        symbol: "GAL".to_string(),
        max_supply,
        treasury_address: "treasury".to_string(),
    }
}

fn runtime_config(mint_price: u128, protocol_fee: u8) -> ProptixRuntimeConfig {
    ProptixRuntimeConfig {
        base_token_uri: "https://example.test/meta/".to_string(),
        base_token_uri_extension: ".json".to_string(),
        prereveal_token_uri: "https://example.test/hidden".to_string(),
        mint_price,
        sale_start_time: 100,
        sale_end_time: 200,
        protocol_fee,
    }
}

fn engine(max_supply: u64, mint_price: u128, protocol_fee: u8) -> State {
    let mut st = State::new(&deployment_config(max_supply), &runtime_config(mint_price, protocol_fee));
    st.owner = "owner".to_string();
    st
}

fn fund(st: &mut State, addr: &str, amount: i128) {
    st.update_balance(&addr.to_string(), amount).unwrap();
}

fn balance(st: &State, addr: &str) -> u128 {
    st.get_balance(&addr.to_string()).unwrap()
}

#[test]
fn example_purchase_scenario() {
    let mut st = engine(10, 100, 10);
    let buyer = "buyer".to_string();
    st.whitelist(&buyer, true);
    fund(&mut st, "buyer", 250);

    let resp = st.purchase(2, &buyer, 150).unwrap();

    assert_eq!(balance(&st, "buyer"), 50);
    assert_eq!(balance(&st, ""), 20); // protocol address starts empty
    assert_eq!(balance(&st, "treasury"), 180);
    assert_eq!(st.current_token_id, 2);
    assert_eq!(resp.mints.len(), 2);
    assert_eq!(resp.mints[0].token_id, "0");
    assert_eq!(resp.mints[1].token_id, "1");
    assert_eq!(resp.mints[0].owner, "buyer");
    assert_eq!(resp.attributes.len(), 3);
    assert_eq!(resp.attributes[0].key, "action");
    assert_eq!(resp.attributes[0].value, "purchase");
    assert_eq!(resp.attributes[1].value, "buyer");
    assert_eq!(resp.attributes[2].value, "2");
}

#[test]
fn purchase_not_whitelisted_fails() {
    let mut st = engine(10, 100, 10);
    let buyer = "buyer".to_string();
    fund(&mut st, "buyer", 1000);

    let err = st.purchase(1, &buyer, 150).unwrap_err();

    assert_eq!(err, ContractError::Unauthorized);
    assert_eq!(balance(&st, "buyer"), 1000);
    assert_eq!(st.current_token_id, 0);
}

#[test]
fn purchase_outside_window_fails() {
    let mut st = engine(10, 100, 10);
    let buyer = "buyer".to_string();
    st.whitelist(&buyer, true);
    fund(&mut st, "buyer", 1000);

    let before = st.purchase(1, &buyer, 99).unwrap_err();
    let after = st.purchase(1, &buyer, 201).unwrap_err();

    assert_eq!(before, ContractError::SaleNotActive);
    assert_eq!(after, ContractError::SaleNotActive);
    assert_eq!(balance(&st, "buyer"), 1000);
    assert_eq!(balance(&st, "treasury"), 0);
    assert_eq!(st.current_token_id, 0);
}

#[test]
fn purchase_window_bounds_are_inclusive() {
    let mut st = engine(10, 100, 0);
    let buyer = "buyer".to_string();
    st.whitelist(&buyer, true);
    fund(&mut st, "buyer", 1000);

    assert!(st.purchase(1, &buyer, 100).is_ok());
    assert!(st.purchase(1, &buyer, 200).is_ok());
}

#[test]
fn purchase_insufficient_funds_fails() {
    let mut st = engine(10, 100, 10);
    let buyer = "buyer".to_string();
    st.whitelist(&buyer, true);
    fund(&mut st, "buyer", 199);

    let err = st.purchase(2, &buyer, 150).unwrap_err();

    assert_eq!(err, ContractError::InsufficientFunds);
    assert_eq!(balance(&st, "buyer"), 199);
    assert_eq!(st.current_token_id, 0);
}

#[test]
fn purchase_beyond_supply_fails() {
    let mut st = engine(3, 100, 10);
    let buyer = "buyer".to_string();
    st.whitelist(&buyer, true);
    fund(&mut st, "buyer", 1000);

    st.purchase(2, &buyer, 150).unwrap();
    let err = st.purchase(2, &buyer, 150).unwrap_err();

    assert_eq!(err, ContractError::SupplyExhausted);
    assert_eq!(st.current_token_id, 2);
    assert!(st.current_token_id <= st.max_total_mint);

    st.purchase(1, &buyer, 150).unwrap();
    assert_eq!(st.current_token_id, 3);
    assert_eq!(
        st.purchase(1, &buyer, 150).unwrap_err(),
        ContractError::SupplyExhausted
    );
}

#[test]
fn purchase_cost_overflow_fails() {
    let mut st = engine(10, u128::MAX, 10);
    let buyer = "buyer".to_string();
    st.whitelist(&buyer, true);
    fund(&mut st, "buyer", 1000);

    let err = st.purchase(2, &buyer, 150).unwrap_err();

    assert_eq!(err, ContractError::Overflow);
    assert_eq!(balance(&st, "buyer"), 1000);
}

#[test]
fn purchase_payout_overflow_fails() {
    let mut st = engine(10, u128::MAX, 0);
    let buyer = "buyer".to_string();
    st.whitelist(&buyer, true);
    fund(&mut st, "buyer", i128::MAX as i128);
    st.update_balance(&"buyer".to_string(), i128::MAX).unwrap();
    st.update_balance(&"buyer".to_string(), 1).unwrap();
    fund(&mut st, "treasury", 1);
    assert_eq!(balance(&st, "buyer"), u128::MAX);

    let err = st.purchase(1, &buyer, 150).unwrap_err();

    assert_eq!(err, ContractError::Overflow);
    assert_eq!(balance(&st, "buyer"), u128::MAX);
    assert_eq!(balance(&st, "treasury"), 1);
    assert_eq!(st.current_token_id, 0);
}

#[test]
fn successive_purchases_number_tokens_consecutively() {
    let mut st = engine(100, 10, 7);
    let buyer = "buyer".to_string();
    st.whitelist(&buyer, true);
    fund(&mut st, "buyer", 10_000);

    let first = st.purchase(3, &buyer, 150).unwrap();
    let second = st.purchase(2, &buyer, 150).unwrap();

    assert_eq!(st.current_token_id, 5);
    let ids: Vec<String> = first
        .mints
        .iter()
        .chain(second.mints.iter())
        .map(|m| m.token_id.clone())
        .collect();
    assert_eq!(ids, vec!["0", "1", "2", "3", "4"]);
}

#[test]
fn fee_split_keeps_every_unit() {
    let mut st = engine(10, 33, 10);
    let buyer = "buyer".to_string();
    st.whitelist(&buyer, true);
    fund(&mut st, "buyer", 33);

    st.purchase(1, &buyer, 150).unwrap();

    // floor(33 * 10 / 100) = 3 to the protocol, the remainder to the treasury
    assert_eq!(balance(&st, ""), 3);
    assert_eq!(balance(&st, "treasury"), 30);
    assert_eq!(balance(&st, "buyer"), 0);
}

#[test]
fn fee_split_extremes() {
    let mut st = engine(10, 100, 0);
    let buyer = "buyer".to_string();
    st.whitelist(&buyer, true);
    fund(&mut st, "buyer", 100);
    st.purchase(1, &buyer, 150).unwrap();
    assert_eq!(balance(&st, ""), 0);
    assert_eq!(balance(&st, "treasury"), 100);

    let mut st = engine(10, 100, 100);
    st.whitelist(&buyer, true);
    fund(&mut st, "buyer", 100);
    st.purchase(1, &buyer, 150).unwrap();
    assert_eq!(balance(&st, ""), 100);
    assert_eq!(balance(&st, "treasury"), 0);
}

#[test]
fn fee_amount_exact_values() {
    assert_eq!(fee_amount(200, 10), 20);
    assert_eq!(fee_amount(33, 10), 3);
    assert_eq!(fee_amount(0, 50), 0);
    assert_eq!(fee_amount(u128::MAX, 100), u128::MAX);
    assert_eq!(fee_amount(u128::MAX, 0), 0);
    assert_eq!(fee_amount(999, 1), 9);
}

#[test]
fn whitelist_is_idempotent_and_defaults_false() {
    let mut st = engine(10, 100, 10);
    let a = "alice".to_string();
    assert!(!st.is_whitelisted(&a));
    st.whitelist(&a, true);
    st.whitelist(&a, true);
    assert!(st.is_whitelisted(&a));
    st.whitelist(&a, false);
    assert!(!st.is_whitelisted(&a));
}

#[test]
fn update_balance_rejects_overdraft() {
    let mut st = engine(10, 100, 10);
    let a = "alice".to_string();
    st.update_balance(&a, 40).unwrap();
    let err = st.update_balance(&a, -41).unwrap_err();
    assert_eq!(err, ContractError::InsufficientFunds);
    assert_eq!(balance(&st, "alice"), 40);
    st.update_balance(&a, -40).unwrap();
    assert_eq!(balance(&st, "alice"), 0);
}

#[test]
fn token_uri_respects_reveal_flag() {
    let mut st = engine(10, 100, 10);
    assert_eq!(st.token_uri(7), "https://example.test/hidden7.json");
    st.uri_status = true;
    assert_eq!(st.token_uri(7), "https://example.test/meta/7.json");
    assert_eq!(st.token_uri(12345), "https://example.test/meta/12345.json");
}

#[test]
fn numerals_render_decimal() {
    assert_eq!(u64_to_dec(0), "0");
    assert_eq!(u64_to_dec(7), "7");
    assert_eq!(u64_to_dec(12345), "12345");
    assert_eq!(u64_to_dec(u64::MAX), "18446744073709551615");
}

#[test]
fn execute_whitelist_requires_owner() {
    let mut st = engine(10, 100, 10);
    let err = st
        .execute(
            &"mallory".to_string(),
            150,
            ExecuteMsg::Whitelist { address: "alice".to_string(), status: true },
        )
        .unwrap_err();
    assert_eq!(err, ContractError::Unauthorized);
    assert!(!st.is_whitelisted(&"alice".to_string()));

    let resp = st
        .execute(
            &"owner".to_string(),
            150,
            ExecuteMsg::Whitelist { address: "alice".to_string(), status: true },
        )
        .unwrap();
    assert!(st.is_whitelisted(&"alice".to_string()));
    assert_eq!(resp.attributes[0].value, "whitelist");
    assert_eq!(resp.attributes[1].value, "alice");
}

#[test]
fn execute_purchase_dispatches() {
    let mut st = engine(10, 100, 10);
    let buyer = "buyer".to_string();
    st.whitelist(&buyer, true);
    fund(&mut st, "buyer", 250);
    let resp = st
        .execute(&buyer, 150, ExecuteMsg::Purchase { count: 2 })
        .unwrap();
    assert_eq!(resp.mints.len(), 2);
    assert_eq!(st.current_token_id, 2);
}

#[test]
fn handle_requires_owner_and_describes_action() {
    let st = engine(10, 100, 10);
    let msg = HandleMsg::Burn { class_id: "gallery".to_string(), id: "3".to_string() };
    assert_eq!(
        st.handle(&"mallory".to_string(), &msg).unwrap_err(),
        ContractError::Unauthorized
    );
    let resp = st.handle(&"owner".to_string(), &msg).unwrap();
    assert_eq!(resp.attributes[0].value, "burn");
    assert_eq!(resp.attributes[1].value, "gallery");
    assert_eq!(resp.attributes[2].value, "3");

    let msg = HandleMsg::AddToWhitelist {
        class_id: "gallery".to_string(),
        id: "3".to_string(),
        account: "alice".to_string(),
    };
    let resp = st.handle(&"owner".to_string(), &msg).unwrap();
    assert_eq!(resp.attributes[0].value, "add_to_whitelist");
    assert_eq!(resp.attributes[3].value, "alice");
}

#[test]
fn transfer_moves_ownership_only_for_the_owner() {
    let mut st = engine(10, 100, 0);
    let buyer = "buyer".to_string();
    st.whitelist(&buyer, true);
    fund(&mut st, "buyer", 300);
    st.purchase(3, &buyer, 150).unwrap();

    let err = st
        .transfer(&"mallory".to_string(), &"eve".to_string(), 1)
        .unwrap_err();
    assert_eq!(err, ContractError::Unauthorized);

    let msg = st.transfer(&buyer, &"carol".to_string(), 1).unwrap();
    assert_eq!(msg.recipient, "carol");
    assert_eq!(msg.token_id, "1");
    let info = st.token_info(1).unwrap();
    assert_eq!(info.owner, "carol");
    assert_eq!(st.token_info(0).unwrap().owner, "buyer");

    let err = st.transfer(&buyer, &"carol".to_string(), 99).unwrap_err();
    assert_eq!(err, ContractError::Unauthorized);
}

#[test]
fn token_info_reports_uri_and_misses() {
    let mut st = engine(10, 100, 0);
    let buyer = "buyer".to_string();
    st.whitelist(&buyer, true);
    fund(&mut st, "buyer", 100);
    st.purchase(1, &buyer, 150).unwrap();

    let info = st.token_info(0).unwrap();
    assert_eq!(info.token_id, 0);
    assert_eq!(info.uri, "https://example.test/hidden0.json");
    assert!(st.token_info(5).is_none());
}

#[test]
fn tokens_query_paginates_with_default_limit_ten() {
    let mut st = engine(100, 1, 0);
    let buyer = "buyer".to_string();
    st.whitelist(&buyer, true);
    fund(&mut st, "buyer", 1000);
    st.purchase(15, &buyer, 150).unwrap();

    let page = st.tokens(&buyer, None, None);
    assert_eq!(page.collection_name, "gallery");
    assert_eq!(page.total_tokens, 15);
    assert_eq!(page.token_ids, (0..10).collect::<Vec<u64>>());

    let page = st.tokens(&buyer, Some(4), None);
    assert_eq!(page.token_ids, (5..15).collect::<Vec<u64>>());

    let page = st.tokens(&buyer, None, Some(3));
    assert_eq!(page.token_ids, vec![0, 1, 2]);

    let page = st.tokens(&"nobody".to_string(), None, None);
    assert_eq!(page.total_tokens, 0);
    assert!(page.token_ids.is_empty());
}
