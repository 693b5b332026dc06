use coreum_nft::error::ContractError;
use coreum_nft::registry::{
    HandleMsg, ProptixDeploymentConfig, ProptixRuntimeConfig, QueryAnswer, QueryMsg, State,
};

fn deployment_config(name: &str) -> ProptixDeploymentConfig {
    ProptixDeploymentConfig {
        name: name.to_string(),
        symbol: "GAL".to_string(),
        max_supply: 10,
        treasury_address: "treasury".to_string(),
    }
}

fn runtime_config(protocol_fee: u8, start: u64, end: u64) -> ProptixRuntimeConfig {
    ProptixRuntimeConfig {
        base_token_uri: "https://example.test/meta/".to_string(),
        base_token_uri_extension: ".json".to_string(),
        prereveal_token_uri: "https://example.test/hidden".to_string(),
        mint_price: 100,
        sale_start_time: start,
        sale_end_time: end,
        protocol_fee,
    }
}

#[test]
fn two_deployments_keep_creation_order() {
    let mut reg = State::new("operator".to_string());
    let alice = "alice".to_string();
    reg.create_collection(
        &alice,
        &"addr1".to_string(),
        &deployment_config("first"),
        &runtime_config(10, 100, 200),
    )
    .unwrap();
    reg.create_collection(
        &alice,
        &"addr2".to_string(),
        &deployment_config("second"),
        &runtime_config(10, 100, 200),
    )
    .unwrap();
    reg.create_collection(
        &"bob".to_string(),
        &"addr3".to_string(),
        &deployment_config("third"),
        &runtime_config(10, 100, 200),
    )
    .unwrap();

    assert_eq!(reg.get_last_deployed(&alice).unwrap(), "addr2");
    assert_eq!(reg.get_deployed(&alice), vec!["addr1", "addr2"]);
    let all = reg.get_all_contracts();
    assert!(all.contains(&"addr1".to_string()));
    assert!(all.contains(&"addr2".to_string()));
    assert_eq!(all, vec!["addr1", "addr2", "addr3"]);
}

#[test]
fn create_collection_rejects_bad_config() {
    let mut reg = State::new("operator".to_string());
    let alice = "alice".to_string();
    let err = reg
        .create_collection(
            &alice,
            &"addr1".to_string(),
            &deployment_config("first"),
            &runtime_config(101, 100, 200),
        )
        .unwrap_err();
    assert_eq!(err, ContractError::InvalidConfig);

    let err = reg
        .create_collection(
            &alice,
            &"addr1".to_string(),
            &deployment_config("first"),
            &runtime_config(10, 300, 200),
        )
        .unwrap_err();
    assert_eq!(err, ContractError::InvalidConfig);

    assert!(reg.get_last_deployed(&alice).is_none());
    assert!(reg.get_all_contracts().is_empty());
}

#[test]
fn create_collection_reports_attributes() {
    let mut reg = State::new("operator".to_string());
    let resp = reg
        .create_collection(
            &"alice".to_string(),
            &"addr1".to_string(),
            &deployment_config("first"),
            &runtime_config(10, 100, 200),
        )
        .unwrap();
    assert_eq!(resp.attributes[0].key, "action");
    assert_eq!(resp.attributes[0].value, "create_collection");
    assert_eq!(resp.attributes[1].key, "collection");
    assert_eq!(resp.attributes[1].value, "addr1");
    assert!(resp.mints.is_empty());
}

#[test]
fn set_base_uri_resolves_collection_name() {
    let mut reg = State::new("operator".to_string());
    let err = reg
        .set_base_uri(&"missing".to_string(), "https://x/".to_string(), true)
        .unwrap_err();
    assert_eq!(err, ContractError::CollectionNotFound);

    reg.create_collection(
        &"alice".to_string(),
        &"addr1".to_string(),
        &deployment_config("first"),
        &runtime_config(10, 100, 200),
    )
    .unwrap();
    reg.set_base_uri(&"first".to_string(), "https://x/".to_string(), true)
        .unwrap();
    assert_eq!(reg.get_contract_address(&"first".to_string()).unwrap(), "addr1");
}

#[test]
fn set_whitelist_adds_and_removes_users() {
    let mut reg = State::new("operator".to_string());
    let err = reg
        .set_whitelist(&"missing".to_string(), &"u1".to_string(), true)
        .unwrap_err();
    assert_eq!(err, ContractError::CollectionNotFound);

    reg.create_collection(
        &"alice".to_string(),
        &"addr1".to_string(),
        &deployment_config("first"),
        &runtime_config(10, 100, 200),
    )
    .unwrap();
    let first = "first".to_string();
    reg.set_whitelist(&first, &"u1".to_string(), true).unwrap();
    reg.set_whitelist(&first, &"u2".to_string(), true).unwrap();
    reg.set_whitelist(&first, &"u1".to_string(), true).unwrap();

    // the repeated add is a no-op: the recorded list holds each user once
    let users = reg
        .whitelisted_users
        .get(&"addr1".to_string())
        .cloned()
        .unwrap_or_default();
    assert_eq!(users, vec!["u1", "u2"]);

    reg.set_whitelist(&first, &"u1".to_string(), false).unwrap();

    let users = reg
        .whitelisted_users
        .get(&"addr1".to_string())
        .cloned()
        .unwrap_or_default();
    assert_eq!(users, vec!["u2"]);
}

#[test]
fn handle_dispatches_and_reports() {
    let mut reg = State::new("operator".to_string());
    let resp = reg
        .handle(
            &"alice".to_string(),
            &"addr1".to_string(),
            HandleMsg::CreateCollection {
                deployment_config: deployment_config("first"),
                runtime_config: runtime_config(10, 100, 200),
            },
        )
        .unwrap();
    assert_eq!(resp.attributes[0].value, "create_collection");

    let resp = reg
        .handle(
            &"alice".to_string(),
            &"unused".to_string(),
            HandleMsg::SetBaseURI {
                collection: "first".to_string(),
                uri: "https://x/".to_string(),
                status: true,
            },
        )
        .unwrap();
    assert_eq!(resp.attributes[0].value, "set_base_uri");
    assert_eq!(resp.attributes[1].value, "first");

    let resp = reg
        .handle(
            &"alice".to_string(),
            &"unused".to_string(),
            HandleMsg::SetWhitelist {
                collection: "first".to_string(),
                user: "u1".to_string(),
                status: true,
            },
        )
        .unwrap();
    assert_eq!(resp.attributes[0].value, "set_whitelist");

    let err = reg
        .handle(
            &"alice".to_string(),
            &"unused".to_string(),
            HandleMsg::SetWhitelist {
                collection: "missing".to_string(),
                user: "u1".to_string(),
                status: true,
            },
        )
        .unwrap_err();
    assert_eq!(err, ContractError::CollectionNotFound);
}

#[test]
fn queries_answer_from_recorded_state() {
    let mut reg = State::new("operator".to_string());
    let alice = "alice".to_string();

    match reg.query(&QueryMsg::LastDeployed { owner: alice.clone() }) {
        QueryAnswer::LastDeployed(None) => {}
        other => panic!("unexpected answer: {:?}", answer_kind(&other)),
    }

    reg.create_collection(
        &alice,
        &"addr1".to_string(),
        &deployment_config("first"),
        &runtime_config(10, 100, 200),
    )
    .unwrap();

    match reg.query(&QueryMsg::LastDeployed { owner: alice.clone() }) {
        QueryAnswer::LastDeployed(Some(a)) => assert_eq!(a, "addr1"),
        other => panic!("unexpected answer: {:?}", answer_kind(&other)),
    }
    match reg.query(&QueryMsg::AllContracts) {
        QueryAnswer::Contracts(v) => assert_eq!(v, vec!["addr1"]),
        other => panic!("unexpected answer: {:?}", answer_kind(&other)),
    }
    match reg.query(&QueryMsg::Deployed { owner: alice.clone() }) {
        QueryAnswer::Contracts(v) => assert_eq!(v, vec!["addr1"]),
        other => panic!("unexpected answer: {:?}", answer_kind(&other)),
    }
}

fn answer_kind(a: &QueryAnswer) -> &'static str {
    match a {
        QueryAnswer::LastDeployed(_) => "last_deployed",
        QueryAnswer::Contracts(_) => "contracts",
    }
}
