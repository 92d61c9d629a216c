use nebgov::factory::{
    DeployRequest, FactoryError, FactoryFault, GovernorDeployedEvent, GovernorFactoryContract,
    InitCall, VoteType,
};
use nebgov::salt::deploy_salt;

const GOVERNOR_HASH: [u8; 32] = [1u8; 32];
const TIMELOCK_HASH: [u8; 32] = [2u8; 32];
const TOKEN_VOTES_HASH: [u8; 32] = [3u8; 32];

fn admin() -> String {
    String::from("GADMIN")
}

fn deployer() -> String {
    String::from("GDEPLOYER")
}

fn request(voting_period: u32, quorum_numerator: u32, timelock_delay: u64, vote_type: u32) -> DeployRequest {
    DeployRequest {
        deployer: deployer(),
        token: String::from("CTOKEN"),
        voting_delay: 100,
        voting_period,
        quorum_numerator,
        proposal_threshold: 1000,
        timelock_delay,
        guardian: String::from("GGUARDIAN"),
        vote_type,
        proposal_grace_period: 120_960,
    }
}

fn initialized_factory() -> GovernorFactoryContract {
    let mut factory = GovernorFactoryContract::new();
    factory
        .initialize(admin(), GOVERNOR_HASH, TIMELOCK_HASH, TOKEN_VOTES_HASH)
        .unwrap();
    factory
}

/// The address the host would give a contract deployed under `salt`.
fn address_of(salt: &[u8; 32]) -> String {
    let mut s = String::from("C");
    for b in salt.iter() {
        s.push_str(&format!("{:02X}", b));
    }
    s
}

/// Runs a whole deployment the way the contract does: plan it, deploy the
/// three contracts at the addresses their salts give, initialise them, then
/// register them.
fn deploy(
    factory: &mut GovernorFactoryContract,
    voting_period: u32,
    quorum_numerator: u32,
    timelock_delay: u64,
    vote_type: u32,
    native_balance: Option<i128>,
    timestamp: u64,
) -> Result<GovernorDeployedEvent, FactoryFault> {
    let req = request(voting_period, quorum_numerator, timelock_delay, vote_type);
    let plan = factory.plan_deploy(&req, native_balance)?;
    let governor = address_of(&plan.governor_salt);
    let timelock = address_of(&plan.timelock_salt);
    let token_votes = address_of(&plan.token_votes_salt);
    let calls =
        GovernorFactoryContract::initialization_calls(&plan, &req, &token_votes, &timelock, &governor);
    assert_eq!(calls.len(), 3);
    Ok(factory.commit_deploy(&plan, req.deployer, governor, timelock, token_votes, timestamp))
}

fn rejected_code(r: Result<GovernorDeployedEvent, FactoryFault>) -> u32 {
    match r {
        Err(FactoryFault::Rejected(e)) => e.code(),
        _ => panic!("expected a factory error"),
    }
}

#[test]
fn test_deploy_emits_governor_deployed_event_with_all_addresses() {
    let mut factory = initialized_factory();
    let event = deploy(&mut factory, 1000, 50, 3600, 1, None, 12_345).unwrap();
    let entry = factory.get_governor(event.id).unwrap();

    assert_eq!(event.id, entry.id);
    assert_eq!(event.governor, entry.governor);
    assert_eq!(event.timelock, entry.timelock);
    assert_eq!(event.token_votes, entry.token);
    assert_eq!(event.deployer, deployer());
    assert_eq!(event.timestamp, 12_345);
}

#[test]
fn test_initialize_twice_panics() {
    let mut factory = GovernorFactoryContract::new();
    let hash = [0u8; 32];
    assert_eq!(factory.initialize(admin(), hash, hash, hash), Ok(()));
    // Second call must be refused, leaving the first configuration in place.
    assert_eq!(
        factory.initialize(String::from("GOTHER"), [9u8; 32], hash, hash),
        Err(FactoryFault::AlreadyInitialized)
    );
    assert_eq!(factory.admin, Some(admin()));
    assert_eq!(factory.governor_wasm, Some(hash));
}

#[test]
fn test_deploy_full_stack() {
    let mut factory = initialized_factory();
    assert_eq!(factory.governor_count(), 0);

    let plan = factory.plan_deploy(&request(1000, 50, 3600, 1), None).unwrap();
    assert_eq!(plan.id, 1);
    assert_eq!(plan.governor_wasm, GOVERNOR_HASH);
    assert_eq!(plan.timelock_wasm, TIMELOCK_HASH);
    assert_eq!(plan.token_votes_wasm, TOKEN_VOTES_HASH);
    assert_eq!(plan.vote_type, VoteType::Extended);
    assert_eq!(plan.execution_window, 1_209_600);

    let event = deploy(&mut factory, 1000, 50, 3600, 1, None, 0).unwrap();
    let id = event.id;
    assert_eq!(id, 1);
    assert_eq!(factory.governor_count(), 1);

    let entry = factory.get_governor(id).unwrap();
    assert_eq!(entry.id, 1);
    assert_eq!(entry.deployer, deployer());

    // All three addresses must be distinct.
    assert_ne!(entry.governor, entry.timelock);
    assert_ne!(entry.governor, entry.token);
    assert_ne!(entry.timelock, entry.token);
}

#[test]
fn test_estimate_deploy_cost_returns_three_contract_reserve() {
    assert_eq!(GovernorFactoryContract::estimate_deploy_cost(), 15_000_000i128);
}

#[test]
fn test_deploy_rejects_insufficient_native_balance_before_deploy() {
    let mut factory = initialized_factory();
    factory
        .set_native_token(&admin(), String::from("CNATIVE"))
        .unwrap();
    let r = deploy(&mut factory, 1000, 50, 3600, 1, Some(0), 0);
    assert_eq!(rejected_code(r), 5);
    assert_eq!(factory.governor_count(), 0);
}

#[test]
fn test_deploy_allows_sufficient_native_balance() {
    let mut factory = initialized_factory();
    factory
        .set_native_token(&admin(), String::from("CNATIVE"))
        .unwrap();
    let cost = GovernorFactoryContract::estimate_deploy_cost();
    let event = deploy(&mut factory, 1000, 50, 3600, 1, Some(cost), 0).unwrap();
    assert_eq!(event.id, 1);
}

#[test]
fn test_second_deploy_has_different_addresses() {
    let mut factory = initialized_factory();
    let e1 = deploy(&mut factory, 1000, 50, 86400, 1, None, 0).unwrap();
    let e2 = deploy(&mut factory, 2000, 40, 43200, 1, None, 0).unwrap();

    assert_eq!(e1.id, 1);
    assert_eq!(e2.id, 2);
    assert_eq!(factory.governor_count(), 2);

    let g1 = factory.get_governor(e1.id).unwrap();
    let g2 = factory.get_governor(e2.id).unwrap();
    assert_eq!(g1.id, 1);
    assert_eq!(g2.id, 2);
    assert_ne!(g1.governor, g2.governor);
    assert_ne!(g1.timelock, g2.timelock);
    assert_ne!(g1.token, g2.token);
}

#[test]
fn test_deploy_rejects_zero_voting_period() {
    let mut factory = initialized_factory();
    let r = deploy(&mut factory, 0, 50, 3600, 1, None, 0);
    assert_eq!(rejected_code(r), 1);
}

#[test]
fn test_deploy_accepts_zero_quorum_numerator() {
    let mut factory = initialized_factory();
    let event = deploy(&mut factory, 1000, 0, 3600, 1, None, 0).unwrap();
    assert_eq!(event.id, 1, "deploy with quorum_numerator=0 must succeed");
    assert_eq!(factory.governor_count(), 1);
}

#[test]
fn test_deploy_rejects_quorum_numerator_above_100() {
    let mut factory = initialized_factory();
    let r = deploy(&mut factory, 1000, 101, 3600, 1, None, 0);
    assert_eq!(rejected_code(r), 2);
}

#[test]
fn test_deploy_rejects_zero_timelock_delay() {
    let mut factory = initialized_factory();
    let r = deploy(&mut factory, 1000, 50, 0, 1, None, 0);
    assert_eq!(rejected_code(r), 3);
}

#[test]
fn test_deploy_rejects_invalid_vote_type() {
    let mut factory = initialized_factory();
    let r = deploy(&mut factory, 1000, 50, 3600, 99, None, 0);
    assert_eq!(rejected_code(r), 4);
}

#[test]
fn settings_are_checked_in_order() {
    // Every setting is wrong: the voting period is reported first.
    assert_eq!(
        GovernorFactoryContract::validate_deploy_settings(0, 101, 0, 7),
        Err(FactoryError::InvalidVotingPeriod)
    );
    assert_eq!(
        GovernorFactoryContract::validate_deploy_settings(1, 101, 0, 7),
        Err(FactoryError::InvalidQuorumNumerator)
    );
    assert_eq!(
        GovernorFactoryContract::validate_deploy_settings(1, 100, 0, 7),
        Err(FactoryError::InvalidTimelockDelay)
    );
    assert_eq!(
        GovernorFactoryContract::validate_deploy_settings(1, 100, 1, 3),
        Err(FactoryError::InvalidVoteType)
    );
    assert_eq!(GovernorFactoryContract::validate_deploy_settings(1, 100, 1, 2), Ok(()));
    // Invalid settings are reported before a low balance.
    let mut factory = initialized_factory();
    factory.set_native_token(&admin(), String::from("CNATIVE")).unwrap();
    assert_eq!(
        factory.plan_deploy(&request(0, 50, 3600, 1), Some(0)).err(),
        Some(FactoryFault::Rejected(FactoryError::InvalidVotingPeriod))
    );
}

#[test]
fn balance_check_boundaries() {
    assert_eq!(GovernorFactoryContract::require_sufficient_deploy_balance(None), Ok(()));
    assert_eq!(
        GovernorFactoryContract::require_sufficient_deploy_balance(Some(14_999_999)),
        Err(FactoryError::InsufficientBalance)
    );
    assert_eq!(
        GovernorFactoryContract::require_sufficient_deploy_balance(Some(15_000_000)),
        Ok(())
    );
    assert_eq!(
        GovernorFactoryContract::require_sufficient_deploy_balance(Some(-1)),
        Err(FactoryError::InsufficientBalance)
    );
}

#[test]
fn factory_error_codes() {
    assert_eq!(FactoryError::InvalidVotingPeriod.code(), 1);
    assert_eq!(FactoryError::InvalidQuorumNumerator.code(), 2);
    assert_eq!(FactoryError::InvalidTimelockDelay.code(), 3);
    assert_eq!(FactoryError::InvalidVoteType.code(), 4);
    assert_eq!(FactoryError::InsufficientBalance.code(), 5);
    assert_eq!(FactoryError::WasmNotFound.code(), 6);
}

#[test]
fn vote_type_codes() {
    assert_eq!(VoteType::from_code(0), VoteType::Simple);
    assert_eq!(VoteType::from_code(1), VoteType::Extended);
    assert_eq!(VoteType::from_code(2), VoteType::Quadratic);
    assert_eq!(VoteType::from_code(7), VoteType::Extended);
    let factory = initialized_factory();
    assert_eq!(factory.plan_deploy(&request(1000, 50, 3600, 2), None).unwrap().vote_type, VoteType::Quadratic);
    assert_eq!(factory.plan_deploy(&request(1000, 50, 3600, 0), None).unwrap().vote_type, VoteType::Simple);
}

#[test]
fn deploy_before_initialize_lacks_wasm() {
    let mut factory = GovernorFactoryContract::new();
    assert_eq!(
        deploy(&mut factory, 1000, 50, 3600, 1, None, 0).err(),
        Some(FactoryFault::GovernorWasmNotSet)
    );
    assert_eq!(factory.governor_count(), 0);
}

#[test]
fn native_token_needs_the_admin() {
    let mut factory = GovernorFactoryContract::new();
    assert_eq!(
        factory.set_native_token(&admin(), String::from("CNATIVE")),
        Err(FactoryFault::NotInitialized)
    );
    let mut factory = initialized_factory();
    assert_eq!(factory.native_token(), None);
    assert_eq!(
        factory.set_native_token(&String::from("GMALLORY"), String::from("CNATIVE")),
        Err(FactoryFault::NotAdmin)
    );
    assert_eq!(factory.native_token(), None);
    assert_eq!(factory.set_native_token(&admin(), String::from("CNATIVE")), Ok(()));
    assert_eq!(factory.native_token(), Some(String::from("CNATIVE")));
}

#[test]
fn unknown_governor_is_not_found() {
    let mut factory = initialized_factory();
    assert_eq!(factory.get_governor(0).err(), Some(FactoryFault::GovernorNotFound));
    assert_eq!(factory.get_governor(1).err(), Some(FactoryFault::GovernorNotFound));
    deploy(&mut factory, 1000, 50, 3600, 1, None, 0).unwrap();
    assert!(factory.get_governor(1).is_ok());
    assert_eq!(factory.get_governor(2).err(), Some(FactoryFault::GovernorNotFound));
}

#[test]
fn pages_of_governors() {
    let mut factory = initialized_factory();
    assert!(factory.get_all_governors(0, 10).is_empty());
    for _ in 0..5 {
        deploy(&mut factory, 1000, 50, 3600, 1, None, 0).unwrap();
    }
    let ids = |v: Vec<nebgov::factory::GovernorEntry>| v.iter().map(|e| e.id).collect::<Vec<u64>>();
    assert_eq!(ids(factory.get_all_governors(0, 10)), vec![1, 2, 3, 4, 5]);
    assert_eq!(ids(factory.get_all_governors(1, 2)), vec![2, 3]);
    assert_eq!(ids(factory.get_all_governors(3, 100)), vec![4, 5]);
    assert_eq!(ids(factory.get_all_governors(5, 1)), Vec::<u64>::new());
    assert_eq!(ids(factory.get_all_governors(9, 1)), Vec::<u64>::new());
    assert_eq!(ids(factory.get_all_governors(2, 0)), Vec::<u64>::new());
    // Consecutive pages concatenate to the longer page.
    let mut joined = ids(factory.get_all_governors(0, 2));
    joined.extend(ids(factory.get_all_governors(2, 3)));
    assert_eq!(joined, ids(factory.get_all_governors(0, 5)));
}

#[test]
fn deploy_salts_encode_id_and_suffix() {
    let salt = deploy_salt(0x0102_0304_0506_0708, 3);
    assert_eq!(&salt[0..8], &[1, 2, 3, 4, 5, 6, 7, 8]);
    assert!(salt[8..31].iter().all(|b| *b == 0));
    assert_eq!(salt[31], 3);
    assert_ne!(deploy_salt(1, 1), deploy_salt(1, 2));
    assert_ne!(deploy_salt(1, 1), deploy_salt(2, 1));
    assert_eq!(deploy_salt(256, 1)[6], 1);
    let factory = initialized_factory();
    let plan = factory.plan_deploy(&request(1000, 50, 3600, 1), None).unwrap();
    assert_eq!(plan.token_votes_salt, deploy_salt(1, 1));
    assert_eq!(plan.timelock_salt, deploy_salt(1, 2));
    assert_eq!(plan.governor_salt, deploy_salt(1, 3));
}

#[test]
fn loaded_storage_consistency() {
    let mut factory = initialized_factory();
    assert!(factory.is_consistent());
    deploy(&mut factory, 1000, 50, 3600, 1, None, 0).unwrap();
    deploy(&mut factory, 1000, 50, 3600, 1, None, 0).unwrap();
    assert!(factory.is_consistent());
    factory.governor_list[1] = 7;
    assert!(!factory.is_consistent());
    factory.governor_list[1] = 2;
    factory.governor_count = 3;
    assert!(!factory.is_consistent());
    factory.governor_count = 2;
    assert!(factory.is_consistent());
    // The admin and the code hashes are set together or not at all.
    factory.timelock_wasm = None;
    assert!(!factory.is_consistent());
}

#[test]
fn initialization_wires_the_stack() {
    let factory = initialized_factory();
    let req = request(1000, 50, 3600, 1);
    let plan = factory.plan_deploy(&req, None).unwrap();
    let tv = String::from("CTOKENVOTES");
    let tl = String::from("CTIMELOCK");
    let gov = String::from("CGOVERNOR");
    let calls = GovernorFactoryContract::initialization_calls(&plan, &req, &tv, &tl, &gov);
    assert_eq!(calls.len(), 3);
    match &calls[0] {
        InitCall::TokenVotes { contract, admin, token } => {
            assert_eq!(contract, &tv);
            assert_eq!(admin, &deployer());
            assert_eq!(token, "CTOKEN");
        }
        _ => panic!("token-votes is initialised first"),
    }
    match &calls[1] {
        InitCall::Timelock { contract, admin, governor, min_delay, execution_window } => {
            assert_eq!(contract, &tl);
            assert_eq!(admin, &deployer());
            assert_eq!(governor, &gov);
            assert_eq!(*min_delay, 3600);
            assert_eq!(*execution_window, 1_209_600);
        }
        _ => panic!("the timelock is initialised second"),
    }
    match &calls[2] {
        InitCall::Governor {
            contract,
            admin,
            votes_token,
            timelock,
            voting_delay,
            voting_period,
            quorum_numerator,
            proposal_threshold,
            guardian,
            vote_type,
            proposal_grace_period,
        } => {
            assert_eq!(contract, &gov);
            assert_eq!(admin, &deployer());
            assert_eq!(votes_token, &tv);
            assert_eq!(timelock, &tl);
            assert_eq!(*voting_delay, 100);
            assert_eq!(*voting_period, 1000);
            assert_eq!(*quorum_numerator, 50);
            assert_eq!(*proposal_threshold, 1000);
            assert_eq!(guardian, "GGUARDIAN");
            assert_eq!(*vote_type, VoteType::Extended);
            assert_eq!(*proposal_grace_period, 120_960);
        }
        _ => panic!("the governor is initialised last"),
    }
}
