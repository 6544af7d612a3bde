use ismp::consensus::{IntermediateState, StateCommitment};
use ismp::host::{ClientConfig, Host};
use ismp::state_machine::StateMachine;
use ismp::testsuite::{
    check_challenge_period, check_client_expiry, frozen_check, write_outgoing_commitments,
    MockClient,
};

const HOUR: u64 = 60 * 60;

fn host_with_client(now: u64, config: ClientConfig) -> Host {
    let mut host = Host::new(StateMachine::Polkadot(1000), now);
    host.register_client([1u8; 4], config);
    host
}

fn genesis() -> IntermediateState {
    IntermediateState {
        height: 1,
        commitment: StateCommitment { timestamp: 0, ismp_root: None, state_root: [0u8; 32] },
    }
}

#[test]
fn check_for_duplicate_requests_and_responses() {
    let mut host = Host::new(StateMachine::Polkadot(1000), 1_000_000);
    write_outgoing_commitments(&mut host).unwrap();
}

#[test]
fn duplicate_check_fails_on_the_destination_itself() {
    let mut host = Host::new(StateMachine::Kusama(2000), 1_000_000);
    assert!(write_outgoing_commitments(&mut host).is_err());
}

#[test]
fn should_reject_updates_within_challenge_period() {
    let config = ClientConfig { challenge_period: HOUR, unbonding_period: 7 * 24 * HOUR };
    let mut host = host_with_client(1_000_000, config);
    check_challenge_period(
        &mut host,
        &MockClient,
        [1u8; 4],
        [1u8; 4],
        vec![],
        StateMachine::Ethereum,
        genesis(),
        vec![],
    )
    .unwrap()
}

#[test]
fn challenge_check_needs_a_registered_client() {
    let mut host = Host::new(StateMachine::Polkadot(1000), 1_000_000);
    let res = check_challenge_period(
        &mut host,
        &MockClient,
        [1u8; 4],
        [1u8; 4],
        vec![],
        StateMachine::Ethereum,
        genesis(),
        vec![],
    );
    assert!(res.is_err());
}

#[test]
fn should_reject_messages_for_frozen_state_machines() {
    let config = ClientConfig { challenge_period: HOUR, unbonding_period: 7 * 24 * HOUR };
    let mut host = host_with_client(1_000_000, config);
    frozen_check(&mut host, &MockClient, [1u8; 4], [1u8; 4], vec![], StateMachine::Ethereum, genesis())
        .unwrap()
}

#[test]
fn should_reject_expired_check_clients() {
    let config = ClientConfig { challenge_period: HOUR, unbonding_period: HOUR };
    let mut host = host_with_client(1_000_000, config);
    check_client_expiry(&mut host, &MockClient, [1u8; 4], [1u8; 4], vec![], vec![]).unwrap()
}

#[test]
fn expiry_check_fails_when_the_challenge_period_is_longer() {
    let config = ClientConfig { challenge_period: 2 * HOUR, unbonding_period: HOUR };
    let mut host = host_with_client(1_000_000, config);
    assert!(check_client_expiry(&mut host, &MockClient, [1u8; 4], [1u8; 4], vec![], vec![]).is_err());
}
