use sol_parser_sdk::shredstream::pfees_ix::{ix_pubkeys_with_cap, update_fee_shares_accounts, UPDATE_FEE_SHARES_IX};
use sol_parser_sdk::shredstream::reconnect::{
    after_stream, initial_state, next_action, ReconnectAction, ReconnectPolicy, StreamOutcome,
};
use sol_parser_sdk::types::Pubkey;

#[test]
fn backoff_doubles_and_caps_at_a_minute() {
    let policy = ReconnectPolicy { reconnect_delay_ms: 1_000, max_reconnect_attempts: 0 };
    let mut state = initial_state(policy);
    let mut sleeps = Vec::new();
    for _ in 0..8 {
        let (action, s) = next_action(policy, state);
        assert_eq!(action, ReconnectAction::Connect);
        let (s, sleep) = after_stream(policy, s, StreamOutcome::Failed);
        sleeps.push(sleep);
        state = s;
    }
    assert_eq!(sleeps, vec![1_000, 2_000, 4_000, 8_000, 16_000, 32_000, 60_000, 60_000]);
    let (s, sleep) = after_stream(policy, state, StreamOutcome::Ended);
    assert_eq!(sleep, 0);
    assert_eq!(s, initial_state(policy));
}

#[test]
fn gives_up_after_max_attempts() {
    let policy = ReconnectPolicy { reconnect_delay_ms: 10, max_reconnect_attempts: 3 };
    let mut state = initial_state(policy);
    let mut connects = 0;
    loop {
        let (action, s) = next_action(policy, state);
        if action == ReconnectAction::GiveUp {
            break;
        }
        connects += 1;
        state = after_stream(policy, s, StreamOutcome::Failed).0;
    }
    assert_eq!(connects, 3);
    assert_eq!(state.attempts, 3);
}

#[test]
fn huge_delay_does_not_overflow() {
    let policy = ReconnectPolicy { reconnect_delay_ms: u64::MAX, max_reconnect_attempts: 0 };
    let (s, sleep) = after_stream(policy, initial_state(policy), StreamOutcome::Failed);
    assert_eq!(sleep, u64::MAX);
    assert_eq!(s.delay_ms, 60_000);
}

#[test]
fn resolves_account_indices() {
    let keys: Vec<Pubkey> = (0..5u8).map(|i| Pubkey::new_from_array([i; 32])).collect();
    let mut out = [Pubkey::default(); 32];
    assert_eq!(ix_pubkeys_with_cap(&[4, 0, 4], &keys, &mut out), Some(3));
    assert_eq!(out[0], keys[4]);
    assert_eq!(out[1], keys[0]);
    assert_eq!(out[2], keys[4]);
    assert_eq!(out[3], Pubkey::default());

    let mut out = [Pubkey::default(); 32];
    assert_eq!(ix_pubkeys_with_cap(&[1, 5], &keys, &mut out), None);
    assert_eq!(out[0], keys[1]);
    assert_eq!(out[1], Pubkey::default());

    let mut out = [Pubkey::default(); 32];
    assert_eq!(ix_pubkeys_with_cap(&[0u8; 32], &keys, &mut out), Some(32));
    assert_eq!(ix_pubkeys_with_cap(&[0u8; 33], &keys, &mut out), None);
    assert_eq!(ix_pubkeys_with_cap(&[], &keys, &mut out), Some(0));
}

#[test]
fn update_fee_shares_guard() {
    let program = Pubkey::new_from_array([77; 32]);
    let keys: Vec<Pubkey> = vec![
        Pubkey::new_from_array([1; 32]),
        program,
        Pubkey::new_from_array([3; 32]),
    ];
    let mut data = UPDATE_FEE_SHARES_IX.to_vec();
    data.extend_from_slice(&[0, 1, 2]);

    let mut out = [Pubkey::default(); 32];
    assert_eq!(update_fee_shares_accounts(1, &program, &data, &[2, 0], &keys, &mut out), Some(2));
    assert_eq!(out[0], keys[2]);
    assert_eq!(out[1], keys[0]);

    // Another program, a program index past the keys, another instruction,
    // short data: nothing is resolved and the buffer stays as it was.
    let mut out = [Pubkey::default(); 32];
    assert_eq!(update_fee_shares_accounts(0, &program, &data, &[2], &keys, &mut out), None);
    assert_eq!(update_fee_shares_accounts(3, &program, &data, &[2], &keys, &mut out), None);
    let mut other = data.clone();
    other[0] ^= 1;
    assert_eq!(update_fee_shares_accounts(1, &program, &other, &[2], &keys, &mut out), None);
    assert_eq!(update_fee_shares_accounts(1, &program, &data[..7], &[2], &keys, &mut out), None);
    assert_eq!(out[0], Pubkey::default());

    // The right call with an index that names no key.
    assert_eq!(update_fee_shares_accounts(1, &program, &data, &[0, 9], &keys, &mut out), None);
    assert_eq!(out[0], keys[0]);
    assert_eq!(out[1], Pubkey::default());
}
