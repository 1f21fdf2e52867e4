use bounty_market::address::{agent_address, Pubkey};
use bounty_market::agent_registry::{
    add_earnings, register_agent, register_agent_at, update_agent, update_reputation, Agent,
    AgentStatus, RegisterAgent, UpdateAgent, UpdateReputation,
};
use bounty_market::error::{AgentError, ErrorKind};
use bounty_market::limits::{check_rating, check_uri, MAX_RATING, MAX_URI_LEN};

fn key(b: u8) -> Pubkey {
    Pubkey { bytes: [b; 32] }
}

fn program() -> Pubkey {
    key(7)
}

/// What a registration by `owner` finds where the owner's record belongs.
fn registration(owner: Pubkey) -> RegisterAgent {
    let (agent_key, _) = agent_address(&owner, &program()).unwrap();
    RegisterAgent { agent: None, agent_key, owner, program_id: program() }
}

fn agent_of(owner: Pubkey) -> Agent {
    let mut ctx = registration(owner);
    register_agent(&mut ctx, "ipfs://profile".to_string(), 2_500, 1_700_000_000).unwrap();
    ctx.agent.unwrap()
}

fn settlement(agent: Agent) -> UpdateReputation {
    UpdateReputation { agent, authority: key(9), settlement_authority: key(9) }
}

#[test]
fn register_writes_a_fresh_record() {
    let mut ctx = registration(key(1));
    let r = register_agent(&mut ctx, "ipfs://profile".to_string(), 2_500, 1_700_000_000);
    assert_eq!(r, Ok(()));
    let agent = ctx.agent.expect("record");
    assert_eq!(agent.bump, 255);
    assert_eq!(agent.owner, key(1));
    assert_eq!(agent.metadata_uri, "ipfs://profile");
    assert_eq!(agent.hourly_rate, 2_500);
    assert_eq!(agent.reputation, 0);
    assert_eq!(agent.bounties_completed, 0);
    assert_eq!(agent.total_earned, 0);
    assert_eq!(agent.availability, AgentStatus::Available);
    assert_eq!(agent.created_at, 1_700_000_000);
}

#[test]
fn register_twice_is_refused() {
    let mut ctx = registration(key(1));
    register_agent(&mut ctx, "ipfs://first".to_string(), 10, 5).unwrap();
    let before = ctx.clone();
    let r = register_agent(&mut ctx, "ipfs://second".to_string(), 20, 6);
    assert_eq!(r, Err(AgentError::AlreadyExists));
    assert_eq!(r.unwrap_err().kind(), ErrorKind::AlreadyExists);
    assert_eq!(ctx, before);
}

#[test]
fn register_checks_the_reference_length_in_bytes() {
    let mut ctx = registration(key(1));
    let r = register_agent(&mut ctx, "a".repeat(MAX_URI_LEN + 1), 10, 5);
    assert_eq!(r, Err(AgentError::UriTooLong));
    assert_eq!(r.unwrap_err().kind(), ErrorKind::InvalidInput);
    assert_eq!(ctx.agent, None);

    let r = register_agent(&mut ctx, "a".repeat(MAX_URI_LEN), 10, 5);
    assert_eq!(r, Ok(()));

    // 67 characters of three bytes each are 201 bytes.
    let mut ctx = registration(key(2));
    let r = register_agent(&mut ctx, "\u{20ac}".repeat(67), 10, 5);
    assert_eq!(r, Err(AgentError::UriTooLong));
    let r = register_agent(&mut ctx, "\u{20ac}".repeat(66), 10, 5);
    assert_eq!(r, Ok(()));
}

#[test]
fn register_refuses_a_rate_of_zero() {
    let mut ctx = registration(key(1));
    let r = register_agent(&mut ctx, "ipfs://profile".to_string(), 0, 5);
    assert_eq!(r, Err(AgentError::InvalidHourlyRate));
    assert_eq!(r.unwrap_err().kind(), ErrorKind::InvalidInput);
    assert_eq!(ctx.agent, None);
}

#[test]
fn register_reports_a_taken_place_before_bad_input() {
    let mut ctx = registration(key(1));
    ctx.agent = Some(agent_of(key(1)));
    let r = register_agent(&mut ctx, "a".repeat(300), 0, 5);
    assert_eq!(r, Err(AgentError::AlreadyExists));
}

#[test]
fn register_writes_only_at_the_owners_address() {
    // The address of another owner's record.
    let mut ctx = registration(key(1));
    ctx.agent_key = agent_address(&key(2), &program()).unwrap().0;
    let before = ctx.clone();
    let r = register_agent(&mut ctx, "ipfs://profile".to_string(), 10, 5);
    assert_eq!(r, Err(AgentError::AddressMismatch));
    assert_eq!(r.unwrap_err().kind(), ErrorKind::InvalidInput);
    assert_eq!(ctx, before);

    // The owner's address under another program.
    let mut ctx = registration(key(1));
    ctx.program_id = key(8);
    assert_eq!(
        register_agent(&mut ctx, "ipfs://profile".to_string(), 10, 5),
        Err(AgentError::AddressMismatch)
    );

    // A wrong address is reported before anything else.
    let mut ctx = registration(key(1));
    ctx.agent = Some(agent_of(key(1)));
    ctx.agent_key = key(1);
    assert_eq!(register_agent(&mut ctx, "a".repeat(300), 0, 5), Err(AgentError::AddressMismatch));
}

#[test]
fn register_at_goes_by_the_address_it_is_given() {
    let mut ctx = RegisterAgent { agent: None, agent_key: key(50), owner: key(1), program_id: program() };
    let before = ctx.clone();
    let r = register_agent_at(&mut ctx, None, "ipfs://profile".to_string(), 10, 5);
    assert_eq!(r, Err(AgentError::AddressMismatch));
    let r = register_agent_at(&mut ctx, Some((key(51), 9)), "ipfs://profile".to_string(), 10, 5);
    assert_eq!(r, Err(AgentError::AddressMismatch));
    assert_eq!(ctx, before);
    let r = register_agent_at(&mut ctx, Some((key(50), 9)), "ipfs://profile".to_string(), 10, 5);
    assert_eq!(r, Ok(()));
    let agent = ctx.agent.unwrap();
    assert_eq!(agent.bump, 9);
    assert_eq!(agent.owner, key(1));
}

#[test]
fn update_replaces_only_what_is_given() {
    let mut ctx = UpdateAgent { agent: agent_of(key(1)), owner: key(1) };
    assert_eq!(update_agent(&mut ctx, None, Some(9_000), None), Ok(()));
    assert_eq!(ctx.agent.hourly_rate, 9_000);
    assert_eq!(ctx.agent.metadata_uri, "ipfs://profile");
    assert_eq!(ctx.agent.availability, AgentStatus::Available);

    assert_eq!(update_agent(&mut ctx, Some("ipfs://new".to_string()), None, Some(2)), Ok(()));
    assert_eq!(ctx.agent.hourly_rate, 9_000);
    assert_eq!(ctx.agent.metadata_uri, "ipfs://new");
    assert_eq!(ctx.agent.availability, AgentStatus::Offline);

    assert_eq!(update_agent(&mut ctx, None, None, Some(1)), Ok(()));
    assert_eq!(ctx.agent.availability, AgentStatus::Busy);

    let before = ctx.clone();
    assert_eq!(update_agent(&mut ctx, None, None, None), Ok(()));
    assert_eq!(ctx, before);
}

#[test]
fn update_is_for_the_owner_only() {
    let mut ctx = UpdateAgent { agent: agent_of(key(1)), owner: key(2) };
    let before = ctx.clone();
    let r = update_agent(&mut ctx, None, Some(9_000), None);
    assert_eq!(r, Err(AgentError::Unauthorized));
    assert_eq!(r.unwrap_err().kind(), ErrorKind::Unauthorized);
    assert_eq!(ctx, before);
}

#[test]
fn update_with_one_bad_field_changes_nothing() {
    let mut ctx = UpdateAgent { agent: agent_of(key(1)), owner: key(1) };
    let before = ctx.clone();

    let r = update_agent(&mut ctx, Some("ipfs://new".to_string()), Some(7), Some(3));
    assert_eq!(r, Err(AgentError::InvalidAvailability));
    assert_eq!(r.unwrap_err().kind(), ErrorKind::InvalidInput);
    assert_eq!(ctx, before);

    let r = update_agent(&mut ctx, Some("ipfs://new".to_string()), Some(0), Some(1));
    assert_eq!(r, Err(AgentError::InvalidHourlyRate));
    assert_eq!(ctx, before);

    let r = update_agent(&mut ctx, Some("b".repeat(201)), Some(5), Some(1));
    assert_eq!(r, Err(AgentError::UriTooLong));
    assert_eq!(ctx, before);
}

#[test]
fn first_rating_becomes_the_reputation() {
    let mut ctx = settlement(agent_of(key(1)));
    assert_eq!(update_reputation(&mut ctx, 450), Ok(()));
    assert_eq!(ctx.agent.reputation, 450);
    assert_eq!(ctx.agent.bounties_completed, 1);
}

#[test]
fn later_ratings_move_the_rolling_average_rounded_down() {
    let mut ctx = settlement(agent_of(key(1)));
    update_reputation(&mut ctx, 450).unwrap();
    update_reputation(&mut ctx, 300).unwrap();
    // (450 * 1 + 300) / 2
    assert_eq!(ctx.agent.reputation, 375);
    update_reputation(&mut ctx, 500).unwrap();
    // (375 * 2 + 500) / 3 = 1250 / 3
    assert_eq!(ctx.agent.reputation, 416);
    update_reputation(&mut ctx, 1).unwrap();
    // (416 * 3 + 1) / 4 = 1249 / 4
    assert_eq!(ctx.agent.reputation, 312);
    assert_eq!(ctx.agent.bounties_completed, 4);
    assert_eq!(ctx.agent.total_earned, 0);
    assert_eq!(ctx.agent.hourly_rate, 2_500);
}

#[test]
fn rounding_down_is_kept_from_step_to_step() {
    let mut ctx = settlement(agent_of(key(1)));
    for rating in [499u64, 500, 500] {
        update_reputation(&mut ctx, rating).unwrap();
    }
    // 499, then 999 / 2 = 499, then (499 * 2 + 500) / 3 = 499; the exact
    // average of the three is above 499.6.
    assert_eq!(ctx.agent.reputation, 499);
    assert_eq!(ctx.agent.bounties_completed, 3);
}

#[test]
fn reputation_follows_the_formula_over_many_settlements() {
    let ratings: Vec<u64> = (0..200u64).map(|i| 1 + (i * 37) % 500).collect();
    let mut ctx = settlement(agent_of(key(1)));
    let mut expected: u64 = 0;
    for (n, rating) in ratings.iter().enumerate() {
        update_reputation(&mut ctx, *rating).unwrap();
        let n = n as u64;
        expected = if n == 0 { *rating } else { (expected * n + *rating) / (n + 1) };
        assert_eq!(ctx.agent.reputation, expected);
        assert_eq!(ctx.agent.bounties_completed, n + 1);
        assert!(ctx.agent.reputation >= 1 && ctx.agent.reputation <= MAX_RATING);
    }
}

#[test]
fn ratings_outside_the_range_are_refused() {
    let mut ctx = settlement(agent_of(key(1)));
    update_reputation(&mut ctx, 400).unwrap();
    let before = ctx.clone();
    for rating in [0u64, 501, u64::MAX] {
        let r = update_reputation(&mut ctx, rating);
        assert_eq!(r, Err(AgentError::InvalidRating));
        assert_eq!(r.unwrap_err().kind(), ErrorKind::InvalidInput);
        assert_eq!(ctx, before);
    }
    assert_eq!(update_reputation(&mut ctx, 1), Ok(()));
    assert_eq!(update_reputation(&mut ctx, 500), Ok(()));
    assert_eq!(ctx.agent.bounties_completed, 3);
}

#[test]
fn settlement_is_for_the_settlement_authority_only() {
    let mut ctx =
        UpdateReputation { agent: agent_of(key(1)), authority: key(1), settlement_authority: key(9) };
    let before = ctx.clone();
    let r = update_reputation(&mut ctx, 450);
    assert_eq!(r, Err(AgentError::Unauthorized));
    assert_eq!(r.unwrap_err().kind(), ErrorKind::Unauthorized);
    assert_eq!(ctx, before);
    let r = add_earnings(&mut ctx, 10);
    assert_eq!(r, Err(AgentError::Unauthorized));
    assert_eq!(ctx, before);
    // An unauthorized caller learns nothing about the rating.
    assert_eq!(update_reputation(&mut ctx, 0), Err(AgentError::Unauthorized));
}

#[test]
fn settlement_stops_at_the_largest_count() {
    let mut agent = agent_of(key(1));
    agent.reputation = 500;
    agent.bounties_completed = u64::MAX - 1;
    let mut ctx = settlement(agent);
    assert_eq!(update_reputation(&mut ctx, 1), Ok(()));
    // (500 * (2^64 - 2) + 1) / (2^64 - 1) = 499
    assert_eq!(ctx.agent.reputation, 499);
    assert_eq!(ctx.agent.bounties_completed, u64::MAX);
    let before = ctx.clone();
    let r = update_reputation(&mut ctx, 500);
    assert_eq!(r, Err(AgentError::Overflow));
    assert_eq!(r.unwrap_err().kind(), ErrorKind::Overflow);
    assert_eq!(ctx, before);
}

#[test]
fn earnings_add_up_and_never_wrap() {
    let mut ctx = settlement(agent_of(key(1)));
    assert_eq!(add_earnings(&mut ctx, 1_000_000), Ok(()));
    assert_eq!(add_earnings(&mut ctx, 0), Ok(()));
    assert_eq!(add_earnings(&mut ctx, 250), Ok(()));
    assert_eq!(ctx.agent.total_earned, 1_000_250);
    assert_eq!(ctx.agent.reputation, 0);
    assert_eq!(ctx.agent.bounties_completed, 0);

    assert_eq!(add_earnings(&mut ctx, u64::MAX - 1_000_250), Ok(()));
    assert_eq!(ctx.agent.total_earned, u64::MAX);
    let before = ctx.clone();
    let r = add_earnings(&mut ctx, 1);
    assert_eq!(r, Err(AgentError::Overflow));
    assert_eq!(r.unwrap_err().kind(), ErrorKind::Overflow);
    assert_eq!(ctx, before);
}

#[test]
fn availability_codes_go_both_ways() {
    assert_eq!(AgentStatus::Available.code(), 0);
    assert_eq!(AgentStatus::Busy.code(), 1);
    assert_eq!(AgentStatus::Offline.code(), 2);
    for code in 0u8..=2 {
        assert_eq!(AgentStatus::from_code(code).unwrap().code(), code);
    }
    assert_eq!(AgentStatus::from_code(0), Some(AgentStatus::Available));
    assert_eq!(AgentStatus::from_code(3), None);
    assert_eq!(AgentStatus::from_code(255), None);
}

#[test]
fn agent_errors_have_their_kinds() {
    assert_eq!(AgentError::UriTooLong.kind(), ErrorKind::InvalidInput);
    assert_eq!(AgentError::InvalidHourlyRate.kind(), ErrorKind::InvalidInput);
    assert_eq!(AgentError::InvalidAvailability.kind(), ErrorKind::InvalidInput);
    assert_eq!(AgentError::InvalidRating.kind(), ErrorKind::InvalidInput);
    assert_eq!(AgentError::AlreadyExists.kind(), ErrorKind::AlreadyExists);
    assert_eq!(AgentError::Unauthorized.kind(), ErrorKind::Unauthorized);
    assert_eq!(AgentError::Overflow.kind(), ErrorKind::Overflow);
    assert_eq!(AgentError::AddressMismatch.kind(), ErrorKind::InvalidInput);
}

#[test]
fn limits_are_checked_at_their_edges() {
    assert!(check_uri(&String::new()));
    assert!(check_uri(&"x".repeat(200)));
    assert!(!check_uri(&"x".repeat(201)));
    assert!(!check_rating(0));
    assert!(check_rating(1));
    assert!(check_rating(500));
    assert!(!check_rating(501));
    assert_eq!(MAX_URI_LEN, 200);
    assert_eq!(MAX_RATING, 500);
}
