use ruglette::{
    apply_randomness, commit_randomness, initialize_game, initialize_round, place_bet, place_bet_within_range,
    settle_bets, settle_bets_within_range, verify_randomness, wheel_spin, Bet, BetState, BetType,
    ErrorCodes, GameState, GameStatus, Pubkey, RandomnessReading, RoundState, RugletteError,
};

const DISCRIMINATOR: [u8; 8] = [10, 66, 229, 135, 220, 239, 217, 114];

fn key(b: u8) -> Pubkey {
    Pubkey::new_from_array([b; 32])
}

fn code(e: ErrorCodes) -> RugletteError {
    RugletteError::Code(e)
}

fn game(min_bet: u64, max_bet: u64, fee: u16, paused: bool) -> GameState {
    initialize_game(key(9), min_bet, max_bet, fee, paused, 254, 253)
}

fn bet(bet_type: BetType, amount: u64, targets: &[u8]) -> Bet {
    Bet { bet_type, amount, targets: targets.to_vec() }
}

fn fresh_round() -> RoundState {
    initialize_round(&game(1, 1000, 0, false), key(1), 1_700_000_000, 7).unwrap()
}

fn randomness_data(seed_slot: u64, reveal_slot: u64, value: [u8; 32]) -> Vec<u8> {
    let mut data = vec![0u8; 408];
    data[..8].copy_from_slice(&DISCRIMINATOR);
    data[104..112].copy_from_slice(&seed_slot.to_le_bytes());
    data[144..152].copy_from_slice(&reveal_slot.to_le_bytes());
    data[152..184].copy_from_slice(&value);
    data
}

fn round_with_result(winning: u8) -> RoundState {
    let mut round = fresh_round();
    wheel_spin(&mut round, &key(1), key(5), 100).unwrap();
    let reading = RandomnessReading { seed_slot: 100, reveal_slot: 101, value: [winning; 32] };
    apply_randomness(&mut round, &key(1), &key(5), &reading, 101).unwrap();
    round
}

fn bet_state(bets: Vec<Bet>) -> BetState {
    BetState { round: key(3), bets, timestamp: 0, bump: 0 }
}

#[test]
fn initialize_game_records_the_settings() {
    let g = initialize_game(key(2), 10, 20, 270, true, 1, 2);
    assert_eq!(g.authority, key(2));
    assert_eq!((g.min_bet, g.max_bet, g.house_fee_basis_points), (10, 20, 270));
    assert!(g.is_paused);
    assert_eq!((g.bump, g.house_vault_bump), (1, 2));
}

#[test]
fn initialize_round_opens_a_fresh_round() {
    let r = fresh_round();
    assert_eq!(r.player, key(1));
    assert_eq!(r.start_time, 1_700_000_000);
    assert_eq!(r.status, GameStatus::AcceptingBets);
    assert_eq!(r.winning_number, None);
    assert_eq!(r.payout_amount, None);
    assert_eq!(r.total_wagered, 0);
    assert_eq!(r.vrf_account, Pubkey::new_from_array([0; 32]));
    assert_eq!(r.result_buffer, [0; 32]);
    assert_eq!(r.bump, 7);
}

#[test]
fn initialize_round_refusals() {
    assert_eq!(
        initialize_round(&game(1, 10, 0, true), key(1), 5, 0),
        Err(code(ErrorCodes::GamePaused))
    );
    assert_eq!(
        initialize_round(&game(1, 10, 0, true), key(1), 0, 0),
        Err(code(ErrorCodes::GamePaused))
    );
    assert_eq!(
        initialize_round(&game(1, 10, 0, false), key(1), 0, 0),
        Err(code(ErrorCodes::InvalidSeed))
    );
    assert_eq!(
        initialize_round(&game(1, 10, 0, false), key(1), -3, 0),
        Err(code(ErrorCodes::InvalidSeed))
    );
}

#[test]
fn place_bet_adds_the_stakes() {
    let mut round = fresh_round();
    let g = game(10, 100, 0, false);
    let bets = vec![bet(BetType::Red, 10, &[]), bet(BetType::Straight, 100, &[7])];
    assert!(place_bet_within_range(&round, &g, &key(1), &bets));
    let placed = place_bet(&mut round, &g, &key(1), key(3), bets.clone(), 42, 6, 110).unwrap();
    assert_eq!(round.total_wagered, 110);
    assert_eq!(placed.transfer_amount, 110);
    assert_eq!(placed.bet_state, BetState { round: key(3), bets, timestamp: 42, bump: 6 });
    assert_eq!(round.status, GameStatus::AcceptingBets);
}

#[test]
fn place_bet_refusals_leave_the_round() {
    let g = game(10, 100, 0, false);
    let ok_bets = vec![bet(BetType::Red, 50, &[])];
    let cases: Vec<(RoundState, GameState, Pubkey, Vec<Bet>, u64, ErrorCodes)> = vec![
        (fresh_round(), g, key(2), ok_bets.clone(), 1000, ErrorCodes::InvalidPlayer),
        (
            {
                let mut r = fresh_round();
                r.status = GameStatus::WaitingForVRF;
                r
            },
            g,
            key(1),
            ok_bets.clone(),
            1000,
            ErrorCodes::RoundNotAcceptingBets,
        ),
        (fresh_round(), game(10, 100, 0, true), key(1), ok_bets.clone(), 1000, ErrorCodes::GamePaused),
        (
            fresh_round(),
            g,
            key(1),
            vec![bet(BetType::Red, 50, &[]), bet(BetType::Red, 9, &[]), bet(BetType::Red, 101, &[])],
            1000,
            ErrorCodes::BetTooSmall,
        ),
        (
            fresh_round(),
            g,
            key(1),
            vec![bet(BetType::Red, 101, &[]), bet(BetType::Red, 9, &[])],
            1000,
            ErrorCodes::BetTooLarge,
        ),
        (fresh_round(), g, key(1), ok_bets.clone(), 49, ErrorCodes::NotEnoughFundsToPlay),
    ];
    for (round, g, player, bets, lamports, expected) in cases {
        let mut r = round;
        let res = place_bet(&mut r, &g, &player, key(3), bets, 0, 0, lamports);
        assert_eq!(res.err(), Some(code(expected)));
        assert_eq!(r, round);
    }
}

#[test]
fn place_bet_holds_at_most_ten_bets() {
    let g = game(1, 100, 0, false);
    let ten: Vec<Bet> = (0..10).map(|_| bet(BetType::Red, 1, &[])).collect();
    let mut r = fresh_round();
    assert!(place_bet(&mut r, &g, &key(1), key(3), ten, 0, 0, 10).is_ok());
    assert_eq!(r.total_wagered, 10);
    let eleven: Vec<Bet> = (0..11).map(|_| bet(BetType::Red, 1, &[])).collect();
    let mut r = fresh_round();
    let res = place_bet(&mut r, &g, &key(1), key(3), eleven.clone(), 0, 0, 11);
    assert_eq!(res.err(), Some(RugletteError::AccountDidNotSerialize));
    assert_eq!(r, fresh_round());
    let res = place_bet(&mut r, &g, &key(1), key(3), eleven, 0, 0, 10);
    assert_eq!(res.err(), Some(code(ErrorCodes::NotEnoughFundsToPlay)));
    let long = vec![bet(BetType::Sixline, 1, &[1, 2, 3, 4, 5, 6, 7])];
    let res = place_bet(&mut r, &g, &key(1), key(3), long, 0, 0, 10);
    assert_eq!(res.err(), Some(RugletteError::AccountDidNotSerialize));
    assert_eq!(r, fresh_round());
}

#[test]
fn place_bet_range_check() {
    let round = fresh_round();
    let g = game(0, u64::MAX, 0, false);
    let huge = vec![bet(BetType::Red, u64::MAX, &[]), bet(BetType::Red, 1, &[])];
    assert!(!place_bet_within_range(&round, &g, &key(1), &huge));
    assert!(place_bet_within_range(&round, &g, &key(2), &huge));
    let refused_before_overflow = vec![bet(BetType::Red, u64::MAX, &[]), bet(BetType::Red, 1, &[])];
    let g2 = game(2, u64::MAX, 0, false);
    assert!(place_bet_within_range(&round, &g2, &key(1), &refused_before_overflow));
}

#[test]
fn wheel_spin_commits_to_the_randomness_account() {
    let mut round = fresh_round();
    assert_eq!(wheel_spin(&mut round, &key(2), key(5), 100), Err(code(ErrorCodes::InvalidPlayer)));
    assert_eq!(round, fresh_round());
    assert_eq!(wheel_spin(&mut round, &key(1), key(5), 100), Ok(()));
    assert_eq!(round.status, GameStatus::WaitingForVRF);
    assert_eq!(round.vrf_account, key(5));
    assert_eq!(round.commit_slot, 100);
    let before = round;
    assert_eq!(
        wheel_spin(&mut round, &key(1), key(6), 200),
        Err(code(ErrorCodes::RoundNotAcceptingBets))
    );
    assert_eq!(round, before);
}

#[test]
fn verify_randomness_reads_the_account() {
    let mut round = fresh_round();
    wheel_spin(&mut round, &key(1), key(5), 100).unwrap();
    let mut value = [0u8; 32];
    value[0] = 200;
    value[31] = 9;
    let data = randomness_data(100, 150, value);
    assert_eq!(verify_randomness(&mut round, &key(1), &key(5), &data, 150), Some(Ok(())));
    assert_eq!(round.winning_number, Some(200 % 37));
    assert_eq!(round.result_buffer, value);
    assert_eq!(round.status, GameStatus::ResultReady);
}

#[test]
fn verify_randomness_refusals() {
    let mut spun = fresh_round();
    wheel_spin(&mut spun, &key(1), key(5), 100).unwrap();
    let data = randomness_data(100, 150, [3; 32]);

    let mut r = spun;
    assert_eq!(
        verify_randomness(&mut r, &key(2), &key(5), &data, 150),
        Some(Err(code(ErrorCodes::InvalidPlayer)))
    );
    let mut r = fresh_round();
    assert_eq!(
        verify_randomness(&mut r, &key(1), &key(5), &data, 150),
        Some(Err(code(ErrorCodes::NotWaitingForRandomNumber)))
    );
    let mut r = spun;
    assert_eq!(
        verify_randomness(&mut r, &key(1), &key(6), &data, 150),
        Some(Err(code(ErrorCodes::InvalidRandomnessAccount)))
    );
    let mut r = spun;
    assert_eq!(
        verify_randomness(&mut r, &key(1), &key(5), &randomness_data(99, 150, [3; 32]), 150),
        Some(Err(code(ErrorCodes::RandomnessExpired)))
    );
    let mut r = spun;
    assert_eq!(
        verify_randomness(&mut r, &key(1), &key(5), &data, 151),
        Some(Err(code(ErrorCodes::RandomnessNotResolved)))
    );
    assert_eq!(r, spun);
    let mut short = data.clone();
    short.truncate(407);
    let mut r = spun;
    assert_eq!(verify_randomness(&mut r, &key(1), &key(5), &short, 150), None);
    let mut wrong_tag = data.clone();
    wrong_tag[0] = 11;
    assert_eq!(verify_randomness(&mut r, &key(1), &key(5), &wrong_tag, 150), None);
    assert_eq!(r, spun);
}

#[test]
fn winning_number_is_a_pocket_of_the_wheel() {
    for b in [0u8, 36, 37, 73, 74, 255] {
        let round = round_with_result(b);
        assert_eq!(round.winning_number, Some(b % 37));
        assert!(round.winning_number.unwrap() < 37);
    }
}

#[test]
fn settle_pays_the_winnings_less_the_fee() {
    let mut round = round_with_result(17);
    let bets = bet_state(vec![
        bet(BetType::Straight, 100, &[17]),
        bet(BetType::Red, 50, &[]),
        bet(BetType::Black, 50, &[]),
    ]);
    let g = game(1, 1000, 270, false);
    assert!(settle_bets_within_range(&round, &bets, &g, &key(1)));
    let res = settle_bets(&mut round, &bets, &g, &key(1), 1_000_000);
    // 17 is black: 3500 + 50 = 3550; the fee is 3550 * 270 / 10000 = 95.
    assert_eq!(res, Ok(Some(3550 - 95)));
    assert_eq!(round.payout_amount, Some(3550));
    assert_eq!(round.status, GameStatus::BetsSettled);
    assert_eq!(round.winning_number, Some(17));
}

#[test]
fn settle_with_nothing_won_sends_nothing() {
    let mut round = round_with_result(0);
    let bets = bet_state(vec![bet(BetType::Red, 50, &[]), bet(BetType::Dozen, 5, &[1])]);
    let res = settle_bets(&mut round, &bets, &game(1, 1000, 270, false), &key(1), 0);
    assert_eq!(res, Ok(None));
    assert_eq!(round.payout_amount, Some(0));
    assert_eq!(round.status, GameStatus::BetsSettled);
}

#[test]
fn settle_refusals_leave_the_round() {
    let ready = round_with_result(17);
    let bets = bet_state(vec![bet(BetType::Straight, 100, &[17])]);
    let g = game(1, 1000, 0, false);

    let mut r = ready;
    assert_eq!(settle_bets(&mut r, &bets, &g, &key(2), 10_000), Err(code(ErrorCodes::InvalidPlayer)));
    let mut r = fresh_round();
    assert_eq!(settle_bets(&mut r, &bets, &g, &key(1), 10_000), Err(code(ErrorCodes::ResultNotReady)));
    let mut r = ready;
    r.winning_number = None;
    assert_eq!(settle_bets(&mut r, &bets, &g, &key(1), 10_000), Err(code(ErrorCodes::ResultNotReady)));
    let mut r = ready;
    assert_eq!(
        settle_bets(&mut r, &bets, &g, &key(1), 3499),
        Err(code(ErrorCodes::NotEnoughFundsToPlay))
    );
    assert_eq!(r, ready);
    let overflowing = bet_state(vec![
        bet(BetType::Red, 1, &[]),
        bet(BetType::Straight, u64::MAX / 35 + 1, &[17]),
    ]);
    let mut r = ready;
    assert_eq!(settle_bets(&mut r, &overflowing, &g, &key(1), 10_000), Err(RugletteError::ArithmeticOverflow));
    assert_eq!(r, ready);
    let big = bet_state(vec![bet(BetType::Straight, u64::MAX / 35, &[17])]);
    let mut r = ready;
    assert_eq!(
        settle_bets(&mut r, &big, &game(1, u64::MAX, 2, false), &key(1), u64::MAX),
        Err(RugletteError::ArithmeticOverflow)
    );
    assert_eq!(r, ready);
}

#[test]
fn settle_range_check() {
    let ready = round_with_result(17);
    let g = game(1, u64::MAX, 0, false);
    let two_big = bet_state(vec![
        bet(BetType::Straight, u64::MAX / 35, &[17]),
        bet(BetType::Straight, u64::MAX / 35, &[17]),
    ]);
    assert!(!settle_bets_within_range(&ready, &two_big, &g, &key(1)));
    let fee_too_high = bet_state(vec![bet(BetType::Straight, 1000, &[17])]);
    assert!(!settle_bets_within_range(&ready, &fee_too_high, &game(1, 1000, 10_001, false), &key(1)));
    assert!(settle_bets_within_range(&ready, &fee_too_high, &game(1, 1000, 10_000, false), &key(1)));
}

#[test]
fn a_whole_round() {
    let g = game(10, 1_000, 500, false);
    let mut round = initialize_round(&g, key(1), 12, 1).unwrap();
    let bets = vec![bet(BetType::Column, 100, &[1]), bet(BetType::Even, 20, &[])];
    let placed = place_bet(&mut round, &g, &key(1), key(3), bets, 5, 2, 500).unwrap();
    assert_eq!(placed.transfer_amount, 120);
    let mut statuses = vec![round.status];
    let committed = randomness_data(300, 0, [0; 32]);
    assert_eq!(commit_randomness(&mut round, &key(1), &key(5), &key(5), &committed), Some(Ok(())));
    assert_eq!(round.commit_slot, 300);
    statuses.push(round.status);
    let mut value = [0u8; 32];
    value[0] = 37 + 10;
    let data = randomness_data(300, 301, value);
    assert_eq!(verify_randomness(&mut round, &key(1), &key(5), &data, 301), Some(Ok(())));
    statuses.push(round.status);
    assert_eq!(round.winning_number, Some(10));
    // 10 is in the first column (10 % 3 == 1) and even: 200 + 20 = 220, fee 11.
    let sent = settle_bets(&mut round, &placed.bet_state, &g, &key(1), 10_000).unwrap();
    assert_eq!(sent, Some(209));
    assert_eq!(round.payout_amount, Some(220));
    assert_eq!(round.total_wagered, 120);
    assert_eq!(round.status, GameStatus::BetsSettled);
    statuses.push(round.status);
    assert_eq!(
        statuses,
        vec![
            GameStatus::AcceptingBets,
            GameStatus::WaitingForVRF,
            GameStatus::ResultReady,
            GameStatus::BetsSettled
        ]
    );
    let before = round;
    assert_eq!(
        settle_bets(&mut round, &placed.bet_state, &g, &key(1), 10_000),
        Err(code(ErrorCodes::ResultNotReady))
    );
    assert_eq!(
        wheel_spin(&mut round, &key(1), key(5), 1),
        Err(code(ErrorCodes::RoundNotAcceptingBets))
    );
    assert_eq!(round, before);
}

#[test]
fn commit_randomness_takes_the_seed_slot() {
    let committed = randomness_data(4242, 0, [0; 32]);
    let mut r = fresh_round();
    assert_eq!(
        commit_randomness(&mut r, &key(2), &key(5), &key(5), &committed),
        Some(Err(code(ErrorCodes::InvalidPlayer)))
    );
    assert_eq!(
        commit_randomness(&mut r, &key(1), &key(5), &key(6), &committed),
        Some(Err(code(ErrorCodes::InvalidRandomnessAccount)))
    );
    let mut wrong_tag = committed.clone();
    wrong_tag[3] = 0;
    assert_eq!(commit_randomness(&mut r, &key(1), &key(5), &key(5), &wrong_tag), None);
    assert_eq!(r, fresh_round());
    assert_eq!(commit_randomness(&mut r, &key(1), &key(5), &key(5), &committed), Some(Ok(())));
    assert_eq!(r.commit_slot, 4242);
    assert_eq!(r.vrf_account, key(5));
    assert_eq!(r.status, GameStatus::WaitingForVRF);
    assert_eq!(
        commit_randomness(&mut r, &key(1), &key(5), &key(5), &committed),
        Some(Err(code(ErrorCodes::RoundNotAcceptingBets)))
    );
    let revealed = randomness_data(4242, 4300, [40; 32]);
    assert_eq!(verify_randomness(&mut r, &key(1), &key(5), &revealed, 4300), Some(Ok(())));
    assert_eq!(r.winning_number, Some(3));
}
