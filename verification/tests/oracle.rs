use bytemuck::Zeroable;
use switchboard_on_demand::accounts::RandomnessAccountData;
use switchboard_on_demand::Discriminator;
use token_lottery::randomness::RANDOMNESS_ACCOUNT_LEN;
use token_lottery::{
    commit_winner, reveal_winner, winning_ticket, CommitWinner, ErrorCode, Identity,
    InitializeConfig, Randomness, RandomnessAccount, RevealWinner, TokenLottery,
};

const TAG: [u8; 8] = [10, 66, 229, 135, 220, 239, 217, 114];

fn id(byte: u8) -> Identity {
    Identity { bytes: [byte; 32] }
}

fn value() -> [u8; 32] {
    let mut value = [0u8; 32];
    for (i, byte) in value.iter_mut().enumerate() {
        *byte = 23 + 3 * i as u8;
    }
    value
}

/// The contents of a randomness account, written byte by byte.
fn account_bytes(seed_slot: u64, reveal_slot: u64, value: [u8; 32]) -> Vec<u8> {
    let mut data = vec![0u8; 408];
    data[..8].copy_from_slice(&TAG);
    data[104..112].copy_from_slice(&seed_slot.to_le_bytes());
    data[144..152].copy_from_slice(&reveal_slot.to_le_bytes());
    data[152..184].copy_from_slice(&value);
    data
}

/// The contents of a randomness account, as the oracle's own type lays
/// them out.
fn account_of_the_oracle(seed_slot: u64, reveal_slot: u64, value: [u8; 32]) -> Vec<u8> {
    let mut account = RandomnessAccountData::zeroed();
    account.seed_slot = seed_slot;
    account.reveal_slot = reveal_slot;
    account.value = value;
    let mut data = RandomnessAccountData::DISCRIMINATOR.to_vec();
    data.extend_from_slice(bytemuck::bytes_of(&account));
    data
}

fn lottery_with_five_tickets() -> TokenLottery {
    let ctx = InitializeConfig { payer: id(1), bump: 255 };
    let mut lottery = token_lottery::initialize_config(&ctx, 100, 200, 10).expect("window in order");
    lottery.total_tickets = 5;
    lottery.lottery_pot_amount = 50;
    lottery
}

#[test]
fn account_is_408_bytes_long() {
    assert_eq!(RANDOMNESS_ACCOUNT_LEN, 408);
    assert_eq!(RandomnessAccountData::size(), RANDOMNESS_ACCOUNT_LEN);
    assert_eq!(account_of_the_oracle(1, 2, value()).len(), RANDOMNESS_ACCOUNT_LEN);
    assert_eq!(RandomnessAccountData::DISCRIMINATOR, &TAG[..]);
}

#[test]
fn read_finds_the_fields_at_their_offsets() {
    let data = account_bytes(0x0102_0304_0506_0708, 0x1112_1314_1516_1718, value());
    let request = Randomness::read(&data).expect("the bytes hold a request");
    assert_eq!(request.seed_slot, 0x0102_0304_0506_0708);
    assert_eq!(request.reveal_slot, 0x1112_1314_1516_1718);
    assert_eq!(request.value, value());
}

#[test]
fn read_agrees_with_the_layout_of_the_oracle() {
    let data = account_of_the_oracle(41, 205, value());
    assert_eq!(data, account_bytes(41, 205, value()));
    let request = Randomness::read(&data).expect("the bytes hold a request");
    assert_eq!(request.seed_slot, 41);
    assert_eq!(request.reveal_slot, 205);
    assert_eq!(request.value, value());
}

#[test]
fn read_ignores_what_follows_the_account() {
    let mut data = account_bytes(41, 205, value());
    data.extend_from_slice(&[0xAA; 100]);
    let request = Randomness::read(&data).expect("the bytes hold a request");
    assert_eq!(request.seed_slot, 41);
    assert_eq!(request.reveal_slot, 205);
}

#[test]
fn read_accepts_bytes_wherever_they_lie() {
    let account = account_bytes(41, 205, value());
    for offset in 0..16 {
        let mut buffer = vec![0u8; offset];
        buffer.extend_from_slice(&account);
        let request = Randomness::read(&buffer[offset..]).expect("the bytes hold a request");
        assert_eq!(request.seed_slot, 41);
        assert_eq!(request.reveal_slot, 205);
        assert_eq!(request.value, value());
    }
}

#[test]
fn read_refuses_short_contents() {
    let data = account_bytes(41, 205, value());
    assert!(Randomness::read(&data[..407]).is_none());
    assert!(Randomness::read(&data[..8]).is_none());
    assert!(Randomness::read(&data[..3]).is_none());
    assert!(Randomness::read(&[]).is_none());
}

#[test]
fn read_refuses_another_tag() {
    for i in 0..8 {
        let mut data = account_bytes(41, 205, value());
        data[i] ^= 1;
        assert!(Randomness::read(&data).is_none());
    }
    assert!(Randomness::read(&[0u8; 408]).is_none());
}

#[test]
fn value_counts_only_in_the_slot_of_its_reveal() {
    let request = Randomness { seed_slot: 41, reveal_slot: 205, value: value() };
    assert_eq!(request.get_value(205), Some(value()));
    assert_eq!(request.get_value(204), None);
    assert_eq!(request.get_value(206), None);
    assert_eq!(request.get_value(0), None);
}

#[test]
fn value_agrees_with_the_oracle() {
    let mut account = RandomnessAccountData::zeroed();
    account.reveal_slot = 205;
    account.value = value();
    let request = Randomness { seed_slot: 0, reveal_slot: 205, value: value() };
    for slot in [0u64, 204, 205, 206, u64::MAX] {
        assert_eq!(request.get_value(slot), account.get_value(slot).ok());
    }
}

#[test]
fn request_is_fresh_one_slot_later_only() {
    let request = Randomness { seed_slot: 41, reveal_slot: 0, value: value() };
    assert!(request.is_fresh(42));
    assert!(!request.is_fresh(41));
    assert!(!request.is_fresh(43));
    assert!(!request.is_fresh(0));
    let last = Randomness { seed_slot: u64::MAX, reveal_slot: 0, value: value() };
    assert!(!last.is_fresh(0));
    assert!(!last.is_fresh(u64::MAX));
    let first = Randomness { seed_slot: 0, reveal_slot: 0, value: value() };
    assert!(first.is_fresh(1));
    assert!(!first.is_fresh(0));
}

#[test]
fn winner_is_the_first_byte_modulo_the_tickets() {
    let mut v = [255u8; 32];
    v[0] = 23;
    assert_eq!(winning_ticket(&v, 5), 3);
    assert_eq!(winning_ticket(&v, 1), 0);
    assert_eq!(winning_ticket(&v, 23), 0);
    assert_eq!(winning_ticket(&v, 24), 23);
    assert_eq!(winning_ticket(&v, u64::MAX), 23);
    v[0] = 255;
    assert_eq!(winning_ticket(&v, 256), 255);
    assert_eq!(winning_ticket(&v, 100), 55);
    v[0] = 0;
    assert_eq!(winning_ticket(&v, 7), 0);
}

#[test]
fn commit_reads_the_request_slot_from_the_account() {
    let mut ctx = CommitWinner {
        payer: id(1),
        token_lottery: lottery_with_five_tickets(),
        randomness_account_data: RandomnessAccount { key: id(9), data: account_bytes(149, 0, [0; 32]) },
    };
    assert_eq!(commit_winner(&mut ctx, 151), Err(ErrorCode::RandomnessStale));
    assert!(ctx.token_lottery.randomness_account.is_none());
    assert_eq!(commit_winner(&mut ctx, 149), Err(ErrorCode::RandomnessStale));
    assert_eq!(commit_winner(&mut ctx, 150), Ok(()));
    assert!(ctx.token_lottery.randomness_account == Some(id(9)));
}

#[test]
fn commit_by_stranger_is_refused_whatever_the_account() {
    let mut ctx = CommitWinner {
        payer: id(2),
        token_lottery: lottery_with_five_tickets(),
        randomness_account_data: RandomnessAccount { key: id(9), data: account_bytes(149, 0, [0; 32]) },
    };
    assert_eq!(commit_winner(&mut ctx, 150), Err(ErrorCode::NotAuthorized));
    ctx.randomness_account_data.data = Vec::new();
    assert_eq!(commit_winner(&mut ctx, 150), Err(ErrorCode::NotAuthorized));
    assert!(ctx.token_lottery.randomness_account.is_none());
}

#[test]
fn commit_of_an_account_without_request_is_stale() {
    let mut ctx = CommitWinner {
        payer: id(1),
        token_lottery: lottery_with_five_tickets(),
        randomness_account_data: RandomnessAccount { key: id(9), data: vec![0u8; 408] },
    };
    assert_eq!(commit_winner(&mut ctx, 1), Err(ErrorCode::RandomnessStale));
    ctx.randomness_account_data.data = account_bytes(149, 0, [0; 32])[..400].to_vec();
    assert_eq!(commit_winner(&mut ctx, 150), Err(ErrorCode::RandomnessStale));
    assert!(ctx.token_lottery.randomness_account.is_none());
}

#[test]
fn draw_reads_the_value_from_the_account() {
    let mut lottery = lottery_with_five_tickets();
    lottery.randomness_account = Some(id(9));
    let mut ctx = RevealWinner {
        payer: id(1),
        token_lottery: lottery,
        randomness_account_data: RandomnessAccount { key: id(9), data: account_bytes(204, 205, value()) },
    };
    assert_eq!(reveal_winner(&mut ctx, 204), Err(ErrorCode::RandomnessPending));
    assert_eq!(reveal_winner(&mut ctx, 206), Err(ErrorCode::RandomnessPending));
    assert!(!ctx.token_lottery.winner_chosen);
    assert_eq!(reveal_winner(&mut ctx, 205), Ok(()));
    assert!(ctx.token_lottery.winner_chosen);
    assert_eq!(ctx.token_lottery.winning_ticket_id, 3);
    assert_eq!(reveal_winner(&mut ctx, 205), Err(ErrorCode::WinnerAlreadyChosen));
    assert_eq!(ctx.token_lottery.winning_ticket_id, 3);
}

#[test]
fn draw_from_an_account_without_request_stays_pending() {
    let mut lottery = lottery_with_five_tickets();
    lottery.randomness_account = Some(id(9));
    let mut ctx = RevealWinner {
        payer: id(1),
        token_lottery: lottery,
        randomness_account_data: RandomnessAccount { key: id(9), data: vec![1u8; 500] },
    };
    assert_eq!(reveal_winner(&mut ctx, 205), Err(ErrorCode::RandomnessPending));
    assert!(!ctx.token_lottery.winner_chosen);
}

#[test]
fn draw_checks_the_account_before_its_contents() {
    let mut lottery = lottery_with_five_tickets();
    lottery.randomness_account = Some(id(9));
    let mut ctx = RevealWinner {
        payer: id(1),
        token_lottery: lottery,
        randomness_account_data: RandomnessAccount { key: id(8), data: account_bytes(204, 205, value()) },
    };
    assert_eq!(reveal_winner(&mut ctx, 205), Err(ErrorCode::WrongRandomnessHandle));
    ctx.randomness_account_data.key = id(9);
    ctx.payer = id(2);
    assert_eq!(reveal_winner(&mut ctx, 205), Err(ErrorCode::NotAuthorized));
    assert!(!ctx.token_lottery.winner_chosen);
}
