use custody::address::Address;
use custody::escrow::Escrow;
use custody::layout::{
    decode_escrow, decode_vault_state, encode_escrow, encode_vault_state, DISCRIMINATOR_LEN,
    ESCROW_LEN, VAULT_STATE_LEN,
};
use custody::records::{
    Listing, Marketplace, ParkingSpaceStatus, LISTING_SPACE, MARKETPLACE_SPACE, MAX_TEXT_LEN,
};
use custody::vault::VaultState;

const VAULT_KIND: [u8; 8] = [1, 2, 3, 4, 5, 6, 7, 8];
const ESCROW_KIND: [u8; 8] = [9, 9, 9, 9, 9, 9, 9, 9];

fn addr(b: u8) -> Address {
    Address { bytes: [b; 32] }
}

fn sample() -> Escrow {
    Escrow {
        seed: 7,
        maker: addr(1),
        mint_a: addr(50),
        mint_b: addr(51),
        receive: 0x0102030405060708,
        bump: 254,
    }
}

#[test]
fn lengths_count_kind_and_fields() {
    assert_eq!(DISCRIMINATOR_LEN, 8);
    assert_eq!(VAULT_STATE_LEN, 8 + 1 + 1);
    assert_eq!(ESCROW_LEN, 8 + 8 + 32 + 32 + 32 + 8 + 1);
}

#[test]
fn vault_state_lies_behind_its_kind() {
    let state = VaultState { vault_bump: 254, state_bump: 253 };
    assert_eq!(encode_vault_state(&VAULT_KIND, &state), vec![1, 2, 3, 4, 5, 6, 7, 8, 254, 253]);
}

#[test]
fn vault_state_is_read_back() {
    let state = VaultState { vault_bump: 254, state_bump: 253 };
    let mut data = encode_vault_state(&VAULT_KIND, &state);
    assert_eq!(decode_vault_state(&VAULT_KIND, &data), Some(state));
    data.push(0);
    data.push(77);
    assert_eq!(decode_vault_state(&VAULT_KIND, &data), Some(state));
}

#[test]
fn vault_state_of_another_kind_is_refused() {
    let state = VaultState { vault_bump: 254, state_bump: 253 };
    let data = encode_vault_state(&VAULT_KIND, &state);
    assert_eq!(decode_vault_state(&ESCROW_KIND, &data), None);
    let mut near = VAULT_KIND;
    near[7] = 0;
    assert_eq!(decode_vault_state(&near, &data), None);
}

#[test]
fn short_vault_state_is_refused() {
    assert_eq!(decode_vault_state(&VAULT_KIND, &vec![1, 2, 3, 4, 5, 6, 7, 8, 254]), None);
    assert_eq!(decode_vault_state(&VAULT_KIND, &Vec::new()), None);
}

#[test]
fn escrow_lies_behind_its_kind_in_field_order() {
    let data = encode_escrow(&ESCROW_KIND, &sample());
    let mut expected: Vec<u8> = vec![9; 8];
    expected.extend_from_slice(&[7, 0, 0, 0, 0, 0, 0, 0]);
    expected.extend_from_slice(&[1; 32]);
    expected.extend_from_slice(&[50; 32]);
    expected.extend_from_slice(&[51; 32]);
    expected.extend_from_slice(&[8, 7, 6, 5, 4, 3, 2, 1]);
    expected.push(254);
    assert_eq!(data.len(), 121);
    assert_eq!(data, expected);
}

#[test]
fn escrow_is_read_back() {
    let mut data = encode_escrow(&ESCROW_KIND, &sample());
    assert_eq!(decode_escrow(&ESCROW_KIND, &data), Some(sample()));
    data.push(5);
    assert_eq!(decode_escrow(&ESCROW_KIND, &data), Some(sample()));
}

#[test]
fn escrow_of_another_kind_or_too_short_is_refused() {
    let mut data = encode_escrow(&ESCROW_KIND, &sample());
    assert_eq!(decode_escrow(&VAULT_KIND, &data), None);
    data.pop();
    assert_eq!(decode_escrow(&ESCROW_KIND, &data), None);
}

#[test]
fn marketplace_records_hold_their_fields() {
    let market = Marketplace {
        admin: addr(1),
        fee: 250,
        bump: 255,
        treasury_bump: 254,
        rewards_bump: 253,
        name: String::from("lot"),
    };
    assert_eq!(market.clone(), market);
    assert!(market.name.len() <= MAX_TEXT_LEN);
    assert_eq!(MARKETPLACE_SPACE, 73);
    let listing = Listing {
        maker: addr(2),
        bump: 255,
        address: String::from("1 Main St"),
        rental_rate: 5,
        sensor_id: 9,
        reserved_by: None,
        reservation_duration: None,
        parking_space_status: ParkingSpaceStatus::Available,
    };
    assert_eq!(listing.clone(), listing);
    assert_ne!(ParkingSpaceStatus::Reserved, ParkingSpaceStatus::Occupied);
    assert_ne!(ParkingSpaceStatus::UnAvailable, ParkingSpaceStatus::Available);
    assert_eq!(LISTING_SPACE, 128);
}
