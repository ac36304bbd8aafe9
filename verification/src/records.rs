//! Records of the marketplace programs. They share no logic with the
//! custodial programs and are kept as plain data.

use vstd::prelude::*;
use crate::address::Address;

verus! {

/// The most bytes a name or a street address holds.
pub const MAX_TEXT_LEN: usize = 32;

/// The storage that a marketplace's record needs after its kind.
pub const MARKETPLACE_SPACE: usize = 32 + 2 + 1 + 1 + 1 + 4 + 32;

/// The storage that a listing's record needs after its kind.
pub const LISTING_SPACE: usize = 32 + 1 + 4 + 32 + 8 + 8 + 33 + 9 + 1;

/// A marketplace and the nonces of its accounts.
#[derive(Clone, Debug, PartialEq, Eq)]
pub struct Marketplace {
    pub admin: Address,
    /// In basis points.
    pub fee: u16,
    pub bump: u8,
    pub treasury_bump: u8,
    pub rewards_bump: u8,
    pub name: String,
}

/// Whether a parking space can be had.
#[derive(Clone, Copy, Debug, PartialEq, Eq)]
pub enum ParkingSpaceStatus {
    Available,
    Reserved,
    Occupied,
    UnAvailable,
}

/// A parking space offered for rent.
#[derive(Clone, Debug, PartialEq, Eq)]
pub struct Listing {
    pub maker: Address,
    pub bump: u8,
    pub address: String,
    /// Per hour.
    pub rental_rate: u64,
    pub sensor_id: u64,
    pub reserved_by: Option<Address>,
    pub reservation_duration: Option<u64>,
    pub parking_space_status: ParkingSpaceStatus,
}

} // verus!
