use vstd::prelude::*;
use crate::address::Address;

verus! {

/// Bytes reserved for a pool account (after the 8-byte discriminator).
pub const POOL_SIZE: usize = 32 + 32 + 32 + 8 + 1;
/// Bytes reserved for an offer account (after the 8-byte discriminator).
pub const OFFERDATA_SIZE: usize = 32 + 32 + 32 + 32 + 32 + 32 + 4 + 10 + 8 + 8 + 4 + 10 + 8 + 8 + 4
    + 100 + 8 + 4 + 200 + 8 + 4 + 200 + 1 + 1;
/// Bytes reserved for an order account (after the 8-byte discriminator).
pub const ORDERDATA_SIZE: usize = 32 + 32 + 32 + 32 + 8 + 4 + 20 + 4 + 20 + 4 + 20 + 4 + 50 + 1 + 1
    + 8 + 1 + 4 + 300 + 4 + 100 + 1 + 1;
/// Bytes reserved for a user account (after the 8-byte discriminator).
pub const USERINFO_SIZE: usize = 32 + 32 + 1 + 4 + 20 + 1 + 1 + 8 + 8;

/// Order status: created, funds held in escrow.
pub const ORDER_OPEN: u8 = 0;
/// Order status: confirmed and paid out.
pub const ORDER_COMPLETED: u8 = 1;
/// Order status: cancelled and refunded.
pub const ORDER_CANCELLED: u8 = 2;

/// The fee basis: fees are counted in hundredths of a percent.
pub const FEE_BASIS: u64 = 10000;
/// The fee a new pool charges (2%).
pub const DEFAULT_FEE: u64 = 200;

/// The pool: who runs it, the seed that derives its address, and its fee.
#[derive(Clone, Debug, Default)]
pub struct Pool {
    pub owner: Address,
    pub rand: Address,
    pub admin: Address,
    pub fee: u64,
    pub bump: u8,
}

/// An offer to sell tokens (or SOL) for fiat.
#[derive(Clone, Debug, Default)]
pub struct OfferData {
    pub owner: Address,
    pub pool: Address,
    pub admin_account: Address,
    pub pool_account: Address,
    pub buyer_account: Address,
    pub token: Address,
    pub fiat: String,
    pub token_amount: u64,
    pub bought: u64,
    pub rate: String,
    pub max_limit: u64,
    pub min_limit: u64,
    pub payment_options: String,
    pub time_limit: u64,
    pub offer_terms: String,
    pub created_time: i64,
    pub public_key: String,
    pub sol: bool,
    pub status: bool,
}

/// An order taken against an offer; its amount sits in escrow while it is open.
#[derive(Clone, Debug, Default)]
pub struct OrderData {
    pub owner: Address,
    pub pool: Address,
    pub offer: Address,
    pub buyer: Address,
    pub sell_amount: u64,
    pub receive_amount: String,
    pub payment_option: String,
    pub account_name: String,
    pub email_address: String,
    pub buyer_confirm: bool,
    pub seller_confirm: bool,
    pub created_time: i64,
    pub dispute_reason: u8,
    pub dispute_explain: String,
    pub dispute_img: String,
    pub feedback: bool,
    pub status: u8,
}

/// A trader's profile within a pool.
#[derive(Clone, Debug, Default)]
pub struct UserInfo {
    pub user: Address,
    pub pool: Address,
    pub verified: bool,
    pub nickname: String,
    pub language: u8,
    pub region: u8,
    pub thumbs_up: u64,
    pub thumbs_down: u64,
}

} // verus!
