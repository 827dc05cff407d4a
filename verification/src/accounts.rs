use vstd::prelude::*;
use crate::address::Address;
use crate::state::{Pool, OfferData, OrderData, UserInfo};

verus! {

// The accounts each instruction works on, as the values its logic reads and
// writes. `owner` is always the key of the signer of the transaction; a
// `*_key` field is the address of the account whose contents sit beside it;
// `clock` is the cluster's current unix timestamp.

/// Accounts of `init_pool`.
#[derive(Clone, Debug, Default)]
pub struct InitPool {
    pub owner: Address,
    pub pool: Pool,
    pub admin: Address,
    pub rand: Address,
}

/// Accounts of `update_pool`.
#[derive(Clone, Debug, Default)]
pub struct UpdatePool {
    pub owner: Address,
    pub pool: Pool,
}

/// Accounts of `create_offer`.
#[derive(Clone, Debug, Default)]
pub struct CreateOffer {
    pub owner: Address,
    pub pool_key: Address,
    pub pool: Pool,
    pub admin_account: Address,
    pub pool_account: Address,
    pub buyer_account: Address,
    pub token: Address,
    pub offer_data: OfferData,
    pub token_program: Address,
    pub clock: i64,
}

/// Accounts of `update_offer`.
#[derive(Clone, Debug, Default)]
pub struct UpdateOffer {
    pub owner: Address,
    pub offer_data: OfferData,
}

/// Accounts of `cancel_offer`.
#[derive(Clone, Debug, Default)]
pub struct CancelOffer {
    pub owner: Address,
    pub offer_data: OfferData,
}

/// Accounts of `create_order`.
#[derive(Clone, Debug, Default)]
pub struct CreateOrder {
    pub owner: Address,
    pub pool_key: Address,
    pub pool: Pool,
    pub offer_key: Address,
    pub offer: OfferData,
    pub buyer: Address,
    pub seller_account: Address,
    pub pool_account: Address,
    pub order_data: OrderData,
    pub token_program: Address,
    pub clock: i64,
}

/// Accounts of `buyer_confirm`.
#[derive(Clone, Debug, Default)]
pub struct BuyerConfirm {
    pub owner: Address,
    pub order_data: OrderData,
}

/// Accounts of `confirm_order`.
#[derive(Clone, Debug, Default)]
pub struct ConfirmOrder {
    pub owner: Address,
    pub pool_key: Address,
    pub pool: Pool,
    pub offer_data: OfferData,
    pub order_data: OrderData,
    pub pool_account: Address,
    pub buyer_account: Address,
    pub admin_account: Address,
    pub buyer: Address,
    pub admin: Address,
    pub token: Address,
    pub token_program: Address,
}

/// Accounts of `create_dispute`.
#[derive(Clone, Debug, Default)]
pub struct Dispute {
    pub owner: Address,
    pub order_data: OrderData,
}

/// Accounts of `cancel_order`.
#[derive(Clone, Debug, Default)]
pub struct CancelOrder {
    pub owner: Address,
    pub pool_key: Address,
    pub pool: Pool,
    pub order_data: OrderData,
    pub offer_data: OfferData,
    pub pool_account: Address,
    pub seller_account: Address,
    pub seller: Address,
    pub token_program: Address,
}

/// Accounts of `create_user`.
#[derive(Clone, Debug, Default)]
pub struct CreateUser {
    pub owner: Address,
    pub pool_key: Address,
    pub pool: Pool,
    pub user_info: UserInfo,
    pub user: Address,
}

/// Accounts of `verify_user`.
#[derive(Clone, Debug, Default)]
pub struct VerifyUser {
    pub owner: Address,
    pub pool: Pool,
    pub user_info: UserInfo,
    pub user: Address,
}

/// Accounts of `update_user`.
#[derive(Clone, Debug, Default)]
pub struct UpdateUser {
    pub owner: Address,
    pub pool: Pool,
    pub user_info: UserInfo,
}

/// Accounts of `thumb_user`.
#[derive(Clone, Debug, Default)]
pub struct ThumbUser {
    pub owner: Address,
    pub pool: Pool,
    pub user_info: UserInfo,
    pub order_data: OrderData,
}

} // verus!
