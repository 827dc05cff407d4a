use p2p_contract::accounts::{
    BuyerConfirm, CancelOffer, CancelOrder, ConfirmOrder, CreateOffer, CreateOrder, CreateUser,
    Dispute, InitPool, ThumbUser, UpdateOffer, UpdatePool, UpdateUser, VerifyUser,
};
use p2p_contract::address::Address;
use p2p_contract::cpi::Effect;
use p2p_contract::error::{Failure, PoolError, INCORRECT_PROGRAM_ID};
use p2p_contract::program::{
    confirm_order_settlement, Settlement, pool_payout, buyer_confirm, cancel_offer, cancel_order, confirm_order, create_dispute, create_offer,
    create_order, create_user, init_pool, thumb_user, update_offer, update_pool, update_user,
    verify_user,
};
use p2p_contract::state::{OfferData, OrderData, Pool, UserInfo, POOL_SIZE, OFFERDATA_SIZE, ORDERDATA_SIZE, USERINFO_SIZE};

const TOKEN_PROGRAM: [u8; 32] = [
    6, 221, 246, 225, 215, 101, 161, 147, 217, 203, 225, 70, 206, 235, 121, 172, 28, 180, 133, 237,
    95, 91, 55, 145, 58, 140, 245, 133, 126, 255, 0, 169,
];

fn key(b: u8) -> Address {
    Address { bytes: [b; 32] }
}

const POOL_OWNER: u8 = 1;
const SELLER: u8 = 2;
const BUYER: u8 = 3;
const STRANGER: u8 = 4;
const POOL_KEY: u8 = 5;
const RAND: u8 = 6;
const ADMIN: u8 = 7;

fn pool(fee: u64) -> Pool {
    Pool { owner: key(POOL_OWNER), rand: key(RAND), admin: key(ADMIN), fee, bump: 253 }
}

fn offer(amount: u64, sol: bool) -> OfferData {
    OfferData { owner: key(SELLER), pool: key(POOL_KEY), token_amount: amount, sol, status: true, ..Default::default() }
}

fn open_order(amount: u64, confirmed: bool) -> OrderData {
    OrderData {
        owner: key(SELLER),
        pool: key(POOL_KEY),
        buyer: key(BUYER),
        sell_amount: amount,
        buyer_confirm: confirmed,
        status: 0,
        ..Default::default()
    }
}

fn confirm_ctx(signer: u8, fee: u64, offer_amount: u64, sell: u64, sol: bool, confirmed: bool) -> ConfirmOrder {
    ConfirmOrder {
        owner: key(signer),
        pool_key: key(POOL_KEY),
        pool: pool(fee),
        offer_data: offer(offer_amount, sol),
        order_data: open_order(sell, confirmed),
        pool_account: key(10),
        buyer_account: key(11),
        admin_account: key(12),
        buyer: key(BUYER),
        admin: key(ADMIN),
        token: key(13),
        token_program: Address { bytes: TOKEN_PROGRAM },
    }
}

fn amount_of(e: &Effect) -> u64 {
    match e {
        Effect::MoveLamports { amount, .. } => *amount,
        Effect::Invoke(c) => u64::from_le_bytes(c.instruction.data[1..9].try_into().unwrap()),
    }
}

#[test]
fn account_sizes() {
    assert_eq!(POOL_SIZE, 105);
    assert_eq!(OFFERDATA_SIZE, 782);
    assert_eq!(ORDERDATA_SIZE, 683);
    assert_eq!(USERINFO_SIZE, 107);
}

#[test]
fn init_pool_records_keys_and_default_fee() {
    let mut ctx = InitPool { owner: key(POOL_OWNER), pool: Pool::default(), admin: key(ADMIN), rand: key(RAND) };
    assert_eq!(init_pool(&mut ctx, 254), Ok(()));
    assert_eq!(ctx.pool.owner, key(POOL_OWNER));
    assert_eq!(ctx.pool.rand, key(RAND));
    assert_eq!(ctx.pool.admin, key(ADMIN));
    assert_eq!(ctx.pool.fee, 200);
    assert_eq!(ctx.pool.bump, 254);
}

#[test]
fn update_pool_only_by_owner() {
    let mut ctx = UpdatePool { owner: key(POOL_OWNER), pool: pool(200) };
    assert_eq!(update_pool(&mut ctx, 350), Ok(()));
    assert_eq!(ctx.pool.fee, 350);
    let mut other = UpdatePool { owner: key(STRANGER), pool: pool(200) };
    assert_eq!(update_pool(&mut other, 9999), Err(PoolError::NotAdmin));
    assert_eq!(other.pool.fee, 200);
}

#[test]
fn create_offer_records_terms() {
    let mut ctx = CreateOffer {
        owner: key(SELLER),
        pool_key: key(POOL_KEY),
        pool: pool(200),
        admin_account: key(20),
        pool_account: key(21),
        buyer_account: key(22),
        token: key(23),
        offer_data: OfferData::default(),
        token_program: Address { bytes: TOKEN_PROGRAM },
        clock: 1_700_000_000,
    };
    let r = create_offer(
        &mut ctx,
        "USD".to_string(),
        5000,
        "1.02".to_string(),
        6000,
        100,
        "bank".to_string(),
        30,
        "pk".to_string(),
        "terms".to_string(),
        false,
    );
    assert_eq!(r, Ok(()));
    let o = &ctx.offer_data;
    assert_eq!(o.owner, key(SELLER));
    assert_eq!(o.pool, key(POOL_KEY));
    assert_eq!((o.admin_account, o.pool_account, o.buyer_account, o.token), (key(20), key(21), key(22), key(23)));
    assert_eq!(o.fiat, "USD");
    assert_eq!(o.rate, "1.02");
    assert_eq!((o.token_amount, o.max_limit, o.min_limit, o.time_limit), (5000, 6000, 100, 30));
    assert_eq!(o.payment_options, "bank");
    assert_eq!(o.public_key, "pk");
    assert_eq!(o.offer_terms, "terms");
    assert_eq!(o.created_time, 1_700_000_000);
    assert_eq!(o.bought, 0);
    assert!(!o.sol);
    assert!(o.status);
}

#[test]
fn update_offer_changes_terms_only() {
    let mut start = offer(100, true);
    start.rate = "0.9".to_string();
    start.bought = 7;
    let mut ctx = UpdateOffer { owner: key(SELLER), offer_data: start };
    let r = update_offer(&mut ctx, "EUR".to_string(), 80, 60, 10, "cash".to_string(), 15, "new".to_string());
    assert_eq!(r, Ok(()));
    let o = &ctx.offer_data;
    assert_eq!(o.fiat, "EUR");
    assert_eq!((o.token_amount, o.max_limit, o.min_limit, o.time_limit), (80, 60, 10, 15));
    assert_eq!(o.payment_options, "cash");
    assert_eq!(o.offer_terms, "new");
    assert_eq!(o.rate, "0.9");
    assert_eq!(o.bought, 7);
    assert_eq!(o.owner, key(SELLER));
}

#[test]
fn cancel_offer_closes_it() {
    let mut ctx = CancelOffer { owner: key(SELLER), offer_data: offer(100, false) };
    assert_eq!(cancel_offer(&mut ctx), Ok(()));
    assert!(!ctx.offer_data.status);
    assert_eq!(ctx.offer_data.token_amount, 100);
}

fn create_order_ctx(offer_amount: u64, sol: bool) -> CreateOrder {
    CreateOrder {
        owner: key(SELLER),
        pool_key: key(POOL_KEY),
        pool: pool(200),
        offer_key: key(30),
        offer: offer(offer_amount, sol),
        buyer: key(BUYER),
        seller_account: key(31),
        pool_account: key(32),
        order_data: OrderData { dispute_reason: 9, ..Default::default() },
        token_program: Address { bytes: TOKEN_PROGRAM },
        clock: 42,
    }
}

#[test]
fn create_order_escrows_tokens() {
    let mut ctx = create_order_ctx(1000, false);
    let effects = create_order(&mut ctx, 400, "40 USD".into(), "bank".into(), "Ann".into(), "a@b.c".into()).unwrap();
    assert_eq!(effects.len(), 1);
    match &effects[0] {
        Effect::Invoke(c) => {
            assert_eq!(c.instruction.program_id, Address { bytes: TOKEN_PROGRAM });
            assert_eq!(c.instruction.accounts[0].key, key(31));
            assert_eq!(c.instruction.accounts[1].key, key(32));
            assert_eq!(c.instruction.accounts[2].key, key(SELLER));
            assert!(c.signer_seeds.is_empty());
            assert_eq!(c.on_failure, PoolError::TokenTransferFailed);
        }
        _ => panic!("expected a call"),
    }
    assert_eq!(amount_of(&effects[0]), 400);
    let o = &ctx.order_data;
    assert_eq!((o.owner, o.pool, o.offer, o.buyer), (key(SELLER), key(POOL_KEY), key(30), key(BUYER)));
    assert_eq!(o.sell_amount, 400);
    assert_eq!(o.receive_amount, "40 USD");
    assert_eq!(o.payment_option, "bank");
    assert_eq!(o.account_name, "Ann");
    assert_eq!(o.email_address, "a@b.c");
    assert_eq!(o.created_time, 42);
    assert!(!o.buyer_confirm && !o.seller_confirm);
    assert_eq!(o.status, 0);
    assert_eq!(o.dispute_reason, 9);
    assert_eq!(ctx.offer.token_amount, 1000);
}

#[test]
fn create_order_escrows_lamports() {
    let mut ctx = create_order_ctx(1000, true);
    let effects = create_order(&mut ctx, 1000, "".into(), "".into(), "".into(), "".into()).unwrap();
    match &effects[0] {
        Effect::Invoke(c) => {
            assert_eq!(c.instruction.program_id, key(0));
            assert_eq!(c.instruction.accounts[0].key, key(SELLER));
            assert_eq!(c.instruction.accounts[1].key, key(POOL_KEY));
            let mut data = vec![2u8, 0, 0, 0];
            data.extend_from_slice(&1000u64.to_le_bytes());
            assert_eq!(c.instruction.data, data);
            assert_eq!(c.on_failure, PoolError::SOLTransferFailed);
        }
        _ => panic!("expected a call"),
    }
    assert_eq!(ctx.order_data.sell_amount, 1000);
}

#[test]
fn create_order_above_offer_is_refused() {
    let mut ctx = create_order_ctx(1000, false);
    let r = create_order(&mut ctx, 1001, "x".into(), "y".into(), "z".into(), "w".into());
    assert!(matches!(r, Err(Failure::Pool(PoolError::InvalidBuyAmount))));
    assert_eq!(ctx.order_data.sell_amount, 0);
    assert_eq!(ctx.order_data.receive_amount, "");
}

#[test]
fn create_order_with_wrong_token_program_is_refused() {
    let mut ctx = create_order_ctx(1000, false);
    ctx.token_program = key(99);
    let r = create_order(&mut ctx, 10, "x".into(), "y".into(), "z".into(), "w".into());
    assert!(matches!(r, Err(Failure::Program(INCORRECT_PROGRAM_ID))));
    assert_eq!(ctx.order_data.sell_amount, 0);
}

#[test]
fn buyer_confirm_only_by_buyer() {
    let mut ctx = BuyerConfirm { owner: key(BUYER), order_data: open_order(10, false) };
    assert_eq!(buyer_confirm(&mut ctx), Ok(()));
    assert!(ctx.order_data.buyer_confirm);
    let mut other = BuyerConfirm { owner: key(SELLER), order_data: open_order(10, false) };
    assert_eq!(buyer_confirm(&mut other), Err(PoolError::NotBuyer));
    assert!(!other.order_data.buyer_confirm);
}

#[test]
fn confirm_order_pays_buyer_and_fee_in_lamports() {
    let mut ctx = confirm_ctx(SELLER, 200, 1000, 1000, true, true);
    let effects = confirm_order(&mut ctx).unwrap();
    assert_eq!(effects.len(), 2);
    match (&effects[0], &effects[1]) {
        (
            Effect::MoveLamports { from: f0, to: t0, amount: a0 },
            Effect::MoveLamports { from: f1, to: t1, amount: a1 },
        ) => {
            assert_eq!((*f0, *t0, *a0), (key(POOL_KEY), key(BUYER), 980));
            assert_eq!((*f1, *t1, *a1), (key(POOL_KEY), key(ADMIN), 20));
        }
        _ => panic!("expected lamport moves"),
    }
    assert_eq!(ctx.offer_data.token_amount, 0);
    assert_eq!(ctx.offer_data.bought, 1000);
    assert!(ctx.offer_data.status);
    assert_eq!(ctx.order_data.status, 1);
}

#[test]
fn confirm_order_pays_tokens_signed_by_pool() {
    let mut ctx = confirm_ctx(POOL_OWNER, 250, 5000, 2000, false, true);
    let effects = confirm_order(&mut ctx).unwrap();
    assert_eq!(amount_of(&effects[0]), 1950);
    assert_eq!(amount_of(&effects[1]), 50);
    for (e, dest) in effects.iter().zip([key(11), key(12)]) {
        match e {
            Effect::Invoke(c) => {
                assert_eq!(c.instruction.accounts[0].key, key(10));
                assert_eq!(c.instruction.accounts[1].key, dest);
                assert_eq!(c.instruction.accounts[2].key, key(POOL_KEY));
                assert_eq!(c.signer_seeds, vec![vec![RAND; 32], vec![253u8]]);
                assert_eq!(c.on_failure, PoolError::TokenTransferFailed);
            }
            _ => panic!("expected a call"),
        }
    }
    assert_eq!(ctx.offer_data.token_amount, 3000);
    assert_eq!(ctx.offer_data.bought, 2000);
    assert_eq!(ctx.order_data.status, 1);
}

#[test]
fn confirm_order_rounds_each_share_down() {
    let mut ctx = confirm_ctx(SELLER, 200, 999, 999, true, true);
    let effects = confirm_order(&mut ctx).unwrap();
    let (a, b) = (amount_of(&effects[0]), amount_of(&effects[1]));
    assert_eq!((a, b), (979, 19));
    assert_eq!(a + b, 998);
}

#[test]
fn confirm_order_refusals() {
    let mut done = confirm_ctx(SELLER, 200, 1000, 10, true, true);
    done.order_data.status = 1;
    assert!(matches!(confirm_order(&mut done), Err(Failure::Pool(PoolError::IsDestroyed))));
    let mut unconfirmed = confirm_ctx(SELLER, 200, 1000, 10, true, false);
    assert!(matches!(confirm_order(&mut unconfirmed), Err(Failure::Pool(PoolError::BuyerNotConfirm))));
    let mut stranger = confirm_ctx(STRANGER, 200, 1000, 10, true, true);
    assert!(matches!(confirm_order(&mut stranger), Err(Failure::Pool(PoolError::NotAdmin))));
    assert_eq!(stranger.offer_data.token_amount, 1000);
    assert_eq!(stranger.order_data.status, 0);
    let mut buyer = confirm_ctx(BUYER, 200, 1000, 10, true, true);
    assert!(matches!(confirm_order(&mut buyer), Err(Failure::Pool(PoolError::NotAdmin))));
    let mut bad_program = confirm_ctx(SELLER, 200, 1000, 10, false, true);
    bad_program.token_program = key(0);
    assert!(matches!(confirm_order(&mut bad_program), Err(Failure::Program(INCORRECT_PROGRAM_ID))));
    assert_eq!(bad_program.order_data.status, 0);
}

#[test]
fn confirm_then_cancel_is_refused() {
    let mut ctx = confirm_ctx(SELLER, 200, 1000, 100, true, true);
    confirm_order(&mut ctx).unwrap();
    let mut again = ctx.clone();
    assert!(matches!(confirm_order(&mut again), Err(Failure::Pool(PoolError::IsDestroyed))));
    let mut cancel = cancel_ctx(SELLER, true, ctx.order_data.clone());
    assert!(matches!(cancel_order(&mut cancel), Err(Failure::Pool(PoolError::IsCompleted))));
}

#[test]
fn dispute_by_buyer_or_seller() {
    let mut ctx = Dispute { owner: key(BUYER), order_data: open_order(10, false) };
    assert_eq!(create_dispute(&mut ctx, 3, "late".into(), "img".into()), Ok(()));
    assert_eq!(ctx.order_data.dispute_reason, 3);
    assert_eq!(ctx.order_data.dispute_explain, "late");
    assert_eq!(ctx.order_data.dispute_img, "img");
    let mut seller = Dispute { owner: key(SELLER), order_data: open_order(10, false) };
    assert_eq!(create_dispute(&mut seller, 1, "a".into(), "b".into()), Ok(()));
    let mut stranger = Dispute { owner: key(STRANGER), order_data: open_order(10, false) };
    assert_eq!(create_dispute(&mut stranger, 1, "a".into(), "b".into()), Err(PoolError::NotBuyer));
    assert_eq!(stranger.order_data.dispute_reason, 0);
}

fn cancel_ctx(signer: u8, sol: bool, order: OrderData) -> CancelOrder {
    CancelOrder {
        owner: key(signer),
        pool_key: key(POOL_KEY),
        pool: pool(200),
        order_data: order,
        offer_data: offer(1000, sol),
        pool_account: key(40),
        seller_account: key(41),
        seller: key(SELLER),
        token_program: Address { bytes: TOKEN_PROGRAM },
    }
}

#[test]
fn cancel_order_refunds_seller() {
    let mut ctx = cancel_ctx(BUYER, true, open_order(300, false));
    let effects = cancel_order(&mut ctx).unwrap();
    match &effects[0] {
        Effect::MoveLamports { from, to, amount } => {
            assert_eq!((*from, *to, *amount), (key(POOL_KEY), key(SELLER), 300));
        }
        _ => panic!("expected a lamport move"),
    }
    assert_eq!(ctx.order_data.status, 2);
    let mut tokens = cancel_ctx(POOL_OWNER, false, open_order(300, false));
    let effects = cancel_order(&mut tokens).unwrap();
    assert_eq!(amount_of(&effects[0]), 300);
    match &effects[0] {
        Effect::Invoke(c) => {
            assert_eq!(c.instruction.accounts[0].key, key(40));
            assert_eq!(c.instruction.accounts[1].key, key(41));
            assert_eq!(c.signer_seeds, vec![vec![RAND; 32], vec![253u8]]);
        }
        _ => panic!("expected a call"),
    }
}

#[test]
fn cancel_order_refusals() {
    let mut stranger = cancel_ctx(STRANGER, true, open_order(300, false));
    assert!(matches!(cancel_order(&mut stranger), Err(Failure::Pool(PoolError::NotCreater))));
    let mut done_order = open_order(300, true);
    done_order.status = 1;
    let mut done = cancel_ctx(SELLER, true, done_order);
    assert!(matches!(cancel_order(&mut done), Err(Failure::Pool(PoolError::IsCompleted))));
    assert_eq!(done.order_data.status, 1);
}

#[test]
fn user_lifecycle() {
    let mut create = CreateUser {
        owner: key(STRANGER),
        pool_key: key(POOL_KEY),
        pool: pool(200),
        user_info: UserInfo { nickname: "old".into(), thumbs_up: 5, ..Default::default() },
        user: key(BUYER),
    };
    assert_eq!(create_user(&mut create), Ok(()));
    assert_eq!(create.user_info.user, key(BUYER));
    assert_eq!(create.user_info.pool, key(POOL_KEY));
    assert!(!create.user_info.verified);
    assert_eq!((create.user_info.thumbs_up, create.user_info.thumbs_down), (0, 0));
    assert_eq!(create.user_info.nickname, "old");

    let mut verify = VerifyUser { owner: key(POOL_OWNER), pool: pool(200), user_info: create.user_info.clone(), user: key(BUYER) };
    assert_eq!(verify_user(&mut verify), Ok(()));
    assert!(verify.user_info.verified);
    let mut not_owner = VerifyUser { owner: key(BUYER), pool: pool(200), user_info: create.user_info.clone(), user: key(BUYER) };
    assert_eq!(verify_user(&mut not_owner), Err(PoolError::NotAdmin));
    assert!(!not_owner.user_info.verified);
}

#[test]
fn update_user_keeps_unset_fields() {
    let info = UserInfo { nickname: "bob".into(), language: 2, region: 3, ..Default::default() };
    let mut ctx = UpdateUser { owner: key(BUYER), pool: pool(200), user_info: info.clone() };
    assert_eq!(update_user(&mut ctx, "".into(), 0, 0), Ok(()));
    assert_eq!(ctx.user_info.nickname, "bob");
    assert_eq!((ctx.user_info.language, ctx.user_info.region), (2, 3));
    assert_eq!(update_user(&mut ctx, "alice".into(), 0, 9), Ok(()));
    assert_eq!(ctx.user_info.nickname, "alice");
    assert_eq!((ctx.user_info.language, ctx.user_info.region), (2, 9));
    assert_eq!(update_user(&mut ctx, "".into(), 4, 0), Ok(()));
    assert_eq!((ctx.user_info.language, ctx.user_info.region), (4, 9));
}

#[test]
fn thumb_user_counts_one_vote() {
    let mut ctx = ThumbUser {
        owner: key(SELLER),
        pool: pool(200),
        user_info: UserInfo { thumbs_up: 2, thumbs_down: 1, ..Default::default() },
        order_data: open_order(1, true),
    };
    assert_eq!(thumb_user(&mut ctx, true), Ok(()));
    assert_eq!((ctx.user_info.thumbs_up, ctx.user_info.thumbs_down), (3, 1));
    assert!(ctx.order_data.feedback);
    assert_eq!(thumb_user(&mut ctx, false), Ok(()));
    assert_eq!((ctx.user_info.thumbs_up, ctx.user_info.thumbs_down), (3, 2));
}

#[test]
fn fresh_order_can_be_cancelled_but_not_confirmed() {
    let mut create = create_order_ctx(1000, true);
    create_order(&mut create, 250, "r".into(), "p".into(), "a".into(), "e".into()).unwrap();
    let order = create.order_data.clone();
    let mut confirm = confirm_ctx(SELLER, 200, 1000, 0, true, false);
    confirm.order_data = order.clone();
    assert!(matches!(confirm_order(&mut confirm), Err(Failure::Pool(PoolError::BuyerNotConfirm))));
    let mut cancel = cancel_ctx(SELLER, true, order);
    let effects = cancel_order(&mut cancel).unwrap();
    assert_eq!(amount_of(&effects[0]), 250);
    assert_eq!(cancel.order_data.status, 2);
}

#[test]
fn sale_keeps_offer_total() {
    let mut ctx = confirm_ctx(SELLER, 200, 700, 300, true, true);
    ctx.offer_data.bought = 50;
    confirm_order(&mut ctx).unwrap();
    assert_eq!(ctx.offer_data.token_amount + ctx.offer_data.bought, 750);
    assert_eq!(ctx.offer_data.token_amount, 400);
    assert!(ctx.offer_data.status);
}

#[test]
fn pool_payout_pays_each_share() {
    let ctx = confirm_ctx(SELLER, 300, 1000, 1000, true, true);
    match pool_payout(&ctx, false).unwrap() {
        Effect::MoveLamports { from, to, amount } => assert_eq!((from, to, amount), (key(POOL_KEY), key(BUYER), 970)),
        _ => panic!("expected a lamport move"),
    }
    match pool_payout(&ctx, true).unwrap() {
        Effect::MoveLamports { from, to, amount } => assert_eq!((from, to, amount), (key(POOL_KEY), key(ADMIN), 30)),
        _ => panic!("expected a lamport move"),
    }
    let tokens = confirm_ctx(SELLER, 300, 1000, 1000, false, true);
    let e = pool_payout(&tokens, true).unwrap();
    assert_eq!(amount_of(&e), 30);
    let mut bad = confirm_ctx(SELLER, 300, 1000, 1000, false, true);
    bad.token_program = key(0);
    assert!(matches!(pool_payout(&bad, false), Err(Failure::Program(INCORRECT_PROGRAM_ID))));
}

#[test]
fn no_payout_before_buyer_confirms() {
    let mut create = create_order_ctx(1000, false);
    create_order(&mut create, 300, "r".into(), "p".into(), "a".into(), "e".into()).unwrap();
    let mut order = create.order_data.clone();
    let mut stranger_confirm = BuyerConfirm { owner: key(SELLER), order_data: order.clone() };
    assert_eq!(buyer_confirm(&mut stranger_confirm), Err(PoolError::NotBuyer));
    order = stranger_confirm.order_data;
    let mut dispute = Dispute { owner: key(BUYER), order_data: order };
    create_dispute(&mut dispute, 2, "slow".into(), "i".into()).unwrap();
    let mut thumb = ThumbUser { owner: key(BUYER), pool: pool(200), user_info: UserInfo::default(), order_data: dispute.order_data };
    thumb_user(&mut thumb, false).unwrap();
    let mut confirm = confirm_ctx(SELLER, 200, 1000, 0, false, false);
    confirm.order_data = thumb.order_data;
    assert!(matches!(confirm_order(&mut confirm), Err(Failure::Pool(PoolError::BuyerNotConfirm))));
}

#[test]
fn order_is_paid_out_once() {
    let mut ctx = confirm_ctx(SELLER, 200, 1000, 100, true, true);
    confirm_order(&mut ctx).unwrap();
    let mut dispute = Dispute { owner: key(BUYER), order_data: ctx.order_data.clone() };
    create_dispute(&mut dispute, 1, "x".into(), "y".into()).unwrap();
    let mut again = BuyerConfirm { owner: key(BUYER), order_data: dispute.order_data };
    buyer_confirm(&mut again).unwrap();
    assert_eq!(again.order_data.status, 1);
    let mut second = confirm_ctx(POOL_OWNER, 200, 900, 100, true, true);
    second.order_data = again.order_data.clone();
    assert!(matches!(confirm_order(&mut second), Err(Failure::Pool(PoolError::IsDestroyed))));
    let mut cancel = cancel_ctx(POOL_OWNER, true, again.order_data);
    assert!(matches!(cancel_order(&mut cancel), Err(Failure::Pool(PoolError::IsCompleted))));
}

#[test]
fn refund_reverses_escrow() {
    let mut create = create_order_ctx(1000, false);
    let escrow = create_order(&mut create, 640, "r".into(), "p".into(), "a".into(), "e".into()).unwrap();
    let mut dispute = Dispute { owner: key(SELLER), order_data: create.order_data.clone() };
    create_dispute(&mut dispute, 4, "no pay".into(), "".into()).unwrap();
    let mut cancel = CancelOrder {
        owner: key(SELLER),
        pool_key: key(POOL_KEY),
        pool: pool(200),
        order_data: dispute.order_data,
        offer_data: offer(1000, false),
        pool_account: create.pool_account,
        seller_account: create.seller_account,
        seller: key(SELLER),
        token_program: create.token_program,
    };
    let refund = cancel_order(&mut cancel).unwrap();
    match (&escrow[0], &refund[0]) {
        (Effect::Invoke(inward), Effect::Invoke(back)) => {
            assert_eq!(inward.instruction.accounts[0].key, back.instruction.accounts[1].key);
            assert_eq!(inward.instruction.accounts[1].key, back.instruction.accounts[0].key);
            assert_eq!(inward.instruction.data, back.instruction.data);
            assert_eq!(back.instruction.accounts[2].key, key(POOL_KEY));
        }
        _ => panic!("expected token calls"),
    }
}

fn offer_ctx() -> CreateOffer {
    CreateOffer {
        owner: key(SELLER),
        pool_key: key(POOL_KEY),
        pool: pool(200),
        admin_account: key(20),
        pool_account: key(21),
        buyer_account: key(22),
        token: key(23),
        offer_data: OfferData::default(),
        token_program: Address { bytes: TOKEN_PROGRAM },
        clock: 7,
    }
}

#[test]
fn create_offer_outside_limits_is_refused() {
    for (amount, max, min) in [(5000u64, 3000u64, 100u64), (50, 3000, 100), (100, 3000, 100), (3000, 3000, 100), (0, 0, 0)] {
        let mut ctx = offer_ctx();
        let r = create_offer(&mut ctx, "USD".into(), amount, "1".into(), max, min, "b".into(), 1, "k".into(), "t".into(), true);
        assert_eq!(r, Err(PoolError::InvalidOfferLimits));
        assert_eq!(ctx.offer_data.token_amount, 0);
        assert!(!ctx.offer_data.status);
        assert_eq!(ctx.offer_data.fiat, "");
    }
    let mut ok = offer_ctx();
    let r = create_offer(&mut ok, "USD".into(), 101, "1".into(), 102, 100, "b".into(), 1, "k".into(), "t".into(), true);
    assert_eq!(r, Ok(()));
    assert_eq!(ok.offer_data.token_amount, 101);
    assert_eq!(PoolError::InvalidOfferLimits.message(), "Offer amount is not within its limits");
}

#[test]
fn settlement_fits_for_ordinary_orders() {
    let ctx = confirm_ctx(SELLER, 200, 1000, 1000, true, true);
    assert!(matches!(confirm_order_settlement(&ctx), Settlement::Fits));
    let refused = confirm_ctx(STRANGER, 20000, 1000, 1000, true, true);
    assert!(matches!(confirm_order_settlement(&refused), Settlement::Fits));
}

#[test]
fn settlement_stops_where_the_arithmetic_overflows() {
    let fee_too_high = confirm_ctx(SELLER, 10001, 1000, 1000, true, true);
    match confirm_order_settlement(&fee_too_high) {
        Settlement::PayThenOverflow(paid) => assert!(paid.is_empty()),
        Settlement::Fits => panic!("expected an overflow"),
    }
    let debit_too_large = confirm_ctx(SELLER, 200, 500, 1000, true, true);
    match confirm_order_settlement(&debit_too_large) {
        Settlement::PayThenOverflow(paid) => {
            assert_eq!(paid.len(), 2);
            assert_eq!(amount_of(&paid[0]), 980);
            assert_eq!(amount_of(&paid[1]), 20);
        }
        Settlement::Fits => panic!("expected an overflow"),
    }
    let fee_share_too_large = confirm_ctx(SELLER, 9000, u64::MAX, u64::MAX / 5000, true, true);
    match confirm_order_settlement(&fee_share_too_large) {
        Settlement::PayThenOverflow(paid) => {
            assert_eq!(paid.len(), 1);
            assert_eq!(amount_of(&paid[0]), (u64::MAX / 5000) * 1000 / 10000);
        }
        Settlement::Fits => panic!("expected an overflow"),
    }
}
