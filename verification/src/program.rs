use vstd::prelude::*;
use crate::address::Address;
use crate::error::{PoolError, Failure, INCORRECT_PROGRAM_ID};
use crate::state::{
    Pool, OfferData, OrderData, UserInfo, DEFAULT_FEE, FEE_BASIS, ORDER_OPEN, ORDER_COMPLETED,
    ORDER_CANCELLED,
};
use crate::accounts::{
    InitPool, UpdatePool, CreateOffer, UpdateOffer, CancelOffer, CreateOrder, BuyerConfirm,
    ConfirmOrder, Dispute, CancelOrder, CreateUser, VerifyUser, UpdateUser, ThumbUser,
};
use crate::cpi::{Effect, spl_token_program_id, is_token_transfer, is_system_transfer};
use crate::utils::{
    TokenTransferParams, TokenTransferParamsWithoutSeed, SolTransferParamsWithoutSeed,
    spl_token_transfer, spl_token_transfer_without_seed, sol_transfer_without_seed,
};

verus! {

/// Sets up a new pool run by the signer, with the default fee.
pub fn init_pool(ctx: &mut InitPool, bump: u8) -> (r: Result<(), PoolError>)
    ensures
        r is Ok,
        *final(ctx) == (InitPool {
            pool: Pool {
                owner: old(ctx).owner,
                rand: old(ctx).rand,
                admin: old(ctx).admin,
                fee: DEFAULT_FEE,
                bump,
            },
            ..*old(ctx)
        }),
{
    ctx.pool.owner = ctx.owner;
    ctx.pool.rand = ctx.rand;
    ctx.pool.admin = ctx.admin;
    ctx.pool.fee = DEFAULT_FEE;
    ctx.pool.bump = bump;
    Ok(())
}

/// Sets the pool's fee; only the pool's owner may.
pub fn update_pool(ctx: &mut UpdatePool, fee: u64) -> (r: Result<(), PoolError>)
    ensures
        r is Err <==> old(ctx).owner@ != old(ctx).pool.owner@,
        r matches Err(e) ==> e == PoolError::NotAdmin && *final(ctx) == *old(ctx),
        r is Ok ==> *final(ctx) == (UpdatePool { pool: Pool { fee, ..old(ctx).pool }, ..*old(ctx) }),
{
    if !ctx.owner.same(&ctx.pool.owner) {
        return Err(PoolError::NotAdmin);
    }
    ctx.pool.fee = fee;
    Ok(())
}

/// Whether an offer's amount lies strictly between its minimum and maximum
/// limits, as every offer must.
pub open spec fn offer_limits_hold(token_amount: u64, max_limit: u64, min_limit: u64) -> bool {
    min_limit < token_amount && token_amount < max_limit
}

/// Records a new offer by the signer, open and with nothing bought yet. An
/// offer whose amount is not strictly between its minimum and maximum limits
/// is refused with `InvalidOfferLimits`, and nothing is recorded.
pub fn create_offer(
    ctx: &mut CreateOffer,
    fiat: String,
    token_amount: u64,
    rate: String,
    max_limit: u64,
    min_limit: u64,
    payment_options: String,
    time_limit: u64,
    public_key: String,
    offer_terms: String,
    sol: bool,
) -> (r: Result<(), PoolError>)
    ensures
        r is Ok <==> offer_limits_hold(token_amount, max_limit, min_limit),
        r matches Err(e) ==> e == PoolError::InvalidOfferLimits && *final(ctx) == *old(ctx),
        r is Ok ==> *final(ctx) == (CreateOffer {
            offer_data: OfferData {
                owner: old(ctx).owner,
                pool: old(ctx).pool_key,
                admin_account: old(ctx).admin_account,
                pool_account: old(ctx).pool_account,
                buyer_account: old(ctx).buyer_account,
                token: old(ctx).token,
                fiat,
                token_amount,
                bought: 0,
                rate,
                max_limit,
                min_limit,
                payment_options,
                time_limit,
                offer_terms,
                created_time: old(ctx).clock,
                public_key,
                sol,
                status: true,
            },
            ..*old(ctx)
        }),
{
    if !(min_limit < token_amount && token_amount < max_limit) {
        return Err(PoolError::InvalidOfferLimits);
    }
    let offer_data = &mut ctx.offer_data;
    offer_data.owner = ctx.owner;
    offer_data.pool = ctx.pool_key;
    offer_data.admin_account = ctx.admin_account;
    offer_data.pool_account = ctx.pool_account;
    offer_data.buyer_account = ctx.buyer_account;
    offer_data.token = ctx.token;
    offer_data.fiat = fiat;
    offer_data.token_amount = token_amount;
    offer_data.rate = rate;
    offer_data.max_limit = max_limit;
    offer_data.min_limit = min_limit;
    offer_data.payment_options = payment_options;
    offer_data.time_limit = time_limit;
    offer_data.offer_terms = offer_terms;
    offer_data.public_key = public_key;
    offer_data.created_time = ctx.clock;
    offer_data.bought = 0;
    offer_data.sol = sol;
    offer_data.status = true;
    Ok(())
}

/// Rewrites the terms of an offer; its parties, rate, amount bought and
/// status stay as they were.
pub fn update_offer(
    ctx: &mut UpdateOffer,
    fiat: String,
    token_amount: u64,
    max_limit: u64,
    min_limit: u64,
    payment_options: String,
    time_limit: u64,
    offer_terms: String,
) -> (r: Result<(), PoolError>)
    ensures
        r is Ok,
        *final(ctx) == (UpdateOffer {
            offer_data: OfferData {
                fiat,
                token_amount,
                max_limit,
                min_limit,
                payment_options,
                time_limit,
                offer_terms,
                ..old(ctx).offer_data
            },
            ..*old(ctx)
        }),
{
    ctx.offer_data.fiat = fiat;
    ctx.offer_data.token_amount = token_amount;
    ctx.offer_data.max_limit = max_limit;
    ctx.offer_data.min_limit = min_limit;
    ctx.offer_data.payment_options = payment_options;
    ctx.offer_data.time_limit = time_limit;
    ctx.offer_data.offer_terms = offer_terms;
    Ok(())
}

/// Closes an offer.
pub fn cancel_offer(ctx: &mut CancelOffer) -> (r: Result<(), PoolError>)
    ensures
        r is Ok,
        *final(ctx) == (CancelOffer {
            offer_data: OfferData { status: false, ..old(ctx).offer_data },
            ..*old(ctx)
        }),
{
    ctx.offer_data.status = false;
    Ok(())
}

/// Opens a fresh, unverified profile for `user` in the pool.
pub fn create_user(ctx: &mut CreateUser) -> (r: Result<(), PoolError>)
    ensures
        r is Ok,
        *final(ctx) == (CreateUser {
            user_info: UserInfo {
                user: old(ctx).user,
                pool: old(ctx).pool_key,
                verified: false,
                thumbs_up: 0,
                thumbs_down: 0,
                ..old(ctx).user_info
            },
            ..*old(ctx)
        }),
{
    ctx.user_info.user = ctx.user;
    ctx.user_info.pool = ctx.pool_key;
    ctx.user_info.verified = false;
    ctx.user_info.thumbs_up = 0;
    ctx.user_info.thumbs_down = 0;
    Ok(())
}

/// Marks a profile as verified; only the pool's owner may.
pub fn verify_user(ctx: &mut VerifyUser) -> (r: Result<(), PoolError>)
    ensures
        r is Err <==> old(ctx).owner@ != old(ctx).pool.owner@,
        r matches Err(e) ==> e == PoolError::NotAdmin && *final(ctx) == *old(ctx),
        r is Ok ==> *final(ctx) == (VerifyUser {
            user_info: UserInfo { verified: true, ..old(ctx).user_info },
            ..*old(ctx)
        }),
{
    if !ctx.owner.same(&ctx.pool.owner) {
        return Err(PoolError::NotAdmin);
    }
    ctx.user_info.verified = true;
    Ok(())
}

/// The profile after `update_user`: an empty nickname, or a zero language or
/// region, leaves that field as it was.
pub open spec fn updated_profile(info: UserInfo, nickname: String, language: u8, region: u8) -> UserInfo {
    UserInfo {
        nickname: if nickname@.len() == 0 { info.nickname } else { nickname },
        language: if language == 0 { info.language } else { language },
        region: if region == 0 { info.region } else { region },
        ..info
    }
}

/// Changes the nickname, language and region of a profile, each only when a
/// new value is given.
pub fn update_user(ctx: &mut UpdateUser, nickname: String, language: u8, region: u8) -> (r: Result<(), PoolError>)
    ensures
        r is Ok,
        *final(ctx) == (UpdateUser {
            user_info: updated_profile(old(ctx).user_info, nickname, language, region),
            ..*old(ctx)
        }),
{
    if !nickname.as_str().is_empty() {
        ctx.user_info.nickname = nickname;
    }
    if language != 0 {
        ctx.user_info.language = language;
    }
    if region != 0 {
        ctx.user_info.region = region;
    }
    Ok(())
}

/// Records one vote of feedback on a trader and marks the order as rated.
pub fn thumb_user(ctx: &mut ThumbUser, thumb_up: bool) -> (r: Result<(), PoolError>)
    requires
        thumb_up ==> old(ctx).user_info.thumbs_up < u64::MAX,
        !thumb_up ==> old(ctx).user_info.thumbs_down < u64::MAX,
    ensures
        order_step(OrderStep::Thumb, old(ctx).order_data, final(ctx).order_data),
        r is Ok,
        final(ctx).user_info.thumbs_up + final(ctx).user_info.thumbs_down == old(ctx).user_info.thumbs_up
            + old(ctx).user_info.thumbs_down + 1,
        *final(ctx) == (ThumbUser {
            user_info: UserInfo {
                thumbs_up: if thumb_up { (old(ctx).user_info.thumbs_up + 1) as u64 } else { old(ctx).user_info.thumbs_up },
                thumbs_down: if thumb_up { old(ctx).user_info.thumbs_down } else { (old(ctx).user_info.thumbs_down + 1) as u64 },
                ..old(ctx).user_info
            },
            order_data: OrderData { feedback: true, ..old(ctx).order_data },
            ..*old(ctx)
        }),
{
    if thumb_up {
        ctx.user_info.thumbs_up = ctx.user_info.thumbs_up + 1;
    } else {
        ctx.user_info.thumbs_down = ctx.user_info.thumbs_down + 1;
    }
    ctx.order_data.feedback = true;
    Ok(())
}

/// The part of an order's amount that goes to the buyer when it completes.
pub open spec fn buyer_payout(sell_amount: u64, fee: u64) -> int {
    sell_amount * (FEE_BASIS - fee) / FEE_BASIS as int
}

/// The part of an order's amount that the pool keeps as its fee.
pub open spec fn fee_payout(sell_amount: u64, fee: u64) -> int {
    sell_amount * fee / FEE_BASIS as int
}

/// The seeds that sign for the pool's derived address: its random key and its bump.
pub open spec fn is_pool_signer_seeds(seeds: Seq<Vec<u8>>, pool: Pool) -> bool {
    &&& seeds.len() == 2
    &&& seeds[0]@ == pool.rand@
    &&& seeds[1]@ == seq![pool.bump]
}

/// The seeds that sign for the pool's derived address.
fn pool_signer_seeds(pool: &Pool) -> (r: Vec<Vec<u8>>)
    ensures
        is_pool_signer_seeds(r@, *pool),
{
    let mut rand: Vec<u8> = Vec::new();
    let mut i: usize = 0;
    while i < 32
        invariant
            0 <= i <= 32,
            pool.rand@.len() == 32,
            rand@ == pool.rand@.take(i as int),
        decreases 32 - i,
    {
        rand.push(pool.rand.bytes[i]);
        i = i + 1;
        assert(rand@ =~= pool.rand@.take(i as int));
    }
    assert(rand@ =~= pool.rand@);
    let mut bump: Vec<u8> = Vec::new();
    bump.push(pool.bump);
    let mut seeds: Vec<Vec<u8>> = Vec::new();
    seeds.push(rand);
    seeds.push(bump);
    assert(bump@ =~= seq![pool.bump]);
    seeds
}

/// `e` pays `amount` out of the pool's escrow: lamports from the pool's own
/// account to `wallet` when the offer is in SOL, otherwise tokens from the
/// pool's token account to `token_account`, signed for by the pool.
pub open spec fn is_pool_payment(
    e: Effect,
    sol: bool,
    pool_key: Address,
    pool: Pool,
    token_program: Address,
    pool_account: Address,
    token_account: Address,
    wallet: Address,
    amount: int,
) -> bool {
    if sol {
        e == (Effect::MoveLamports { from: pool_key, to: wallet, amount: amount as u64 })
    } else {
        &&& e matches Effect::Invoke(c)
        &&& is_token_transfer(c.instruction, token_program, pool_account, token_account, pool_key, amount as u64)
        &&& is_pool_signer_seeds(c.signer_seeds@, pool)
        &&& c.on_failure == PoolError::TokenTransferFailed
    }
}

/// The buyer of an order confirms that the fiat has been paid.
pub fn buyer_confirm(ctx: &mut BuyerConfirm) -> (r: Result<(), PoolError>)
    ensures
        order_step(OrderStep::BuyerConfirm { signer: old(ctx).owner }, old(ctx).order_data, final(ctx).order_data),
        r is Err <==> old(ctx).owner@ != old(ctx).order_data.buyer@,
        r matches Err(e) ==> e == PoolError::NotBuyer && *final(ctx) == *old(ctx),
        r is Ok ==> *final(ctx) == (BuyerConfirm {
            order_data: OrderData { buyer_confirm: true, ..old(ctx).order_data },
            ..*old(ctx)
        }),
{
    if !ctx.owner.same(&ctx.order_data.buyer) {
        return Err(PoolError::NotBuyer);
    }
    ctx.order_data.buyer_confirm = true;
    Ok(())
}

/// The buyer or the seller of an order raises a dispute about it.
pub fn create_dispute(
    ctx: &mut Dispute,
    dispute_reason: u8,
    dispute_explain: String,
    dispute_img: String,
) -> (r: Result<(), PoolError>)
    ensures
        order_step(
            OrderStep::Dispute { reason: dispute_reason, explain: dispute_explain, img: dispute_img },
            old(ctx).order_data,
            final(ctx).order_data,
        ),
        r is Err <==> old(ctx).owner@ != old(ctx).order_data.buyer@ && old(ctx).owner@
            != old(ctx).order_data.owner@,
        r matches Err(e) ==> e == PoolError::NotBuyer && *final(ctx) == *old(ctx),
        r is Ok ==> *final(ctx) == (Dispute {
            order_data: OrderData { dispute_reason, dispute_explain, dispute_img, ..old(ctx).order_data },
            ..*old(ctx)
        }),
{
    if !ctx.owner.same(&ctx.order_data.buyer) && !ctx.owner.same(&ctx.order_data.owner) {
        return Err(PoolError::NotBuyer);
    }
    ctx.order_data.dispute_reason = dispute_reason;
    ctx.order_data.dispute_explain = dispute_explain;
    ctx.order_data.dispute_img = dispute_img;
    Ok(())
}

/// The order that `create_order` records: the signer sells `sell_amount` of
/// the offer to `buyer`; the dispute and feedback fields stay as they were.
pub open spec fn created_order(
    ctx: CreateOrder,
    sell_amount: u64,
    receive_amount: String,
    payment_option: String,
    account_name: String,
    email_address: String,
) -> OrderData {
    OrderData {
        owner: ctx.owner,
        pool: ctx.pool_key,
        offer: ctx.offer_key,
        buyer: ctx.buyer,
        sell_amount,
        receive_amount,
        payment_option,
        account_name,
        email_address,
        buyer_confirm: false,
        seller_confirm: false,
        created_time: ctx.clock,
        status: ORDER_OPEN,
        ..ctx.order_data
    }
}

/// Takes an order of `sell_amount` against an offer and moves that amount
/// from the seller into the pool's escrow: tokens from the seller's token
/// account to the pool's, or lamports from the signer to the pool.
pub fn create_order(
    ctx: &mut CreateOrder,
    sell_amount: u64,
    receive_amount: String,
    payment_option: String,
    account_name: String,
    email_address: String,
) -> (r: Result<Vec<Effect>, Failure>)
    ensures
        sell_amount > old(ctx).offer.token_amount ==> r == Err::<Vec<Effect>, Failure>(
            Failure::Pool(PoolError::InvalidBuyAmount)),
        sell_amount <= old(ctx).offer.token_amount && !old(ctx).offer.sol && old(ctx).token_program@
            != spl_token_program_id() ==> r == Err::<Vec<Effect>, Failure>(
            Failure::Program(INCORRECT_PROGRAM_ID)),
        r is Ok <==> sell_amount <= old(ctx).offer.token_amount && (old(ctx).offer.sol
            || old(ctx).token_program@ == spl_token_program_id()),
        r is Err ==> *final(ctx) == *old(ctx),
        r matches Ok(effects) ==> {
            &&& effects@.len() == 1
            &&& effects@[0] matches Effect::Invoke(c)
            &&& c.signer_seeds@.len() == 0
            &&& if old(ctx).offer.sol {
                &&& is_system_transfer(c.instruction, old(ctx).owner, old(ctx).pool_key, sell_amount)
                &&& c.on_failure == PoolError::SOLTransferFailed
            } else {
                &&& is_token_transfer(c.instruction, old(ctx).token_program, old(ctx).seller_account,
                    old(ctx).pool_account, old(ctx).owner, sell_amount)
                &&& c.on_failure == PoolError::TokenTransferFailed
            }
            &&& *final(ctx) == (CreateOrder {
                order_data: created_order(*old(ctx), sell_amount, receive_amount, payment_option,
                    account_name, email_address),
                ..*old(ctx)
            })
        },
{
    if sell_amount > ctx.offer.token_amount {
        return Err(Failure::Pool(PoolError::InvalidBuyAmount));
    }
    let escrow = if !ctx.offer.sol {
        let params = TokenTransferParamsWithoutSeed {
            source: ctx.seller_account,
            destination: ctx.pool_account,
            authority: ctx.owner,
            token_program: ctx.token_program,
            amount: sell_amount,
        };
        match spl_token_transfer_without_seed(params) {
            Ok(c) => c,
            Err(e) => return Err(e),
        }
    } else {
        sol_transfer_without_seed(SolTransferParamsWithoutSeed {
            source: ctx.owner,
            destination: ctx.pool_key,
            amount: sell_amount,
        })
    };
    let order_data = &mut ctx.order_data;
    order_data.owner = ctx.owner;
    order_data.pool = ctx.pool_key;
    order_data.offer = ctx.offer_key;
    order_data.buyer = ctx.buyer;
    order_data.sell_amount = sell_amount;
    order_data.receive_amount = receive_amount;
    order_data.payment_option = payment_option;
    order_data.account_name = account_name;
    order_data.email_address = email_address;
    order_data.created_time = ctx.clock;
    order_data.buyer_confirm = false;
    order_data.seller_confirm = false;
    order_data.status = ORDER_OPEN;
    let mut effects: Vec<Effect> = Vec::new();
    effects.push(Effect::Invoke(escrow));
    Ok(effects)
}

/// Why `confirm_order` refuses an order, if it does: the order is already
/// completed, the buyer has not confirmed, or the signer is neither the pool's
/// owner nor the seller.
pub open spec fn confirm_order_rejection(ctx: ConfirmOrder) -> Option<PoolError> {
    if ctx.order_data.status == ORDER_COMPLETED {
        Some(PoolError::IsDestroyed)
    } else if !ctx.order_data.buyer_confirm {
        Some(PoolError::BuyerNotConfirm)
    } else if ctx.owner@ != ctx.pool.owner@ && ctx.owner@ != ctx.order_data.owner@ {
        Some(PoolError::NotAdmin)
    } else {
        None
    }
}

/// `confirm_order` goes on to pay out: it does not refuse the order, and for
/// a token offer the token program is the right one.
pub open spec fn confirm_order_proceeds(ctx: ConfirmOrder) -> bool {
    &&& confirm_order_rejection(ctx) is None
    &&& (ctx.offer_data.sol || ctx.token_program@ == spl_token_program_id())
}

/// The buyer's share of a payout can be computed within `u64`: the fee is at
/// most the fee basis and the product does not overflow.
pub open spec fn buyer_share_fits(ctx: ConfirmOrder) -> bool {
    let sell = ctx.order_data.sell_amount;
    let fee = ctx.pool.fee;
    &&& fee <= FEE_BASIS
    &&& sell * (FEE_BASIS - fee) <= u64::MAX
}

/// The rest of a payout stays within `u64`: the fee's share can be computed,
/// and the offer can be debited the order's amount and credited with it as
/// bought.
pub open spec fn settlement_fits(ctx: ConfirmOrder) -> bool {
    let sell = ctx.order_data.sell_amount;
    &&& sell * ctx.pool.fee <= u64::MAX
    &&& sell <= ctx.offer_data.token_amount
    &&& ctx.offer_data.bought + sell <= u64::MAX
}

/// The offer after an order of `sell_amount` against it completes.
pub open spec fn offer_after_sale(offer: OfferData, sell_amount: u64) -> OfferData {
    let left = (offer.token_amount - sell_amount) as u64;
    OfferData {
        token_amount: left,
        bought: (offer.bought + sell_amount) as u64,
        status: if left == 0 { true } else { offer.status },
        ..offer
    }
}

/// One of the two payments that complete an order: the buyer's share (to the
/// buyer's token account or wallet) or, with `to_admin`, the pool's fee (to
/// the admin's). `confirm_order` makes both, in that order.
pub fn pool_payout(ctx: &ConfirmOrder, to_admin: bool) -> (r: Result<Effect, Failure>)
    requires
        ctx.pool.fee <= FEE_BASIS,
        to_admin ==> ctx.order_data.sell_amount * ctx.pool.fee <= u64::MAX,
        !to_admin ==> ctx.order_data.sell_amount * (FEE_BASIS - ctx.pool.fee) <= u64::MAX,
    ensures
        r is Ok <==> ctx.offer_data.sol || ctx.token_program@ == spl_token_program_id(),
        r matches Err(f) ==> f == Failure::Program(INCORRECT_PROGRAM_ID),
        r matches Ok(e) ==> if to_admin {
            is_pool_payment(e, ctx.offer_data.sol, ctx.pool_key, ctx.pool, ctx.token_program,
                ctx.pool_account, ctx.admin_account, ctx.admin,
                fee_payout(ctx.order_data.sell_amount, ctx.pool.fee))
        } else {
            is_pool_payment(e, ctx.offer_data.sol, ctx.pool_key, ctx.pool, ctx.token_program,
                ctx.pool_account, ctx.buyer_account, ctx.buyer,
                buyer_payout(ctx.order_data.sell_amount, ctx.pool.fee))
        },
{
    let sell = ctx.order_data.sell_amount;
    let fee = ctx.pool.fee;
    let (amount, token_account, wallet) = if to_admin {
        (sell * fee / FEE_BASIS, ctx.admin_account, ctx.admin)
    } else {
        (sell * (FEE_BASIS - fee) / FEE_BASIS, ctx.buyer_account, ctx.buyer)
    };
    if ctx.offer_data.sol {
        return Ok(Effect::MoveLamports { from: ctx.pool_key, to: wallet, amount });
    }
    let c = spl_token_transfer(TokenTransferParams {
        source: ctx.pool_account,
        destination: token_account,
        amount,
        authority: ctx.pool_key,
        authority_signer_seeds: pool_signer_seeds(&ctx.pool),
        token_program: ctx.token_program,
    });
    match c {
        Ok(c) => Ok(Effect::Invoke(c)),
        Err(f) => Err(f),
    }
}

/// Completes an order whose buyer has confirmed payment: the escrowed amount
/// goes to the buyer less the pool's fee, the fee goes to the pool's admin,
/// the offer is debited the amount, and the order is marked completed.
pub fn confirm_order(ctx: &mut ConfirmOrder) -> (r: Result<Vec<Effect>, Failure>)
    requires
        confirm_order_rejection(*old(ctx)) is None ==> buyer_share_fits(*old(ctx)),
        confirm_order_proceeds(*old(ctx)) ==> settlement_fits(*old(ctx)),
    ensures
        order_step(OrderStep::Confirm, old(ctx).order_data, final(ctx).order_data),
        confirm_order_rejection(*old(ctx)) matches Some(e) ==> r == Err::<Vec<Effect>, Failure>(
            Failure::Pool(e)),
        confirm_order_rejection(*old(ctx)) is None && !old(ctx).offer_data.sol && old(ctx).token_program@
            != spl_token_program_id() ==> r == Err::<Vec<Effect>, Failure>(
            Failure::Program(INCORRECT_PROGRAM_ID)),
        r is Err ==> *final(ctx) == *old(ctx),
        r is Ok <==> confirm_order_proceeds(*old(ctx)),
        r matches Ok(effects) ==> {
            let o = *old(ctx);
            let sell = o.order_data.sell_amount;
            &&& effects@.len() == 2
            &&& is_pool_payment(effects@[0], o.offer_data.sol, o.pool_key, o.pool, o.token_program,
                o.pool_account, o.buyer_account, o.buyer, buyer_payout(sell, o.pool.fee))
            &&& is_pool_payment(effects@[1], o.offer_data.sol, o.pool_key, o.pool, o.token_program,
                o.pool_account, o.admin_account, o.admin, fee_payout(sell, o.pool.fee))
            &&& final(ctx).offer_data.token_amount + final(ctx).offer_data.bought
                == o.offer_data.token_amount + o.offer_data.bought
            &&& *final(ctx) == (ConfirmOrder {
                offer_data: offer_after_sale(o.offer_data, sell),
                order_data: OrderData { status: ORDER_COMPLETED, ..o.order_data },
                ..o
            })
        },
{
    if ctx.order_data.status == ORDER_COMPLETED {
        return Err(Failure::Pool(PoolError::IsDestroyed));
    }
    if !ctx.order_data.buyer_confirm {
        return Err(Failure::Pool(PoolError::BuyerNotConfirm));
    }
    if !ctx.owner.same(&ctx.pool.owner) && !ctx.owner.same(&ctx.order_data.owner) {
        return Err(Failure::Pool(PoolError::NotAdmin));
    }
    let sell = ctx.order_data.sell_amount;
    let first = match pool_payout(ctx, false) {
        Ok(e) => e,
        Err(f) => return Err(f),
    };
    let second = match pool_payout(ctx, true) {
        Ok(e) => e,
        Err(f) => return Err(f),
    };
    let mut effects: Vec<Effect> = Vec::new();
    effects.push(first);
    effects.push(second);
    ctx.offer_data.token_amount = ctx.offer_data.token_amount - sell;
    ctx.offer_data.bought = ctx.offer_data.bought + sell;
    ctx.order_data.status = ORDER_COMPLETED;
    if ctx.offer_data.token_amount == 0 {
        ctx.offer_data.status = true;
    }
    Ok(effects)
}

/// Why `cancel_order` refuses an order, if it does: the signer is neither the
/// buyer, the seller nor the pool's owner, or the order is already completed.
pub open spec fn cancel_order_rejection(ctx: CancelOrder) -> Option<PoolError> {
    if ctx.owner@ != ctx.order_data.buyer@ && ctx.owner@ != ctx.order_data.owner@ && ctx.owner@
        != ctx.pool.owner@ {
        Some(PoolError::NotCreater)
    } else if ctx.order_data.status == ORDER_COMPLETED {
        Some(PoolError::IsCompleted)
    } else {
        None
    }
}

/// Cancels an order that has not completed and returns its whole escrowed
/// amount to the seller.
pub fn cancel_order(ctx: &mut CancelOrder) -> (r: Result<Vec<Effect>, Failure>)
    ensures
        order_step(OrderStep::Cancel, old(ctx).order_data, final(ctx).order_data),
        cancel_order_rejection(*old(ctx)) matches Some(e) ==> r == Err::<Vec<Effect>, Failure>(
            Failure::Pool(e)),
        cancel_order_rejection(*old(ctx)) is None && !old(ctx).offer_data.sol && old(ctx).token_program@
            != spl_token_program_id() ==> r == Err::<Vec<Effect>, Failure>(
            Failure::Program(INCORRECT_PROGRAM_ID)),
        r is Err ==> *final(ctx) == *old(ctx),
        r is Ok <==> cancel_order_rejection(*old(ctx)) is None && (old(ctx).offer_data.sol
            || old(ctx).token_program@ == spl_token_program_id()),
        r matches Ok(effects) ==> {
            let o = *old(ctx);
            &&& effects@.len() == 1
            &&& is_pool_payment(effects@[0], o.offer_data.sol, o.pool_key, o.pool, o.token_program,
                o.pool_account, o.seller_account, o.seller, o.order_data.sell_amount as int)
            &&& *final(ctx) == (CancelOrder {
                order_data: OrderData { status: ORDER_CANCELLED, ..o.order_data },
                ..o
            })
        },
{
    if !ctx.owner.same(&ctx.order_data.buyer) && !ctx.owner.same(&ctx.order_data.owner)
        && !ctx.owner.same(&ctx.pool.owner) {
        return Err(Failure::Pool(PoolError::NotCreater));
    }
    if ctx.order_data.status == ORDER_COMPLETED {
        return Err(Failure::Pool(PoolError::IsCompleted));
    }
    let refund = if !ctx.offer_data.sol {
        let c = spl_token_transfer(TokenTransferParams {
            source: ctx.pool_account,
            destination: ctx.seller_account,
            amount: ctx.order_data.sell_amount,
            authority: ctx.pool_key,
            authority_signer_seeds: pool_signer_seeds(&ctx.pool),
            token_program: ctx.token_program,
        });
        match c {
            Ok(c) => Effect::Invoke(c),
            Err(e) => return Err(e),
        }
    } else {
        Effect::MoveLamports { from: ctx.pool_key, to: ctx.seller, amount: ctx.order_data.sell_amount }
    };
    ctx.order_data.status = ORDER_CANCELLED;
    let mut effects: Vec<Effect> = Vec::new();
    effects.push(refund);
    Ok(effects)
}

/// An instruction that works on an existing order. These five are the only
/// instructions of the program that write an order account: `create_order`
/// writes a new one, and no other instruction takes an order.
pub enum OrderStep {
    BuyerConfirm { signer: Address },
    Confirm,
    Dispute { reason: u8, explain: String, img: String },
    Cancel,
    Thumb,
}

/// What `step` can make of the order `before`, whether it succeeds or is
/// refused (a refused step leaves the order as it was).
pub open spec fn order_step(step: OrderStep, before: OrderData, after: OrderData) -> bool {
    match step {
        OrderStep::BuyerConfirm { signer } => if signer@ == before.buyer@ {
            after == OrderData { buyer_confirm: true, ..before }
        } else {
            after == before
        },
        OrderStep::Confirm => after == before || (before.status != ORDER_COMPLETED
            && before.buyer_confirm && after == OrderData { status: ORDER_COMPLETED, ..before }),
        OrderStep::Dispute { reason, explain, img } => after == before || after == OrderData {
            dispute_reason: reason,
            dispute_explain: explain,
            dispute_img: img,
            ..before
        },
        OrderStep::Cancel => after == before || (before.status != ORDER_COMPLETED && after
            == OrderData { status: ORDER_CANCELLED, ..before }),
        OrderStep::Thumb => after == OrderData { feedback: true, ..before },
    }
}

/// `states` is a history of one order under `steps`: each state is what the
/// step before it made of the state before that.
pub open spec fn order_history(steps: Seq<OrderStep>, states: Seq<OrderData>) -> bool {
    &&& states.len() == steps.len() + 1
    &&& forall|i: int| 0 <= i < steps.len() ==> #[trigger] order_step(steps[i], states[i], states[i + 1])
}

/// How `confirm_order` ends for given accounts: either its arithmetic fits
/// (or it refuses before any arithmetic, or cannot build its first payment),
/// so `confirm_order` applies; or a share, or the offer's debit or credit,
/// overflows `u64`, and the instruction aborts at that point after the
/// payments listed, in order, have been made.
pub enum Settlement {
    Fits,
    PayThenOverflow(Vec<Effect>),
}

/// Decides how `confirm_order` ends for these accounts. The buyer's share is
/// computed before any payment, the fee's share after the buyer is paid, and
/// the offer is debited and credited after both payments; an overflow at one
/// of these points aborts the instruction there.
pub fn confirm_order_settlement(ctx: &ConfirmOrder) -> (r: Settlement)
    ensures
        r is Fits <==> confirm_order_rejection(*ctx) is Some || (buyer_share_fits(*ctx) && (
        !confirm_order_proceeds(*ctx) || settlement_fits(*ctx))),
        r is Fits ==> (confirm_order_rejection(*ctx) is None ==> buyer_share_fits(*ctx)) && (
        confirm_order_proceeds(*ctx) ==> settlement_fits(*ctx)),
        r matches Settlement::PayThenOverflow(effects) ==> {
            let sell = ctx.order_data.sell_amount;
            &&& effects@.len() == (if !buyer_share_fits(*ctx) {
                0int
            } else if sell * ctx.pool.fee > u64::MAX {
                1int
            } else {
                2int
            })
            &&& effects@.len() >= 1 ==> is_pool_payment(effects@[0], ctx.offer_data.sol, ctx.pool_key,
                ctx.pool, ctx.token_program, ctx.pool_account, ctx.buyer_account, ctx.buyer,
                buyer_payout(sell, ctx.pool.fee))
            &&& effects@.len() >= 2 ==> is_pool_payment(effects@[1], ctx.offer_data.sol, ctx.pool_key,
                ctx.pool, ctx.token_program, ctx.pool_account, ctx.admin_account, ctx.admin,
                fee_payout(sell, ctx.pool.fee))
        },
{
    if ctx.order_data.status == ORDER_COMPLETED || !ctx.order_data.buyer_confirm || (!ctx.owner.same(
        &ctx.pool.owner) && !ctx.owner.same(&ctx.order_data.owner)) {
        return Settlement::Fits;
    }
    let sell = ctx.order_data.sell_amount;
    let fee = ctx.pool.fee;
    if fee > FEE_BASIS || sell.checked_mul(FEE_BASIS - fee).is_none() {
        return Settlement::PayThenOverflow(Vec::new());
    }
    let first = match pool_payout(ctx, false) {
        Ok(e) => e,
        Err(_) => return Settlement::Fits,
    };
    let fee_fits = sell.checked_mul(fee).is_some();
    let debit_fits = sell <= ctx.offer_data.token_amount;
    let credit_fits = ctx.offer_data.bought.checked_add(sell).is_some();
    if fee_fits && debit_fits && credit_fits {
        return Settlement::Fits;
    }
    let mut effects: Vec<Effect> = Vec::new();
    effects.push(first);
    if fee_fits {
        let second = match pool_payout(ctx, true) {
            Ok(e) => e,
            Err(_) => return Settlement::Fits,
        };
        effects.push(second);
    }
    Settlement::PayThenOverflow(effects)
}

} // verus!
