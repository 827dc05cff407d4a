use vstd::prelude::*;
use crate::error::PoolError;
use vstd::bytes::spec_u64_to_le_bytes;
use crate::address::Address;
use crate::state::{
    Pool, OfferData, OrderData, UserInfo, FEE_BASIS, ORDER_OPEN, ORDER_COMPLETED,
};
use crate::accounts::{CreateOrder, ConfirmOrder, CancelOrder};
use crate::cpi::{Effect, is_token_transfer, spl_token_program_id, writable, readonly_signer};
use crate::program::{
    OrderStep, order_step, order_history, is_pool_payment, buyer_payout, fee_payout,
    offer_after_sale, updated_profile, created_order, confirm_order_rejection,
    confirm_order_proceeds, cancel_order_rejection, offer_limits_hold, buyer_share_fits,
    settlement_fits,
};

verus! {

/// When an order completes, the buyer's share and the fee together account for
/// the whole escrowed amount, except for at most one unit lost to rounding
/// down; that unit is lost exactly when `sell_amount * fee` is not a multiple
/// of the fee basis.
pub proof fn payout_split(sell_amount: u64, fee: u64)
    requires
        fee <= FEE_BASIS,
    ensures
        buyer_payout(sell_amount, fee) + fee_payout(sell_amount, fee) == sell_amount - (if (
        sell_amount * fee) % (FEE_BASIS as int) == 0 {
            0int
        } else {
            1int
        }),
        buyer_payout(sell_amount, fee) + fee_payout(sell_amount, fee) <= sell_amount,
        sell_amount - 1 <= buyer_payout(sell_amount, fee) + fee_payout(sell_amount, fee),
        0 <= buyer_payout(sell_amount, fee),
        0 <= fee_payout(sell_amount, fee),
{
    let s = sell_amount as int;
    let f = fee as int;
    let q = (s * f) / 10000;
    let r = (s * f) % 10000;
    assert(s * f == 10000 * q + r && 0 <= r < 10000) by (nonlinear_arith)
        requires
            q == (s * f) / 10000,
            r == (s * f) % 10000,
    ;
    assert(s * (10000 - f) == 10000 * s - s * f) by (nonlinear_arith);
    assert(s * (10000 - f) == 10000 * (s - q - 1) + (10000 - r)) by (nonlinear_arith)
        requires
            s * (10000 - f) == 10000 * s - s * f,
            s * f == 10000 * q + r,
    ;
    if r == 0 {
        assert(s * (10000 - f) == 10000 * (s - q)) by (nonlinear_arith)
            requires
                s * (10000 - f) == 10000 * s - s * f,
                s * f == 10000 * q,
        ;
        assert((s * (10000 - f)) / 10000 == s - q) by (nonlinear_arith)
            requires
                s * (10000 - f) == 10000 * (s - q),
        ;
    } else {
        assert((s * (10000 - f)) / 10000 == s - q - 1) by (nonlinear_arith)
            requires
                s * (10000 - f) == 10000 * (s - q - 1) + (10000 - r),
                0 < r < 10000,
        ;
    }
    assert(0 <= s * (10000 - f)) by (nonlinear_arith)
        requires
            0 <= s,
            f <= 10000,
    ;
    assert(0 <= s * f) by (nonlinear_arith)
        requires
            0 <= s,
            0 <= f,
    ;
}

/// Completing an order moves its amount from what the offer still has to
/// what it has sold: the sum of the two does not change.
pub proof fn sale_keeps_offer_total(offer: OfferData, sell_amount: u64)
    requires
        sell_amount <= offer.token_amount,
        offer.bought + sell_amount <= u64::MAX,
    ensures
        offer_after_sale(offer, sell_amount).token_amount + offer_after_sale(offer, sell_amount).bought
            == offer.token_amount + offer.bought,
        offer_after_sale(offer, sell_amount).token_amount == offer.token_amount - sell_amount,
{
}

/// A completed order is final: confirming it again is refused as destroyed,
/// and cancelling it is refused (as completed, or for a signer who has no
/// say over it).
pub proof fn completed_order_is_final(confirm: ConfirmOrder, cancel: CancelOrder)
    requires
        confirm.order_data.status == ORDER_COMPLETED,
        cancel.order_data.status == ORDER_COMPLETED,
    ensures
        confirm_order_rejection(confirm) == Some(PoolError::IsDestroyed),
        cancel_order_rejection(cancel) is Some,
        cancel.owner@ == cancel.order_data.owner@ ==> cancel_order_rejection(cancel) == Some(
            PoolError::IsCompleted,
        ),
{
}

/// A freshly created order is open and holds exactly the amount escrowed for
/// it: its seller may cancel it (and is refunded that amount), while it cannot
/// be confirmed before the buyer confirms payment.
pub proof fn fresh_order_is_open(
    create: CreateOrder,
    sell_amount: u64,
    receive_amount: String,
    payment_option: String,
    account_name: String,
    email_address: String,
    confirm: ConfirmOrder,
    cancel: CancelOrder,
)
    requires
        confirm.order_data == created_order(create, sell_amount, receive_amount, payment_option,
            account_name, email_address),
        cancel.order_data == confirm.order_data,
        cancel.owner == create.owner,
    ensures
        confirm.order_data.sell_amount == sell_amount,
        confirm.order_data.status == ORDER_OPEN,
        confirm_order_rejection(confirm) == Some(PoolError::BuyerNotConfirm),
        cancel_order_rejection(cancel) is None,
{
}

/// An update of a profile that gives no new nickname, language or region
/// leaves the profile as it was.
pub proof fn empty_update_keeps_profile(info: UserInfo, nickname: String)
    requires
        nickname@.len() == 0,
    ensures
        updated_profile(info, nickname, 0, 0) == info,
{
}

/// Over any history of an order, its parties, its offer, its pool and its
/// amount stay as they were.
pub proof fn history_keeps_terms(steps: Seq<OrderStep>, states: Seq<OrderData>, j: int)
    requires
        order_history(steps, states),
        0 <= j < states.len(),
    ensures
        states[j].owner == states[0].owner,
        states[j].buyer == states[0].buyer,
        states[j].pool == states[0].pool,
        states[j].offer == states[0].offer,
        states[j].sell_amount == states[0].sell_amount,
    decreases j,
{
    if j > 0 {
        history_keeps_terms(steps, states, j - 1);
        let k = j - 1;
        assert(order_step(steps[k], states[k], states[k + 1]));
    }
}

/// Only `buyer_confirm` signed by the buyer marks an order as confirmed: over
/// a history without one, an unconfirmed, uncompleted order stays so.
pub proof fn unconfirmed_stays_unconfirmed(steps: Seq<OrderStep>, states: Seq<OrderData>, j: int)
    requires
        order_history(steps, states),
        0 <= j < states.len(),
        !states[0].buyer_confirm,
        states[0].status != ORDER_COMPLETED,
        forall|i: int| 0 <= i < steps.len() ==> (#[trigger] steps[i] matches OrderStep::BuyerConfirm {
            signer,
        } ==> signer@ != states[0].buyer@),
    ensures
        !states[j].buyer_confirm,
        states[j].status != ORDER_COMPLETED,
    decreases j,
{
    if j > 0 {
        unconfirmed_stays_unconfirmed(steps, states, j - 1);
        history_keeps_terms(steps, states, j - 1);
        let k = j - 1;
        assert(order_step(steps[k], states[k], states[k + 1]));
    }
}

/// Escrowed funds are never released before the buyer confirms: after
/// `create_order`, and any history of the order in which the buyer never
/// confirmed, `confirm_order` refuses with `BuyerNotConfirm` (and so asks for
/// no transfer).
pub proof fn no_payout_before_buyer_confirms(
    create: CreateOrder,
    sell_amount: u64,
    receive_amount: String,
    payment_option: String,
    account_name: String,
    email_address: String,
    steps: Seq<OrderStep>,
    states: Seq<OrderData>,
    confirm: ConfirmOrder,
)
    requires
        states[0] == created_order(create, sell_amount, receive_amount, payment_option, account_name,
            email_address),
        order_history(steps, states),
        forall|i: int| 0 <= i < steps.len() ==> (#[trigger] steps[i] matches OrderStep::BuyerConfirm {
            signer,
        } ==> signer@ != create.buyer@),
        confirm.order_data == states.last(),
    ensures
        confirm_order_rejection(confirm) == Some(PoolError::BuyerNotConfirm),
{
    unconfirmed_stays_unconfirmed(steps, states, states.len() - 1);
}

/// A completed order stays completed, whatever instructions follow.
pub proof fn completed_stays_completed(steps: Seq<OrderStep>, states: Seq<OrderData>, j: int)
    requires
        order_history(steps, states),
        0 <= j < states.len(),
        states[0].status == ORDER_COMPLETED,
    ensures
        states[j].status == ORDER_COMPLETED,
    decreases j,
{
    if j > 0 {
        completed_stays_completed(steps, states, j - 1);
        let k = j - 1;
        assert(order_step(steps[k], states[k], states[k + 1]));
    }
}

/// An order is paid out at most once: once completed, any later
/// `confirm_order` on it, after any history, is refused as destroyed, and any
/// `cancel_order` is refused.
pub proof fn paid_out_at_most_once(
    steps: Seq<OrderStep>,
    states: Seq<OrderData>,
    confirm: ConfirmOrder,
    cancel: CancelOrder,
)
    requires
        order_history(steps, states),
        states[0].status == ORDER_COMPLETED,
        confirm.order_data == states.last(),
        cancel.order_data == states.last(),
    ensures
        confirm_order_rejection(confirm) == Some(PoolError::IsDestroyed),
        cancel_order_rejection(cancel) is Some,
{
    completed_stays_completed(steps, states, states.len() - 1);
    completed_order_is_final(confirm, cancel);
}

/// The refund of an order that has not completed reverses its escrow: after
/// `create_order` moved `sell_amount` tokens from the seller's token account
/// to the pool's on the seller's authority, and any history of the order,
/// the seller may cancel it, and the refund `cancel_order` asks for moves
/// exactly `sell_amount` tokens from that same pool token account back to
/// that same seller token account, on the pool's authority.
pub proof fn refund_reverses_escrow(
    create: CreateOrder,
    sell_amount: u64,
    receive_amount: String,
    payment_option: String,
    account_name: String,
    email_address: String,
    steps: Seq<OrderStep>,
    states: Seq<OrderData>,
    cancel: CancelOrder,
    refund: Effect,
)
    requires
        states[0] == created_order(create, sell_amount, receive_amount, payment_option, account_name,
            email_address),
        order_history(steps, states),
        states.last().status != ORDER_COMPLETED,
        cancel.order_data == states.last(),
        cancel.owner == create.owner,
        cancel.pool_account == create.pool_account,
        cancel.seller_account == create.seller_account,
        cancel.token_program == create.token_program,
        !cancel.offer_data.sol,
        is_pool_payment(refund, false, cancel.pool_key, cancel.pool, cancel.token_program,
            cancel.pool_account, cancel.seller_account, cancel.seller,
            cancel.order_data.sell_amount as int),
    ensures
        cancel_order_rejection(cancel) is None,
        refund matches Effect::Invoke(c) && is_token_transfer(c.instruction, create.token_program,
            create.pool_account, create.seller_account, cancel.pool_key, sell_amount),
{
    history_keeps_terms(steps, states, states.len() - 1);
}

/// Each field that `update_user` is given a new value for takes that value,
/// whatever the other arguments are: a non-empty nickname, a non-zero
/// language, a non-zero region. A field given no new value keeps its old one,
/// and the rest of the profile never changes.
pub proof fn profile_update_sets_given_fields(info: UserInfo, nickname: String, language: u8, region: u8)
    ensures
        nickname@.len() != 0 ==> updated_profile(info, nickname, language, region).nickname == nickname,
        nickname@.len() == 0 ==> updated_profile(info, nickname, language, region).nickname
            == info.nickname,
        language != 0 ==> updated_profile(info, nickname, language, region).language == language,
        language == 0 ==> updated_profile(info, nickname, language, region).language == info.language,
        region != 0 ==> updated_profile(info, nickname, language, region).region == region,
        region == 0 ==> updated_profile(info, nickname, language, region).region == info.region,
        updated_profile(info, nickname, language, region).user == info.user,
        updated_profile(info, nickname, language, region).pool == info.pool,
        updated_profile(info, nickname, language, region).verified == info.verified,
        updated_profile(info, nickname, language, region).thumbs_up == info.thumbs_up,
        updated_profile(info, nickname, language, region).thumbs_down == info.thumbs_down,
{
}

/// A completed sale debits the offer the amount sold and credits it as bought.
/// It changes the offer's status only when it sells the offer out, and then
/// marks it open; a sale that leaves part unsold keeps the status, so a closed
/// offer stays closed. Nothing else about the offer changes.
pub proof fn sale_updates_offer(offer: OfferData, sell_amount: u64)
    requires
        sell_amount <= offer.token_amount,
        offer.bought + sell_amount <= u64::MAX,
    ensures
        offer_after_sale(offer, sell_amount).token_amount == offer.token_amount - sell_amount,
        offer_after_sale(offer, sell_amount).bought == offer.bought + sell_amount,
        sell_amount < offer.token_amount ==> offer_after_sale(offer, sell_amount).status == offer.status,
        sell_amount == offer.token_amount ==> offer_after_sale(offer, sell_amount).status,
        ({
            let after = offer_after_sale(offer, sell_amount);
            after == OfferData {
                token_amount: after.token_amount,
                bought: after.bought,
                status: after.status,
                ..offer
            }
        }),
{
}

/// The order's buyer, its seller and the pool's owner may each cancel any
/// order that has not completed; anyone else is refused as `NotCreater`, and
/// a completed order is refused as `IsCompleted` even to them.
pub proof fn who_may_cancel(ctx: CancelOrder)
    ensures
        ({
            let party = ctx.owner@ == ctx.order_data.buyer@ || ctx.owner@ == ctx.order_data.owner@
                || ctx.owner@ == ctx.pool.owner@;
            &&& !party ==> cancel_order_rejection(ctx) == Some(PoolError::NotCreater)
            &&& party && ctx.order_data.status != ORDER_COMPLETED ==> cancel_order_rejection(ctx) is None
            &&& party && ctx.order_data.status == ORDER_COMPLETED ==> cancel_order_rejection(ctx)
                == Some(PoolError::IsCompleted)
        }),
{
}

/// A completed order is refused as destroyed; an order the buyer has not
/// confirmed is refused as unconfirmed; otherwise the pool's owner and the
/// order's seller may confirm it, whatever the kind of offer, and anyone else
/// is refused as `NotAdmin`. Confirmation pays out exactly when it is not
/// refused and, for a token offer, the token program is the right one.
pub proof fn who_may_confirm(ctx: ConfirmOrder)
    ensures
        ctx.order_data.status == ORDER_COMPLETED ==> confirm_order_rejection(ctx) == Some(
            PoolError::IsDestroyed,
        ),
        ctx.order_data.status != ORDER_COMPLETED && !ctx.order_data.buyer_confirm
            ==> confirm_order_rejection(ctx) == Some(PoolError::BuyerNotConfirm),
        ({
            let ready = ctx.order_data.status != ORDER_COMPLETED && ctx.order_data.buyer_confirm;
            let party = ctx.owner@ == ctx.pool.owner@ || ctx.owner@ == ctx.order_data.owner@;
            &&& ready && party ==> confirm_order_rejection(ctx) is None
            &&& ready && !party ==> confirm_order_rejection(ctx) == Some(PoolError::NotAdmin)
        }),
        confirm_order_proceeds(ctx) <==> confirm_order_rejection(ctx) is None && (ctx.offer_data.sol
            || ctx.token_program@ == spl_token_program_id()),
{
}

/// The order `create_order` records names its seller (the signer), its
/// buyer, its pool and the offer it was taken against, for SOL and token
/// offers alike; it holds the amount sold and the terms given, starts open and
/// unconfirmed at the current time, and keeps whatever dispute and feedback
/// the new account held.
pub proof fn created_order_records_the_trade(
    ctx: CreateOrder,
    sell_amount: u64,
    receive_amount: String,
    payment_option: String,
    account_name: String,
    email_address: String,
)
    ensures
        ({
            let o = created_order(ctx, sell_amount, receive_amount, payment_option, account_name,
                email_address);
            &&& o.owner == ctx.owner
            &&& o.buyer == ctx.buyer
            &&& o.pool == ctx.pool_key
            &&& o.offer == ctx.offer_key
            &&& o.sell_amount == sell_amount
            &&& o.receive_amount == receive_amount
            &&& o.payment_option == payment_option
            &&& o.account_name == account_name
            &&& o.email_address == email_address
            &&& o.created_time == ctx.clock
            &&& o.status == ORDER_OPEN
            &&& !o.buyer_confirm
            &&& !o.seller_confirm
            &&& o.dispute_reason == ctx.order_data.dispute_reason
            &&& o.dispute_explain == ctx.order_data.dispute_explain
            &&& o.dispute_img == ctx.order_data.dispute_img
            &&& o.feedback == ctx.order_data.feedback
        }),
{
}

/// The buyer's share and the fee are each the order's amount times their
/// part of the fee basis, rounded down: `fee_payout * 10000 <= sell * fee <
/// (fee_payout + 1) * 10000`, and likewise for the buyer's share with
/// `10000 - fee`.
pub proof fn payouts_round_down(sell_amount: u64, fee: u64)
    requires
        fee <= FEE_BASIS,
    ensures
        fee_payout(sell_amount, fee) * 10000 <= sell_amount * fee < (fee_payout(sell_amount, fee)
            + 1) * 10000,
        buyer_payout(sell_amount, fee) * 10000 <= sell_amount * (10000 - fee) < (buyer_payout(
            sell_amount,
            fee,
        ) + 1) * 10000,
{
    let s = sell_amount as int;
    let f = fee as int;
    assert(0 <= s * f) by (nonlinear_arith)
        requires
            0 <= s,
            0 <= f,
    ;
    assert(0 <= s * (10000 - f)) by (nonlinear_arith)
        requires
            0 <= s,
            f <= 10000,
    ;
    let a = s * f;
    let b = s * (10000 - f);
    assert((a / 10000) * 10000 <= a < (a / 10000 + 1) * 10000) by (nonlinear_arith)
        requires
            0 <= a,
    ;
    assert((b / 10000) * 10000 <= b < (b / 10000 + 1) * 10000) by (nonlinear_arith)
        requires
            0 <= b,
    ;
}

/// A payment out of the pool's escrow for a SOL offer moves lamports from the
/// pool's own account to the given wallet; for a token offer it is a call of
/// the token program that moves the amount from the pool's token account to
/// the given token account, with the pool's address as the signing authority
/// and the pool's seeds (its random key and bump) signing for it.
pub proof fn pool_payment_shape(
    e: Effect,
    sol: bool,
    pool_key: Address,
    pool: Pool,
    token_program: Address,
    pool_account: Address,
    token_account: Address,
    wallet: Address,
    amount: u64,
)
    requires
        is_pool_payment(e, sol, pool_key, pool, token_program, pool_account, token_account, wallet,
            amount as int),
    ensures
        sol ==> e == (Effect::MoveLamports { from: pool_key, to: wallet, amount }),
        !sol ==> (e matches Effect::Invoke(c) && {
            &&& c.instruction.program_id == token_program
            &&& c.instruction.accounts@ == seq![
                writable(pool_account),
                writable(token_account),
                readonly_signer(pool_key),
            ]
            &&& c.instruction.data@ == seq![3u8] + spec_u64_to_le_bytes(amount)
            &&& c.signer_seeds@.len() == 2
            &&& c.signer_seeds@[0]@ == pool.rand@
            &&& c.signer_seeds@[1]@ == seq![pool.bump]
            &&& c.on_failure == PoolError::TokenTransferFailed
        }),
{
}

/// An offer is acceptable exactly when its amount lies strictly between its
/// minimum and its maximum limit.
pub proof fn offer_limits_are_strict(token_amount: u64, max_limit: u64, min_limit: u64)
    ensures
        offer_limits_hold(token_amount, max_limit, min_limit) <==> min_limit < token_amount
            && token_amount < max_limit,
        token_amount <= min_limit ==> !offer_limits_hold(token_amount, max_limit, min_limit),
        token_amount >= max_limit ==> !offer_limits_hold(token_amount, max_limit, min_limit),
{
}

/// `confirm_order` asks only that the arithmetic it performs fits in a `u64`:
/// the fee is at most the basis and the buyer's share can be computed before
/// it pays; the fee's share can be computed, and the offer debited and credited
/// by the amount sold, when it goes on to settle. Any order whose numbers fit
/// meets both conditions.
pub proof fn confirm_order_asks_only_for_fitting_arithmetic(ctx: ConfirmOrder)
    ensures
        buyer_share_fits(ctx) <==> ctx.pool.fee <= FEE_BASIS && ctx.order_data.sell_amount * (
        FEE_BASIS - ctx.pool.fee) <= u64::MAX,
        settlement_fits(ctx) <==> ctx.order_data.sell_amount * ctx.pool.fee <= u64::MAX
            && ctx.order_data.sell_amount <= ctx.offer_data.token_amount && ctx.offer_data.bought
            + ctx.order_data.sell_amount <= u64::MAX,
{
}

} // verus!
