use crate::actions::{
    apply_request_action, check_status, request_action, request_action_ok, status_error,
};
use crate::constants::STATUS_ON_ICE;
use crate::errors::TradingError;
use crate::execute::{cancelled_position, refund_of, refund_ok, ActionOutcome};
use crate::fixed_point::fits_i128;
use crate::market::Market;
use crate::requests::{ExecuteRequest, Request, RequestType};
use crate::trading::{
    checked_price, marked, market_lookup, markets_with, position_lookup, positions_with,
    reading_lookup, PriceData, Trading,
};
use crate::transfers::{amount_of, no_transfers, with_transfer, SubmitResult};
use crate::types::{AccountId, AssetId, Position, PositionStatus, TradingConfig};
use soroban_sdk::Env;
use vstd::prelude::*;

verus! {

/// What stays fixed while a batch runs.
pub struct BatchContext {
    pub config: TradingConfig,
    pub vault: AccountId,
    pub token: AccountId,
    pub caller: AccountId,
    pub now: u64,
    pub prices: Seq<PriceData>,
}

/// What a batch changes as it runs.
pub struct BatchState {
    pub markets: Seq<Market>,
    pub positions: Seq<Position>,
    pub markets_to_update: Seq<AssetId>,
    pub positions_to_update: Seq<u32>,
    pub transfers: Map<u64, i128>,
    pub results: Seq<u32>,
}

/// The fixed part of a running batch.
pub open spec fn context_of(trading: Trading) -> BatchContext {
    BatchContext {
        config: trading.config,
        vault: trading.vault,
        token: trading.token,
        caller: trading.caller,
        now: trading.now,
        prices: trading.prices@,
    }
}

/// The changing part of a running batch.
pub open spec fn state_of(trading: Trading, result: SubmitResult) -> BatchState {
    BatchState {
        markets: trading.markets@,
        positions: trading.positions@,
        markets_to_update: trading.changed_markets_view(),
        positions_to_update: trading.changed_positions_view(),
        transfers: result.transfers_view(),
        results: result.results_view(),
    }
}

/// What a request has to work with, or why it cannot go ahead. The checks
/// come in this order: the position is cached, its status fits the request,
/// a fresh price is at hand, the market is cached.
pub open spec fn resolve(ctx: BatchContext, st: BatchState, req: Request) -> Result<
    (Position, Market, i128),
    TradingError,
> {
    match position_lookup(st.positions, req.position) {
        None => Err(TradingError::PositionNotFound),
        Some(position) => match status_error(req.action, position.status) {
            Some(error) => Err(error),
            None => match checked_price(reading_lookup(ctx.prices, position.asset), ctx.now) {
                Err(error) => Err(error),
                Ok(price) => match market_lookup(st.markets, position.asset) {
                    None => Err(TradingError::MarketNotFound),
                    Some(market) => Ok((position, market, price)),
                },
            },
        },
    }
}

/// `transfers` with `amount` credited to `account`; an amount of zero
/// leaves no trace.
pub open spec fn credited(transfers: Map<u64, i128>, account: AccountId, amount: i128) -> Map<
    u64,
    i128,
> {
    if amount != 0 {
        with_transfer(transfers, account, amount as int)
    } else {
        transfers
    }
}

/// The amount can be credited within 128 bits.
pub open spec fn credit_ok(transfers: Map<u64, i128>, account: AccountId, amount: i128) -> bool {
    amount != 0 ==> fits_i128(amount_of(transfers, account) + amount)
}

/// `transfers` after the payments of `outcome`: first the owner's, then the
/// vault's, then the keeper's.
pub open spec fn settled(
    transfers: Map<u64, i128>,
    ctx: BatchContext,
    outcome: ActionOutcome,
) -> Map<u64, i128> {
    credited(
        credited(
            credited(transfers, outcome.position.user, outcome.user_payout),
            ctx.vault,
            outcome.vault_transfer,
        ),
        ctx.caller,
        outcome.caller_fee,
    )
}

/// The payments of `outcome` can be recorded within 128 bits.
pub open spec fn settle_ok(
    transfers: Map<u64, i128>,
    ctx: BatchContext,
    outcome: ActionOutcome,
) -> bool {
    &&& credit_ok(transfers, outcome.position.user, outcome.user_payout)
    &&& credit_ok(
        credited(transfers, outcome.position.user, outcome.user_payout),
        ctx.vault,
        outcome.vault_transfer,
    )
    &&& credit_ok(
        credited(
            credited(transfers, outcome.position.user, outcome.user_payout),
            ctx.vault,
            outcome.vault_transfer,
        ),
        ctx.caller,
        outcome.caller_fee,
    )
}

/// The outcome of the request's action on what `resolve` found.
pub open spec fn outcome_of(ctx: BatchContext, req: Request, found: (
    Position,
    Market,
    i128,
)) -> ActionOutcome {
    request_action(ctx.config, req, found.0, found.1.refreshed(ctx.now), found.2)
}

/// Whether an action of this kind works on the market of its position.
/// Cancelling an order and setting a trigger do not.
pub open spec fn touches_market(action: RequestType) -> bool {
    !(action is Cancel || action is SetTakeProfit || action is SetStopLoss)
}

/// The state after a pending order is cancelled: the order is closed in
/// the cache and noted as changed, its collateral and the fees kept for it
/// are owed to its owner, and a zero joins the results.
pub open spec fn cancelled_state(st: BatchState, position: Position) -> BatchState {
    BatchState {
        positions: positions_with(st.positions, cancelled_position(position)),
        positions_to_update: marked(st.positions_to_update, position.id),
        transfers: credited(st.transfers, position.user, refund_of(position) as i128),
        results: st.results.push(0),
        ..st
    }
}

/// The state after a request that failed with `code`: the code joins the
/// results and nothing else changes.
pub open spec fn failed_state(st: BatchState, code: u32) -> BatchState {
    BatchState { results: st.results.push(code), ..st }
}

/// The request can be computed within 128 bits in this state.
pub open spec fn request_ok(ctx: BatchContext, st: BatchState, req: Request) -> bool {
    if req.action is Cancel {
        match position_lookup(st.positions, req.position) {
            None => true,
            Some(position) => position.status == PositionStatus::Pending ==> refund_ok(position)
                && credit_ok(st.transfers, position.user, refund_of(position) as i128),
        }
    } else {
        match resolve(ctx, st, req) {
            Err(_) => true,
            Ok(found) => {
                &&& found.1.refresh_ok(ctx.now)
                &&& request_action_ok(
                    ctx.config,
                    req,
                    found.0,
                    found.1.refreshed(ctx.now),
                    found.2 as int,
                )
                &&& outcome_of(ctx, req, found).code == 0 ==> settle_ok(
                    st.transfers,
                    ctx,
                    outcome_of(ctx, req, found),
                )
            },
        }
    }
}

/// The state after one request. A request that fails adds its error code
/// to the results and changes nothing else. A cancel needs neither price
/// nor market. Any other request that succeeds adds a zero, puts the
/// changed position back into the cache, and the market too where the
/// action works on it, notes them as changed and records the payments.
pub open spec fn apply_request(ctx: BatchContext, st: BatchState, req: Request) -> BatchState {
    if req.action is Cancel {
        match position_lookup(st.positions, req.position) {
            None => failed_state(st, TradingError::PositionNotFound.spec_code()),
            Some(position) => if position.status == PositionStatus::Pending {
                cancelled_state(st, position)
            } else {
                failed_state(st, TradingError::PositionNotPending.spec_code())
            },
        }
    } else {
        match resolve(ctx, st, req) {
            Err(error) => failed_state(st, error.spec_code()),
            Ok(found) => {
                let outcome = outcome_of(ctx, req, found);
                if outcome.code != 0 {
                    failed_state(st, outcome.code)
                } else {
                    BatchState {
                        markets: if touches_market(req.action) {
                            markets_with(st.markets, outcome.market)
                        } else {
                            st.markets
                        },
                        positions: positions_with(st.positions, outcome.position),
                        markets_to_update: if touches_market(req.action) {
                            marked(st.markets_to_update, outcome.market.asset)
                        } else {
                            st.markets_to_update
                        },
                        positions_to_update: marked(st.positions_to_update, outcome.position.id),
                        transfers: settled(st.transfers, ctx, outcome),
                        results: st.results.push(0),
                    }
                }
            },
        }
    }
}

/// The state after the requests, taken in order.
pub open spec fn apply_requests(ctx: BatchContext, st: BatchState, reqs: Seq<Request>) -> BatchState
    decreases reqs.len(),
{
    if reqs.len() == 0 {
        st
    } else {
        apply_requests(ctx, apply_request(ctx, st, reqs[0]), reqs.skip(1))
    }
}

/// Every request can be computed within 128 bits in the state in which it
/// is reached.
pub open spec fn requests_ok(ctx: BatchContext, st: BatchState, reqs: Seq<Request>) -> bool
    decreases reqs.len(),
{
    reqs.len() == 0 || (request_ok(ctx, st, reqs[0]) && requests_ok(
        ctx,
        apply_request(ctx, st, reqs[0]),
        reqs.skip(1),
    ))
}

fn credit(result: &mut SubmitResult, account: AccountId, amount: i128)
    requires
        credit_ok(old(result).transfers_view(), account, amount),
    ensures
        final(result).transfers_view() == credited(old(result).transfers_view(), account, amount),
        final(result).results == old(result).results,
{
    if amount != 0 {
        result.add_transfer(account, amount);
    }
}

/// Records the payments of `outcome`: the owner's, the vault's and the
/// keeper's, each where it is not zero.
pub fn record_payments(result: &mut SubmitResult, trading: &Trading, outcome: &ActionOutcome)
    requires
        settle_ok(old(result).transfers_view(), context_of(*trading), *outcome),
    ensures
        final(result).transfers_view() == settled(
            old(result).transfers_view(),
            context_of(*trading),
            *outcome,
        ),
        final(result).results == old(result).results,
{
    credit(result, outcome.position.user, outcome.user_payout);
    credit(result, trading.vault, outcome.vault_transfer);
    credit(result, trading.caller, outcome.caller_fee);
}

/// Gathers what a request needs, or the error that stops it.
fn resolve_request(trading: &Trading, req: &Request) -> (r: Result<
    (Position, Market, i128),
    TradingError,
>)
    requires
        trading.wf(),
    ensures
        forall|result: SubmitResult|
            r == #[trigger] resolve(context_of(*trading), state_of(*trading, result), *req),
{
    let position = match trading.load_position(req.position) {
        Ok(p) => p,
        Err(error) => {
            return Err(error);
        },
    };
    match check_status(req.action, position.status) {
        Some(error) => {
            return Err(error);
        },
        None => {},
    }
    let price = match trading.load_price(position.asset) {
        Ok(p) => p,
        Err(error) => {
            return Err(error);
        },
    };
    match trading.find_market(position.asset) {
        Some(i) => {
            proof {
                crate::lookup::lemma_first_at(
                    crate::trading::market_keys(trading.markets@),
                    position.asset as int,
                    i as int,
                );
            }
            Ok((position, trading.markets[i], price))
        },
        None => Err(TradingError::MarketNotFound),
    }
}

/// Cancels the pending order that a request names.
fn process_cancel(trading: &mut Trading, result: &mut SubmitResult, req: &Request)
    requires
        old(trading).wf(),
        req.action is Cancel,
        request_ok(context_of(*old(trading)), state_of(*old(trading), *old(result)), *req),
    ensures
        final(trading).wf(),
        context_of(*final(trading)) == context_of(*old(trading)),
        final(trading).token == old(trading).token,
        state_of(*final(trading), *final(result)) == apply_request(
            context_of(*old(trading)),
            state_of(*old(trading), *old(result)),
            *req,
        ),
{
    match trading.load_position(req.position) {
        Err(error) => {
            result.push_result(error.code());
        },
        Ok(position) => {
            if position.status == PositionStatus::Pending {
                let mut closed = position;
                closed.status = PositionStatus::Closed;
                closed.held_base_fee = 0;
                closed.held_price_impact = 0;
                let held = position.held_base_fee + position.held_price_impact;
                proof {
                    crate::lookup::lemma_slot_of(
                        crate::trading::position_keys(trading.positions@),
                        req.position as int,
                    );
                    assert(position.id == req.position);
                }
                trading.cache_position(&closed);
                credit(result, position.user, position.collateral + held);
                result.push_result(0);
            } else {
                result.push_result(TradingError::PositionNotPending.code());
            }
        },
    }
}

/// Carries out one request of a batch.
fn process_request(e: &Env, trading: &mut Trading, result: &mut SubmitResult, req: &Request)
    requires
        old(trading).wf(),
        request_ok(context_of(*old(trading)), state_of(*old(trading), *old(result)), *req),
    ensures
        final(trading).wf(),
        context_of(*final(trading)) == context_of(*old(trading)),
        final(trading).token == old(trading).token,
        state_of(*final(trading), *final(result)) == apply_request(
            context_of(*old(trading)),
            state_of(*old(trading), *old(result)),
            *req,
        ),
{
    let ghost ctx = context_of(*trading);
    let ghost st = state_of(*trading, *result);
    match req.action {
        RequestType::Cancel => {
            process_cancel(trading, result, req);
            return;
        },
        _ => {},
    }
    let found = resolve_request(trading, req);
    assert(found == resolve(ctx, st, *req));
    match found {
        Err(error) => {
            result.push_result(error.code());
        },
        Ok((position, market, price)) => {
            let mut refreshed = market;
            refreshed.update_borrowing_index(e, trading.now);
            let outcome = apply_request_action(
                e,
                &trading.config,
                req,
                &position,
                &refreshed,
                price,
                trading.now,
            );
            if outcome.code != 0 {
                result.push_result(outcome.code);
            } else {
                let on_market = match req.action {
                    RequestType::SetTakeProfit => false,
                    RequestType::SetStopLoss => false,
                    _ => true,
                };
                proof {
                    crate::actions::lemma_request_keeps_keys(
                        trading.config,
                        *req,
                        position,
                        refreshed,
                        price,
                    );
                    crate::lookup::lemma_slot_of(
                        crate::trading::position_keys(trading.positions@),
                        req.position as int,
                    );
                    crate::lookup::lemma_slot_of(
                        crate::trading::market_keys(trading.markets@),
                        position.asset as int,
                    );
                    assert(market.asset == position.asset);
                }
                if on_market {
                    trading.cache_market(&outcome.market);
                }
                trading.cache_position(&outcome.position);
                record_payments(result, trading, &outcome);
                result.push_result(0);
            }
        },
    }
}

/// The batch state at the start of an entry point: the caches as they are,
/// no transfers, no results.
pub open spec fn start_of(trading: Trading) -> BatchState {
    BatchState {
        markets: trading.markets@,
        positions: trading.positions@,
        markets_to_update: trading.changed_markets_view(),
        positions_to_update: trading.changed_positions_view(),
        transfers: no_transfers(),
        results: Seq::empty(),
    }
}

/// Carries out a batch of requests on the cached markets and positions,
/// in the order of the requests, and returns the transfers to make and one
/// result code per request.
pub fn process_requests(e: &Env, trading: &mut Trading, requests: &Vec<Request>) -> (result:
    SubmitResult)
    requires
        old(trading).wf(),
        requests_ok(context_of(*old(trading)), start_of(*old(trading)), requests@),
    ensures
        final(trading).wf(),
        context_of(*final(trading)) == context_of(*old(trading)),
        final(trading).token == old(trading).token,
        state_of(*final(trading), result) == apply_requests(
            context_of(*old(trading)),
            start_of(*old(trading)),
            requests@,
        ),
        result.results_view().len() == requests@.len(),
{
    let mut result = SubmitResult::new(e);
    let ghost ctx = context_of(*trading);
    let ghost start = state_of(*trading, result);
    let mut i: usize = 0;
    proof {
        assert(start == start_of(*trading));
        assert(requests@.skip(0) == requests@);
    }
    while i < requests.len()
        invariant
            i <= requests.len(),
            trading.wf(),
            context_of(*trading) == ctx,
            trading.token == old(trading).token,
            requests_ok(ctx, state_of(*trading, result), requests@.skip(i as int)),
            apply_requests(ctx, state_of(*trading, result), requests@.skip(i as int))
                == apply_requests(ctx, start, requests@),
            result.results_view().len() == i,
        decreases requests.len() - i,
    {
        let ghost rest = requests@.skip(i as int);
        proof {
            assert(rest.len() > 0);
            assert(rest[0] == requests@[i as int]);
            assert(rest.skip(1) == requests@.skip(i as int + 1));
        }
        let req = requests[i];
        process_request(e, trading, &mut result, &req);
        i = i + 1;
    }
    proof {
        assert(requests@.skip(i as int).len() == 0);
    }
    result
}

/// The keeper's requests in the general form, in order.
pub open spec fn as_requests(requests: Seq<ExecuteRequest>) -> Seq<Request> {
    Seq::new(requests.len(), |i: int| requests[i].as_request())
}

/// Carries out a keeper's batch on the cached markets and positions, in
/// the order of the requests, and returns the transfers to make and one
/// result code per request.
pub fn process_execute_requests(
    e: &Env,
    trading: &mut Trading,
    requests: &Vec<ExecuteRequest>,
) -> (result: SubmitResult)
    requires
        old(trading).wf(),
        requests_ok(context_of(*old(trading)), start_of(*old(trading)), as_requests(requests@)),
    ensures
        final(trading).wf(),
        context_of(*final(trading)) == context_of(*old(trading)),
        final(trading).token == old(trading).token,
        state_of(*final(trading), result) == apply_requests(
            context_of(*old(trading)),
            start_of(*old(trading)),
            as_requests(requests@),
        ),
        result.results_view().len() == requests@.len(),
{
    let mut general: Vec<Request> = Vec::new();
    let mut i: usize = 0;
    while i < requests.len()
        invariant
            i <= requests.len(),
            general@ == as_requests(requests@.take(i as int)),
        decreases requests.len() - i,
    {
        general.push(requests[i].to_request());
        proof {
            assert(general@ == as_requests(requests@.take(i as int + 1)));
        }
        i = i + 1;
    }
    proof {
        assert(requests@.take(requests.len() as int) == requests@);
    }
    process_requests(e, trading, &general)
}

/// Whether keeper and user actions on existing positions are allowed in
/// the given status: in `Active` and `OnIce`, not in `Frozen` or `Setup`.
pub open spec fn actions_allowed(status: u32) -> bool {
    status <= STATUS_ON_ICE
}

/// Runs a keeper's batch unless the engine's status forbids it, in which
/// case it fails with `ContractPaused` and nothing changes.
pub fn execute_trigger(
    e: &Env,
    status: u32,
    trading: &mut Trading,
    requests: &Vec<ExecuteRequest>,
) -> (r: Result<SubmitResult, TradingError>)
    requires
        old(trading).wf(),
        actions_allowed(status) ==> requests_ok(
            context_of(*old(trading)),
            start_of(*old(trading)),
            as_requests(requests@),
        ),
    ensures
        !actions_allowed(status) ==> r == Err::<SubmitResult, TradingError>(
            TradingError::ContractPaused,
        ) && *final(trading) == *old(trading),
        final(trading).wf(),
        final(trading).token == old(trading).token,
        actions_allowed(status) ==> r.is_ok() && context_of(*final(trading)) == context_of(
            *old(trading),
        ) && state_of(*final(trading), r.unwrap()) == apply_requests(
            context_of(*old(trading)),
            start_of(*old(trading)),
            as_requests(requests@),
        ),
{
    if status > STATUS_ON_ICE {
        return Err(TradingError::ContractPaused);
    }
    Ok(process_execute_requests(e, trading, requests))
}

/// Runs a batch of requests of any kind unless the engine's status
/// forbids it, in which case it fails with `ContractPaused` and nothing
/// changes.
pub fn execute_submit(e: &Env, status: u32, trading: &mut Trading, requests: &Vec<Request>) -> (r:
    Result<SubmitResult, TradingError>)
    requires
        old(trading).wf(),
        actions_allowed(status) ==> requests_ok(
            context_of(*old(trading)),
            start_of(*old(trading)),
            requests@,
        ),
    ensures
        !actions_allowed(status) ==> r == Err::<SubmitResult, TradingError>(
            TradingError::ContractPaused,
        ) && *final(trading) == *old(trading),
        final(trading).wf(),
        final(trading).token == old(trading).token,
        actions_allowed(status) ==> r.is_ok() && context_of(*final(trading)) == context_of(
            *old(trading),
        ) && state_of(*final(trading), r.unwrap()) == apply_requests(
            context_of(*old(trading)),
            start_of(*old(trading)),
            requests@,
        ),
{
    if status > STATUS_ON_ICE {
        return Err(TradingError::ContractPaused);
    }
    Ok(process_requests(e, trading, requests))
}

/// Whether an action is the owner's to ask for, so that it needs the
/// owner's authorisation: closing, cancelling, changing collateral and
/// setting triggers. What a keeper may ask for needs none.
pub open spec fn needs_owner(action: RequestType) -> bool {
    action is Close || action is Cancel || action is DepositCollateral
        || action is WithdrawCollateral || action is SetTakeProfit || action is SetStopLoss
}

/// Tells whether an action needs its owner's authorisation.
pub fn requires_owner_auth(action: RequestType) -> (r: bool)
    ensures
        r == needs_owner(action),
{
    match action {
        RequestType::Close => true,
        RequestType::Cancel => true,
        RequestType::DepositCollateral => true,
        RequestType::WithdrawCollateral => true,
        RequestType::SetTakeProfit => true,
        RequestType::SetStopLoss => true,
        _ => false,
    }
}

/// The list with `account` added at the end unless it is in it.
pub open spec fn noted(list: Seq<u64>, account: AccountId) -> Seq<u64> {
    if list.contains(account) {
        list
    } else {
        list.push(account)
    }
}

/// The owners whose authorisation a batch needs: those of the requests
/// that succeeded and are the owner's to ask for, each once, in the order
/// in which they first come up. `owners` gives the owner of each request's
/// position.
pub open spec fn owners_to_authorise(
    requests: Seq<Request>,
    results: Seq<u32>,
    owners: Seq<u64>,
) -> Seq<u64>
    decreases requests.len(),
{
    if requests.len() == 0 {
        Seq::empty()
    } else {
        let before = owners_to_authorise(
            requests.drop_last(),
            results.drop_last(),
            owners.drop_last(),
        );
        if results.last() == 0 && needs_owner(requests.last().action) {
            noted(before, owners.last())
        } else {
            before
        }
    }
}

fn holds(list: &Vec<AccountId>, account: AccountId) -> (r: bool)
    ensures
        r == list@.contains(account),
{
    let mut i: usize = 0;
    while i < list.len()
        invariant
            i <= list.len(),
            forall|j: int| 0 <= j < i ==> list@[j] != account,
        decreases list.len() - i,
    {
        if list[i] == account {
            return true;
        }
        i = i + 1;
    }
    false
}

/// Lists the owners whose authorisation a batch needs, one entry per
/// owner.
pub fn authorisations(requests: &Vec<Request>, results: &Vec<u32>, owners: &Vec<AccountId>) -> (r:
    Vec<AccountId>)
    requires
        requests@.len() == results@.len(),
        requests@.len() == owners@.len(),
    ensures
        r@ == owners_to_authorise(requests@, results@, owners@),
{
    let mut list: Vec<AccountId> = Vec::new();
    let mut i: usize = 0;
    proof {
        assert(requests@.take(0).len() == 0);
    }
    while i < requests.len()
        invariant
            i <= requests.len(),
            requests@.len() == results@.len(),
            requests@.len() == owners@.len(),
            list@ == owners_to_authorise(
                requests@.take(i as int),
                results@.take(i as int),
                owners@.take(i as int),
            ),
        decreases requests.len() - i,
    {
        proof {
            assert(requests@.take(i as int + 1).drop_last() == requests@.take(i as int));
            assert(results@.take(i as int + 1).drop_last() == results@.take(i as int));
            assert(owners@.take(i as int + 1).drop_last() == owners@.take(i as int));
        }
        if results[i] == 0 && requires_owner_auth(requests[i].action) && !holds(&list, owners[i]) {
            list.push(owners[i]);
        }
        i = i + 1;
    }
    proof {
        assert(requests@.take(requests.len() as int) == requests@);
        assert(results@.take(results.len() as int) == results@);
        assert(owners@.take(owners.len() as int) == owners@);
    }
    list
}

/// A request that fails leaves the batch as it was but for its code in the
/// results, so that a later batch finds what it would have found alone.
pub proof fn lemma_failed_request_keeps_state(ctx: BatchContext, st: BatchState, req: Request)
    requires
        apply_request(ctx, st, req).results.last() != 0,
    ensures
        apply_request(ctx, st, req) == failed_state(st, apply_request(ctx, st, req).results.last()),
{
}

/// Two states that differ at most in their results.
pub open spec fn same_but_results(a: BatchState, b: BatchState) -> bool {
    &&& a.markets == b.markets
    &&& a.positions == b.positions
    &&& a.markets_to_update == b.markets_to_update
    &&& a.positions_to_update == b.positions_to_update
    &&& a.transfers == b.transfers
}

/// `b` is `a` without the result at place `k`.
pub open spec fn without_result(a: BatchState, b: BatchState, k: int) -> bool {
    &&& same_but_results(a, b)
    &&& 0 <= k < a.results.len()
    &&& b.results == a.results.remove(k)
}

/// The result code that a request gets in a state.
pub open spec fn code_of(ctx: BatchContext, st: BatchState, req: Request) -> u32 {
    apply_request(ctx, st, req).results.last()
}

/// What a request does never depends on the results gathered so far: it
/// adds its one code and treats the rest of the state alike.
pub proof fn lemma_request_ignores_results(
    ctx: BatchContext,
    a: BatchState,
    b: BatchState,
    req: Request,
)
    requires
        same_but_results(a, b),
    ensures
        same_but_results(apply_request(ctx, a, req), apply_request(ctx, b, req)),
        code_of(ctx, a, req) == code_of(ctx, b, req),
        apply_request(ctx, a, req).results == a.results.push(code_of(ctx, a, req)),
        apply_request(ctx, b, req).results == b.results.push(code_of(ctx, b, req)),
{
}

proof fn lemma_requests_keep_gap(
    ctx: BatchContext,
    a: BatchState,
    b: BatchState,
    k: int,
    reqs: Seq<Request>,
)
    requires
        without_result(a, b, k),
    ensures
        without_result(apply_requests(ctx, a, reqs), apply_requests(ctx, b, reqs), k),
    decreases reqs.len(),
{
    if reqs.len() > 0 {
        lemma_request_ignores_results(ctx, a, b, reqs[0]);
        let a1 = apply_request(ctx, a, reqs[0]);
        let b1 = apply_request(ctx, b, reqs[0]);
        assert(b1.results == a1.results.remove(k));
        lemma_requests_keep_gap(ctx, a1, b1, k, reqs.skip(1));
    }
}

/// A request that fails leaves no trace in its batch: markets, positions,
/// the lists of what changed and the transfers end as they would have
/// ended without it, and the results are those of the batch without it,
/// with its code put in at its place. So sending it again later meets what
/// it would have met alone.
pub proof fn lemma_failed_request_leaves_no_trace(
    ctx: BatchContext,
    st: BatchState,
    reqs: Seq<Request>,
    i: int,
)
    requires
        0 <= i < reqs.len(),
        code_of(ctx, apply_requests(ctx, st, reqs.take(i)), reqs[i]) != 0,
    ensures
        without_result(
            apply_requests(ctx, st, reqs),
            apply_requests(ctx, st, reqs.remove(i)),
            st.results.len() + i,
        ),
    decreases i,
{
    let first = apply_request(ctx, st, reqs[0]);
    lemma_request_ignores_results(ctx, st, st, reqs[0]);
    if i == 0 {
        assert(reqs.take(0).len() == 0);
        lemma_failed_request_keeps_state(ctx, st, reqs[0]);
        assert(reqs.remove(0) == reqs.skip(1));
        assert(st.results == first.results.remove(st.results.len() as int));
        lemma_requests_keep_gap(ctx, first, st, st.results.len() as int, reqs.skip(1));
    } else {
        assert(reqs.take(i)[0] == reqs[0]);
        assert(reqs.take(i).skip(1) == reqs.skip(1).take(i - 1));
        assert(reqs.skip(1)[i - 1] == reqs[i]);
        lemma_failed_request_leaves_no_trace(ctx, first, reqs.skip(1), i - 1);
        assert(reqs.remove(i)[0] == reqs[0]);
        assert(reqs.remove(i).skip(1) == reqs.skip(1).remove(i - 1));
    }
}

} // verus!
