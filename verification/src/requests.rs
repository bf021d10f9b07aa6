use vstd::prelude::*;

verus! {

/// What a request asks to be done to a position.
#[derive(Clone, Copy, Debug, PartialEq, Eq, Structural)]
pub enum RequestType {
    Close,
    Fill,
    StopLoss,
    TakeProfit,
    Liquidation,
    Cancel,
    DepositCollateral,
    WithdrawCollateral,
    SetTakeProfit,
    SetStopLoss,
}

/// One entry of a batch.
#[derive(Clone, Copy, Debug, PartialEq, Eq)]
pub struct Request {
    pub action: RequestType,
    pub position: u32,
    /// The amount or price that the action takes, where it takes one.
    pub data: Option<i128>,
}

/// What a keeper may ask for.
#[derive(Clone, Copy, Debug, PartialEq, Eq, Structural)]
pub enum ExecuteRequestType {
    /// Open a pending limit order whose price has been reached.
    Fill,
    StopLoss,
    TakeProfit,
    Liquidate,
}

/// One entry of a keeper's batch.
#[derive(Clone, Copy, Debug, PartialEq, Eq, Structural)]
pub struct ExecuteRequest {
    pub request_type: ExecuteRequestType,
    pub position_id: u32,
}

} // verus!
