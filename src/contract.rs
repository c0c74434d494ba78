//! Data describing contracts: stocks, bonds, futures and options.

use rust_decimal::Decimal;
use vstd::prelude::*;

verus! {

/// A decimal number of the `rust_decimal` crate, carried through unchanged.
#[verifier::external_type_specification]
#[verifier::external_body]
pub struct ExDecimal(Decimal);

pub type ContractId = usize;

pub type Symbol = String;

pub type LastTradeDateOrContractMonth = String;

pub type Strike = Decimal;

pub type Right = String;

pub type Multiplier = String;

pub type Exchange = String;

pub type Currency = String;

pub type TradingClass = String;

pub type SecurityId = String;

pub enum SecurityType {
    Stock,
    Bond,
    Future,
    Option,
}

pub enum SecurityIdType {
    CUSIP,
    SEDOL,
    ISIN,
    RIC,
}

/// One leg of a combination: a position composed of several legs, or an
/// options strategy.
pub struct ComboLeg {}

/// A contract that keeps delta close to 0.
pub struct DeltaNeutralContract {}

/// A contract of any kind: a future, a stock, an option, and so on.
pub struct Contract {
    contract_id: ContractId,
    symbol: Symbol,
    security_type: SecurityType,
    last_trade_date_or_contract_month: LastTradeDateOrContractMonth,
    strike: Strike,
    right: Right,
    multiplier: Multiplier,
    exchange: Exchange,
    primary_exchange: Exchange,
    currency: Currency,
    local_symbol: Symbol,
    trading_class: TradingClass,
    include_expired: bool,
    security_id_type: SecurityIdType,
    security_id: SecurityId,
    combo_legs_description: Option<String>,
    combo_legs: Vec<ComboLeg>,
    delta_neutral_contract: Option<DeltaNeutralContract>,
}

pub type Market = String;

pub type Tick = usize;

/// The details of a contract beyond its identification.
pub struct ContractDetails {
    contract: Contract,
    market_name: Market,
    min_tick: Tick,
    order_types: Option<String>,
    valid_exchanges: Vec<Exchange>,
    price_magnifier: Option<Decimal>,
}

/// The description of a contract found by a symbol search.
pub struct ContractDescription {}

} // verus!
