//! The message catalog: opcodes, field layouts, request ids and end-sentinels
//! of every message kind. Encoder, decoder and dispatcher consult it alone.

use crate::field::FieldKind;
use vstd::prelude::*;

verus! {

/// The kinds of message that the server sends.
#[derive(Debug, Clone, Copy, PartialEq, Eq, Structural)]
pub enum InboundMessages {
    TickPrice,
    TickSize,
    OrderStatus,
    ErrMsg,
    OpenOrder,
    AccountValue,
    PortfolioValue,
    AccountUpdateTime,
    NextValidID,
    ContractData,
    ExecutionData,
    MarketDepth,
    MarketDepthL2,
    NewsBulletins,
    ManagedAccounts,
    ReceiveFa,
    HistoricalData,
    BondContractData,
    ScannerParameters,
    ScannerData,
    TickOptionComputation,
    TickGeneric,
    TickString,
    TickEfp,
    CurrentTime,
    RealTimeBars,
    FundamentalData,
    ContractDataEnd,
    OpenOrderEnd,
    AccountDownloadEnd,
    ExecutionDataEnd,
    DeltaNeutralValidation,
    TickSnapshotEnd,
    MarketDataType,
    CommissionReport,
    PositionData,
    PositionEnd,
    AccountSummary,
    AccountSummaryEnd,
    VerifyMessageApi,
    VerifyCompleted,
    DisplayGroupList,
    DisplayGroupUpdated,
    VerifyAndAuthMessageApi,
    VerifyAndAuthCompleted,
    PositionMulti,
    PositionMultiEnd,
    AccountUpdateMulti,
    AccountUpdateMultiEnd,
    SecurityDefinitionOptionParameter,
    SecurityDefinitionOptionParameterEnd,
    SoftDollarTiers,
    FamilyCodes,
    SymbolSamples,
    MarketDepthExchanges,
    TickReqParams,
    SmartComponents,
    NewsArticle,
    TickNews,
    NewsProviders,
    HistoricalNews,
    HistoricalNewsEnd,
    HeadTimestamp,
    HistogramData,
    HistoricalDataUpdate,
    RerouteMarketDataReq,
    RerouteMarketDepthReq,
    MarketRule,
    ProfitAndLoss,
    ProfitAndLossSingle,
    HistoricalTicks,
    HistoricalTicksBidAsk,
    HistoricalTicksLast,
    TickByTick,
    OrderBound,
    CompletedOrder,
    CompletedOrdersEnd,
    ReplaceFaEnd,
}

/// The kinds of message that the client sends; `Invalid` has no opcode.
#[derive(Debug, Clone, Copy, PartialEq, Eq, Structural)]
pub enum OutboundMessages {
    ReqMarketData,
    CancelMarketData,
    PlacerOrder,
    CancelOrder,
    ReqOpenOrders,
    ReqAccountData,
    ReqExecutions,
    ReqIds,
    ReqContractData,
    ReqMarketDepth,
    CancelMarketDepth,
    ReqNewsBulletins,
    CancelNewsBulletins,
    SetServerLogLevel,
    ReqAutoOpenOrders,
    ReqAllOpenOrders,
    ReqManagedAccounts,
    ReqFa,
    ReplaceFa,
    ReqHistoricalData,
    ExerciseOptions,
    ReqScannerSubscription,
    CancelScannerSubscription,
    ReqScannerParameters,
    CancelHistoricalData,
    ReqCurrentTime,
    ReqRealTimeBars,
    CancelRealTimeBars,
    ReqFundamentalData,
    CancelFundamentalData,
    ReqCalcImpliedVolat,
    CancelCalcImpliedVolat,
    CancelCalcOptionPrice,
    ReqGlobalCancel,
    ReqMarketDataType,
    ReqPositions,
    ReqAccountSummary,
    CancelAccountSummary,
    CancelPositions,
    VerifyRequest,
    VerifyMessage,
    QueryDisplayGroups,
    SubscribeToGroupEvents,
    UpdateDisplayGroup,
    UnsubscribeFromGroupEvents,
    StartApi,
    VerifyAndAuthRequest,
    VerifyAndAuthMessage,
    ReqPositionsMulti,
    CancelPositionsMulti,
    ReqAccountUpdatesMulti,
    CancelAccountUpdatesMulti,
    ReqSecDefOptParams,
    ReqSoftDollarTiers,
    ReqFamilyCodes,
    ReqMatchingSymbols,
    ReqMarketDepthExchanges,
    ReqSmartComponents,
    ReqNewsArticle,
    ReqNewsProviders,
    ReqHistoricalNews,
    ReqHeadTimestamp,
    ReqHistogramData,
    CancelHistogramData,
    CancelHeadTimestamp,
    ReqMarketRule,
    ReqPnl,
    CancelPnl,
    ReqPnlSingle,
    CancelPnlSingle,
    ReqHistoricalTicks,
    ReqTickByTickData,
    CancelTickByTickData,
    ReqCompletedOrders,
    Invalid,
}

/// One position of a message layout: the kind of its field and the least
/// server version that sends it (0: every version).
#[derive(Debug, Clone, Copy, PartialEq, Eq, Structural)]
pub struct FieldSpec {
    pub kind: FieldKind,
    pub since: u32,
}

pub open spec fn fs(kind: FieldKind, since: u32) -> FieldSpec {
    FieldSpec { kind, since }
}

impl FieldSpec {
    pub fn new(kind: FieldKind, since: u32) -> (r: FieldSpec)
        ensures
            r == fs(kind, since),
    {
        FieldSpec { kind, since }
    }
}

/// The opcode of each outbound kind; `Invalid` has none and maps to 0.
pub open spec fn outbound_opcode(k: OutboundMessages) -> u32 {
    match k {
        OutboundMessages::ReqMarketData => 1,
        OutboundMessages::CancelMarketData => 2,
        OutboundMessages::PlacerOrder => 3,
        OutboundMessages::CancelOrder => 4,
        OutboundMessages::ReqOpenOrders => 5,
        OutboundMessages::ReqAccountData => 6,
        OutboundMessages::ReqExecutions => 7,
        OutboundMessages::ReqIds => 8,
        OutboundMessages::ReqContractData => 9,
        OutboundMessages::ReqMarketDepth => 10,
        OutboundMessages::CancelMarketDepth => 11,
        OutboundMessages::ReqNewsBulletins => 12,
        OutboundMessages::CancelNewsBulletins => 13,
        OutboundMessages::SetServerLogLevel => 14,
        OutboundMessages::ReqAutoOpenOrders => 15,
        OutboundMessages::ReqAllOpenOrders => 16,
        OutboundMessages::ReqManagedAccounts => 17,
        OutboundMessages::ReqFa => 18,
        OutboundMessages::ReplaceFa => 19,
        OutboundMessages::ReqHistoricalData => 20,
        OutboundMessages::ExerciseOptions => 21,
        OutboundMessages::ReqScannerSubscription => 22,
        OutboundMessages::CancelScannerSubscription => 23,
        OutboundMessages::ReqScannerParameters => 24,
        OutboundMessages::CancelHistoricalData => 25,
        OutboundMessages::ReqCurrentTime => 49,
        OutboundMessages::ReqRealTimeBars => 50,
        OutboundMessages::CancelRealTimeBars => 51,
        OutboundMessages::ReqFundamentalData => 52,
        OutboundMessages::CancelFundamentalData => 53,
        OutboundMessages::ReqCalcImpliedVolat => 54,
        OutboundMessages::CancelCalcImpliedVolat => 56,
        OutboundMessages::CancelCalcOptionPrice => 57,
        OutboundMessages::ReqGlobalCancel => 58,
        OutboundMessages::ReqMarketDataType => 59,
        OutboundMessages::ReqPositions => 61,
        OutboundMessages::ReqAccountSummary => 62,
        OutboundMessages::CancelAccountSummary => 63,
        OutboundMessages::CancelPositions => 64,
        OutboundMessages::VerifyRequest => 65,
        OutboundMessages::VerifyMessage => 66,
        OutboundMessages::QueryDisplayGroups => 67,
        OutboundMessages::SubscribeToGroupEvents => 68,
        OutboundMessages::UpdateDisplayGroup => 69,
        OutboundMessages::UnsubscribeFromGroupEvents => 70,
        OutboundMessages::StartApi => 71,
        OutboundMessages::VerifyAndAuthRequest => 72,
        OutboundMessages::VerifyAndAuthMessage => 73,
        OutboundMessages::ReqPositionsMulti => 74,
        OutboundMessages::CancelPositionsMulti => 75,
        OutboundMessages::ReqAccountUpdatesMulti => 76,
        OutboundMessages::CancelAccountUpdatesMulti => 77,
        OutboundMessages::ReqSecDefOptParams => 78,
        OutboundMessages::ReqSoftDollarTiers => 79,
        OutboundMessages::ReqFamilyCodes => 80,
        OutboundMessages::ReqMatchingSymbols => 81,
        OutboundMessages::ReqMarketDepthExchanges => 82,
        OutboundMessages::ReqSmartComponents => 83,
        OutboundMessages::ReqNewsArticle => 84,
        OutboundMessages::ReqNewsProviders => 85,
        OutboundMessages::ReqHistoricalNews => 86,
        OutboundMessages::ReqHeadTimestamp => 87,
        OutboundMessages::ReqHistogramData => 88,
        OutboundMessages::CancelHistogramData => 89,
        OutboundMessages::CancelHeadTimestamp => 90,
        OutboundMessages::ReqMarketRule => 91,
        OutboundMessages::ReqPnl => 92,
        OutboundMessages::CancelPnl => 93,
        OutboundMessages::ReqPnlSingle => 94,
        OutboundMessages::CancelPnlSingle => 95,
        OutboundMessages::ReqHistoricalTicks => 96,
        OutboundMessages::ReqTickByTickData => 97,
        OutboundMessages::CancelTickByTickData => 98,
        OutboundMessages::ReqCompletedOrders => 99,
        OutboundMessages::Invalid => 0,
    }
}

/// The fixed message version that follows the opcode, where the kind has one.
pub open spec fn message_version(k: OutboundMessages) -> Option<u32> {
    match k {
        OutboundMessages::ReqMarketData => Some(11),
        OutboundMessages::CancelMarketData => Some(2),
        OutboundMessages::ReqContractData => Some(8),
        OutboundMessages::ReqCurrentTime => Some(1),
        OutboundMessages::ReqManagedAccounts => Some(1),
        OutboundMessages::ReqIds => Some(1),
        OutboundMessages::ReqOpenOrders => Some(1),
        OutboundMessages::ReqAllOpenOrders => Some(1),
        OutboundMessages::ReqAutoOpenOrders => Some(1),
        OutboundMessages::ReqAccountData => Some(2),
        OutboundMessages::ReqExecutions => Some(3),
        OutboundMessages::ReqPositions => Some(1),
        OutboundMessages::CancelPositions => Some(1),
        OutboundMessages::ReqAccountSummary => Some(1),
        OutboundMessages::CancelAccountSummary => Some(1),
        OutboundMessages::CancelHistoricalData => Some(1),
        OutboundMessages::ReqRealTimeBars => Some(3),
        OutboundMessages::CancelRealTimeBars => Some(1),
        OutboundMessages::ReqMarketDepth => Some(5),
        OutboundMessages::CancelMarketDepth => Some(1),
        OutboundMessages::StartApi => Some(2),
        OutboundMessages::ReqGlobalCancel => Some(1),
        OutboundMessages::ReqMarketDataType => Some(1),
        _ => None,
    }
}

/// Whether a request of this kind is given a new request id, written after its message version.
pub open spec fn opens_subscription(k: OutboundMessages) -> bool {
    match k {
        OutboundMessages::ReqMarketData => true,
        OutboundMessages::ReqExecutions => true,
        OutboundMessages::ReqContractData => true,
        OutboundMessages::ReqMarketDepth => true,
        OutboundMessages::ReqHistoricalData => true,
        OutboundMessages::ReqScannerSubscription => true,
        OutboundMessages::ReqRealTimeBars => true,
        OutboundMessages::ReqFundamentalData => true,
        OutboundMessages::ReqCalcImpliedVolat => true,
        OutboundMessages::ReqAccountSummary => true,
        OutboundMessages::ReqPositionsMulti => true,
        OutboundMessages::ReqAccountUpdatesMulti => true,
        OutboundMessages::ReqSecDefOptParams => true,
        OutboundMessages::ReqMatchingSymbols => true,
        OutboundMessages::ReqSmartComponents => true,
        OutboundMessages::ReqNewsArticle => true,
        OutboundMessages::ReqHistoricalNews => true,
        OutboundMessages::ReqHeadTimestamp => true,
        OutboundMessages::ReqHistogramData => true,
        OutboundMessages::ReqPnl => true,
        OutboundMessages::ReqPnlSingle => true,
        OutboundMessages::ReqHistoricalTicks => true,
        OutboundMessages::ReqTickByTickData => true,
        OutboundMessages::ReqSoftDollarTiers => true,
        _ => false,
    }
}

/// The kind that cancels a subscription opened by this kind.
pub open spec fn cancel_kind(k: OutboundMessages) -> Option<OutboundMessages> {
    match k {
        OutboundMessages::ReqMarketData => Some(OutboundMessages::CancelMarketData),
        OutboundMessages::ReqMarketDepth => Some(OutboundMessages::CancelMarketDepth),
        OutboundMessages::ReqHistoricalData => Some(OutboundMessages::CancelHistoricalData),
        OutboundMessages::ReqScannerSubscription => Some(OutboundMessages::CancelScannerSubscription),
        OutboundMessages::ReqRealTimeBars => Some(OutboundMessages::CancelRealTimeBars),
        OutboundMessages::ReqFundamentalData => Some(OutboundMessages::CancelFundamentalData),
        OutboundMessages::ReqCalcImpliedVolat => Some(OutboundMessages::CancelCalcImpliedVolat),
        OutboundMessages::ReqAccountSummary => Some(OutboundMessages::CancelAccountSummary),
        OutboundMessages::ReqPositionsMulti => Some(OutboundMessages::CancelPositionsMulti),
        OutboundMessages::ReqAccountUpdatesMulti => Some(OutboundMessages::CancelAccountUpdatesMulti),
        OutboundMessages::ReqHeadTimestamp => Some(OutboundMessages::CancelHeadTimestamp),
        OutboundMessages::ReqHistogramData => Some(OutboundMessages::CancelHistogramData),
        OutboundMessages::ReqPnl => Some(OutboundMessages::CancelPnl),
        OutboundMessages::ReqPnlSingle => Some(OutboundMessages::CancelPnlSingle),
        OutboundMessages::ReqTickByTickData => Some(OutboundMessages::CancelTickByTickData),
        _ => None,
    }
}

/// The inbound kind after which no more events come for a request of this kind.
pub open spec fn end_sentinel(k: OutboundMessages) -> Option<InboundMessages> {
    match k {
        OutboundMessages::ReqContractData => Some(InboundMessages::ContractDataEnd),
        OutboundMessages::ReqExecutions => Some(InboundMessages::ExecutionDataEnd),
        OutboundMessages::ReqAccountSummary => Some(InboundMessages::AccountSummaryEnd),
        OutboundMessages::ReqPositionsMulti => Some(InboundMessages::PositionMultiEnd),
        OutboundMessages::ReqAccountUpdatesMulti => Some(InboundMessages::AccountUpdateMultiEnd),
        OutboundMessages::ReqSecDefOptParams => Some(InboundMessages::SecurityDefinitionOptionParameterEnd),
        OutboundMessages::ReqHistoricalNews => Some(InboundMessages::HistoricalNewsEnd),
        OutboundMessages::ReqMatchingSymbols => Some(InboundMessages::SymbolSamples),
        OutboundMessages::ReqHeadTimestamp => Some(InboundMessages::HeadTimestamp),
        OutboundMessages::ReqSmartComponents => Some(InboundMessages::SmartComponents),
        OutboundMessages::ReqNewsArticle => Some(InboundMessages::NewsArticle),
        OutboundMessages::ReqFundamentalData => Some(InboundMessages::FundamentalData),
        OutboundMessages::ReqHistogramData => Some(InboundMessages::HistogramData),
        OutboundMessages::ReqSoftDollarTiers => Some(InboundMessages::SoftDollarTiers),
        OutboundMessages::ReqHistoricalTicks => Some(InboundMessages::HistoricalTicks),
        _ => None,
    }
}

/// For a kind without a request id: the single inbound kind that answers it.
pub open spec fn slot_kind(k: OutboundMessages) -> Option<InboundMessages> {
    match k {
        OutboundMessages::ReqCurrentTime => Some(InboundMessages::CurrentTime),
        OutboundMessages::ReqManagedAccounts => Some(InboundMessages::ManagedAccounts),
        OutboundMessages::ReqIds => Some(InboundMessages::NextValidID),
        OutboundMessages::ReqFamilyCodes => Some(InboundMessages::FamilyCodes),
        OutboundMessages::ReqMarketDepthExchanges => Some(InboundMessages::MarketDepthExchanges),
        OutboundMessages::ReqNewsProviders => Some(InboundMessages::NewsProviders),
        OutboundMessages::ReqScannerParameters => Some(InboundMessages::ScannerParameters),
        _ => None,
    }
}

/// The opcode of each inbound kind.
pub open spec fn inbound_opcode(k: InboundMessages) -> u32 {
    match k {
        InboundMessages::TickPrice => 1,
        InboundMessages::TickSize => 2,
        InboundMessages::OrderStatus => 3,
        InboundMessages::ErrMsg => 4,
        InboundMessages::OpenOrder => 5,
        InboundMessages::AccountValue => 6,
        InboundMessages::PortfolioValue => 7,
        InboundMessages::AccountUpdateTime => 8,
        InboundMessages::NextValidID => 9,
        InboundMessages::ContractData => 10,
        InboundMessages::ExecutionData => 11,
        InboundMessages::MarketDepth => 12,
        InboundMessages::MarketDepthL2 => 13,
        InboundMessages::NewsBulletins => 14,
        InboundMessages::ManagedAccounts => 15,
        InboundMessages::ReceiveFa => 16,
        InboundMessages::HistoricalData => 17,
        InboundMessages::BondContractData => 18,
        InboundMessages::ScannerParameters => 19,
        InboundMessages::ScannerData => 20,
        InboundMessages::TickOptionComputation => 21,
        InboundMessages::TickGeneric => 45,
        InboundMessages::TickString => 46,
        InboundMessages::TickEfp => 47,
        InboundMessages::CurrentTime => 49,
        InboundMessages::RealTimeBars => 50,
        InboundMessages::FundamentalData => 51,
        InboundMessages::ContractDataEnd => 52,
        InboundMessages::OpenOrderEnd => 53,
        InboundMessages::AccountDownloadEnd => 54,
        InboundMessages::ExecutionDataEnd => 55,
        InboundMessages::DeltaNeutralValidation => 56,
        InboundMessages::TickSnapshotEnd => 57,
        InboundMessages::MarketDataType => 58,
        InboundMessages::CommissionReport => 59,
        InboundMessages::PositionData => 61,
        InboundMessages::PositionEnd => 62,
        InboundMessages::AccountSummary => 63,
        InboundMessages::AccountSummaryEnd => 64,
        InboundMessages::VerifyMessageApi => 65,
        InboundMessages::VerifyCompleted => 66,
        InboundMessages::DisplayGroupList => 67,
        InboundMessages::DisplayGroupUpdated => 68,
        InboundMessages::VerifyAndAuthMessageApi => 69,
        InboundMessages::VerifyAndAuthCompleted => 70,
        InboundMessages::PositionMulti => 71,
        InboundMessages::PositionMultiEnd => 72,
        InboundMessages::AccountUpdateMulti => 73,
        InboundMessages::AccountUpdateMultiEnd => 74,
        InboundMessages::SecurityDefinitionOptionParameter => 75,
        InboundMessages::SecurityDefinitionOptionParameterEnd => 76,
        InboundMessages::SoftDollarTiers => 77,
        InboundMessages::FamilyCodes => 78,
        InboundMessages::SymbolSamples => 79,
        InboundMessages::MarketDepthExchanges => 80,
        InboundMessages::TickReqParams => 81,
        InboundMessages::SmartComponents => 82,
        InboundMessages::NewsArticle => 83,
        InboundMessages::TickNews => 84,
        InboundMessages::NewsProviders => 85,
        InboundMessages::HistoricalNews => 86,
        InboundMessages::HistoricalNewsEnd => 87,
        InboundMessages::HeadTimestamp => 88,
        InboundMessages::HistogramData => 89,
        InboundMessages::HistoricalDataUpdate => 90,
        InboundMessages::RerouteMarketDataReq => 91,
        InboundMessages::RerouteMarketDepthReq => 92,
        InboundMessages::MarketRule => 93,
        InboundMessages::ProfitAndLoss => 94,
        InboundMessages::ProfitAndLossSingle => 95,
        InboundMessages::HistoricalTicks => 96,
        InboundMessages::HistoricalTicksBidAsk => 97,
        InboundMessages::HistoricalTicksLast => 98,
        InboundMessages::TickByTick => 99,
        InboundMessages::OrderBound => 100,
        InboundMessages::CompletedOrder => 101,
        InboundMessages::CompletedOrdersEnd => 102,
        InboundMessages::ReplaceFaEnd => 103,
    }
}

/// The inbound kind of an opcode, if the catalog lists it.
pub open spec fn inbound_of(op: int) -> Option<InboundMessages> {
    if op == 1 {
        Some(InboundMessages::TickPrice)
    } else if op == 2 {
        Some(InboundMessages::TickSize)
    } else if op == 3 {
        Some(InboundMessages::OrderStatus)
    } else if op == 4 {
        Some(InboundMessages::ErrMsg)
    } else if op == 5 {
        Some(InboundMessages::OpenOrder)
    } else if op == 6 {
        Some(InboundMessages::AccountValue)
    } else if op == 7 {
        Some(InboundMessages::PortfolioValue)
    } else if op == 8 {
        Some(InboundMessages::AccountUpdateTime)
    } else if op == 9 {
        Some(InboundMessages::NextValidID)
    } else if op == 10 {
        Some(InboundMessages::ContractData)
    } else if op == 11 {
        Some(InboundMessages::ExecutionData)
    } else if op == 12 {
        Some(InboundMessages::MarketDepth)
    } else if op == 13 {
        Some(InboundMessages::MarketDepthL2)
    } else if op == 14 {
        Some(InboundMessages::NewsBulletins)
    } else if op == 15 {
        Some(InboundMessages::ManagedAccounts)
    } else if op == 16 {
        Some(InboundMessages::ReceiveFa)
    } else if op == 17 {
        Some(InboundMessages::HistoricalData)
    } else if op == 18 {
        Some(InboundMessages::BondContractData)
    } else if op == 19 {
        Some(InboundMessages::ScannerParameters)
    } else if op == 20 {
        Some(InboundMessages::ScannerData)
    } else if op == 21 {
        Some(InboundMessages::TickOptionComputation)
    } else if op == 45 {
        Some(InboundMessages::TickGeneric)
    } else if op == 46 {
        Some(InboundMessages::TickString)
    } else if op == 47 {
        Some(InboundMessages::TickEfp)
    } else if op == 49 {
        Some(InboundMessages::CurrentTime)
    } else if op == 50 {
        Some(InboundMessages::RealTimeBars)
    } else if op == 51 {
        Some(InboundMessages::FundamentalData)
    } else if op == 52 {
        Some(InboundMessages::ContractDataEnd)
    } else if op == 53 {
        Some(InboundMessages::OpenOrderEnd)
    } else if op == 54 {
        Some(InboundMessages::AccountDownloadEnd)
    } else if op == 55 {
        Some(InboundMessages::ExecutionDataEnd)
    } else if op == 56 {
        Some(InboundMessages::DeltaNeutralValidation)
    } else if op == 57 {
        Some(InboundMessages::TickSnapshotEnd)
    } else if op == 58 {
        Some(InboundMessages::MarketDataType)
    } else if op == 59 {
        Some(InboundMessages::CommissionReport)
    } else if op == 61 {
        Some(InboundMessages::PositionData)
    } else if op == 62 {
        Some(InboundMessages::PositionEnd)
    } else if op == 63 {
        Some(InboundMessages::AccountSummary)
    } else if op == 64 {
        Some(InboundMessages::AccountSummaryEnd)
    } else if op == 65 {
        Some(InboundMessages::VerifyMessageApi)
    } else if op == 66 {
        Some(InboundMessages::VerifyCompleted)
    } else if op == 67 {
        Some(InboundMessages::DisplayGroupList)
    } else if op == 68 {
        Some(InboundMessages::DisplayGroupUpdated)
    } else if op == 69 {
        Some(InboundMessages::VerifyAndAuthMessageApi)
    } else if op == 70 {
        Some(InboundMessages::VerifyAndAuthCompleted)
    } else if op == 71 {
        Some(InboundMessages::PositionMulti)
    } else if op == 72 {
        Some(InboundMessages::PositionMultiEnd)
    } else if op == 73 {
        Some(InboundMessages::AccountUpdateMulti)
    } else if op == 74 {
        Some(InboundMessages::AccountUpdateMultiEnd)
    } else if op == 75 {
        Some(InboundMessages::SecurityDefinitionOptionParameter)
    } else if op == 76 {
        Some(InboundMessages::SecurityDefinitionOptionParameterEnd)
    } else if op == 77 {
        Some(InboundMessages::SoftDollarTiers)
    } else if op == 78 {
        Some(InboundMessages::FamilyCodes)
    } else if op == 79 {
        Some(InboundMessages::SymbolSamples)
    } else if op == 80 {
        Some(InboundMessages::MarketDepthExchanges)
    } else if op == 81 {
        Some(InboundMessages::TickReqParams)
    } else if op == 82 {
        Some(InboundMessages::SmartComponents)
    } else if op == 83 {
        Some(InboundMessages::NewsArticle)
    } else if op == 84 {
        Some(InboundMessages::TickNews)
    } else if op == 85 {
        Some(InboundMessages::NewsProviders)
    } else if op == 86 {
        Some(InboundMessages::HistoricalNews)
    } else if op == 87 {
        Some(InboundMessages::HistoricalNewsEnd)
    } else if op == 88 {
        Some(InboundMessages::HeadTimestamp)
    } else if op == 89 {
        Some(InboundMessages::HistogramData)
    } else if op == 90 {
        Some(InboundMessages::HistoricalDataUpdate)
    } else if op == 91 {
        Some(InboundMessages::RerouteMarketDataReq)
    } else if op == 92 {
        Some(InboundMessages::RerouteMarketDepthReq)
    } else if op == 93 {
        Some(InboundMessages::MarketRule)
    } else if op == 94 {
        Some(InboundMessages::ProfitAndLoss)
    } else if op == 95 {
        Some(InboundMessages::ProfitAndLossSingle)
    } else if op == 96 {
        Some(InboundMessages::HistoricalTicks)
    } else if op == 97 {
        Some(InboundMessages::HistoricalTicksBidAsk)
    } else if op == 98 {
        Some(InboundMessages::HistoricalTicksLast)
    } else if op == 99 {
        Some(InboundMessages::TickByTick)
    } else if op == 100 {
        Some(InboundMessages::OrderBound)
    } else if op == 101 {
        Some(InboundMessages::CompletedOrder)
    } else if op == 102 {
        Some(InboundMessages::CompletedOrdersEnd)
    } else if op == 103 {
        Some(InboundMessages::ReplaceFaEnd)
    } else {
        None
    }
}

/// The shapes of inbound layouts; kinds of one shape share their layout.
#[derive(Debug, Clone, Copy, PartialEq, Eq, Structural)]
pub enum LayoutShape {
    TickQuote,
    IdIntInt,
    IdIntText,
    IdIntFloat,
    IdOnly,
    Int,
    Text,
    ContractDetails,
    IdInt,
    IdFourTexts,
    IdTextTextInt,
    IdText,
    IdThreeFloats,
    Untyped,
}

/// The layout shape of each inbound kind.
pub open spec fn layout_shape(k: InboundMessages) -> LayoutShape {
    match k {
        InboundMessages::TickPrice => LayoutShape::TickQuote,
        InboundMessages::TickSize => LayoutShape::IdIntInt,
        InboundMessages::TickString | InboundMessages::ErrMsg | InboundMessages::NewsArticle => LayoutShape::IdIntText,
        InboundMessages::TickGeneric => LayoutShape::IdIntFloat,
        InboundMessages::TickSnapshotEnd | InboundMessages::ContractDataEnd | InboundMessages::ExecutionDataEnd | InboundMessages::AccountSummaryEnd | InboundMessages::PositionMulti | InboundMessages::PositionMultiEnd | InboundMessages::AccountUpdateMulti | InboundMessages::AccountUpdateMultiEnd | InboundMessages::SecurityDefinitionOptionParameter | InboundMessages::SecurityDefinitionOptionParameterEnd | InboundMessages::HistoricalNews | InboundMessages::SymbolSamples | InboundMessages::SmartComponents | InboundMessages::HistogramData | InboundMessages::ProfitAndLossSingle | InboundMessages::HistoricalTicks | InboundMessages::HistoricalTicksBidAsk | InboundMessages::HistoricalTicksLast | InboundMessages::MarketDepth | InboundMessages::MarketDepthL2 | InboundMessages::ScannerData | InboundMessages::TickReqParams | InboundMessages::TickNews | InboundMessages::RerouteMarketDataReq | InboundMessages::RerouteMarketDepthReq | InboundMessages::HistoricalDataUpdate | InboundMessages::DeltaNeutralValidation | InboundMessages::DisplayGroupList | InboundMessages::DisplayGroupUpdated | InboundMessages::SoftDollarTiers | InboundMessages::ReplaceFaEnd => LayoutShape::IdOnly,
        InboundMessages::NextValidID | InboundMessages::CurrentTime => LayoutShape::Int,
        InboundMessages::ManagedAccounts => LayoutShape::Text,
        InboundMessages::ContractData => LayoutShape::ContractDetails,
        InboundMessages::ExecutionData | InboundMessages::HistoricalNewsEnd | InboundMessages::TickByTick | InboundMessages::RealTimeBars | InboundMessages::TickOptionComputation | InboundMessages::TickEfp | InboundMessages::MarketDataType => LayoutShape::IdInt,
        InboundMessages::AccountSummary => LayoutShape::IdFourTexts,
        InboundMessages::HistoricalData => LayoutShape::IdTextTextInt,
        InboundMessages::HeadTimestamp | InboundMessages::FundamentalData => LayoutShape::IdText,
        InboundMessages::ProfitAndLoss => LayoutShape::IdThreeFloats,
        _ => LayoutShape::Untyped,
    }
}

/// The typed fields that follow the opcode in a message of each shape; the
/// tokens past them are read as text.
pub open spec fn shape_fields(s: LayoutShape) -> Seq<FieldSpec> {
    match s {
        LayoutShape::TickQuote => seq![fs(FieldKind::Integer, 0), fs(FieldKind::Integer, 0), fs(FieldKind::Floating, 0), fs(FieldKind::Integer, 0), fs(FieldKind::Integer, 0)],
        LayoutShape::IdIntInt => seq![fs(FieldKind::Integer, 0), fs(FieldKind::Integer, 0), fs(FieldKind::Integer, 0)],
        LayoutShape::IdIntText => seq![fs(FieldKind::Integer, 0), fs(FieldKind::Integer, 0), fs(FieldKind::Text, 0)],
        LayoutShape::IdIntFloat => seq![fs(FieldKind::Integer, 0), fs(FieldKind::Integer, 0), fs(FieldKind::Floating, 0)],
        LayoutShape::IdOnly => seq![fs(FieldKind::Integer, 0)],
        LayoutShape::Int => seq![fs(FieldKind::Integer, 0)],
        LayoutShape::Text => seq![fs(FieldKind::Text, 0)],
        LayoutShape::ContractDetails => seq![fs(FieldKind::Integer, 0), fs(FieldKind::Text, 0), fs(FieldKind::Text, 0), fs(FieldKind::Text, 0), fs(FieldKind::Text, 0), fs(FieldKind::Integer, 0), fs(FieldKind::Floating, 0), fs(FieldKind::Text, 110)],
        LayoutShape::IdInt => seq![fs(FieldKind::Integer, 0), fs(FieldKind::Integer, 0)],
        LayoutShape::IdFourTexts => seq![fs(FieldKind::Integer, 0), fs(FieldKind::Text, 0), fs(FieldKind::Text, 0), fs(FieldKind::Text, 0), fs(FieldKind::Text, 0)],
        LayoutShape::IdTextTextInt => seq![fs(FieldKind::Integer, 0), fs(FieldKind::Text, 0), fs(FieldKind::Text, 0), fs(FieldKind::Integer, 0)],
        LayoutShape::IdText => seq![fs(FieldKind::Integer, 0), fs(FieldKind::Text, 0)],
        LayoutShape::IdThreeFloats => seq![fs(FieldKind::Integer, 0), fs(FieldKind::Floating, 0), fs(FieldKind::Floating, 0), fs(FieldKind::Floating, 0)],
        LayoutShape::Untyped => seq![],
    }
}

/// The position, among the typed fields, of the request id in a message of
/// each shape.
pub open spec fn shape_id_pos(s: LayoutShape) -> Option<nat> {
    match s {
        LayoutShape::TickQuote => Some(0),
        LayoutShape::IdIntInt => Some(0),
        LayoutShape::IdIntText => Some(0),
        LayoutShape::IdIntFloat => Some(0),
        LayoutShape::IdOnly => Some(0),
        LayoutShape::ContractDetails => Some(0),
        LayoutShape::IdInt => Some(0),
        LayoutShape::IdFourTexts => Some(0),
        LayoutShape::IdTextTextInt => Some(0),
        LayoutShape::IdText => Some(0),
        LayoutShape::IdThreeFloats => Some(0),
        _ => None,
    }
}

/// Opcodes and kinds correspond one to one.
pub proof fn lemma_inbound_opcode_inverse(k: InboundMessages)
    ensures
        inbound_of(inbound_opcode(k) as int) == Some(k),
{
}

/// Converts a kind to the opcode that is written for it.
impl From<OutboundMessages> for u32 {
    fn from(k: OutboundMessages) -> (r: u32) {
        k.opcode()
    }
}

impl vstd::std_specs::convert::FromSpecImpl<OutboundMessages> for u32 {
    open spec fn obeys_from_spec() -> bool {
        true
    }

    open spec fn from_spec(k: OutboundMessages) -> u32 {
        outbound_opcode(k)
    }
}

impl OutboundMessages {
    /// The opcode of this kind.
    pub fn opcode(&self) -> (r: u32)
        ensures
            r == outbound_opcode(*self),
    {
        match self {
            OutboundMessages::ReqMarketData => 1,
            OutboundMessages::CancelMarketData => 2,
            OutboundMessages::PlacerOrder => 3,
            OutboundMessages::CancelOrder => 4,
            OutboundMessages::ReqOpenOrders => 5,
            OutboundMessages::ReqAccountData => 6,
            OutboundMessages::ReqExecutions => 7,
            OutboundMessages::ReqIds => 8,
            OutboundMessages::ReqContractData => 9,
            OutboundMessages::ReqMarketDepth => 10,
            OutboundMessages::CancelMarketDepth => 11,
            OutboundMessages::ReqNewsBulletins => 12,
            OutboundMessages::CancelNewsBulletins => 13,
            OutboundMessages::SetServerLogLevel => 14,
            OutboundMessages::ReqAutoOpenOrders => 15,
            OutboundMessages::ReqAllOpenOrders => 16,
            OutboundMessages::ReqManagedAccounts => 17,
            OutboundMessages::ReqFa => 18,
            OutboundMessages::ReplaceFa => 19,
            OutboundMessages::ReqHistoricalData => 20,
            OutboundMessages::ExerciseOptions => 21,
            OutboundMessages::ReqScannerSubscription => 22,
            OutboundMessages::CancelScannerSubscription => 23,
            OutboundMessages::ReqScannerParameters => 24,
            OutboundMessages::CancelHistoricalData => 25,
            OutboundMessages::ReqCurrentTime => 49,
            OutboundMessages::ReqRealTimeBars => 50,
            OutboundMessages::CancelRealTimeBars => 51,
            OutboundMessages::ReqFundamentalData => 52,
            OutboundMessages::CancelFundamentalData => 53,
            OutboundMessages::ReqCalcImpliedVolat => 54,
            OutboundMessages::CancelCalcImpliedVolat => 56,
            OutboundMessages::CancelCalcOptionPrice => 57,
            OutboundMessages::ReqGlobalCancel => 58,
            OutboundMessages::ReqMarketDataType => 59,
            OutboundMessages::ReqPositions => 61,
            OutboundMessages::ReqAccountSummary => 62,
            OutboundMessages::CancelAccountSummary => 63,
            OutboundMessages::CancelPositions => 64,
            OutboundMessages::VerifyRequest => 65,
            OutboundMessages::VerifyMessage => 66,
            OutboundMessages::QueryDisplayGroups => 67,
            OutboundMessages::SubscribeToGroupEvents => 68,
            OutboundMessages::UpdateDisplayGroup => 69,
            OutboundMessages::UnsubscribeFromGroupEvents => 70,
            OutboundMessages::StartApi => 71,
            OutboundMessages::VerifyAndAuthRequest => 72,
            OutboundMessages::VerifyAndAuthMessage => 73,
            OutboundMessages::ReqPositionsMulti => 74,
            OutboundMessages::CancelPositionsMulti => 75,
            OutboundMessages::ReqAccountUpdatesMulti => 76,
            OutboundMessages::CancelAccountUpdatesMulti => 77,
            OutboundMessages::ReqSecDefOptParams => 78,
            OutboundMessages::ReqSoftDollarTiers => 79,
            OutboundMessages::ReqFamilyCodes => 80,
            OutboundMessages::ReqMatchingSymbols => 81,
            OutboundMessages::ReqMarketDepthExchanges => 82,
            OutboundMessages::ReqSmartComponents => 83,
            OutboundMessages::ReqNewsArticle => 84,
            OutboundMessages::ReqNewsProviders => 85,
            OutboundMessages::ReqHistoricalNews => 86,
            OutboundMessages::ReqHeadTimestamp => 87,
            OutboundMessages::ReqHistogramData => 88,
            OutboundMessages::CancelHistogramData => 89,
            OutboundMessages::CancelHeadTimestamp => 90,
            OutboundMessages::ReqMarketRule => 91,
            OutboundMessages::ReqPnl => 92,
            OutboundMessages::CancelPnl => 93,
            OutboundMessages::ReqPnlSingle => 94,
            OutboundMessages::CancelPnlSingle => 95,
            OutboundMessages::ReqHistoricalTicks => 96,
            OutboundMessages::ReqTickByTickData => 97,
            OutboundMessages::CancelTickByTickData => 98,
            OutboundMessages::ReqCompletedOrders => 99,
            OutboundMessages::Invalid => 0,
        }
    }

    /// The fixed message version that follows the opcode, where the kind has one.
    pub fn message_version(&self) -> (r: Option<u32>)
        ensures
            r == message_version(*self),
    {
        match self {
            OutboundMessages::ReqMarketData => Some(11),
            OutboundMessages::CancelMarketData => Some(2),
            OutboundMessages::ReqContractData => Some(8),
            OutboundMessages::ReqCurrentTime => Some(1),
            OutboundMessages::ReqManagedAccounts => Some(1),
            OutboundMessages::ReqIds => Some(1),
            OutboundMessages::ReqOpenOrders => Some(1),
            OutboundMessages::ReqAllOpenOrders => Some(1),
            OutboundMessages::ReqAutoOpenOrders => Some(1),
            OutboundMessages::ReqAccountData => Some(2),
            OutboundMessages::ReqExecutions => Some(3),
            OutboundMessages::ReqPositions => Some(1),
            OutboundMessages::CancelPositions => Some(1),
            OutboundMessages::ReqAccountSummary => Some(1),
            OutboundMessages::CancelAccountSummary => Some(1),
            OutboundMessages::CancelHistoricalData => Some(1),
            OutboundMessages::ReqRealTimeBars => Some(3),
            OutboundMessages::CancelRealTimeBars => Some(1),
            OutboundMessages::ReqMarketDepth => Some(5),
            OutboundMessages::CancelMarketDepth => Some(1),
            OutboundMessages::StartApi => Some(2),
            OutboundMessages::ReqGlobalCancel => Some(1),
            OutboundMessages::ReqMarketDataType => Some(1),
            _ => None,
        }
    }

    /// Whether a request of this kind is given a new request id, written after its message version.
    pub fn opens_subscription(&self) -> (r: bool)
        ensures
            r == opens_subscription(*self),
    {
        match self {
            OutboundMessages::ReqMarketData => true,
            OutboundMessages::ReqExecutions => true,
            OutboundMessages::ReqContractData => true,
            OutboundMessages::ReqMarketDepth => true,
            OutboundMessages::ReqHistoricalData => true,
            OutboundMessages::ReqScannerSubscription => true,
            OutboundMessages::ReqRealTimeBars => true,
            OutboundMessages::ReqFundamentalData => true,
            OutboundMessages::ReqCalcImpliedVolat => true,
            OutboundMessages::ReqAccountSummary => true,
            OutboundMessages::ReqPositionsMulti => true,
            OutboundMessages::ReqAccountUpdatesMulti => true,
            OutboundMessages::ReqSecDefOptParams => true,
            OutboundMessages::ReqMatchingSymbols => true,
            OutboundMessages::ReqSmartComponents => true,
            OutboundMessages::ReqNewsArticle => true,
            OutboundMessages::ReqHistoricalNews => true,
            OutboundMessages::ReqHeadTimestamp => true,
            OutboundMessages::ReqHistogramData => true,
            OutboundMessages::ReqPnl => true,
            OutboundMessages::ReqPnlSingle => true,
            OutboundMessages::ReqHistoricalTicks => true,
            OutboundMessages::ReqTickByTickData => true,
            OutboundMessages::ReqSoftDollarTiers => true,
            _ => false,
        }
    }

    /// The kind that cancels a subscription opened by this kind.
    pub fn cancel_kind(&self) -> (r: Option<OutboundMessages>)
        ensures
            r == cancel_kind(*self),
    {
        match self {
            OutboundMessages::ReqMarketData => Some(OutboundMessages::CancelMarketData),
            OutboundMessages::ReqMarketDepth => Some(OutboundMessages::CancelMarketDepth),
            OutboundMessages::ReqHistoricalData => Some(OutboundMessages::CancelHistoricalData),
            OutboundMessages::ReqScannerSubscription => Some(OutboundMessages::CancelScannerSubscription),
            OutboundMessages::ReqRealTimeBars => Some(OutboundMessages::CancelRealTimeBars),
            OutboundMessages::ReqFundamentalData => Some(OutboundMessages::CancelFundamentalData),
            OutboundMessages::ReqCalcImpliedVolat => Some(OutboundMessages::CancelCalcImpliedVolat),
            OutboundMessages::ReqAccountSummary => Some(OutboundMessages::CancelAccountSummary),
            OutboundMessages::ReqPositionsMulti => Some(OutboundMessages::CancelPositionsMulti),
            OutboundMessages::ReqAccountUpdatesMulti => Some(OutboundMessages::CancelAccountUpdatesMulti),
            OutboundMessages::ReqHeadTimestamp => Some(OutboundMessages::CancelHeadTimestamp),
            OutboundMessages::ReqHistogramData => Some(OutboundMessages::CancelHistogramData),
            OutboundMessages::ReqPnl => Some(OutboundMessages::CancelPnl),
            OutboundMessages::ReqPnlSingle => Some(OutboundMessages::CancelPnlSingle),
            OutboundMessages::ReqTickByTickData => Some(OutboundMessages::CancelTickByTickData),
            _ => None,
        }
    }

    /// The inbound kind after which no more events come for a request of this kind.
    pub fn end_sentinel(&self) -> (r: Option<InboundMessages>)
        ensures
            r == end_sentinel(*self),
    {
        match self {
            OutboundMessages::ReqContractData => Some(InboundMessages::ContractDataEnd),
            OutboundMessages::ReqExecutions => Some(InboundMessages::ExecutionDataEnd),
            OutboundMessages::ReqAccountSummary => Some(InboundMessages::AccountSummaryEnd),
            OutboundMessages::ReqPositionsMulti => Some(InboundMessages::PositionMultiEnd),
            OutboundMessages::ReqAccountUpdatesMulti => Some(InboundMessages::AccountUpdateMultiEnd),
            OutboundMessages::ReqSecDefOptParams => Some(InboundMessages::SecurityDefinitionOptionParameterEnd),
            OutboundMessages::ReqHistoricalNews => Some(InboundMessages::HistoricalNewsEnd),
            OutboundMessages::ReqMatchingSymbols => Some(InboundMessages::SymbolSamples),
            OutboundMessages::ReqHeadTimestamp => Some(InboundMessages::HeadTimestamp),
            OutboundMessages::ReqSmartComponents => Some(InboundMessages::SmartComponents),
            OutboundMessages::ReqNewsArticle => Some(InboundMessages::NewsArticle),
            OutboundMessages::ReqFundamentalData => Some(InboundMessages::FundamentalData),
            OutboundMessages::ReqHistogramData => Some(InboundMessages::HistogramData),
            OutboundMessages::ReqSoftDollarTiers => Some(InboundMessages::SoftDollarTiers),
            OutboundMessages::ReqHistoricalTicks => Some(InboundMessages::HistoricalTicks),
            _ => None,
        }
    }

    /// For a kind without a request id: the single inbound kind that answers it.
    pub fn slot_kind(&self) -> (r: Option<InboundMessages>)
        ensures
            r == slot_kind(*self),
    {
        match self {
            OutboundMessages::ReqCurrentTime => Some(InboundMessages::CurrentTime),
            OutboundMessages::ReqManagedAccounts => Some(InboundMessages::ManagedAccounts),
            OutboundMessages::ReqIds => Some(InboundMessages::NextValidID),
            OutboundMessages::ReqFamilyCodes => Some(InboundMessages::FamilyCodes),
            OutboundMessages::ReqMarketDepthExchanges => Some(InboundMessages::MarketDepthExchanges),
            OutboundMessages::ReqNewsProviders => Some(InboundMessages::NewsProviders),
            OutboundMessages::ReqScannerParameters => Some(InboundMessages::ScannerParameters),
            _ => None,
        }
    }
}

impl InboundMessages {
    /// The opcode of this kind.
    pub fn opcode(&self) -> (r: u32)
        ensures
            r == inbound_opcode(*self),
    {
        match self {
            InboundMessages::TickPrice => 1,
            InboundMessages::TickSize => 2,
            InboundMessages::OrderStatus => 3,
            InboundMessages::ErrMsg => 4,
            InboundMessages::OpenOrder => 5,
            InboundMessages::AccountValue => 6,
            InboundMessages::PortfolioValue => 7,
            InboundMessages::AccountUpdateTime => 8,
            InboundMessages::NextValidID => 9,
            InboundMessages::ContractData => 10,
            InboundMessages::ExecutionData => 11,
            InboundMessages::MarketDepth => 12,
            InboundMessages::MarketDepthL2 => 13,
            InboundMessages::NewsBulletins => 14,
            InboundMessages::ManagedAccounts => 15,
            InboundMessages::ReceiveFa => 16,
            InboundMessages::HistoricalData => 17,
            InboundMessages::BondContractData => 18,
            InboundMessages::ScannerParameters => 19,
            InboundMessages::ScannerData => 20,
            InboundMessages::TickOptionComputation => 21,
            InboundMessages::TickGeneric => 45,
            InboundMessages::TickString => 46,
            InboundMessages::TickEfp => 47,
            InboundMessages::CurrentTime => 49,
            InboundMessages::RealTimeBars => 50,
            InboundMessages::FundamentalData => 51,
            InboundMessages::ContractDataEnd => 52,
            InboundMessages::OpenOrderEnd => 53,
            InboundMessages::AccountDownloadEnd => 54,
            InboundMessages::ExecutionDataEnd => 55,
            InboundMessages::DeltaNeutralValidation => 56,
            InboundMessages::TickSnapshotEnd => 57,
            InboundMessages::MarketDataType => 58,
            InboundMessages::CommissionReport => 59,
            InboundMessages::PositionData => 61,
            InboundMessages::PositionEnd => 62,
            InboundMessages::AccountSummary => 63,
            InboundMessages::AccountSummaryEnd => 64,
            InboundMessages::VerifyMessageApi => 65,
            InboundMessages::VerifyCompleted => 66,
            InboundMessages::DisplayGroupList => 67,
            InboundMessages::DisplayGroupUpdated => 68,
            InboundMessages::VerifyAndAuthMessageApi => 69,
            InboundMessages::VerifyAndAuthCompleted => 70,
            InboundMessages::PositionMulti => 71,
            InboundMessages::PositionMultiEnd => 72,
            InboundMessages::AccountUpdateMulti => 73,
            InboundMessages::AccountUpdateMultiEnd => 74,
            InboundMessages::SecurityDefinitionOptionParameter => 75,
            InboundMessages::SecurityDefinitionOptionParameterEnd => 76,
            InboundMessages::SoftDollarTiers => 77,
            InboundMessages::FamilyCodes => 78,
            InboundMessages::SymbolSamples => 79,
            InboundMessages::MarketDepthExchanges => 80,
            InboundMessages::TickReqParams => 81,
            InboundMessages::SmartComponents => 82,
            InboundMessages::NewsArticle => 83,
            InboundMessages::TickNews => 84,
            InboundMessages::NewsProviders => 85,
            InboundMessages::HistoricalNews => 86,
            InboundMessages::HistoricalNewsEnd => 87,
            InboundMessages::HeadTimestamp => 88,
            InboundMessages::HistogramData => 89,
            InboundMessages::HistoricalDataUpdate => 90,
            InboundMessages::RerouteMarketDataReq => 91,
            InboundMessages::RerouteMarketDepthReq => 92,
            InboundMessages::MarketRule => 93,
            InboundMessages::ProfitAndLoss => 94,
            InboundMessages::ProfitAndLossSingle => 95,
            InboundMessages::HistoricalTicks => 96,
            InboundMessages::HistoricalTicksBidAsk => 97,
            InboundMessages::HistoricalTicksLast => 98,
            InboundMessages::TickByTick => 99,
            InboundMessages::OrderBound => 100,
            InboundMessages::CompletedOrder => 101,
            InboundMessages::CompletedOrdersEnd => 102,
            InboundMessages::ReplaceFaEnd => 103,
        }
    }

    /// The kind of an opcode, if the catalog lists it.
    pub fn from_opcode(op: i64) -> (r: Option<InboundMessages>)
        ensures
            r == inbound_of(op as int),
    {
        match op {
            1 => Some(InboundMessages::TickPrice),
            2 => Some(InboundMessages::TickSize),
            3 => Some(InboundMessages::OrderStatus),
            4 => Some(InboundMessages::ErrMsg),
            5 => Some(InboundMessages::OpenOrder),
            6 => Some(InboundMessages::AccountValue),
            7 => Some(InboundMessages::PortfolioValue),
            8 => Some(InboundMessages::AccountUpdateTime),
            9 => Some(InboundMessages::NextValidID),
            10 => Some(InboundMessages::ContractData),
            11 => Some(InboundMessages::ExecutionData),
            12 => Some(InboundMessages::MarketDepth),
            13 => Some(InboundMessages::MarketDepthL2),
            14 => Some(InboundMessages::NewsBulletins),
            15 => Some(InboundMessages::ManagedAccounts),
            16 => Some(InboundMessages::ReceiveFa),
            17 => Some(InboundMessages::HistoricalData),
            18 => Some(InboundMessages::BondContractData),
            19 => Some(InboundMessages::ScannerParameters),
            20 => Some(InboundMessages::ScannerData),
            21 => Some(InboundMessages::TickOptionComputation),
            45 => Some(InboundMessages::TickGeneric),
            46 => Some(InboundMessages::TickString),
            47 => Some(InboundMessages::TickEfp),
            49 => Some(InboundMessages::CurrentTime),
            50 => Some(InboundMessages::RealTimeBars),
            51 => Some(InboundMessages::FundamentalData),
            52 => Some(InboundMessages::ContractDataEnd),
            53 => Some(InboundMessages::OpenOrderEnd),
            54 => Some(InboundMessages::AccountDownloadEnd),
            55 => Some(InboundMessages::ExecutionDataEnd),
            56 => Some(InboundMessages::DeltaNeutralValidation),
            57 => Some(InboundMessages::TickSnapshotEnd),
            58 => Some(InboundMessages::MarketDataType),
            59 => Some(InboundMessages::CommissionReport),
            61 => Some(InboundMessages::PositionData),
            62 => Some(InboundMessages::PositionEnd),
            63 => Some(InboundMessages::AccountSummary),
            64 => Some(InboundMessages::AccountSummaryEnd),
            65 => Some(InboundMessages::VerifyMessageApi),
            66 => Some(InboundMessages::VerifyCompleted),
            67 => Some(InboundMessages::DisplayGroupList),
            68 => Some(InboundMessages::DisplayGroupUpdated),
            69 => Some(InboundMessages::VerifyAndAuthMessageApi),
            70 => Some(InboundMessages::VerifyAndAuthCompleted),
            71 => Some(InboundMessages::PositionMulti),
            72 => Some(InboundMessages::PositionMultiEnd),
            73 => Some(InboundMessages::AccountUpdateMulti),
            74 => Some(InboundMessages::AccountUpdateMultiEnd),
            75 => Some(InboundMessages::SecurityDefinitionOptionParameter),
            76 => Some(InboundMessages::SecurityDefinitionOptionParameterEnd),
            77 => Some(InboundMessages::SoftDollarTiers),
            78 => Some(InboundMessages::FamilyCodes),
            79 => Some(InboundMessages::SymbolSamples),
            80 => Some(InboundMessages::MarketDepthExchanges),
            81 => Some(InboundMessages::TickReqParams),
            82 => Some(InboundMessages::SmartComponents),
            83 => Some(InboundMessages::NewsArticle),
            84 => Some(InboundMessages::TickNews),
            85 => Some(InboundMessages::NewsProviders),
            86 => Some(InboundMessages::HistoricalNews),
            87 => Some(InboundMessages::HistoricalNewsEnd),
            88 => Some(InboundMessages::HeadTimestamp),
            89 => Some(InboundMessages::HistogramData),
            90 => Some(InboundMessages::HistoricalDataUpdate),
            91 => Some(InboundMessages::RerouteMarketDataReq),
            92 => Some(InboundMessages::RerouteMarketDepthReq),
            93 => Some(InboundMessages::MarketRule),
            94 => Some(InboundMessages::ProfitAndLoss),
            95 => Some(InboundMessages::ProfitAndLossSingle),
            96 => Some(InboundMessages::HistoricalTicks),
            97 => Some(InboundMessages::HistoricalTicksBidAsk),
            98 => Some(InboundMessages::HistoricalTicksLast),
            99 => Some(InboundMessages::TickByTick),
            100 => Some(InboundMessages::OrderBound),
            101 => Some(InboundMessages::CompletedOrder),
            102 => Some(InboundMessages::CompletedOrdersEnd),
            103 => Some(InboundMessages::ReplaceFaEnd),
            _ => None,
        }
    }

    /// The layout shape of this kind.
    pub fn shape(&self) -> (r: LayoutShape)
        ensures
            r == layout_shape(*self),
    {
        match self {
            InboundMessages::TickPrice => LayoutShape::TickQuote,
            InboundMessages::TickSize => LayoutShape::IdIntInt,
            InboundMessages::TickString | InboundMessages::ErrMsg | InboundMessages::NewsArticle => LayoutShape::IdIntText,
            InboundMessages::TickGeneric => LayoutShape::IdIntFloat,
            InboundMessages::TickSnapshotEnd | InboundMessages::ContractDataEnd | InboundMessages::ExecutionDataEnd | InboundMessages::AccountSummaryEnd | InboundMessages::PositionMulti | InboundMessages::PositionMultiEnd | InboundMessages::AccountUpdateMulti | InboundMessages::AccountUpdateMultiEnd | InboundMessages::SecurityDefinitionOptionParameter | InboundMessages::SecurityDefinitionOptionParameterEnd | InboundMessages::HistoricalNews | InboundMessages::SymbolSamples | InboundMessages::SmartComponents | InboundMessages::HistogramData | InboundMessages::ProfitAndLossSingle | InboundMessages::HistoricalTicks | InboundMessages::HistoricalTicksBidAsk | InboundMessages::HistoricalTicksLast | InboundMessages::MarketDepth | InboundMessages::MarketDepthL2 | InboundMessages::ScannerData | InboundMessages::TickReqParams | InboundMessages::TickNews | InboundMessages::RerouteMarketDataReq | InboundMessages::RerouteMarketDepthReq | InboundMessages::HistoricalDataUpdate | InboundMessages::DeltaNeutralValidation | InboundMessages::DisplayGroupList | InboundMessages::DisplayGroupUpdated | InboundMessages::SoftDollarTiers | InboundMessages::ReplaceFaEnd => LayoutShape::IdOnly,
            InboundMessages::NextValidID | InboundMessages::CurrentTime => LayoutShape::Int,
            InboundMessages::ManagedAccounts => LayoutShape::Text,
            InboundMessages::ContractData => LayoutShape::ContractDetails,
            InboundMessages::ExecutionData | InboundMessages::HistoricalNewsEnd | InboundMessages::TickByTick | InboundMessages::RealTimeBars | InboundMessages::TickOptionComputation | InboundMessages::TickEfp | InboundMessages::MarketDataType => LayoutShape::IdInt,
            InboundMessages::AccountSummary => LayoutShape::IdFourTexts,
            InboundMessages::HistoricalData => LayoutShape::IdTextTextInt,
            InboundMessages::HeadTimestamp | InboundMessages::FundamentalData => LayoutShape::IdText,
            InboundMessages::ProfitAndLoss => LayoutShape::IdThreeFloats,
            _ => LayoutShape::Untyped,
        }
    }
}

impl LayoutShape {
    /// The typed fields of this shape.
    pub fn fields(&self) -> (r: Vec<FieldSpec>)
        ensures
            r@ == shape_fields(*self),
    {
        match self {
            LayoutShape::TickQuote => {
                let r = vec![FieldSpec::new(FieldKind::Integer, 0), FieldSpec::new(FieldKind::Integer, 0), FieldSpec::new(FieldKind::Floating, 0), FieldSpec::new(FieldKind::Integer, 0), FieldSpec::new(FieldKind::Integer, 0)];
                assert(r@ =~= shape_fields(*self));
                r
            },
            LayoutShape::IdIntInt => {
                let r = vec![FieldSpec::new(FieldKind::Integer, 0), FieldSpec::new(FieldKind::Integer, 0), FieldSpec::new(FieldKind::Integer, 0)];
                assert(r@ =~= shape_fields(*self));
                r
            },
            LayoutShape::IdIntText => {
                let r = vec![FieldSpec::new(FieldKind::Integer, 0), FieldSpec::new(FieldKind::Integer, 0), FieldSpec::new(FieldKind::Text, 0)];
                assert(r@ =~= shape_fields(*self));
                r
            },
            LayoutShape::IdIntFloat => {
                let r = vec![FieldSpec::new(FieldKind::Integer, 0), FieldSpec::new(FieldKind::Integer, 0), FieldSpec::new(FieldKind::Floating, 0)];
                assert(r@ =~= shape_fields(*self));
                r
            },
            LayoutShape::IdOnly => {
                let r = vec![FieldSpec::new(FieldKind::Integer, 0)];
                assert(r@ =~= shape_fields(*self));
                r
            },
            LayoutShape::Int => {
                let r = vec![FieldSpec::new(FieldKind::Integer, 0)];
                assert(r@ =~= shape_fields(*self));
                r
            },
            LayoutShape::Text => {
                let r = vec![FieldSpec::new(FieldKind::Text, 0)];
                assert(r@ =~= shape_fields(*self));
                r
            },
            LayoutShape::ContractDetails => {
                let r = vec![FieldSpec::new(FieldKind::Integer, 0), FieldSpec::new(FieldKind::Text, 0), FieldSpec::new(FieldKind::Text, 0), FieldSpec::new(FieldKind::Text, 0), FieldSpec::new(FieldKind::Text, 0), FieldSpec::new(FieldKind::Integer, 0), FieldSpec::new(FieldKind::Floating, 0), FieldSpec::new(FieldKind::Text, 110)];
                assert(r@ =~= shape_fields(*self));
                r
            },
            LayoutShape::IdInt => {
                let r = vec![FieldSpec::new(FieldKind::Integer, 0), FieldSpec::new(FieldKind::Integer, 0)];
                assert(r@ =~= shape_fields(*self));
                r
            },
            LayoutShape::IdFourTexts => {
                let r = vec![FieldSpec::new(FieldKind::Integer, 0), FieldSpec::new(FieldKind::Text, 0), FieldSpec::new(FieldKind::Text, 0), FieldSpec::new(FieldKind::Text, 0), FieldSpec::new(FieldKind::Text, 0)];
                assert(r@ =~= shape_fields(*self));
                r
            },
            LayoutShape::IdTextTextInt => {
                let r = vec![FieldSpec::new(FieldKind::Integer, 0), FieldSpec::new(FieldKind::Text, 0), FieldSpec::new(FieldKind::Text, 0), FieldSpec::new(FieldKind::Integer, 0)];
                assert(r@ =~= shape_fields(*self));
                r
            },
            LayoutShape::IdText => {
                let r = vec![FieldSpec::new(FieldKind::Integer, 0), FieldSpec::new(FieldKind::Text, 0)];
                assert(r@ =~= shape_fields(*self));
                r
            },
            LayoutShape::IdThreeFloats => {
                let r = vec![FieldSpec::new(FieldKind::Integer, 0), FieldSpec::new(FieldKind::Floating, 0), FieldSpec::new(FieldKind::Floating, 0), FieldSpec::new(FieldKind::Floating, 0)];
                assert(r@ =~= shape_fields(*self));
                r
            },
            LayoutShape::Untyped => {
                let r: Vec<FieldSpec> = Vec::new();
                assert(r@ =~= shape_fields(*self));
                r
            },
        }
    }

    /// Where the request id stands among the typed fields of this shape.
    pub fn id_position(&self) -> (r: Option<usize>)
        ensures
            r matches Some(p) ==> shape_id_pos(*self) == Some(p as nat),
            r is None ==> shape_id_pos(*self) is None,
    {
        match self {
            LayoutShape::TickQuote => Some(0),
            LayoutShape::IdIntInt => Some(0),
            LayoutShape::IdIntText => Some(0),
            LayoutShape::IdIntFloat => Some(0),
            LayoutShape::IdOnly => Some(0),
            LayoutShape::ContractDetails => Some(0),
            LayoutShape::IdInt => Some(0),
            LayoutShape::IdFourTexts => Some(0),
            LayoutShape::IdTextTextInt => Some(0),
            LayoutShape::IdText => Some(0),
            LayoutShape::IdThreeFloats => Some(0),
            _ => None,
        }
    }
}

} // verus!
