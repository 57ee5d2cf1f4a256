//! Read-only projection of store rows.
//!
//! Queries open short-lived connections in the unverified shell; the
//! shell hands each fetched row over as plain cells, and this module
//! decodes them into immutable DTOs. A store file that does not exist
//! yields an empty collection, never an error. Numeric values are carried
//! as IEEE 754 bit patterns (`u64`), so the decoding policy — the two
//! core numeric columns default to the bits of 0.0 when absent — is
//! stated and checked without floating-point arithmetic; the shell
//! converts bits to floats at its boundary.

use vstd::prelude::*;
use crate::errors::StoreError;
use crate::pathset::BackendPaths;

verus! {

/// A numeric column as fetched from one row.
#[derive(Debug, Clone, Copy)]
pub enum RealCell {
    /// The column held no value.
    Absent,
    /// The column held a number, as IEEE 754 bits.
    Bits(u64),
    /// The column held a value that is not a number.
    Malformed,
}

/// One fetched row of the transfers table, in query column order. `None`
/// stands for a column that is absent or not of the expected type.
#[derive(Debug, Clone)]
pub struct RawTransferRow {
    pub transaction_id: Option<String>,
    pub currency: Option<String>,
    pub datetime: Option<String>,
    /// The amount as IEEE 754 bits.
    pub amount: Option<u64>,
}

/// The transfer projection returned to the command surface. All four
/// columns are required.
#[derive(Debug, Clone)]
pub struct TransferDto {
    pub transaction_id: String,
    pub currency: String,
    pub datetime: String,
    /// The amount as IEEE 754 bits.
    pub amount_bits: u64,
}

/// One fetched row of the trades table, in query column order.
#[derive(Debug, Clone)]
pub struct RawTradeRow {
    pub trade_id: Option<String>,
    pub ticker: Option<String>,
    /// The quantity column: absent, numeric, or of the wrong type.
    pub quantity: RealCell,
    /// The purchase column: absent, numeric, or of the wrong type.
    pub purchase: RealCell,
    pub datetime: Option<String>,
    /// The commission as IEEE 754 bits, when present and numeric.
    pub commission: Option<u64>,
    pub commission_currency: Option<String>,
    pub currency: Option<String>,
    pub isin: Option<String>,
    pub asset_class: Option<String>,
}

/// The trade projection returned to the command surface. Only the
/// identity is required; the two core numeric columns default to 0.0
/// (bit pattern zero) when absent, and every other column is optional.
#[derive(Debug, Clone)]
pub struct TradeDto {
    pub trade_id: String,
    pub ticker: Option<String>,
    /// The quantity as IEEE 754 bits; zero bits encode 0.0.
    pub quantity_bits: u64,
    /// The purchase value as IEEE 754 bits; zero bits encode 0.0.
    pub purchase_bits: u64,
    pub datetime: Option<String>,
    /// The commission as IEEE 754 bits, when present.
    pub commission_bits: Option<u64>,
    pub commission_currency: Option<String>,
    pub currency: Option<String>,
    pub isin: Option<String>,
    pub asset_class: Option<String>,
}

/// A transfer row decodes: every one of its four columns is present and
/// well-typed.
pub open spec fn transfer_row_ok(r: RawTransferRow) -> bool {
    &&& r.transaction_id is Some
    &&& r.currency is Some
    &&& r.datetime is Some
    &&& r.amount is Some
}

/// The DTO a decodable transfer row yields.
pub open spec fn transfer_dto_matches(d: TransferDto, r: RawTransferRow) -> bool {
    &&& d.transaction_id == r.transaction_id->0
    &&& d.currency == r.currency->0
    &&& d.datetime == r.datetime->0
    &&& d.amount_bits == r.amount->0
}

/// A trade row decodes: its identity is present and its two core numeric
/// columns are absent or numeric, never of the wrong type.
pub open spec fn trade_row_ok(r: RawTradeRow) -> bool {
    &&& r.trade_id is Some
    &&& !(r.quantity is Malformed)
    &&& !(r.purchase is Malformed)
}

/// The value a decodable numeric cell yields: the bits of 0.0 when the
/// column is absent.
pub open spec fn real_cell_bits(c: RealCell) -> u64
    recommends
        !(c is Malformed),
{
    match c {
        RealCell::Absent => 0u64,
        RealCell::Bits(b) => b,
        RealCell::Malformed => 0u64,
    }
}

/// The DTO a decodable trade row yields.
pub open spec fn trade_dto_matches(d: TradeDto, r: RawTradeRow) -> bool {
    &&& d.trade_id == r.trade_id->0
    &&& d.ticker == r.ticker
    &&& d.quantity_bits == real_cell_bits(r.quantity)
    &&& d.purchase_bits == real_cell_bits(r.purchase)
    &&& d.datetime == r.datetime
    &&& d.commission_bits == r.commission
    &&& d.commission_currency == r.commission_currency
    &&& d.currency == r.currency
    &&& d.isin == r.isin
    &&& d.asset_class == r.asset_class
}

/// Decode one transfer row; a missing or ill-typed column fails the row.
pub fn decode_transfer(raw: &RawTransferRow) -> (r: Result<TransferDto, StoreError>)
    ensures
        r is Ok <==> transfer_row_ok(*raw),
        r is Ok ==> transfer_dto_matches(r->Ok_0, *raw),
        r is Err ==> r->Err_0 is RowDecoding,
{
    match (&raw.transaction_id, &raw.currency, &raw.datetime, &raw.amount) {
        (Some(transaction_id), Some(currency), Some(datetime), Some(amount)) => Ok(
            TransferDto {
                transaction_id: transaction_id.clone(),
                currency: currency.clone(),
                datetime: datetime.clone(),
                amount_bits: *amount,
            },
        ),
        _ => Err(
            StoreError::RowDecoding {
                detail: String::from_str("a transfer row held an absent or ill-typed column"),
            },
        ),
    }
}

/// Clone an optional string column.
fn clone_opt_string(o: &Option<String>) -> (r: Option<String>)
    ensures
        r == *o,
{
    match o {
        Some(s) => Some(s.clone()),
        None => None,
    }
}

/// Decode one trade row: the identity is required, the two core numeric
/// columns default to 0.0 when absent, everything else stays optional.
pub fn decode_trade(raw: &RawTradeRow) -> (r: Result<TradeDto, StoreError>)
    ensures
        r is Ok <==> trade_row_ok(*raw),
        r is Ok ==> trade_dto_matches(r->Ok_0, *raw),
        r is Err ==> r->Err_0 is RowDecoding,
{
    let trade_id = match &raw.trade_id {
        Some(t) => t.clone(),
        None => {
            return Err(
                StoreError::RowDecoding {
                    detail: String::from_str("a trade row held no identity column"),
                },
            );
        },
    };
    let quantity_bits = match raw.quantity {
        RealCell::Absent => 0,
        RealCell::Bits(b) => b,
        RealCell::Malformed => {
            return Err(
                StoreError::RowDecoding {
                    detail: String::from_str("a trade row held a non-numeric quantity"),
                },
            );
        },
    };
    let purchase_bits = match raw.purchase {
        RealCell::Absent => 0,
        RealCell::Bits(b) => b,
        RealCell::Malformed => {
            return Err(
                StoreError::RowDecoding {
                    detail: String::from_str("a trade row held a non-numeric purchase value"),
                },
            );
        },
    };
    Ok(
        TradeDto {
            trade_id,
            ticker: clone_opt_string(&raw.ticker),
            quantity_bits,
            purchase_bits,
            datetime: clone_opt_string(&raw.datetime),
            commission_bits: raw.commission,
            commission_currency: clone_opt_string(&raw.commission_currency),
            currency: clone_opt_string(&raw.currency),
            isin: clone_opt_string(&raw.isin),
            asset_class: clone_opt_string(&raw.asset_class),
        },
    )
}

/// Load the transfer projections: a store file that does not exist yields
/// an empty collection and no error; otherwise every fetched row must
/// decode, and the first failing row fails the load.
pub fn load_transfers(db_exists: bool, rows: &Vec<RawTransferRow>) -> (r: Result<
    Vec<TransferDto>,
    StoreError,
>)
    ensures
        !db_exists ==> r is Ok && r->Ok_0@ == Seq::<TransferDto>::empty(),
        db_exists ==> {
            &&& r is Ok <==> (forall|i: int|
                0 <= i < rows@.len() ==> transfer_row_ok(#[trigger] rows@[i]))
            &&& r is Ok ==> r->Ok_0@.len() == rows@.len() && (forall|i: int|
                0 <= i < rows@.len() ==> transfer_dto_matches(
                    #[trigger] r->Ok_0@[i],
                    rows@[i],
                ))
            &&& r is Err ==> r->Err_0 is RowDecoding && (exists|i: int|
                0 <= i < rows@.len() && !transfer_row_ok(#[trigger] rows@[i]))
        },
{
    if !db_exists {
        return Ok(Vec::new());
    }
    let mut out: Vec<TransferDto> = Vec::new();
    let mut i: usize = 0;
    while i < rows.len()
        invariant
            db_exists,
            i == out@.len(),
            i <= rows@.len(),
            forall|j: int| 0 <= j < i ==> transfer_row_ok(#[trigger] rows@[j]),
            forall|j: int| 0 <= j < i ==> transfer_dto_matches(#[trigger] out@[j], rows@[j]),
        decreases rows@.len() - i,
    {
        match decode_transfer(&rows[i]) {
            Ok(d) => out.push(d),
            Err(e) => {
                return Err(e);
            },
        }
        i += 1;
    }
    Ok(out)
}

/// Load the trade projections, with the same tolerance for an absent
/// store file and the same first-error policy.
pub fn load_trades(db_exists: bool, rows: &Vec<RawTradeRow>) -> (r: Result<
    Vec<TradeDto>,
    StoreError,
>)
    ensures
        !db_exists ==> r is Ok && r->Ok_0@ == Seq::<TradeDto>::empty(),
        db_exists ==> {
            &&& r is Ok <==> (forall|i: int|
                0 <= i < rows@.len() ==> trade_row_ok(#[trigger] rows@[i]))
            &&& r is Ok ==> r->Ok_0@.len() == rows@.len() && (forall|i: int|
                0 <= i < rows@.len() ==> trade_dto_matches(#[trigger] r->Ok_0@[i], rows@[i]))
            &&& r is Err ==> r->Err_0 is RowDecoding && (exists|i: int|
                0 <= i < rows@.len() && !trade_row_ok(#[trigger] rows@[i]))
        },
{
    if !db_exists {
        return Ok(Vec::new());
    }
    let mut out: Vec<TradeDto> = Vec::new();
    let mut i: usize = 0;
    while i < rows.len()
        invariant
            db_exists,
            i == out@.len(),
            i <= rows@.len(),
            forall|j: int| 0 <= j < i ==> trade_row_ok(#[trigger] rows@[j]),
            forall|j: int| 0 <= j < i ==> trade_dto_matches(#[trigger] out@[j], rows@[j]),
        decreases rows@.len() - i,
    {
        match decode_trade(&rows[i]) {
            Ok(d) => out.push(d),
            Err(e) => {
                return Err(e);
            },
        }
        i += 1;
    }
    Ok(out)
}

/// A decoded numeric column that was absent yields exactly 0.0: the row
/// still decodes (it is neither an error nor a missing record), and every
/// DTO it can yield carries the zero bit pattern — the IEEE 754 encoding
/// of 0.0 — in that column.
pub proof fn lemma_absent_numeric_defaults_to_zero(raw: RawTradeRow)
    requires
        raw.trade_id is Some,
        raw.quantity is Absent,
        !(raw.purchase is Malformed),
    ensures
        trade_row_ok(raw),
        forall|d: TradeDto| trade_dto_matches(d, raw) ==> d.quantity_bits == 0,
{
}

/// The summary returned by the readiness command: the store path, whether
/// the store file exists, and the row count of the transfers kind.
#[derive(Debug, Clone)]
pub struct BackendInfo {
    pub db_path: String,
    pub exists: bool,
    /// The transfer row count; zero when the store file does not exist.
    pub transfers: u64,
}

/// Compose the backend summary. The count is whatever the store reported
/// when the file exists, and zero — without any query — when it does not.
pub fn backend_summary(paths: &BackendPaths, db_exists: bool, counted_transfers: u64) -> (r:
    BackendInfo)
    ensures
        r.db_path@ == paths@.db_path,
        r.exists == db_exists,
        r.transfers == if db_exists {
            counted_transfers
        } else {
            0u64
        },
{
    BackendInfo {
        db_path: paths.db_path.clone(),
        exists: db_exists,
        transfers: if db_exists {
            counted_transfers
        } else {
            0
        },
    }
}

/// The fixed query behind the transfer load: all rows of the kind,
/// ordered ascending by the timestamp-like column.
pub fn transfers_query() -> (r: String)
    ensures
        r@ == "SELECT transaction_id, currency, datetime, amount FROM transfers ORDER BY datetime ASC"@,
{
    String::from_str(
        "SELECT transaction_id, currency, datetime, amount FROM transfers ORDER BY datetime ASC",
    )
}

/// The fixed query behind the trade load: all rows of the kind, ordered
/// ascending by the timestamp-like column.
pub fn trades_query() -> (r: String)
    ensures
        r@ == "SELECT trade_id, ticker, quantity, purchase, datetime, commission, commission_currency, currency, isin, asset_class FROM trades ORDER BY datetime ASC"@,
{
    String::from_str(
        "SELECT trade_id, ticker, quantity, purchase, datetime, commission, commission_currency, currency, isin, asset_class FROM trades ORDER BY datetime ASC",
    )
}

/// The fixed counting query behind the backend summary.
pub fn count_transfers_query() -> (r: String)
    ensures
        r@ == "SELECT COUNT(*) FROM transfers"@,
{
    String::from_str("SELECT COUNT(*) FROM transfers")
}

/// Decode the store's reported transfer count. A counting query reports a
/// non-negative total; a negative value cannot be a count and clamps to
/// zero.
pub fn decode_transfer_count(total: i64) -> (r: u64)
    ensures
        total >= 0 ==> r == total,
        total < 0 ==> r == 0,
{
    if total < 0 {
        0
    } else {
        total as u64
    }
}

} // verus!
