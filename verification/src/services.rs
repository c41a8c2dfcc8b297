//! The stock operations of the inventory service.
//!
//! Each operation takes the counters stored for an item (`None` when no row
//! has the requested id) and the requested quantity, and returns either the
//! counters to store back or the error to answer with. A caller that gets an
//! error writes nothing.
use vstd::prelude::*;

use crate::models::{CreateItem, InventoryItem, StockLevels};

verus! {

/// Why a request to the service failed.
#[derive(Debug, PartialEq, Eq)]
pub enum ServiceError {
    /// No item has the requested id.
    NotFound,
    /// The request cannot be honoured; the text says why.
    BadRequest(String),
    /// The database reported an error; the text is its message.
    Db(String),
}

/// A `ServiceError` with its texts as character sequences.
pub enum ServiceErrorView {
    NotFound,
    BadRequest(Seq<char>),
    Db(Seq<char>),
}

impl View for ServiceError {
    type V = ServiceErrorView;

    open spec fn view(&self) -> ServiceErrorView {
        match self {
            ServiceError::NotFound => ServiceErrorView::NotFound,
            ServiceError::BadRequest(m) => ServiceErrorView::BadRequest(m@),
            ServiceError::Db(m) => ServiceErrorView::Db(m@),
        }
    }
}

/// The outcome of a stock operation with its error viewed.
pub open spec fn outcome_view(r: Result<StockLevels, ServiceError>) -> Result<
    StockLevels,
    ServiceErrorView,
> {
    match r {
        Ok(s) => Ok(s),
        Err(e) => Err(e@),
    }
}

/// The text of the error for a quantity that is zero or negative.
pub open spec fn not_positive_text() -> Seq<char> {
    "Quantity must be positive"@
}

/// The text of the error for a reservation that the stock cannot cover.
pub open spec fn not_enough_stock_text() -> Seq<char> {
    "Not enough stock"@
}

/// The text of the error for a release of more than is reserved.
pub open spec fn release_too_much_text() -> Seq<char> {
    "Cannot release more than reserved"@
}

/// The text of the error for a commit of more than is reserved.
pub open spec fn commit_too_much_text() -> Seq<char> {
    "Not enough reserved stock to commit"@
}

/// What reserving `qty` units of an item does.
///
/// A quantity of zero is refused. Otherwise an unknown item is not found,
/// and a known one must have at least `qty` units available; then `qty`
/// more units are reserved and the total stays.
pub open spec fn reserve_result(stock: Option<StockLevels>, qty: int) -> Result<
    StockLevels,
    ServiceErrorView,
> {
    if qty <= 0 {
        Err(ServiceErrorView::BadRequest(not_positive_text()))
    } else {
        match stock {
            Some(s) => if s.available() >= qty {
                Ok(
                    StockLevels {
                        total_quantity: s.total_quantity,
                        reserved_quantity: (s.reserved_quantity + qty) as i64,
                    },
                )
            } else {
                Err(ServiceErrorView::BadRequest(not_enough_stock_text()))
            },
            None => Err(ServiceErrorView::NotFound),
        }
    }
}

/// What releasing `qty` reserved units of an item does.
///
/// A quantity that is not positive is refused. Otherwise an unknown item is
/// not found, and a known one must have at least `qty` units reserved; then
/// `qty` fewer units are reserved and the total stays.
pub open spec fn release_result(stock: Option<StockLevels>, qty: int) -> Result<
    StockLevels,
    ServiceErrorView,
> {
    if qty <= 0 {
        Err(ServiceErrorView::BadRequest(not_positive_text()))
    } else {
        match stock {
            Some(s) => if s.reserved_quantity >= qty {
                Ok(
                    StockLevels {
                        total_quantity: s.total_quantity,
                        reserved_quantity: (s.reserved_quantity - qty) as i64,
                    },
                )
            } else {
                Err(ServiceErrorView::BadRequest(release_too_much_text()))
            },
            None => Err(ServiceErrorView::NotFound),
        }
    }
}

/// What committing `qty` reserved units of an item does.
///
/// A quantity that is not positive is refused. Otherwise an unknown item is
/// not found, and a known one must have at least `qty` units reserved; then
/// both the reserved and the total quantity drop by `qty`.
pub open spec fn commit_result(stock: Option<StockLevels>, qty: int) -> Result<
    StockLevels,
    ServiceErrorView,
> {
    if qty <= 0 {
        Err(ServiceErrorView::BadRequest(not_positive_text()))
    } else {
        match stock {
            Some(s) => if s.reserved_quantity >= qty {
                Ok(
                    StockLevels {
                        total_quantity: (s.total_quantity - qty) as i64,
                        reserved_quantity: (s.reserved_quantity - qty) as i64,
                    },
                )
            } else {
                Err(ServiceErrorView::BadRequest(commit_too_much_text()))
            },
            None => Err(ServiceErrorView::NotFound),
        }
    }
}

/// The row that creating `item` stores: its id, name and sku, its quantity
/// as the total, and nothing reserved.
pub open spec fn created_item(item: CreateItem, row: InventoryItem) -> bool {
    &&& row.id@ == item.id@
    &&& row.name@ == item.name@
    &&& row.sku@ == item.sku@
    &&& row.total_quantity == item.quantity as i64
    &&& row.reserved_quantity == 0
}

fn not_positive_error() -> (e: ServiceError)
    ensures
        e@ == ServiceErrorView::BadRequest(not_positive_text()),
{
    ServiceError::BadRequest("Quantity must be positive".to_owned())
}

fn not_enough_stock_error() -> (e: ServiceError)
    ensures
        e@ == ServiceErrorView::BadRequest(not_enough_stock_text()),
{
    ServiceError::BadRequest("Not enough stock".to_owned())
}

fn release_too_much_error() -> (e: ServiceError)
    ensures
        e@ == ServiceErrorView::BadRequest(release_too_much_text()),
{
    ServiceError::BadRequest("Cannot release more than reserved".to_owned())
}

fn commit_too_much_error() -> (e: ServiceError)
    ensures
        e@ == ServiceErrorView::BadRequest(commit_too_much_text()),
{
    ServiceError::BadRequest("Not enough reserved stock to commit".to_owned())
}

/// Refuses a quantity that is zero or negative, as every stock operation
/// does before it looks at the item.
pub fn check_quantity(qty: i64) -> (r: Result<(), ServiceError>)
    ensures
        qty > 0 <==> r is Ok,
        r matches Err(e) ==> e@ == ServiceErrorView::BadRequest(not_positive_text()),
{
    if qty <= 0 {
        Err(not_positive_error())
    } else {
        Ok(())
    }
}

/// The row to insert for a new item.
pub fn create_item(item: &CreateItem) -> (row: InventoryItem)
    ensures
        created_item(*item, row),
{
    InventoryItem {
        id: item.id.clone(),
        name: item.name.clone(),
        sku: item.sku.clone(),
        total_quantity: item.quantity as i64,
        reserved_quantity: 0,
    }
}

/// Reserves `qty` units of the item whose counters are `stock`.
pub fn reserve_item(stock: Option<StockLevels>, qty: u32) -> (r: Result<StockLevels, ServiceError>)
    ensures
        outcome_view(r) == reserve_result(stock, qty as int),
{
    let qty_i64 = qty as i64;
    if let Err(e) = check_quantity(qty_i64) {
        return Err(e);
    }
    match stock {
        Some(s) => {
            let available: i128 = s.total_quantity as i128 - s.reserved_quantity as i128;
            if available >= qty_i64 as i128 {
                Ok(
                    StockLevels {
                        total_quantity: s.total_quantity,
                        reserved_quantity: s.reserved_quantity + qty_i64,
                    },
                )
            } else {
                Err(not_enough_stock_error())
            }
        },
        None => Err(ServiceError::NotFound),
    }
}

/// Releases `qty` reserved units of the item whose counters are `stock`.
pub fn release_item(stock: Option<StockLevels>, qty: i32) -> (r: Result<StockLevels, ServiceError>)
    ensures
        outcome_view(r) == release_result(stock, qty as int),
{
    let qty_i64 = qty as i64;
    if let Err(e) = check_quantity(qty_i64) {
        return Err(e);
    }
    match stock {
        Some(s) => {
            if s.reserved_quantity >= qty_i64 {
                Ok(
                    StockLevels {
                        total_quantity: s.total_quantity,
                        reserved_quantity: s.reserved_quantity - qty_i64,
                    },
                )
            } else {
                Err(release_too_much_error())
            }
        },
        None => Err(ServiceError::NotFound),
    }
}

/// Commits `qty` reserved units of the item whose counters are `stock`: they
/// leave the stock for good.
///
/// The new total must fit in an `i64`; on a well-formed item it always does.
pub fn commit_item(stock: Option<StockLevels>, qty: i32) -> (r: Result<StockLevels, ServiceError>)
    requires
        stock matches Some(s) ==> (s.reserved_quantity >= qty > 0 ==> s.total_quantity - qty
            >= i64::MIN),
    ensures
        outcome_view(r) == commit_result(stock, qty as int),
{
    let qty_i64 = qty as i64;
    if let Err(e) = check_quantity(qty_i64) {
        return Err(e);
    }
    match stock {
        Some(s) => {
            if s.reserved_quantity >= qty_i64 {
                Ok(
                    StockLevels {
                        total_quantity: s.total_quantity - qty_i64,
                        reserved_quantity: s.reserved_quantity - qty_i64,
                    },
                )
            } else {
                Err(commit_too_much_error())
            }
        },
        None => Err(ServiceError::NotFound),
    }
}

} // verus!
