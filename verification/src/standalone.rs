//! The rules of the standalone server, which answers HTTP directly from its
//! own table whose counters are read as 32-bit integers.
//!
//! Like the service, it refuses a quantity that is not positive; it answers
//! 404 for an unknown item and 400 for a request the stock cannot honour.
use vstd::prelude::*;

use crate::handlers::{item_not_found_text, status_bad_request, status_not_found, HttpReply};
use crate::models::StockLevels;
use crate::services::{
    commit_too_much_text,
    not_enough_stock_text,
    not_positive_text,
    release_too_much_text,
};

verus! {

/// A planned update, or the answer that refuses it, with the answer's body
/// viewed.
pub open spec fn plan_view(r: Result<StockLevels, HttpReply>) -> Result<StockLevels, (u16, Seq<char>)> {
    match r {
        Ok(s) => Ok(s),
        Err(reply) => Err((reply.status, reply.body@)),
    }
}

/// What the standalone server does with a reservation of `qty` units of the
/// item whose counters `(total, reserved)` it read.
///
/// A quantity that is not positive is answered with 400. Otherwise an
/// unknown item is answered with 404, and when fewer than `qty` units are
/// available the answer is 400. Otherwise `qty` is added to the reserved
/// quantity.
pub open spec fn standalone_reserve_result(stock: Option<(i32, i32)>, qty: int) -> Result<
    StockLevels,
    (u16, Seq<char>),
> {
    if qty <= 0 {
        Err((status_bad_request(), not_positive_text()))
    } else {
        match stock {
            None => Err((status_not_found(), item_not_found_text())),
            Some((total, reserved)) => if total - reserved < qty {
                Err((status_bad_request(), not_enough_stock_text()))
            } else {
                Ok(
                    StockLevels {
                        total_quantity: total as i64,
                        reserved_quantity: (reserved + qty) as i64,
                    },
                )
            },
        }
    }
}

/// What the standalone server does with a commit of `qty` units of the item
/// whose counters `(total, reserved)` it read.
///
/// A quantity that is not positive is answered with 400. Otherwise an
/// unknown item is answered with 404, and when fewer than `qty` units are
/// reserved the answer is 400. Otherwise `qty` is taken from both counters.
pub open spec fn standalone_commit_result(stock: Option<(i32, i32)>, qty: int) -> Result<
    StockLevels,
    (u16, Seq<char>),
> {
    if qty <= 0 {
        Err((status_bad_request(), not_positive_text()))
    } else {
        match stock {
            None => Err((status_not_found(), item_not_found_text())),
            Some((total, reserved)) => if reserved < qty {
                Err((status_bad_request(), commit_too_much_text()))
            } else {
                Ok(
                    StockLevels {
                        total_quantity: (total - qty) as i64,
                        reserved_quantity: (reserved - qty) as i64,
                    },
                )
            },
        }
    }
}

/// What the standalone server does with a release of `qty` reserved units
/// of the item whose counters `(total, reserved)` it read.
///
/// A quantity that is not positive is answered with 400. Otherwise an
/// unknown item is answered with 404, and when fewer than `qty` units are
/// reserved the answer is 400. Otherwise `qty` is taken from the reserved
/// quantity.
pub open spec fn standalone_release_result(stock: Option<(i32, i32)>, qty: int) -> Result<
    StockLevels,
    (u16, Seq<char>),
> {
    if qty <= 0 {
        Err((status_bad_request(), not_positive_text()))
    } else {
        match stock {
            None => Err((status_not_found(), item_not_found_text())),
            Some((total, reserved)) => if reserved < qty {
                Err((status_bad_request(), release_too_much_text()))
            } else {
                Ok(
                    StockLevels {
                        total_quantity: total as i64,
                        reserved_quantity: (reserved - qty) as i64,
                    },
                )
            },
        }
    }
}

fn not_positive_reply() -> (reply: HttpReply)
    ensures
        reply.status == status_bad_request(),
        reply.body@ == not_positive_text(),
{
    HttpReply { status: 400, body: "Quantity must be positive".to_owned() }
}

fn not_found_reply() -> (reply: HttpReply)
    ensures
        reply.status == status_not_found(),
        reply.body@ == item_not_found_text(),
{
    HttpReply { status: 404, body: "Item not found".to_owned() }
}

/// Decides a reservation of `qty` units on the counters `(total, reserved)`
/// read for the item, `None` when there is no such item.
///
/// The available quantity is computed in 32 bits, so it must fit there.
pub fn plan_reserve(stock: Option<(i32, i32)>, qty: i32) -> (r: Result<StockLevels, HttpReply>)
    requires
        stock matches Some((total, reserved)) ==> i32::MIN <= total - reserved <= i32::MAX,
    ensures
        plan_view(r) == standalone_reserve_result(stock, qty as int),
{
    if qty <= 0 {
        return Err(not_positive_reply());
    }
    match stock {
        None => Err(not_found_reply()),
        Some((total, reserved)) => {
            if total - reserved < qty {
                Err(HttpReply { status: 400, body: "Not enough stock".to_owned() })
            } else {
                Ok(
                    StockLevels {
                        total_quantity: total as i64,
                        reserved_quantity: reserved as i64 + qty as i64,
                    },
                )
            }
        },
    }
}

/// Decides a commit of `qty` units on the counters `(total, reserved)` read
/// for the item, `None` when there is no such item.
pub fn plan_commit(stock: Option<(i32, i32)>, qty: i32) -> (r: Result<StockLevels, HttpReply>)
    ensures
        plan_view(r) == standalone_commit_result(stock, qty as int),
{
    if qty <= 0 {
        return Err(not_positive_reply());
    }
    match stock {
        None => Err(not_found_reply()),
        Some((total, reserved)) => {
            if reserved < qty {
                Err(
                    HttpReply { status: 400, body: "Not enough reserved stock to commit".to_owned() },
                )
            } else {
                Ok(
                    StockLevels {
                        total_quantity: total as i64 - qty as i64,
                        reserved_quantity: reserved as i64 - qty as i64,
                    },
                )
            }
        },
    }
}

/// Decides a release of `qty` reserved units on the counters
/// `(total, reserved)` read for the item, `None` when there is no such item.
pub fn plan_release(stock: Option<(i32, i32)>, qty: i32) -> (r: Result<StockLevels, HttpReply>)
    ensures
        plan_view(r) == standalone_release_result(stock, qty as int),
{
    if qty <= 0 {
        return Err(not_positive_reply());
    }
    match stock {
        None => Err(not_found_reply()),
        Some((total, reserved)) => {
            if reserved < qty {
                Err(HttpReply { status: 400, body: "Cannot release more than reserved".to_owned() })
            } else {
                Ok(
                    StockLevels {
                        total_quantity: total as i64,
                        reserved_quantity: reserved as i64 - qty as i64,
                    },
                )
            }
        },
    }
}

} // verus!
