//! Properties that hold across the stock operations.
use vstd::prelude::*;

use crate::handlers::{error_reply, status_ok, success_text, StockAction};
use crate::models::{CreateItem, InventoryItem, StockLevels};
use crate::services::{
    commit_result,
    created_item,
    release_result,
    reserve_result,
    ServiceErrorView,
};
use crate::standalone::{
    standalone_commit_result,
    standalone_release_result,
    standalone_reserve_result,
};

verus! {

/// A new item holds its quantity and reserves nothing, so it is well formed
/// whenever its quantity is not negative.
pub proof fn created_item_is_well_formed(item: CreateItem, row: InventoryItem)
    requires
        created_item(item, row),
        item.quantity >= 0,
    ensures
        row.stock_view().well_formed(),
        row.stock_view().available() == item.quantity,
{
}

/// Reserving, releasing and committing keep a well-formed item well formed:
/// the reserved quantity never drops below zero nor rises above the total.
pub proof fn operations_keep_well_formed(s: StockLevels, qty: int)
    requires
        s.well_formed(),
    ensures
        reserve_result(Some(s), qty) matches Ok(t) ==> t.well_formed(),
        release_result(Some(s), qty) matches Ok(t) ==> t.well_formed(),
        commit_result(Some(s), qty) matches Ok(t) ==> t.well_formed(),
{
}

/// A reservation moves `qty` units from available to reserved and leaves
/// the total alone; a release moves them back.
pub proof fn reserve_and_release_move_available(s: StockLevels, qty: int)
    ensures
        reserve_result(Some(s), qty) matches Ok(t) ==> t.total_quantity == s.total_quantity
            && t.reserved_quantity == s.reserved_quantity + qty && t.available() == s.available()
            - qty,
        release_result(Some(s), qty) matches Ok(t) ==> t.total_quantity == s.total_quantity
            && t.reserved_quantity == s.reserved_quantity - qty && t.available() == s.available()
            + qty,
{
}

/// A commit takes `qty` units out of both the total and the reserved
/// quantity, so what is available for new reservations does not change.
pub proof fn commit_keeps_available(s: StockLevels, qty: int)
    requires
        s.total_quantity - qty >= i64::MIN,
    ensures
        commit_result(Some(s), qty) matches Ok(t) ==> t.total_quantity == s.total_quantity - qty
            && t.reserved_quantity == s.reserved_quantity - qty && t.available()
            == s.available(),
{
}

/// Releasing what was just reserved gives back the item as it was.
pub proof fn release_undoes_reserve(s: StockLevels, qty: int)
    requires
        s.reserved_quantity >= 0,
        reserve_result(Some(s), qty) is Ok,
    ensures
        release_result(Some(reserve_result(Some(s), qty)->Ok_0), qty) == Ok::<
            StockLevels,
            ServiceErrorView,
        >(s),
{
}

/// Reserving again what was just released gives back the item as it was.
pub proof fn reserve_undoes_release(s: StockLevels, qty: int)
    requires
        s.available() >= 0,
        release_result(Some(s), qty) is Ok,
    ensures
        reserve_result(Some(release_result(Some(s), qty)->Ok_0), qty) == Ok::<
            StockLevels,
            ServiceErrorView,
        >(s),
{
}

/// Two reservations of positive quantities `a` and `b` end where a single
/// reservation of `a + b` ends, and that single one goes through exactly
/// when both of them do.
pub proof fn reservations_add_up(s: StockLevels, a: int, b: int)
    requires
        a > 0,
        b > 0,
    ensures
        reserve_result(Some(s), a + b) is Ok <==> (reserve_result(Some(s), a) is Ok
            && reserve_result(Some(reserve_result(Some(s), a)->Ok_0), b) is Ok),
        reserve_result(Some(s), a + b) is Ok ==> reserve_result(
            Some(reserve_result(Some(s), a)->Ok_0),
            b,
        ) == reserve_result(Some(s), a + b),
{
}

/// No refused request is answered with status 200.
pub proof fn refusals_are_not_success(err: ServiceErrorView, status: u16, body: Seq<char>)
    requires
        error_reply(err, status, body),
    ensures
        status != status_ok(),
        400 <= status < 600,
{
}

/// In the standalone server, a reservation keeps well-formed counters well
/// formed.
pub proof fn standalone_reserve_keeps_well_formed(total: i32, reserved: i32, qty: int)
    requires
        0 <= reserved <= total,
    ensures
        standalone_reserve_result(Some((total, reserved)), qty) matches Ok(t) ==> t.well_formed(),
{
}

/// In the standalone server, a release keeps well-formed counters well
/// formed.
pub proof fn standalone_release_keeps_well_formed(total: i32, reserved: i32, qty: int)
    requires
        0 <= reserved <= total,
    ensures
        standalone_release_result(Some((total, reserved)), qty) matches Ok(t) ==> t.well_formed(),
{
}

/// Every stock operation of the service and of the standalone server, on an
/// item that does not exist and with a positive quantity, is answered as not
/// found.
pub proof fn unknown_items_are_not_found(qty: int)
    requires
        qty > 0,
    ensures
        reserve_result(None, qty) == Err::<StockLevels, ServiceErrorView>(
            ServiceErrorView::NotFound,
        ),
        release_result(None, qty) == Err::<StockLevels, ServiceErrorView>(
            ServiceErrorView::NotFound,
        ),
        commit_result(None, qty) == Err::<StockLevels, ServiceErrorView>(
            ServiceErrorView::NotFound,
        ),
        standalone_reserve_result(None, qty) == Err::<StockLevels, (u16, Seq<char>)>(
            (404u16, "Item not found"@),
        ),
        standalone_release_result(None, qty) == Err::<StockLevels, (u16, Seq<char>)>(
            (404u16, "Item not found"@),
        ),
        standalone_commit_result(None, qty) == Err::<StockLevels, (u16, Seq<char>)>(
            (404u16, "Item not found"@),
        ),
{
}

/// Every stock operation of the service and of the standalone server refuses
/// a quantity that is not positive with 400, whatever the item holds.
pub proof fn non_positive_quantities_are_refused(
    stock: Option<StockLevels>,
    counters: Option<(i32, i32)>,
    qty: int,
)
    requires
        qty <= 0,
    ensures
        reserve_result(stock, qty) == Err::<StockLevels, ServiceErrorView>(
            ServiceErrorView::BadRequest("Quantity must be positive"@),
        ),
        release_result(stock, qty) == Err::<StockLevels, ServiceErrorView>(
            ServiceErrorView::BadRequest("Quantity must be positive"@),
        ),
        commit_result(stock, qty) == Err::<StockLevels, ServiceErrorView>(
            ServiceErrorView::BadRequest("Quantity must be positive"@),
        ),
        standalone_reserve_result(counters, qty) == Err::<StockLevels, (u16, Seq<char>)>(
            (400u16, "Quantity must be positive"@),
        ),
        standalone_release_result(counters, qty) == Err::<StockLevels, (u16, Seq<char>)>(
            (400u16, "Quantity must be positive"@),
        ),
        standalone_commit_result(counters, qty) == Err::<StockLevels, (u16, Seq<char>)>(
            (400u16, "Quantity must be positive"@),
        ),
{
}

/// In the standalone server, a commit keeps well-formed counters well formed
/// and leaves the available quantity as it was.
pub proof fn standalone_commit_keeps_well_formed(total: i32, reserved: i32, qty: i32)
    requires
        0 <= reserved <= total,
    ensures
        standalone_commit_result(Some((total, reserved)), qty as int) matches Ok(t)
            ==> t.well_formed() && t.available() == total - reserved,
{
}

/// A reservation of a positive quantity on an existing item goes through
/// exactly when at least that much is available. It then adds exactly `qty`
/// to the reserved quantity and leaves the total; otherwise it is refused
/// with 400 "Not enough stock", never as an unknown item.
pub proof fn reserve_on_existing_item(s: StockLevels, qty: int)
    requires
        qty > 0,
    ensures
        reserve_result(Some(s), qty) is Ok <==> s.total_quantity - s.reserved_quantity >= qty,
        reserve_result(Some(s), qty) matches Ok(t) ==> t.total_quantity == s.total_quantity
            && t.reserved_quantity == s.reserved_quantity + qty,
        s.total_quantity - s.reserved_quantity < qty ==> reserve_result(Some(s), qty) == Err::<
            StockLevels,
            ServiceErrorView,
        >(ServiceErrorView::BadRequest("Not enough stock"@)),
{
}

/// A release of a positive quantity on an existing item goes through exactly
/// when at least that much is reserved, whatever the total. It then takes
/// exactly `qty` from the reserved quantity and leaves the total; otherwise
/// it is refused with "Cannot release more than reserved".
pub proof fn release_on_existing_item(s: StockLevels, qty: int)
    requires
        qty > 0,
    ensures
        release_result(Some(s), qty) is Ok <==> s.reserved_quantity >= qty,
        release_result(Some(s), qty) matches Ok(t) ==> t.total_quantity == s.total_quantity
            && t.reserved_quantity == s.reserved_quantity - qty,
        s.reserved_quantity < qty ==> release_result(Some(s), qty) == Err::<
            StockLevels,
            ServiceErrorView,
        >(ServiceErrorView::BadRequest("Cannot release more than reserved"@)),
{
}

/// A commit of a positive quantity on an existing item goes through exactly
/// when at least that much is reserved, whatever the total. It then takes
/// exactly `qty` from both counters; otherwise it is refused with "Not
/// enough reserved stock to commit".
pub proof fn commit_on_existing_item(s: StockLevels, qty: int)
    requires
        qty > 0,
        s.total_quantity - qty >= i64::MIN,
    ensures
        commit_result(Some(s), qty) is Ok <==> s.reserved_quantity >= qty,
        commit_result(Some(s), qty) matches Ok(t) ==> t.total_quantity == s.total_quantity - qty
            && t.reserved_quantity == s.reserved_quantity - qty,
        s.reserved_quantity < qty ==> commit_result(Some(s), qty) == Err::<
            StockLevels,
            ServiceErrorView,
        >(ServiceErrorView::BadRequest("Not enough reserved stock to commit"@)),
{
}

/// In the standalone server, a reservation of a positive quantity on an
/// existing item goes through exactly when at least that much is available.
/// It then adds exactly `qty` to the reserved quantity and leaves the total;
/// otherwise it is answered 400 "Not enough stock".
pub proof fn standalone_reserve_on_existing_item(total: i32, reserved: i32, qty: int)
    requires
        qty > 0,
        qty <= i32::MAX,
    ensures
        standalone_reserve_result(Some((total, reserved)), qty) is Ok <==> total - reserved >= qty,
        standalone_reserve_result(Some((total, reserved)), qty) matches Ok(t) ==> t.total_quantity
            == total && t.reserved_quantity == reserved + qty,
        total - reserved < qty ==> standalone_reserve_result(Some((total, reserved)), qty)
            == Err::<StockLevels, (u16, Seq<char>)>((400u16, "Not enough stock"@)),
{
}

/// In the standalone server, a release of a positive quantity on an existing
/// item goes through exactly when at least that much is reserved, whatever
/// the total. It then takes exactly `qty` from the reserved quantity and
/// leaves the total; otherwise it is answered 400 "Cannot release more than
/// reserved".
pub proof fn standalone_release_on_existing_item(total: i32, reserved: i32, qty: int)
    requires
        qty > 0,
    ensures
        standalone_release_result(Some((total, reserved)), qty) is Ok <==> reserved >= qty,
        standalone_release_result(Some((total, reserved)), qty) matches Ok(t) ==> t.total_quantity
            == total && t.reserved_quantity == reserved - qty,
        reserved < qty ==> standalone_release_result(Some((total, reserved)), qty) == Err::<
            StockLevels,
            (u16, Seq<char>),
        >((400u16, "Cannot release more than reserved"@)),
{
}

/// In the standalone server, a commit of a positive quantity on an existing
/// item goes through exactly when at least that much is reserved, whatever
/// the total. It then takes exactly `qty` from both counters; otherwise it is
/// answered 400 "Not enough reserved stock to commit".
pub proof fn standalone_commit_on_existing_item(total: i32, reserved: i32, qty: int)
    requires
        qty > 0,
        qty <= i32::MAX,
    ensures
        standalone_commit_result(Some((total, reserved)), qty) is Ok <==> reserved >= qty,
        standalone_commit_result(Some((total, reserved)), qty) matches Ok(t) ==> t.total_quantity
            == total - qty && t.reserved_quantity == reserved - qty,
        reserved < qty ==> standalone_commit_result(Some((total, reserved)), qty) == Err::<
            StockLevels,
            (u16, Seq<char>),
        >((400u16, "Not enough reserved stock to commit"@)),
{
}

/// A new item's row carries the request's id, name and sku, holds the
/// requested quantity and reserves nothing.
pub proof fn created_item_holds_the_request(item: CreateItem, row: InventoryItem)
    requires
        created_item(item, row),
    ensures
        row.id@ == item.id@,
        row.name@ == item.name@,
        row.sku@ == item.sku@,
        row.total_quantity == item.quantity,
        row.reserved_quantity == 0,
{
}

/// Each kind of failure has its own answer: an unknown item is 404 "Item not
/// found", a refused request is 400 with its reason, and a database error is
/// 500 with the database's message.
pub proof fn error_answers(err: ServiceErrorView, status: u16, body: Seq<char>)
    requires
        error_reply(err, status, body),
    ensures
        err is NotFound ==> status == 404 && body == "Item not found"@,
        err matches ServiceErrorView::BadRequest(m) ==> status == 400 && body == m,
        err matches ServiceErrorView::Db(m) ==> status == 500 && body == m,
{
}

/// Each stock operation that goes through is confirmed with its own text.
pub proof fn success_answers(action: StockAction)
    ensures
        action is Reserve ==> success_text(action) == "Reserved successfully"@,
        action is Release ==> success_text(action) == "Released successfully"@,
        action is Commit ==> success_text(action) == "Committed successfully"@,
{
}

} // verus!
