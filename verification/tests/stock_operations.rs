use inventory_service::handlers::{service_error_to_response, stock_action_response, HttpReply, StockAction};
use inventory_service::services::{check_quantity, commit_item, create_item, release_item, reserve_item};
use inventory_service::standalone::{plan_commit, plan_release, plan_reserve};
use inventory_service::{CreateItem, InventoryItem, ServiceError, StockLevels};

fn levels(total: i64, reserved: i64) -> StockLevels {
    StockLevels { total_quantity: total, reserved_quantity: reserved }
}

fn bad_request(text: &str) -> ServiceError {
    ServiceError::BadRequest(text.to_string())
}

fn reply(status: u16, body: &str) -> HttpReply {
    HttpReply { status, body: body.to_string() }
}

#[test]
fn create_item_stores_quantity_and_reserves_nothing() {
    let request = CreateItem {
        id: "a1".to_string(),
        name: "Widget".to_string(),
        sku: "W-1".to_string(),
        quantity: 10,
    };
    let row = create_item(&request);
    assert_eq!(
        row,
        InventoryItem {
            id: "a1".to_string(),
            name: "Widget".to_string(),
            sku: "W-1".to_string(),
            total_quantity: 10,
            reserved_quantity: 0,
        }
    );
    assert_eq!(row.stock(), levels(10, 0));
}

#[test]
fn create_item_keeps_a_negative_quantity() {
    let request = CreateItem {
        id: "n".to_string(),
        name: "Neg".to_string(),
        sku: "N".to_string(),
        quantity: -4,
    };
    assert_eq!(create_item(&request).total_quantity, -4);
}

#[test]
fn reserve_adds_to_reserved() {
    assert_eq!(reserve_item(Some(levels(10, 3)), 5), Ok(levels(10, 8)));
}

#[test]
fn reserve_of_all_available_stock() {
    assert_eq!(reserve_item(Some(levels(10, 3)), 7), Ok(levels(10, 10)));
}

#[test]
fn reserve_beyond_available_is_refused() {
    assert_eq!(reserve_item(Some(levels(10, 3)), 8), Err(bad_request("Not enough stock")));
}

#[test]
fn reserve_of_unknown_item_is_not_found() {
    assert_eq!(reserve_item(None, 1), Err(ServiceError::NotFound));
}

#[test]
fn reserve_of_zero_is_refused() {
    assert_eq!(reserve_item(Some(levels(10, 0)), 0), Err(bad_request("Quantity must be positive")));
    assert_eq!(reserve_item(None, 0), Err(bad_request("Quantity must be positive")));
}

#[test]
fn reserve_near_the_top_of_the_range() {
    assert_eq!(
        reserve_item(Some(levels(i64::MAX, i64::MAX - 5)), 5),
        Ok(levels(i64::MAX, i64::MAX))
    );
    assert_eq!(
        reserve_item(Some(levels(i64::MAX, i64::MIN)), u32::MAX),
        Ok(levels(i64::MAX, i64::MIN + u32::MAX as i64))
    );
}

#[test]
fn release_lowers_reserved() {
    assert_eq!(release_item(Some(levels(10, 8)), 5), Ok(levels(10, 3)));
    assert_eq!(release_item(Some(levels(10, 8)), 8), Ok(levels(10, 0)));
}

#[test]
fn release_of_more_than_reserved_is_refused() {
    assert_eq!(
        release_item(Some(levels(10, 3)), 4),
        Err(bad_request("Cannot release more than reserved"))
    );
    assert_eq!(release_item(None, 4), Err(ServiceError::NotFound));
}

#[test]
fn release_of_non_positive_quantity_is_refused() {
    assert_eq!(release_item(Some(levels(10, 3)), 0), Err(bad_request("Quantity must be positive")));
    assert_eq!(release_item(Some(levels(10, 3)), -2), Err(bad_request("Quantity must be positive")));
}

#[test]
fn commit_lowers_total_and_reserved() {
    assert_eq!(commit_item(Some(levels(10, 3)), 3), Ok(levels(7, 0)));
    assert_eq!(commit_item(Some(levels(10, 8)), 5), Ok(levels(5, 3)));
}

#[test]
fn commit_of_more_than_reserved_is_refused() {
    assert_eq!(
        commit_item(Some(levels(10, 3)), 4),
        Err(bad_request("Not enough reserved stock to commit"))
    );
    assert_eq!(commit_item(None, 1), Err(ServiceError::NotFound));
}

#[test]
fn commit_of_non_positive_quantity_is_refused() {
    assert_eq!(commit_item(Some(levels(10, 3)), 0), Err(bad_request("Quantity must be positive")));
    assert_eq!(commit_item(Some(levels(10, 3)), i32::MIN), Err(bad_request("Quantity must be positive")));
}

#[test]
fn release_undoes_a_reservation() {
    let start = levels(12, 4);
    let held = reserve_item(Some(start), 6).unwrap();
    assert_eq!(release_item(Some(held), 6), Ok(start));
}

#[test]
fn reservation_undoes_a_release() {
    let start = levels(12, 4);
    let freed = release_item(Some(start), 3).unwrap();
    assert_eq!(reserve_item(Some(freed), 3), Ok(start));
}

#[test]
fn commit_leaves_available_stock_alone() {
    let start = levels(12, 4);
    let after = commit_item(Some(start), 4).unwrap();
    assert_eq!(after.total_quantity - after.reserved_quantity, 8);
    assert_eq!(after, levels(8, 0));
}

#[test]
fn two_reservations_equal_one_of_their_sum() {
    let start = levels(9, 1);
    let twice = reserve_item(Some(reserve_item(Some(start), 3).unwrap()), 4);
    assert_eq!(twice, reserve_item(Some(start), 7));
    assert_eq!(reserve_item(Some(start), 9), Err(bad_request("Not enough stock")));
}

#[test]
fn operations_keep_stock_well_formed() {
    let mut s = levels(5, 0);
    s = reserve_item(Some(s), 5).unwrap();
    assert!(0 <= s.reserved_quantity && s.reserved_quantity <= s.total_quantity);
    assert!(reserve_item(Some(s), 1).is_err());
    s = commit_item(Some(s), 2).unwrap();
    assert!(0 <= s.reserved_quantity && s.reserved_quantity <= s.total_quantity);
    s = release_item(Some(s), 3).unwrap();
    assert_eq!(s, levels(3, 0));
    assert!(release_item(Some(s), 1).is_err());
}

#[test]
fn errors_map_to_http_answers() {
    assert_eq!(service_error_to_response(ServiceError::NotFound), reply(404, "Item not found"));
    assert_eq!(service_error_to_response(bad_request("Not enough stock")), reply(400, "Not enough stock"));
    assert_eq!(
        service_error_to_response(ServiceError::Db("disk I/O error".to_string())),
        reply(500, "disk I/O error")
    );
}

#[test]
fn stock_actions_answer_with_confirmations() {
    assert_eq!(stock_action_response(StockAction::Reserve, Ok(())), reply(200, "Reserved successfully"));
    assert_eq!(stock_action_response(StockAction::Release, Ok(())), reply(200, "Released successfully"));
    assert_eq!(stock_action_response(StockAction::Commit, Ok(())), reply(200, "Committed successfully"));
    assert_eq!(
        stock_action_response(StockAction::Commit, Err(bad_request("Quantity must be positive"))),
        reply(400, "Quantity must be positive")
    );
    assert_eq!(stock_action_response(StockAction::Reserve, Err(ServiceError::NotFound)), reply(404, "Item not found"));
}

#[test]
fn standalone_reserve_answers() {
    assert_eq!(plan_reserve(None, 1), Err(reply(404, "Item not found")));
    assert_eq!(plan_reserve(Some((10, 3)), 8), Err(reply(400, "Not enough stock")));
    assert_eq!(plan_reserve(Some((10, 3)), 7), Ok(levels(10, 10)));
    assert_eq!(plan_reserve(Some((10, 3)), 0), Err(reply(400, "Quantity must be positive")));
    assert_eq!(plan_reserve(Some((5, 3)), -1), Err(reply(400, "Quantity must be positive")));
    assert_eq!(plan_reserve(None, -1), Err(reply(400, "Quantity must be positive")));
    assert_eq!(plan_reserve(Some((i32::MAX, 0)), i32::MAX), Ok(levels(i32::MAX as i64, i32::MAX as i64)));
}

#[test]
fn standalone_commit_answers() {
    assert_eq!(plan_commit(None, 1), Err(reply(404, "Item not found")));
    assert_eq!(plan_commit(Some((10, 3)), 4), Err(reply(400, "Not enough reserved stock to commit")));
    assert_eq!(plan_commit(Some((10, 3)), 3), Ok(levels(7, 0)));
    assert_eq!(plan_commit(Some((5, 2)), -1), Err(reply(400, "Quantity must be positive")));
    assert_eq!(plan_commit(Some((5, 2)), 0), Err(reply(400, "Quantity must be positive")));
    assert_eq!(plan_commit(Some((i32::MAX, i32::MAX)), i32::MAX), Ok(levels(0, 0)));
}

#[test]
fn standalone_release_answers() {
    assert_eq!(plan_release(None, 1), Err(reply(404, "Item not found")));
    assert_eq!(plan_release(Some((10, 3)), 4), Err(reply(400, "Cannot release more than reserved")));
    assert_eq!(plan_release(Some((10, 3)), 3), Ok(levels(10, 0)));
    assert_eq!(plan_release(Some((10, 3)), 1), Ok(levels(10, 2)));
    assert_eq!(plan_release(Some((10, 3)), 0), Err(reply(400, "Quantity must be positive")));
    assert_eq!(plan_release(Some((10, 3)), -2), Err(reply(400, "Quantity must be positive")));
}

#[test]
fn quantity_check_refuses_zero_and_negative() {
    assert_eq!(check_quantity(1), Ok(()));
    assert_eq!(check_quantity(0), Err(bad_request("Quantity must be positive")));
    assert_eq!(check_quantity(-7), Err(bad_request("Quantity must be positive")));
}
