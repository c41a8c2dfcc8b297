//! The records the service stores and receives.
use vstd::prelude::*;

verus! {

/// The two counters of a stored item that the stock operations read and write.
#[derive(Clone, Copy, Debug, PartialEq, Eq, Structural)]
pub struct StockLevels {
    pub total_quantity: i64,
    pub reserved_quantity: i64,
}

impl StockLevels {
    /// Stock that can still be reserved.
    pub open spec fn available(self) -> int {
        self.total_quantity - self.reserved_quantity
    }

    /// What every stored item satisfies: nothing negative is reserved, and
    /// no more is reserved than is held.
    pub open spec fn well_formed(self) -> bool {
        0 <= self.reserved_quantity <= self.total_quantity
    }
}

/// A row of the inventory table.
#[derive(Clone, Debug, PartialEq, Eq)]
pub struct InventoryItem {
    pub id: String,
    pub name: String,
    pub sku: String,
    pub total_quantity: i64,
    pub reserved_quantity: i64,
}

impl InventoryItem {
    /// The counters of this row.
    pub open spec fn stock_view(&self) -> StockLevels {
        StockLevels { total_quantity: self.total_quantity, reserved_quantity: self.reserved_quantity }
    }

    /// The counters of this row.
    pub fn stock(&self) -> (s: StockLevels)
        ensures
            s == self.stock_view(),
    {
        StockLevels { total_quantity: self.total_quantity, reserved_quantity: self.reserved_quantity }
    }
}

/// The request body that creates an item.
#[derive(Clone, Debug, PartialEq, Eq)]
pub struct CreateItem {
    pub id: String,
    pub name: String,
    pub sku: String,
    pub quantity: i32,
}

} // verus!
