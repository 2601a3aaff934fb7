//! A sample row type for a virtualized order list: plain data that a host
//! view renders one row per item.

use vstd::prelude::*;

verus! {

/// One row of the demonstration order list.
#[derive(Clone, Debug)]
pub struct User {
    /// Position of the row in the full list.
    pub n: usize,
    /// Order number shown in the row.
    pub order_id: usize,
    /// Customer name shown in the row.
    pub customer: String,
    /// Whether the order is settled.
    pub paid: bool,
}

impl User {
    /// Builds a row from its field values.  Where the surrounding
    /// application invents sample data, it draws the values first and
    /// records them here.
    pub fn new(n: usize, order_id: usize, customer: String, paid: bool) -> (u: User)
        ensures
            u.n == n,
            u.order_id == order_id,
            u.customer == customer,
            u.paid == paid,
    {
        User { n, order_id, customer, paid }
    }
}

} // verus!
