//! Record parts shared by several API record types.

use vstd::prelude::*;

verus! {

/// An hourly or cost rate.
#[derive(Debug, Clone)]
pub struct Rate {
    pub amount: u32,
    pub currency: String,
}

/// A user's membership in a workspace or project.
#[derive(Debug, Clone)]
pub struct Membership {
    pub user_id: String,
    pub hourly_rate: Option<Rate>,
    pub cost_rate: Option<Rate>,
    pub target_id: String,
    pub membership_type: String,
    pub membership_status: String,
}

} // verus!
