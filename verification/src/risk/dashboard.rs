//! Risk dashboard.

use vstd::prelude::*;

verus! {

/// The risk dashboard (rendered as Chinese CLI text).
pub struct RiskDashboard;

} // verus!
