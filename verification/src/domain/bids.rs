//! Bid types: bid lifecycle status and request shapes.

use vstd::prelude::*;

verus! {

/// Bid status.
#[derive(Debug, Clone, Copy, PartialEq, Eq, Structural)]
pub enum BidStatus {
    Draft,
    Submitted,
    UnderReview,
    Shortlisted,
    Awarded,
    Rejected,
    Withdrawn,
}

impl Default for BidStatus {
    /// A new bid starts as a draft.
    fn default() -> (r: Self)
        ensures
            r == BidStatus::Draft,
    {
        BidStatus::Draft
    }
}

/// Request body for creating a bid; amounts are in cents.
#[derive(Debug, Clone, PartialEq, Eq)]
pub struct CreateBidRequest {
    pub company_name: String,
    pub contact_name: Option<String>,
    pub contact_email: Option<String>,
    pub contact_phone: Option<String>,
    pub bid_amount: i64,
    pub notes: Option<String>,
}

/// Request body for updating a bid.
#[derive(Debug, Clone, PartialEq, Eq)]
pub struct UpdateBidRequest {
    pub company_name: Option<String>,
    pub contact_name: Option<String>,
    pub contact_email: Option<String>,
    pub contact_phone: Option<String>,
    pub bid_amount: Option<i64>,
    pub status: Option<BidStatus>,
    pub notes: Option<String>,
}

} // verus!
