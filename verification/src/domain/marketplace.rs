//! Marketplace types: subcontractor profiles, verification and public
//! tender browsing.

use vstd::prelude::*;

use crate::pagination::PaginationParams;
use crate::text::str_eq;

verus! {

/// Verification status of a marketplace profile.
#[derive(Debug, Clone, Copy, PartialEq, Eq, Structural)]
pub enum VerificationStatus {
    Pending,
    Verified,
    Rejected,
}

impl Default for VerificationStatus {
    /// A new profile awaits verification.
    fn default() -> (r: Self)
        ensures
            r == VerificationStatus::Pending,
    {
        VerificationStatus::Pending
    }
}

impl VerificationStatus {
    /// The wire name of this status.
    pub open spec fn spec_as_str(self) -> Seq<char> {
        match self {
            VerificationStatus::Pending => "pending"@,
            VerificationStatus::Verified => "verified"@,
            VerificationStatus::Rejected => "rejected"@,
        }
    }

    /// Snake-case wire name of this status.
    pub fn as_str(self) -> (r: &'static str)
        ensures
            r@ == self.spec_as_str(),
    {
        match self {
            VerificationStatus::Pending => "pending",
            VerificationStatus::Verified => "verified",
            VerificationStatus::Rejected => "rejected",
        }
    }

    /// The status a wire name denotes; anything unrecognized means pending.
    pub fn from_str(s: &str) -> (r: Self)
        ensures
            s@ == "verified"@ ==> r == VerificationStatus::Verified,
            s@ == "rejected"@ ==> r == VerificationStatus::Rejected,
            s@ != "verified"@ && s@ != "rejected"@ ==> r == VerificationStatus::Pending,
    {
        proof {
            reveal_strlit("verified");
            reveal_strlit("rejected");
            assert("verified"@ != "rejected"@) by {
                assert("verified"@[0] == 'v');
                assert("rejected"@[0] == 'r');
            }
        }
        if str_eq(s, "verified") {
            VerificationStatus::Verified
        } else if str_eq(s, "rejected") {
            VerificationStatus::Rejected
        } else {
            VerificationStatus::Pending
        }
    }
}

/// Availability of a subcontractor for new work.
#[derive(Debug, Clone, Copy, PartialEq, Eq, Structural)]
pub enum AvailabilityStatus {
    Available,
    Busy,
    NotTakingWork,
}

impl Default for AvailabilityStatus {
    /// Available unless said otherwise.
    fn default() -> (r: Self)
        ensures
            r == AvailabilityStatus::Available,
    {
        AvailabilityStatus::Available
    }
}

impl AvailabilityStatus {
    /// The wire name of this status.
    pub open spec fn spec_as_str(self) -> Seq<char> {
        match self {
            AvailabilityStatus::Available => "available"@,
            AvailabilityStatus::Busy => "busy"@,
            AvailabilityStatus::NotTakingWork => "not_taking_work"@,
        }
    }

    /// Snake-case wire name of this status.
    pub fn as_str(self) -> (r: &'static str)
        ensures
            r@ == self.spec_as_str(),
    {
        match self {
            AvailabilityStatus::Available => "available",
            AvailabilityStatus::Busy => "busy",
            AvailabilityStatus::NotTakingWork => "not_taking_work",
        }
    }

    /// The status a wire name denotes; anything unrecognized means available.
    pub fn from_str(s: &str) -> (r: Self)
        ensures
            s@ == "busy"@ ==> r == AvailabilityStatus::Busy,
            s@ == "not_taking_work"@ ==> r == AvailabilityStatus::NotTakingWork,
            s@ != "busy"@ && s@ != "not_taking_work"@ ==> r == AvailabilityStatus::Available,
    {
        proof {
            reveal_strlit("busy");
            reveal_strlit("not_taking_work");
            assert("busy"@ != "not_taking_work"@) by {
                assert("busy"@.len() == 4);
                assert("not_taking_work"@.len() == 15);
            }
        }
        if str_eq(s, "busy") {
            AvailabilityStatus::Busy
        } else if str_eq(s, "not_taking_work") {
            AvailabilityStatus::NotTakingWork
        } else {
            AvailabilityStatus::Available
        }
    }
}

/// A certification a profile claims; dates are ISO strings.
#[derive(Debug, Clone, PartialEq, Eq)]
pub struct Certification {
    pub name: String,
    pub issuer: Option<String>,
    pub issue_date: Option<String>,
    pub expiry_date: Option<String>,
    pub credential_id: Option<String>,
    pub verified: bool,
}

/// Insurance coverage of a profile; amounts are in cents.
#[derive(Debug, Clone, PartialEq, Eq)]
pub struct InsuranceInfo {
    pub general_liability: Option<i64>,
    pub workers_comp: Option<i64>,
    pub auto_liability: Option<i64>,
    pub expiry_date: Option<String>,
    pub carrier: Option<String>,
    pub verified: bool,
}

/// Trade license of a profile.
#[derive(Debug, Clone, PartialEq, Eq)]
pub struct LicenseInfo {
    pub number: Option<String>,
    pub state: Option<String>,
    pub license_type: Option<String>,
    pub expiry_date: Option<String>,
    pub verified: bool,
}

/// Request body for updating a marketplace profile; every field optional.
#[derive(Debug, Clone, PartialEq, Eq)]
pub struct UpdateMarketplaceProfileRequest {
    pub name: Option<String>,
    pub headline: Option<String>,
    pub company_description: Option<String>,
    pub trade: Option<String>,
    pub secondary_trades: Option<Vec<String>>,
    pub location: Option<String>,
    pub contact_email: Option<String>,
    pub contact_phone: Option<String>,
    pub website: Option<String>,
    pub specialties: Option<Vec<String>>,
    pub service_areas: Option<Vec<String>>,
    pub certifications: Option<Vec<Certification>>,
    pub insurance: Option<InsuranceInfo>,
    pub license_info: Option<LicenseInfo>,
    pub year_established: Option<i32>,
    pub employee_count: Option<String>,
    pub min_project_value: Option<i64>,
    pub max_project_value: Option<i64>,
    pub availability_status: Option<String>,
}

/// Who may see a tender on the marketplace.
#[derive(Debug, Clone, Copy, PartialEq, Eq, Structural)]
pub enum TenderVisibility {
    Public,
    InvitedOnly,
}

impl Default for TenderVisibility {
    /// Public unless said otherwise.
    fn default() -> (r: Self)
        ensures
            r == TenderVisibility::Public,
    {
        TenderVisibility::Public
    }
}

impl TenderVisibility {
    /// The wire name of this visibility.
    pub open spec fn spec_as_str(self) -> Seq<char> {
        match self {
            TenderVisibility::Public => "public"@,
            TenderVisibility::InvitedOnly => "invited_only"@,
        }
    }

    /// Snake-case wire name of this visibility.
    pub fn as_str(self) -> (r: &'static str)
        ensures
            r@ == self.spec_as_str(),
    {
        match self {
            TenderVisibility::Public => "public",
            TenderVisibility::InvitedOnly => "invited_only",
        }
    }

    /// The visibility a wire name denotes; anything unrecognized means
    /// public.
    pub fn from_str(s: &str) -> (r: Self)
        ensures
            s@ == "invited_only"@ ==> r == TenderVisibility::InvitedOnly,
            s@ != "invited_only"@ ==> r == TenderVisibility::Public,
    {
        if str_eq(s, "invited_only") {
            TenderVisibility::InvitedOnly
        } else {
            TenderVisibility::Public
        }
    }
}

/// Filter for browsing marketplace tenders; amounts are in cents.
#[derive(Debug, Clone, PartialEq, Eq)]
pub struct MarketplaceTenderQuery {
    pub search: Option<String>,
    pub trade: Option<String>,
    pub trades: Option<Vec<String>>,
    pub location: Option<String>,
    pub min_value: Option<i64>,
    pub max_value: Option<i64>,
    pub due_within_days: Option<i32>,
    pub sort_by: Option<String>,
    pub sort_order: Option<String>,
}

/// Pagination plus filter for the marketplace tender list.
#[derive(Debug, Clone, PartialEq, Eq)]
pub struct MarketplaceTenderQueryParams {
    pub pagination: PaginationParams,
    pub filter: MarketplaceTenderQuery,
}

} // verus!
