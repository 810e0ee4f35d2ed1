//! Admin panel types: verification review, audit logging, dashboard stats.

use vstd::prelude::*;

use crate::pagination::PaginationParams;

verus! {

/// Admin action types for audit logging.
#[derive(Debug, Clone, Copy, PartialEq, Eq, Structural)]
pub enum AdminAction {
    VerifySubcontractor,
    RejectSubcontractor,
    GrantAdmin,
    RevokeAdmin,
    SuspendUser,
    UnsuspendUser,
    DeleteContent,
    UpdateSystemSetting,
    ViewSensitiveData,
}

impl AdminAction {
    /// The wire name of this action.
    pub open spec fn spec_as_str(self) -> Seq<char> {
        match self {
            AdminAction::VerifySubcontractor => "verify_subcontractor"@,
            AdminAction::RejectSubcontractor => "reject_subcontractor"@,
            AdminAction::GrantAdmin => "grant_admin"@,
            AdminAction::RevokeAdmin => "revoke_admin"@,
            AdminAction::SuspendUser => "suspend_user"@,
            AdminAction::UnsuspendUser => "unsuspend_user"@,
            AdminAction::DeleteContent => "delete_content"@,
            AdminAction::UpdateSystemSetting => "update_system_setting"@,
            AdminAction::ViewSensitiveData => "view_sensitive_data"@,
        }
    }

    /// Snake-case wire name of this action.
    pub fn as_str(self) -> (r: &'static str)
        ensures
            r@ == self.spec_as_str(),
    {
        match self {
            AdminAction::VerifySubcontractor => "verify_subcontractor",
            AdminAction::RejectSubcontractor => "reject_subcontractor",
            AdminAction::GrantAdmin => "grant_admin",
            AdminAction::RevokeAdmin => "revoke_admin",
            AdminAction::SuspendUser => "suspend_user",
            AdminAction::UnsuspendUser => "unsuspend_user",
            AdminAction::DeleteContent => "delete_content",
            AdminAction::UpdateSystemSetting => "update_system_setting",
            AdminAction::ViewSensitiveData => "view_sensitive_data",
        }
    }
}

/// Target types for audit logging.
#[derive(Debug, Clone, Copy, PartialEq, Eq, Structural)]
pub enum AuditTargetType {
    Subcontractor,
    Profile,
    Tender,
    Bid,
    Contract,
    Review,
    Project,
    SystemSetting,
}

impl AuditTargetType {
    /// The wire name of this target type.
    pub open spec fn spec_as_str(self) -> Seq<char> {
        match self {
            AuditTargetType::Subcontractor => "subcontractor"@,
            AuditTargetType::Profile => "profile"@,
            AuditTargetType::Tender => "tender"@,
            AuditTargetType::Bid => "bid"@,
            AuditTargetType::Contract => "contract"@,
            AuditTargetType::Review => "review"@,
            AuditTargetType::Project => "project"@,
            AuditTargetType::SystemSetting => "system_setting"@,
        }
    }

    /// Snake-case wire name of this target type.
    pub fn as_str(self) -> (r: &'static str)
        ensures
            r@ == self.spec_as_str(),
    {
        match self {
            AuditTargetType::Subcontractor => "subcontractor",
            AuditTargetType::Profile => "profile",
            AuditTargetType::Tender => "tender",
            AuditTargetType::Bid => "bid",
            AuditTargetType::Contract => "contract",
            AuditTargetType::Review => "review",
            AuditTargetType::Project => "project",
            AuditTargetType::SystemSetting => "system_setting",
        }
    }
}

/// Request to approve a verification.
#[derive(Debug, Clone, PartialEq, Eq)]
pub struct ApproveVerificationRequest {
    pub notes: Option<String>,
}

/// Request to reject a verification.
#[derive(Debug, Clone, PartialEq, Eq)]
pub struct RejectVerificationRequest {
    pub reason: String,
    pub notes: Option<String>,
}

/// Admin dashboard stats.
#[derive(Debug, Clone, Copy, PartialEq, Eq, Structural)]
pub struct AdminDashboardStats {
    pub pending_verifications: i64,
    pub total_subcontractors: i64,
    pub verified_subcontractors: i64,
    pub total_tenders: i64,
    pub open_tenders: i64,
    pub total_bids: i64,
    pub total_contracts: i64,
    pub active_contracts: i64,
    pub total_users: i64,
    pub gc_users: i64,
    pub sub_users: i64,
    pub recent_signups_7d: i64,
    pub recent_verifications_7d: i64,
}

/// Filter for listing pending verifications.
#[derive(Debug, Clone, PartialEq, Eq)]
pub struct VerificationQuery {
    pub trade: Option<String>,
    pub sort_by: Option<String>,
    pub sort_order: Option<String>,
}

/// Pagination plus filter for the verification list.
#[derive(Debug, Clone, PartialEq, Eq)]
pub struct VerificationQueryParams {
    pub pagination: PaginationParams,
    pub filter: VerificationQuery,
}

/// Why an admin-only request was refused.
#[derive(Debug, Clone, PartialEq, Eq)]
pub enum AdminAuthError {
    NotAuthenticated,
    NotAdmin,
    DatabaseError(String),
}

} // verus!
