//! Notification types: kinds, list filter and unread count.

use vstd::prelude::*;

use crate::pagination::PaginationParams;

verus! {

/// Kind of notification.
#[derive(Debug, Clone, Copy, PartialEq, Eq, Structural)]
pub enum NotificationType {
    BidReceived,
    BidAwarded,
    BidRejected,
    BidShortlisted,
    BidWithdrawn,
    HireRequestReceived,
    HireRequestAccepted,
    HireRequestDeclined,
    HireRequestExpired,
    ContractSent,
    ContractSigned,
    ContractFullySigned,
    ReviewReceived,
    ReviewResponseReceived,
    ProfileVerified,
    ProfileRejected,
    ProfileViewed,
    NewMessage,
    TenderPublished,
    TenderClosingSoon,
    TenderClosed,
    System,
}

impl NotificationType {
    /// The wire name of this kind.
    pub open spec fn spec_as_str(self) -> Seq<char> {
        match self {
            NotificationType::BidReceived => "bid_received"@,
            NotificationType::BidAwarded => "bid_awarded"@,
            NotificationType::BidRejected => "bid_rejected"@,
            NotificationType::BidShortlisted => "bid_shortlisted"@,
            NotificationType::BidWithdrawn => "bid_withdrawn"@,
            NotificationType::HireRequestReceived => "hire_request_received"@,
            NotificationType::HireRequestAccepted => "hire_request_accepted"@,
            NotificationType::HireRequestDeclined => "hire_request_declined"@,
            NotificationType::HireRequestExpired => "hire_request_expired"@,
            NotificationType::ContractSent => "contract_sent"@,
            NotificationType::ContractSigned => "contract_signed"@,
            NotificationType::ContractFullySigned => "contract_fully_signed"@,
            NotificationType::ReviewReceived => "review_received"@,
            NotificationType::ReviewResponseReceived => "review_response_received"@,
            NotificationType::ProfileVerified => "profile_verified"@,
            NotificationType::ProfileRejected => "profile_rejected"@,
            NotificationType::ProfileViewed => "profile_viewed"@,
            NotificationType::NewMessage => "new_message"@,
            NotificationType::TenderPublished => "tender_published"@,
            NotificationType::TenderClosingSoon => "tender_closing_soon"@,
            NotificationType::TenderClosed => "tender_closed"@,
            NotificationType::System => "system"@,
        }
    }

    /// Snake-case wire name of this kind.
    pub fn as_str(self) -> (r: &'static str)
        ensures
            r@ == self.spec_as_str(),
    {
        match self {
            NotificationType::BidReceived => "bid_received",
            NotificationType::BidAwarded => "bid_awarded",
            NotificationType::BidRejected => "bid_rejected",
            NotificationType::BidShortlisted => "bid_shortlisted",
            NotificationType::BidWithdrawn => "bid_withdrawn",
            NotificationType::HireRequestReceived => "hire_request_received",
            NotificationType::HireRequestAccepted => "hire_request_accepted",
            NotificationType::HireRequestDeclined => "hire_request_declined",
            NotificationType::HireRequestExpired => "hire_request_expired",
            NotificationType::ContractSent => "contract_sent",
            NotificationType::ContractSigned => "contract_signed",
            NotificationType::ContractFullySigned => "contract_fully_signed",
            NotificationType::ReviewReceived => "review_received",
            NotificationType::ReviewResponseReceived => "review_response_received",
            NotificationType::ProfileVerified => "profile_verified",
            NotificationType::ProfileRejected => "profile_rejected",
            NotificationType::ProfileViewed => "profile_viewed",
            NotificationType::NewMessage => "new_message",
            NotificationType::TenderPublished => "tender_published",
            NotificationType::TenderClosingSoon => "tender_closing_soon",
            NotificationType::TenderClosed => "tender_closed",
            NotificationType::System => "system",
        }
    }
}

/// Filter for listing notifications.
#[derive(Debug, Clone, PartialEq, Eq)]
pub struct NotificationQuery {
    pub unread_only: Option<bool>,
    pub notification_type: Option<String>,
}

/// Number of unread notifications.
#[derive(Debug, Clone, Copy, PartialEq, Eq, Structural)]
pub struct UnreadCountResponse {
    pub count: i64,
}

/// Pagination plus filter for the notification list.
#[derive(Debug, Clone, PartialEq, Eq)]
pub struct NotificationQueryParams {
    pub pagination: PaginationParams,
    pub filter: NotificationQuery,
}

} // verus!
