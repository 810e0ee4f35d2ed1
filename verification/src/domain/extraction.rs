//! Extraction types: filters over materials, rooms, milestones and trade
//! scopes that the AI pipeline pulled out of documents.

use vstd::prelude::*;

use crate::pagination::PaginationParams;

verus! {

/// Filter for listing extracted materials.
#[derive(Debug, Clone, PartialEq, Eq)]
pub struct MaterialQuery {
    pub trade_category: Option<String>,
    pub room: Option<String>,
    pub is_verified: Option<bool>,
    pub search: Option<String>,
}

/// Finishes of a room, by surface.
#[derive(Debug, Clone, PartialEq, Eq)]
pub struct RoomFinishes {
    pub floor: Option<String>,
    pub walls: Option<String>,
    pub ceiling: Option<String>,
    pub base: Option<String>,
    pub paint_color: Option<String>,
}

/// Filter for listing extracted rooms.
#[derive(Debug, Clone, PartialEq, Eq)]
pub struct RoomQuery {
    pub floor: Option<String>,
    pub room_type: Option<String>,
    pub is_verified: Option<bool>,
    pub search: Option<String>,
}

/// Status of a generated project milestone.
#[derive(Debug, Clone, Copy, PartialEq, Eq, Structural)]
pub enum MilestoneStatus {
    Pending,
    InProgress,
    Completed,
    Delayed,
    Cancelled,
}

impl MilestoneStatus {
    /// The wire name of this status.
    pub open spec fn spec_as_str(self) -> Seq<char> {
        match self {
            MilestoneStatus::Pending => "pending"@,
            MilestoneStatus::InProgress => "in_progress"@,
            MilestoneStatus::Completed => "completed"@,
            MilestoneStatus::Delayed => "delayed"@,
            MilestoneStatus::Cancelled => "cancelled"@,
        }
    }

    /// Snake-case wire name of this status.
    pub fn as_str(self) -> (r: &'static str)
        ensures
            r@ == self.spec_as_str(),
    {
        match self {
            MilestoneStatus::Pending => "pending",
            MilestoneStatus::InProgress => "in_progress",
            MilestoneStatus::Completed => "completed",
            MilestoneStatus::Delayed => "delayed",
            MilestoneStatus::Cancelled => "cancelled",
        }
    }
}

/// Filter for listing milestones.
#[derive(Debug, Clone, PartialEq, Eq)]
pub struct MilestoneQuery {
    pub phase: Option<String>,
    pub status: Option<String>,
    pub is_verified: Option<bool>,
}

/// One inclusion or exclusion line of a trade scope.
#[derive(Debug, Clone, PartialEq, Eq)]
pub struct ScopeItem {
    pub item: String,
    pub details: Option<String>,
}

/// Filter for listing trade scopes.
#[derive(Debug, Clone, PartialEq, Eq)]
pub struct TradeScopeQuery {
    pub trade: Option<String>,
    pub is_verified: Option<bool>,
}

/// Request body for marking an extracted item verified.
#[derive(Debug, Clone, Copy, PartialEq, Eq, Structural)]
pub struct VerifyItemRequest {
    pub is_verified: bool,
}

/// Pagination plus filter for the material list.
#[derive(Debug, Clone, PartialEq, Eq)]
pub struct MaterialQueryParams {
    pub pagination: PaginationParams,
    pub filter: MaterialQuery,
}

/// Pagination plus filter for the room list.
#[derive(Debug, Clone, PartialEq, Eq)]
pub struct RoomQueryParams {
    pub pagination: PaginationParams,
    pub filter: RoomQuery,
}

/// Pagination plus filter for the milestone list.
#[derive(Debug, Clone, PartialEq, Eq)]
pub struct MilestoneQueryParams {
    pub pagination: PaginationParams,
    pub filter: MilestoneQuery,
}

/// Pagination plus filter for the trade scope list.
#[derive(Debug, Clone, PartialEq, Eq)]
pub struct TradeScopeQueryParams {
    pub pagination: PaginationParams,
    pub filter: TradeScopeQuery,
}

} // verus!
