//! Tender types: trade categories and tender lifecycle status.

use vstd::prelude::*;

verus! {

/// Trade category of a tender, loosely following CSI divisions.
#[derive(Debug, Clone, Copy, PartialEq, Eq, Structural)]
pub enum TradeCategory {
    GeneralConditions,
    SiteworkExcavation,
    Concrete,
    Masonry,
    Metals,
    WoodPlastics,
    ThermalMoisture,
    DoorsWindows,
    Finishes,
    Specialties,
    Equipment,
    Furnishings,
    SpecialConstruction,
    ConveyingSystems,
    Mechanical,
    Electrical,
    Plumbing,
    Hvac,
    FireProtection,
    Other,
}

/// The wire name of a trade category.
pub open spec fn spec_trade_category_str(cat: TradeCategory) -> Seq<char> {
    match cat {
        TradeCategory::GeneralConditions => "general_conditions"@,
        TradeCategory::SiteworkExcavation => "sitework_excavation"@,
        TradeCategory::Concrete => "concrete"@,
        TradeCategory::Masonry => "masonry"@,
        TradeCategory::Metals => "metals"@,
        TradeCategory::WoodPlastics => "wood_plastics"@,
        TradeCategory::ThermalMoisture => "thermal_moisture"@,
        TradeCategory::DoorsWindows => "doors_windows"@,
        TradeCategory::Finishes => "finishes"@,
        TradeCategory::Specialties => "specialties"@,
        TradeCategory::Equipment => "equipment"@,
        TradeCategory::Furnishings => "furnishings"@,
        TradeCategory::SpecialConstruction => "special_construction"@,
        TradeCategory::ConveyingSystems => "conveying_systems"@,
        TradeCategory::Mechanical => "mechanical"@,
        TradeCategory::Electrical => "electrical"@,
        TradeCategory::Plumbing => "plumbing"@,
        TradeCategory::Hvac => "hvac"@,
        TradeCategory::FireProtection => "fire_protection"@,
        TradeCategory::Other => "other"@,
    }
}

/// Snake-case wire name of a trade category.
pub fn trade_category_to_string(cat: &TradeCategory) -> (r: &'static str)
    ensures
        r@ == spec_trade_category_str(*cat),
{
    match cat {
        TradeCategory::GeneralConditions => "general_conditions",
        TradeCategory::SiteworkExcavation => "sitework_excavation",
        TradeCategory::Concrete => "concrete",
        TradeCategory::Masonry => "masonry",
        TradeCategory::Metals => "metals",
        TradeCategory::WoodPlastics => "wood_plastics",
        TradeCategory::ThermalMoisture => "thermal_moisture",
        TradeCategory::DoorsWindows => "doors_windows",
        TradeCategory::Finishes => "finishes",
        TradeCategory::Specialties => "specialties",
        TradeCategory::Equipment => "equipment",
        TradeCategory::Furnishings => "furnishings",
        TradeCategory::SpecialConstruction => "special_construction",
        TradeCategory::ConveyingSystems => "conveying_systems",
        TradeCategory::Mechanical => "mechanical",
        TradeCategory::Electrical => "electrical",
        TradeCategory::Plumbing => "plumbing",
        TradeCategory::Hvac => "hvac",
        TradeCategory::FireProtection => "fire_protection",
        TradeCategory::Other => "other",
    }
}

/// Lifecycle status of a tender.
#[derive(Debug, Clone, Copy, PartialEq, Eq, Structural)]
pub enum TenderStatus {
    Draft,
    Published,
    Closed,
    Awarded,
    Cancelled,
}

impl Default for TenderStatus {
    /// A new tender starts as a draft.
    fn default() -> (r: Self)
        ensures
            r == TenderStatus::Draft,
    {
        TenderStatus::Draft
    }
}

} // verus!
