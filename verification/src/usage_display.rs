//! In which unit the usage of a request is shown.
use vstd::prelude::*;

verus! {

/// The unit that usage is shown in.
#[derive(Debug, Clone, Copy, PartialEq, Eq, Structural)]
pub enum UsageDisplayUnit {
    Credits,
    Dollars,
}

/// The unit usage is actually shown in: credits unless pricing transparency is on, and
/// dollars only when the user asked for them and a cost is known.
pub fn effective_usage_unit(unit: UsageDisplayUnit, pricing_transparency_enabled: bool, has_cost: bool) -> (r:
    UsageDisplayUnit)
    ensures
        r == if pricing_transparency_enabled && unit == UsageDisplayUnit::Dollars && has_cost {
            UsageDisplayUnit::Dollars
        } else {
            UsageDisplayUnit::Credits
        },
{
    if !pricing_transparency_enabled {
        return UsageDisplayUnit::Credits;
    }
    match unit {
        UsageDisplayUnit::Credits => UsageDisplayUnit::Credits,
        UsageDisplayUnit::Dollars => if has_cost {
            UsageDisplayUnit::Dollars
        } else {
            UsageDisplayUnit::Credits
        },
    }
}

} // verus!
