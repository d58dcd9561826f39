//! Permissions: which power levels may perform which action.

use crate::text::join;
use vstd::prelude::*;

verus! {

/// A privileged action of the command surface.
#[derive(Clone, Copy, Debug, PartialEq, Eq, Structural)]
pub enum Action {
    BridgeCreate,
    BridgeDestroy,
}

/// The power level of a room administrator, the highest tier.
pub const ADMINISTRATOR: i64 = 100;

/// The range of power levels that may perform an action.
#[derive(Clone, Copy, Debug, PartialEq, Eq, Structural)]
pub struct PowerLevelConstraint {
    pub minimum: i64,
    pub maximum: Option<i64>,
}

impl PowerLevelConstraint {
    /// Whether `power_level` meets the constraint: at least `minimum` and,
    /// where a maximum is set, at most that.
    pub open spec fn allows(self, power_level: int) -> bool {
        match self.maximum {
            None => power_level >= self.minimum,
            Some(maximum) => self.minimum <= power_level <= maximum,
        }
    }

    pub fn new(minimum: i64, maximum: Option<i64>) -> (constraint: Self)
        ensures
            constraint.minimum == minimum,
            constraint.maximum == maximum,
    {
        Self { minimum, maximum }
    }

    /// Whether `power_level` meets the constraint. Without a maximum that is
    /// to reach the minimum; with a maximum equal to the minimum it is to
    /// be exactly that level.
    pub fn is_allowed(&self, power_level: i64) -> (allowed: bool)
        ensures
            allowed == self.allows(power_level as int),
            self.maximum is None ==> allowed == (power_level >= self.minimum),
            self.maximum == Some(self.minimum) ==> allowed == (power_level == self.minimum),
    {
        match self.maximum {
            None => power_level >= self.minimum,
            Some(maximum) => {
                if self.minimum == maximum {
                    power_level == self.minimum
                } else {
                    maximum >= power_level && power_level >= self.minimum
                }
            },
        }
    }
}

/// The constraint of `action`. Every action asks for the highest tier and
/// sets no maximum.
pub open spec fn constraint_of(action: Action) -> PowerLevelConstraint {
    PowerLevelConstraint { minimum: ADMINISTRATOR, maximum: None }
}

/// The verdict on a member: whether the member may perform
/// `action`, or why nothing can be said. `member` is what the chat platform
/// gave: the member's power level, `None` for no such member, or the
/// words of a lookup that failed.
pub open spec fn verdict_of(member: Result<Option<i64>, Seq<char>>, action: Action) -> Result<
    bool,
    Seq<char>,
> {
    match member {
        Ok(Some(power_level)) => Ok(constraint_of(action).allows(power_level as int)),
        Ok(None) => Err("member somehow does not exist"@),
        Err(error) => Err("unable to get member: "@ + error),
    }
}

/// The constraint of `action`.
pub fn get_power_level_constraint(action: Action) -> (constraint: PowerLevelConstraint)
    ensures
        constraint == constraint_of(action),
{
    match action {
        Action::BridgeCreate => PowerLevelConstraint::new(ADMINISTRATOR, None),
        Action::BridgeDestroy => PowerLevelConstraint::new(ADMINISTRATOR, None),
    }
}

/// Whether a member may perform `action`. A lookup that gave no member
/// and a lookup that failed are errors, told apart from a denial.
pub fn is_allowed(member: Result<Option<i64>, String>, action: Action) -> (verdict: Result<
    bool,
    String,
>)
    ensures
        match member {
            Ok(Some(power_level)) => verdict == Ok::<bool, String>(
                constraint_of(action).allows(power_level as int),
            ),
            Ok(None) => verdict matches Err(words) && words@ == "member somehow does not exist"@,
            Err(error) => verdict matches Err(words) && words@ == "unable to get member: "@
                + error@,
        },
{
    match member {
        Ok(Some(power_level)) => Ok(get_power_level_constraint(action).is_allowed(power_level)),
        Ok(None) => Err(String::from_str("member somehow does not exist")),
        Err(error) => Err(join("unable to get member: ", error.as_str())),
    }
}

} // verus!
