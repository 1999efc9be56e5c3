//! The actuator rule: which level, if any, to drive the relay to.
use vstd::prelude::*;
use crate::dto::ConfigurationResponseDTO;

verus! {

/// The level to write, given the desired state and the relay's current read
/// (`true` for high): high when on is wanted and the relay reads low, low when
/// off is wanted and it reads high, no write when it already matches.
pub open spec fn relay_target(power_on: bool, relay_high: bool) -> Option<bool> {
    if power_on && !relay_high {
        Some(true)
    } else if !power_on && relay_high {
        Some(false)
    } else {
        None
    }
}

/// The relay's level after the rule's write, if any, was attempted.
/// A failed write leaves the level as it was.
pub open spec fn level_after(target: Option<bool>, relay_high: bool, write_ok: bool) -> bool {
    match target {
        Some(level) => if write_ok {
            level
        } else {
            relay_high
        },
        None => relay_high,
    }
}

/// Number of hardware writes that a decision issues.
pub open spec fn writes(target: Option<bool>) -> nat {
    if target is Some {
        1
    } else {
        0
    }
}

/// Decides the write that brings the relay to `configuration.power_on`.
pub fn process_configuration(configuration: &ConfigurationResponseDTO, relay_high: bool) -> (r:
    Option<bool>)
    ensures
        r == relay_target(configuration.power_on, relay_high),
        configuration.power_on && !relay_high ==> r == Some(true),
        !configuration.power_on && relay_high ==> r == Some(false),
        configuration.power_on == relay_high ==> r is None,
{
    if configuration.power_on && !relay_high {
        Some(true)
    } else if !configuration.power_on && relay_high {
        Some(false)
    } else {
        None
    }
}

/// Applying the same desired state twice in succession, the first write
/// succeeding, issues no second write: at most one write in all, and exactly
/// one when the relay did not match at first.
pub proof fn lemma_apply_twice_writes_once(power_on: bool, relay_high: bool)
    ensures
        ({
            let first = relay_target(power_on, relay_high);
            let second = relay_target(power_on, level_after(first, relay_high, true));
            &&& second is None
            &&& writes(first) + writes(second) == if power_on == relay_high {
                0nat
            } else {
                1nat
            }
        }),
{
}

/// A failed write leaves the mismatch in place, so the next application
/// issues the same write again.
pub proof fn lemma_failed_write_is_retried(power_on: bool, relay_high: bool)
    ensures
        ({
            let first = relay_target(power_on, relay_high);
            relay_target(power_on, level_after(first, relay_high, false)) == first
        }),
{
}

} // verus!
