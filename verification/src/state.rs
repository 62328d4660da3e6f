//! The authority-owned program state and its lifecycle.
//!
//! A single `ProgramState` is created once by [`initialize`] and from then on
//! is passed by the host into every operation.  It tracks the total and
//! remaining spendable balance, the configured task band and the current
//! available-task count, and the time of the last task refresh.

use vstd::prelude::*;
use crate::activity::ActivityType;
use crate::activity::BASE_REWARD_MULTIPLIER;

verus! {

/// An opaque comparable identity.  The host maps its own key material to
/// these handles; the library only ever compares them for equality.
#[derive(Clone, Copy, Debug, PartialEq, Eq, Structural)]
pub struct Identity {
    pub id: u64,
}

/// Why an operation was rejected.  Every error is terminal for that one
/// operation and leaves all state unchanged.
#[derive(Clone, Copy, Debug, PartialEq, Eq, Structural)]
pub enum ErrorCode {
    /// Unresolvable activity code.
    InvalidActivity,
    /// Claim attempted inside the per-user cooldown window.
    CooldownActive,
    /// Computed reward exceeds the remaining program balance.
    InsufficientBalance,
    /// Caller identity does not match the configured authority.
    Unauthorized,
    /// Invalid task-band configuration.
    MaxTasksExceeded,
    /// Activity's rank exceeds the current available-task count.
    TaskUnavailable,
    /// Refresh attempted inside the randomizer cooldown window.
    CooldownRngTasks,
}

/// The singleton, authority-owned program state.
#[derive(Clone, Copy, Debug, PartialEq, Eq, Structural)]
pub struct ProgramState {
    /// The balance the program started with, in base units.  Never changes
    /// after initialization.
    pub total_supply: u64,
    /// What is still spendable, in base units.  Only ever decreases.
    pub current_balance: u64,
    /// The one identity allowed to administer and disburse.
    pub authority: Identity,
    /// Lower end of the task band.
    pub min_tasks: u8,
    /// Upper end of the task band.
    pub max_tasks: u8,
    /// How many task slots are currently open; gates activities by rank.
    pub available_tasks: u8,
    /// When the available-task count was last refreshed.
    pub tasks_last_updated: i64,
}

impl ProgramState {
    /// The state invariant: the balance never exceeds the initial supply, the
    /// available-task count stays inside the configured band, and the refresh
    /// timestamp is a valid time.
    pub open spec fn wf(self) -> bool {
        &&& self.current_balance <= self.total_supply
        &&& self.min_tasks <= self.available_tasks
        &&& self.available_tasks <= self.max_tasks
        &&& self.tasks_last_updated >= 0
    }
}

/// Creates the program state: `initial_supply` reward units are converted to
/// base units and become both the total and the current balance; the
/// available-task count starts at the bottom of the band.
///
/// Rejects an inverted task band (`min_tasks > max_tasks`) with
/// `MaxTasksExceeded`, so that every later operation can rely on the band
/// being well formed.
pub fn initialize(
    initial_supply: u64,
    min_tasks: u8,
    max_tasks: u8,
    authority: Identity,
    now: i64,
) -> (r: Result<ProgramState, ErrorCode>)
    requires
        now >= 0,
        initial_supply * BASE_REWARD_MULTIPLIER <= u64::MAX,
    ensures
        r is Ok <==> min_tasks <= max_tasks,
        r matches Ok(s) ==> {
            &&& s.total_supply == initial_supply * BASE_REWARD_MULTIPLIER
            &&& s.current_balance == s.total_supply
            &&& s.authority == authority
            &&& s.min_tasks == min_tasks
            &&& s.max_tasks == max_tasks
            &&& s.available_tasks == min_tasks
            &&& s.tasks_last_updated == now
            &&& s.wf()
        },
        r matches Err(e) ==> e == ErrorCode::MaxTasksExceeded,
{
    if min_tasks > max_tasks {
        return Err(ErrorCode::MaxTasksExceeded);
    }
    let total: u64 = initial_supply * BASE_REWARD_MULTIPLIER;
    Ok(ProgramState {
        total_supply: total,
        current_balance: total,
        authority,
        min_tasks,
        max_tasks,
        available_tasks: min_tasks,
        tasks_last_updated: now,
    })
}

/// Whether the activity can be claimed right now: its rank must not exceed
/// the current available-task count.  Rank 0 is always claimable.
pub fn is_task_available(task_type: ActivityType, program_state: &ProgramState) -> (r: bool)
    ensures
        r == (task_type.spec_rank() <= program_state.available_tasks),
{
    task_type.availability_rank() <= program_state.available_tasks
}

} // verus!
