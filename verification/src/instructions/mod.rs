//! The decision steps of the payroll's instructions. Each step takes the
//! accounts' plain state and what the runtime observed, updates the state,
//! and tells the caller which transfer or Kamino call to make next.
pub mod claim;
pub mod withdraw;
pub mod rebalance;
pub mod deposit;
pub mod offboard;
pub mod staff_init;
pub mod collect_staff;
