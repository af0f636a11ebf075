use vstd::prelude::*;

pub mod rates;
pub mod rent_escalation;
pub mod property_attributes;
pub mod safe_math_128;
pub mod wear_tear_precision;
pub mod iteration_limits;
pub mod flow;
pub mod accounts;
pub mod lease_contract;
pub mod timelock_upgrade;
pub mod oracle_governance;
pub mod sep12_identity;
pub mod rate_limit_admin;
pub mod fractional_rent;
pub mod enhanced_yield_generation;
pub mod advanced_yield_integration;
pub mod mock_nft;
pub mod performance_benchmarks;
