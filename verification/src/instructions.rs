//! Instruction builders: each variant holds a fixed, named set of account
//! identities plus its scalar arguments, and produces a call descriptor
//! whose account order, access flags, and argument bytes are exactly the
//! wire contract the locking program expects.

pub mod collect_clmm_fee_and_reward;
pub mod collect_cp_fee_and_reward;
pub mod lock_clmm_position;
pub mod lock_cp_liquidity;

pub use collect_clmm_fee_and_reward::CollectClmmFeeAndReward;
pub use collect_cp_fee_and_reward::CollectCpFee;
pub use lock_clmm_position::LockClmmPosition;
pub use lock_cp_liquidity::LockCpLiquidity;
