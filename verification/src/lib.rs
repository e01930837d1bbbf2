//! Pricing and accounting engine of a constant-product token swap pool.
//!
//! The library computes what every pool operation owes and receives: curve
//! math for swaps, fee splitting across the protocol's tiers, proportional
//! liquidity deposits and withdrawals, and the bonding-curve bootstrap that
//! prices the first deposit. It holds no accounts and moves no tokens; the
//! host hands it validated numeric inputs and carries out the transfers it
//! computes.

pub mod amm;
pub mod collect_fees;
pub mod curve;
pub mod error;
pub mod fees;
pub mod initialize;
pub mod liquidity;
pub mod math;
pub mod states;
pub mod swap;

pub use amm::{Amm, BuyResult, SellResult};
pub use collect_fees::{collect_fund_fee, collect_protocol_fee};
pub use curve::CurveCalculator;
pub use liquidity::{deposit, withdraw};
pub use error::ErrorCode;
pub use fees::{fee_amount, gross_amount_for_net, split_fees, TradeFees};
pub use initialize::{create_pool, initialize};
pub use math::isqrt_u128;
pub use states::{create_amm_config, AmmConfig, PoolState, FEE_RATE_DENOMINATOR, LOCK_LP_AMOUNT};
pub use swap::{swap_base_input, swap_base_output, TradeDirection};
