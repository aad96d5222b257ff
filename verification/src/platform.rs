//! Global platform configuration for the prediction market: admin and
//! oracle identities, the fee rate, the pause flag, and aggregate counters.
//! A singleton record, created once and mutated only by admin operations.

use vstd::prelude::*;

use crate::errors::PredictionError;
use crate::math::BPS_DENOM;
use crate::math::lemma_fee_le_amount;
use crate::math::mul_div_u64;

verus! {

/// The platform's singleton configuration record.
#[derive(Clone, Copy, Debug)]
pub struct PlatformConfig {
    pub authority: u64,
    pub oracle: u64,
    pub fee_basis_points: u16,
    pub paused: bool,
    pub total_doom_fees: u64,
    pub total_life_fees: u64,
    pub total_events: u64,
    pub total_bets: u64,
    pub bump: u8,
}

impl PlatformConfig {
    /// The fee rate never exceeds 100%.
    pub open spec fn wf(self) -> bool {
        self.fee_basis_points <= BPS_DENOM
    }

    /// Fee owed on `amount` at the configured rate:
    /// `floor(amount * fee_basis_points / 10000)`. With a well-formed rate
    /// the fee never exceeds `amount`, so it is always representable.
    pub fn calculate_fee(&self, amount: u64) -> (r: Option<u64>)
        requires
            self.wf(),
        ensures
            r == Some((amount as int * self.fee_basis_points as int / BPS_DENOM as int) as u64),
            r.unwrap() <= amount,
    {
        proof {
            lemma_fee_le_amount(amount as int, self.fee_basis_points as int);
        }
        mul_div_u64(amount, self.fee_basis_points as u64, BPS_DENOM)
    }
}

/// Creates the singleton configuration; the creator starts as both admin
/// and oracle.
pub fn initialize_platform(authority: u64, fee_basis_points: u16, bump: u8) -> (r: Result<PlatformConfig, PredictionError>)
    ensures
        match r {
            Ok(config) => {
                &&& fee_basis_points <= BPS_DENOM
                &&& config == (PlatformConfig {
                    authority,
                    oracle: authority,
                    fee_basis_points,
                    paused: false,
                    total_doom_fees: 0,
                    total_life_fees: 0,
                    total_events: 0,
                    total_bets: 0,
                    bump,
                })
                &&& config.wf()
            },
            Err(e) => {
                &&& fee_basis_points > BPS_DENOM
                &&& e == PredictionError::InvalidFeeBasisPoints
            },
        },
{
    if fee_basis_points as u64 > BPS_DENOM {
        return Err(PredictionError::InvalidFeeBasisPoints);
    }
    Ok(PlatformConfig {
        authority,
        oracle: authority,
        fee_basis_points,
        paused: false,
        total_doom_fees: 0,
        total_life_fees: 0,
        total_events: 0,
        total_bets: 0,
        bump,
    })
}

/// Configuration after an update: each optional field replaces its current
/// value independently.
pub open spec fn config_after_update(config: PlatformConfig, fee_basis_points: Option<u16>, new_oracle: Option<u64>, paused: Option<bool>) -> PlatformConfig {
    PlatformConfig {
        fee_basis_points: match fee_basis_points {
            Some(fee) => fee,
            None => config.fee_basis_points,
        },
        oracle: match new_oracle {
            Some(oracle) => oracle,
            None => config.oracle,
        },
        paused: match paused {
            Some(flag) => flag,
            None => config.paused,
        },
        ..config
    }
}

/// The error `update_platform` reports, in check order; `None` means the
/// update is owed.
pub open spec fn update_platform_err(config: PlatformConfig, caller: u64, fee_basis_points: Option<u16>) -> Option<PredictionError> {
    if caller != config.authority {
        Some(PredictionError::Unauthorized)
    } else if match fee_basis_points {
        Some(fee) => fee > BPS_DENOM,
        None => false,
    } {
        Some(PredictionError::InvalidFeeBasisPoints)
    } else {
        None
    }
}

/// Admin-only update of fee rate, oracle, and pause flag; each field is
/// optional and applied independently, and nothing changes on error.
pub fn update_platform(config: &mut PlatformConfig, caller: u64, fee_basis_points: Option<u16>, new_oracle: Option<u64>, paused: Option<bool>) -> (r: Result<(), PredictionError>)
    requires
        old(config).wf(),
    ensures
        final(config).wf(),
        match r {
            Ok(()) => {
                &&& update_platform_err(*old(config), caller, fee_basis_points) is None
                &&& *final(config) == config_after_update(
                    *old(config),
                    fee_basis_points,
                    new_oracle,
                    paused,
                )
            },
            Err(e) => {
                &&& update_platform_err(*old(config), caller, fee_basis_points) == Some(e)
                &&& *final(config) == *old(config)
            },
        },
{
    if caller != config.authority {
        return Err(PredictionError::Unauthorized);
    }
    if let Some(fee) = fee_basis_points {
        if fee as u64 > BPS_DENOM {
            return Err(PredictionError::InvalidFeeBasisPoints);
        }
        config.fee_basis_points = fee;
    }
    if let Some(oracle) = new_oracle {
        config.oracle = oracle;
    }
    if let Some(flag) = paused {
        config.paused = flag;
    }
    Ok(())
}

} // verus!
