//! Fixed fee and resource figures for the fast execution path of one
//! transaction kind, so that fee and resources can be returned without
//! computing them.

use vstd::prelude::*;

use crate::core_types::{Fee, GasAmount, GasVector};

verus! {

pub const SETTLE_TRADE_V3_FIXED_FEE_AMOUNT: u128 = 0x2639_288b_e94;
pub const SETTLE_TRADE_V3_FIXED_L1_GAS: u64 = 0;
pub const SETTLE_TRADE_V3_FIXED_L1_DATA_GAS: u64 = 576;
pub const SETTLE_TRADE_V3_FIXED_L2_GAS: u64 = 25_696_375;

/// Bouncer weights used when deciding to close a block.
pub const SETTLE_TRADE_V3_BOUNCER_FIRST_SIERRA_GAS: u64 = 600_124_824;
pub const SETTLE_TRADE_V3_BOUNCER_FIRST_PROVING_GAS: u64 = 606_943_554;
pub const SETTLE_TRADE_V3_BOUNCER_STEADY_SIERRA_GAS: u64 = 37_282_620;
pub const SETTLE_TRADE_V3_BOUNCER_STEADY_PROVING_GAS: u64 = 41_409_414;

/// The fixed fee.
pub fn hardcoded_fee() -> (fee: Fee)
    ensures
        fee == Fee(SETTLE_TRADE_V3_FIXED_FEE_AMOUNT),
{
    Fee(SETTLE_TRADE_V3_FIXED_FEE_AMOUNT)
}

/// The fixed gas vector of the whole transaction.
pub fn hardcoded_gas_vector() -> (gas: GasVector)
    ensures
        gas == (GasVector {
            l1_gas: GasAmount(SETTLE_TRADE_V3_FIXED_L1_GAS),
            l1_data_gas: GasAmount(SETTLE_TRADE_V3_FIXED_L1_DATA_GAS),
            l2_gas: GasAmount(SETTLE_TRADE_V3_FIXED_L2_GAS),
        }),
{
    GasVector {
        l1_gas: GasAmount(SETTLE_TRADE_V3_FIXED_L1_GAS),
        l1_data_gas: GasAmount(SETTLE_TRADE_V3_FIXED_L1_DATA_GAS),
        l2_gas: GasAmount(SETTLE_TRADE_V3_FIXED_L2_GAS),
    }
}

/// The data-availability part of the gas vector: only its L1 data gas.
pub fn hardcoded_da_gas_vector() -> (gas: GasVector)
    ensures
        gas == (GasVector {
            l1_gas: GasAmount(0),
            l1_data_gas: GasAmount(SETTLE_TRADE_V3_FIXED_L1_DATA_GAS),
            l2_gas: GasAmount(0),
        }),
{
    GasVector {
        l1_gas: GasAmount(0),
        l1_data_gas: GasAmount(SETTLE_TRADE_V3_FIXED_L1_DATA_GAS),
        l2_gas: GasAmount(0),
    }
}

/// The bouncer weights (sierra gas, proving gas): one pair for the first
/// such transaction of a block, another for each one after it.
pub fn hardcoded_bouncer_gas(is_first: bool) -> (weights: (GasAmount, GasAmount))
    ensures
        is_first ==> weights == (
            GasAmount(SETTLE_TRADE_V3_BOUNCER_FIRST_SIERRA_GAS),
            GasAmount(SETTLE_TRADE_V3_BOUNCER_FIRST_PROVING_GAS),
        ),
        !is_first ==> weights == (
            GasAmount(SETTLE_TRADE_V3_BOUNCER_STEADY_SIERRA_GAS),
            GasAmount(SETTLE_TRADE_V3_BOUNCER_STEADY_PROVING_GAS),
        ),
{
    if is_first {
        (
            GasAmount(SETTLE_TRADE_V3_BOUNCER_FIRST_SIERRA_GAS),
            GasAmount(SETTLE_TRADE_V3_BOUNCER_FIRST_PROVING_GAS),
        )
    } else {
        (
            GasAmount(SETTLE_TRADE_V3_BOUNCER_STEADY_SIERRA_GAS),
            GasAmount(SETTLE_TRADE_V3_BOUNCER_STEADY_PROVING_GAS),
        )
    }
}


} // verus!
