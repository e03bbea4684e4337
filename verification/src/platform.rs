//! The platform record: who may settle, where fees go, what fee is charged,
//! and the advisory counters.

use vstd::prelude::*;
use crate::address::Address;
use crate::error::ErrorCode;
use crate::payout::MAX_FEE_BPS;

verus! {

/// The configuration of the platform, shared by every debate and bet.
#[derive(Clone, Copy, Debug, PartialEq, Eq)]
pub struct Platform {
    /// The only party that may start, score and settle debates.
    pub authority: Address,
    /// The account that receives the fees.
    pub treasury: Address,
    /// The fee in basis points, at most `MAX_FEE_BPS`.
    pub platform_fee_bps: u16,
    /// How many debates were created. Advisory.
    pub total_debates: u64,
    /// How many users were registered. Advisory.
    pub total_users: u64,
    /// Advisory; no operation changes it.
    pub total_volume: u64,
    pub bump: u8,
}

impl Platform {
    /// The fee of a platform is at most ten percent.
    pub open spec fn well_formed(&self) -> bool {
        self.platform_fee_bps <= MAX_FEE_BPS
    }

    /// Whether `caller` is the settlement authority of this platform.
    pub open spec fn authorizes(&self, caller: Address) -> bool {
        self.authority == caller
    }
}

/// The platform as `initialize` leaves it: the given parties and fee, all
/// counters at zero.
pub open spec fn initial_platform(
    authority: Address,
    treasury: Address,
    platform_fee_bps: u16,
    bump: u8,
) -> Platform {
    Platform {
        authority,
        treasury,
        platform_fee_bps,
        total_debates: 0,
        total_users: 0,
        total_volume: 0,
        bump,
    }
}

/// Sets the platform up. A fee above ten percent is refused.
pub fn initialize(authority: Address, treasury: Address, platform_fee_bps: u16, bump: u8) -> (r:
    Result<Platform, ErrorCode>)
    ensures
        platform_fee_bps > MAX_FEE_BPS ==> r == Err::<Platform, ErrorCode>(ErrorCode::FeeTooHigh),
        platform_fee_bps <= MAX_FEE_BPS ==> r == Ok::<Platform, ErrorCode>(
            initial_platform(authority, treasury, platform_fee_bps, bump),
        ),
        r matches Ok(p) ==> p.well_formed(),
{
    if platform_fee_bps > MAX_FEE_BPS {
        return Err(ErrorCode::FeeTooHigh);
    }
    Ok(
        Platform {
            authority,
            treasury,
            platform_fee_bps,
            total_debates: 0,
            total_users: 0,
            total_volume: 0,
            bump,
        },
    )
}

/// The guard of every privileged operation: passes exactly when `caller` is
/// the platform's settlement authority.
pub fn require_authority(platform: &Platform, caller: &Address) -> (r: Result<(), ErrorCode>)
    ensures
        platform.authorizes(*caller) ==> r == Ok::<(), ErrorCode>(()),
        !platform.authorizes(*caller) ==> r == Err::<(), ErrorCode>(ErrorCode::Unauthorized),
{
    if platform.authority.same(caller) {
        Ok(())
    } else {
        Err(ErrorCode::Unauthorized)
    }
}

} // verus!
