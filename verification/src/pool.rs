//! A single pool's aggregate state and the two mutations it admits.

use crate::error::{BusinessRule, LedgerError};
use crate::identity::Identity;
use vstd::prelude::*;

verus! {

/// The kind of asset a pool accepts. The codes on the wire are 0, 1 and 2 in
/// the order of the variants.
#[derive(Clone, Copy, Debug, PartialEq, Eq, Structural)]
pub enum AssetType {
    BTC,
    Runes,
    Ordinals,
}

/// The risk tier of a pool. The codes on the wire are 0, 1 and 2 in the order
/// of the variants.
#[derive(Clone, Copy, Debug, PartialEq, Eq, Structural)]
pub enum RiskType {
    Low,
    Medium,
    High,
}

/// The asset kind that a wire code stands for.
pub open spec fn asset_of_code(code: u8) -> Result<AssetType, LedgerError> {
    if code == 0 {
        Ok(AssetType::BTC)
    } else if code == 1 {
        Ok(AssetType::Runes)
    } else if code == 2 {
        Ok(AssetType::Ordinals)
    } else {
        Err(LedgerError::Validation)
    }
}

/// The risk tier that a wire code stands for.
pub open spec fn risk_of_code(code: u8) -> Result<RiskType, LedgerError> {
    if code == 0 {
        Ok(RiskType::Low)
    } else if code == 1 {
        Ok(RiskType::Medium)
    } else if code == 2 {
        Ok(RiskType::High)
    } else {
        Err(LedgerError::Validation)
    }
}

impl AssetType {
    /// Decodes a wire code; an unknown code is a validation error.
    pub fn from_u8(value: u8) -> (r: Result<AssetType, LedgerError>)
        ensures
            r == asset_of_code(value),
    {
        match value {
            0 => Ok(AssetType::BTC),
            1 => Ok(AssetType::Runes),
            2 => Ok(AssetType::Ordinals),
            _ => Err(LedgerError::Validation),
        }
    }

    /// The wire code of this asset kind.
    pub fn to_u8(&self) -> (code: u8)
        ensures
            asset_of_code(code) == Ok::<AssetType, LedgerError>(*self),
    {
        match self {
            AssetType::BTC => 0,
            AssetType::Runes => 1,
            AssetType::Ordinals => 2,
        }
    }
}

impl RiskType {
    /// Decodes a wire code; an unknown code is a validation error.
    pub fn from_u8(value: u8) -> (r: Result<RiskType, LedgerError>)
        ensures
            r == risk_of_code(value),
    {
        match value {
            0 => Ok(RiskType::Low),
            1 => Ok(RiskType::Medium),
            2 => Ok(RiskType::High),
            _ => Err(LedgerError::Validation),
        }
    }

    /// The wire code of this risk tier.
    pub fn to_u8(&self) -> (code: u8)
        ensures
            risk_of_code(code) == Ok::<RiskType, LedgerError>(*self),
    {
        match self {
            RiskType::Low => 0,
            RiskType::Medium => 1,
            RiskType::High => 2,
        }
    }
}

/// The parameters a pool is created with. `risk_type` and `asset_type` are
/// wire codes, checked when the pool is created.
#[derive(Clone, Debug, PartialEq, Eq)]
pub struct PoolParam {
    pub pool_name: String,
    pub risk_type: u8,
    pub apy: u64,
    pub min_period: u64,
    pub asset_pubkey: Identity,
    pub asset_type: u8,
    pub investment_arm: u64,
    pub base_value: u64,
}

/// The aggregate state of one pool.
#[derive(Clone, Debug, PartialEq, Eq)]
pub struct Pool {
    /// The identifier the registry assigned.
    pub pool_id: u64,
    /// The storage location of this record.
    pub pool_pubkey: Identity,
    pub pool_name: String,
    pub risk_type: RiskType,
    /// Annual yield in whole percentage points.
    pub apy: u64,
    /// Seconds a deposit must rest before it may be withdrawn.
    pub min_period: u64,
    /// Units outstanding; moves together with `tvl`.
    pub total_unit: u64,
    /// Total value locked: the principal currently deposited.
    pub tvl: u64,
    pub base_value: u64,
    pub investment_arm: u64,
    pub cover_units: u64,
    /// Total claimable pool.
    pub tcp: u64,
    /// Advisory; deposits and withdrawals do not consult it.
    pub is_active: bool,
    pub asset_pubkey: Identity,
    pub asset_type: AssetType,
}

impl Pool {
    /// The pool once `amount` has been deposited: both aggregates grow by
    /// `amount`, or the arithmetic error when either would leave `u64`.
    pub open spec fn after_deposit(self, amount: u64) -> Result<Pool, LedgerError> {
        if self.tvl + amount <= u64::MAX && self.total_unit + amount <= u64::MAX {
            Ok(
                Pool {
                    tvl: (self.tvl + amount) as u64,
                    total_unit: (self.total_unit + amount) as u64,
                    ..self
                },
            )
        } else {
            Err(LedgerError::Arithmetic)
        }
    }

    /// The pool once `amount` has been withdrawn: both aggregates shrink by
    /// `amount`. More than the value locked is refused as insufficient
    /// funds; more than the units outstanding is an arithmetic error.
    pub open spec fn after_withdrawal(self, amount: u64) -> Result<Pool, LedgerError> {
        if amount > self.tvl {
            Err(LedgerError::BusinessRule(BusinessRule::InsufficientFunds))
        } else if amount > self.total_unit {
            Err(LedgerError::Arithmetic)
        } else {
            Ok(
                Pool {
                    tvl: (self.tvl - amount) as u64,
                    total_unit: (self.total_unit - amount) as u64,
                    ..self
                },
            )
        }
    }

    /// The record of a pool that was just created: no value locked, active.
    pub open spec fn created(
        pool_id: u64,
        location: Identity,
        param: PoolParam,
        risk_type: RiskType,
        asset_type: AssetType,
    ) -> Pool {
        Pool {
            pool_id,
            pool_pubkey: location,
            pool_name: param.pool_name,
            risk_type,
            apy: param.apy,
            min_period: param.min_period,
            total_unit: 0,
            tvl: 0,
            base_value: param.base_value,
            investment_arm: param.investment_arm,
            cover_units: 0,
            tcp: 0,
            is_active: true,
            asset_pubkey: param.asset_pubkey,
            asset_type,
        }
    }

    /// Books a deposit of `amount` into the pool's aggregates.
    pub fn apply_deposit(&mut self, amount: u64) -> (r: Result<(), LedgerError>)
        ensures
            match old(self).after_deposit(amount) {
                Ok(pool) => r is Ok && *final(self) == pool,
                Err(e) => r == Err::<(), LedgerError>(e) && *final(self) == *old(self),
            },
    {
        let tvl: u64 = match self.tvl.checked_add(amount) {
            Some(v) => v,
            None => { return Err(LedgerError::Arithmetic); },
        };
        let total_unit: u64 = match self.total_unit.checked_add(amount) {
            Some(v) => v,
            None => { return Err(LedgerError::Arithmetic); },
        };
        self.tvl = tvl;
        self.total_unit = total_unit;
        Ok(())
    }

    /// Books a withdrawal of `amount` out of the pool's aggregates.
    pub fn apply_withdrawal(&mut self, amount: u64) -> (r: Result<(), LedgerError>)
        ensures
            match old(self).after_withdrawal(amount) {
                Ok(pool) => r is Ok && *final(self) == pool,
                Err(e) => r == Err::<(), LedgerError>(e) && *final(self) == *old(self),
            },
    {
        if amount > self.tvl {
            return Err(LedgerError::BusinessRule(BusinessRule::InsufficientFunds));
        }
        let tvl: u64 = match self.tvl.checked_sub(amount) {
            Some(v) => v,
            None => { return Err(LedgerError::Arithmetic); },
        };
        let total_unit: u64 = match self.total_unit.checked_sub(amount) {
            Some(v) => v,
            None => { return Err(LedgerError::Arithmetic); },
        };
        self.tvl = tvl;
        self.total_unit = total_unit;
        Ok(())
    }

    /// Builds the record of a new pool.
    pub fn create(
        pool_id: u64,
        location: Identity,
        param: PoolParam,
        risk_type: RiskType,
        asset_type: AssetType,
    ) -> (r: Pool)
        ensures
            r == Pool::created(pool_id, location, param, risk_type, asset_type),
    {
        Pool {
            pool_id,
            pool_pubkey: location,
            pool_name: param.pool_name,
            risk_type,
            apy: param.apy,
            min_period: param.min_period,
            total_unit: 0,
            tvl: 0,
            base_value: param.base_value,
            investment_arm: param.investment_arm,
            cover_units: 0,
            tcp: 0,
            is_active: true,
            asset_pubkey: param.asset_pubkey,
            asset_type,
        }
    }

    /// A copy of this record.
    pub fn duplicate(&self) -> (r: Pool)
        ensures
            r == *self,
    {
        Pool {
            pool_id: self.pool_id,
            pool_pubkey: self.pool_pubkey,
            pool_name: self.pool_name.clone(),
            risk_type: self.risk_type,
            apy: self.apy,
            min_period: self.min_period,
            total_unit: self.total_unit,
            tvl: self.tvl,
            base_value: self.base_value,
            investment_arm: self.investment_arm,
            cover_units: self.cover_units,
            tcp: self.tcp,
            is_active: self.is_active,
            asset_pubkey: self.asset_pubkey,
            asset_type: self.asset_type,
        }
    }
}

} // verus!
