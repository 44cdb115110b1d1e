//! The interest-bearing reserve record.
//!
//! One reserve exists per (market, mint) pair.  Its byte image is packed
//! little-endian at fixed offsets: `lending_market` (0), `mint` (32),
//! `version` (64), `available_liquidity` (72), `total_supply` (80),
//! `total_borrows` (88), `supply_index` (96), `borrow_index` (112),
//! `last_update_timestamp` (128), `ltv` (136), `liquidation_threshold`
//! (138), `liquidation_bonus` (140), `borrow_cap` (142), `deposit_cap`
//! (150), `farm_address` (158), `farm_balance` (190), then the four flag
//! bytes `is_active`, `allow_deposits`, `allow_borrows`, `is_closed`.

use crate::codec::{
    push_bytes32, push_u128_le, push_u16_le, push_u64_le, read_bytes32, read_u128_le, read_u16_le,
    read_u64_le,
};
use crate::errors::LendError;
use vstd::bytes::{
    lemma_auto_spec_u128_to_from_le_bytes, lemma_auto_spec_u16_to_from_le_bytes,
    lemma_auto_spec_u64_to_from_le_bytes, spec_u128_from_le_bytes, spec_u128_to_le_bytes,
    spec_u16_from_le_bytes, spec_u16_to_le_bytes, spec_u64_from_le_bytes, spec_u64_to_le_bytes,
};
use vstd::prelude::*;
use vstd::slice::slice_index_get;

verus! {

/// Canonical byte size of a reserve record.
pub const RESERVE_LEN: usize = 202;

/// Both rate indexes start at 1.0 scaled to 18 decimal places.
pub const INDEX_ONE: u128 = 1_000_000_000_000_000_000;

/// Mathematical image of a reserve record.
#[verifier::ext_equal]
pub struct ReserveModel {
    /// The market this reserve belongs to.
    pub lending_market: Seq<u8>,
    /// The value-unit mint this reserve custodies.
    pub mint: Seq<u8>,
    /// Layout version, reserved for migration.
    pub version: u64,
    /// Liquidity currently held by the custody vault.
    pub available_liquidity: u64,
    /// Total liquidity ever netted into the reserve by suppliers.
    pub total_supply: u64,
    /// Total outstanding borrows.
    pub total_borrows: u64,
    /// Supply interest index, 18-decimal fixed point.
    pub supply_index: u128,
    /// Borrow interest index, 18-decimal fixed point.
    pub borrow_index: u128,
    /// Unix time of the last index update.
    pub last_update_timestamp: i64,
    /// Loan-to-value ratio in basis points.
    pub ltv: u16,
    /// Liquidation threshold in basis points.
    pub liquidation_threshold: u16,
    /// Liquidation bonus in basis points.
    pub liquidation_bonus: u16,
    /// Borrow cap; 0 means uncapped.
    pub borrow_cap: u64,
    /// Deposit cap; 0 means uncapped.
    pub deposit_cap: u64,
    /// Companion farm address, zero when unset.
    pub farm_address: Seq<u8>,
    /// Balance staked in the companion farm.
    pub farm_balance: u64,
    /// 1 while the reserve accepts operations.
    pub is_active: u8,
    /// 1 while deposits are allowed.
    pub allow_deposits: u8,
    /// 1 while borrows are allowed.
    pub allow_borrows: u8,
    /// 1 once the reserve is permanently closed.
    pub is_closed: u8,
}

impl ReserveModel {
    /// The invariant every record written by the engine satisfies.
    pub open spec fn wf(self) -> bool {
        &&& self.lending_market.len() == 32
        &&& self.mint.len() == 32
        &&& self.farm_address.len() == 32
        &&& self.ltv < self.liquidation_threshold
        &&& self.liquidation_threshold <= crate::BPS_MAX
        &&& self.liquidation_bonus <= crate::LIQUIDATION_BONUS_MAX
        &&& self.is_active <= 1
        &&& self.allow_deposits <= 1
        &&& self.allow_borrows <= 1
        &&& self.is_closed <= 1
        &&& self.is_closed == 1 ==> self.is_active == 0 && self.allow_deposits == 0
            && self.allow_borrows == 0
        &&& self.deposit_cap > 0 ==> self.total_supply <= self.deposit_cap
        &&& self.available_liquidity <= self.total_supply
    }
}

/// A reserve record, as stored.
#[derive(Clone, Copy, Debug, PartialEq, Eq)]
pub struct ReserveState {
    /// The market this reserve belongs to.
    pub lending_market: [u8; 32],
    /// The value-unit mint this reserve custodies.
    pub mint: [u8; 32],
    /// Layout version, reserved for migration.
    pub version: u64,
    /// Liquidity currently held by the custody vault.
    pub available_liquidity: u64,
    /// Total liquidity ever netted into the reserve by suppliers.
    pub total_supply: u64,
    /// Total outstanding borrows.
    pub total_borrows: u64,
    /// Supply interest index, 18-decimal fixed point.
    pub supply_index: u128,
    /// Borrow interest index, 18-decimal fixed point.
    pub borrow_index: u128,
    /// Unix time of the last index update.
    pub last_update_timestamp: i64,
    /// Loan-to-value ratio in basis points.
    pub ltv: u16,
    /// Liquidation threshold in basis points.
    pub liquidation_threshold: u16,
    /// Liquidation bonus in basis points.
    pub liquidation_bonus: u16,
    /// Borrow cap; 0 means uncapped.
    pub borrow_cap: u64,
    /// Deposit cap; 0 means uncapped.
    pub deposit_cap: u64,
    /// Companion farm address, zero when unset.
    pub farm_address: [u8; 32],
    /// Balance staked in the companion farm.
    pub farm_balance: u64,
    /// 1 while the reserve accepts operations.
    pub is_active: u8,
    /// 1 while deposits are allowed.
    pub allow_deposits: u8,
    /// 1 while borrows are allowed.
    pub allow_borrows: u8,
    /// 1 once the reserve is permanently closed.
    pub is_closed: u8,
}

impl View for ReserveState {
    type V = ReserveModel;

    open spec fn view(&self) -> ReserveModel {
        ReserveModel {
            lending_market: self.lending_market@,
            mint: self.mint@,
            version: self.version,
            available_liquidity: self.available_liquidity,
            total_supply: self.total_supply,
            total_borrows: self.total_borrows,
            supply_index: self.supply_index,
            borrow_index: self.borrow_index,
            last_update_timestamp: self.last_update_timestamp,
            ltv: self.ltv,
            liquidation_threshold: self.liquidation_threshold,
            liquidation_bonus: self.liquidation_bonus,
            borrow_cap: self.borrow_cap,
            deposit_cap: self.deposit_cap,
            farm_address: self.farm_address@,
            farm_balance: self.farm_balance,
            is_active: self.is_active,
            allow_deposits: self.allow_deposits,
            allow_borrows: self.allow_borrows,
            is_closed: self.is_closed,
        }
    }
}

/// The byte image of a reserve record.
pub open spec fn spec_reserve_bytes(m: ReserveModel) -> Seq<u8> {
    m.lending_market + m.mint + spec_u64_to_le_bytes(m.version)
        + spec_u64_to_le_bytes(m.available_liquidity) + spec_u64_to_le_bytes(m.total_supply)
        + spec_u64_to_le_bytes(m.total_borrows) + spec_u128_to_le_bytes(m.supply_index)
        + spec_u128_to_le_bytes(m.borrow_index)
        + spec_u64_to_le_bytes(m.last_update_timestamp as u64) + spec_u16_to_le_bytes(m.ltv)
        + spec_u16_to_le_bytes(m.liquidation_threshold)
        + spec_u16_to_le_bytes(m.liquidation_bonus) + spec_u64_to_le_bytes(m.borrow_cap)
        + spec_u64_to_le_bytes(m.deposit_cap) + m.farm_address
        + spec_u64_to_le_bytes(m.farm_balance)
        + seq![m.is_active, m.allow_deposits, m.allow_borrows, m.is_closed]
}

/// The record a full-length byte image describes.
pub open spec fn spec_decode_reserve(b: Seq<u8>) -> ReserveModel {
    ReserveModel {
        lending_market: b.subrange(0, 32),
        mint: b.subrange(32, 64),
        version: spec_u64_from_le_bytes(b.subrange(64, 72)),
        available_liquidity: spec_u64_from_le_bytes(b.subrange(72, 80)),
        total_supply: spec_u64_from_le_bytes(b.subrange(80, 88)),
        total_borrows: spec_u64_from_le_bytes(b.subrange(88, 96)),
        supply_index: spec_u128_from_le_bytes(b.subrange(96, 112)),
        borrow_index: spec_u128_from_le_bytes(b.subrange(112, 128)),
        last_update_timestamp: spec_u64_from_le_bytes(b.subrange(128, 136)) as i64,
        ltv: spec_u16_from_le_bytes(b.subrange(136, 138)),
        liquidation_threshold: spec_u16_from_le_bytes(b.subrange(138, 140)),
        liquidation_bonus: spec_u16_from_le_bytes(b.subrange(140, 142)),
        borrow_cap: spec_u64_from_le_bytes(b.subrange(142, 150)),
        deposit_cap: spec_u64_from_le_bytes(b.subrange(150, 158)),
        farm_address: b.subrange(158, 190),
        farm_balance: spec_u64_from_le_bytes(b.subrange(190, 198)),
        is_active: b[198],
        allow_deposits: b[199],
        allow_borrows: b[200],
        is_closed: b[201],
    }
}

/// Decoding inverts encoding on every well-formed record.
pub proof fn lemma_reserve_codec_roundtrip(m: ReserveModel)
    requires
        m.lending_market.len() == 32,
        m.mint.len() == 32,
        m.farm_address.len() == 32,
    ensures
        spec_reserve_bytes(m).len() == RESERVE_LEN,
        spec_decode_reserve(spec_reserve_bytes(m)) == m,
{
    lemma_auto_spec_u16_to_from_le_bytes();
    lemma_auto_spec_u64_to_from_le_bytes();
    lemma_auto_spec_u128_to_from_le_bytes();
    let b = spec_reserve_bytes(m);
    assert(b.subrange(0, 32) =~= m.lending_market);
    assert(b.subrange(32, 64) =~= m.mint);
    assert(b.subrange(64, 72) =~= spec_u64_to_le_bytes(m.version));
    assert(b.subrange(72, 80) =~= spec_u64_to_le_bytes(m.available_liquidity));
    assert(b.subrange(80, 88) =~= spec_u64_to_le_bytes(m.total_supply));
    assert(b.subrange(88, 96) =~= spec_u64_to_le_bytes(m.total_borrows));
    assert(b.subrange(96, 112) =~= spec_u128_to_le_bytes(m.supply_index));
    assert(b.subrange(112, 128) =~= spec_u128_to_le_bytes(m.borrow_index));
    assert(b.subrange(128, 136) =~= spec_u64_to_le_bytes(m.last_update_timestamp as u64));
    assert(b.subrange(136, 138) =~= spec_u16_to_le_bytes(m.ltv));
    assert(b.subrange(138, 140) =~= spec_u16_to_le_bytes(m.liquidation_threshold));
    assert(b.subrange(140, 142) =~= spec_u16_to_le_bytes(m.liquidation_bonus));
    assert(b.subrange(142, 150) =~= spec_u64_to_le_bytes(m.borrow_cap));
    assert(b.subrange(150, 158) =~= spec_u64_to_le_bytes(m.deposit_cap));
    assert(b.subrange(158, 190) =~= m.farm_address);
    assert(b.subrange(190, 198) =~= spec_u64_to_le_bytes(m.farm_balance));
    let ts = m.last_update_timestamp;
    assert(((ts as u64) as i64) == ts) by (bit_vector);
    assert(spec_decode_reserve(b) =~= m);
}

/// Encoding inverts decoding on every full-length byte image.
pub proof fn lemma_reserve_codec_complete(b: Seq<u8>)
    requires
        b.len() == RESERVE_LEN,
    ensures
        spec_reserve_bytes(spec_decode_reserve(b)) == b,
{
    lemma_auto_spec_u16_to_from_le_bytes();
    lemma_auto_spec_u64_to_from_le_bytes();
    lemma_auto_spec_u128_to_from_le_bytes();
    let tsu = spec_u64_from_le_bytes(b.subrange(128, 136));
    assert(((tsu as i64) as u64) == tsu) by (bit_vector);
    assert(spec_reserve_bytes(spec_decode_reserve(b)) =~= b);
}

impl crate::lifecycle::StateDefinition for ReserveState {
    /// Canonical byte size of a reserve record.
    const LEN: usize = RESERVE_LEN;
}

impl ReserveState {
    /// The freshly initialized record binding a market to a mint.
    pub fn new(
        lending_market: [u8; 32],
        mint: [u8; 32],
        ltv: u16,
        liquidation_threshold: u16,
        liquidation_bonus: u16,
        borrow_cap: u64,
        deposit_cap: u64,
    ) -> (r: Self)
        ensures
            r@ == spec_new_reserve(
                lending_market@,
                mint@,
                ltv,
                liquidation_threshold,
                liquidation_bonus,
                borrow_cap,
                deposit_cap,
            ),
    {
        let r = Self {
            lending_market,
            mint,
            version: 0,
            available_liquidity: 0,
            total_supply: 0,
            total_borrows: 0,
            supply_index: INDEX_ONE,
            borrow_index: INDEX_ONE,
            last_update_timestamp: 0,
            ltv,
            liquidation_threshold,
            liquidation_bonus,
            borrow_cap,
            deposit_cap,
            farm_address: [0u8; 32],
            farm_balance: 0,
            is_active: 1,
            allow_deposits: 1,
            allow_borrows: 1,
            is_closed: 0,
        };
        proof {
            assert(r@ =~= spec_new_reserve(
                lending_market@,
                mint@,
                ltv,
                liquidation_threshold,
                liquidation_bonus,
                borrow_cap,
                deposit_cap,
            ));
        }
        r
    }

    /// True while the reserve accepts operations.
    pub fn is_active(&self) -> (r: bool)
        ensures
            r == (self@.is_active == 1),
    {
        self.is_active == 1
    }

    /// True once the reserve is permanently closed.
    pub fn is_closed(&self) -> (r: bool)
        ensures
            r == (self@.is_closed == 1),
    {
        self.is_closed == 1
    }

    /// True while deposits are allowed.
    pub fn allows_deposits(&self) -> (r: bool)
        ensures
            r == (self@.allow_deposits == 1),
    {
        self.allow_deposits == 1
    }

    /// True while borrows are allowed.
    pub fn allows_borrows(&self) -> (r: bool)
        ensures
            r == (self@.allow_borrows == 1),
    {
        self.allow_borrows == 1
    }

    /// Serializes the record into its canonical byte image.
    pub fn to_bytes(&self) -> (r: Vec<u8>)
        ensures
            r@ == spec_reserve_bytes(self@),
            r@.len() == RESERVE_LEN,
    {
        let mut out: Vec<u8> = Vec::new();
        push_bytes32(&mut out, &self.lending_market);
        push_bytes32(&mut out, &self.mint);
        push_u64_le(&mut out, self.version);
        push_u64_le(&mut out, self.available_liquidity);
        push_u64_le(&mut out, self.total_supply);
        push_u64_le(&mut out, self.total_borrows);
        push_u128_le(&mut out, self.supply_index);
        push_u128_le(&mut out, self.borrow_index);
        push_u64_le(&mut out, #[verifier::truncate] (self.last_update_timestamp as u64));
        push_u16_le(&mut out, self.ltv);
        push_u16_le(&mut out, self.liquidation_threshold);
        push_u16_le(&mut out, self.liquidation_bonus);
        push_u64_le(&mut out, self.borrow_cap);
        push_u64_le(&mut out, self.deposit_cap);
        push_bytes32(&mut out, &self.farm_address);
        push_u64_le(&mut out, self.farm_balance);
        out.push(self.is_active);
        out.push(self.allow_deposits);
        out.push(self.allow_borrows);
        out.push(self.is_closed);
        proof {
            lemma_auto_spec_u16_to_from_le_bytes();
            lemma_auto_spec_u64_to_from_le_bytes();
            lemma_auto_spec_u128_to_from_le_bytes();
            assert(out@ =~= spec_reserve_bytes(self@));
        }
        out
    }

    /// Reads a record back from a byte image of exactly the canonical size.
    pub fn from_bytes(data: &[u8]) -> (r: Result<Self, LendError>)
        ensures
            r is Ok <==> data@.len() == RESERVE_LEN,
            r matches Ok(m) ==> m@ == spec_decode_reserve(data@),
            r matches Err(e) ==> e == LendError::InvalidAccountData,
    {
        if data.len() != RESERVE_LEN {
            return Err(LendError::InvalidAccountData);
        }
        let m = Self {
            lending_market: read_bytes32(data, 0),
            mint: read_bytes32(data, 32),
            version: read_u64_le(data, 64),
            available_liquidity: read_u64_le(data, 72),
            total_supply: read_u64_le(data, 80),
            total_borrows: read_u64_le(data, 88),
            supply_index: read_u128_le(data, 96),
            borrow_index: read_u128_le(data, 112),
            last_update_timestamp: #[verifier::truncate] (read_u64_le(data, 128) as i64),
            ltv: read_u16_le(data, 136),
            liquidation_threshold: read_u16_le(data, 138),
            liquidation_bonus: read_u16_le(data, 140),
            borrow_cap: read_u64_le(data, 142),
            deposit_cap: read_u64_le(data, 150),
            farm_address: read_bytes32(data, 158),
            farm_balance: read_u64_le(data, 190),
            is_active: *slice_index_get(data, 198),
            allow_deposits: *slice_index_get(data, 199),
            allow_borrows: *slice_index_get(data, 200),
            is_closed: *slice_index_get(data, 201),
        };
        proof {
            assert(m@ =~= spec_decode_reserve(data@));
        }
        Ok(m)
    }
}

/// The model of a freshly initialized reserve.
pub open spec fn spec_new_reserve(
    lending_market: Seq<u8>,
    mint: Seq<u8>,
    ltv: u16,
    liquidation_threshold: u16,
    liquidation_bonus: u16,
    borrow_cap: u64,
    deposit_cap: u64,
) -> ReserveModel {
    ReserveModel {
        lending_market: lending_market,
        mint: mint,
        version: 0u64,
        available_liquidity: 0u64,
        total_supply: 0u64,
        total_borrows: 0u64,
        supply_index: INDEX_ONE,
        borrow_index: INDEX_ONE,
        last_update_timestamp: 0i64,
        ltv: ltv,
        liquidation_threshold: liquidation_threshold,
        liquidation_bonus: liquidation_bonus,
        borrow_cap: borrow_cap,
        deposit_cap: deposit_cap,
        farm_address: seq![0u8; 32],
        farm_balance: 0u64,
        is_active: 1u8,
        allow_deposits: 1u8,
        allow_borrows: 1u8,
        is_closed: 0u8,
    }
}

} // verus!
