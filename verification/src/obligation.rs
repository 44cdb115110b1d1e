//! The borrower obligation record.
//!
//! One obligation exists per (market, owner, id).  The byte image is packed
//! little-endian: `lending_market` (32), `owner` (32), eight 64-byte
//! collateral slots, five 64-byte borrow slots, then `health_factor`,
//! `liquidation_threshold`, `last_update_slot` and one reserved word.  A
//! collateral slot holds `deposit_reserve` (32), `market_value_sf` (16),
//! `deposited_amount` (8) and a reserved word; a borrow slot holds
//! `borrow_reserve` (32), `borrowed_amount` (16) and `market_value` (16).

use crate::codec::{push_bytes32, push_u128_le, push_u64_le, read_bytes32, read_u128_le, read_u64_le};
use crate::errors::LendError;
use vstd::bytes::{
    lemma_auto_spec_u128_to_from_le_bytes, lemma_auto_spec_u64_to_from_le_bytes,
    spec_u128_from_le_bytes, spec_u128_to_le_bytes, spec_u64_from_le_bytes, spec_u64_to_le_bytes,
};
use vstd::prelude::*;

verus! {

broadcast use vstd::array::group_array_axioms;

/// Canonical byte size of an obligation record.
pub const OBLIGATION_LEN: usize = 928;

/// Number of collateral slots.
pub const OBLIGATION_DEPOSIT_SLOTS: usize = 8;

/// Number of borrow slots.
pub const OBLIGATION_BORROW_SLOTS: usize = 5;

/// Mathematical image of one collateral slot.
#[verifier::ext_equal]
pub struct CollateralModel {
    /// The reserve the collateral was deposited into.
    pub deposit_reserve: Seq<u8>,
    /// Scaled market value of the slot.
    pub market_value_sf: u128,
    /// Deposited token amount.
    pub deposited_amount: u64,
    /// Reserved word, kept zero.
    pub reserved: u64,
}

/// Mathematical image of one borrow slot.
#[verifier::ext_equal]
pub struct LiquidityModel {
    /// The reserve the liquidity was borrowed from.
    pub borrow_reserve: Seq<u8>,
    /// Borrowed amount, scaled.
    pub borrowed_amount: u128,
    /// Market value of the borrow.
    pub market_value: u128,
}

/// Mathematical image of an obligation record.
#[verifier::ext_equal]
pub struct ObligationModel {
    /// The market this obligation belongs to.
    pub lending_market: Seq<u8>,
    /// The borrower's address.
    pub owner: Seq<u8>,
    /// The eight collateral slots.
    pub deposits: Seq<CollateralModel>,
    /// The five borrow slots.
    pub borrows: Seq<LiquidityModel>,
    /// Cached health factor.
    pub health_factor: u64,
    /// Cached aggregate liquidation threshold.
    pub liquidation_threshold: u64,
    /// Ledger slot of the last refresh.
    pub last_update_slot: u64,
    /// Reserved word, kept zero.
    pub reserved: u64,
}

/// One collateral slot, as stored.
#[derive(Clone, Copy, Debug, PartialEq, Eq)]
pub struct ObligationCollateral {
    /// The reserve the collateral was deposited into.
    pub deposit_reserve: [u8; 32],
    /// Scaled market value of the slot.
    pub market_value_sf: u128,
    /// Deposited token amount.
    pub deposited_amount: u64,
    /// Reserved word, kept zero.
    pub reserved: u64,
}

/// One borrow slot, as stored.
#[derive(Clone, Copy, Debug, PartialEq, Eq)]
pub struct ObligationLiquidity {
    /// The reserve the liquidity was borrowed from.
    pub borrow_reserve: [u8; 32],
    /// Borrowed amount, scaled.
    pub borrowed_amount: u128,
    /// Market value of the borrow.
    pub market_value: u128,
}

/// An obligation record, as stored.
#[derive(Clone, Copy, Debug, PartialEq, Eq)]
pub struct ObligationState {
    /// The market this obligation belongs to.
    pub lending_market: [u8; 32],
    /// The borrower's address.
    pub owner: [u8; 32],
    /// The eight collateral slots.
    pub deposits: [ObligationCollateral; 8],
    /// The five borrow slots.
    pub borrows: [ObligationLiquidity; 5],
    /// Cached health factor.
    pub health_factor: u64,
    /// Cached aggregate liquidation threshold.
    pub liquidation_threshold: u64,
    /// Ledger slot of the last refresh.
    pub last_update_slot: u64,
    /// Reserved word, kept zero.
    pub reserved: u64,
}

impl View for ObligationCollateral {
    type V = CollateralModel;

    open spec fn view(&self) -> CollateralModel {
        CollateralModel {
            deposit_reserve: self.deposit_reserve@,
            market_value_sf: self.market_value_sf,
            deposited_amount: self.deposited_amount,
            reserved: self.reserved,
        }
    }
}

impl View for ObligationLiquidity {
    type V = LiquidityModel;

    open spec fn view(&self) -> LiquidityModel {
        LiquidityModel {
            borrow_reserve: self.borrow_reserve@,
            borrowed_amount: self.borrowed_amount,
            market_value: self.market_value,
        }
    }
}

impl View for ObligationState {
    type V = ObligationModel;

    open spec fn view(&self) -> ObligationModel {
        ObligationModel {
            lending_market: self.lending_market@,
            owner: self.owner@,
            deposits: self.deposits@.map_values(|c: ObligationCollateral| c@),
            borrows: self.borrows@.map_values(|l: ObligationLiquidity| l@),
            health_factor: self.health_factor,
            liquidation_threshold: self.liquidation_threshold,
            last_update_slot: self.last_update_slot,
            reserved: self.reserved,
        }
    }
}

/// An empty collateral slot.
pub open spec fn spec_zero_collateral() -> CollateralModel {
    CollateralModel {
        deposit_reserve: seq![0u8; 32],
        market_value_sf: 0u128,
        deposited_amount: 0u64,
        reserved: 0u64,
    }
}

/// An empty borrow slot.
pub open spec fn spec_zero_liquidity() -> LiquidityModel {
    LiquidityModel { borrow_reserve: seq![0u8; 32], borrowed_amount: 0u128, market_value: 0u128 }
}

/// The model of a freshly initialized obligation.
pub open spec fn spec_new_obligation(
    lending_market: Seq<u8>,
    owner: Seq<u8>,
    last_update_slot: u64,
) -> ObligationModel {
    ObligationModel {
        lending_market: lending_market,
        owner: owner,
        deposits: seq![spec_zero_collateral(); 8],
        borrows: seq![spec_zero_liquidity(); 5],
        health_factor: 0u64,
        liquidation_threshold: 0u64,
        last_update_slot: last_update_slot,
        reserved: 0u64,
    }
}

/// The byte image of one collateral slot.
pub open spec fn spec_collateral_bytes(c: CollateralModel) -> Seq<u8> {
    c.deposit_reserve + spec_u128_to_le_bytes(c.market_value_sf)
        + spec_u64_to_le_bytes(c.deposited_amount) + spec_u64_to_le_bytes(c.reserved)
}

/// The byte image of one borrow slot.
pub open spec fn spec_liquidity_bytes(l: LiquidityModel) -> Seq<u8> {
    l.borrow_reserve + spec_u128_to_le_bytes(l.borrowed_amount)
        + spec_u128_to_le_bytes(l.market_value)
}

/// The concatenated images of a run of collateral slots.
pub open spec fn spec_collaterals_bytes(s: Seq<CollateralModel>) -> Seq<u8>
    decreases s.len(),
{
    if s.len() == 0 {
        Seq::empty()
    } else {
        spec_collaterals_bytes(s.drop_last()) + spec_collateral_bytes(s.last())
    }
}

/// The concatenated images of a run of borrow slots.
pub open spec fn spec_liquidities_bytes(s: Seq<LiquidityModel>) -> Seq<u8>
    decreases s.len(),
{
    if s.len() == 0 {
        Seq::empty()
    } else {
        spec_liquidities_bytes(s.drop_last()) + spec_liquidity_bytes(s.last())
    }
}

/// The byte image of an obligation record.
pub open spec fn spec_obligation_bytes(m: ObligationModel) -> Seq<u8> {
    m.lending_market + m.owner + spec_collaterals_bytes(m.deposits)
        + spec_liquidities_bytes(m.borrows) + spec_u64_to_le_bytes(m.health_factor)
        + spec_u64_to_le_bytes(m.liquidation_threshold)
        + spec_u64_to_le_bytes(m.last_update_slot) + spec_u64_to_le_bytes(m.reserved)
}

/// Appends the image of one collateral slot.
fn push_collateral(out: &mut Vec<u8>, c: &ObligationCollateral)
    ensures
        final(out)@ == old(out)@ + spec_collateral_bytes(c@),
{
    push_bytes32(out, &c.deposit_reserve);
    push_u128_le(out, c.market_value_sf);
    push_u64_le(out, c.deposited_amount);
    push_u64_le(out, c.reserved);
    proof {
        assert(out@ =~= old(out)@ + spec_collateral_bytes(c@));
    }
}

/// Appends the image of one borrow slot.
fn push_liquidity(out: &mut Vec<u8>, l: &ObligationLiquidity)
    ensures
        final(out)@ == old(out)@ + spec_liquidity_bytes(l@),
{
    push_bytes32(out, &l.borrow_reserve);
    push_u128_le(out, l.borrowed_amount);
    push_u128_le(out, l.market_value);
    proof {
        assert(out@ =~= old(out)@ + spec_liquidity_bytes(l@));
    }
}

impl crate::lifecycle::StateDefinition for ObligationState {
    /// Canonical byte size of an obligation record.
    const LEN: usize = OBLIGATION_LEN;
}

impl ObligationState {
    /// The freshly initialized record for a borrower in a market.
    pub fn new(lending_market: [u8; 32], owner: [u8; 32], last_update_slot: u64) -> (r: Self)
        ensures
            r@ == spec_new_obligation(lending_market@, owner@, last_update_slot),
    {
        let zero_collateral = ObligationCollateral {
            deposit_reserve: [0u8; 32],
            market_value_sf: 0,
            deposited_amount: 0,
            reserved: 0,
        };
        let zero_liquidity = ObligationLiquidity {
            borrow_reserve: [0u8; 32],
            borrowed_amount: 0,
            market_value: 0,
        };
        let r = Self {
            lending_market,
            owner,
            deposits: [zero_collateral; 8],
            borrows: [zero_liquidity; 5],
            health_factor: 0,
            liquidation_threshold: 0,
            last_update_slot,
            reserved: 0,
        };
        proof {
            assert(zero_collateral@ =~= spec_zero_collateral());
            assert(zero_liquidity@ =~= spec_zero_liquidity());
            assert(r@.deposits =~= seq![spec_zero_collateral(); 8]);
            assert(r@.borrows =~= seq![spec_zero_liquidity(); 5]);
            assert(r@ =~= spec_new_obligation(lending_market@, owner@, last_update_slot));
        }
        r
    }

    /// Serializes the record into its canonical byte image.
    pub fn to_bytes(&self) -> (r: Vec<u8>)
        ensures
            r@ == spec_obligation_bytes(self@),
            r@.len() == OBLIGATION_LEN,
    {
        let ghost deposit_models = self.deposits@.map_values(|c: ObligationCollateral| c@);
        let ghost borrow_models = self.borrows@.map_values(|l: ObligationLiquidity| l@);
        let mut out: Vec<u8> = Vec::new();
        push_bytes32(&mut out, &self.lending_market);
        push_bytes32(&mut out, &self.owner);
        let ghost head = out@;
        let mut i: usize = 0;
        while i < 8
            invariant
                i <= 8,
                out@ == head + spec_collaterals_bytes(deposit_models.take(i as int)),
                deposit_models == self.deposits@.map_values(|c: ObligationCollateral| c@),
            decreases 8 - i,
        {
            push_collateral(&mut out, &self.deposits[i]);
            proof {
                assert(deposit_models.take(i + 1).drop_last() =~= deposit_models.take(i as int));
                assert(deposit_models.take(i + 1).last() == self.deposits@[i as int]@);
            }
            i = i + 1;
        }
        proof {
            assert(deposit_models.take(8) =~= deposit_models);
        }
        let ghost mid = out@;
        let mut j: usize = 0;
        while j < 5
            invariant
                j <= 5,
                out@ == mid + spec_liquidities_bytes(borrow_models.take(j as int)),
                borrow_models == self.borrows@.map_values(|l: ObligationLiquidity| l@),
            decreases 5 - j,
        {
            push_liquidity(&mut out, &self.borrows[j]);
            proof {
                assert(borrow_models.take(j + 1).drop_last() =~= borrow_models.take(j as int));
                assert(borrow_models.take(j + 1).last() == self.borrows@[j as int]@);
            }
            j = j + 1;
        }
        proof {
            assert(borrow_models.take(5) =~= borrow_models);
        }
        push_u64_le(&mut out, self.health_factor);
        push_u64_le(&mut out, self.liquidation_threshold);
        push_u64_le(&mut out, self.last_update_slot);
        push_u64_le(&mut out, self.reserved);
        proof {
            lemma_auto_spec_u64_to_from_le_bytes();
            lemma_auto_spec_u128_to_from_le_bytes();
            lemma_collaterals_bytes_len(self@.deposits);
            lemma_liquidities_bytes_len(self@.borrows);
            assert(out@ =~= spec_obligation_bytes(self@));
        }
        out
    }
}

/// Each collateral slot occupies 64 bytes.
pub proof fn lemma_collaterals_bytes_len(s: Seq<CollateralModel>)
    requires
        forall|i: int| 0 <= i < s.len() ==> s[i].deposit_reserve.len() == 32,
    ensures
        spec_collaterals_bytes(s).len() == 64 * s.len(),
    decreases s.len(),
{
    lemma_auto_spec_u64_to_from_le_bytes();
    lemma_auto_spec_u128_to_from_le_bytes();
    if s.len() > 0 {
        lemma_collaterals_bytes_len(s.drop_last());
    }
}

/// Each borrow slot occupies 64 bytes.
pub proof fn lemma_liquidities_bytes_len(s: Seq<LiquidityModel>)
    requires
        forall|i: int| 0 <= i < s.len() ==> s[i].borrow_reserve.len() == 32,
    ensures
        spec_liquidities_bytes(s).len() == 64 * s.len(),
    decreases s.len(),
{
    lemma_auto_spec_u64_to_from_le_bytes();
    lemma_auto_spec_u128_to_from_le_bytes();
    if s.len() > 0 {
        lemma_liquidities_bytes_len(s.drop_last());
    }
}

/// The collateral slot a 64-byte image describes.
pub open spec fn spec_decode_collateral(b: Seq<u8>) -> CollateralModel {
    CollateralModel {
        deposit_reserve: b.subrange(0, 32),
        market_value_sf: spec_u128_from_le_bytes(b.subrange(32, 48)),
        deposited_amount: spec_u64_from_le_bytes(b.subrange(48, 56)),
        reserved: spec_u64_from_le_bytes(b.subrange(56, 64)),
    }
}

/// The borrow slot a 64-byte image describes.
pub open spec fn spec_decode_liquidity(b: Seq<u8>) -> LiquidityModel {
    LiquidityModel {
        borrow_reserve: b.subrange(0, 32),
        borrowed_amount: spec_u128_from_le_bytes(b.subrange(32, 48)),
        market_value: spec_u128_from_le_bytes(b.subrange(48, 64)),
    }
}

/// The record a full-length byte image describes.
pub open spec fn spec_decode_obligation(b: Seq<u8>) -> ObligationModel {
    ObligationModel {
        lending_market: b.subrange(0, 32),
        owner: b.subrange(32, 64),
        deposits: Seq::new(8, |i: int| spec_decode_collateral(b.subrange(64 + 64 * i, 128 + 64 * i))),
        borrows: Seq::new(5, |i: int| spec_decode_liquidity(b.subrange(576 + 64 * i, 640 + 64 * i))),
        health_factor: spec_u64_from_le_bytes(b.subrange(896, 904)),
        liquidation_threshold: spec_u64_from_le_bytes(b.subrange(904, 912)),
        last_update_slot: spec_u64_from_le_bytes(b.subrange(912, 920)),
        reserved: spec_u64_from_le_bytes(b.subrange(920, 928)),
    }
}

/// Decoding inverts encoding on one collateral slot.
proof fn lemma_collateral_roundtrip(c: CollateralModel)
    requires
        c.deposit_reserve.len() == 32,
    ensures
        spec_collateral_bytes(c).len() == 64,
        spec_decode_collateral(spec_collateral_bytes(c)) == c,
{
    lemma_auto_spec_u64_to_from_le_bytes();
    lemma_auto_spec_u128_to_from_le_bytes();
    let b = spec_collateral_bytes(c);
    assert(b.subrange(0, 32) =~= c.deposit_reserve);
    assert(b.subrange(32, 48) =~= spec_u128_to_le_bytes(c.market_value_sf));
    assert(b.subrange(48, 56) =~= spec_u64_to_le_bytes(c.deposited_amount));
    assert(b.subrange(56, 64) =~= spec_u64_to_le_bytes(c.reserved));
    assert(spec_decode_collateral(b) =~= c);
}

/// Decoding inverts encoding on one borrow slot.
proof fn lemma_liquidity_roundtrip(l: LiquidityModel)
    requires
        l.borrow_reserve.len() == 32,
    ensures
        spec_liquidity_bytes(l).len() == 64,
        spec_decode_liquidity(spec_liquidity_bytes(l)) == l,
{
    lemma_auto_spec_u128_to_from_le_bytes();
    let b = spec_liquidity_bytes(l);
    assert(b.subrange(0, 32) =~= l.borrow_reserve);
    assert(b.subrange(32, 48) =~= spec_u128_to_le_bytes(l.borrowed_amount));
    assert(b.subrange(48, 64) =~= spec_u128_to_le_bytes(l.market_value));
    assert(spec_decode_liquidity(b) =~= l);
}

/// Slot `i` of a run of collateral slots occupies bytes `64 i .. 64 i + 64`.
proof fn lemma_collaterals_bytes_at(s: Seq<CollateralModel>, i: int)
    requires
        forall|j: int| 0 <= j < s.len() ==> s[j].deposit_reserve.len() == 32,
        0 <= i < s.len(),
    ensures
        spec_collaterals_bytes(s).subrange(64 * i, 64 * i + 64) == spec_collateral_bytes(s[i]),
    decreases s.len(),
{
    lemma_collaterals_bytes_len(s);
    lemma_collateral_roundtrip(s[i]);
    if i == s.len() - 1 {
        lemma_collaterals_bytes_len(s.drop_last());
        assert(spec_collaterals_bytes(s).subrange(64 * i, 64 * i + 64) =~= spec_collateral_bytes(
            s.last(),
        ));
    } else {
        lemma_collaterals_bytes_at(s.drop_last(), i);
        lemma_collaterals_bytes_len(s.drop_last());
        assert(spec_collaterals_bytes(s).subrange(64 * i, 64 * i + 64) =~= spec_collaterals_bytes(
            s.drop_last(),
        ).subrange(64 * i, 64 * i + 64));
    }
}

/// Slot `i` of a run of borrow slots occupies bytes `64 i .. 64 i + 64`.
proof fn lemma_liquidities_bytes_at(s: Seq<LiquidityModel>, i: int)
    requires
        forall|j: int| 0 <= j < s.len() ==> s[j].borrow_reserve.len() == 32,
        0 <= i < s.len(),
    ensures
        spec_liquidities_bytes(s).subrange(64 * i, 64 * i + 64) == spec_liquidity_bytes(s[i]),
    decreases s.len(),
{
    lemma_liquidities_bytes_len(s);
    lemma_liquidity_roundtrip(s[i]);
    if i == s.len() - 1 {
        lemma_liquidities_bytes_len(s.drop_last());
        assert(spec_liquidities_bytes(s).subrange(64 * i, 64 * i + 64) =~= spec_liquidity_bytes(
            s.last(),
        ));
    } else {
        lemma_liquidities_bytes_at(s.drop_last(), i);
        lemma_liquidities_bytes_len(s.drop_last());
        assert(spec_liquidities_bytes(s).subrange(64 * i, 64 * i + 64) =~= spec_liquidities_bytes(
            s.drop_last(),
        ).subrange(64 * i, 64 * i + 64));
    }
}

impl ObligationModel {
    /// Slot counts and address widths of a stored obligation record.
    pub open spec fn wf(self) -> bool {
        &&& self.lending_market.len() == 32
        &&& self.owner.len() == 32
        &&& self.deposits.len() == OBLIGATION_DEPOSIT_SLOTS
        &&& self.borrows.len() == OBLIGATION_BORROW_SLOTS
        &&& forall|i: int| 0 <= i < 8 ==> #[trigger] self.deposits[i].deposit_reserve.len() == 32
        &&& forall|i: int| 0 <= i < 5 ==> #[trigger] self.borrows[i].borrow_reserve.len() == 32
    }
}

/// Decoding inverts encoding on every well-formed obligation record.
pub proof fn lemma_obligation_codec_roundtrip(m: ObligationModel)
    requires
        m.wf(),
    ensures
        spec_obligation_bytes(m).len() == OBLIGATION_LEN,
        spec_decode_obligation(spec_obligation_bytes(m)) == m,
{
    lemma_auto_spec_u64_to_from_le_bytes();
    lemma_auto_spec_u128_to_from_le_bytes();
    lemma_collaterals_bytes_len(m.deposits);
    lemma_liquidities_bytes_len(m.borrows);
    let b = spec_obligation_bytes(m);
    let decoded = spec_decode_obligation(b);
    assert(b.subrange(0, 32) =~= m.lending_market);
    assert(b.subrange(32, 64) =~= m.owner);
    assert forall|i: int| 0 <= i < 8 implies decoded.deposits[i] == m.deposits[i] by {
        lemma_collaterals_bytes_at(m.deposits, i);
        assert(b.subrange(64 + 64 * i, 128 + 64 * i) =~= spec_collaterals_bytes(
            m.deposits,
        ).subrange(64 * i, 64 * i + 64));
        lemma_collateral_roundtrip(m.deposits[i]);
    }
    assert(decoded.deposits =~= m.deposits);
    assert forall|i: int| 0 <= i < 5 implies decoded.borrows[i] == m.borrows[i] by {
        lemma_liquidities_bytes_at(m.borrows, i);
        assert(b.subrange(576 + 64 * i, 640 + 64 * i) =~= spec_liquidities_bytes(
            m.borrows,
        ).subrange(64 * i, 64 * i + 64));
        lemma_liquidity_roundtrip(m.borrows[i]);
    }
    assert(decoded.borrows =~= m.borrows);
    assert(b.subrange(896, 904) =~= spec_u64_to_le_bytes(m.health_factor));
    assert(b.subrange(904, 912) =~= spec_u64_to_le_bytes(m.liquidation_threshold));
    assert(b.subrange(912, 920) =~= spec_u64_to_le_bytes(m.last_update_slot));
    assert(b.subrange(920, 928) =~= spec_u64_to_le_bytes(m.reserved));
    assert(decoded =~= m);
}

/// Reads one collateral slot stored at `off`.
fn read_collateral(data: &[u8], off: usize) -> (c: ObligationCollateral)
    requires
        off + 64 <= data@.len(),
    ensures
        c@ == spec_decode_collateral(data@.subrange(off as int, off as int + 64)),
{
    let _n = data.len();
    let c = ObligationCollateral {
        deposit_reserve: read_bytes32(data, off),
        market_value_sf: read_u128_le(data, off + 32),
        deposited_amount: read_u64_le(data, off + 48),
        reserved: read_u64_le(data, off + 56),
    };
    proof {
        let b = data@.subrange(off as int, off as int + 64);
        assert(b.subrange(0, 32) =~= data@.subrange(off as int, off as int + 32));
        assert(b.subrange(32, 48) =~= data@.subrange(off as int + 32, off as int + 48));
        assert(b.subrange(48, 56) =~= data@.subrange(off as int + 48, off as int + 56));
        assert(b.subrange(56, 64) =~= data@.subrange(off as int + 56, off as int + 64));
        assert(c@ =~= spec_decode_collateral(b));
    }
    c
}

/// Reads one borrow slot stored at `off`.
fn read_liquidity(data: &[u8], off: usize) -> (l: ObligationLiquidity)
    requires
        off + 64 <= data@.len(),
    ensures
        l@ == spec_decode_liquidity(data@.subrange(off as int, off as int + 64)),
{
    let _n = data.len();
    let l = ObligationLiquidity {
        borrow_reserve: read_bytes32(data, off),
        borrowed_amount: read_u128_le(data, off + 32),
        market_value: read_u128_le(data, off + 48),
    };
    proof {
        let b = data@.subrange(off as int, off as int + 64);
        assert(b.subrange(0, 32) =~= data@.subrange(off as int, off as int + 32));
        assert(b.subrange(32, 48) =~= data@.subrange(off as int + 32, off as int + 48));
        assert(b.subrange(48, 64) =~= data@.subrange(off as int + 48, off as int + 64));
        assert(l@ =~= spec_decode_liquidity(b));
    }
    l
}

impl ObligationState {
    /// Reads a record back from a byte image of exactly the canonical size.
    pub fn from_bytes(data: &[u8]) -> (r: Result<Self, LendError>)
        ensures
            r is Ok <==> data@.len() == OBLIGATION_LEN,
            r matches Ok(m) ==> m@ == spec_decode_obligation(data@),
            r matches Err(e) ==> e == LendError::InvalidAccountData,
    {
        if data.len() != OBLIGATION_LEN {
            return Err(LendError::InvalidAccountData);
        }
        let n = data.len();
        let zero_collateral = ObligationCollateral {
            deposit_reserve: [0u8; 32],
            market_value_sf: 0,
            deposited_amount: 0,
            reserved: 0,
        };
        let zero_liquidity = ObligationLiquidity {
            borrow_reserve: [0u8; 32],
            borrowed_amount: 0,
            market_value: 0,
        };
        let mut deposits: [ObligationCollateral; 8] = [zero_collateral; 8];
        let mut i: usize = 0;
        while i < 8
            invariant
                i <= 8,
                n == data@.len(),
                n == OBLIGATION_LEN,
                deposits@.len() == 8,
                forall|j: int|
                    0 <= j < i ==> #[trigger] deposits@[j]@ == spec_decode_collateral(
                        data@.subrange(64 + 64 * j, 128 + 64 * j),
                    ),
            decreases 8 - i,
        {
            deposits[i] = read_collateral(data, 64 + 64 * i);
            i = i + 1;
        }
        let mut borrows: [ObligationLiquidity; 5] = [zero_liquidity; 5];
        let mut j: usize = 0;
        while j < 5
            invariant
                j <= 5,
                n == data@.len(),
                n == OBLIGATION_LEN,
                borrows@.len() == 5,
                forall|k: int|
                    0 <= k < j ==> #[trigger] borrows@[k]@ == spec_decode_liquidity(
                        data@.subrange(576 + 64 * k, 640 + 64 * k),
                    ),
            decreases 5 - j,
        {
            borrows[j] = read_liquidity(data, 576 + 64 * j);
            j = j + 1;
        }
        let m = Self {
            lending_market: read_bytes32(data, 0),
            owner: read_bytes32(data, 32),
            deposits,
            borrows,
            health_factor: read_u64_le(data, 896),
            liquidation_threshold: read_u64_le(data, 904),
            last_update_slot: read_u64_le(data, 912),
            reserved: read_u64_le(data, 920),
        };
        proof {
            assert(m@.deposits =~= spec_decode_obligation(data@).deposits);
            assert(m@.borrows =~= spec_decode_obligation(data@).borrows);
            assert(m@ =~= spec_decode_obligation(data@));
        }
        Ok(m)
    }
}

/// Encoding inverts decoding on one collateral slot image.
proof fn lemma_collateral_complete(b: Seq<u8>)
    requires
        b.len() == 64,
    ensures
        spec_collateral_bytes(spec_decode_collateral(b)) == b,
{
    lemma_auto_spec_u64_to_from_le_bytes();
    lemma_auto_spec_u128_to_from_le_bytes();
    assert(spec_collateral_bytes(spec_decode_collateral(b)) =~= b);
}

/// Encoding inverts decoding on one borrow slot image.
proof fn lemma_liquidity_complete(b: Seq<u8>)
    requires
        b.len() == 64,
    ensures
        spec_liquidity_bytes(spec_decode_liquidity(b)) == b,
{
    lemma_auto_spec_u128_to_from_le_bytes();
    assert(spec_liquidity_bytes(spec_decode_liquidity(b)) =~= b);
}

/// A run of collateral slots whose images tile a buffer encodes to
/// exactly that buffer.
proof fn lemma_collaterals_bytes_tiling(s: Seq<CollateralModel>, b: Seq<u8>)
    requires
        b.len() == 64 * s.len(),
        forall|i: int|
            0 <= i < s.len() ==> #[trigger] spec_collateral_bytes(s[i]) == b.subrange(
                64 * i,
                64 * i + 64,
            ),
    ensures
        spec_collaterals_bytes(s) == b,
    decreases s.len(),
{
    if s.len() == 0 {
        assert(spec_collaterals_bytes(s) =~= b);
    } else {
        let n = s.len() as int;
        let prefix = b.subrange(0, 64 * (n - 1));
        assert forall|i: int| 0 <= i < s.drop_last().len() implies #[trigger] spec_collateral_bytes(
            s.drop_last()[i],
        ) == prefix.subrange(64 * i, 64 * i + 64) by {
            assert(prefix.subrange(64 * i, 64 * i + 64) =~= b.subrange(64 * i, 64 * i + 64));
        }
        lemma_collaterals_bytes_tiling(s.drop_last(), prefix);
        assert(spec_collateral_bytes(s.last()) == b.subrange(64 * (n - 1), 64 * n));
        assert(spec_collaterals_bytes(s) =~= b);
    }
}

/// A run of borrow slots whose images tile a buffer encodes to exactly
/// that buffer.
proof fn lemma_liquidities_bytes_tiling(s: Seq<LiquidityModel>, b: Seq<u8>)
    requires
        b.len() == 64 * s.len(),
        forall|i: int|
            0 <= i < s.len() ==> #[trigger] spec_liquidity_bytes(s[i]) == b.subrange(
                64 * i,
                64 * i + 64,
            ),
    ensures
        spec_liquidities_bytes(s) == b,
    decreases s.len(),
{
    if s.len() == 0 {
        assert(spec_liquidities_bytes(s) =~= b);
    } else {
        let n = s.len() as int;
        let prefix = b.subrange(0, 64 * (n - 1));
        assert forall|i: int| 0 <= i < s.drop_last().len() implies #[trigger] spec_liquidity_bytes(
            s.drop_last()[i],
        ) == prefix.subrange(64 * i, 64 * i + 64) by {
            assert(prefix.subrange(64 * i, 64 * i + 64) =~= b.subrange(64 * i, 64 * i + 64));
        }
        lemma_liquidities_bytes_tiling(s.drop_last(), prefix);
        assert(spec_liquidity_bytes(s.last()) == b.subrange(64 * (n - 1), 64 * n));
        assert(spec_liquidities_bytes(s) =~= b);
    }
}

/// Encoding inverts decoding on every full-length obligation image.
pub proof fn lemma_obligation_codec_complete(b: Seq<u8>)
    requires
        b.len() == OBLIGATION_LEN,
    ensures
        spec_decode_obligation(b).wf(),
        spec_obligation_bytes(spec_decode_obligation(b)) == b,
{
    lemma_auto_spec_u64_to_from_le_bytes();
    lemma_auto_spec_u128_to_from_le_bytes();
    let decoded = spec_decode_obligation(b);
    let deposit_region = b.subrange(64, 576);
    assert forall|i: int| 0 <= i < 8 implies #[trigger] spec_collateral_bytes(decoded.deposits[i])
        == deposit_region.subrange(64 * i, 64 * i + 64) by {
        lemma_collateral_complete(b.subrange(64 + 64 * i, 128 + 64 * i));
        assert(deposit_region.subrange(64 * i, 64 * i + 64) =~= b.subrange(
            64 + 64 * i,
            128 + 64 * i,
        ));
    }
    lemma_collaterals_bytes_tiling(decoded.deposits, deposit_region);
    let borrow_region = b.subrange(576, 896);
    assert forall|i: int| 0 <= i < 5 implies #[trigger] spec_liquidity_bytes(decoded.borrows[i])
        == borrow_region.subrange(64 * i, 64 * i + 64) by {
        lemma_liquidity_complete(b.subrange(576 + 64 * i, 640 + 64 * i));
        assert(borrow_region.subrange(64 * i, 64 * i + 64) =~= b.subrange(
            576 + 64 * i,
            640 + 64 * i,
        ));
    }
    lemma_liquidities_bytes_tiling(decoded.borrows, borrow_region);
    assert(spec_obligation_bytes(decoded) =~= b);
}

} // verus!
