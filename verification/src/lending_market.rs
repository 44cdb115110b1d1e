//! The lending market record.
//!
//! One market exists per owner namespace.  Its byte image is packed
//! little-endian: `version` (8), `lending_market_owner` (32),
//! `quote_currency` (32), `risk_council` (32), `emergency_mode` (1).

use crate::codec::{push_bytes32, push_u64_le, read_bytes32, read_u64_le};
use crate::errors::LendError;
use vstd::bytes::{lemma_auto_spec_u64_to_from_le_bytes, spec_u64_from_le_bytes, spec_u64_to_le_bytes};
use vstd::prelude::*;
use vstd::slice::slice_index_get;

verus! {

/// Canonical byte size of a lending market record.
pub const LENDING_MARKET_LEN: usize = 105;

/// Mathematical image of a lending market record.
#[verifier::ext_equal]
pub struct LendingMarketModel {
    /// Layout version, reserved for migration.
    pub version: u64,
    /// Authority over ownership, council rotation and reserve lifecycle.
    pub lending_market_owner: Seq<u8>,
    /// Tag of the value unit all prices are quoted in.
    pub quote_currency: Seq<u8>,
    /// Secondary authority for emergency actions.
    pub risk_council: Seq<u8>,
    /// 1 while emergency mode is on, else 0.
    pub emergency_mode: u8,
}

impl LendingMarketModel {
    /// Address fields are exactly 32 bytes wide.
    pub open spec fn wf(self) -> bool {
        &&& self.lending_market_owner.len() == 32
        &&& self.quote_currency.len() == 32
        &&& self.risk_council.len() == 32
    }
}

/// A lending market record, as stored.
#[derive(Clone, Copy, Debug, PartialEq, Eq)]
pub struct LendingMarketState {
    /// Layout version, reserved for migration.
    pub version: u64,
    /// Authority over ownership, council rotation and reserve lifecycle.
    pub lending_market_owner: [u8; 32],
    /// Tag of the value unit all prices are quoted in.
    pub quote_currency: [u8; 32],
    /// Secondary authority for emergency actions.
    pub risk_council: [u8; 32],
    /// 1 while emergency mode is on, else 0.
    pub emergency_mode: u8,
}

impl View for LendingMarketState {
    type V = LendingMarketModel;

    open spec fn view(&self) -> LendingMarketModel {
        LendingMarketModel {
            version: self.version,
            lending_market_owner: self.lending_market_owner@,
            quote_currency: self.quote_currency@,
            risk_council: self.risk_council@,
            emergency_mode: self.emergency_mode,
        }
    }
}

/// The byte image of a lending market record.
pub open spec fn spec_market_bytes(m: LendingMarketModel) -> Seq<u8> {
    spec_u64_to_le_bytes(m.version) + m.lending_market_owner + m.quote_currency
        + m.risk_council + seq![m.emergency_mode]
}

/// The record a full-length byte image describes.
pub open spec fn spec_decode_market(b: Seq<u8>) -> LendingMarketModel {
    LendingMarketModel {
        version: spec_u64_from_le_bytes(b.subrange(0, 8)),
        lending_market_owner: b.subrange(8, 40),
        quote_currency: b.subrange(40, 72),
        risk_council: b.subrange(72, 104),
        emergency_mode: b[104],
    }
}

/// Decoding inverts encoding on every well-formed record.
pub proof fn lemma_market_codec_roundtrip(m: LendingMarketModel)
    requires
        m.wf(),
    ensures
        spec_market_bytes(m).len() == LENDING_MARKET_LEN,
        spec_decode_market(spec_market_bytes(m)) == m,
{
    lemma_auto_spec_u64_to_from_le_bytes();
    let b = spec_market_bytes(m);
    assert(b.subrange(0, 8) =~= spec_u64_to_le_bytes(m.version));
    assert(b.subrange(8, 40) =~= m.lending_market_owner);
    assert(b.subrange(40, 72) =~= m.quote_currency);
    assert(b.subrange(72, 104) =~= m.risk_council);
    assert(spec_decode_market(b) =~= m);
}

/// Encoding inverts decoding on every full-length byte image.
pub proof fn lemma_market_codec_complete(b: Seq<u8>)
    requires
        b.len() == LENDING_MARKET_LEN,
    ensures
        spec_decode_market(b).wf(),
        spec_market_bytes(spec_decode_market(b)) == b,
{
    lemma_auto_spec_u64_to_from_le_bytes();
    assert(spec_market_bytes(spec_decode_market(b)) =~= b);
}

impl crate::lifecycle::StateDefinition for LendingMarketState {
    /// Canonical byte size of a lending market record.
    const LEN: usize = LENDING_MARKET_LEN;
}

impl LendingMarketState {
    /// The freshly initialized record for the given authorities.
    pub fn new(
        lending_market_owner: [u8; 32],
        quote_currency: [u8; 32],
        risk_council: [u8; 32],
    ) -> (r: Self)
        ensures
            r@ == (LendingMarketModel {
                version: 0u64,
                lending_market_owner: lending_market_owner@,
                quote_currency: quote_currency@,
                risk_council: risk_council@,
                emergency_mode: 0u8,
            }),
    {
        let r = Self {
            version: 0,
            lending_market_owner,
            quote_currency,
            risk_council,
            emergency_mode: 0,
        };
        proof {
            assert(r@ =~= LendingMarketModel {
                version: 0u64,
                lending_market_owner: lending_market_owner@,
                quote_currency: quote_currency@,
                risk_council: risk_council@,
                emergency_mode: 0u8,
            });
        }
        r
    }

    /// Serializes the record into its canonical byte image.
    pub fn to_bytes(&self) -> (r: Vec<u8>)
        ensures
            r@ == spec_market_bytes(self@),
            r@.len() == LENDING_MARKET_LEN,
    {
        let mut out: Vec<u8> = Vec::new();
        push_u64_le(&mut out, self.version);
        push_bytes32(&mut out, &self.lending_market_owner);
        push_bytes32(&mut out, &self.quote_currency);
        push_bytes32(&mut out, &self.risk_council);
        out.push(self.emergency_mode);
        proof {
            lemma_auto_spec_u64_to_from_le_bytes();
            assert(out@ =~= spec_market_bytes(self@));
        }
        out
    }

    /// Reads a record back from a byte image of exactly the canonical size.
    pub fn from_bytes(data: &[u8]) -> (r: Result<Self, LendError>)
        ensures
            r is Ok <==> data@.len() == LENDING_MARKET_LEN,
            r matches Ok(m) ==> m@ == spec_decode_market(data@),
            r matches Err(e) ==> e == LendError::InvalidAccountData,
    {
        if data.len() != LENDING_MARKET_LEN {
            return Err(LendError::InvalidAccountData);
        }
        let m = Self {
            version: read_u64_le(data, 0),
            lending_market_owner: read_bytes32(data, 8),
            quote_currency: read_bytes32(data, 40),
            risk_council: read_bytes32(data, 72),
            emergency_mode: *slice_index_get(data, 104),
        };
        proof {
            assert(m@ =~= spec_decode_market(data@));
        }
        Ok(m)
    }
}

} // verus!
