//! The instruction envelope.
//!
//! One leading discriminant byte selects a handler; the rest of the wire
//! data is a fixed-size little-endian payload whose length must exactly
//! match the handler's declared size before any account work starts.

use crate::codec::keys_equal;
use crate::errors::LendError;
use vstd::prelude::*;
use vstd::slice::{slice_index_get, slice_subrange};

verus! {

/// The instructions the engine understands, in discriminant order.
#[derive(Clone, Copy, Debug, PartialEq, Eq, Structural)]
pub enum PlendInstructions {
    /// Create a lending market.
    InitLendingMarket,
    /// Transfer a market's ownership.
    UpdateLendingMarketOwner,
    /// Toggle a market's emergency mode.
    SetEmergencyMode,
    /// Rotate a market's risk council.
    UpdateRiskCouncil,
    /// Create a reserve with its custody vault.
    InitReserve,
    /// Reactivate a reserve.
    EnableReserve,
    /// Deactivate a reserve.
    DisableReserve,
    /// Permanently close a reserve.
    CloseReserve,
    /// Deposit liquidity into a reserve.
    SupplyLiquidity,
}

/// The instruction a discriminant byte selects.
pub open spec fn spec_instruction_of(value: u8) -> Option<PlendInstructions> {
    if value == 0 {
        Some(PlendInstructions::InitLendingMarket)
    } else if value == 1 {
        Some(PlendInstructions::UpdateLendingMarketOwner)
    } else if value == 2 {
        Some(PlendInstructions::SetEmergencyMode)
    } else if value == 3 {
        Some(PlendInstructions::UpdateRiskCouncil)
    } else if value == 4 {
        Some(PlendInstructions::InitReserve)
    } else if value == 5 {
        Some(PlendInstructions::EnableReserve)
    } else if value == 6 {
        Some(PlendInstructions::DisableReserve)
    } else if value == 7 {
        Some(PlendInstructions::CloseReserve)
    } else if value == 8 {
        Some(PlendInstructions::SupplyLiquidity)
    } else {
        None
    }
}

/// The exact payload size each instruction demands.
pub open spec fn spec_payload_len(ix: PlendInstructions) -> usize {
    match ix {
        PlendInstructions::InitLendingMarket => 96,
        PlendInstructions::UpdateLendingMarketOwner => 32,
        PlendInstructions::SetEmergencyMode => 1,
        PlendInstructions::UpdateRiskCouncil => 32,
        PlendInstructions::InitReserve => 22,
        PlendInstructions::EnableReserve => 0,
        PlendInstructions::DisableReserve => 0,
        PlendInstructions::CloseReserve => 0,
        PlendInstructions::SupplyLiquidity => 8,
    }
}

impl PlendInstructions {
    /// Decodes a discriminant byte; unknown bytes are refused.
    pub fn try_from(value: u8) -> (r: Result<Self, LendError>)
        ensures
            r matches Ok(ix) ==> spec_instruction_of(value) == Some(ix),
            r is Ok <==> spec_instruction_of(value) is Some,
            r matches Err(e) ==> e == LendError::InvalidInstructionData,
    {
        match value {
            0 => Ok(PlendInstructions::InitLendingMarket),
            1 => Ok(PlendInstructions::UpdateLendingMarketOwner),
            2 => Ok(PlendInstructions::SetEmergencyMode),
            3 => Ok(PlendInstructions::UpdateRiskCouncil),
            4 => Ok(PlendInstructions::InitReserve),
            5 => Ok(PlendInstructions::EnableReserve),
            6 => Ok(PlendInstructions::DisableReserve),
            7 => Ok(PlendInstructions::CloseReserve),
            8 => Ok(PlendInstructions::SupplyLiquidity),
            _ => Err(LendError::InvalidInstructionData),
        }
    }

    /// The discriminant byte of this instruction.
    pub fn discriminant(&self) -> (r: u8)
        ensures
            spec_instruction_of(r) == Some(*self),
    {
        match self {
            PlendInstructions::InitLendingMarket => 0,
            PlendInstructions::UpdateLendingMarketOwner => 1,
            PlendInstructions::SetEmergencyMode => 2,
            PlendInstructions::UpdateRiskCouncil => 3,
            PlendInstructions::InitReserve => 4,
            PlendInstructions::EnableReserve => 5,
            PlendInstructions::DisableReserve => 6,
            PlendInstructions::CloseReserve => 7,
            PlendInstructions::SupplyLiquidity => 8,
        }
    }

    /// The exact payload size this instruction demands.
    pub fn payload_len(&self) -> (r: usize)
        ensures
            r == spec_payload_len(*self),
    {
        match self {
            PlendInstructions::InitLendingMarket => 96,
            PlendInstructions::UpdateLendingMarketOwner => 32,
            PlendInstructions::SetEmergencyMode => 1,
            PlendInstructions::UpdateRiskCouncil => 32,
            PlendInstructions::InitReserve => 22,
            PlendInstructions::EnableReserve => 0,
            PlendInstructions::DisableReserve => 0,
            PlendInstructions::CloseReserve => 0,
            PlendInstructions::SupplyLiquidity => 8,
        }
    }
}

/// Refuses a payload whose length is not exactly `expected`.
pub fn ensure_payload_len(payload: &[u8], expected: usize) -> (r: Result<(), LendError>)
    ensures
        r is Ok <==> payload@.len() == expected,
        r matches Err(e) ==> e == LendError::InvalidInstructionData,
{
    if payload.len() == expected {
        Ok(())
    } else {
        Err(LendError::InvalidInstructionData)
    }
}

/// What envelope parsing yields for raw wire data under a program
/// identity: the selected instruction and its payload, or the first
/// failed envelope check.
pub open spec fn spec_parse_instruction(
    program_id: Seq<u8>,
    expected_id: Seq<u8>,
    data: Seq<u8>,
) -> Result<(PlendInstructions, Seq<u8>), LendError> {
    if program_id != expected_id {
        Err(LendError::IncorrectProgramId)
    } else if data.len() == 0 {
        Err(LendError::InvalidInstructionData)
    } else {
        match spec_instruction_of(data[0]) {
            None => Err(LendError::InvalidInstructionData),
            Some(ix) => if data.len() - 1 != spec_payload_len(ix) {
                Err(LendError::InvalidInstructionData)
            } else {
                Ok((ix, data.subrange(1, data.len() as int)))
            },
        }
    }
}

/// Parses raw wire data into an instruction and its payload.
///
/// The program identity must match, the leading discriminant byte must be
/// known, and the rest of the data must have exactly the payload size the
/// instruction declares — all before any account work starts.
pub fn parse_instruction<'a>(
    program_id: &[u8; 32],
    expected_id: &[u8; 32],
    data: &'a [u8],
) -> (r: Result<(PlendInstructions, &'a [u8]), LendError>)
    ensures
        (r is Ok) == (spec_parse_instruction(program_id@, expected_id@, data@) is Ok),
        r matches Ok(p) ==> Ok::<_, LendError>((p.0, p.1@)) == spec_parse_instruction(
            program_id@,
            expected_id@,
            data@,
        ),
        r matches Err(e) ==> Err::<(PlendInstructions, Seq<u8>), _>(e) == spec_parse_instruction(
            program_id@,
            expected_id@,
            data@,
        ),
{
    if !keys_equal(program_id, expected_id) {
        return Err(LendError::IncorrectProgramId);
    }
    let n = data.len();
    if n == 0 {
        return Err(LendError::InvalidInstructionData);
    }
    let discriminant = *slice_index_get(data, 0);
    let instruction = PlendInstructions::try_from(discriminant)?;
    let payload = slice_subrange(data, 1, n);
    ensure_payload_len(payload, instruction.payload_len())?;
    Ok((instruction, payload))
}

} // verus!
