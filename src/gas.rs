//! The gas ledger: the two metering globals that a guest instance exports
//! (`remaining_points`, an i64 read as unsigned, and `exhausted_points`, an
//! i32 flag), and the charging operations built on them.
use vstd::prelude::*;
use crate::error::{AbiError, MeteringGlobalKind};

verus! {

/// The value held by a guest global.
#[derive(Clone, Copy, Debug, PartialEq, Eq, Structural)]
pub enum GlobalValue {
    I32(i32),
    I64(i64),
    /// A value of any other type (float or reference).
    Other,
}

/// A guest global: its value and whether the guest declared it mutable.
#[derive(Clone, Copy, Debug, PartialEq, Eq, Structural)]
pub struct MeteringGlobal {
    pub value: GlobalValue,
    pub mutable: bool,
}

/// The metering globals of one instance; `None` until they are bound when
/// the instance is linked.
#[derive(Clone, Copy, Debug, PartialEq, Eq, Structural)]
pub struct GasLedger {
    pub remaining_points: Option<MeteringGlobal>,
    pub exhausted_points: Option<MeteringGlobal>,
}

/// The unsigned reading of the bits of an i64.
pub open spec fn i64_as_u64(x: i64) -> u64 {
    if x >= 0 {
        x as u64
    } else {
        (x + 0x1_0000_0000_0000_0000int) as u64
    }
}

/// The i64 with the same bits as a u64.
pub open spec fn u64_as_i64(x: u64) -> i64 {
    if x <= i64::MAX {
        x as i64
    } else {
        (x - 0x1_0000_0000_0000_0000int) as i64
    }
}

pub open spec fn same_type(a: GlobalValue, b: GlobalValue) -> bool {
    match (a, b) {
        (GlobalValue::I32(_), GlobalValue::I32(_)) => true,
        (GlobalValue::I64(_), GlobalValue::I64(_)) => true,
        (GlobalValue::Other, GlobalValue::Other) => true,
        _ => false,
    }
}

/// A global accepts a new value when it is mutable and the types agree.
pub open spec fn accepts(g: MeteringGlobal, v: GlobalValue) -> bool {
    g.mutable && same_type(g.value, v)
}

impl GasLedger {
    /// Both globals are bound, mutable, and of the types the metering expects.
    pub open spec fn wf(self) -> bool {
        &&& self.remaining_points matches Some(r)
        &&& r.mutable && r.value is I64
        &&& self.exhausted_points matches Some(e)
        &&& e.mutable && e.value is I32
    }

    /// The exhaustion flag is raised.
    pub open spec fn is_exhausted(self) -> bool {
        self.exhausted_points matches Some(e) && e.value matches GlobalValue::I32(x) && x > 0
    }

    /// The stored remaining points, ignoring the exhaustion flag.
    pub open spec fn stored_points(self) -> u64 {
        match self.remaining_points {
            Some(MeteringGlobal { value: GlobalValue::I64(v), .. }) => i64_as_u64(v),
            _ => 0,
        }
    }

    /// What reading the remaining gas gives: the flag is checked first and
    /// forces 0 when raised.
    pub open spec fn spec_remaining(self) -> Result<u64, AbiError> {
        match self.exhausted_points {
            None => Err(AbiError::LostReference(MeteringGlobalKind::ExhaustedPoints)),
            Some(e) => match e.value {
                GlobalValue::I32(x) => if x > 0 {
                    Ok(0u64)
                } else {
                    match self.remaining_points {
                        None => Err(AbiError::LostReference(MeteringGlobalKind::RemainingPoints)),
                        Some(r) => match r.value {
                            GlobalValue::I64(v) => Ok(i64_as_u64(v)),
                            _ => Err(AbiError::WrongType(MeteringGlobalKind::RemainingPoints)),
                        },
                    }
                },
                _ => Err(AbiError::WrongType(MeteringGlobalKind::ExhaustedPoints)),
            },
        }
    }

    /// The effective remaining gas of a well-formed ledger.
    pub open spec fn remaining(self) -> u64 {
        if self.is_exhausted() { 0 } else { self.stored_points() }
    }

    /// The outcome of writing `points` and clearing the flag.
    pub open spec fn set_result(self, points: u64) -> Result<(), AbiError> {
        match self.remaining_points {
            None => Err(AbiError::LostReference(MeteringGlobalKind::RemainingPoints)),
            Some(r) => if !accepts(r, GlobalValue::I64(u64_as_i64(points))) {
                Err(AbiError::CannotSet(MeteringGlobalKind::RemainingPoints))
            } else {
                match self.exhausted_points {
                    None => Err(AbiError::LostReference(MeteringGlobalKind::ExhaustedPoints)),
                    Some(e) => if !accepts(e, GlobalValue::I32(0)) {
                        Err(AbiError::CannotSet(MeteringGlobalKind::ExhaustedPoints))
                    } else {
                        Ok(())
                    },
                }
            },
        }
    }

    /// The globals after writing `points` and clearing the flag; a write that
    /// was refused leaves its global as it was, one that went through stays.
    pub open spec fn set_state(self, points: u64) -> GasLedger {
        match self.remaining_points {
            Some(r) if accepts(r, GlobalValue::I64(u64_as_i64(points))) => {
                let r2 = MeteringGlobal { value: GlobalValue::I64(u64_as_i64(points)), ..r };
                match self.exhausted_points {
                    Some(e) if accepts(e, GlobalValue::I32(0)) => GasLedger {
                        remaining_points: Some(r2),
                        exhausted_points: Some(MeteringGlobal { value: GlobalValue::I32(0), ..e }),
                    },
                    _ => GasLedger { remaining_points: Some(r2), ..self },
                }
            },
            _ => self,
        }
    }

    /// The outcome of charging `cost`.
    pub open spec fn sub_result(self, cost: u64) -> Result<(), AbiError> {
        match self.spec_remaining() {
            Err(e) => Err(e),
            Ok(rem) => if rem < cost {
                Err(AbiError::GasExhausted)
            } else {
                self.set_result((rem - cost) as u64)
            },
        }
    }

    /// The globals after charging `cost`: unchanged when the charge fails
    /// before writing.
    pub open spec fn sub_state(self, cost: u64) -> GasLedger {
        match self.spec_remaining() {
            Ok(rem) if rem >= cost => self.set_state((rem - cost) as u64),
            _ => self,
        }
    }

    /// The outcome of charging `count * unit_cost`.
    pub open spec fn sub_mult_result(self, count: usize, unit_cost: usize) -> Result<(), AbiError> {
        if count * unit_cost > usize::MAX {
            Err(AbiError::MultiplicationOverflow(count, unit_cost))
        } else {
            self.sub_result((count * unit_cost) as u64)
        }
    }

    /// The globals after charging `count * unit_cost`.
    pub open spec fn sub_mult_state(self, count: usize, unit_cost: usize) -> GasLedger {
        if count * unit_cost > usize::MAX {
            self
        } else {
            self.sub_state((count * unit_cost) as u64)
        }
    }
}

fn i64_to_u64_bits(x: i64) -> (r: u64)
    ensures
        r == i64_as_u64(x),
{
    if x >= 0 {
        x as u64
    } else {
        let shifted: i64 = x + i64::MAX + 1;
        shifted as u64 + (i64::MAX as u64) + 1
    }
}

fn u64_to_i64_bits(x: u64) -> (r: i64)
    ensures
        r == u64_as_i64(x),
{
    if x <= i64::MAX as u64 {
        x as i64
    } else {
        let low: u64 = x - (i64::MAX as u64) - 1;
        low as i64 - i64::MAX - 1
    }
}

/// Reads the remaining gas. When the exhaustion flag is raised the result is
/// 0, whatever `remaining_points` holds.
pub fn get_remaining_points(gas: &GasLedger) -> (r: Result<u64, AbiError>)
    ensures
        r == gas.spec_remaining(),
        gas.wf() ==> r == Ok::<u64, AbiError>(gas.remaining()),
{
    match gas.exhausted_points {
        None => Err(AbiError::LostReference(MeteringGlobalKind::ExhaustedPoints)),
        Some(e) => match e.value {
            GlobalValue::I32(x) => {
                if x > 0 {
                    return Ok(0);
                }
                match gas.remaining_points {
                    None => Err(AbiError::LostReference(MeteringGlobalKind::RemainingPoints)),
                    Some(r) => match r.value {
                        GlobalValue::I64(v) => Ok(i64_to_u64_bits(v)),
                        _ => Err(AbiError::WrongType(MeteringGlobalKind::RemainingPoints)),
                    },
                }
            },
            _ => Err(AbiError::WrongType(MeteringGlobalKind::ExhaustedPoints)),
        },
    }
}

fn global_accepts(g: &MeteringGlobal, v: &GlobalValue) -> (r: bool)
    ensures
        r == accepts(*g, *v),
{
    g.mutable && match (g.value, *v) {
        (GlobalValue::I32(_), GlobalValue::I32(_)) => true,
        (GlobalValue::I64(_), GlobalValue::I64(_)) => true,
        (GlobalValue::Other, GlobalValue::Other) => true,
        _ => false,
    }
}

/// Writes `points` as the remaining gas and clears the exhaustion flag.
pub fn set_remaining_points(gas: &mut GasLedger, points: u64) -> (r: Result<(), AbiError>)
    ensures
        r == old(gas).set_result(points),
        *final(gas) == old(gas).set_state(points),
{
    let new_remaining = GlobalValue::I64(u64_to_i64_bits(points));
    match gas.remaining_points {
        None => {
            return Err(AbiError::LostReference(MeteringGlobalKind::RemainingPoints));
        },
        Some(r) => {
            if !global_accepts(&r, &new_remaining) {
                return Err(AbiError::CannotSet(MeteringGlobalKind::RemainingPoints));
            }
            gas.remaining_points = Some(MeteringGlobal { value: new_remaining, mutable: r.mutable });
        },
    }
    let cleared = GlobalValue::I32(0);
    match gas.exhausted_points {
        None => Err(AbiError::LostReference(MeteringGlobalKind::ExhaustedPoints)),
        Some(e) => {
            if !global_accepts(&e, &cleared) {
                return Err(AbiError::CannotSet(MeteringGlobalKind::ExhaustedPoints));
            }
            gas.exhausted_points = Some(MeteringGlobal { value: cleared, mutable: e.mutable });
            Ok(())
        },
    }
}

/// Charges `cost`. On underflow nothing is charged and the error is
/// `GasExhausted`.
pub fn sub_remaining_gas(gas: &mut GasLedger, cost: u64) -> (r: Result<(), AbiError>)
    ensures
        r == old(gas).sub_result(cost),
        *final(gas) == old(gas).sub_state(cost),
{
    let remaining = get_remaining_points(gas)?;
    match remaining.checked_sub(cost) {
        Some(left) => set_remaining_points(gas, left),
        None => Err(AbiError::GasExhausted),
    }
}

/// Charges `count * unit_cost`; a product that overflows is refused with
/// `MultiplicationOverflow` before anything is read or written.
pub fn sub_remaining_gas_with_mult(gas: &mut GasLedger, count: usize, unit_cost: usize) -> (r: Result<(), AbiError>)
    ensures
        r == old(gas).sub_mult_result(count, unit_cost),
        *final(gas) == old(gas).sub_mult_state(count, unit_cost),
{
    match count.checked_mul(unit_cost) {
        Some(cost) => sub_remaining_gas(gas, cost as u64),
        None => Err(AbiError::MultiplicationOverflow(count, unit_cost)),
    }
}

proof fn lemma_bits_round_trip(x: u64)
    ensures
        i64_as_u64(u64_as_i64(x)) == x,
{
}

/// A charge that the remaining gas covers succeeds and leaves exactly
/// `remaining - v`; one that it does not cover fails as exhausted and leaves
/// the ledger as it was.
pub proof fn lemma_sub_then_remaining(g: GasLedger, v: u64)
    requires
        g.wf(),
    ensures
        v <= g.remaining() ==> {
            &&& g.sub_result(v) is Ok
            &&& g.sub_state(v).wf()
            &&& g.sub_state(v).spec_remaining() == Ok::<u64, AbiError>((g.remaining() - v) as u64)
        },
        v > g.remaining() ==> {
            &&& g.sub_result(v) == Err::<(), AbiError>(AbiError::GasExhausted)
            &&& g.sub_state(v) == g
        },
{
    lemma_bits_round_trip((g.remaining() - v) as u64);
}

/// A charge never adds gas, and keeps a well-formed ledger well formed.
pub proof fn lemma_sub_spends(g: GasLedger, cost: u64)
    ensures
        g.wf() ==> g.sub_state(cost).wf() && g.sub_state(cost).remaining() <= g.remaining(),
{
    if g.wf() && g.remaining() >= cost {
        lemma_sub_then_remaining(g, cost);
    }
}

/// Writing the remaining gas clears the exhaustion flag whatever its prior
/// value: after a write that succeeds the ledger reads back exactly the
/// value written. On a well-formed ledger the write always succeeds.
pub proof fn lemma_set_clears_exhaustion(g: GasLedger, x: u64)
    ensures
        g.set_result(x) is Ok ==> {
            &&& !g.set_state(x).is_exhausted()
            &&& g.set_state(x).spec_remaining() == Ok::<u64, AbiError>(x)
        },
        g.wf() ==> g.set_result(x) is Ok && g.set_state(x).wf(),
{
    lemma_bits_round_trip(x);
}

/// While the exhaustion flag is raised the remaining gas reads as 0,
/// whatever `remaining_points` holds.
pub proof fn lemma_exhausted_reads_zero(g: GasLedger)
    requires
        g.is_exhausted(),
    ensures
        g.spec_remaining() == Ok::<u64, AbiError>(0),
{
}

/// A variable-length charge whose product does not fit in a machine word
/// fails with `MultiplicationOverflow`, never `GasExhausted`, and leaves the
/// ledger as it was.
pub proof fn lemma_mult_overflow_is_distinct(g: GasLedger, count: usize, unit_cost: usize)
    requires
        count * unit_cost > usize::MAX,
    ensures
        g.sub_mult_result(count, unit_cost) == Err::<(), AbiError>(AbiError::MultiplicationOverflow(count, unit_cost)),
        g.sub_mult_state(count, unit_cost) == g,
{
}

} // verus!
