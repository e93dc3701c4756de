//! Calls from one module into another: the caller's live remaining gas is
//! the callee's whole budget, and what the callee leaves is written back.
use vstd::prelude::*;
use crate::env::{spent, AbiEnv, Guest, Interface, Response};
use crate::error::AbiError;
use crate::gas::{get_remaining_points, set_remaining_points, sub_remaining_gas, GasLedger};
use crate::marshal::{get_string, pointer_from_string};

verus! {

/// Settles a nested call on the caller's ledger: a leftover above the
/// `budget` the callee was given is refused and changes nothing; any other
/// leftover becomes the caller's remaining gas.
pub fn settle_call(gas: &mut GasLedger, budget: u64, resp: &Response) -> (r: Result<(), AbiError>)
    ensures
        resp.remaining_gas > budget ==> r == Err::<(), AbiError>(AbiError::LeftoverAboveBudget) && *final(gas) == *old(gas),
        resp.remaining_gas <= budget ==> {
            &&& r == old(gas).set_result(resp.remaining_gas)
            &&& *final(gas) == old(gas).set_state(resp.remaining_gas)
        },
{
    if resp.remaining_gas > budget {
        return Err(AbiError::LeftoverAboveBudget);
    }
    set_remaining_points(gas, resp.remaining_gas)
}

/// Calls `function` of the module at `address` with `param`, making
/// `raw_coins` available to it. A negative amount is refused before the
/// ledger is reached, and a call the ledger refuses to open changes nothing. The callee runs with the caller's remaining gas, and
/// on success the caller's ledger holds exactly the gas the callee left,
/// which is never more than it was given: a larger leftover is refused.
pub fn call_module<G: Guest, I: Interface>(env: &mut AbiEnv<G, I>, address: &str, function: &str, param: &str, raw_coins: i64) -> (r: Result<Response, AbiError>)
    ensures
        final(env).guest == old(env).guest,
        final(env).interface == old(env).interface,
        final(env).costs == old(env).costs,
        spent(old(env).gas, final(env).gas),
        r == Err::<Response, AbiError>(AbiError::NegativeAmount) <==> raw_coins < 0,
        raw_coins < 0 ==> final(env).gas == old(env).gas,
        r matches Err(AbiError::CallRefused(_)) ==> final(env).gas == old(env).gas,
        r matches Err(AbiError::Execution(_)) ==> final(env).gas == old(env).gas,
        r matches Err(AbiError::LeftoverAboveBudget) ==> final(env).gas == old(env).gas,
        r matches Ok(resp) ==> {
            &&& raw_coins >= 0
            &&& old(env).gas.spec_remaining() matches Ok(budget)
            &&& resp.remaining_gas <= budget
            &&& old(env).gas.set_result(resp.remaining_gas) is Ok
            &&& final(env).gas == old(env).gas.set_state(resp.remaining_gas)
            &&& final(env).gas.spec_remaining() == Ok::<u64, AbiError>(resp.remaining_gas)
        },
        final(env).gas == old(env).gas || exists|x: u64| final(env).gas == old(env).gas.set_state(x),
{
    if raw_coins < 0 {
        return Err(AbiError::NegativeAmount);
    }
    let module = match env.interface.init_call(address, raw_coins as u64) {
        Ok(module) => module,
        Err(e) => {
            return Err(AbiError::CallRefused(e));
        },
    };
    let budget = get_remaining_points(&env.gas)?;
    let resp = match env.guest.exec(budget, module.as_slice(), function, param) {
        Ok(resp) => resp,
        Err(e) => {
            return Err(AbiError::Execution(e));
        },
    };
    let ghost before = env.gas;
    settle_call(&mut env.gas, budget, &resp)?;
    proof {
        crate::gas::lemma_set_clears_exhaustion(before, resp.remaining_gas);
    }
    match env.interface.finish_call() {
        Ok(()) => Ok(resp),
        Err(e) => Err(AbiError::Interface(e)),
    }
}

/// The host function for a call into another module: charges the constant,
/// reads the address, entry point and parameter, runs the call, and gives the
/// offset of the callee's return value.
pub fn assembly_script_call_module<G: Guest, I: Interface>(env: &mut AbiEnv<G, I>, address: i32, function: i32, param: i32, call_coins: i64) -> (r: Result<i32, AbiError>)
    ensures
        final(env).guest == old(env).guest,
        final(env).interface == old(env).interface,
        final(env).costs == old(env).costs,
        spent(old(env).gas, final(env).gas),
        old(env).gas.sub_result(old(env).costs.call) matches Err(e) ==> r == Err::<i32, AbiError>(e) && final(env).gas == old(env).gas.sub_state(old(env).costs.call),
        r matches Err(AbiError::Execution(_)) ==> final(env).gas == old(env).gas.sub_state(old(env).costs.call),
        r is Ok ==> {
            &&& call_coins >= 0
            &&& old(env).gas.sub_result(old(env).costs.call) is Ok
            &&& old(env).gas.sub_state(old(env).costs.call).spec_remaining() matches Ok(b)
            &&& exists|x: u64| x <= b && final(env).gas == #[trigger] old(env).gas.sub_state(old(env).costs.call).set_state(x)
        },
{
    let cost = env.costs.call;
    proof {
        crate::gas::lemma_sub_spends(env.gas, cost);
    }
    sub_remaining_gas(&mut env.gas, cost)?;
    let address = get_string(&env.guest, address)?;
    let function = get_string(&env.guest, function)?;
    let param = get_string(&env.guest, param)?;
    let response = call_module(env, address.as_str(), function.as_str(), param.as_str(), call_coins)?;
    pointer_from_string(&env.guest, response.ret.as_str())
}

} // verus!
