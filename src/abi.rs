//! The host functions that guest bytecode calls. Each one charges its
//! constant, reads and charges its variable-length arguments, checks them,
//! makes one call to the ledger, and hands the result back to the guest.
use vstd::prelude::*;
use vstd::utf8::encode_utf8;
use crate::env::{spent, AbiEnv, Guest, Interface};
use crate::error::{AbiError, MessageField};
use crate::gas::{get_remaining_points, sub_remaining_gas, GasLedger};
use crate::marshal::{
    alloc_returned_value, alloc_string_array, get_string, join_strings, pointer_from_string,
    read_key_value_and_sub_gas, read_string_and_sub_gas, utf8_len,
};

verus! {

/// The guest, the ledger handle and the price list are untouched, and no gas
/// was added.
pub open spec fn frame<G, I>(a: AbiEnv<G, I>, b: AbiEnv<G, I>) -> bool {
    &&& b.guest == a.guest
    &&& b.interface == a.interface
    &&& b.costs == a.costs
    &&& spent(a.gas, b.gas)
}

/// When the constant charge fails the call fails with its error, and the
/// ledger is as that charge left it.
pub open spec fn charge_fails<T>(a: GasLedger, cost: u64, b: GasLedger, r: Result<T, AbiError>) -> bool {
    a.sub_result(cost) matches Err(e) ==> r == Err::<T, AbiError>(e) && b == a.sub_state(cost)
}

/// Only the constant is charged.
pub open spec fn charges_only(a: GasLedger, cost: u64, b: GasLedger) -> bool {
    b == a.sub_state(cost)
}

/// Past a constant charge that succeeded, every failure comes from the ledger.
pub open spec fn later_failures_from_ledger<T>(a: GasLedger, cost: u64, r: Result<T, AbiError>) -> bool {
    a.sub_result(cost) is Ok && r is Err ==> r matches Err(AbiError::Interface(_))
}

/// The call got as far as the ledger: it succeeded or the ledger failed it.
pub open spec fn reached_ledger<T>(r: Result<T, AbiError>) -> bool {
    r is Ok || (r matches Err(AbiError::Interface(_)))
}

/// The call got past reading its base64 text: it succeeded, the text was not
/// base64, or the ledger failed it.
pub open spec fn past_decoding<T>(r: Result<T, AbiError>) -> bool {
    reached_ledger(r) || (r matches Err(AbiError::InvalidBase64(_)))
}

/// The ledger handed back a value: it was allocated, or it was not UTF-8.
pub open spec fn value_returned<T>(r: Result<T, AbiError>) -> bool {
    r is Ok || (r matches Err(AbiError::InvalidUtf8(_)))
}

/// The ledger after the constant `cost` and one string charged at `rate`
/// per byte of its UTF-8 encoding.
pub open spec fn after_one(g: GasLedger, cost: u64, s: Seq<char>, rate: usize) -> GasLedger {
    g.sub_state(cost).sub_mult_state(utf8_len(s), rate)
}

/// The ledger after the constant `cost` and two strings, each charged at its
/// own rate.
pub open spec fn after_two(g: GasLedger, cost: u64, s1: Seq<char>, rate1: usize, s2: Seq<char>, rate2: usize) -> GasLedger {
    after_one(g, cost, s1, rate1).sub_mult_state(utf8_len(s2), rate2)
}

/// The name of what base64 decoding gives: `None` on text that is not
/// standard base64.
pub uninterp spec fn base64_decoded(text: Seq<u8>) -> Option<Seq<u8>>;

/// Relies on base64::decode (standard alphabet, padded).
#[verifier::external_body]
fn base64_decode(text: &str) -> (r: Result<Vec<u8>, String>)
    ensures
        r matches Ok(v) ==> base64_decoded(encode_utf8(text@)) == Some(v@),
        r is Err ==> base64_decoded(encode_utf8(text@)) is None,
{
    base64::decode(text).map_err(|e| e.to_string())
}

/// Decodes base64 bytecode; text that is not base64 is refused with
/// `InvalidBase64`.
pub fn decode_bytecode(text: &str) -> (r: Result<Vec<u8>, AbiError>)
    ensures
        r matches Ok(v) ==> base64_decoded(encode_utf8(text@)) == Some(v@),
        r is Err <==> base64_decoded(encode_utf8(text@)) is None,
        r is Err ==> r matches Err(AbiError::InvalidBase64(_)),
{
    match base64_decode(text) {
        Ok(v) => Ok(v),
        Err(e) => Err(AbiError::InvalidBase64(e)),
    }
}

/// Turns a ledger's yes/no answer into the guest's 1/0; a ledger failure
/// stays a failure.
pub fn bool_to_guest(res: Result<bool, String>) -> (r: Result<i32, AbiError>)
    ensures
        res matches Ok(b) ==> r == Ok::<i32, AbiError>(if b { 1i32 } else { 0i32 }),
        res is Err ==> r matches Err(AbiError::Interface(_)),
{
    match res {
        Ok(true) => Ok(1),
        Ok(false) => Ok(0),
        Err(e) => Err(AbiError::Interface(e)),
    }
}

/// A period and a thread given by the guest, as the ledger takes them: the
/// period non-negative, the thread within a byte.
pub open spec fn slot_check(period: i64, thread: i32, period_field: MessageField, thread_field: MessageField) -> Result<(u64, u8), AbiError> {
    if period < 0 {
        Err(AbiError::InvalidMessageField(period_field))
    } else if thread < 0 || thread > 255 {
        Err(AbiError::InvalidMessageField(thread_field))
    } else {
        Ok((period as u64, thread as u8))
    }
}

/// The checks on an asynchronous message's numbers, in order: validity
/// start, validity end, max gas, gas price, coins.
pub open spec fn message_check(
    validity_start_period: i64,
    validity_start_thread: i32,
    validity_end_period: i64,
    validity_end_thread: i32,
    max_gas: i64,
    gas_price: i64,
    raw_coins: i64,
) -> Result<((u64, u8), (u64, u8), u64, u64, u64), AbiError> {
    match slot_check(validity_start_period, validity_start_thread, MessageField::ValidityStartPeriod, MessageField::ValidityStartThread) {
        Err(e) => Err(e),
        Ok(start) => match slot_check(validity_end_period, validity_end_thread, MessageField::ValidityEndPeriod, MessageField::ValidityEndThread) {
            Err(e) => Err(e),
            Ok(end) => if max_gas < 0 {
                Err(AbiError::InvalidMessageField(MessageField::MaxGas))
            } else if gas_price < 0 {
                Err(AbiError::InvalidMessageField(MessageField::GasPrice))
            } else if raw_coins < 0 {
                Err(AbiError::InvalidMessageField(MessageField::Coins))
            } else {
                Ok((start, end, max_gas as u64, gas_price as u64, raw_coins as u64))
            },
        },
    }
}

fn check_slot(period: i64, thread: i32, period_field: MessageField, thread_field: MessageField) -> (r: Result<(u64, u8), AbiError>)
    ensures
        r == slot_check(period, thread, period_field, thread_field),
{
    if period < 0 {
        Err(AbiError::InvalidMessageField(period_field))
    } else if thread < 0 || thread > 255 {
        Err(AbiError::InvalidMessageField(thread_field))
    } else {
        Ok((period as u64, thread as u8))
    }
}

/// Checks the numbers of an asynchronous message and converts them to the
/// unsigned values the ledger takes.
pub fn check_message(
    validity_start_period: i64,
    validity_start_thread: i32,
    validity_end_period: i64,
    validity_end_thread: i32,
    max_gas: i64,
    gas_price: i64,
    raw_coins: i64,
) -> (r: Result<((u64, u8), (u64, u8), u64, u64, u64), AbiError>)
    ensures
        r == message_check(validity_start_period, validity_start_thread, validity_end_period, validity_end_thread, max_gas, gas_price, raw_coins),
{
    let start = check_slot(validity_start_period, validity_start_thread, MessageField::ValidityStartPeriod, MessageField::ValidityStartThread)?;
    let end = check_slot(validity_end_period, validity_end_thread, MessageField::ValidityEndPeriod, MessageField::ValidityEndThread)?;
    if max_gas < 0 {
        return Err(AbiError::InvalidMessageField(MessageField::MaxGas));
    }
    if gas_price < 0 {
        return Err(AbiError::InvalidMessageField(MessageField::GasPrice));
    }
    if raw_coins < 0 {
        return Err(AbiError::InvalidMessageField(MessageField::Coins));
    }
    Ok((start, end, max_gas as u64, gas_price as u64, raw_coins as u64))
}

/// Charges the constant `cost` of a host function.
fn charge<G: Guest, I: Interface>(env: &mut AbiEnv<G, I>, cost: u64) -> (r: Result<(), AbiError>)
    ensures
        final(env).guest == old(env).guest,
        final(env).interface == old(env).interface,
        final(env).costs == old(env).costs,
        spent(old(env).gas, final(env).gas),
        r == old(env).gas.sub_result(cost),
        final(env).gas == old(env).gas.sub_state(cost),
{
    proof {
        crate::gas::lemma_sub_spends(env.gas, cost);
    }
    sub_remaining_gas(&mut env.gas, cost)
}

/// The coins made available to the current call.
pub fn assembly_script_get_call_coins<G: Guest, I: Interface>(env: &mut AbiEnv<G, I>) -> (r: Result<i64, AbiError>)
    ensures
        frame(*old(env), *final(env)),
        charge_fails(old(env).gas, old(env).costs.get_call_coins, final(env).gas, r),
        charges_only(old(env).gas, old(env).costs.get_call_coins, final(env).gas),
        later_failures_from_ledger(old(env).gas, old(env).costs.get_call_coins, r),
{
    let cost = env.costs.get_call_coins;
    charge(env, cost)?;
    match env.interface.get_call_coins() {
        Ok(res) => Ok(res as i64),
        Err(e) => Err(AbiError::Interface(e)),
    }
}

/// Transfers `raw_amount` coins from the address on top of the call stack to
/// `to_address`. A negative amount is refused before the ledger is reached.
pub fn assembly_script_transfer_coins<G: Guest, I: Interface>(env: &mut AbiEnv<G, I>, to_address: i32, raw_amount: i64) -> (r: Result<(), AbiError>)
    ensures
        frame(*old(env), *final(env)),
        charge_fails(old(env).gas, old(env).costs.transfer, final(env).gas, r),
        charges_only(old(env).gas, old(env).costs.transfer, final(env).gas),
        old(env).gas.sub_result(old(env).costs.transfer) is Ok && raw_amount < 0 ==> r == Err::<(), AbiError>(AbiError::NegativeAmount),
        r == Err::<(), AbiError>(AbiError::NegativeAmount) ==> raw_amount < 0,
        r is Ok ==> raw_amount >= 0,
{
    let cost = env.costs.transfer;
    charge(env, cost)?;
    if raw_amount < 0 {
        return Err(AbiError::NegativeAmount);
    }
    let to_address = get_string(&env.guest, to_address)?;
    match env.interface.transfer_coins(to_address.as_str(), raw_amount as u64) {
        Ok(()) => Ok(()),
        Err(e) => Err(AbiError::Interface(e)),
    }
}

/// Transfers `raw_amount` coins from `from_address` to `to_address`. A
/// negative amount is refused before the ledger is reached.
pub fn assembly_script_transfer_coins_for<G: Guest, I: Interface>(env: &mut AbiEnv<G, I>, from_address: i32, to_address: i32, raw_amount: i64) -> (r: Result<(), AbiError>)
    ensures
        frame(*old(env), *final(env)),
        charge_fails(old(env).gas, old(env).costs.transfer, final(env).gas, r),
        charges_only(old(env).gas, old(env).costs.transfer, final(env).gas),
        old(env).gas.sub_result(old(env).costs.transfer) is Ok && raw_amount < 0 ==> r == Err::<(), AbiError>(AbiError::NegativeAmount),
        r == Err::<(), AbiError>(AbiError::NegativeAmount) ==> raw_amount < 0,
        r is Ok ==> raw_amount >= 0,
{
    let cost = env.costs.transfer;
    charge(env, cost)?;
    if raw_amount < 0 {
        return Err(AbiError::NegativeAmount);
    }
    let from_address = get_string(&env.guest, from_address)?;
    let to_address = get_string(&env.guest, to_address)?;
    match env.interface.transfer_coins_for(from_address.as_str(), to_address.as_str(), raw_amount as u64) {
        Ok(()) => Ok(()),
        Err(e) => Err(AbiError::Interface(e)),
    }
}

/// The balance of the current address.
pub fn assembly_script_get_balance<G: Guest, I: Interface>(env: &mut AbiEnv<G, I>) -> (r: Result<i64, AbiError>)
    ensures
        frame(*old(env), *final(env)),
        charge_fails(old(env).gas, old(env).costs.get_balance, final(env).gas, r),
        charges_only(old(env).gas, old(env).costs.get_balance, final(env).gas),
        later_failures_from_ledger(old(env).gas, old(env).costs.get_balance, r),
{
    let cost = env.costs.get_balance;
    charge(env, cost)?;
    match env.interface.get_balance() {
        Ok(res) => Ok(res as i64),
        Err(e) => Err(AbiError::Interface(e)),
    }
}

/// The balance of the address stored at `address`.
pub fn assembly_script_get_balance_for<G: Guest, I: Interface>(env: &mut AbiEnv<G, I>, address: i32) -> (r: Result<i64, AbiError>)
    ensures
        frame(*old(env), *final(env)),
        charge_fails(old(env).gas, old(env).costs.get_balance, final(env).gas, r),
        charges_only(old(env).gas, old(env).costs.get_balance, final(env).gas),
{
    let cost = env.costs.get_balance;
    charge(env, cost)?;
    let address = get_string(&env.guest, address)?;
    match env.interface.get_balance_for(address.as_str()) {
        Ok(res) => Ok(res as i64),
        Err(e) => Err(AbiError::Interface(e)),
    }
}

/// Creates a module from raw bytecode and gives its new address.
pub fn create_sc<I: Interface>(interface: &I, bytecode: &[u8]) -> (r: Result<String, AbiError>)
    ensures
        r is Err ==> r matches Err(AbiError::Interface(_)),
{
    match interface.create_module(bytecode) {
        Ok(address) => Ok(address),
        Err(e) => Err(AbiError::Interface(e)),
    }
}

/// The remaining gas, read after this call's own charge.
pub fn assembly_script_get_remaining_gas<G: Guest, I: Interface>(env: &mut AbiEnv<G, I>) -> (r: Result<i64, AbiError>)
    ensures
        frame(*old(env), *final(env)),
        charge_fails(old(env).gas, old(env).costs.remaining_gas, final(env).gas, r),
        charges_only(old(env).gas, old(env).costs.remaining_gas, final(env).gas),
        old(env).gas.sub_result(old(env).costs.remaining_gas) is Ok ==> match final(env).gas.spec_remaining() {
            Ok(v) => r == Ok::<i64, AbiError>(v as i64),
            Err(e) => r == Err::<i64, AbiError>(e),
        },
{
    let cost = env.costs.remaining_gas;
    charge(env, cost)?;
    let left = get_remaining_points(&env.gas)?;
    Ok(left as i64)
}

/// Prints the string stored at `arg` through the ledger.
pub fn assembly_script_print<G: Guest, I: Interface>(env: &mut AbiEnv<G, I>, arg: i32) -> (r: Result<(), AbiError>)
    ensures
        frame(*old(env), *final(env)),
        charge_fails(old(env).gas, old(env).costs.print, final(env).gas, r),
        charges_only(old(env).gas, old(env).costs.print, final(env).gas),
{
    let cost = env.costs.print;
    charge(env, cost)?;
    let message = get_string(&env.guest, arg)?;
    match env.interface.print(message.as_str()) {
        Ok(()) => Ok(()),
        Err(e) => Err(AbiError::Interface(e)),
    }
}

/// Creates a module from the base64 bytecode stored at `bytecode`: charges
/// the constant, then each byte of the text, and gives the offset of the new
/// address.
pub fn assembly_script_create_sc<G: Guest, I: Interface>(env: &mut AbiEnv<G, I>, bytecode: i32) -> (r: Result<i32, AbiError>)
    ensures
        frame(*old(env), *final(env)),
        charge_fails(old(env).gas, old(env).costs.create_sc_const, final(env).gas, r),
        past_decoding(r) ==> exists|t: Seq<char>| final(env).gas == #[trigger] after_one(old(env).gas, old(env).costs.create_sc_const, t, old(env).costs.create_sc_mult),
{
    let ghost g0 = env.gas;
    let ghost c0 = env.costs;
    let cost = env.costs.create_sc_const;
    charge(env, cost)?;
    let mult = env.costs.create_sc_mult;
    let text = read_string_and_sub_gas(env, bytecode, mult)?;
    proof {
        assert(env.gas == after_one(g0, c0.create_sc_const, text@, c0.create_sc_mult));
    }
    let raw = decode_bytecode(text.as_str())?;
    let address = create_sc(&env.interface, raw.as_slice())?;
    pointer_from_string(&env.guest, address.as_str())
}

/// Hashes the string stored at `value` and gives the offset of the hash.
pub fn assembly_script_hash<G: Guest, I: Interface>(env: &mut AbiEnv<G, I>, value: i32) -> (r: Result<i32, AbiError>)
    ensures
        frame(*old(env), *final(env)),
        charge_fails(old(env).gas, old(env).costs.hash_const, final(env).gas, r),
        reached_ledger(r) ==> exists|k: Seq<char>| final(env).gas == #[trigger] after_one(old(env).gas, old(env).costs.hash_const, k, old(env).costs.hash_per_byte),
{
    let ghost g0 = env.gas;
    let ghost c0 = env.costs;
    let cost = env.costs.hash_const;
    charge(env, cost)?;
    let mult = env.costs.hash_per_byte;
    let value = read_string_and_sub_gas(env, value, mult)?;
    proof {
        assert(env.gas == after_one(g0, c0.hash_const, value@, c0.hash_per_byte));
    }
    match env.interface.hash(value.as_str().as_bytes()) {
        Ok(h) => pointer_from_string(&env.guest, h.as_str()),
        Err(e) => Err(AbiError::Interface(e)),
    }
}

/// Sets an entry of the current address's datastore, overwriting any value.
pub fn assembly_script_set_data<G: Guest, I: Interface>(env: &mut AbiEnv<G, I>, key: i32, value: i32) -> (r: Result<(), AbiError>)
    ensures
        frame(*old(env), *final(env)),
        charge_fails(old(env).gas, old(env).costs.set_data_const, final(env).gas, r),
        reached_ledger(r) ==> exists|k: Seq<char>, v: Seq<char>| final(env).gas == #[trigger] after_two(old(env).gas, old(env).costs.set_data_const, k, old(env).costs.set_data_key_mult, v, old(env).costs.set_data_value_mult),
{
    let ghost g0 = env.gas;
    let ghost c0 = env.costs;
    let cost = env.costs.set_data_const;
    charge(env, cost)?;
    let key_mult = env.costs.set_data_key_mult;
    let value_mult = env.costs.set_data_value_mult;
    let (key, value) = read_key_value_and_sub_gas(env, key, key_mult, value, value_mult)?;
    proof {
        assert(env.gas == after_two(g0, c0.set_data_const, key@, c0.set_data_key_mult, value@, c0.set_data_value_mult));
    }
    match env.interface.raw_set_data(key.as_str(), value.as_str().as_bytes()) {
        Ok(()) => Ok(()),
        Err(e) => Err(AbiError::Interface(e)),
    }
}

/// Appends to an entry of the current address's datastore; the ledger fails
/// when the entry is absent.
pub fn assembly_script_append_data<G: Guest, I: Interface>(env: &mut AbiEnv<G, I>, key: i32, value: i32) -> (r: Result<(), AbiError>)
    ensures
        frame(*old(env), *final(env)),
        charge_fails(old(env).gas, old(env).costs.append_data_const, final(env).gas, r),
        reached_ledger(r) ==> exists|k: Seq<char>, v: Seq<char>| final(env).gas == #[trigger] after_two(old(env).gas, old(env).costs.append_data_const, k, old(env).costs.append_data_key_mult, v, old(env).costs.append_data_value_mult),
{
    let ghost g0 = env.gas;
    let ghost c0 = env.costs;
    let cost = env.costs.append_data_const;
    charge(env, cost)?;
    let key_mult = env.costs.append_data_key_mult;
    let value_mult = env.costs.append_data_value_mult;
    let (key, value) = read_key_value_and_sub_gas(env, key, key_mult, value, value_mult)?;
    proof {
        assert(env.gas == after_two(g0, c0.append_data_const, key@, c0.append_data_key_mult, value@, c0.append_data_value_mult));
    }
    match env.interface.raw_append_data(key.as_str(), value.as_str().as_bytes()) {
        Ok(()) => Ok(()),
        Err(e) => Err(AbiError::Interface(e)),
    }
}

/// Reads an entry of the current address's datastore, charges for the
/// length of the value returned, and gives the offset of the value.
pub fn assembly_script_get_data<G: Guest, I: Interface>(env: &mut AbiEnv<G, I>, key: i32) -> (r: Result<i32, AbiError>)
    ensures
        frame(*old(env), *final(env)),
        charge_fails(old(env).gas, old(env).costs.get_data_const, final(env).gas, r),
        r matches Err(AbiError::Interface(_)) ==> exists|k: Seq<char>| final(env).gas == #[trigger] after_one(old(env).gas, old(env).costs.get_data_const, k, old(env).costs.get_data_key_mult),
        value_returned(r) ==> exists|k: Seq<char>, n: usize| final(env).gas == #[trigger] after_one(old(env).gas, old(env).costs.get_data_const, k, old(env).costs.get_data_key_mult).sub_mult_state(n, old(env).costs.get_data_value_mult),
{
    let ghost g0 = env.gas;
    let ghost c0 = env.costs;
    let cost = env.costs.get_data_const;
    charge(env, cost)?;
    let key_mult = env.costs.get_data_key_mult;
    let key = read_string_and_sub_gas(env, key, key_mult)?;
    proof {
        assert(env.gas == after_one(g0, c0.get_data_const, key@, c0.get_data_key_mult));
    }
    match env.interface.raw_get_data(key.as_str()) {
        Ok(data) => {
            let value_mult = env.costs.get_data_value_mult;
            let r = alloc_returned_value(env, &data, value_mult);
            proof {
                assert(env.gas == after_one(g0, c0.get_data_const, key@, c0.get_data_key_mult).sub_mult_state(data@.len() as usize, c0.get_data_value_mult));
            }
            r
        },
        Err(e) => Err(AbiError::Interface(e)),
    }
}

/// Whether the current address's datastore holds the entry: 1 or 0.
pub fn assembly_script_has_data<G: Guest, I: Interface>(env: &mut AbiEnv<G, I>, key: i32) -> (r: Result<i32, AbiError>)
    ensures
        frame(*old(env), *final(env)),
        charge_fails(old(env).gas, old(env).costs.has_data_const, final(env).gas, r),
        r matches Ok(v) ==> v == 0 || v == 1,
        reached_ledger(r) ==> exists|k: Seq<char>| final(env).gas == #[trigger] after_one(old(env).gas, old(env).costs.has_data_const, k, old(env).costs.has_data_key_mult),
{
    let ghost g0 = env.gas;
    let ghost c0 = env.costs;
    let cost = env.costs.has_data_const;
    charge(env, cost)?;
    let key_mult = env.costs.has_data_key_mult;
    let key = read_string_and_sub_gas(env, key, key_mult)?;
    proof {
        assert(env.gas == after_one(g0, c0.has_data_const, key@, c0.has_data_key_mult));
    }
    bool_to_guest(env.interface.has_data(key.as_str()))
}

/// Deletes an entry of the current address's datastore; the ledger fails
/// when the entry is absent.
pub fn assembly_script_delete_data<G: Guest, I: Interface>(env: &mut AbiEnv<G, I>, key: i32) -> (r: Result<(), AbiError>)
    ensures
        frame(*old(env), *final(env)),
        charge_fails(old(env).gas, old(env).costs.delete_data_const, final(env).gas, r),
        reached_ledger(r) ==> exists|k: Seq<char>| final(env).gas == #[trigger] after_one(old(env).gas, old(env).costs.delete_data_const, k, old(env).costs.delete_data_key_mult),
{
    let ghost g0 = env.gas;
    let ghost c0 = env.costs;
    let cost = env.costs.delete_data_const;
    charge(env, cost)?;
    let key_mult = env.costs.delete_data_key_mult;
    let key = read_string_and_sub_gas(env, key, key_mult)?;
    proof {
        assert(env.gas == after_one(g0, c0.delete_data_const, key@, c0.delete_data_key_mult));
    }
    match env.interface.raw_delete_data(key.as_str()) {
        Ok(()) => Ok(()),
        Err(e) => Err(AbiError::Interface(e)),
    }
}

/// Sets an entry of an arbitrary address's datastore, creating it if absent.
pub fn assembly_script_set_data_for<G: Guest, I: Interface>(env: &mut AbiEnv<G, I>, address: i32, key: i32, value: i32) -> (r: Result<(), AbiError>)
    ensures
        frame(*old(env), *final(env)),
        charge_fails(old(env).gas, old(env).costs.set_data_const, final(env).gas, r),
        reached_ledger(r) ==> exists|k: Seq<char>, v: Seq<char>| final(env).gas == #[trigger] after_two(old(env).gas, old(env).costs.set_data_const, k, old(env).costs.set_data_key_mult, v, old(env).costs.set_data_value_mult),
{
    let ghost g0 = env.gas;
    let ghost c0 = env.costs;
    let cost = env.costs.set_data_const;
    charge(env, cost)?;
    let key_mult = env.costs.set_data_key_mult;
    let value_mult = env.costs.set_data_value_mult;
    let (key, value) = read_key_value_and_sub_gas(env, key, key_mult, value, value_mult)?;
    proof {
        assert(env.gas == after_two(g0, c0.set_data_const, key@, c0.set_data_key_mult, value@, c0.set_data_value_mult));
    }
    let address = get_string(&env.guest, address)?;
    match env.interface.raw_set_data_for(address.as_str(), key.as_str(), value.as_str().as_bytes()) {
        Ok(()) => Ok(()),
        Err(e) => Err(AbiError::Interface(e)),
    }
}

/// Appends to an entry of an arbitrary address's datastore.
pub fn assembly_script_append_data_for<G: Guest, I: Interface>(env: &mut AbiEnv<G, I>, address: i32, key: i32, value: i32) -> (r: Result<(), AbiError>)
    ensures
        frame(*old(env), *final(env)),
        charge_fails(old(env).gas, old(env).costs.append_data_const, final(env).gas, r),
        reached_ledger(r) ==> exists|k: Seq<char>, v: Seq<char>| final(env).gas == #[trigger] after_two(old(env).gas, old(env).costs.append_data_const, k, old(env).costs.append_data_key_mult, v, old(env).costs.append_data_value_mult),
{
    let ghost g0 = env.gas;
    let ghost c0 = env.costs;
    let cost = env.costs.append_data_const;
    charge(env, cost)?;
    let key_mult = env.costs.append_data_key_mult;
    let value_mult = env.costs.append_data_value_mult;
    let (key, value) = read_key_value_and_sub_gas(env, key, key_mult, value, value_mult)?;
    proof {
        assert(env.gas == after_two(g0, c0.append_data_const, key@, c0.append_data_key_mult, value@, c0.append_data_value_mult));
    }
    let address = get_string(&env.guest, address)?;
    match env.interface.raw_append_data_for(address.as_str(), key.as_str(), value.as_str().as_bytes()) {
        Ok(()) => Ok(()),
        Err(e) => Err(AbiError::Interface(e)),
    }
}

/// Reads an entry of an arbitrary address's datastore, charges for the
/// length of the value returned, and gives the offset of the value.
pub fn assembly_script_get_data_for<G: Guest, I: Interface>(env: &mut AbiEnv<G, I>, address: i32, key: i32) -> (r: Result<i32, AbiError>)
    ensures
        frame(*old(env), *final(env)),
        charge_fails(old(env).gas, old(env).costs.get_data_const, final(env).gas, r),
        r matches Err(AbiError::Interface(_)) ==> exists|k: Seq<char>| final(env).gas == #[trigger] after_one(old(env).gas, old(env).costs.get_data_const, k, old(env).costs.get_data_key_mult),
        value_returned(r) ==> exists|k: Seq<char>, n: usize| final(env).gas == #[trigger] after_one(old(env).gas, old(env).costs.get_data_const, k, old(env).costs.get_data_key_mult).sub_mult_state(n, old(env).costs.get_data_value_mult),
{
    let ghost g0 = env.gas;
    let ghost c0 = env.costs;
    let cost = env.costs.get_data_const;
    charge(env, cost)?;
    let address = get_string(&env.guest, address)?;
    let key_mult = env.costs.get_data_key_mult;
    let key = read_string_and_sub_gas(env, key, key_mult)?;
    proof {
        assert(env.gas == after_one(g0, c0.get_data_const, key@, c0.get_data_key_mult));
    }
    match env.interface.raw_get_data_for(address.as_str(), key.as_str()) {
        Ok(data) => {
            let value_mult = env.costs.get_data_value_mult;
            let r = alloc_returned_value(env, &data, value_mult);
            proof {
                assert(env.gas == after_one(g0, c0.get_data_const, key@, c0.get_data_key_mult).sub_mult_state(data@.len() as usize, c0.get_data_value_mult));
            }
            r
        },
        Err(e) => Err(AbiError::Interface(e)),
    }
}

/// Deletes an entry of an arbitrary address's datastore.
pub fn assembly_script_delete_data_for<G: Guest, I: Interface>(env: &mut AbiEnv<G, I>, address: i32, key: i32) -> (r: Result<(), AbiError>)
    ensures
        frame(*old(env), *final(env)),
        charge_fails(old(env).gas, old(env).costs.delete_data_const, final(env).gas, r),
        reached_ledger(r) ==> exists|k: Seq<char>| final(env).gas == #[trigger] after_one(old(env).gas, old(env).costs.delete_data_const, k, old(env).costs.delete_data_key_mult),
{
    let ghost g0 = env.gas;
    let ghost c0 = env.costs;
    let cost = env.costs.delete_data_const;
    charge(env, cost)?;
    let address = get_string(&env.guest, address)?;
    let key_mult = env.costs.delete_data_key_mult;
    let key = read_string_and_sub_gas(env, key, key_mult)?;
    proof {
        assert(env.gas == after_one(g0, c0.delete_data_const, key@, c0.delete_data_key_mult));
    }
    match env.interface.raw_delete_data_for(address.as_str(), key.as_str()) {
        Ok(()) => Ok(()),
        Err(e) => Err(AbiError::Interface(e)),
    }
}

/// Whether an arbitrary address's datastore holds the entry: 1 or 0.
pub fn assembly_script_has_data_for<G: Guest, I: Interface>(env: &mut AbiEnv<G, I>, address: i32, key: i32) -> (r: Result<i32, AbiError>)
    ensures
        frame(*old(env), *final(env)),
        charge_fails(old(env).gas, old(env).costs.has_data_const, final(env).gas, r),
        r matches Ok(v) ==> v == 0 || v == 1,
        reached_ledger(r) ==> exists|k: Seq<char>| final(env).gas == #[trigger] after_one(old(env).gas, old(env).costs.has_data_const, k, old(env).costs.has_data_key_mult),
{
    let ghost g0 = env.gas;
    let ghost c0 = env.costs;
    let cost = env.costs.has_data_const;
    charge(env, cost)?;
    let address = get_string(&env.guest, address)?;
    let key_mult = env.costs.has_data_key_mult;
    let key = read_string_and_sub_gas(env, key, key_mult)?;
    proof {
        assert(env.gas == after_one(g0, c0.has_data_const, key@, c0.has_data_key_mult));
    }
    bool_to_guest(env.interface.has_data_for(address.as_str(), key.as_str()))
}

/// The addresses owned by the current call, joined with `;`.
pub fn assembly_script_get_owned_addresses_raw<G: Guest, I: Interface>(env: &mut AbiEnv<G, I>) -> (r: Result<i32, AbiError>)
    ensures
        frame(*old(env), *final(env)),
        charge_fails(old(env).gas, old(env).costs.get_owned_addrs, final(env).gas, r),
        charges_only(old(env).gas, old(env).costs.get_owned_addrs, final(env).gas),
{
    let cost = env.costs.get_owned_addrs;
    charge(env, cost)?;
    let data = match env.interface.get_owned_addresses() {
        Ok(data) => data,
        Err(e) => {
            return Err(AbiError::Interface(e));
        },
    };
    let text = join_strings(&data, ";");
    pointer_from_string(&env.guest, text.as_str())
}

/// The call stack, joined with `;`.
pub fn assembly_script_get_call_stack_raw<G: Guest, I: Interface>(env: &mut AbiEnv<G, I>) -> (r: Result<i32, AbiError>)
    ensures
        frame(*old(env), *final(env)),
        charge_fails(old(env).gas, old(env).costs.get_call_stack, final(env).gas, r),
        charges_only(old(env).gas, old(env).costs.get_call_stack, final(env).gas),
{
    let cost = env.costs.get_call_stack;
    charge(env, cost)?;
    let data = match env.interface.get_call_stack() {
        Ok(data) => data,
        Err(e) => {
            return Err(AbiError::Interface(e));
        },
    };
    let text = join_strings(&data, ";");
    pointer_from_string(&env.guest, text.as_str())
}

/// The addresses owned by the current call, as a JSON array.
pub fn assembly_script_get_owned_addresses<G: Guest, I: Interface>(env: &mut AbiEnv<G, I>) -> (r: Result<i32, AbiError>)
    ensures
        frame(*old(env), *final(env)),
        charge_fails(old(env).gas, old(env).costs.get_owned_addrs, final(env).gas, r),
        charges_only(old(env).gas, old(env).costs.get_owned_addrs, final(env).gas),
{
    let cost = env.costs.get_owned_addrs;
    charge(env, cost)?;
    match env.interface.get_owned_addresses() {
        Ok(data) => alloc_string_array(&env.guest, &data),
        Err(e) => Err(AbiError::Interface(e)),
    }
}

/// The call stack, as a JSON array.
pub fn assembly_script_get_call_stack<G: Guest, I: Interface>(env: &mut AbiEnv<G, I>) -> (r: Result<i32, AbiError>)
    ensures
        frame(*old(env), *final(env)),
        charge_fails(old(env).gas, old(env).costs.get_call_stack, final(env).gas, r),
        charges_only(old(env).gas, old(env).costs.get_call_stack, final(env).gas),
{
    let cost = env.costs.get_call_stack;
    charge(env, cost)?;
    match env.interface.get_call_stack() {
        Ok(data) => alloc_string_array(&env.guest, &data),
        Err(e) => Err(AbiError::Interface(e)),
    }
}

/// Emits the string stored at `event` as an event, verbatim.
pub fn assembly_script_generate_event<G: Guest, I: Interface>(env: &mut AbiEnv<G, I>, event: i32) -> (r: Result<(), AbiError>)
    ensures
        frame(*old(env), *final(env)),
        charge_fails(old(env).gas, old(env).costs.generate_event, final(env).gas, r),
        charges_only(old(env).gas, old(env).costs.generate_event, final(env).gas),
{
    let cost = env.costs.generate_event;
    charge(env, cost)?;
    let event = get_string(&env.guest, event)?;
    match env.interface.generate_event(event) {
        Ok(()) => Ok(()),
        Err(e) => Err(AbiError::Interface(e)),
    }
}

/// Verifies a signature of the data stored at `data`: 1 when it holds, 0
/// when it does not; only a failure of the ledger (a malformed signature or
/// key) is an error.
pub fn assembly_script_signature_verify<G: Guest, I: Interface>(env: &mut AbiEnv<G, I>, data: i32, signature: i32, public_key: i32) -> (r: Result<i32, AbiError>)
    ensures
        frame(*old(env), *final(env)),
        charge_fails(old(env).gas, old(env).costs.signature_verify_const, final(env).gas, r),
        r matches Ok(v) ==> v == 0 || v == 1,
        reached_ledger(r) ==> exists|k: Seq<char>| final(env).gas == #[trigger] after_one(old(env).gas, old(env).costs.signature_verify_const, k, old(env).costs.signature_verify_data_mult),
{
    let ghost g0 = env.gas;
    let ghost c0 = env.costs;
    let cost = env.costs.signature_verify_const;
    charge(env, cost)?;
    let mult = env.costs.signature_verify_data_mult;
    let data = read_string_and_sub_gas(env, data, mult)?;
    proof {
        assert(env.gas == after_one(g0, c0.signature_verify_const, data@, c0.signature_verify_data_mult));
    }
    let signature = get_string(&env.guest, signature)?;
    let public_key = get_string(&env.guest, public_key)?;
    bool_to_guest(env.interface.signature_verify(data.as_str().as_bytes(), signature.as_str(), public_key.as_str()))
}

/// The address of a public key, given by offset.
pub fn assembly_script_address_from_public_key<G: Guest, I: Interface>(env: &mut AbiEnv<G, I>, public_key: i32) -> (r: Result<i32, AbiError>)
    ensures
        frame(*old(env), *final(env)),
        charge_fails(old(env).gas, old(env).costs.address_from_public_key, final(env).gas, r),
        charges_only(old(env).gas, old(env).costs.address_from_public_key, final(env).gas),
{
    let cost = env.costs.address_from_public_key;
    charge(env, cost)?;
    let public_key = get_string(&env.guest, public_key)?;
    match env.interface.address_from_public_key(public_key.as_str()) {
        Ok(address) => pointer_from_string(&env.guest, address.as_str()),
        Err(e) => Err(AbiError::Interface(e)),
    }
}

/// A random number that is not fit for cryptography.
pub fn assembly_script_unsafe_random<G: Guest, I: Interface>(env: &mut AbiEnv<G, I>) -> (r: Result<i64, AbiError>)
    ensures
        frame(*old(env), *final(env)),
        charge_fails(old(env).gas, old(env).costs.unsafe_random, final(env).gas, r),
        charges_only(old(env).gas, old(env).costs.unsafe_random, final(env).gas),
        later_failures_from_ledger(old(env).gas, old(env).costs.unsafe_random, r),
{
    let cost = env.costs.unsafe_random;
    charge(env, cost)?;
    match env.interface.unsafe_random() {
        Ok(n) => Ok(n),
        Err(e) => Err(AbiError::Interface(e)),
    }
}

/// The current time, in milliseconds since the Unix epoch.
pub fn assembly_script_get_time<G: Guest, I: Interface>(env: &mut AbiEnv<G, I>) -> (r: Result<i64, AbiError>)
    ensures
        frame(*old(env), *final(env)),
        charge_fails(old(env).gas, old(env).costs.get_time, final(env).gas, r),
        charges_only(old(env).gas, old(env).costs.get_time, final(env).gas),
        later_failures_from_ledger(old(env).gas, old(env).costs.get_time, r),
{
    let cost = env.costs.get_time;
    charge(env, cost)?;
    match env.interface.get_time() {
        Ok(t) => Ok(t as i64),
        Err(e) => Err(AbiError::Interface(e)),
    }
}

/// Sends an asynchronous message. Its numbers are checked before any string
/// is read and before the ledger is reached.
pub fn assembly_script_send_message<G: Guest, I: Interface>(
    env: &mut AbiEnv<G, I>,
    target_address: i32,
    target_handler: i32,
    validity_start_period: i64,
    validity_start_thread: i32,
    validity_end_period: i64,
    validity_end_thread: i32,
    max_gas: i64,
    gas_price: i64,
    raw_coins: i64,
    data: i32,
) -> (r: Result<(), AbiError>)
    ensures
        frame(*old(env), *final(env)),
        charge_fails(old(env).gas, old(env).costs.send_message, final(env).gas, r),
        charges_only(old(env).gas, old(env).costs.send_message, final(env).gas),
        old(env).gas.sub_result(old(env).costs.send_message) is Ok ==> (message_check(
            validity_start_period, validity_start_thread, validity_end_period,
            validity_end_thread, max_gas, gas_price, raw_coins,
        ) matches Err(e) ==> r == Err::<(), AbiError>(e)),
        r matches Err(AbiError::InvalidMessageField(_)) ==> message_check(
            validity_start_period, validity_start_thread, validity_end_period,
            validity_end_thread, max_gas, gas_price, raw_coins,
        ) is Err,
        r is Ok ==> message_check(
            validity_start_period, validity_start_thread, validity_end_period,
            validity_end_thread, max_gas, gas_price, raw_coins,
        ) is Ok,
{
    let cost = env.costs.send_message;
    charge(env, cost)?;
    let (validity_start, validity_end, max_gas, gas_price, raw_coins) = check_message(
        validity_start_period, validity_start_thread, validity_end_period,
        validity_end_thread, max_gas, gas_price, raw_coins,
    )?;
    let target_address = get_string(&env.guest, target_address)?;
    let target_handler = get_string(&env.guest, target_handler)?;
    let data = get_string(&env.guest, data)?;
    match env.interface.send_message(
        target_address.as_str(),
        target_handler.as_str(),
        validity_start,
        validity_end,
        max_gas,
        gas_price,
        raw_coins,
        data.as_str().as_bytes(),
    ) {
        Ok(()) => Ok(()),
        Err(e) => Err(AbiError::Interface(e)),
    }
}

/// The period of the current execution slot.
pub fn assembly_script_get_current_period<G: Guest, I: Interface>(env: &mut AbiEnv<G, I>) -> (r: Result<i64, AbiError>)
    ensures
        frame(*old(env), *final(env)),
        charge_fails(old(env).gas, old(env).costs.get_current_period, final(env).gas, r),
        charges_only(old(env).gas, old(env).costs.get_current_period, final(env).gas),
        later_failures_from_ledger(old(env).gas, old(env).costs.get_current_period, r),
{
    let cost = env.costs.get_current_period;
    charge(env, cost)?;
    match env.interface.get_current_period() {
        Ok(v) => Ok(v as i64),
        Err(e) => Err(AbiError::Interface(e)),
    }
}

/// The thread of the current execution slot.
pub fn assembly_script_get_current_thread<G: Guest, I: Interface>(env: &mut AbiEnv<G, I>) -> (r: Result<i32, AbiError>)
    ensures
        frame(*old(env), *final(env)),
        charge_fails(old(env).gas, old(env).costs.get_current_thread, final(env).gas, r),
        charges_only(old(env).gas, old(env).costs.get_current_thread, final(env).gas),
        later_failures_from_ledger(old(env).gas, old(env).costs.get_current_thread, r),
        r matches Ok(v) ==> 0 <= v <= 255,
{
    let cost = env.costs.get_current_thread;
    charge(env, cost)?;
    match env.interface.get_current_thread() {
        Ok(v) => Ok(v as i32),
        Err(e) => Err(AbiError::Interface(e)),
    }
}

/// Replaces the bytecode of an arbitrary address with the base64 bytecode
/// stored at `bytecode_base64`, charged per byte of the text.
pub fn assembly_script_set_bytecode_for<G: Guest, I: Interface>(env: &mut AbiEnv<G, I>, address: i32, bytecode_base64: i32) -> (r: Result<(), AbiError>)
    ensures
        frame(*old(env), *final(env)),
        charge_fails(old(env).gas, old(env).costs.set_bytecode_const, final(env).gas, r),
        past_decoding(r) ==> exists|k: Seq<char>| final(env).gas == #[trigger] after_one(old(env).gas, old(env).costs.set_bytecode_const, k, old(env).costs.set_bytecode_mult),
{
    let ghost g0 = env.gas;
    let ghost c0 = env.costs;
    let cost = env.costs.set_bytecode_const;
    charge(env, cost)?;
    let address = get_string(&env.guest, address)?;
    let mult = env.costs.set_bytecode_mult;
    let text = read_string_and_sub_gas(env, bytecode_base64, mult)?;
    proof {
        assert(env.gas == after_one(g0, c0.set_bytecode_const, text@, c0.set_bytecode_mult));
    }
    let raw = decode_bytecode(text.as_str())?;
    match env.interface.raw_set_bytecode_for(address.as_str(), raw.as_slice()) {
        Ok(()) => Ok(()),
        Err(e) => Err(AbiError::Interface(e)),
    }
}

/// Replaces the bytecode of the current address with the base64 bytecode
/// stored at `bytecode_base64`, charged per byte of the text.
pub fn assembly_script_set_bytecode<G: Guest, I: Interface>(env: &mut AbiEnv<G, I>, bytecode_base64: i32) -> (r: Result<(), AbiError>)
    ensures
        frame(*old(env), *final(env)),
        charge_fails(old(env).gas, old(env).costs.set_bytecode_const, final(env).gas, r),
        past_decoding(r) ==> exists|k: Seq<char>| final(env).gas == #[trigger] after_one(old(env).gas, old(env).costs.set_bytecode_const, k, old(env).costs.set_bytecode_mult),
{
    let ghost g0 = env.gas;
    let ghost c0 = env.costs;
    let cost = env.costs.set_bytecode_const;
    charge(env, cost)?;
    let mult = env.costs.set_bytecode_mult;
    let text = read_string_and_sub_gas(env, bytecode_base64, mult)?;
    proof {
        assert(env.gas == after_one(g0, c0.set_bytecode_const, text@, c0.set_bytecode_mult));
    }
    let raw = decode_bytecode(text.as_str())?;
    match env.interface.raw_set_bytecode(raw.as_slice()) {
        Ok(()) => Ok(()),
        Err(e) => Err(AbiError::Interface(e)),
    }
}

} // verus!
