//! The environment a host function runs in: the instance's metering
//! globals, the guest toolchain's hooks (memory and nested execution), the
//! ledger capability, and the gas price list.
use vstd::prelude::*;
use crate::gas::GasLedger;

verus! {

/// What a nested execution hands back: the value the callee returned and the
/// gas it left unspent.
#[derive(Clone, Debug, PartialEq, Eq)]
pub struct Response {
    pub ret: String,
    pub remaining_gas: u64,
}

/// The ledger and runtime context behind the host functions. Implemented by
/// the node that embeds this library; every method may fail with a message.
pub trait Interface {
    fn init_call(&self, address: &str, raw_coins: u64) -> Result<Vec<u8>, String>;
    fn finish_call(&self) -> Result<(), String>;
    fn get_call_coins(&self) -> Result<u64, String>;
    fn transfer_coins(&self, to_address: &str, raw_amount: u64) -> Result<(), String>;
    fn transfer_coins_for(&self, from_address: &str, to_address: &str, raw_amount: u64) -> Result<(), String>;
    fn get_balance(&self) -> Result<u64, String>;
    fn get_balance_for(&self, address: &str) -> Result<u64, String>;
    fn create_module(&self, bytecode: &[u8]) -> Result<String, String>;
    fn print(&self, message: &str) -> Result<(), String>;
    fn hash(&self, data: &[u8]) -> Result<String, String>;
    fn raw_set_data(&self, key: &str, value: &[u8]) -> Result<(), String>;
    fn raw_append_data(&self, key: &str, value: &[u8]) -> Result<(), String>;
    fn raw_get_data(&self, key: &str) -> Result<Vec<u8>, String>;
    fn has_data(&self, key: &str) -> Result<bool, String>;
    fn raw_delete_data(&self, key: &str) -> Result<(), String>;
    fn raw_set_data_for(&self, address: &str, key: &str, value: &[u8]) -> Result<(), String>;
    fn raw_append_data_for(&self, address: &str, key: &str, value: &[u8]) -> Result<(), String>;
    fn raw_get_data_for(&self, address: &str, key: &str) -> Result<Vec<u8>, String>;
    fn has_data_for(&self, address: &str, key: &str) -> Result<bool, String>;
    fn raw_delete_data_for(&self, address: &str, key: &str) -> Result<(), String>;
    fn get_owned_addresses(&self) -> Result<Vec<String>, String>;
    fn get_call_stack(&self) -> Result<Vec<String>, String>;
    fn generate_event(&self, event: String) -> Result<(), String>;
    fn signature_verify(&self, data: &[u8], signature: &str, public_key: &str) -> Result<bool, String>;
    fn address_from_public_key(&self, public_key: &str) -> Result<String, String>;
    fn unsafe_random(&self) -> Result<i64, String>;
    fn get_time(&self) -> Result<u64, String>;
    fn send_message(
        &self,
        target_address: &str,
        target_handler: &str,
        validity_start: (u64, u8),
        validity_end: (u64, u8),
        max_gas: u64,
        gas_price: u64,
        raw_coins: u64,
        data: &[u8],
    ) -> Result<(), String>;
    fn get_current_period(&self) -> Result<u64, String>;
    fn get_current_thread(&self) -> Result<u8, String>;
    fn raw_set_bytecode_for(&self, address: &str, bytecode: &[u8]) -> Result<(), String>;
    fn raw_set_bytecode(&self, bytecode: &[u8]) -> Result<(), String>;
}

/// The part of the environment that depends on the guest's compiler: how
/// strings sit in its linear memory, how it allocates, and how a module is
/// run. One implementation per toolchain.
pub trait Guest {
    /// Reads the length-prefixed string at `offset` of guest memory.
    fn read_string(&self, offset: i32) -> Result<String, String>;
    /// Allocates a fresh length-prefixed string in guest memory and gives
    /// its offset.
    fn alloc_string(&self, value: &str) -> Result<i32, String>;
    /// Runs `function` of `module` with `param` and a budget of `gas`.
    fn exec(&self, gas: u64, module: &[u8], function: &str, param: &str) -> Result<Response, String>;
}

/// Gas prices of the host functions: a constant per call, and rates per byte
/// of the variable-length arguments.
#[derive(Clone, Copy, Debug, PartialEq, Eq, Structural)]
pub struct GasCosts {
    pub get_call_coins: u64,
    pub transfer: u64,
    pub get_balance: u64,
    pub call: u64,
    pub remaining_gas: u64,
    pub print: u64,
    pub create_sc_const: u64,
    pub create_sc_mult: usize,
    pub hash_const: u64,
    pub hash_per_byte: usize,
    pub set_data_const: u64,
    pub set_data_key_mult: usize,
    pub set_data_value_mult: usize,
    pub append_data_const: u64,
    pub append_data_key_mult: usize,
    pub append_data_value_mult: usize,
    pub get_data_const: u64,
    pub get_data_key_mult: usize,
    pub get_data_value_mult: usize,
    pub has_data_const: u64,
    pub has_data_key_mult: usize,
    pub delete_data_const: u64,
    pub delete_data_key_mult: usize,
    pub get_owned_addrs: u64,
    pub get_call_stack: u64,
    pub generate_event: u64,
    pub signature_verify_const: u64,
    pub signature_verify_data_mult: usize,
    pub address_from_public_key: u64,
    pub unsafe_random: u64,
    pub get_time: u64,
    pub send_message: u64,
    pub get_current_period: u64,
    pub get_current_thread: u64,
    pub set_bytecode_const: u64,
    pub set_bytecode_mult: usize,
}

/// Everything a host function works on.
pub struct AbiEnv<G, I> {
    pub gas: GasLedger,
    pub guest: G,
    pub interface: I,
    pub costs: GasCosts,
}

impl<G: Guest, I: Interface> AbiEnv<G, I> {
    /// A fresh environment: the metering globals stay unbound until the
    /// instance is linked.
    pub fn new(guest: G, interface: I, costs: GasCosts) -> (r: Self)
        ensures
            r.gas.remaining_points is None,
            r.gas.exhausted_points is None,
            r.guest == guest,
            r.interface == interface,
            r.costs == costs,
    {
        AbiEnv { gas: GasLedger { remaining_points: None, exhausted_points: None }, guest, interface, costs }
    }
}

/// Charging went from `a` to `b` without adding gas: a well-formed ledger
/// stays well formed and its remaining gas does not grow.
pub open spec fn spent(a: GasLedger, b: GasLedger) -> bool {
    a.wf() ==> b.wf() && b.remaining() <= a.remaining()
}

} // verus!
