use std::cell::RefCell;
use std::collections::HashMap;
use std::rc::Rc;

use sc_host_abi::abi::{
    assembly_script_append_data, assembly_script_create_sc,
    assembly_script_delete_data, assembly_script_get_call_coins, assembly_script_get_data,
    assembly_script_get_owned_addresses, assembly_script_get_owned_addresses_raw,
    assembly_script_get_remaining_gas, assembly_script_has_data, assembly_script_send_message,
    assembly_script_set_bytecode, assembly_script_set_data, assembly_script_signature_verify,
    assembly_script_transfer_coins, bool_to_guest, check_message, decode_bytecode,
};
use sc_host_abi::call::{assembly_script_call_module, call_module};
use sc_host_abi::env::{AbiEnv, GasCosts, Guest, Interface, Response};
use sc_host_abi::error::{AbiError, MessageField};
use sc_host_abi::gas::{get_remaining_points, GasLedger, GlobalValue, MeteringGlobal};
use sc_host_abi::hooks::{abort_message, assembly_script_abort};
use sc_host_abi::marshal::{alloc_string_array, join_strings, pointer_from_utf8};

#[derive(Default)]
struct Memory {
    strings: RefCell<HashMap<i32, String>>,
    next: RefCell<i32>,
    budgets: RefCell<Vec<u64>>,
    leftover: u64,
    trap_in_callee: bool,
    inflate: u64,
}

struct TestGuest(Rc<Memory>);

impl TestGuest {
    fn put(&self, s: &str) -> i32 {
        self.alloc_string(s).unwrap()
    }
    fn get(&self, offset: i32) -> String {
        self.read_string(offset).unwrap()
    }
}

impl Guest for TestGuest {
    fn read_string(&self, offset: i32) -> Result<String, String> {
        self.0.strings.borrow().get(&offset).cloned().ok_or_else(|| "out of bounds".to_string())
    }
    fn alloc_string(&self, value: &str) -> Result<i32, String> {
        let mut next = self.0.next.borrow_mut();
        *next += 16;
        self.0.strings.borrow_mut().insert(*next, value.to_string());
        Ok(*next)
    }
    fn exec(&self, gas: u64, _module: &[u8], function: &str, param: &str) -> Result<Response, String> {
        self.0.budgets.borrow_mut().push(gas);
        if self.0.trap_in_callee {
            return Err("callee trapped".to_string());
        }
        Ok(Response { ret: format!("{function}({param})"), remaining_gas: self.0.leftover.min(gas) + self.0.inflate })
    }
}

#[derive(Default)]
struct Ledger {
    data: RefCell<HashMap<String, Vec<u8>>>,
    calls: RefCell<Vec<String>>,
    bytecode: RefCell<Vec<u8>>,
}

struct TestInterface(Rc<Ledger>);

impl TestInterface {
    fn log(&self, name: &str) {
        self.0.calls.borrow_mut().push(name.to_string());
    }
}

impl Interface for TestInterface {
    fn init_call(&self, address: &str, _raw_coins: u64) -> Result<Vec<u8>, String> {
        self.log("init_call");
        if address == "unknown" { Err("no module".to_string()) } else { Ok(vec![0, 97, 115, 109]) }
    }
    fn finish_call(&self) -> Result<(), String> { self.log("finish_call"); Ok(()) }
    fn get_call_coins(&self) -> Result<u64, String> { self.log("get_call_coins"); Ok(77) }
    fn transfer_coins(&self, _to: &str, _amount: u64) -> Result<(), String> { self.log("transfer_coins"); Ok(()) }
    fn transfer_coins_for(&self, _f: &str, _t: &str, _a: u64) -> Result<(), String> { self.log("transfer_coins_for"); Ok(()) }
    fn get_balance(&self) -> Result<u64, String> { self.log("get_balance"); Ok(10) }
    fn get_balance_for(&self, _a: &str) -> Result<u64, String> { self.log("get_balance_for"); Ok(11) }
    fn create_module(&self, _b: &[u8]) -> Result<String, String> { self.log("create_module"); Ok("A1new".to_string()) }
    fn print(&self, _m: &str) -> Result<(), String> { self.log("print"); Ok(()) }
    fn hash(&self, _d: &[u8]) -> Result<String, String> { self.log("hash"); Ok("h".to_string()) }
    fn raw_set_data(&self, key: &str, value: &[u8]) -> Result<(), String> {
        self.log("raw_set_data");
        self.0.data.borrow_mut().insert(key.to_string(), value.to_vec());
        Ok(())
    }
    fn raw_append_data(&self, key: &str, value: &[u8]) -> Result<(), String> {
        self.log("raw_append_data");
        match self.0.data.borrow_mut().get_mut(key) {
            Some(v) => { v.extend_from_slice(value); Ok(()) }
            None => Err("missing entry".to_string()),
        }
    }
    fn raw_get_data(&self, key: &str) -> Result<Vec<u8>, String> {
        self.log("raw_get_data");
        self.0.data.borrow().get(key).cloned().ok_or_else(|| "missing entry".to_string())
    }
    fn has_data(&self, key: &str) -> Result<bool, String> {
        self.log("has_data");
        Ok(self.0.data.borrow().contains_key(key))
    }
    fn raw_delete_data(&self, key: &str) -> Result<(), String> {
        self.log("raw_delete_data");
        self.0.data.borrow_mut().remove(key).map(|_| ()).ok_or_else(|| "missing entry".to_string())
    }
    fn raw_set_data_for(&self, _a: &str, _k: &str, _v: &[u8]) -> Result<(), String> { Ok(()) }
    fn raw_append_data_for(&self, _a: &str, _k: &str, _v: &[u8]) -> Result<(), String> { Ok(()) }
    fn raw_get_data_for(&self, _a: &str, _k: &str) -> Result<Vec<u8>, String> { Ok(vec![]) }
    fn has_data_for(&self, _a: &str, _k: &str) -> Result<bool, String> { Ok(false) }
    fn raw_delete_data_for(&self, _a: &str, _k: &str) -> Result<(), String> { Ok(()) }
    fn get_owned_addresses(&self) -> Result<Vec<String>, String> {
        Ok(vec!["A1".to_string(), "A2".to_string(), "A3".to_string()])
    }
    fn get_call_stack(&self) -> Result<Vec<String>, String> { Ok(vec!["A1".to_string()]) }
    fn generate_event(&self, _e: String) -> Result<(), String> { Ok(()) }
    fn signature_verify(&self, data: &[u8], signature: &str, _pk: &str) -> Result<bool, String> {
        self.log("signature_verify");
        if !signature.starts_with("sig") {
            return Err("malformed signature".to_string());
        }
        Ok(signature.as_bytes()[3..] == *data)
    }
    fn address_from_public_key(&self, _pk: &str) -> Result<String, String> { Ok("A9".to_string()) }
    fn unsafe_random(&self) -> Result<i64, String> { Ok(4) }
    fn get_time(&self) -> Result<u64, String> { Ok(1_600_000_000_000) }
    fn send_message(
        &self, _ta: &str, _th: &str, _vs: (u64, u8), _ve: (u64, u8), _mg: u64, _gp: u64, _c: u64, _d: &[u8],
    ) -> Result<(), String> {
        self.log("send_message");
        Ok(())
    }
    fn get_current_period(&self) -> Result<u64, String> { Ok(12) }
    fn get_current_thread(&self) -> Result<u8, String> { Ok(3) }
    fn raw_set_bytecode_for(&self, _a: &str, _b: &[u8]) -> Result<(), String> { Ok(()) }
    fn raw_set_bytecode(&self, b: &[u8]) -> Result<(), String> {
        self.log("raw_set_bytecode");
        *self.0.bytecode.borrow_mut() = b.to_vec();
        Ok(())
    }
}

fn costs() -> GasCosts {
    GasCosts {
        get_call_coins: 1, transfer: 2, get_balance: 3, call: 4, remaining_gas: 5, print: 6,
        create_sc_const: 12, create_sc_mult: 1, hash_const: 7, hash_per_byte: 1, set_data_const: 10,
        set_data_key_mult: 2, set_data_value_mult: 3, append_data_const: 10,
        append_data_key_mult: 2, append_data_value_mult: 3, get_data_const: 10,
        get_data_key_mult: 2, get_data_value_mult: 5, has_data_const: 10, has_data_key_mult: 2,
        delete_data_const: 10, delete_data_key_mult: 2, get_owned_addrs: 8, get_call_stack: 8,
        generate_event: 9, signature_verify_const: 20, signature_verify_data_mult: 1,
        address_from_public_key: 9, unsafe_random: 9, get_time: 9, send_message: 30,
        get_current_period: 9, get_current_thread: 9, set_bytecode_const: 10, set_bytecode_mult: 1,
    }
}

fn setup(gas: i64, leftover: u64) -> (AbiEnv<TestGuest, TestInterface>, Rc<Memory>, Rc<Ledger>) {
    let mem = Rc::new(Memory { leftover, ..Default::default() });
    let ledger = Rc::new(Ledger::default());
    let mut env = AbiEnv::new(TestGuest(mem.clone()), TestInterface(ledger.clone()), costs());
    env.gas = GasLedger {
        remaining_points: Some(MeteringGlobal { value: GlobalValue::I64(gas), mutable: true }),
        exhausted_points: Some(MeteringGlobal { value: GlobalValue::I32(0), mutable: true }),
    };
    (env, mem, ledger)
}

fn remaining(env: &AbiEnv<TestGuest, TestInterface>) -> u64 {
    get_remaining_points(&env.gas).unwrap()
}

#[test]
fn negative_transfer_is_refused_before_the_ledger() {
    let (mut env, _mem, ledger) = setup(100, 0);
    let to = env.guest.put("A2");
    assert_eq!(assembly_script_transfer_coins(&mut env, to, -1), Err(AbiError::NegativeAmount));
    assert!(ledger.calls.borrow().is_empty());
    assert_eq!(remaining(&env), 98);
    assert_eq!(assembly_script_transfer_coins(&mut env, to, 5), Ok(()));
    assert_eq!(ledger.calls.borrow().as_slice(), ["transfer_coins".to_string()]);
}

#[test]
fn datastore_set_get_has_delete() {
    let (mut env, _mem, _ledger) = setup(10_000, 0);
    let k = env.guest.put("key");
    let v = env.guest.put("value");
    assert_eq!(assembly_script_has_data(&mut env, k), Ok(0));
    assert_eq!(assembly_script_set_data(&mut env, k, v), Ok(()));
    assert_eq!(assembly_script_has_data(&mut env, k), Ok(1));
    let got = assembly_script_get_data(&mut env, k).unwrap();
    assert_eq!(env.guest.get(got), "value");
    assert_eq!(assembly_script_delete_data(&mut env, k), Ok(()));
    assert_eq!(assembly_script_has_data(&mut env, k), Ok(0));
    assert_eq!(
        assembly_script_get_data(&mut env, k),
        Err(AbiError::Interface("missing entry".to_string()))
    );
}

#[test]
fn datastore_charges_follow_the_price_list() {
    let (mut env, _mem, _ledger) = setup(1000, 0);
    let k = env.guest.put("key");
    let v = env.guest.put("value");
    // 10 + 3 * 2 + 5 * 3
    assert_eq!(assembly_script_set_data(&mut env, k, v), Ok(()));
    assert_eq!(remaining(&env), 1000 - 31);
    // 10 + 3 * 2 + 5 * 5 for the value returned
    assembly_script_get_data(&mut env, k).unwrap();
    assert_eq!(remaining(&env), 1000 - 31 - 41);
}

#[test]
fn signature_verify_answers_zero_for_a_wrong_signature() {
    let (mut env, _mem, _ledger) = setup(1000, 0);
    let data = env.guest.put("hello");
    let good = env.guest.put("sighello");
    let bad = env.guest.put("sigother");
    let malformed = env.guest.put("xx");
    let pk = env.guest.put("P1");
    assert_eq!(assembly_script_signature_verify(&mut env, data, good, pk), Ok(1));
    assert_eq!(assembly_script_signature_verify(&mut env, data, bad, pk), Ok(0));
    assert!(matches!(
        assembly_script_signature_verify(&mut env, data, malformed, pk),
        Err(AbiError::Interface(_))
    ));
}

#[test]
fn bool_answers_become_one_and_zero() {
    assert_eq!(bool_to_guest(Ok(true)), Ok(1));
    assert_eq!(bool_to_guest(Ok(false)), Ok(0));
    assert_eq!(bool_to_guest(Err("e".to_string())), Err(AbiError::Interface("e".to_string())));
}

#[test]
fn call_hands_the_live_budget_and_takes_back_the_leftover() {
    let (mut env, mem, ledger) = setup(1000, 250);
    let addr = env.guest.put("A2");
    let f = env.guest.put("main");
    let p = env.guest.put("x");
    let ret = assembly_script_call_module(&mut env, addr, f, p, 0).unwrap();
    assert_eq!(mem.budgets.borrow().as_slice(), [996]);
    assert_eq!(remaining(&env), 250);
    assert_eq!(env.guest.get(ret), "main(x)");
    assert_eq!(
        ledger.calls.borrow().as_slice(),
        ["init_call".to_string(), "finish_call".to_string()]
    );
}

#[test]
fn call_with_negative_coins_or_unknown_module_fails() {
    let (mut env, mem, _ledger) = setup(1000, 10);
    assert_eq!(call_module(&mut env, "A2", "main", "", -1).unwrap_err(), AbiError::NegativeAmount);
    assert_eq!(call_module(&mut env, "unknown", "main", "", 1), Err(AbiError::CallRefused("no module".to_string())));
    assert!(mem.budgets.borrow().is_empty());
    assert_eq!(remaining(&env), 1000);
}

#[test]
fn send_message_with_thread_minus_one_fails_before_the_ledger() {
    let (mut env, _mem, ledger) = setup(1000, 0);
    let a = env.guest.put("A2");
    let h = env.guest.put("handler");
    let d = env.guest.put("data");
    assert_eq!(
        assembly_script_send_message(&mut env, a, h, 1, -1, 2, 0, 10, 1, 0, d),
        Err(AbiError::InvalidMessageField(MessageField::ValidityStartThread))
    );
    assert!(ledger.calls.borrow().is_empty());
    assert_eq!(assembly_script_send_message(&mut env, a, h, 1, 0, 2, 31, 10, 1, 0, d), Ok(()));
    assert_eq!(ledger.calls.borrow().as_slice(), ["send_message".to_string()]);
}

#[test]
fn message_checks_name_the_first_bad_field() {
    let e = |f| Err(AbiError::InvalidMessageField(f));
    assert_eq!(check_message(-1, -1, 0, 0, 0, 0, 0), e(MessageField::ValidityStartPeriod));
    assert_eq!(check_message(0, 256, 0, 0, 0, 0, 0), e(MessageField::ValidityStartThread));
    assert_eq!(check_message(0, 0, -5, 0, 0, 0, 0), e(MessageField::ValidityEndPeriod));
    assert_eq!(check_message(0, 0, 0, -2, 0, 0, 0), e(MessageField::ValidityEndThread));
    assert_eq!(check_message(0, 0, 0, 0, -1, 0, 0), e(MessageField::MaxGas));
    assert_eq!(check_message(0, 0, 0, 0, 0, -1, 0), e(MessageField::GasPrice));
    assert_eq!(check_message(0, 0, 0, 0, 0, 0, -1), e(MessageField::Coins));
    assert_eq!(check_message(3, 255, 4, 0, 5, 6, 7), Ok(((3, 255), (4, 0), 5, 6, 7)));
}

#[test]
fn exhausted_constant_charge_stops_the_call() {
    let (mut env, _mem, ledger) = setup(0, 0);
    assert_eq!(assembly_script_get_call_coins(&mut env), Err(AbiError::GasExhausted));
    assert!(ledger.calls.borrow().is_empty());
    let (mut env2, _m, _l) = setup(100, 0);
    assert_eq!(assembly_script_get_call_coins(&mut env2), Ok(77));
    assert_eq!(assembly_script_get_remaining_gas(&mut env2), Ok(94));
}

#[test]
fn bytecode_is_decoded_from_base64() {
    assert_eq!(decode_bytecode("AGFzbQ==").unwrap(), vec![0, 97, 115, 109]);
    assert!(matches!(decode_bytecode("not base64!"), Err(AbiError::InvalidBase64(_))));
    let (mut env, _mem, ledger) = setup(1000, 0);
    let text = env.guest.put("AGFzbQ==");
    assert_eq!(assembly_script_set_bytecode(&mut env, text), Ok(()));
    assert_eq!(ledger.bytecode.borrow().as_slice(), [0, 97, 115, 109]);
    assert_eq!(remaining(&env), 1000 - 10 - 8);
}

#[test]
fn owned_addresses_are_joined_or_serialized() {
    let (mut env, _mem, _ledger) = setup(1000, 0);
    let raw = assembly_script_get_owned_addresses_raw(&mut env).unwrap();
    assert_eq!(env.guest.get(raw), "A1;A2;A3");
    let json = assembly_script_get_owned_addresses(&mut env).unwrap();
    assert_eq!(env.guest.get(json), "[\"A1\",\"A2\",\"A3\"]");
    assert_eq!(join_strings(&vec![], ";"), "");
    assert_eq!(join_strings(&vec!["x".to_string()], ";"), "x");
}

#[test]
fn invalid_utf8_is_refused_before_allocation() {
    let (env, mem, _ledger) = setup(1000, 0);
    assert!(matches!(pointer_from_utf8(&env.guest, &[0xff, 0xfe]), Err(AbiError::InvalidUtf8(_))));
    assert!(mem.strings.borrow().is_empty());
    let p = pointer_from_utf8(&env.guest, "é".as_bytes()).unwrap();
    assert_eq!(env.guest.get(p), "é");
}

#[test]
fn abort_reports_message_file_line_and_column() {
    let m = abort_message(Ok("boom".to_string()), Ok("a.ts".to_string()), 12, -3);
    assert_eq!(m, AbiError::Abort("boom, a.ts, line 12, col -3".to_string()));
    let m2 = abort_message(Ok("boom".to_string()), Err("x".to_string()), 0, 7);
    assert_eq!(m2, AbiError::Abort("boom, col 7".to_string()));
    let (env, _mem, _ledger) = setup(1000, 0);
    let msg = env.guest.put("failed");
    assert_eq!(
        assembly_script_abort(&env, msg, 9999, 4, 0),
        Err(AbiError::Abort("failed, line 4".to_string()))
    );
    assert_eq!(
        assembly_script_abort(&env, 9999, msg, 4, 0),
        Err(AbiError::Memory("abort: failed to load message".to_string()))
    );
}

#[test]
fn callee_trap_is_an_execution_error() {
    let mem = Rc::new(Memory { trap_in_callee: true, ..Default::default() });
    let ledger = Rc::new(Ledger::default());
    let (mut env, _m, _l) = setup(500, 0);
    env.guest = TestGuest(mem.clone());
    env.interface = TestInterface(ledger.clone());
    assert_eq!(
        call_module(&mut env, "A2", "main", "", 3),
        Err(AbiError::Execution("callee trapped".to_string()))
    );
    assert_eq!(mem.budgets.borrow().as_slice(), [500]);
    assert_eq!(ledger.calls.borrow().as_slice(), ["init_call".to_string()]);
}

#[test]
fn stored_value_that_is_not_utf8_is_refused() {
    let (mut env, _mem, ledger) = setup(1000, 0);
    ledger.data.borrow_mut().insert("bin".to_string(), vec![0xc3, 0x28]);
    let k = env.guest.put("bin");
    assert!(matches!(assembly_script_get_data(&mut env, k), Err(AbiError::InvalidUtf8(_))));
    // the returned value was charged before the check: 10 + 3 * 2 + 2 * 5
    assert_eq!(remaining(&env), 1000 - 26);
}

#[test]
fn append_to_a_missing_entry_fails() {
    let (mut env, _mem, _ledger) = setup(1000, 0);
    let k = env.guest.put("nothing");
    let v = env.guest.put("x");
    assert_eq!(
        assembly_script_append_data(&mut env, k, v),
        Err(AbiError::Interface("missing entry".to_string()))
    );
}

#[test]
fn create_sc_decodes_then_gives_the_new_address() {
    let (mut env, _mem, ledger) = setup(1000, 0);
    let text = env.guest.put("AGFzbQ==");
    let addr = assembly_script_create_sc(&mut env, text).unwrap();
    assert_eq!(env.guest.get(addr), "A1new");
    assert_eq!(remaining(&env), 1000 - 12 - 8);
    let bad = env.guest.put("@@@");
    assert!(matches!(assembly_script_create_sc(&mut env, bad), Err(AbiError::InvalidBase64(_))));
    assert_eq!(ledger.calls.borrow().as_slice(), ["create_module".to_string()]);
}

#[test]
fn unreadable_argument_is_a_memory_error() {
    let (mut env, _mem, ledger) = setup(1000, 0);
    assert!(matches!(assembly_script_transfer_coins(&mut env, 4242, 1), Err(AbiError::Memory(_))));
    assert!(ledger.calls.borrow().is_empty());
}

#[test]
fn leftover_above_the_budget_is_refused() {
    let mem = Rc::new(Memory { leftover: u64::MAX, inflate: 1, ..Default::default() });
    let ledger = Rc::new(Ledger::default());
    let (mut env, _m, _l) = setup(300, 0);
    env.guest = TestGuest(mem.clone());
    env.interface = TestInterface(ledger.clone());
    assert_eq!(call_module(&mut env, "A2", "main", "", 0), Err(AbiError::LeftoverAboveBudget));
    assert_eq!(mem.budgets.borrow().as_slice(), [300]);
    assert_eq!(remaining(&env), 300);
    assert_eq!(ledger.calls.borrow().as_slice(), ["init_call".to_string()]);
}

#[test]
fn failed_decoding_keeps_the_charge() {
    let (mut env, _mem, ledger) = setup(1000, 0);
    let text = env.guest.put("@@@@");
    assert!(matches!(assembly_script_set_bytecode(&mut env, text), Err(AbiError::InvalidBase64(_))));
    assert_eq!(remaining(&env), 1000 - 10 - 4);
    assert!(ledger.calls.borrow().is_empty());
}

#[test]
fn ledger_failure_keeps_the_charge() {
    let (mut env, _mem, _ledger) = setup(1000, 0);
    let k = env.guest.put("missing");
    let v = env.guest.put("vv");
    // 10 + 7 * 2 + 2 * 3
    assert!(matches!(assembly_script_append_data(&mut env, k, v), Err(AbiError::Interface(_))));
    assert_eq!(remaining(&env), 1000 - 30);
}

#[test]
fn string_lists_are_escaped_as_json() {
    let (env, _mem, _ledger) = setup(1000, 0);
    let items = vec!["a\"b\\c".to_string(), "t\tn\nr\r\u{8}\u{c}\u{1}".to_string(), "é/".to_string()];
    let p = alloc_string_array(&env.guest, &items).unwrap();
    assert_eq!(env.guest.get(p), "[\"a\\\"b\\\\c\",\"t\\tn\\nr\\r\\b\\f\\u0001\",\"é/\"]");
    let empty = alloc_string_array(&env.guest, &vec![]).unwrap();
    assert_eq!(env.guest.get(empty), "[]");
}
