//! Host-side bridge of a smart-contract virtual machine: gas metering over the
//! guest's metering globals, marshaling of strings across the guest boundary,
//! and the host functions that guest bytecode may call.

pub mod error;
pub mod gas;
pub mod env;
pub mod marshal;
pub mod abi;
pub mod call;
pub mod hooks;
