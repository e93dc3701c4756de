use vstd::prelude::*;

verus! {

/// One of the two metering globals exported by a guest instance.
#[derive(Clone, Copy, Debug, PartialEq, Eq, Structural)]
pub enum MeteringGlobalKind {
    RemainingPoints,
    ExhaustedPoints,
}

/// A parameter of an asynchronous message that is checked before the message
/// is handed to the ledger.
#[derive(Clone, Copy, Debug, PartialEq, Eq, Structural)]
pub enum MessageField {
    ValidityStartPeriod,
    ValidityStartThread,
    ValidityEndPeriod,
    ValidityEndThread,
    MaxGas,
    GasPrice,
    Coins,
}

/// Every way a host function can fail. Each one ends the guest's execution
/// with a trap that carries the diagnostic.
#[derive(Clone, Debug, PartialEq, Eq)]
pub enum AbiError {
    /// The instance does not hold the metering global (it was never bound).
    LostReference(MeteringGlobalKind),
    /// The metering global holds a value of an unexpected type.
    WrongType(MeteringGlobalKind),
    /// The metering global refused the new value.
    CannotSet(MeteringGlobalKind),
    /// The remaining gas does not cover the charge.
    GasExhausted,
    /// A variable-length charge `count * unit_cost` does not fit in a machine
    /// word; it carries `count` and `unit_cost`.
    MultiplicationOverflow(usize, usize),
    /// A coin amount given by the guest is negative.
    NegativeAmount,
    /// A parameter of an asynchronous message is out of range.
    InvalidMessageField(MessageField),
    /// Reading or allocating in guest memory failed.
    Memory(String),
    /// Bytes that must be UTF-8 are not.
    InvalidUtf8(String),
    /// A payload that must be base64 is not.
    InvalidBase64(String),
    /// The ledger behind the interface reported a failure.
    Interface(String),
    /// The ledger refused to open a nested call (unknown module, or the
    /// coins could not be reserved).
    CallRefused(String),
    /// A nested execution reported more gas left than it was given.
    LeftoverAboveBudget,
    /// The nested execution of another module failed.
    Execution(String),
    /// The guest aborted, with the message it gave.
    Abort(String),
}

impl AbiError {
    /// An error of the metering itself: an unusable global, exhaustion, or an
    /// overflowing charge.
    pub open spec fn is_gas_error(self) -> bool {
        ||| self is LostReference
        ||| self is WrongType
        ||| self is CannotSet
        ||| self is GasExhausted
        ||| self is MultiplicationOverflow
    }
}

} // verus!
