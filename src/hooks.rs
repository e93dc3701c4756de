//! Host hooks that the AssemblyScript toolchain expects next to the host
//! functions.
use vstd::prelude::*;
use crate::env::{AbiEnv, Guest, Interface};
use crate::error::AbiError;

verus! {

/// The decimal digits of `n`, most significant first.
pub open spec fn nat_digits(n: nat) -> Seq<char>
    decreases n,
{
    let digit = seq!['0', '1', '2', '3', '4', '5', '6', '7', '8', '9'][(n % 10) as int];
    if n < 10 {
        seq![digit]
    } else {
        nat_digits(n / 10) + seq![digit]
    }
}

/// The decimal text of an integer, with a leading `-` when negative.
pub open spec fn int_text(n: int) -> Seq<char> {
    if n < 0 {
        seq!['-'] + nat_digits((-n) as nat)
    } else {
        nat_digits(n as nat)
    }
}

/// The text of one decimal digit.
fn digit_text(d: u32) -> (r: &'static str)
    requires
        d < 10,
    ensures
        r@ == seq![seq!['0', '1', '2', '3', '4', '5', '6', '7', '8', '9'][d as int]],
{
    proof {
        reveal_strlit("0");
        reveal_strlit("1");
        reveal_strlit("2");
        reveal_strlit("3");
        reveal_strlit("4");
        reveal_strlit("5");
        reveal_strlit("6");
        reveal_strlit("7");
        reveal_strlit("8");
        reveal_strlit("9");
    }
    match d {
        0 => "0",
        1 => "1",
        2 => "2",
        3 => "3",
        4 => "4",
        5 => "5",
        6 => "6",
        7 => "7",
        8 => "8",
        _ => "9",
    }
}

/// The decimal text of `n`.
fn nat_text(n: u32) -> (r: String)
    ensures
        r@ == nat_digits(n as nat),
    decreases n,
{
    let digit = digit_text(n % 10);
    if n < 10 {
        String::from_str(digit)
    } else {
        let mut text = nat_text(n / 10);
        text.append(digit);
        text
    }
}

/// The decimal text of `n`, with a leading `-` when negative.
fn i32_text(n: i32) -> (r: String)
    ensures
        r@ == int_text(n as int),
{
    if n < 0 {
        let magnitude: u32 = (0i64 - n as i64) as u32;
        let mut text = String::from_str("-");
        proof {
            reveal_strlit("-");
        }
        let digits = nat_text(magnitude);
        text.append(digits.as_str());
        text
    } else {
        nat_text(n as u32)
    }
}

/// The diagnostic of an abort: the message, then the file name when it could
/// be read, then the line and the column when they are not 0.
pub open spec fn abort_text(message: Seq<char>, filename: Option<Seq<char>>, line: i32, col: i32) -> Seq<char> {
    let with_file = match filename {
        Some(f) => message + ", "@ + f,
        None => message,
    };
    let with_line = if line != 0 { with_file + ", line "@ + int_text(line as int) } else { with_file };
    if col != 0 { with_line + ", col "@ + int_text(col as int) } else { with_line }
}

/// Builds the error an abort ends with, from what was read of its message and
/// file name. An unreadable message is a memory error that says so; an
/// unreadable file name is left out.
pub fn abort_message(message: Result<String, String>, filename: Result<String, String>, line: i32, col: i32) -> (r: AbiError)
    ensures
        message is Err ==> (r matches AbiError::Memory(t) && t@ == "abort: failed to load message"@),
        message matches Ok(m) ==> r matches AbiError::Abort(t) && t@ == abort_text(
            m@,
            match filename {
                Ok(f) => Some(f@),
                Err(_) => None,
            },
            line,
            col,
        ),
{
    let mut text = match message {
        Ok(m) => m,
        Err(_) => {
            return AbiError::Memory(String::from_str("abort: failed to load message"));
        },
    };
    match filename {
        Ok(f) => {
            text.append(", ");
            text.append(f.as_str());
        },
        Err(_) => {},
    }
    if line != 0 {
        text.append(", line ");
        let n = i32_text(line);
        text.append(n.as_str());
    }
    if col != 0 {
        text.append(", col ");
        let n = i32_text(col);
        text.append(n.as_str());
    }
    AbiError::Abort(text)
}

/// Called by the guest when it fails: reads its message and file name and
/// ends the execution with them. It never returns normally.
pub fn assembly_script_abort<G: Guest, I: Interface>(env: &AbiEnv<G, I>, message: i32, filename: i32, line: i32, col: i32) -> (r: Result<(), AbiError>)
    ensures
        r matches Err(e) && (e is Abort || e is Memory),
{
    let message = env.guest.read_string(message);
    let filename = env.guest.read_string(filename);
    Err(abort_message(message, filename, line, col))
}

} // verus!
