//! Moving strings and bytes across the guest boundary, charging for their
//! length where the price list asks for it.
use vstd::prelude::*;
use vstd::utf8::{decode_utf8, encode_utf8, valid_utf8};
use crate::env::{spent, AbiEnv, Guest, Interface};
use crate::error::AbiError;

verus! {

/// A hexadecimal digit, in lower case.
pub open spec fn hex_digit(n: u32) -> char {
    seq!['0', '1', '2', '3', '4', '5', '6', '7', '8', '9', 'a', 'b', 'c', 'd', 'e', 'f'][n as int]
}

/// One character as it stands inside a JSON string: the quote and the
/// backslash escaped, control characters written as a short escape or as
/// `\u00XX`, everything else kept.
pub open spec fn json_escape_char(c: char) -> Seq<char> {
    if c == '"' {
        seq!['\\', '"']
    } else if c == '\\' {
        seq!['\\', '\\']
    } else if c == '\u{8}' {
        seq!['\\', 'b']
    } else if c == '\t' {
        seq!['\\', 't']
    } else if c == '\n' {
        seq!['\\', 'n']
    } else if c == '\u{c}' {
        seq!['\\', 'f']
    } else if c == '\r' {
        seq!['\\', 'r']
    } else if (c as u32) < 0x20 {
        seq!['\\', 'u', '0', '0', hex_digit((c as u32) / 16), hex_digit((c as u32) % 16)]
    } else {
        seq![c]
    }
}

/// The characters of `s`, each escaped for a JSON string.
pub open spec fn json_escaped(s: Seq<char>) -> Seq<char>
    decreases s.len(),
{
    if s.len() == 0 {
        Seq::empty()
    } else {
        json_escaped(s.drop_last()) + json_escape_char(s.last())
    }
}

/// `s` as a JSON string literal.
pub open spec fn json_string(s: Seq<char>) -> Seq<char> {
    seq!['"'] + json_escaped(s) + seq!['"']
}

/// The compact JSON array of the strings `items`.
pub open spec fn json_string_list(items: Seq<Seq<char>>) -> Seq<char> {
    seq!['['] + joined(items.map_values(|s: Seq<char>| json_string(s)), seq![',']) + seq![']']
}

/// The length of the UTF-8 encoding of `s`, as the host's `len` gives it.
pub open spec fn utf8_len(s: Seq<char>) -> usize {
    encode_utf8(s).len() as usize
}

/// The strings held by a vector, as character sequences.
pub open spec fn string_views(v: Seq<String>) -> Seq<Seq<char>> {
    v.map_values(|s: String| s@)
}

/// Relies on std::str::from_utf8: succeeds exactly on valid UTF-8, and then
/// gives the decoded characters.
#[verifier::external_body]
fn utf8_to_string(bytes: &[u8]) -> (r: Result<String, String>)
    ensures
        r is Ok <==> valid_utf8(bytes@),
        r matches Ok(s) ==> s@ == decode_utf8(bytes@),
{
    match std::str::from_utf8(bytes) {
        Ok(s) => Ok(s.to_string()),
        Err(e) => Err(e.to_string()),
    }
}

/// Relies on serde_json::to_string on a slice of strings: the JSON array of
/// those strings. Strings always serialize, so it never fails.
#[verifier::external_body]
fn json_of_strings(items: &[String]) -> (r: Result<String, String>)
    ensures
        r is Ok,
        r matches Ok(s) ==> s@ == json_string_list(string_views(items@)),
{
    serde_json::to_string(items).map_err(|e| e.to_string())
}

/// The items joined with `sep` between each two.
pub open spec fn joined(items: Seq<Seq<char>>, sep: Seq<char>) -> Seq<char>
    decreases items.len(),
{
    if items.len() == 0 {
        Seq::empty()
    } else if items.len() == 1 {
        items[0]
    } else {
        joined(items.drop_last(), sep) + sep + items.last()
    }
}

/// Joins the strings with `sep` between each two.
pub fn join_strings(items: &Vec<String>, sep: &str) -> (r: String)
    ensures
        r@ == joined(string_views(items@), sep@),
{
    let ghost views = string_views(items@);
    if items.len() == 0 {
        return String::new();
    }
    let mut out = items[0].clone();
    let mut i: usize = 1;
    assert(views.take(1).drop_last() =~= Seq::<Seq<char>>::empty());
    assert(views.take(1) =~= seq![views[0]]);
    while i < items.len()
        invariant
            1 <= i <= items.len(),
            views == string_views(items@),
            out@ == joined(views.take(i as int), sep@),
        decreases items.len() - i,
    {
        out.append(sep);
        out.append(items[i].as_str());
        assert(views.take(i + 1).drop_last() =~= views.take(i as int));
        i = i + 1;
    }
    assert(views.take(i as int) =~= views);
    out
}

/// Reads the string at `offset` of guest memory.
pub fn get_string<G: Guest>(guest: &G, offset: i32) -> (r: Result<String, AbiError>)
    ensures
        r is Err ==> r matches Err(AbiError::Memory(_)),
{
    match guest.read_string(offset) {
        Ok(s) => Ok(s),
        Err(e) => Err(AbiError::Memory(e)),
    }
}

/// Reads the string at `offset`, then charges its true UTF-8 length times
/// `mult`: the length charged is the decoded one, never one the guest claims.
pub fn read_string_and_sub_gas<G: Guest, I: Interface>(env: &mut AbiEnv<G, I>, offset: i32, mult: usize) -> (r: Result<String, AbiError>)
    ensures
        final(env).guest == old(env).guest,
        final(env).interface == old(env).interface,
        final(env).costs == old(env).costs,
        spent(old(env).gas, final(env).gas),
        r matches Err(e) ==> e is Memory || e.is_gas_error(),
        r matches Err(AbiError::Memory(_)) ==> final(env).gas == old(env).gas,
        r matches Ok(s) ==> {
            &&& old(env).gas.sub_mult_result(utf8_len(s@), mult) is Ok
            &&& final(env).gas == old(env).gas.sub_mult_state(utf8_len(s@), mult)
        },
{
    let value = get_string(&env.guest, offset)?;
    crate::gas::sub_remaining_gas_with_mult(&mut env.gas, value.as_str().len(), mult)?;
    Ok(value)
}

/// Allocates `value` as a fresh string in guest memory and gives its offset.
pub fn pointer_from_string<G: Guest>(guest: &G, value: &str) -> (r: Result<i32, AbiError>)
    ensures
        r is Err ==> r matches Err(AbiError::Memory(_)),
{
    match guest.alloc_string(value) {
        Ok(offset) => Ok(offset),
        Err(e) => Err(AbiError::Memory(e)),
    }
}

/// Checks that `value` is UTF-8 and allocates it as a string in guest
/// memory; bytes that are not UTF-8 are refused before any allocation.
pub fn pointer_from_utf8<G: Guest>(guest: &G, value: &[u8]) -> (r: Result<i32, AbiError>)
    ensures
        !valid_utf8(value@) <==> r matches Err(AbiError::InvalidUtf8(_)),
        r is Err && valid_utf8(value@) ==> r matches Err(AbiError::Memory(_)),
{
    match utf8_to_string(value) {
        Ok(text) => pointer_from_string(guest, text.as_str()),
        Err(e) => Err(AbiError::InvalidUtf8(e)),
    }
}

/// Allocates the JSON array of `items` as a string in guest memory.
pub fn alloc_string_array<G: Guest>(guest: &G, items: &Vec<String>) -> (r: Result<i32, AbiError>)
    ensures
        r is Err ==> r matches Err(AbiError::Memory(_)),
{
    match json_of_strings(items.as_slice()) {
        Ok(text) => pointer_from_string(guest, text.as_str()),
        Err(_) => vstd::pervasive::unreached(),
    }
}

/// Reads a key and then a value, each charged per byte of its UTF-8
/// encoding at its own rate, in that order.
pub fn read_key_value_and_sub_gas<G: Guest, I: Interface>(env: &mut AbiEnv<G, I>, key: i32, key_mult: usize, value: i32, value_mult: usize) -> (r: Result<(String, String), AbiError>)
    ensures
        final(env).guest == old(env).guest,
        final(env).interface == old(env).interface,
        final(env).costs == old(env).costs,
        spent(old(env).gas, final(env).gas),
        r matches Err(e) ==> e is Memory || e.is_gas_error(),
        r matches Ok((k, v)) ==> {
            &&& old(env).gas.sub_mult_result(utf8_len(k@), key_mult) is Ok
            &&& old(env).gas.sub_mult_state(utf8_len(k@), key_mult).sub_mult_result(utf8_len(v@), value_mult) is Ok
            &&& final(env).gas == old(env).gas.sub_mult_state(utf8_len(k@), key_mult).sub_mult_state(utf8_len(v@), value_mult)
        },
{
    let k = read_string_and_sub_gas(env, key, key_mult)?;
    let v = read_string_and_sub_gas(env, value, value_mult)?;
    Ok((k, v))
}

/// Charges for a value the ledger handed back, per byte at `mult`, then
/// checks that it is UTF-8 and allocates it in guest memory. The charge
/// comes first and stays whatever follows.
pub fn alloc_returned_value<G: Guest, I: Interface>(env: &mut AbiEnv<G, I>, data: &Vec<u8>, mult: usize) -> (r: Result<i32, AbiError>)
    ensures
        final(env).guest == old(env).guest,
        final(env).interface == old(env).interface,
        final(env).costs == old(env).costs,
        spent(old(env).gas, final(env).gas),
        final(env).gas == old(env).gas.sub_mult_state(data@.len() as usize, mult),
        old(env).gas.sub_mult_result(data@.len() as usize, mult) matches Err(e) ==> r == Err::<i32, AbiError>(e),
        old(env).gas.sub_mult_result(data@.len() as usize, mult) is Ok ==> {
            &&& (!valid_utf8(data@) <==> (r matches Err(AbiError::InvalidUtf8(_))))
            &&& (r is Err && valid_utf8(data@) ==> (r matches Err(AbiError::Memory(_))))
        },
{
    proof {
        crate::gas::lemma_sub_spends(env.gas, (data@.len() * mult) as u64);
    }
    crate::gas::sub_remaining_gas_with_mult(&mut env.gas, data.len(), mult)?;
    pointer_from_utf8(&env.guest, data.as_slice())
}

} // verus!
