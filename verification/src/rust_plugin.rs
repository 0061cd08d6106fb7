//! A small plugin that shows every part of the library at work: two console
//! commands, a redirected function and a redirected method.

use crate::interop::fn_ptr::TgeAddr;
use crate::interop::platform::{address_for, tge_addr, Platform};
use crate::math::fits;
use crate::util::{parse_i32, parsed_i32};
use vstd::prelude::*;
use vstd::string::StrSliceExecFns;

verus! {

/// The value of an argument: the number that it denotes, and zero where it
/// denotes none.
pub open spec fn arg_value(text: Seq<char>) -> i32 {
    match parsed_i32(text) {
        Some(v) => v,
        None => 0,
    }
}

/// Adds two values.
pub fn add_values(x: i32, y: i32) -> (sum: i32)
    requires
        fits(x + y),
    ensures
        sum == x + y,
{
    x + y
}

/// The console command that adds its two arguments, which follow the name
/// of the command: `None` exactly where an argument is missing or the sum
/// is no `i32`.
#[allow(non_snake_case)]
pub fn rustAdd(args: &Vec<String>) -> (sum: Option<i32>)
    ensures
        match sum {
            Some(s) => args.len() >= 3 && s == arg_value(args[1]@) + arg_value(args[2]@),
            None => args.len() < 3 || !fits(arg_value(args[1]@) + arg_value(args[2]@)),
        },
{
    if args.len() < 3 {
        return None;
    }
    let x = match parse_i32(args[1].as_str()) {
        Some(v) => v,
        None => 0,
    };
    let y = match parse_i32(args[2].as_str()) {
        Some(v) => v,
        None => 0,
    };
    match x.checked_add(y) {
        Some(_) => Some(add_values(x, y)),
        None => None,
    }
}

/// The console command that turns its argument round: the characters of the
/// text, the last one first.
#[allow(non_snake_case)]
pub fn rustReverse(text: &str) -> (reversed: Vec<char>)
    ensures
        reversed@ == text@.reverse(),
{
    let n = text.unicode_len();
    let mut reversed: Vec<char> = Vec::new();
    let mut i: usize = n;
    while i > 0
        invariant
            i <= n,
            n == text@.len(),
            reversed@.len() == n - i,
            forall|k: int| 0 <= k < reversed@.len() ==> reversed@[k] == text@[n - 1 - k],
        decreases i,
    {
        i -= 1;
        reversed.push(text.get_char(i));
    }
    assert(reversed@ =~= text@.reverse());
    reversed
}

/// Where the function stands that makes the window of the game. It is known
/// for Windows only.
pub fn tge_create_window(platform: Platform) -> (address: TgeAddr)
    ensures
        address.0 == address_for(platform, 0x4065a0, 0),
{
    tge_addr(platform, 0x4065a0, 0)
}

} // verus!
