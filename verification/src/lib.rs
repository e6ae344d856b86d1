//! A CHIP-8 virtual machine: a fetch-decode-execute core over a 4KB address
//! space, sixteen 8-bit registers, a call stack, two 60 Hz timers and a
//! 64x32 monochrome framebuffer. The instruction semantics, the numeric
//! wraparound behaviour, the timer decay model and the protocol between the
//! executor and the host (display, audio, keypad) are all stated as contracts
//! and verified.
#![allow(non_snake_case)]

use vstd::prelude::*;

pub mod chip8;
pub mod constants;
pub mod exec;
pub mod instruction;
pub mod laws;

verus! {

/// Run configuration: the ROM to load and whether the machine starts in the
/// interactive single-step mode.
pub struct Config {
    pub filename: String,
    pub is_debug: bool,
}

impl Config {
    pub fn build(filename: &str, is_debug: bool) -> (c: Config)
        ensures
            c.filename@ == filename@,
            c.is_debug == is_debug,
    {
        Config { filename: filename.to_owned(), is_debug }
    }
}

/// Decides the run configuration from the command line and the debug toggle.
///
/// The first argument is the program's own name; the second names the ROM.
/// A missing ROM name is a startup configuration error. The machine runs in
/// single-step mode exactly when the toggle holds the string "1".
pub fn handle_args(args: &Vec<String>, debug_toggle: &Option<String>) -> (r: Result<
    Config,
    &'static str,
>)
    ensures
        r is Ok <==> args@.len() >= 2,
        r matches Ok(c) ==> {
            &&& c.filename@ == args@[1]@
            &&& c.is_debug == (debug_toggle matches Some(v) && v@ == "1"@)
        },
        r matches Err(m) ==> m@ == "No filename provided!"@,
{
    if args.len() < 2 {
        return Err("No filename provided!");
    }
    let is_debug = match debug_toggle {
        Some(val) => {
            let one: String = "1".to_owned();
            *val == one
        },
        None => false,
    };
    Ok(Config::build(args[1].as_str(), is_debug))
}

} // verus!
