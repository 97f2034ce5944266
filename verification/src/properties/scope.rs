//! The scopes that an address can name.
use vstd::prelude::*;
use crate::properties::{four_cc, Scope};

verus! {

/// The scope for properties that apply to the object as a whole. Every
/// object has it, and for most it is the only one.
#[derive(Debug, Clone, Copy)]
pub struct Global;

impl Scope for Global {
    open spec fn code() -> u32 {
        four_cc('g', 'l', 'o', 'b')
    }

    fn scope() -> (r: u32) {
        0x676c_6f62
    }
}

/// The scope for properties that apply to the input side of an object.
#[derive(Debug, Clone, Copy)]
pub struct Input;

impl Scope for Input {
    open spec fn code() -> u32 {
        four_cc('i', 'n', 'p', 't')
    }

    fn scope() -> (r: u32) {
        0x696e_7074
    }
}

/// The scope for properties that apply to the output side of an object.
#[derive(Debug, Clone, Copy)]
pub struct Output;

impl Scope for Output {
    open spec fn code() -> u32 {
        four_cc('o', 'u', 't', 'p')
    }

    fn scope() -> (r: u32) {
        0x6f75_7470
    }
}

/// The scope that matches every scope.
#[derive(Debug, Clone, Copy)]
pub struct Wildcard;

impl Scope for Wildcard {
    open spec fn code() -> u32 {
        four_cc('*', '*', '*', '*')
    }

    fn scope() -> (r: u32) {
        0x2a2a_2a2a
    }
}

} // verus!
