//! Typed wrappers over the four ABI parameter slots. Each concrete kind
//! carries a direction tag, and the kind together with the direction fixes
//! the numeric type code that the native side dispatches on.

use vstd::prelude::*;

verus! {

pub const TEEC_NONE: u32 = 0x0;
pub const TEEC_VALUE_INPUT: u32 = 0x1;
pub const TEEC_VALUE_OUTPUT: u32 = 0x2;
pub const TEEC_VALUE_INOUT: u32 = 0x3;
pub const TEEC_MEMREF_TEMP_INPUT: u32 = 0x5;
pub const TEEC_MEMREF_TEMP_OUTPUT: u32 = 0x6;
pub const TEEC_MEMREF_TEMP_INOUT: u32 = 0x7;
pub const TEEC_MEMREF_WHOLE: u32 = 0xC;
pub const TEEC_MEMREF_PARTIAL_INPUT: u32 = 0xD;
pub const TEEC_MEMREF_PARTIAL_OUTPUT: u32 = 0xE;
pub const TEEC_MEMREF_PARTIAL_INOUT: u32 = 0xF;

/// Whether a parameter slot carries data into the command, out of it, or
/// both ways.
#[derive(Clone, Copy, Debug, PartialEq, Eq, Structural)]
pub enum ParamDirection {
    Input,
    Output,
    Inout,
}

/// The closed set of slot type discriminants of the ABI. `Unused` marks a
/// slot that carries no parameter.
#[derive(Clone, Copy, Debug, PartialEq, Eq, Structural)]
pub enum ParamType {
    Unused,
    ValueInput,
    ValueOutput,
    ValueInout,
    MemrefTempInput,
    MemrefTempOutput,
    MemrefTempInout,
    MemrefWhole,
    MemrefPartialInput,
    MemrefPartialOutput,
    MemrefPartialInout,
}

/// The closed table from slot type discriminant to the numeric code written
/// into the operation's type word; the native side dispatches purely on it.
pub open spec fn spec_param_type_code(t: ParamType) -> u32 {
    match t {
        ParamType::Unused => TEEC_NONE,
        ParamType::ValueInput => TEEC_VALUE_INPUT,
        ParamType::ValueOutput => TEEC_VALUE_OUTPUT,
        ParamType::ValueInout => TEEC_VALUE_INOUT,
        ParamType::MemrefTempInput => TEEC_MEMREF_TEMP_INPUT,
        ParamType::MemrefTempOutput => TEEC_MEMREF_TEMP_OUTPUT,
        ParamType::MemrefTempInout => TEEC_MEMREF_TEMP_INOUT,
        ParamType::MemrefWhole => TEEC_MEMREF_WHOLE,
        ParamType::MemrefPartialInput => TEEC_MEMREF_PARTIAL_INPUT,
        ParamType::MemrefPartialOutput => TEEC_MEMREF_PARTIAL_OUTPUT,
        ParamType::MemrefPartialInout => TEEC_MEMREF_PARTIAL_INOUT,
    }
}

/// Every code of the closed table fits in one nibble of the type word.
pub proof fn lemma_param_type_code_fits_nibble(t: ParamType)
    ensures
        spec_param_type_code(t) < 16,
{
}

impl ParamType {
    /// The numeric code of this discriminant, as the ABI defines it.
    pub fn as_raw(self) -> (r: u32)
        ensures
            r == spec_param_type_code(self),
    {
        match self {
            ParamType::Unused => TEEC_NONE,
            ParamType::ValueInput => TEEC_VALUE_INPUT,
            ParamType::ValueOutput => TEEC_VALUE_OUTPUT,
            ParamType::ValueInout => TEEC_VALUE_INOUT,
            ParamType::MemrefTempInput => TEEC_MEMREF_TEMP_INPUT,
            ParamType::MemrefTempOutput => TEEC_MEMREF_TEMP_OUTPUT,
            ParamType::MemrefTempInout => TEEC_MEMREF_TEMP_INOUT,
            ParamType::MemrefWhole => TEEC_MEMREF_WHOLE,
            ParamType::MemrefPartialInput => TEEC_MEMREF_PARTIAL_INPUT,
            ParamType::MemrefPartialOutput => TEEC_MEMREF_PARTIAL_OUTPUT,
            ParamType::MemrefPartialInout => TEEC_MEMREF_PARTIAL_INOUT,
        }
    }
}

/// A concrete parameter kind that can fill one slot of an operation.
pub trait Param: Sized {
    /// The slot type discriminant that this parameter writes into the
    /// operation's type word.
    spec fn spec_param_type(&self) -> ParamType;

    fn param_type(&self) -> (t: ParamType)
        ensures
            t == self.spec_param_type(),
    ;
}

/// An unused parameter slot.
#[derive(Clone, Copy, Debug, PartialEq, Eq, Structural)]
pub struct ParamNone;

impl Param for ParamNone {
    open spec fn spec_param_type(&self) -> ParamType {
        ParamType::Unused
    }

    fn param_type(&self) -> (t: ParamType) {
        ParamType::Unused
    }
}

/// A value parameter: two 32-bit fields and a direction tag.
#[derive(Clone, Copy, Debug, PartialEq, Eq, Structural)]
pub struct ParamValue {
    a: u32,
    b: u32,
    direction: ParamDirection,
}

impl ParamValue {
    pub closed spec fn spec_a(&self) -> u32 {
        self.a
    }

    pub closed spec fn spec_b(&self) -> u32 {
        self.b
    }

    pub closed spec fn spec_direction(&self) -> ParamDirection {
        self.direction
    }

    pub fn new(a: u32, b: u32, direction: ParamDirection) -> (p: ParamValue)
        ensures
            p.spec_a() == a,
            p.spec_b() == b,
            p.spec_direction() == direction,
    {
        ParamValue { a, b, direction }
    }

    pub fn a(&self) -> (r: u32)
        ensures
            r == self.spec_a(),
    {
        self.a
    }

    pub fn b(&self) -> (r: u32)
        ensures
            r == self.spec_b(),
    {
        self.b
    }
}

impl Param for ParamValue {
    open spec fn spec_param_type(&self) -> ParamType {
        match self.spec_direction() {
            ParamDirection::Input => ParamType::ValueInput,
            ParamDirection::Output => ParamType::ValueOutput,
            ParamDirection::Inout => ParamType::ValueInout,
        }
    }

    fn param_type(&self) -> (t: ParamType) {
        match self.direction {
            ParamDirection::Input => ParamType::ValueInput,
            ParamDirection::Output => ParamType::ValueOutput,
            ParamDirection::Inout => ParamType::ValueInout,
        }
    }
}

/// A temporary memory reference: an owned buffer handed to one call, with a
/// direction tag.
#[derive(Debug)]
pub struct ParamTmpRef {
    buffer: Vec<u8>,
    direction: ParamDirection,
}

impl ParamTmpRef {
    pub closed spec fn spec_buffer(&self) -> Seq<u8> {
        self.buffer@
    }

    pub closed spec fn spec_direction(&self) -> ParamDirection {
        self.direction
    }

    pub fn new(buffer: Vec<u8>, direction: ParamDirection) -> (p: ParamTmpRef)
        ensures
            p.spec_buffer() == buffer@,
            p.spec_direction() == direction,
    {
        ParamTmpRef { buffer, direction }
    }

    pub fn buffer(&self) -> (r: &[u8])
        ensures
            r@ == self.spec_buffer(),
    {
        self.buffer.as_slice()
    }
}

impl Param for ParamTmpRef {
    open spec fn spec_param_type(&self) -> ParamType {
        match self.spec_direction() {
            ParamDirection::Input => ParamType::MemrefTempInput,
            ParamDirection::Output => ParamType::MemrefTempOutput,
            ParamDirection::Inout => ParamType::MemrefTempInout,
        }
    }

    fn param_type(&self) -> (t: ParamType) {
        match self.direction {
            ParamDirection::Input => ParamType::MemrefTempInput,
            ParamDirection::Output => ParamType::MemrefTempOutput,
            ParamDirection::Inout => ParamType::MemrefTempInout,
        }
    }
}

/// The packed type word: one nibble per slot, slot zero in the lowest
/// nibble.
pub open spec fn spec_pack_param_types(t0: u32, t1: u32, t2: u32, t3: u32) -> u32 {
    t0 | (t1 << 4) | (t2 << 8) | (t3 << 12)
}

/// Each slot's code is recovered from its own nibble of the packed word:
/// the type word never mixes the slots up.
pub proof fn lemma_pack_param_types_nibbles(t0: u32, t1: u32, t2: u32, t3: u32)
    requires
        t0 < 16,
        t1 < 16,
        t2 < 16,
        t3 < 16,
    ensures
        spec_pack_param_types(t0, t1, t2, t3) & 0xF == t0,
        (spec_pack_param_types(t0, t1, t2, t3) >> 4) & 0xF == t1,
        (spec_pack_param_types(t0, t1, t2, t3) >> 8) & 0xF == t2,
        (spec_pack_param_types(t0, t1, t2, t3) >> 12) & 0xF == t3,
{
    assert((t0 | (t1 << 4) | (t2 << 8) | (t3 << 12)) & 0xF == t0
        && ((t0 | (t1 << 4) | (t2 << 8) | (t3 << 12)) >> 4) & 0xF == t1
        && ((t0 | (t1 << 4) | (t2 << 8) | (t3 << 12)) >> 8) & 0xF == t2
        && ((t0 | (t1 << 4) | (t2 << 8) | (t3 << 12)) >> 12) & 0xF == t3) by (bit_vector)
        requires
            t0 < 16,
            t1 < 16,
            t2 < 16,
            t3 < 16,
    ;
}

/// The packed type word of four slot discriminants.
#[derive(Clone, Copy, Debug, PartialEq, Eq, Structural)]
pub struct ParamTypes {
    raw: u32,
}

impl ParamTypes {
    pub closed spec fn spec_raw(&self) -> u32 {
        self.raw
    }

    pub fn new(t0: ParamType, t1: ParamType, t2: ParamType, t3: ParamType) -> (r: ParamTypes)
        ensures
            r.spec_raw() == spec_pack_param_types(
                spec_param_type_code(t0),
                spec_param_type_code(t1),
                spec_param_type_code(t2),
                spec_param_type_code(t3),
            ),
    {
        ParamTypes {
            raw: t0.as_raw() | (t1.as_raw() << 4u32) | (t2.as_raw() << 8u32) | (t3.as_raw()
                << 12u32),
        }
    }

    pub fn as_raw(&self) -> (r: u32)
        ensures
            r == self.spec_raw(),
    {
        self.raw
    }
}

} // verus!
