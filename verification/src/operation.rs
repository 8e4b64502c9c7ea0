//! The fixed-shape operation record: up to four typed parameter slots plus
//! the started/cancellation state word and the packed parameter type word.

use vstd::prelude::*;

use crate::parameter::{
    lemma_pack_param_types_nibbles, lemma_param_type_code_fits_nibble, spec_pack_param_types,
    spec_param_type_code, Param,
};

verus! {

/// One operation record, generic over the concrete kind of each of its four
/// parameter slots.
pub struct Operation<A: Param, B: Param, C: Param, D: Param> {
    p0: A,
    p1: B,
    p2: C,
    p3: D,
    started: u32,
    param_types: u32,
}

impl<A: Param, B: Param, C: Param, D: Param> Operation<A, B, C, D> {
    pub closed spec fn spec_started(&self) -> u32 {
        self.started
    }

    pub closed spec fn spec_param_types(&self) -> u32 {
        self.param_types
    }

    pub closed spec fn spec_params(&self) -> (A, B, C, D) {
        (self.p0, self.p1, self.p2, self.p3)
    }

    /// The record's invariant: the packed type word holds exactly the code
    /// of the concrete variant stored in each slot, so the discriminants the
    /// native side dispatches on can never disagree with the slots.
    pub open spec fn wf(&self) -> bool {
        self.spec_param_types() == spec_pack_param_types(
            spec_param_type_code(self.spec_params().0.spec_param_type()),
            spec_param_type_code(self.spec_params().1.spec_param_type()),
            spec_param_type_code(self.spec_params().2.spec_param_type()),
            spec_param_type_code(self.spec_params().3.spec_param_type()),
        )
    }

    /// Assembles the record. Purely a data-shape step: it cannot fail, and
    /// it establishes the invariant tying the type word to the slots.
    pub fn new(p0: A, p1: B, p2: C, p3: D) -> (op: Operation<A, B, C, D>)
        ensures
            op.wf(),
            op.spec_params() == (p0, p1, p2, p3),
            op.spec_started() == 0,
    {
        let t0 = p0.param_type().as_raw();
        let t1 = p1.param_type().as_raw();
        let t2 = p2.param_type().as_raw();
        let t3 = p3.param_type().as_raw();
        let param_types = t0 | (t1 << 4u32) | (t2 << 8u32) | (t3 << 12u32);
        Operation { p0, p1, p2, p3, started: 0, param_types }
    }

    /// The packed parameter type word of this record.
    pub fn param_types(&self) -> (r: u32)
        ensures
            r == self.spec_param_types(),
    {
        self.param_types
    }

    /// The started/cancellation state word of this record.
    pub fn started(&self) -> (r: u32)
        ensures
            r == self.spec_started(),
    {
        self.started
    }

    /// Each nibble of a well-formed record's type word is exactly the
    /// code of the variant standing in that slot: what the native side
    /// dispatches on agrees with what the slots hold.
    pub proof fn lemma_type_word_matches_slots(&self)
        requires
            self.wf(),
        ensures
            self.spec_param_types() & 0xF == spec_param_type_code(
                self.spec_params().0.spec_param_type(),
            ),
            (self.spec_param_types() >> 4) & 0xF == spec_param_type_code(
                self.spec_params().1.spec_param_type(),
            ),
            (self.spec_param_types() >> 8) & 0xF == spec_param_type_code(
                self.spec_params().2.spec_param_type(),
            ),
            (self.spec_param_types() >> 12) & 0xF == spec_param_type_code(
                self.spec_params().3.spec_param_type(),
            ),
    {
        lemma_param_type_code_fits_nibble(self.spec_params().0.spec_param_type());
        lemma_param_type_code_fits_nibble(self.spec_params().1.spec_param_type());
        lemma_param_type_code_fits_nibble(self.spec_params().2.spec_param_type());
        lemma_param_type_code_fits_nibble(self.spec_params().3.spec_param_type());
        lemma_pack_param_types_nibbles(
            spec_param_type_code(self.spec_params().0.spec_param_type()),
            spec_param_type_code(self.spec_params().1.spec_param_type()),
            spec_param_type_code(self.spec_params().2.spec_param_type()),
            spec_param_type_code(self.spec_params().3.spec_param_type()),
        );
    }

    /// Shared access to the four slots.
    pub fn params(&self) -> (r: (&A, &B, &C, &D))
        ensures
            *r.0 == self.spec_params().0,
            *r.1 == self.spec_params().1,
            *r.2 == self.spec_params().2,
            *r.3 == self.spec_params().3,
    {
        (&self.p0, &self.p1, &self.p2, &self.p3)
    }
}

} // verus!
