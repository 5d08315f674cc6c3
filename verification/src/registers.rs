//! The shared register table: input registers written by the controller and
//! read by a remote client, holding registers written by the client and read
//! by the controller. Each slot holds one single-precision value as its
//! IEEE-754 bit pattern. The slot count is fixed at construction from the
//! enumerated register names; out-of-range access is rejected, never
//! performed.

use vstd::prelude::*;

use crate::float_bits::F32_POS_INF_BITS;

verus! {

/// Number of input register slots.
pub const INPUT_REGISTER_COUNT: usize = 2;

/// Number of holding register slots.
pub const HOLDING_REGISTER_COUNT: usize = 4;

/// The input registers, in slot order: telemetry the controller publishes.
#[derive(Clone, Copy, PartialEq, Eq, Structural, Debug)]
pub enum InputRegister {
    Frequency,
    ControlSignal,
}

/// The holding registers, in slot order: tunables a remote client supplies.
#[derive(Clone, Copy, PartialEq, Eq, Structural, Debug)]
pub enum HoldingRegister {
    TargetFrequency,
    ProportionalFactor,
    IntegrationTime,
    DifferentiationTime,
}

impl InputRegister {
    /// The slot index of this register.
    pub open spec fn spec_index(self) -> int {
        match self {
            InputRegister::Frequency => 0,
            InputRegister::ControlSignal => 1,
        }
    }

    /// The slot index of this register.
    pub fn index(self) -> (r: usize)
        ensures
            r == self.spec_index(),
            r < INPUT_REGISTER_COUNT,
    {
        match self {
            InputRegister::Frequency => 0,
            InputRegister::ControlSignal => 1,
        }
    }
}

impl HoldingRegister {
    /// The slot index of this register.
    pub open spec fn spec_index(self) -> int {
        match self {
            HoldingRegister::TargetFrequency => 0,
            HoldingRegister::ProportionalFactor => 1,
            HoldingRegister::IntegrationTime => 2,
            HoldingRegister::DifferentiationTime => 3,
        }
    }

    /// The slot index of this register.
    pub fn index(self) -> (r: usize)
        ensures
            r == self.spec_index(),
            r < HOLDING_REGISTER_COUNT,
    {
        match self {
            HoldingRegister::TargetFrequency => 0,
            HoldingRegister::ProportionalFactor => 1,
            HoldingRegister::IntegrationTime => 2,
            HoldingRegister::DifferentiationTime => 3,
        }
    }
}

/// Rejection of a register access: the named slot range sticks out of the
/// table. A malformed payload is caught one layer up, where wire words
/// are decoded.
#[derive(Clone, Copy, PartialEq, Eq, Structural, Debug)]
pub enum RegisterError {
    Address,
}

/// The register table. Both slot lists have their length fixed for the
/// lifetime of the table.
pub struct Registers {
    input: Vec<u32>,
    holding: Vec<u32>,
}

impl Registers {
    /// The input slots, oldest-declared first, as bit patterns.
    pub closed spec fn input_view(self) -> Seq<u32> {
        self.input@
    }

    /// The holding slots, oldest-declared first, as bit patterns.
    pub closed spec fn holding_view(self) -> Seq<u32> {
        self.holding@
    }

    /// Both slot lists have exactly their declared lengths.
    pub open spec fn wf(self) -> bool {
        self.input_view().len() == INPUT_REGISTER_COUNT && self.holding_view().len()
            == HOLDING_REGISTER_COUNT
    }

    /// A fresh table: all input slots zero; holding slots zero except the
    /// integration time, which starts at positive infinity so that the
    /// integral term is disabled until a client configures it.
    pub fn new() -> (r: Registers)
        ensures
            r.wf(),
            r.input_view() == seq![0u32, 0u32],
            r.holding_view() == seq![0u32, 0u32, F32_POS_INF_BITS, 0u32],
    {
        let mut input: Vec<u32> = Vec::new();
        input.push(0);
        input.push(0);
        let mut holding: Vec<u32> = Vec::new();
        holding.push(0);
        holding.push(0);
        holding.push(F32_POS_INF_BITS);
        holding.push(0);
        proof {
            assert(input@ =~= seq![0u32, 0u32]);
            assert(holding@ =~= seq![0u32, 0u32, F32_POS_INF_BITS, 0u32]);
        }
        Registers { input, holding }
    }

    /// Stores one value in the named input slot.
    pub fn write_input(&mut self, register: InputRegister, bits: u32)
        requires
            old(self).wf(),
        ensures
            final(self).wf(),
            final(self).input_view() == old(self).input_view().update(
                register.spec_index(),
                bits,
            ),
            final(self).holding_view() == old(self).holding_view(),
    {
        let i = register.index();
        self.input.set(i, bits);
    }

    /// Reads one value from the named holding slot.
    pub fn read_holding(&self, register: HoldingRegister) -> (r: u32)
        requires
            self.wf(),
        ensures
            r == self.holding_view()[register.spec_index()],
    {
        self.holding[register.index()]
    }

    /// Reads `count` input slots starting at slot `start`, for the external
    /// server. Succeeds exactly when the whole range lies inside the table;
    /// a range that sticks out is rejected as an address error.
    pub fn read_input_registers(&self, start: usize, count: usize) -> (r: Result<
        Vec<u32>,
        RegisterError,
    >)
        requires
            self.wf(),
        ensures
            r is Ok <==> start + count <= INPUT_REGISTER_COUNT,
            r is Ok ==> r->Ok_0@ == self.input_view().subrange(
                start as int,
                start + count,
            ),
            r is Err ==> r->Err_0 == RegisterError::Address,
    {
        if count > INPUT_REGISTER_COUNT || start > INPUT_REGISTER_COUNT - count {
            return Err(RegisterError::Address);
        }
        let mut out: Vec<u32> = Vec::new();
        let mut i: usize = 0;
        proof {
            assert(out@ =~= self.input_view().subrange(start as int, start as int));
        }
        while i < count
            invariant
                self.wf(),
                i <= count,
                start + count <= INPUT_REGISTER_COUNT,
                out@ == self.input_view().subrange(start as int, start + i),
            decreases count - i,
        {
            out.push(self.input[start + i]);
            proof {
                assert(out@ =~= self.input_view().subrange(start as int, start + i + 1));
            }
            i = i + 1;
        }
        Ok(out)
    }

    /// Reads `count` holding slots starting at slot `start`. Succeeds
    /// exactly when the whole range lies inside the table; a range that
    /// sticks out is rejected as an address error.
    pub fn read_holding_registers(&self, start: usize, count: usize) -> (r: Result<
        Vec<u32>,
        RegisterError,
    >)
        requires
            self.wf(),
        ensures
            r is Ok <==> start + count <= HOLDING_REGISTER_COUNT,
            r is Ok ==> r->Ok_0@ == self.holding_view().subrange(
                start as int,
                start + count,
            ),
            r is Err ==> r->Err_0 == RegisterError::Address,
    {
        if count > HOLDING_REGISTER_COUNT || start > HOLDING_REGISTER_COUNT - count {
            return Err(RegisterError::Address);
        }
        let mut out: Vec<u32> = Vec::new();
        let mut i: usize = 0;
        proof {
            assert(out@ =~= self.holding_view().subrange(start as int, start as int));
        }
        while i < count
            invariant
                self.wf(),
                i <= count,
                start + count <= HOLDING_REGISTER_COUNT,
                out@ == self.holding_view().subrange(start as int, start + i),
            decreases count - i,
        {
            out.push(self.holding[start + i]);
            proof {
                assert(out@ =~= self.holding_view().subrange(start as int, start + i + 1));
            }
            i = i + 1;
        }
        Ok(out)
    }

    /// Writes `values` into consecutive input slots starting at slot
    /// `start`. Succeeds exactly when the whole range lies inside the
    /// table; a range that sticks out is rejected as an address error and
    /// leaves the table unchanged.
    pub fn write_input_registers(&mut self, start: usize, values: &Vec<u32>) -> (r: Result<
        (),
        RegisterError,
    >)
        requires
            old(self).wf(),
        ensures
            final(self).wf(),
            r is Ok <==> start + values@.len() <= INPUT_REGISTER_COUNT,
            r is Ok ==> final(self).input_view() == old(self).input_view().subrange(
                0,
                start as int,
            ) + values@ + old(self).input_view().subrange(
                start + values@.len(),
                INPUT_REGISTER_COUNT as int,
            ),
            r is Err ==> r->Err_0 == RegisterError::Address && *final(self) == *old(self),
            final(self).holding_view() == old(self).holding_view(),
    {
        let count = values.len();
        if count > INPUT_REGISTER_COUNT || start > INPUT_REGISTER_COUNT - count {
            return Err(RegisterError::Address);
        }
        let mut i: usize = 0;
        proof {
            assert(self.input@ =~= old(self).input@.subrange(0, start as int) + values@.subrange(
                0,
                0,
            ) + old(self).input@.subrange(start as int, INPUT_REGISTER_COUNT as int));
        }
        while i < count
            invariant
                i <= count,
                start + count <= INPUT_REGISTER_COUNT,
                count == values@.len(),
                old(self).input@.len() == INPUT_REGISTER_COUNT,
                self.input@.len() == INPUT_REGISTER_COUNT,
                self.holding@ == old(self).holding@,
                self.input@ == old(self).input@.subrange(0, start as int) + values@.subrange(
                    0,
                    i as int,
                ) + old(self).input@.subrange(start + i, INPUT_REGISTER_COUNT as int),
            decreases count - i,
        {
            self.input.set(start + i, values[i]);
            proof {
                assert(self.input@ =~= old(self).input@.subrange(0, start as int)
                    + values@.subrange(0, i + 1) + old(self).input@.subrange(
                    start + i + 1,
                    INPUT_REGISTER_COUNT as int,
                ));
            }
            i = i + 1;
        }
        proof {
            assert(values@.subrange(0, count as int) =~= values@);
        }
        Ok(())
    }

    /// Writes `values` into consecutive holding slots starting at slot
    /// `start`, for the external server. Succeeds exactly when the whole
    /// range lies inside the table; a range that sticks out is rejected as
    /// an address error and leaves the table unchanged.
    pub fn write_holding_registers(&mut self, start: usize, values: &Vec<u32>) -> (r: Result<
        (),
        RegisterError,
    >)
        requires
            old(self).wf(),
        ensures
            final(self).wf(),
            r is Ok <==> start + values@.len() <= HOLDING_REGISTER_COUNT,
            r is Ok ==> final(self).holding_view() == old(self).holding_view().subrange(
                0,
                start as int,
            ) + values@ + old(self).holding_view().subrange(
                start + values@.len(),
                HOLDING_REGISTER_COUNT as int,
            ),
            r is Err ==> r->Err_0 == RegisterError::Address && *final(self) == *old(self),
            final(self).input_view() == old(self).input_view(),
    {
        let count = values.len();
        if count > HOLDING_REGISTER_COUNT || start > HOLDING_REGISTER_COUNT - count {
            return Err(RegisterError::Address);
        }
        let mut i: usize = 0;
        proof {
            assert(self.holding@ =~= old(self).holding@.subrange(0, start as int)
                + values@.subrange(0, 0) + old(self).holding@.subrange(
                start as int,
                HOLDING_REGISTER_COUNT as int,
            ));
        }
        while i < count
            invariant
                i <= count,
                start + count <= HOLDING_REGISTER_COUNT,
                count == values@.len(),
                old(self).holding@.len() == HOLDING_REGISTER_COUNT,
                self.holding@.len() == HOLDING_REGISTER_COUNT,
                self.input@ == old(self).input@,
                self.holding@ == old(self).holding@.subrange(0, start as int) + values@.subrange(
                    0,
                    i as int,
                ) + old(self).holding@.subrange(start + i, HOLDING_REGISTER_COUNT as int),
            decreases count - i,
        {
            self.holding.set(start + i, values[i]);
            proof {
                assert(self.holding@ =~= old(self).holding@.subrange(0, start as int)
                    + values@.subrange(0, i + 1) + old(self).holding@.subrange(
                    start + i + 1,
                    HOLDING_REGISTER_COUNT as int,
                ));
            }
            i = i + 1;
        }
        proof {
            assert(values@.subrange(0, count as int) =~= values@);
        }
        Ok(())
    }
}

} // verus!
