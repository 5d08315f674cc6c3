//! The fieldbus-style server's request handling: reading input registers
//! out as wire words and writing holding registers in from wire words,
//! with every address and word count validated against the table before
//! any slot is touched. The network transport lives in the unverified
//! shell and hands requests in as plain values.

use vstd::prelude::*;

use crate::registers::Registers;
use crate::wire::{
    bits_of_wire_words,
    decode_wire_words,
    encode_wire_words,
    wire_word_first,
    wire_word_second,
};

verus! {

/// A request the server understands, already parsed off the transport:
/// a register address and a count or payload in 16-bit wire words. Any
/// other protocol function arrives as `Unsupported`.
#[derive(Debug)]
pub enum Request {
    ReadInputRegisters(u16, u16),
    WriteMultipleRegisters(u16, Vec<u16>),
    Unsupported,
}

/// A successful reply: the wire words read, or the address and word count
/// written.
#[derive(Debug)]
pub enum Response {
    ReadInputRegisters(Vec<u16>),
    WriteMultipleRegisters(u16, u16),
}

/// The protocol exception a rejected request maps to.
#[derive(Clone, Copy, PartialEq, Eq, Structural, Debug)]
pub enum ExceptionCode {
    IllegalFunction,
    IllegalDataAddress,
    IllegalDataValue,
}

/// A sequence of registers laid out as wire words: two words per register,
/// low-order word first.
pub open spec fn words_of_registers(regs: Seq<u32>) -> Seq<u16> {
    Seq::new(
        (2 * regs.len()) as nat,
        |i: int|
            if i % 2 == 0 {
                wire_word_first(regs[i / 2])
            } else {
                wire_word_second(regs[i / 2])
            },
    )
}

/// A sequence of wire words read back as registers, two words each.
pub open spec fn registers_of_words(words: Seq<u16>) -> Seq<u32> {
    Seq::new((words.len() / 2) as nat, |i: int| bits_of_wire_words(words[2 * i], words[2 * i + 1]))
}

/// What handling one request against the given table contents must
/// return. A read of an odd word count or of a range outside the input
/// slots is an address error; a write of an odd word count is a value
/// error, one outside the holding slots an address error; any other
/// function is an illegal function. A successful read returns the slots'
/// wire words; a successful write acknowledges the address and word
/// count.
pub open spec fn result_matches(
    input: Seq<u32>,
    holding: Seq<u32>,
    request: Request,
    result: Result<Response, ExceptionCode>,
) -> bool {
    match request {
        Request::ReadInputRegisters(addr, count) => {
            if count % 2 != 0 || addr + count / 2 > input.len() {
                result == Err::<Response, ExceptionCode>(ExceptionCode::IllegalDataAddress)
            } else {
                result matches Ok(Response::ReadInputRegisters(words)) && words@
                    == words_of_registers(input.subrange(addr as int, addr + count / 2))
            }
        },
        Request::WriteMultipleRegisters(addr, words) => {
            if words@.len() % 2 != 0 {
                result == Err::<Response, ExceptionCode>(ExceptionCode::IllegalDataValue)
            } else if addr + words@.len() / 2 > holding.len() {
                result == Err::<Response, ExceptionCode>(ExceptionCode::IllegalDataAddress)
            } else {
                result == Ok::<Response, ExceptionCode>(
                    Response::WriteMultipleRegisters(addr, words@.len() as u16),
                )
            }
        },
        Request::Unsupported => result == Err::<Response, ExceptionCode>(
            ExceptionCode::IllegalFunction,
        ),
    }
}

/// The holding slots after one request: only a valid write changes them,
/// splicing its decoded registers in at its address.
pub open spec fn holding_after(holding: Seq<u32>, request: Request) -> Seq<u32> {
    match request {
        Request::WriteMultipleRegisters(addr, words) => {
            if words@.len() % 2 == 0 && addr + words@.len() / 2 <= holding.len() {
                holding.subrange(0, addr as int) + registers_of_words(words@) + holding.subrange(
                    addr + words@.len() / 2,
                    holding.len() as int,
                )
            } else {
                holding
            }
        },
        _ => holding,
    }
}

/// The holding slots after the first `n` of a sequence of requests.
pub open spec fn holding_after_prefix(holding: Seq<u32>, requests: Seq<Request>, n: int) -> Seq<
    u32,
>
    decreases n,
{
    if n <= 0 {
        holding
    } else {
        holding_after(holding_after_prefix(holding, requests, n - 1), requests[n - 1])
    }
}

/// The register server. It owns no state of its own: each request works
/// on the shared register table it is handed.
pub struct Server {}

impl Server {
    pub fn new() -> (r: Server) {
        Server {}
    }

    /// Handles one request against the table: validates it, performs the
    /// read or write, and builds the reply, exactly as `result_matches`
    /// and `holding_after` state. The input slots are never written here.
    pub fn handle_request(&self, registers: &mut Registers, request: &Request) -> (r: Result<
        Response,
        ExceptionCode,
    >)
        requires
            old(registers).wf(),
        ensures
            final(registers).wf(),
            final(registers).input_view() == old(registers).input_view(),
            result_matches(
                old(registers).input_view(),
                old(registers).holding_view(),
                *request,
                r,
            ),
            final(registers).holding_view() == holding_after(
                old(registers).holding_view(),
                *request,
            ),
    {
        match request {
            Request::ReadInputRegisters(addr, count) => {
                let addr: u16 = *addr;
                let count: u16 = *count;
                if count % 2 != 0 {
                    return Err(ExceptionCode::IllegalDataAddress);
                }
                let reg_count: usize = (count / 2) as usize;
                match registers.read_input_registers(addr as usize, reg_count) {
                    Err(_) => Err(ExceptionCode::IllegalDataAddress),
                    Ok(values) => {
                        let mut words: Vec<u16> = Vec::new();
                        let mut i: usize = 0;
                        proof {
                            assert(words@ =~= words_of_registers(values@.subrange(0, 0)));
                        }
                        while i < values.len()
                            invariant
                                i <= values@.len(),
                                words@ == words_of_registers(values@.subrange(0, i as int)),
                            decreases values@.len() - i,
                        {
                            let (first, second) = encode_wire_words(values[i]);
                            words.push(first);
                            words.push(second);
                            proof {
                                assert(words@ =~= words_of_registers(
                                    values@.subrange(0, i + 1),
                                ));
                            }
                            i = i + 1;
                        }
                        proof {
                            assert(values@.subrange(0, values@.len() as int) =~= values@);
                        }
                        Ok(Response::ReadInputRegisters(words))
                    },
                }
            },
            Request::WriteMultipleRegisters(addr, words) => {
                let addr: u16 = *addr;
                if words.len() % 2 != 0 {
                    return Err(ExceptionCode::IllegalDataValue);
                }
                let half: usize = words.len() / 2;
                let mut values: Vec<u32> = Vec::new();
                let mut i: usize = 0;
                proof {
                    assert(words@.len() == words.len());
                    vstd::arithmetic::div_mod::lemma_fundamental_div_mod(words@.len() as int, 2);
                    assert(values@ =~= registers_of_words(words@).subrange(0, 0));
                }
                while i < half
                    invariant
                        i <= half,
                        half == words@.len() / 2,
                        2 * half == words@.len(),
                        words@.len() <= usize::MAX,
                        words@.len() % 2 == 0,
                        values@ == registers_of_words(words@).subrange(0, i as int),
                    decreases half - i,
                {
                    let bits = decode_wire_words(words[2 * i], words[2 * i + 1]);
                    values.push(bits);
                    proof {
                        assert(values@ =~= registers_of_words(words@).subrange(0, i + 1));
                    }
                    i = i + 1;
                }
                proof {
                    assert(registers_of_words(words@).subrange(
                        0,
                        registers_of_words(words@).len() as int,
                    ) =~= registers_of_words(words@));
                }
                match registers.write_holding_registers(addr as usize, &values) {
                    Err(_) => Err(ExceptionCode::IllegalDataAddress),
                    Ok(()) => Ok(Response::WriteMultipleRegisters(addr, (half * 2) as u16)),
                }
            },
            Request::Unsupported => Err(ExceptionCode::IllegalFunction),
        }
    }

    /// Serves a whole sequence of requests in order against the table,
    /// collecting each reply: each request sees the holding slots as the
    /// requests before it left them.
    pub fn run(&self, registers: &mut Registers, requests: &Vec<Request>) -> (r: Vec<
        Result<Response, ExceptionCode>,
    >)
        requires
            old(registers).wf(),
        ensures
            final(registers).wf(),
            final(registers).input_view() == old(registers).input_view(),
            r@.len() == requests@.len(),
            forall|j: int|
                0 <= j < requests@.len() ==> result_matches(
                    old(registers).input_view(),
                    holding_after_prefix(old(registers).holding_view(), requests@, j),
                    requests@[j],
                    r@[j],
                ),
            final(registers).holding_view() == holding_after_prefix(
                old(registers).holding_view(),
                requests@,
                requests@.len() as int,
            ),
    {
        let mut results: Vec<Result<Response, ExceptionCode>> = Vec::new();
        let mut i: usize = 0;
        while i < requests.len()
            invariant
                old(registers).wf(),
                registers.wf(),
                i <= requests@.len(),
                results@.len() == i,
                registers.input_view() == old(registers).input_view(),
                registers.holding_view() == holding_after_prefix(
                    old(registers).holding_view(),
                    requests@,
                    i as int,
                ),
                forall|j: int|
                    0 <= j < i ==> result_matches(
                        old(registers).input_view(),
                        holding_after_prefix(old(registers).holding_view(), requests@, j),
                        requests@[j],
                        results@[j],
                    ),
            decreases requests@.len() - i,
        {
            let result = self.handle_request(registers, &requests[i]);
            results.push(result);
            i = i + 1;
        }
        results
    }
}

} // verus!
