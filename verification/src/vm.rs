use vstd::prelude::*;
use vstd::bytes::{spec_u64_from_le_bytes, u64_from_le_bytes};
use vstd::slice::slice_subrange;
use vstd::string::StringExecFns;
use crate::chunk::Chunk;
use crate::value::Value;

verus! {

/// Why a run of the machine stopped without producing a result.
///
/// An unrecognized opcode is the one condition a well-formed producer can be
/// told about in detail; the remaining variants surface producer mistakes —
/// an under-filled stack, a pool index with no entry, an instruction stream
/// that ends before a `Return` — as structured errors rather than as traps,
/// so that `interpret` is total over every chunk.
#[derive(Debug)]
pub enum InterpretError {
    /// Reserved for a future compilation stage; never produced by this core.
    Compile,
    /// An opcode byte with no registered meaning; the message names it.
    Runtime(String),
    /// `Return` was executed with nothing on the operand stack.
    StackUnderflow,
    /// A `Constant` instruction named a constant-pool index with no entry.
    InvalidConstantIndex,
    /// The instruction stream ended (or its last operand was cut short)
    /// before a `Return` was executed.
    UnexpectedEnd,
}

/// How a run of the machine over a chunk ends, at the specification level:
/// either the value that `Return` popped together with the stack it left
/// behind, or the failure that stopped the run and the stack at that moment.
pub ghost enum RunOutcome {
    Halted { value: Value, stack: Seq<Value> },
    UnknownOpcode { opcode: u8, stack: Seq<Value> },
    StackUnderflow { stack: Seq<Value> },
    InvalidConstantIndex { stack: Seq<Value> },
    UnexpectedEnd { stack: Seq<Value> },
}

/// The machine's execution relation: fetch the byte at `ip`, dispatch on it,
/// and continue until a `Return` halts the run or a failure stops it.
///
/// A `Constant` instruction (byte 0) decodes the eight operand bytes after
/// the opcode as a constant-pool index and pushes the entry they name;
/// `Return` (byte 1) pops the top of the stack and halts with it; any other
/// byte stops the run naming that byte. The stack is not drained on `Return`:
/// whatever lies below the popped value is left as it is.
pub open spec fn spec_run(code: Seq<u8>, constants: Seq<Value>, ip: int, stack: Seq<Value>)
    -> RunOutcome
    decreases code.len() - ip,
{
    if ip < 0 || ip >= code.len() {
        RunOutcome::UnexpectedEnd { stack }
    } else if code[ip] == 0 {
        if ip + 9 > code.len() {
            RunOutcome::UnexpectedEnd { stack }
        } else {
            let idx = spec_u64_from_le_bytes(code.subrange(ip + 1, ip + 9));
            if idx >= constants.len() {
                RunOutcome::InvalidConstantIndex { stack }
            } else {
                spec_run(code, constants, ip + 9, stack.push(constants[idx as int]))
            }
        }
    } else if code[ip] == 1 {
        if stack.len() == 0 {
            RunOutcome::StackUnderflow { stack }
        } else {
            RunOutcome::Halted { value: stack.last(), stack: stack.drop_last() }
        }
    } else {
        RunOutcome::UnknownOpcode { opcode: code[ip], stack }
    }
}

/// The decimal digits of `b`, most significant first, without leading zeros.
pub open spec fn spec_decimal_digits(b: u8) -> Seq<char> {
    if b < 10 {
        seq![spec_digit_char(b)]
    } else if b < 100 {
        seq![spec_digit_char(b / 10), spec_digit_char(b % 10)]
    } else {
        seq![spec_digit_char(b / 100), spec_digit_char((b / 10) % 10), spec_digit_char(b % 10)]
    }
}

/// The character for one decimal digit.
pub open spec fn spec_digit_char(d: u8) -> char {
    if d == 0 { '0' }
    else if d == 1 { '1' }
    else if d == 2 { '2' }
    else if d == 3 { '3' }
    else if d == 4 { '4' }
    else if d == 5 { '5' }
    else if d == 6 { '6' }
    else if d == 7 { '7' }
    else if d == 8 { '8' }
    else { '9' }
}

/// The exact text of the diagnostic for an unrecognized opcode byte.
pub open spec fn spec_unknown_opcode_msg(b: u8) -> Seq<char> {
    "Unknown opcode: "@ + spec_decimal_digits(b)
}

/// The one-character string for a decimal digit.
fn digit_str(d: u8) -> (s: &'static str)
    requires
        d < 10,
    ensures
        s@ == seq![spec_digit_char(d)],
{
    proof {
        reveal_strlit("0");
        reveal_strlit("1");
        reveal_strlit("2");
        reveal_strlit("3");
        reveal_strlit("4");
        reveal_strlit("5");
        reveal_strlit("6");
        reveal_strlit("7");
        reveal_strlit("8");
        reveal_strlit("9");
    }
    match d {
        0 => "0",
        1 => "1",
        2 => "2",
        3 => "3",
        4 => "4",
        5 => "5",
        6 => "6",
        7 => "7",
        8 => "8",
        _ => "9",
    }
}

/// Renders the diagnostic for an unrecognized opcode byte, naming the byte
/// in decimal.
fn unknown_opcode_message(b: u8) -> (s: String)
    ensures
        s@ == spec_unknown_opcode_msg(b),
{
    let mut s = String::from_str("Unknown opcode: ");
    if b >= 100 {
        s.append(digit_str(b / 100));
    }
    if b >= 10 {
        s.append(digit_str((b / 10) % 10));
    }
    s.append(digit_str(b % 10));
    proof {
        assert(s@ =~= spec_unknown_opcode_msg(b));
    }
    s
}

/// A stack-based virtual machine. It owns an instruction pointer and an
/// operand stack, and borrows the chunk it executes for the duration of one
/// `interpret` call, never copying or mutating it.
///
/// The machine's abstract state is its operand stack (the view of a `VM` is
/// that stack); the instruction pointer is transient, reset at the start of
/// every `interpret` call. The stack persists across calls: it is not
/// guaranteed clean on entry unless the caller keeps it so.
pub struct VM {
    ip: usize,
    stack: Vec<Value>,
}

impl View for VM {
    type V = Seq<Value>;

    closed spec fn view(&self) -> Seq<Value> {
        self.stack@
    }
}

impl VM {
    /// Creates a machine with an empty operand stack.
    pub fn new() -> (vm: VM)
        ensures
            vm@ == Seq::<Value>::empty(),
    {
        VM { ip: 0, stack: Vec::new() }
    }

    /// The operand stack, bottom first.
    pub fn stack(&self) -> (s: &Vec<Value>)
        ensures
            s@ == self@,
    {
        &self.stack
    }

    /// Executes `chunk` from the start until a `Return` halts it or a failure
    /// stops it, exactly as [`spec_run`] describes for the machine's stack on
    /// entry: on success the popped value is returned and the rest of the
    /// stack is kept; each failure maps to its [`InterpretError`] variant, an
    /// unrecognized opcode to `Runtime` with the message naming its byte.
    pub fn interpret(&mut self, chunk: &Chunk) -> (r: Result<Value, InterpretError>)
        ensures
            ({
                let outcome = spec_run(chunk@.code, chunk@.constants, 0, old(self)@);
                match outcome {
                    RunOutcome::Halted { value, stack } => {
                        &&& r matches Ok(v) && v == value
                        &&& final(self)@ == stack
                    },
                    RunOutcome::UnknownOpcode { opcode, stack } => {
                        &&& r matches Err(InterpretError::Runtime(m))
                            && m@ == spec_unknown_opcode_msg(opcode)
                        &&& final(self)@ == stack
                    },
                    RunOutcome::StackUnderflow { stack } => {
                        &&& r matches Err(InterpretError::StackUnderflow)
                        &&& final(self)@ == stack
                    },
                    RunOutcome::InvalidConstantIndex { stack } => {
                        &&& r matches Err(InterpretError::InvalidConstantIndex)
                        &&& final(self)@ == stack
                    },
                    RunOutcome::UnexpectedEnd { stack } => {
                        &&& r matches Err(InterpretError::UnexpectedEnd)
                        &&& final(self)@ == stack
                    },
                }
            }),
    {
        self.ip = 0;
        let instructions = chunk.bytes();
        loop
            invariant
                instructions@ == chunk@.code,
                self.ip <= instructions@.len(),
                spec_run(chunk@.code, chunk@.constants, self.ip as int, self@) == spec_run(
                    chunk@.code,
                    chunk@.constants,
                    0,
                    old(self)@,
                ),
            decreases instructions@.len() - self.ip,
        {
            if self.ip >= instructions.len() {
                return Err(InterpretError::UnexpectedEnd);
            }
            let instruction = instructions[self.ip];
            self.ip = self.ip + 1;
            match instruction {
                0 => {
                    if instructions.len() - self.ip < Chunk::constant_idx_size() {
                        return Err(InterpretError::UnexpectedEnd);
                    }
                    let operand = slice_subrange(
                        instructions.as_slice(),
                        self.ip,
                        self.ip + 8,
                    );
                    let idx = u64_from_le_bytes(operand);
                    let pool_size = chunk.constants().len();
                    if idx >= pool_size as u64 {
                        return Err(InterpretError::InvalidConstantIndex);
                    }
                    let constant = chunk.read_constant(self.ip);
                    self.ip = self.ip + Chunk::constant_idx_size();
                    self.stack.push(constant);
                },
                1 => {
                    match self.stack.pop() {
                        Some(value) => {
                            return Ok(value);
                        },
                        None => {
                            return Err(InterpretError::StackUnderflow);
                        },
                    }
                },
                _ => {
                    return Err(InterpretError::Runtime(unknown_opcode_message(instruction)));
                },
            }
        }
    }
}

} // verus!
