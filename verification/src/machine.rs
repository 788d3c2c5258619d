//! The fetch-decode-execute core: machine state, the sixteen-operation
//! instruction set, and a bounded run loop.

use crate::tape::Tape;
use crate::tape::TapeModel;
use vstd::prelude::*;

verus! {

/// The sixteen operations, selected by the high 4 bits of an instruction word.
#[derive(Clone, Copy, Debug, PartialEq, Eq, Structural)]
pub enum Op {
    /// No register effect; the run loop halts only on an all-zero word.
    Hlt,
    /// `acc = (acc + mem[addr]) mod 2^16`.
    Add,
    /// `acc = acc XOR mem[addr]`.
    Xor,
    /// `acc = acc AND mem[addr]`.
    And,
    /// `acc = acc OR mem[addr]`.
    Or,
    /// `acc = bitwise complement of acc` (ignores the address field).
    Not,
    /// `acc = mem[addr]`.
    Lda,
    /// `mem[addr] = acc`.
    Sta,
    /// `acc = pc mod 2^12` (the post-fetch return address), then `pc = addr`.
    Srj,
    /// If bit 15 of `acc` is set, `pc = addr`; otherwise no effect.
    Jma,
    /// `pc = addr` unconditionally.
    Jmp,
    /// Consume one byte from the input tape into `acc` (ignores the address field).
    In,
    /// Emit the low 8 bits of `acc` as one output byte (ignores the address field).
    Out,
    /// Rotate `acc` left by one bit, bit 15 reappearing in bit 0.
    Ral,
    /// `acc = cs`.
    Csa,
    /// No effect.
    Nop,
}

/// The operation field: the high 4 bits of an instruction word (0..16).
pub open spec fn op_code_of(ir: u16) -> u16 {
    ir / 0x1000
}

/// The operand address field: the low 12 bits of an instruction word (0..4096).
pub open spec fn addr_of(ir: u16) -> u16 {
    ir % 0x1000
}

/// Total decoding of the 4-bit operation field: every value 0..16 has a meaning.
pub open spec fn op_of_code(code: u16) -> Op {
    if code == 0 {
        Op::Hlt
    } else if code == 1 {
        Op::Add
    } else if code == 2 {
        Op::Xor
    } else if code == 3 {
        Op::And
    } else if code == 4 {
        Op::Or
    } else if code == 5 {
        Op::Not
    } else if code == 6 {
        Op::Lda
    } else if code == 7 {
        Op::Sta
    } else if code == 8 {
        Op::Srj
    } else if code == 9 {
        Op::Jma
    } else if code == 10 {
        Op::Jmp
    } else if code == 11 {
        Op::In
    } else if code == 12 {
        Op::Out
    } else if code == 13 {
        Op::Ral
    } else if code == 14 {
        Op::Csa
    } else {
        Op::Nop
    }
}

/// The operation an instruction word selects.
pub open spec fn op_of(ir: u16) -> Op {
    op_of_code(op_code_of(ir))
}

/// Split an instruction word into its operation and its operand address.
pub fn decode(ir: u16) -> (r: (Op, u16))
    ensures
        r.0 == op_of(ir),
        r.1 == addr_of(ir),
        r.1 < 0x1000,
{
    let code: u16 = ir / 0x1000;
    let addr: u16 = ir % 0x1000;
    let op = match code {
        0 => Op::Hlt,
        1 => Op::Add,
        2 => Op::Xor,
        3 => Op::And,
        4 => Op::Or,
        5 => Op::Not,
        6 => Op::Lda,
        7 => Op::Sta,
        8 => Op::Srj,
        9 => Op::Jma,
        10 => Op::Jmp,
        11 => Op::In,
        12 => Op::Out,
        13 => Op::Ral,
        14 => Op::Csa,
        _ => Op::Nop,
    };
    (op, addr)
}

/// Whether an operation reads or writes `mem[addr]`, so that its operand
/// address must fall inside the loaded image.
pub open spec fn touches_mem(op: Op) -> bool {
    op == Op::Add || op == Op::Xor || op == Op::And || op == Op::Or || op == Op::Lda || op
        == Op::Sta
}

/// Executable mirror of [`touches_mem`].
pub fn needs_operand(op: Op) -> (r: bool)
    ensures
        r == touches_mem(op),
{
    match op {
        Op::Add | Op::Xor | Op::And | Op::Or | Op::Lda | Op::Sta => true,
        _ => false,
    }
}

/// Mathematical view of the machine: the four registers and the word memory.
pub ghost struct MachineModel {
    /// Index of the next word to fetch.
    pub pc: nat,
    /// The most recently fetched instruction word.
    pub ir: u16,
    /// The status register: read by CSA, written by no operation in this core.
    pub cs: u16,
    /// The accumulator; all arithmetic on it wraps modulo 2^16.
    pub acc: u16,
    /// The loaded image: an ordered sequence of 16-bit words.
    pub mem: Seq<u16>,
}

/// An instruction whose operand the image must contain has its address in range.
pub open spec fn operand_in_range(m: MachineModel) -> bool {
    touches_mem(op_of(m.ir)) ==> addr_of(m.ir) < m.mem.len()
}

/// 16-bit wraparound addition: no overflow is ever signaled.
pub open spec fn wrap_add(a: u16, b: u16) -> u16 {
    ((a + b) % 0x10000) as u16
}

/// Rotate left by one bit: the vacated bit 15 reappears in bit 0 exactly
/// when it was set (a true rotate, not a plain shift).
pub open spec fn rotate_left(a: u16) -> u16 {
    if a >= 0x8000 {
        ((2 * a) % 0x10000 + 1) as u16
    } else {
        (2 * a) as u16
    }
}

/// An externally visible action requested by one executed instruction.
#[derive(Clone, Copy, Debug, PartialEq, Eq, Structural)]
pub enum Effect {
    /// Nothing to do outside the machine.
    Quiet,
    /// One byte for the output stream.
    Output(u8),
    /// IN found the tape exhausted: acquire a line, then resume the
    /// instruction through [`State::resume_input`].
    NeedInput,
}

/// What executing the instruction held in `m.ir` does: the machine and tape
/// afterwards, and the action requested of the outside.
///
/// Total over every well-formed state that satisfies [`operand_in_range`];
/// an IN on an exhausted tape changes nothing and asks for input instead.
pub open spec fn execute_model(m: MachineModel, t: TapeModel) -> (MachineModel, TapeModel, Effect) {
    let addr = addr_of(m.ir);
    match op_of(m.ir) {
        Op::Hlt => (m, t, Effect::Quiet),
        Op::Add => (
            MachineModel { acc: wrap_add(m.acc, m.mem[addr as int]), ..m },
            t,
            Effect::Quiet,
        ),
        Op::Xor => (MachineModel { acc: m.acc ^ m.mem[addr as int], ..m }, t, Effect::Quiet),
        Op::And => (MachineModel { acc: m.acc & m.mem[addr as int], ..m }, t, Effect::Quiet),
        Op::Or => (MachineModel { acc: m.acc | m.mem[addr as int], ..m }, t, Effect::Quiet),
        Op::Not => (MachineModel { acc: m.acc ^ 0xFFFF, ..m }, t, Effect::Quiet),
        Op::Lda => (MachineModel { acc: m.mem[addr as int], ..m }, t, Effect::Quiet),
        Op::Sta => (
            MachineModel { mem: m.mem.update(addr as int, m.acc), ..m },
            t,
            Effect::Quiet,
        ),
        Op::Srj => (
            MachineModel { acc: (m.pc % 0x1000) as u16, pc: addr as nat, ..m },
            t,
            Effect::Quiet,
        ),
        Op::Jma => if m.acc >= 0x8000 {
            (MachineModel { pc: addr as nat, ..m }, t, Effect::Quiet)
        } else {
            (m, t, Effect::Quiet)
        },
        Op::Jmp => (MachineModel { pc: addr as nat, ..m }, t, Effect::Quiet),
        Op::In => if t.exhausted() {
            (m, t, Effect::NeedInput)
        } else {
            (
                MachineModel { acc: t.buf[t.head as int] as u16, ..m },
                TapeModel { head: t.head + 1, ..t },
                Effect::Quiet,
            )
        },
        Op::Out => (m, t, Effect::Output((m.acc % 0x100) as u8)),
        Op::Ral => (MachineModel { acc: rotate_left(m.acc), ..m }, t, Effect::Quiet),
        Op::Csa => (MachineModel { acc: m.cs, ..m }, t, Effect::Quiet),
        Op::Nop => (m, t, Effect::Quiet),
    }
}

/// What fetching does: load `mem[pc]` into `ir` and step `pc` forward.
pub open spec fn fetch_model(m: MachineModel) -> MachineModel {
    MachineModel { ir: m.mem[m.pc as int], pc: (m.pc + 1) as nat, ..m }
}

/// What completing an IN after a refill does: the new line replaces the
/// buffer; an empty line leaves the end-of-input sentinel `acc = 0` without
/// advancing the cursor, a nonempty one hands its first byte to `acc`.
pub open spec fn resume_input_model(m: MachineModel, line: Seq<u8>) -> (MachineModel, TapeModel) {
    if line.len() == 0 {
        (MachineModel { acc: 0, ..m }, TapeModel { buf: line, head: 0 })
    } else {
        (MachineModel { acc: line[0] as u16, ..m }, TapeModel { buf: line, head: 1 })
    }
}

/// How a bounded run of the fetch-execute loop came to a stop.
#[derive(Clone, Copy, Debug, PartialEq, Eq, Structural)]
pub enum RunStatus {
    /// An all-zero instruction word was fetched: the terminal condition.
    Halted,
    /// An IN found the tape exhausted: acquire a line, resume the instruction
    /// through [`State::resume_input`], then run on.
    NeedsInput,
    /// `pc` or an operand address fell outside the loaded image: a malformed
    /// program image, unrecoverable inside the core.
    Fault,
    /// The step bound ran out before any of the above.
    OutOfFuel,
}

/// What a bounded run leaves behind: the machine and tape at the stop, the
/// bytes emitted along the way in emission order, and why it stopped.
pub ghost struct RunModel {
    pub machine: MachineModel,
    pub tape: TapeModel,
    pub output: Seq<u8>,
    pub status: RunStatus,
}

/// The fetch-execute loop, unrolled at most `fuel` steps.
///
/// Each step fetches one word; the run halts precisely when the fetched word
/// equals zero — an operation-field-0 word with a nonzero address field is a
/// no-op, not a halt. An out-of-range `pc` or operand address stops the run
/// with [`RunStatus::Fault`] before the offending access.
pub open spec fn run_model(m: MachineModel, t: TapeModel, fuel: nat) -> RunModel
    decreases fuel,
{
    if fuel == 0 {
        RunModel { machine: m, tape: t, output: Seq::<u8>::empty(), status: RunStatus::OutOfFuel }
    } else if m.pc >= m.mem.len() {
        RunModel { machine: m, tape: t, output: Seq::<u8>::empty(), status: RunStatus::Fault }
    } else {
        let fetched = fetch_model(m);
        if fetched.ir == 0 {
            RunModel {
                machine: fetched,
                tape: t,
                output: Seq::<u8>::empty(),
                status: RunStatus::Halted,
            }
        } else if !operand_in_range(fetched) {
            RunModel {
                machine: fetched,
                tape: t,
                output: Seq::<u8>::empty(),
                status: RunStatus::Fault,
            }
        } else {
            let (m2, t2, e) = execute_model(fetched, t);
            if e is NeedInput {
                RunModel {
                    machine: m2,
                    tape: t2,
                    output: Seq::<u8>::empty(),
                    status: RunStatus::NeedsInput,
                }
            } else {
                let rest = run_model(m2, t2, (fuel - 1) as nat);
                let emitted = if e is Output {
                    seq![e->Output_0]
                } else {
                    Seq::<u8>::empty()
                };
                RunModel {
                    machine: rest.machine,
                    tape: rest.tape,
                    output: emitted + rest.output,
                    status: rest.status,
                }
            }
        }
    }
}

/// Law: the run loop terminates on the all-zero word. Whenever control flow
/// has brought the machine to a state whose next fetch yields a word equal to
/// zero, the run halts right after fetching it — whatever the tape holds and
/// whatever step budget is left — leaving the registers as the fetch left
/// them and emitting nothing further.
pub proof fn lemma_halts_on_zero_word(m: MachineModel, t: TapeModel, fuel: nat)
    requires
        m.pc < m.mem.len(),
        m.mem[m.pc as int] == 0,
        fuel >= 1,
    ensures
        run_model(m, t, fuel) == (RunModel {
            machine: fetch_model(m),
            tape: t,
            output: Seq::<u8>::empty(),
            status: RunStatus::Halted,
        }),
{
}

/// Law: only the all-zero word halts. A word whose operation field is zero
/// but whose address field is not is a no-op — the step changes neither the
/// machine nor the tape and asks nothing of the outside — and the run goes on
/// past it rather than halting.
pub proof fn lemma_zero_op_word_is_noop(m: MachineModel, t: TapeModel, fuel: nat)
    requires
        m.pc < m.mem.len(),
        op_code_of(m.mem[m.pc as int]) == 0,
        m.mem[m.pc as int] != 0,
        fuel >= 1,
    ensures
        execute_model(fetch_model(m), t) == (fetch_model(m), t, Effect::Quiet),
        run_model(m, t, fuel) == run_model(fetch_model(m), t, (fuel - 1) as nat),
{
}

/// Law: the status register is read-only and memory keeps its size. No
/// operation of this core writes `cs` (it is reserved for extension), and no
/// step reallocates the image — STA updates a word in place — so a whole run,
/// however long, leaves both exactly as it found them.
pub proof fn lemma_run_preserves_status_and_image_size(m: MachineModel, t: TapeModel, fuel: nat)
    ensures
        execute_model(m, t).0.cs == m.cs,
        operand_in_range(m) ==> execute_model(m, t).0.mem.len() == m.mem.len(),
        run_model(m, t, fuel).machine.cs == m.cs,
        run_model(m, t, fuel).machine.mem.len() == m.mem.len(),
    decreases fuel,
{
    if fuel > 0 && m.pc < m.mem.len() {
        let fetched = fetch_model(m);
        if fetched.ir != 0 && operand_in_range(fetched) {
            let r = execute_model(fetched, t);
            if !(r.2 is NeedInput) {
                lemma_run_preserves_status_and_image_size(r.0, r.1, (fuel - 1) as nat);
            }
        }
    }
}

/// The machine: registers plus ownership of the word memory.
///
/// The fields are public: any combination of register values is a machine
/// state, and the per-step obligations (`pc` and operand addresses inside the
/// image) are stated where the step is taken.
pub struct State {
    /// Index of the next word to fetch.
    pub pc: usize,
    /// The most recently fetched instruction word.
    pub ir: u16,
    /// The status register.
    pub cs: u16,
    /// The accumulator.
    pub acc: u16,
    /// The word memory, sized to the loaded image.
    pub mem: Vec<u16>,
}

impl View for State {
    type V = MachineModel;

    open spec fn view(&self) -> MachineModel {
        MachineModel { pc: self.pc as nat, ir: self.ir, cs: self.cs, acc: self.acc, mem: self.mem@ }
    }
}

impl State {
    /// A machine about to fetch word 0 of the given image, all registers clear.
    pub fn new(mem: Vec<u16>) -> (s: State)
        ensures
            s@ == (MachineModel { pc: 0, ir: 0, cs: 0, acc: 0, mem: mem@ }),
    {
        State { pc: 0, ir: 0, cs: 0, acc: 0, mem }
    }

    /// Read the word at `mem[pc]` into `ir` and increment `pc` by one.
    ///
    /// A `pc` outside the loaded image is a malformed-image condition the
    /// caller must rule out before fetching.
    pub fn fetch(&mut self)
        requires
            old(self)@.pc < old(self)@.mem.len(),
        ensures
            final(self)@ == fetch_model(old(self)@),
    {
        self.ir = self.mem[self.pc];
        // mem.len() fits in usize, so the incremented pc does too
        assert(self.mem.len() == self.mem@.len());
        self.pc = self.pc + 1;
    }

    /// Apply the operation selected by `ir` to the registers, the memory and
    /// the tape, exactly as [`execute_model`] states.
    ///
    /// An operand address outside the loaded image is a malformed-image
    /// condition the caller must rule out before executing.
    pub fn execute(&mut self, tape: &mut Tape) -> (e: Effect)
        requires
            old(tape)@.wf(),
            operand_in_range(old(self)@),
        ensures
            final(tape)@.wf(),
            (final(self)@, final(tape)@, e) == execute_model(old(self)@, old(tape)@),
    {
        let (op, addr16) = decode(self.ir);
        let addr: usize = addr16 as usize;
        match op {
            Op::Hlt => Effect::Quiet,
            Op::Add => {
                let sum: u32 = self.acc as u32 + self.mem[addr] as u32;
                self.acc = (sum % 0x10000) as u16;
                Effect::Quiet
            },
            Op::Xor => {
                self.acc = self.acc ^ self.mem[addr];
                Effect::Quiet
            },
            Op::And => {
                self.acc = self.acc & self.mem[addr];
                Effect::Quiet
            },
            Op::Or => {
                self.acc = self.acc | self.mem[addr];
                Effect::Quiet
            },
            Op::Not => {
                self.acc = self.acc ^ 0xFFFF;
                Effect::Quiet
            },
            Op::Lda => {
                self.acc = self.mem[addr];
                Effect::Quiet
            },
            Op::Sta => {
                self.mem[addr] = self.acc;
                Effect::Quiet
            },
            Op::Srj => {
                self.acc = (self.pc % 0x1000) as u16;
                self.pc = addr;
                Effect::Quiet
            },
            Op::Jma => {
                if self.acc >= 0x8000 {
                    self.pc = addr;
                }
                Effect::Quiet
            },
            Op::Jmp => {
                self.pc = addr;
                Effect::Quiet
            },
            Op::In => {
                match tape.next_byte() {
                    Some(b) => {
                        self.acc = b as u16;
                        Effect::Quiet
                    },
                    None => Effect::NeedInput,
                }
            },
            Op::Out => Effect::Output((self.acc % 0x100) as u8),
            Op::Ral => {
                if self.acc >= 0x8000 {
                    let doubled: u32 = self.acc as u32 * 2;
                    self.acc = (doubled % 0x10000 + 1) as u16;
                } else {
                    self.acc = self.acc * 2;
                }
                Effect::Quiet
            },
            Op::Csa => {
                self.acc = self.cs;
                Effect::Quiet
            },
            Op::Nop => Effect::Quiet,
        }
    }

    /// Run the fetch-execute loop for at most `fuel` steps, collecting the
    /// emitted bytes, exactly as [`run_model`] states: the run halts when the
    /// fetched instruction word equals zero, pauses on [`RunStatus::NeedsInput`]
    /// for the surrounding program to acquire a line, and stops with
    /// [`RunStatus::Fault`] on an out-of-range `pc` or operand address.
    pub fn run(&mut self, tape: &mut Tape, fuel: u64) -> (r: (Vec<u8>, RunStatus))
        requires
            old(tape)@.wf(),
        ensures
            final(tape)@.wf(),
            final(self)@ == run_model(old(self)@, old(tape)@, fuel as nat).machine,
            final(tape)@ == run_model(old(self)@, old(tape)@, fuel as nat).tape,
            r.0@ == run_model(old(self)@, old(tape)@, fuel as nat).output,
            r.1 == run_model(old(self)@, old(tape)@, fuel as nat).status,
    {
        let ghost m0 = self@;
        let ghost t0 = tape@;
        let ghost total = run_model(m0, t0, fuel as nat);
        let mut out: Vec<u8> = Vec::new();
        let mut remaining: u64 = fuel;
        loop
            invariant
                tape@.wf(),
                m0 == old(self)@,
                t0 == old(tape)@,
                total == run_model(m0, t0, fuel as nat),
                total.machine == run_model(self@, tape@, remaining as nat).machine,
                total.tape == run_model(self@, tape@, remaining as nat).tape,
                total.status == run_model(self@, tape@, remaining as nat).status,
                total.output == out@ + run_model(self@, tape@, remaining as nat).output,
            decreases remaining,
        {
            if remaining == 0 {
                return (out, RunStatus::OutOfFuel);
            }
            if self.pc >= self.mem.len() {
                return (out, RunStatus::Fault);
            }
            self.fetch();
            if self.ir == 0 {
                return (out, RunStatus::Halted);
            }
            let ops = decode(self.ir);
            if needs_operand(ops.0) && ops.1 as usize >= self.mem.len() {
                return (out, RunStatus::Fault);
            }
            let e = self.execute(tape);
            match e {
                Effect::Quiet => {},
                Effect::Output(b) => {
                    out.push(b);
                },
                Effect::NeedInput => {
                    return (out, RunStatus::NeedsInput);
                },
            }
            remaining = remaining - 1;
        }
    }

    /// Complete an IN whose [`Effect::NeedInput`] the surrounding program
    /// answered by acquiring one line: install the line as the new buffer,
    /// then consume its first byte — or, if the line is empty, set the
    /// end-of-input sentinel `acc = 0` without advancing the cursor.
    pub fn resume_input(&mut self, tape: &mut Tape, line: Vec<u8>)
        ensures
            final(tape)@.wf(),
            (final(self)@, final(tape)@) == resume_input_model(old(self)@, line@),
    {
        let empty: bool = line.len() == 0;
        tape.refill(line);
        if empty {
            self.acc = 0;
        } else {
            match tape.next_byte() {
                Some(b) => {
                    self.acc = b as u16;
                },
                None => {
                    self.acc = 0;
                },
            }
        }
    }
}

} // verus!
