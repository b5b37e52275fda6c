//! The J1 execution engine: a word-addressed memory of `MEMORY_SIZE` 16-bit
//! words, the program counter, the top-of-stack register, the data and
//! return stacks, and the console bridged in at the memory-mapped ports.
//! Every instruction executes in one cycle whose sub-steps happen in a fixed
//! order; the ordering is load-bearing and the transition specs below state
//! it exactly.

use vstd::prelude::*;
use crate::console::{Console, ConsoleModel};
use crate::errors::J1Error;
use crate::instruction::{decode, spec_decode, AluAttributes, Instruction, OpCode};
use crate::stack::{Stack, StackModel};
use crate::text::{push_str, push_hex4_upper, spec_hex4_upper};

verus! {

/// Memory size in 16-bit words: 32 KiB of byte-addressed space.
pub const MEMORY_SIZE: usize = 0x4000;

/// Byte addresses with any of these bits set are routed to I/O, not RAM.
pub const IO_MASK: u16 = 0xC000;

/// Mathematical model of a [`CPU`].
#[verifier::ext_equal]
pub struct CpuModel {
    pub mem: Seq<u16>,
    pub pc: u16,
    pub st0: u16,
    pub d: StackModel,
    pub r: StackModel,
    pub console: ConsoleModel,
}

impl CpuModel {
    /// The memory holds exactly `MEMORY_SIZE` words and the stacks and the
    /// console keep their own invariants.
    pub open spec fn wf(self) -> bool {
        &&& self.mem.len() == MEMORY_SIZE
        &&& self.d.wf()
        &&& self.r.wf()
        &&& self.console.wf()
    }
}

/// The value a read at byte address `addr` hands back: RAM when no `IO_MASK`
/// bit is set, otherwise the input port at `0x7000`, the input-available
/// flag at `0x7001`, and zero for every other port.
pub open spec fn spec_read_at_val(m: CpuModel, addr: u16) -> u16 {
    if addr & IO_MASK == 0 {
        m.mem[(addr >> 1) as int]
    } else if addr == 0x7000 {
        m.console.read_val() as u16
    } else if addr == 0x7001 {
        m.console.avail()
    } else {
        0
    }
}

/// The state after a read at `addr`: reading the input port consumes a byte;
/// every other read leaves the CPU untouched.
pub open spec fn spec_read_at_state(m: CpuModel, addr: u16) -> CpuModel {
    if addr & IO_MASK == 0 || addr != 0x7000 {
        m
    } else {
        CpuModel { console: m.console.read_state(), ..m }
    }
}

/// A write to the halt port raises the halt signal.
pub open spec fn spec_write_halts(addr: u16) -> bool {
    addr == 0x7002
}

/// The state after a write of `value` at byte address `addr`: RAM is updated
/// when no `IO_MASK` bit is set, and a write to `0x7000` emits the low byte
/// through the console. A write to the halt port changes nothing.
pub open spec fn spec_write_at_state(m: CpuModel, addr: u16, value: u16) -> CpuModel {
    let m1 = if addr & IO_MASK == 0 {
        CpuModel { mem: m.mem.update((addr >> 1) as int, value), ..m }
    } else {
        m
    };
    if addr == 0x7000 {
        CpuModel { console: m1.console.write_state(value as u8), ..m1 }
    } else {
        m1
    }
}

/// All-ones for true, zero for false: the Forth boolean convention.
pub open spec fn spec_bool_val(b: bool) -> u16 {
    if b {
        0xFFFF
    } else {
        0
    }
}

/// A 16-bit word read as a signed value.
pub open spec fn spec_signed(x: u16) -> int {
    if x >= 0x8000 {
        x - 0x10000
    } else {
        x as int
    }
}

/// The new top-of-stack value an ALU opcode computes from the current `st0`
/// (T), the second data element (N), the top of the return stack (R), and —
/// for `[T]` — a memory or port read at address T. All arithmetic wraps at
/// 16 bits; shift amounts are masked to 4 bits; comparisons yield all-ones
/// or zero.
pub open spec fn spec_new_st0_val(m: CpuModel, op: OpCode) -> u16 {
    let t = m.st0;
    let n = m.d.peek();
    let r = m.r.peek();
    match op {
        OpCode::OpT => t,
        OpCode::OpN => n,
        OpCode::OpTplusN => if t + n > 0xFFFF {
            (t + n - 0x10000) as u16
        } else {
            (t + n) as u16
        },
        OpCode::OpTandN => t & n,
        OpCode::OpTorN => t | n,
        OpCode::OpTxorN => t ^ n,
        OpCode::OpNotT => !t,
        OpCode::OpNeqT => spec_bool_val(n == t),
        OpCode::OpNleT => spec_bool_val(spec_signed(n) < spec_signed(t)),
        OpCode::OpNrshiftT => n >> (t & 0xF),
        OpCode::OpTminus1 => if t == 0 {
            0xFFFF
        } else {
            (t - 1) as u16
        },
        OpCode::OpR => r,
        OpCode::OpAtT => spec_read_at_val(m, t),
        OpCode::OpNlshiftT => n << (t & 0xF),
        OpCode::OpDepth => ((m.r.sp * 256 + m.d.sp) as u16),
        OpCode::OpNuleT => spec_bool_val(n < t),
    }
}

/// The state after computing the new top of stack: only `[T]` can change
/// anything, by consuming an input byte when T addresses the input port.
pub open spec fn spec_new_st0_state(m: CpuModel, op: OpCode) -> CpuModel {
    match op {
        OpCode::OpAtT => spec_read_at_state(m, m.st0),
        _ => m,
    }
}

/// Whether executing `ins` raises the halt signal: only the ALU store path
/// can, by writing to the halt port.
pub open spec fn spec_step_halts(m: CpuModel, ins: Instruction) -> bool {
    match ins {
        Instruction::ALU(a) => a.n2_at_t && spec_write_halts(m.st0),
        _ => false,
    }
}

/// The state after one non-halting cycle. Every instruction first counts the
/// program counter up; an ALU instruction then returns through R if asked,
/// stores N at T if asked, computes the new top of stack against the
/// pre-move stacks, moves both stack pointers, writes the old T into the new
/// top slots if asked, and finally installs the new top of stack.
pub open spec fn spec_step(m: CpuModel, ins: Instruction) -> CpuModel {
    let m1 = CpuModel { pc: (m.pc + 1) as u16, ..m };
    match ins {
        Instruction::Literal(v) => CpuModel { d: m1.d.push(m1.st0), st0: v, ..m1 },
        Instruction::Jump(t) => CpuModel { pc: t, ..m1 },
        Instruction::Call(t) => CpuModel { r: m1.r.push(m1.pc << 1), pc: t, ..m1 },
        Instruction::Conditional(t) => CpuModel {
            pc: if m1.st0 == 0 {
                t
            } else {
                m1.pc
            },
            st0: m1.d.peek(),
            d: m1.d.pop(),
            ..m1
        },
        Instruction::ALU(a) => {
            let m2 = if a.r2pc {
                CpuModel { pc: m1.r.peek() >> 1, ..m1 }
            } else {
                m1
            };
            let m3 = if a.n2_at_t {
                spec_write_at_state(m2, m2.st0, m2.d.peek())
            } else {
                m2
            };
            let v = spec_new_st0_val(m3, a.opcode);
            let m4 = spec_new_st0_state(m3, a.opcode);
            let m5 = CpuModel { d: m4.d.mv(a.d_dir as int), r: m4.r.mv(a.r_dir as int), ..m4 };
            let m6 = if a.t2n {
                CpuModel { d: m5.d.replace(m.st0), ..m5 }
            } else {
                m5
            };
            let m7 = if a.t2r {
                CpuModel { r: m6.r.replace(m.st0), ..m6 }
            } else {
                m6
            };
            CpuModel { st0: v, ..m7 }
        },
    }
}

/// The state a halting cycle leaves behind: the program counter has counted
/// up and returned through R if asked, but the store never happens and the
/// stacks and the new top of stack are never touched.
pub open spec fn spec_step_halt_state(m: CpuModel, ins: Instruction) -> CpuModel {
    let m1 = CpuModel { pc: (m.pc + 1) as u16, ..m };
    match ins {
        Instruction::ALU(a) => if a.r2pc {
            CpuModel { pc: m1.r.peek() >> 1, ..m1 }
        } else {
            m1
        },
        _ => m1,
    }
}

/// The instruction the model fetches next.
pub open spec fn spec_fetch_ins(m: CpuModel) -> Instruction {
    spec_decode(m.mem[m.pc as int])
}

/// The J1 CPU: memory, program counter, top-of-stack register, the two
/// circular stacks, and the console the memory-mapped ports talk to.
#[derive(Clone, Debug)]
pub struct CPU {
    pub memory: Vec<u16>,
    pub pc: u16,
    pub st0: u16,
    pub d: Stack,
    pub r: Stack,
    pub console: Console,
}

impl View for CPU {
    type V = CpuModel;

    open spec fn view(&self) -> CpuModel {
        CpuModel {
            mem: self.memory@,
            pc: self.pc,
            st0: self.st0,
            d: self.d@,
            r: self.r@,
            console: self.console@,
        }
    }
}

impl CPU {
    /// A fresh CPU: all memory zero, program counter and top of stack zero,
    /// both stacks zeroed, console empty.
    pub fn new() -> (r: CPU)
        ensures
            r@.wf(),
            r@.mem =~= Seq::new(MEMORY_SIZE as nat, |i: int| 0u16),
            r@.pc == 0,
            r@.st0 == 0,
            r@.d.sp == 0,
            r@.r.sp == 0,
            r@.d.data =~= Seq::new(32, |i: int| 0u16),
            r@.r.data =~= Seq::new(32, |i: int| 0u16),
            r@.console.input == Seq::<u8>::empty(),
            r@.console.pos == 0,
            r@.console.writer == Seq::<char>::empty(),
            r@.console.log == Seq::<char>::empty(),
    {
        let mut memory: Vec<u16> = Vec::new();
        while memory.len() < MEMORY_SIZE
            invariant
                memory@.len() <= MEMORY_SIZE,
                forall|i: int| 0 <= i < memory@.len() ==> memory@[i] == 0u16,
            decreases MEMORY_SIZE - memory@.len(),
        {
            memory.push(0u16);
        }
        CPU {
            memory,
            pc: 0,
            st0: 0,
            d: Stack::default(),
            r: Stack::default(),
            console: Console::new(),
        }
    }

    /// Rewind the program counter, the top of stack and both stacks; memory
    /// and console are kept.
    pub fn reset(&mut self)
        ensures
            final(self)@.pc == 0,
            final(self)@.st0 == 0,
            final(self)@.d.sp == 0,
            final(self)@.r.sp == 0,
            final(self)@.d.data =~= Seq::new(32, |i: int| 0u16),
            final(self)@.r.data =~= Seq::new(32, |i: int| 0u16),
            final(self)@.mem == old(self)@.mem,
            final(self)@.console == old(self)@.console,
    {
        self.pc = 0;
        self.st0 = 0;
        self.d = Stack::default();
        self.r = Stack::default();
    }

    /// Decode the instruction under the program counter.
    pub fn fetch(&self) -> (r: Result<Instruction, J1Error>)
        requires
            self@.wf(),
            self@.pc < MEMORY_SIZE as u16,
        ensures
            r == Ok::<Instruction, J1Error>(spec_fetch_ins(self@)),
            spec_fetch_ins(self@).wf(),
    {
        decode(self.memory[self.pc as usize])
    }

    /// Write `value` at byte address `addr`: RAM when no `IO_MASK` bit is
    /// set, the output port at `0x7000`, the halt signal at `0x7002`.
    pub fn write_at(&mut self, addr: u16, value: u16) -> (r: Result<(), J1Error>)
        requires
            old(self)@.wf(),
        ensures
            final(self)@ == spec_write_at_state(old(self)@, addr, value),
            r == if spec_write_halts(addr) {
                Err::<(), J1Error>(J1Error::Halt)
            } else {
                Ok::<(), J1Error>(())
            },
            final(self)@.wf(),
    {
        if addr & IO_MASK == 0 {
            assert((addr >> 1) < 0x4000) by (bit_vector)
                requires
                    addr & 0xC000 == 0,
            ;
            self.memory[(addr >> 1) as usize] = value;
        }
        let r = if addr == 0x7000 {
            self.console.write_char(value as u8);
            Ok(())
        } else if addr == 0x7002 {
            Err(J1Error::Halt)
        } else {
            Ok(())
        };
        proof {
            assert(self@ =~~= spec_write_at_state(old(self)@, addr, value));
        }
        r
    }

    /// Read the value at byte address `addr`: RAM when no `IO_MASK` bit is
    /// set, otherwise the port dispatch of [`spec_read_at_val`].
    pub fn read_at(&mut self, addr: u16) -> (r: u16)
        requires
            old(self)@.wf(),
        ensures
            r == spec_read_at_val(old(self)@, addr),
            final(self)@ == spec_read_at_state(old(self)@, addr),
            final(self)@.wf(),
    {
        if addr & IO_MASK == 0 {
            assert((addr >> 1) < 0x4000) by (bit_vector)
                requires
                    addr & 0xC000 == 0,
            ;
            let r = self.memory[(addr >> 1) as usize];
            proof {
                assert(self@ =~~= spec_read_at_state(old(self)@, addr));
            }
            r
        } else {
            let r = if addr == 0x7000 {
                self.console.read_byte() as u16
            } else if addr == 0x7001 {
                if self.console.pos < self.console.input.len() {
                    1
                } else {
                    0
                }
            } else {
                0
            };
            proof {
                assert(self@ =~~= spec_read_at_state(old(self)@, addr));
            }
            r
        }
    }

    /// Compute the new top-of-stack value for an ALU opcode against the
    /// current registers and pre-move stacks; `[T]` may consume one input
    /// byte when T addresses the input port.
    pub fn new_st0(&mut self, opcode: &OpCode) -> (r: u16)
        requires
            old(self)@.wf(),
        ensures
            r == spec_new_st0_val(old(self)@, *opcode),
            final(self)@ == spec_new_st0_state(old(self)@, *opcode),
            final(self)@.wf(),
    {
        let t = self.st0;
        let n = self.d.peek();
        let r = self.r.peek();
        match opcode {
            OpCode::OpT => t,
            OpCode::OpN => n,
            OpCode::OpTplusN => t.wrapping_add(n),
            OpCode::OpTandN => t & n,
            OpCode::OpTorN => t | n,
            OpCode::OpTxorN => t ^ n,
            OpCode::OpNotT => !t,
            OpCode::OpNeqT => bool_val(n == t),
            OpCode::OpNleT => {
                let res = bool_val((n as i16) < (t as i16));
                proof {
                    assert(((n as i16) < (t as i16)) == (spec_signed(n) < spec_signed(t)))
                        by (bit_vector);
                }
                res
            },
            OpCode::OpNrshiftT => {
                let sh = t & 0xF;
                assert(t & 0xF < 16) by (bit_vector);
                n >> sh
            },
            OpCode::OpTminus1 => t.wrapping_sub(1),
            OpCode::OpR => r,
            OpCode::OpAtT => self.read_at(t),
            OpCode::OpNlshiftT => {
                let sh = t & 0xF;
                assert(t & 0xF < 16) by (bit_vector);
                n << sh
            },
            OpCode::OpDepth => {
                let rd = self.r.depth() as u16;
                let dd = self.d.depth() as u16;
                proof {
                    assert(forall|a: u16, b: u16|
                        a < 32 && b < 32 ==> #[trigger] ((a << 8) | b) == a * 256 + b)
                        by (bit_vector);
                }
                (rd << 8) | dd
            },
            OpCode::OpNuleT => bool_val(n < t),
        }
    }

    /// Execute one decoded instruction: the single-cycle semantics of
    /// [`spec_step`]. The only error is the halt signal, raised exactly when
    /// the instruction stores to the halt port, and a halting cycle leaves
    /// the partial state of [`spec_step_halt_state`] behind.
    pub fn execute(&mut self, ins: &Instruction) -> (r: Result<(), J1Error>)
        requires
            old(self)@.wf(),
            old(self)@.pc < MEMORY_SIZE as u16,
        ensures
            !spec_step_halts(old(self)@, *ins) ==> r == Ok::<(), J1Error>(()) && final(self)@
                == spec_step(old(self)@, *ins),
            spec_step_halts(old(self)@, *ins) ==> r == Err::<(), J1Error>(J1Error::Halt)
                && final(self)@ == spec_step_halt_state(old(self)@, *ins),
            final(self)@.wf(),
    {
        self.pc = self.pc + 1;
        match ins {
            Instruction::Literal(v) => {
                let st0 = self.st0;
                self.d.push(st0);
                self.st0 = *v;
                proof {
                    assert(self@ =~~= spec_step(old(self)@, *ins));
                }
            },
            Instruction::Jump(v) => {
                self.pc = *v;
                proof {
                    assert(self@ =~~= spec_step(old(self)@, *ins));
                }
            },
            Instruction::Call(v) => {
                let ra = self.pc << 1;
                self.r.push(ra);
                self.pc = *v;
                proof {
                    assert(self@ =~~= spec_step(old(self)@, *ins));
                }
            },
            Instruction::Conditional(v) => {
                if self.st0 == 0 {
                    self.pc = *v;
                }
                self.st0 = self.d.pop();
                proof {
                    assert(self@ =~~= spec_step(old(self)@, *ins));
                }
            },
            Instruction::ALU(alu) => {
                if alu.r2pc {
                    self.pc = self.r.peek() >> 1;
                }
                if alu.n2_at_t {
                    let t = self.st0;
                    let n = self.d.peek();
                    match self.write_at(t, n) {
                        Ok(()) => {},
                        Err(e) => {
                            proof {
                                assert((0x7002u16 & 0xC000u16) != 0u16) by (bit_vector);
                                assert(self@ =~~= spec_step_halt_state(old(self)@, *ins));
                            }
                            return Err(e);
                        },
                    }
                }
                let st0 = self.new_st0(&alu.opcode);
                self.d.move_sp(alu.d_dir);
                self.r.move_sp(alu.r_dir);
                if alu.t2n {
                    let t_old = self.st0;
                    self.d.replace(t_old);
                }
                if alu.t2r {
                    let t_old = self.st0;
                    self.r.replace(t_old);
                }
                self.st0 = st0;
                proof {
                    assert(self@ =~~= spec_step(old(self)@, *ins));
                }
            },
        }
        Ok(())
    }
}

/// The memory after loading an image: each pair of image bytes becomes one
/// little-endian word from word address 0 up; words beyond the image keep
/// their old contents.
pub open spec fn spec_load_mem(mem: Seq<u16>, data: Seq<u8>) -> Seq<u16> {
    Seq::new(
        mem.len(),
        |i: int|
            if i < data.len() / 2 {
                (data[2 * i] + 256 * data[2 * i + 1]) as u16
            } else {
                mem[i]
            },
    )
}

/// The state right after `run` loads its script: the console input holds the
/// script with one trailing space, rewound to the start; all else is kept.
pub open spec fn spec_loaded(m: CpuModel, script: Seq<u8>) -> CpuModel {
    CpuModel {
        console: ConsoleModel {
            input: script + seq![32u8],
            pos: 0,
            writer: m.console.writer,
            log: m.console.log,
        },
        ..m
    }
}

/// The state after `n` fetch-execute cycles from `m`.
pub open spec fn spec_steps(m: CpuModel, n: nat) -> CpuModel
    decreases n,
{
    if n == 0 {
        m
    } else {
        let p = spec_steps(m, (n - 1) as nat);
        spec_step(p, spec_fetch_ins(p))
    }
}

/// Every one of the first `n` cycles from `m` fetched from a program counter
/// inside memory and did not raise the halt signal.
pub open spec fn spec_run_ok(m: CpuModel, n: nat) -> bool
    decreases n,
{
    if n == 0 {
        true
    } else {
        let p = spec_steps(m, (n - 1) as nat);
        spec_run_ok(m, (n - 1) as nat) && p.pc < MEMORY_SIZE as u16 && !spec_step_halts(
            p,
            spec_fetch_ins(p),
        )
    }
}

/// The machine `cur` is what `n` valid, non-halting fetch-execute cycles
/// from `m0` produce: [`spec_run_ok`] holds and `cur` is [`spec_steps`].
/// Opaque so that callers reason through the lemmas below.
#[verifier::opaque]
pub open spec fn spec_reached(m0: CpuModel, n: nat, cur: CpuModel) -> bool {
    spec_run_ok(m0, n) && cur == spec_steps(m0, n)
}

/// What `run` guarantees: starting from `start` with the script loaded, the
/// machine performed some number of valid, non-halting cycles, and the
/// result says how the run ended — input consumed (`Ok`), the halt port
/// written (`Halt`), the program counter outside memory, or the cycle
/// budget spent.
pub open spec fn spec_run_post(
    start: CpuModel,
    script: Seq<u8>,
    end: CpuModel,
    r: Result<(), J1Error>,
) -> bool {
    let m0 = spec_loaded(start, script);
    exists|n: nat, mn: CpuModel|
        #![trigger spec_reached(m0, n, mn)]
        {
            &&& spec_reached(m0, n, mn)
            &&& match r {
                Ok(()) => end == mn && mn.console.pos == mn.console.input.len(),
                Err(J1Error::Halt) => mn.pc < MEMORY_SIZE as u16 && spec_step_halts(
                    mn,
                    spec_fetch_ins(mn),
                ) && end == spec_step_halt_state(mn, spec_fetch_ins(mn)),
                Err(J1Error::PcOutOfRange) => mn.pc >= MEMORY_SIZE as u16 && end == mn,
                Err(J1Error::CycleLimit) => n > u64::MAX as nat && end == mn,
                _ => false,
            }
        }
}

/// Zero cycles reach the start state itself.
proof fn lemma_reached_zero(m0: CpuModel)
    ensures
        spec_reached(m0, 0, m0),
{
    reveal(spec_reached);
}

/// One more valid, non-halting cycle extends a reached state.
proof fn lemma_reached_step(m0: CpuModel, n: nat, cur: CpuModel)
    requires
        spec_reached(m0, n, cur),
        cur.pc < MEMORY_SIZE as u16,
        !spec_step_halts(cur, spec_fetch_ins(cur)),
    ensures
        spec_reached(m0, n + 1, spec_step(cur, spec_fetch_ins(cur))),
{
    reveal(spec_reached);
    assert(spec_steps(m0, n + 1) == spec_step(spec_steps(m0, n), spec_fetch_ins(spec_steps(m0, n))));
    assert(spec_run_ok(m0, n + 1));
}

/// Introduction lemmas for [`spec_run_post`], one per way a run can end;
/// they supply the cycle-count witness.
proof fn lemma_run_post_ok(start: CpuModel, script: Seq<u8>, end: CpuModel, n: nat)
    requires
        spec_reached(spec_loaded(start, script), n, end),
        end.console.pos == end.console.input.len(),
    ensures
        spec_run_post(start, script, end, Ok(())),
{
}

proof fn lemma_run_post_halt(start: CpuModel, script: Seq<u8>, mn: CpuModel, end: CpuModel, n: nat)
    requires
        spec_reached(spec_loaded(start, script), n, mn),
        mn.pc < MEMORY_SIZE as u16,
        spec_step_halts(mn, spec_fetch_ins(mn)),
        end == spec_step_halt_state(mn, spec_fetch_ins(mn)),
    ensures
        spec_run_post(start, script, end, Err(J1Error::Halt)),
{
}

proof fn lemma_run_post_pc(start: CpuModel, script: Seq<u8>, end: CpuModel, n: nat)
    requires
        spec_reached(spec_loaded(start, script), n, end),
        end.pc >= MEMORY_SIZE as u16,
    ensures
        spec_run_post(start, script, end, Err(J1Error::PcOutOfRange)),
{
}

proof fn lemma_run_post_budget(start: CpuModel, script: Seq<u8>, end: CpuModel, n: nat)
    requires
        spec_reached(spec_loaded(start, script), n, end),
        n > u64::MAX as nat,
    ensures
        spec_run_post(start, script, end, Err(J1Error::CycleLimit)),
{
}

impl CPU {
    /// Interpret `data` as little-endian 16-bit words and place them in
    /// memory from word address 0. An image with an odd byte count or one
    /// that does not fit in memory is rejected and nothing changes.
    pub fn load_bytes(&mut self, data: &Vec<u8>) -> (r: Result<(), J1Error>)
        requires
            old(self)@.wf(),
        ensures
            data@.len() % 2 != 0 ==> r == Err::<(), J1Error>(J1Error::OddImageLength)
                && final(self)@ == old(self)@,
            data@.len() % 2 == 0 && data@.len() / 2 >= MEMORY_SIZE ==> r == Err::<(), J1Error>(
                J1Error::ImageTooBig,
            ) && final(self)@ == old(self)@,
            data@.len() % 2 == 0 && data@.len() / 2 < MEMORY_SIZE ==> r == Ok::<(), J1Error>(())
                && final(self)@ == (CpuModel { mem: spec_load_mem(old(self)@.mem, data@), ..old(self)@ }),
            final(self)@.wf(),
    {
        if data.len() % 2 != 0 {
            return Err(J1Error::OddImageLength);
        }
        let size = data.len() / 2;
        if size >= MEMORY_SIZE {
            return Err(J1Error::ImageTooBig);
        }
        let mut i: usize = 0;
        while i < size
            invariant
                0 <= i <= size,
                size == data@.len() / 2,
                size < MEMORY_SIZE,
                data@.len() % 2 == 0,
                self.memory@.len() == MEMORY_SIZE,
                forall|j: int|
                    0 <= j < i ==> self.memory@[j] == data@[2 * j] + 256 * data@[2 * j + 1],
                forall|j: int| i <= j < MEMORY_SIZE ==> self.memory@[j] == old(self)@.mem[j],
                self.pc == old(self).pc,
                self.st0 == old(self).st0,
                self.d@ == old(self)@.d,
                self.r@ == old(self)@.r,
                self.console@ == old(self)@.console,
            decreases size - i,
        {
            let w = read_u16_le(data, i);
            self.memory[i] = w;
            i = i + 1;
        }
        proof {
            assert(self@ =~~= (CpuModel { mem: spec_load_mem(old(self)@.mem, data@), ..old(self)@ }));
        }
        Ok(())
    }

    /// Feed `commands` plus one trailing space to the console, then run
    /// fetch-execute cycles until the input is consumed, the program halts,
    /// the program counter leaves memory, or the cycle budget — practically
    /// inexhaustible — is spent. [`spec_run_post`] relates the outcome to
    /// the cycles taken.
    pub fn run(&mut self, commands: Vec<u8>) -> (r: Result<(), J1Error>)
        requires
            old(self)@.wf(),
            old(self)@.pc < MEMORY_SIZE as u16,
            commands@.len() < usize::MAX,
        ensures
            spec_run_post(old(self)@, commands@, final(self)@, r),
            final(self)@.wf(),
    {
        let ghost start: CpuModel = old(self)@;
        let ghost script: Seq<u8> = commands@;
        let mut cmds = commands;
        cmds.push(32u8);  // trailing space: the Forth end-of-line hint
        self.console.load(&mut cmds);
        let ghost m0: CpuModel = spec_loaded(start, script);
        proof {
            assert(self@ =~~= m0);
            lemma_reached_zero(m0);
        }
        let mut cycles: u64 = 0;
        loop
            invariant
                self@.wf(),
                spec_reached(m0, cycles as nat, self@),
                m0 == spec_loaded(start, script),
                start == old(self)@,
                script == commands@,
            decreases u64::MAX - cycles,
        {
            if self.pc >= MEMORY_SIZE as u16 {
                proof {
                    lemma_run_post_pc(start, script, self@, cycles as nat);
                }
                return Err(J1Error::PcOutOfRange);
            }
            let ghost prev: CpuModel = self@;
            let ins = match self.fetch() {
                Ok(i) => i,
                Err(e) => {
                    return Err(e);  // unreachable: every word decodes
                },
            };
            match self.execute(&ins) {
                Ok(()) => {},
                Err(e) => {
                    proof {
                        lemma_run_post_halt(start, script, prev, self@, cycles as nat);
                    }
                    return Err(e);
                },
            }
            proof {
                lemma_reached_step(m0, cycles as nat, prev);
            }
            if cycles == u64::MAX {
                proof {
                    lemma_run_post_budget(start, script, self@, (cycles + 1) as nat);
                }
                return Err(J1Error::CycleLimit);
            }
            cycles = cycles + 1;
            if self.console.pos == self.console.input.len() {
                proof {
                    lemma_run_post_ok(start, script, self@, cycles as nat);
                }
                return Ok(());
            }
        }
    }
}

/// Relies on byteorder's `LittleEndian::read_u16` (the `ByteOrder` trait):
/// it reads the first two bytes of the slice as an unsigned 16-bit integer,
/// least significant byte first, and the two-byte slice passed here makes
/// its length precondition hold.
#[verifier::external_body]
fn read_u16_le(data: &Vec<u8>, i: usize) -> (r: u16)
    requires
        2 * i + 1 < data@.len(),
    ensures
        r == data@[2 * i as int] + 256 * data@[2 * i as int + 1],
{
    <byteorder::LittleEndian as byteorder::ByteOrder>::read_u16(&data[2 * i..2 * i + 2])
}

/// The `IO_MASK` test in plain arithmetic: an address reaches RAM exactly
/// when it lies below `0x4000`.
pub proof fn lemma_io_mask_ram(addr: u16)
    ensures
        (addr & IO_MASK == 0) == (addr < 0x4000),
{
    assert((addr & 0xC000 == 0) == (addr < 0x4000)) by (bit_vector);
}

/// The two memory-access laws of the I/O bridge: a RAM address — one with no
/// `IO_MASK` bit set — reads back exactly what was written at it, and a
/// write to any address outside RAM leaves RAM untouched.
pub proof fn lemma_write_read_ram(m: CpuModel, addr: u16, value: u16)
    requires
        m.wf(),
    ensures
        addr & IO_MASK == 0 ==> spec_read_at_val(spec_write_at_state(m, addr, value), addr)
            == value,
        addr & IO_MASK != 0 ==> spec_write_at_state(m, addr, value).mem == m.mem,
{
    if addr & IO_MASK == 0 {
        assert((addr >> 1) < 0x4000) by (bit_vector)
            requires
                addr & 0xC000 == 0,
        ;
    }
}

/// An ALU instruction that moves neither stack pointer and has every side
/// effect flag clear leaves both stacks exactly as they were, and its new
/// top of stack is a pure function of the old top of stack, the two stack
/// tops and depths, and — for `[T]` — the memory word at T; no such
/// instruction touches memory or the console ports except `[T]` aimed at a
/// port, which the second clause leaves out.
pub proof fn lemma_pure_alu(m: CpuModel, a: AluAttributes)
    requires
        m.wf(),
        a.d_dir == 0,
        a.r_dir == 0,
        !a.r2pc,
        !a.t2n,
        !a.t2r,
        !a.n2_at_t,
    ensures
        spec_step(m, Instruction::ALU(a)).d == m.d,
        spec_step(m, Instruction::ALU(a)).r == m.r,
        spec_step(m, Instruction::ALU(a)).mem == m.mem,
        spec_step(m, Instruction::ALU(a)).st0 == spec_new_st0_val(m, a.opcode),
{
    vstd::arithmetic::div_mod::lemma_small_mod(m.d.sp as nat, 32);
    vstd::arithmetic::div_mod::lemma_small_mod(m.r.sp as nat, 32);
    assert(m.d.mv(0) =~= m.d);
    assert(m.r.mv(0) =~= m.r);
}

/// The new top of stack such a pure ALU instruction computes is determined
/// by T, N, R, the two depths, and the memory word at T alone: two states
/// agreeing on those, with T addressing RAM when the opcode is `[T]`,
/// compute the same value.
pub proof fn lemma_new_st0_depends(m1: CpuModel, m2: CpuModel, op: OpCode)
    requires
        m1.wf(),
        m2.wf(),
        m1.st0 == m2.st0,
        m1.d.peek() == m2.d.peek(),
        m1.r.peek() == m2.r.peek(),
        m1.d.sp == m2.d.sp,
        m1.r.sp == m2.r.sp,
        op == OpCode::OpAtT ==> m1.st0 & IO_MASK == 0 && m1.mem[(m1.st0 >> 1) as int] == m2.mem[(
        m2.st0 >> 1) as int],
    ensures
        spec_new_st0_val(m1, op) == spec_new_st0_val(m2, op),
{
}


/// One assembly dump row: the byte address and the memory word in
/// upper-case hexadecimal, then the decoded mnemonic, comma-separated.
pub open spec fn spec_asm_row(mem: Seq<u16>, addr: u16) -> Seq<char> {
    "0x"@ + spec_hex4_upper(addr) + ",0x"@ + spec_hex4_upper(mem[(addr >> 1) as int]) + ","@
        + spec_decode(mem[(addr >> 1) as int]).spec_show()
}

/// One AST dump row: as [`spec_asm_row`], with the verbose rendering.
pub open spec fn spec_ast_row(mem: Seq<u16>, addr: u16) -> Seq<char> {
    "0x"@ + spec_hex4_upper(addr) + ",0x"@ + spec_hex4_upper(mem[(addr >> 1) as int]) + ","@
        + spec_decode(mem[(addr >> 1) as int]).spec_display()
}

/// How many rows a dump over `[start, end]` emits: one per even step of two
/// from `start` below `end + 2`.
pub open spec fn spec_row_count(start: u16, end: u16) -> int {
    if start >= end + 2 {
        0
    } else {
        (end + 2 - start + 1) / 2
    }
}

impl CPU {
    /// Disassemble memory over the byte addresses `[addr_start, addr_end]`,
    /// stepping by two: a header row, then one [`spec_asm_row`] per address.
    pub fn dump_asm(&self, addr_start: u16, addr_end: u16) -> (r: Vec<String>)
        requires
            self@.wf(),
            addr_end <= 0x7FFD,
        ensures
            r@.len() == 1 + spec_row_count(addr_start, addr_end),
            r@[0]@ == "Address,Value,Instruction"@,
            forall|k: int|
                0 <= k < spec_row_count(addr_start, addr_end) ==> #[trigger] r@[k + 1]@
                    == spec_asm_row(self@.mem, (addr_start + 2 * k) as u16),
    {
        self.dump_rows(addr_start, addr_end, false)
    }

    /// Dump memory over `[addr_start, addr_end]` in the verbose AST form: a
    /// header row, then one [`spec_ast_row`] per address.
    pub fn dump_ast(&self, addr_start: u16, addr_end: u16) -> (r: Vec<String>)
        requires
            self@.wf(),
            addr_end <= 0x7FFD,
        ensures
            r@.len() == 1 + spec_row_count(addr_start, addr_end),
            r@[0]@ == "Address,Value,Instruction"@,
            forall|k: int|
                0 <= k < spec_row_count(addr_start, addr_end) ==> #[trigger] r@[k + 1]@
                    == spec_ast_row(self@.mem, (addr_start + 2 * k) as u16),
    {
        self.dump_rows(addr_start, addr_end, true)
    }

    /// The shared dump loop; `ast` picks the verbose rendering.
    fn dump_rows(&self, addr_start: u16, addr_end: u16, ast: bool) -> (r: Vec<String>)
        requires
            self@.wf(),
            addr_end <= 0x7FFD,
        ensures
            r@.len() == 1 + spec_row_count(addr_start, addr_end),
            r@[0]@ == "Address,Value,Instruction"@,
            forall|k: int|
                0 <= k < spec_row_count(addr_start, addr_end) ==> #[trigger] r@[k + 1]@ == (if ast {
                    spec_ast_row(self@.mem, (addr_start + 2 * k) as u16)
                } else {
                    spec_asm_row(self@.mem, (addr_start + 2 * k) as u16)
                }),
    {
        let mut xs: Vec<String> = Vec::new();
        let mut header = String::new();
        push_str(&mut header, "Address,Value,Instruction");
        xs.push(header);
        let mut addr: u16 = addr_start;
        let ghost mut k: int = 0;
        while addr < addr_end + 2
            invariant
                self@.wf(),
                addr_end <= 0x7FFD,
                0 <= k,
                addr == addr_start + 2 * k,
                k == 0 || addr <= addr_end + 3,
                xs@.len() == 1 + k,
                xs@[0]@ == "Address,Value,Instruction"@,
                forall|j: int|
                    0 <= j < k ==> #[trigger] xs@[j + 1]@ == (if ast {
                        spec_ast_row(self@.mem, (addr_start + 2 * j) as u16)
                    } else {
                        spec_asm_row(self@.mem, (addr_start + 2 * j) as u16)
                    }),
            decreases addr_end + 3 - addr,
        {
            assert(addr <= 0x7FFE ==> (addr >> 1) < 0x4000) by (bit_vector);
            let v = self.memory[(addr >> 1) as usize];
            let ins = match decode(v) {
                Ok(i) => i,
                Err(_) => Instruction::Jump(0),  // unreachable: every word decodes
            };
            let mut row = String::new();
            push_str(&mut row, "0x");
            push_hex4_upper(&mut row, addr);
            push_str(&mut row, ",0x");
            push_hex4_upper(&mut row, v);
            push_str(&mut row, ",");
            let rendered = if ast {
                ins.display()
            } else {
                ins.show()
            };
            push_str(&mut row, rendered.as_str());
            proof {
                if ast {
                    assert(row@ =~= spec_ast_row(self@.mem, addr));
                } else {
                    assert(row@ =~= spec_asm_row(self@.mem, addr));
                }
            }
            xs.push(row);
            addr = addr + 2;
            proof {
                k = k + 1;
            }
        }
        proof {
            if addr_start >= addr_end + 2 {
                assert(k == 0);
            } else {
                let c = addr_end + 2 - addr_start;
                assert(c <= 2 * k <= c + 1);
                assert(k == (c + 1) / 2) by (nonlinear_arith)
                    requires
                        c <= 2 * k <= c + 1,
                        0 <= k,
                ;
            }
        }
        xs
    }
}

/// All-ones for true, zero for false.
fn bool_val(b: bool) -> (r: u16)
    ensures
        r == spec_bool_val(b),
{
    if b {
        0xFFFF
    } else {
        0
    }
}

} // verus!
