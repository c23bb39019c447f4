use vstd::prelude::*;

use crate::display::{rendered, Screen};
use crate::memory::{
    address_at, address_fits, video_offset, Fault, Memory, BANK, FULL_MEMORY, INPUT, MEMORY, PC,
};

verus! {

/// Micro-steps in one frame.
pub const STEPS_PER_FRAME: usize = 0x10000;

/// The address that makes the micro-step at `pc` fault, if any. The three fields
/// `src`, `dst`, `next` are read first, in that order; then the byte at `src` is
/// read and the byte at `dst` written.
pub open spec fn step_fault(m: Seq<u8>, pc: int) -> Option<int> {
    if !address_fits(pc) {
        Some(pc)
    } else if !address_fits(pc + 3) {
        Some(pc + 3)
    } else if !address_fits(pc + 6) {
        Some(pc + 6)
    } else if address_at(m, pc) >= FULL_MEMORY {
        Some(address_at(m, pc))
    } else if address_at(m, pc + 3) >= FULL_MEMORY {
        Some(address_at(m, pc + 3))
    } else {
        None
    }
}

/// The store after the micro-step at `pc`: the byte at `src` copied to `dst`.
pub open spec fn step_memory(m: Seq<u8>, pc: int) -> Seq<u8> {
    m.update(address_at(m, pc + 3), m[address_at(m, pc)])
}

/// Where control goes after the micro-step at `pc`: its `next` field, as read
/// before the copy lands.
pub open spec fn step_next(m: Seq<u8>, pc: int) -> int {
    address_at(m, pc + 6)
}

/// The outcome of `n` micro-steps from `pc`: the store, the program counter, and
/// the address of the fault that stopped them early, if one did.
pub open spec fn run_steps(m: Seq<u8>, pc: int, n: nat) -> (Seq<u8>, int, Option<int>)
    decreases n,
{
    if n == 0 {
        (m, pc, None)
    } else {
        match step_fault(m, pc) {
            Some(a) => (m, pc, Some(a)),
            None => run_steps(step_memory(m, pc), step_next(m, pc), (n - 1) as nat),
        }
    }
}

/// The store with a keyboard bitmask written big-endian into the input register.
pub open spec fn with_input(m: Seq<u8>, value: u16) -> Seq<u8> {
    m.update(INPUT as int, (value / 256) as u8).update(INPUT + 1, (value % 256) as u8)
}

/// Running the same number of micro-steps twice from the same store and program
/// counter ends in the same store, program counter and fault.
pub proof fn lemma_run_deterministic(m1: Seq<u8>, m2: Seq<u8>, pc: int, n: nat)
    requires
        m1 == m2,
    ensures
        run_steps(m1, pc, n) == run_steps(m2, pc, n),
{
}

/// A micro-step that does not fault changes the byte at `dst` alone, to the byte
/// at `src`; when `src` and `dst` are the same it changes nothing.
pub proof fn lemma_copy(m: Seq<u8>, pc: int)
    requires
        m.len() == FULL_MEMORY,
        step_fault(m, pc) is None,
    ensures
        ({
            let src = address_at(m, pc);
            let dst = address_at(m, pc + 3);
            let post = run_steps(m, pc, 1).0;
            &&& post.len() == m.len()
            &&& post[dst] == m[src]
            &&& forall|i: int| 0 <= i < m.len() && i != dst ==> #[trigger] post[i] == m[i]
            &&& src == dst ==> post == m
        }),
{
    let src = address_at(m, pc);
    let dst = address_at(m, pc + 3);
    assert(run_steps(step_memory(m, pc), step_next(m, pc), 0) == (
        step_memory(m, pc),
        step_next(m, pc),
        None::<int>,
    ));
    if src == dst {
        assert(m.update(dst, m[src]) =~= m);
    }
}

/// A micro-step whose `dst` lies in its own nine bytes still jumps to the `next`
/// field as it was before the copy.
pub proof fn lemma_next_read_before_copy(m: Seq<u8>, pc: int)
    requires
        m.len() == FULL_MEMORY,
        step_fault(m, pc) is None,
        pc <= address_at(m, pc + 3) <= pc + 8,
    ensures
        run_steps(m, pc, 1).1 == address_at(m, pc + 6),
        run_steps(m, pc, 1).2 is None,
{
    assert(run_steps(step_memory(m, pc), step_next(m, pc), 0) == (
        step_memory(m, pc),
        step_next(m, pc),
        None::<int>,
    ));
}

/// From a 24-bit program counter no micro-step faults: every field and operand is a
/// 24-bit address, and the store reaches eight bytes past the address space.
pub proof fn lemma_in_space_never_faults(m: Seq<u8>, pc: int, n: nat)
    requires
        m.len() == FULL_MEMORY,
        0 <= pc < MEMORY,
    ensures
        run_steps(m, pc, n).2 is None,
        run_steps(m, pc, n).0.len() == FULL_MEMORY,
    decreases n,
{
    if n > 0 {
        assert(step_fault(m, pc) is None) by {
            lemma_address_in_space(m, pc);
            lemma_address_in_space(m, pc + 3);
        }
        lemma_address_in_space(m, pc + 6);
        lemma_in_space_never_faults(step_memory(m, pc), step_next(m, pc), (n - 1) as nat);
    }
}

proof fn lemma_address_in_space(m: Seq<u8>, a: int)
    requires
        m.len() == FULL_MEMORY,
        0 <= a && a + 2 < FULL_MEMORY,
    ensures
        0 <= address_at(m, a) < MEMORY,
{
    let (x, y, z) = (m[a] as int, m[a + 1] as int, m[a + 2] as int);
    assert(0 <= x * 0x10000 + y * 0x100 + z < 0x1000000) by (nonlinear_arith)
        requires
            0 <= x < 256,
            0 <= y < 256,
            0 <= z < 256,
    ;
}

/// One micro-step at `pc`: copy one byte, then jump. Returns the next program counter.
pub fn step(memory: &mut Memory, pc: usize) -> (r: Result<usize, Fault>)
    requires
        old(memory).wf(),
    ensures
        final(memory).wf(),
        match step_fault(old(memory)@, pc as int) {
            Some(a) => r == Err::<usize, Fault>(Fault { address: a as usize }) && final(memory)@
                == old(memory)@,
            None => r == Ok::<usize, Fault>(step_next(old(memory)@, pc as int) as usize)
                && final(memory)@ == step_memory(old(memory)@, pc as int),
        },
{
    let src = match memory.get_value_at(pc) {
        Ok(v) => v,
        Err(f) => return Err(f),
    };
    let dst = match memory.get_value_at(pc + 3) {
        Ok(v) => v,
        Err(f) => return Err(f),
    };
    let next = match memory.get_value_at(pc + 6) {
        Ok(v) => v,
        Err(f) => return Err(f),
    };
    let byte = match memory.read_byte(src) {
        Ok(b) => b,
        Err(f) => return Err(f),
    };
    match memory.write_byte(dst, byte) {
        Ok(()) => Ok(next),
        Err(f) => Err(f),
    }
}

/// Runs `steps` micro-steps from `pc`, stopping at the first fault. Returns the
/// program counter reached.
pub fn run(memory: &mut Memory, pc: usize, steps: usize) -> (r: Result<usize, Fault>)
    requires
        old(memory).wf(),
    ensures
        final(memory).wf(),
        final(memory)@ == run_steps(old(memory)@, pc as int, steps as nat).0,
        match run_steps(old(memory)@, pc as int, steps as nat).2 {
            Some(a) => r == Err::<usize, Fault>(Fault { address: a as usize }),
            None => r == Ok::<usize, Fault>(run_steps(old(memory)@, pc as int, steps as nat).1 as usize),
        },
{
    let mut cur = pc;
    let mut i: usize = 0;
    while i < steps
        invariant
            i <= steps,
            memory.wf(),
            run_steps(memory@, cur as int, (steps - i) as nat) == run_steps(
                old(memory)@,
                pc as int,
                steps as nat,
            ),
        decreases steps - i,
    {
        match step(memory, cur) {
            Ok(next) => {
                cur = next;
            },
            Err(f) => {
                return Err(f);
            },
        }
        i = i + 1;
    }
    Ok(cur)
}

/// The executor: a store, the frame it last rendered, and its step budget.
pub struct Cpu {
    memory: Memory,
    screen: Screen,
    budget: usize,
}

impl Cpu {
    /// The store.
    pub closed spec fn mem(&self) -> Seq<u8> {
        self.memory@
    }

    /// The frame last rendered.
    pub closed spec fn shown(&self) -> Seq<crate::display::Rgb> {
        self.screen@
    }

    /// Micro-steps per frame.
    pub closed spec fn steps(&self) -> nat {
        self.budget as nat
    }

    pub open spec fn wf(&self) -> bool {
        self.mem().len() == FULL_MEMORY && self.shown().len() == BANK
    }

    /// An executor that runs `STEPS_PER_FRAME` micro-steps per frame.
    pub fn new(memory: Memory, screen: Screen) -> (c: Cpu)
        requires
            memory.wf(),
            screen.wf(),
        ensures
            c.wf(),
            c.mem() == memory@,
            c.shown() == screen@,
            c.steps() == STEPS_PER_FRAME,
    {
        Cpu { memory, screen, budget: STEPS_PER_FRAME }
    }

    /// An executor that runs `budget` micro-steps per frame.
    pub fn with_budget(memory: Memory, screen: Screen, budget: usize) -> (c: Cpu)
        requires
            memory.wf(),
            screen.wf(),
        ensures
            c.wf(),
            c.mem() == memory@,
            c.shown() == screen@,
            c.steps() == budget,
    {
        Cpu { memory, screen, budget }
    }

    /// Runs one frame's batch from the program counter seed, then renders the
    /// selected video bank. A fault would stop the batch and keep the frame shown,
    /// but a 24-bit seed never leads to one.
    pub fn tick(&mut self) -> (r: Result<(), Fault>)
        requires
            old(self).wf(),
        ensures
            r is Ok,
            final(self).wf(),
            final(self).steps() == old(self).steps(),
            final(self).mem() == run_steps(
                old(self).mem(),
                address_at(old(self).mem(), PC as int),
                old(self).steps(),
            ).0,
            match run_steps(
                old(self).mem(),
                address_at(old(self).mem(), PC as int),
                old(self).steps(),
            ).2 {
                Some(a) => r == Err::<(), Fault>(Fault { address: a as usize })
                    && final(self).shown() == old(self).shown(),
                None => r == Ok::<(), Fault>(()) && final(self).shown() == rendered(
                    final(self).mem().subrange(
                        video_offset(final(self).mem()),
                        video_offset(final(self).mem()) + BANK,
                    ),
                ),
            },
    {
        let pc = match self.memory.get_value_at(PC) {
            Ok(v) => v,
            Err(f) => return Err(f),
        };
        proof {
            lemma_address_in_space(self.memory@, PC as int);
            lemma_in_space_never_faults(self.memory@, pc as int, self.budget as nat);
        }
        match run(&mut self.memory, pc, self.budget) {
            Ok(_) => {
                self.screen.update(self.memory.get_video_data());
                Ok(())
            },
            Err(f) => Err(f),
        }
    }

    /// Writes a keyboard bitmask big-endian into the input register.
    pub fn process_input(&mut self, value: u16)
        requires
            old(self).wf(),
        ensures
            final(self).wf(),
            final(self).steps() == old(self).steps(),
            final(self).shown() == old(self).shown(),
            final(self).mem() == with_input(old(self).mem(), value),
    {
        let _ = self.memory.write_byte(INPUT, (value / 256) as u8);
        let _ = self.memory.write_byte(INPUT + 1, (value % 256) as u8);
    }

    /// One frame: the pending bitmask, if any, goes to the input register, then
    /// the batch runs.
    pub fn run_frame(&mut self, input: Option<u16>) -> (r: Result<(), Fault>)
        requires
            old(self).wf(),
        ensures
            r is Ok,
            final(self).wf(),
            final(self).steps() == old(self).steps(),
            ({
                let m = match input {
                    Some(v) => with_input(old(self).mem(), v),
                    None => old(self).mem(),
                };
                let (m2, _, f) = run_steps(m, address_at(m, PC as int), old(self).steps());
                &&& final(self).mem() == m2
                &&& match f {
                    Some(a) => r == Err::<(), Fault>(Fault { address: a as usize })
                        && final(self).shown() == old(self).shown(),
                    None => r == Ok::<(), Fault>(()) && final(self).shown() == rendered(
                        m2.subrange(video_offset(m2), video_offset(m2) + BANK),
                    ),
                }
            }),
    {
        if let Some(v) = input {
            self.process_input(v);
        }
        self.tick()
    }

    /// The store.
    pub fn memory(&self) -> (m: &Memory)
        ensures
            m@ == self.mem(),
    {
        &self.memory
    }

    /// The frame last rendered.
    pub fn screen(&self) -> (s: &Screen)
        ensures
            s@ == self.shown(),
    {
        &self.screen
    }
}

} // verus!
