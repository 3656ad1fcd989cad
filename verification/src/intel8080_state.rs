//! The machine state: registers, flags, the 64 KiB memory and the latches of
//! the board's ports, with the helpers for register pairs and the stack.
//!
//! `Machine` is the mathematical model of the state; every contract of the
//! interpreter is stated over it. All addresses are sixteen bits wide and
//! wrap, so no access can leave the memory.
use crate::condition_codes::ConditionCodes;
use vstd::prelude::*;

verus! {

/// Size of the address space in bytes.
pub const MEMORY_SIZE: usize = 0x10000;

/// First address of the video memory.
pub const VIDEO_RAM_START: usize = 0x2400;

/// One past the last address of the video memory.
pub const VIDEO_RAM_END: usize = 0x4000;

/// The sixteen-bit value with `hi` in bits 8 to 15 and `lo` in bits 0 to 7.
#[verifier::opaque]
pub open spec fn word(hi: u8, lo: u8) -> u16 {
    (hi as int * 256 + lo as int) as u16
}

/// Bits 8 to 15 of `w`.
#[verifier::opaque]
pub open spec fn high(w: u16) -> u8 {
    (w as int / 256) as u8
}

/// Bits 0 to 7 of `w`.
#[verifier::opaque]
pub open spec fn low(w: u16) -> u8 {
    (w as int % 256) as u8
}

/// `v` reduced modulo 65536: how addresses and sixteen-bit results wrap.
#[verifier::opaque]
pub open spec fn wrap16(v: int) -> u16 {
    (v % 0x10000) as u16
}

/// `v` reduced modulo 256: how eight-bit results wrap.
#[verifier::opaque]
pub open spec fn wrap8(v: int) -> u8 {
    (v % 0x100) as u8
}

/// A word is made of its two halves, and the halves of a made word are the
/// bytes it was made of.
pub proof fn lemma_word_halves(hi: u8, lo: u8, w: u16)
    ensures
        high(word(hi, lo)) == hi,
        low(word(hi, lo)) == lo,
        word(high(w), low(w)) == w,
{
    reveal(word);
    reveal(high);
    reveal(low);
}

/// Wrapping twice is wrapping once: offsets from an address add up, and an
/// offset of zero leaves it.
pub proof fn lemma_wrap16_sum(x: u16, a: int, b: int)
    ensures
        wrap16(wrap16(x + a) + b) == wrap16(x + a + b),
        wrap16(x as int) == x,
{
    reveal(wrap16);
}

/// Combines two bytes into a word, `hi` in the upper half.
pub fn make_word(hi: u8, lo: u8) -> (w: u16)
    ensures
        w == word(hi, lo),
{
    reveal(word);
    assert(((hi as u16) << 8) | (lo as u16) == (hi as u16) * 256 + (lo as u16)) by (bit_vector);
    ((hi as u16) << 8) | (lo as u16)
}

/// The upper byte of a word.
pub fn word_high(w: u16) -> (b: u8)
    ensures
        b == high(w),
{
    reveal(high);
    assert((w >> 8) == w / 256 && (w >> 8) < 256) by (bit_vector);
    (w >> 8) as u8
}

/// The lower byte of a word.
pub fn word_low(w: u16) -> (b: u8)
    ensures
        b == low(w),
        b == wrap8(w as int),
{
    reveal(low);
    reveal(wrap8);
    assert((w & 0xff) == w % 256 && (w & 0xff) < 256) by (bit_vector);
    (w & 0xff) as u8
}

/// `x + d` modulo 65536.
pub fn add16(x: u16, d: u16) -> (r: u16)
    ensures
        r == wrap16(x + d),
{
    reveal(wrap16);
    x.wrapping_add(d)
}

/// `x - d` modulo 65536.
pub fn sub16(x: u16, d: u16) -> (r: u16)
    ensures
        r == wrap16(x - d),
{
    reveal(wrap16);
    x.wrapping_sub(d)
}

/// `x + d` modulo 256.
pub fn add8(x: u8, d: u8) -> (r: u8)
    ensures
        r == wrap8(x + d),
{
    reveal(wrap8);
    x.wrapping_add(d)
}

/// `x - d` modulo 256.
pub fn sub8(x: u8, d: u8) -> (r: u8)
    ensures
        r == wrap8(x - d),
{
    reveal(wrap8);
    x.wrapping_sub(d)
}

/// The mathematical model of the machine state.
pub struct Machine {
    pub a: u8,
    pub b: u8,
    pub c: u8,
    pub d: u8,
    pub e: u8,
    pub h: u8,
    pub l: u8,
    pub sp: u16,
    pub pc: u16,
    pub condition: ConditionCodes,
    pub memory: Seq<u8>,
    pub shift_0: u8,
    pub shift_1: u8,
    pub shift_offset: u8,
    pub input_1: u8,
    pub input_2: u8,
    pub interrupts: bool,
    pub output_3: u8,
    pub output_5: u8,
    pub last_output_3: u8,
    pub last_output_5: u8,
}

impl Machine {
    /// The memory spans the whole address space and the shift offset fits in
    /// three bits.
    pub open spec fn wf(self) -> bool {
        &&& self.memory.len() == MEMORY_SIZE
        &&& self.shift_offset < 8
    }

    /// The pair B:C, B in the upper half.
    pub open spec fn bc(self) -> u16 {
        word(self.b, self.c)
    }

    /// The pair D:E, D in the upper half.
    pub open spec fn de(self) -> u16 {
        word(self.d, self.e)
    }

    /// The pair H:L, H in the upper half.
    pub open spec fn hl(self) -> u16 {
        word(self.h, self.l)
    }

    pub open spec fn with_bc(self, v: u16) -> Machine {
        Machine { b: high(v), c: low(v), ..self }
    }

    pub open spec fn with_de(self, v: u16) -> Machine {
        Machine { d: high(v), e: low(v), ..self }
    }

    pub open spec fn with_hl(self, v: u16) -> Machine {
        Machine { h: high(v), l: low(v), ..self }
    }

    /// The byte at `addr`.
    pub open spec fn read(self, addr: u16) -> u8 {
        self.memory[addr as int]
    }

    /// The state with `v` stored at `addr`.
    pub open spec fn write(self, addr: u16, v: u8) -> Machine {
        Machine { memory: self.memory.update(addr as int, v), ..self }
    }

    /// The little-endian word at `addr`; the second byte wraps to address 0
    /// after `0xFFFF`.
    pub open spec fn read_word(self, addr: u16) -> u16 {
        word(self.read(wrap16(addr + 1)), self.read(addr))
    }

    /// The state with `v` stored little-endian at `addr`.
    pub open spec fn write_word(self, addr: u16, v: u16) -> Machine {
        self.write(addr, low(v)).write(wrap16(addr + 1), high(v))
    }

    /// The state after a push of `v`: the upper byte goes to `sp - 1`, the
    /// lower to `sp - 2`, and `sp` drops by two.
    pub open spec fn pushed(self, v: u16) -> Machine {
        Machine {
            sp: wrap16(self.sp - 2),
            ..self.write(wrap16(self.sp - 1), high(v)).write(wrap16(self.sp - 2), low(v))
        }
    }

    /// The word on top of the stack.
    pub open spec fn stack_top(self) -> u16 {
        self.read_word(self.sp)
    }

    /// The state after a pop: `sp` rises by two; memory is untouched.
    pub open spec fn popped(self) -> Machine {
        Machine { sp: wrap16(self.sp + 2), ..self }
    }

    /// The state after an interrupt on `vector`: the program counter is
    /// pushed and execution continues at eight times the vector.
    pub open spec fn interrupted(self, vector: u8) -> Machine {
        Machine { pc: (8 * vector) as u16, ..self.pushed(self.pc) }
    }
}

/// The memory after a program image was loaded at address 0: the image,
/// then zeros up to the end of the address space.
pub open spec fn loaded_memory(image: Seq<u8>) -> Seq<u8> {
    Seq::new(
        MEMORY_SIZE as nat,
        |i: int|
            if i < image.len() {
                image[i]
            } else {
                0u8
            },
    )
}

/// A pop undoes a push: it yields the pushed word and restores the stack
/// pointer, whatever the stack pointer was.
pub proof fn lemma_push_then_pop(m: Machine, v: u16)
    requires
        m.wf(),
    ensures
        m.pushed(v).wf(),
        m.pushed(v).stack_top() == v,
        m.pushed(v).popped().sp == m.sp,
{
    reveal(word);
    reveal(high);
    reveal(low);
    reveal(wrap16);
    let p = m.pushed(v);
    assert(wrap16(p.sp + 1) == wrap16(m.sp - 1));
    assert(wrap16(p.sp + 2) == m.sp);
}

/// The processor and board state.
#[derive(Debug, Clone)]
pub struct StateIntel8080 {
    pub a: u8,
    pub b: u8,
    pub c: u8,
    pub d: u8,
    pub e: u8,
    pub h: u8,
    pub l: u8,
    pub sp: u16,
    pub pc: u16,
    pub condition: ConditionCodes,
    pub memory: Vec<u8>,
    /// Low half of the board's shift register.
    pub shift_0: u8,
    /// High half of the board's shift register.
    pub shift_1: u8,
    /// Offset of the window that port 3 reads from the shift register.
    pub shift_offset: u8,
    pub input_1: u8,
    pub input_2: u8,
    /// Whether interrupts are enabled.
    pub interrupts: bool,
    /// Last value written to sound port 3.
    pub output_3: u8,
    /// Last value written to sound port 5.
    pub output_5: u8,
    /// Value of port 3 that the audio side handled last.
    pub last_output_3: u8,
    /// Value of port 5 that the audio side handled last.
    pub last_output_5: u8,
}

impl View for StateIntel8080 {
    type V = Machine;

    open spec fn view(&self) -> Machine {
        Machine {
            a: self.a,
            b: self.b,
            c: self.c,
            d: self.d,
            e: self.e,
            h: self.h,
            l: self.l,
            sp: self.sp,
            pc: self.pc,
            condition: self.condition,
            memory: self.memory@,
            shift_0: self.shift_0,
            shift_1: self.shift_1,
            shift_offset: self.shift_offset,
            input_1: self.input_1,
            input_2: self.input_2,
            interrupts: self.interrupts,
            output_3: self.output_3,
            output_5: self.output_5,
            last_output_3: self.last_output_3,
            last_output_5: self.last_output_5,
        }
    }
}

impl Default for StateIntel8080 {
    /// Every register, flag and latch zero, and no memory yet: `init_mem`
    /// provides it.
    fn default() -> (state: StateIntel8080)
        ensures
            state@ == (Machine {
                a: 0,
                b: 0,
                c: 0,
                d: 0,
                e: 0,
                h: 0,
                l: 0,
                sp: 0,
                pc: 0,
                condition: ConditionCodes {
                    z: false,
                    s: false,
                    p: false,
                    cy: false,
                    ac: false,
                    pad: 0,
                },
                memory: Seq::<u8>::empty(),
                shift_0: 0,
                shift_1: 0,
                shift_offset: 0,
                input_1: 0,
                input_2: 0,
                interrupts: false,
                output_3: 0,
                output_5: 0,
                last_output_3: 0,
                last_output_5: 0,
            }),
    {
        StateIntel8080 {
            a: 0,
            b: 0,
            c: 0,
            d: 0,
            e: 0,
            h: 0,
            l: 0,
            sp: 0,
            pc: 0,
            condition: ConditionCodes::default(),
            memory: Vec::new(),
            shift_0: 0,
            shift_1: 0,
            shift_offset: 0,
            input_1: 0,
            input_2: 0,
            interrupts: false,
            output_3: 0,
            output_5: 0,
            last_output_3: 0,
            last_output_5: 0,
        }
    }
}

impl StateIntel8080 {
    /// See `Machine::wf`.
    pub open spec fn wf(&self) -> bool {
        self@.wf()
    }

    /// Whether the state is well formed: what every instruction requires.
    pub fn is_well_formed(&self) -> (ok: bool)
        ensures
            ok == self.wf(),
    {
        self.memory.len() == MEMORY_SIZE && self.shift_offset < 8
    }

    /// Replaces the memory by a zeroed address space with the program image
    /// `buf` copied to its start. Registers, flags and latches are kept.
    pub fn init_mem(&mut self, buf: &Vec<u8>)
        requires
            buf@.len() <= MEMORY_SIZE,
        ensures
            final(self)@ == (Machine { memory: loaded_memory(buf@), ..old(self)@ }),
            final(self)@.memory.len() == MEMORY_SIZE,
    {
        let mut memory: Vec<u8> = vec![0u8; MEMORY_SIZE];
        let mut i: usize = 0;
        while i < buf.len()
            invariant
                i <= buf@.len() <= MEMORY_SIZE,
                memory@.len() == MEMORY_SIZE,
                forall|k: int| 0 <= k < i ==> memory@[k] == buf@[k],
                forall|k: int| i <= k < MEMORY_SIZE ==> memory@[k] == 0,
            decreases buf@.len() - i,
        {
            memory[i] = buf[i];
            i += 1;
        }
        assert(memory@ =~= loaded_memory(buf@));
        self.memory = memory;
    }

    /// The pair B:C as one word.
    pub fn bc(&self) -> (v: u16)
        ensures
            v == self@.bc(),
    {
        make_word(self.b, self.c)
    }

    /// The pair D:E as one word.
    pub fn de(&self) -> (v: u16)
        ensures
            v == self@.de(),
    {
        make_word(self.d, self.e)
    }

    /// The pair H:L as one word.
    pub fn hl(&self) -> (v: u16)
        ensures
            v == self@.hl(),
    {
        make_word(self.h, self.l)
    }

    /// Writes `v` to the pair B:C.
    pub fn set_bc(&mut self, v: u16)
        ensures
            final(self)@ == old(self)@.with_bc(v),
    {
        self.b = word_high(v);
        self.c = word_low(v);
    }

    /// Writes `v` to the pair D:E.
    pub fn set_de(&mut self, v: u16)
        ensures
            final(self)@ == old(self)@.with_de(v),
    {
        self.d = word_high(v);
        self.e = word_low(v);
    }

    /// Writes `v` to the pair H:L.
    pub fn set_hl(&mut self, v: u16)
        ensures
            final(self)@ == old(self)@.with_hl(v),
    {
        self.h = word_high(v);
        self.l = word_low(v);
    }

    /// The byte at `addr`.
    pub fn read(&self, addr: u16) -> (v: u8)
        requires
            self.wf(),
        ensures
            v == self@.read(addr),
    {
        self.memory[addr as usize]
    }

    /// Stores `v` at `addr`.
    pub fn write(&mut self, addr: u16, v: u8)
        requires
            old(self).wf(),
        ensures
            final(self)@ == old(self)@.write(addr, v),
            final(self).wf(),
    {
        self.memory[addr as usize] = v;
    }

    /// The little-endian word at `addr`.
    pub fn read_word(&self, addr: u16) -> (v: u16)
        requires
            self.wf(),
        ensures
            v == self@.read_word(addr),
    {
        let lo = self.read(addr);
        let hi = self.read(add16(addr, 1));
        make_word(hi, lo)
    }

    /// Stores `v` little-endian at `addr`.
    pub fn write_word(&mut self, addr: u16, v: u16)
        requires
            old(self).wf(),
        ensures
            final(self)@ == old(self)@.write_word(addr, v),
            final(self).wf(),
    {
        self.write(addr, word_low(v));
        self.write(add16(addr, 1), word_high(v));
    }

    /// Pushes `v`: upper byte at `sp - 1`, lower byte at `sp - 2`, then
    /// `sp` drops by two.
    pub fn push(&mut self, v: u16)
        requires
            old(self).wf(),
        ensures
            final(self)@ == old(self)@.pushed(v),
            final(self).wf(),
    {
        self.write(sub16(self.sp, 1), word_high(v));
        self.write(sub16(self.sp, 2), word_low(v));
        self.sp = sub16(self.sp, 2);
    }

    /// Pops a word: lower byte from `sp`, upper byte from `sp + 1`, then
    /// `sp` rises by two.
    pub fn pop(&mut self) -> (v: u16)
        requires
            old(self).wf(),
        ensures
            v == old(self)@.stack_top(),
            final(self)@ == old(self)@.popped(),
            final(self).wf(),
    {
        let v = self.read_word(self.sp);
        self.sp = add16(self.sp, 2);
        v
    }

    /// Raises an interrupt on `vector`: pushes the program counter and
    /// continues at eight times the vector. The caller decides whether
    /// interrupts are enabled.
    pub fn generate_interrupt(&mut self, vector: u8)
        requires
            old(self).wf(),
        ensures
            final(self)@ == old(self)@.interrupted(vector),
            final(self).wf(),
    {
        self.push(self.pc);
        self.pc = 8 * (vector as u16);
    }
}

} // verus!
