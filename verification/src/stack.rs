//! The 32-slot circular stack used twice by the CPU: once for data, once for
//! return addresses. The stack pointer is a signed byte whose arithmetic is
//! masked to 5 bits, so pushing past slot 31 wraps to slot 0 instead of
//! trapping; Forth programs rely on that discipline.

use vstd::prelude::*;
use vstd::arithmetic::div_mod::lemma_mod_add_multiples_vanish;
use vstd::arithmetic::div_mod::lemma_small_mod;

verus! {

/// Mathematical model of a [`Stack`]: the 32 slots and the pointer.
#[verifier::ext_equal]
pub struct StackModel {
    pub data: Seq<u16>,
    pub sp: int,
}

impl StackModel {
    /// The slots are exactly 32 and the pointer stays inside them.
    pub open spec fn wf(self) -> bool {
        self.data.len() == 32 && 0 <= self.sp < 32
    }

    /// Move the pointer by `dir`, masked to 5 bits; the slots are untouched.
    pub open spec fn mv(self, dir: int) -> StackModel {
        StackModel { data: self.data, sp: (self.sp + dir) % 32 }
    }

    /// Advance the pointer, then store `v` at the new top slot.
    pub open spec fn push(self, v: u16) -> StackModel {
        StackModel { data: self.data.update((self.sp + 1) % 32, v), sp: (self.sp + 1) % 32 }
    }

    /// Retreat the pointer; the value handed back is `peek` of the old state.
    pub open spec fn pop(self) -> StackModel {
        StackModel { data: self.data, sp: (self.sp - 1) % 32 }
    }

    /// The value at the pointer.
    pub open spec fn peek(self) -> u16 {
        self.data[self.sp]
    }

    /// Store `v` at the pointer without moving it.
    pub open spec fn replace(self, v: u16) -> StackModel {
        StackModel { data: self.data.update(self.sp, v), sp: self.sp }
    }

    /// The payload slots `1..=sp`, bottom first.
    pub open spec fn dumped(self) -> Seq<u16> {
        self.data.subrange(1, self.sp + 1)
    }
}

/// A container of exactly 32 16-bit slots with a pointer masked to 5 bits.
/// Slot 0 carries no payload: `push` pre-increments and `pop` post-decrements,
/// so a freshly pushed value always sits at `data[sp]`.
#[derive(Clone, Debug)]
pub struct Stack {
    pub data: Vec<u16>,
    pub sp: i8,
}

impl View for Stack {
    type V = StackModel;

    open spec fn view(&self) -> StackModel {
        StackModel { data: self.data@, sp: self.sp as int }
    }
}

impl Default for Stack {
    /// All 32 slots zero, pointer at slot 0.
    fn default() -> (r: Stack)
        ensures
            r@.wf(),
            r@.sp == 0,
            r@.data =~= Seq::new(32, |i: int| 0u16),
    {
        let mut data: Vec<u16> = Vec::new();
        while data.len() < 32
            invariant
                data@.len() <= 32,
                forall|i: int| 0 <= i < data@.len() ==> data@[i] == 0u16,
            decreases 32 - data@.len(),
        {
            data.push(0u16);
        }
        Stack { data, sp: 0 }
    }
}

impl Stack {
    /// `sp <- (sp + dir) & 0x1F`; no slot is read or written.
    pub fn move_sp(&mut self, dir: i8)
        requires
            old(self)@.wf(),
        ensures
            final(self)@ =~= old(self)@.mv(dir as int),
            final(self)@.wf(),
    {
        let sum: i16 = self.sp as i16 + dir as i16;
        let m: u16 = ((sum + 128) as u16) % 32;
        proof {
            lemma_mod_add_multiples_vanish((self.sp + dir) % 32, 32);
            lemma_mod_add_multiples_vanish(self.sp as int + dir as int, 32);
            assert((self.sp + dir + 128) % 32 == (self.sp + dir) % 32) by {
                lemma_mod_add_multiples_vanish(self.sp + dir + 96, 32);
                lemma_mod_add_multiples_vanish(self.sp + dir + 64, 32);
                lemma_mod_add_multiples_vanish(self.sp + dir + 32, 32);
                lemma_mod_add_multiples_vanish(self.sp + dir, 32);
            }
        }
        self.sp = m as i8;
    }

    /// Advance the pointer with wrap, then store `v` at the new top.
    pub fn push(&mut self, v: u16)
        requires
            old(self)@.wf(),
        ensures
            final(self)@ =~= old(self)@.push(v),
            final(self)@.wf(),
    {
        proof {
            if self.sp < 31 {
                lemma_small_mod((self.sp + 1) as nat, 32);
            }
        }
        self.sp = if self.sp == 31 { 0 } else { self.sp + 1 };
        self.data[self.sp as usize] = v;
    }

    /// Hand back the top value, then retreat the pointer with wrap.
    pub fn pop(&mut self) -> (r: u16)
        requires
            old(self)@.wf(),
        ensures
            r == old(self)@.peek(),
            final(self)@ =~= old(self)@.pop(),
            final(self)@.wf(),
    {
        proof {
            if self.sp > 0 {
                lemma_small_mod((self.sp - 1) as nat, 32);
            } else {
                lemma_mod_add_multiples_vanish(-1, 32);
                lemma_small_mod(31nat, 32);
            }
        }
        let sp = self.sp;
        self.sp = if self.sp == 0 { 31 } else { self.sp - 1 };
        self.data[sp as usize]
    }

    /// The top value; the pointer stays.
    pub fn peek(&self) -> (r: u16)
        requires
            self@.wf(),
        ensures
            r == self@.peek(),
    {
        self.data[self.sp as usize]
    }

    /// Overwrite the top slot with `v` without moving the pointer.
    pub fn replace(&mut self, v: u16)
        requires
            old(self)@.wf(),
        ensures
            final(self)@ =~= old(self)@.replace(v),
            final(self)@.wf(),
    {
        self.data[self.sp as usize] = v;
    }

    /// The current pointer, which doubles as the payload count.
    pub fn depth(&self) -> (r: i8)
        ensures
            r as int == self@.sp,
    {
        self.sp
    }

    /// The payload slots `1..=sp` in order, for inspection.
    pub fn dump(&self) -> (r: Vec<u16>)
        requires
            self@.wf(),
        ensures
            r@ =~= self@.dumped(),
    {
        let mut r: Vec<u16> = Vec::new();
        let mut i: usize = 1;
        while i <= self.sp as usize
            invariant
                self@.wf(),
                1 <= i <= self@.sp + 1,
                r@ =~= self@.data.subrange(1, i as int),
            decreases self@.sp + 1 - i,
        {
            r.push(self.data[i]);
            proof {
                assert(r@ =~= self@.data.subrange(1, i + 1));
            }
            i = i + 1;
        }
        r
    }
}

/// Pushing a value and popping it hands the value back and leaves the
/// pointer where it started; the slots below the old top are untouched.
pub proof fn lemma_push_pop(s: StackModel, v: u16)
    requires
        s.wf(),
    ensures
        s.push(v).peek() == v,
        s.push(v).pop().sp == s.sp,
        forall|i: int| 0 <= i < 32 && i != (s.sp + 1) % 32 ==> s.push(v).pop().data[i] == s.data[i],
{
    if s.sp < 31 {
        lemma_small_mod((s.sp + 1) as nat, 32);
        lemma_small_mod(s.sp as nat, 32);
    } else {
        lemma_small_mod(0nat, 32);
        lemma_mod_add_multiples_vanish(-1, 32);
        lemma_small_mod(31nat, 32);
    }
}

/// The state after pushing every value of `vs` in order.
pub open spec fn push_all(s: StackModel, vs: Seq<u16>) -> StackModel
    decreases vs.len(),
{
    if vs.len() == 0 {
        s
    } else {
        push_all(s.push(vs[0]), vs.drop_first())
    }
}

/// Pushing moves the pointer forward by one slot modulo 32, so a sequence of
/// pushes advances it by the length of the sequence modulo 32.
pub proof fn lemma_push_all_sp(s: StackModel, vs: Seq<u16>)
    requires
        s.wf(),
    ensures
        push_all(s, vs).wf(),
        push_all(s, vs).sp == (s.sp + vs.len()) % 32,
        push_all(s, vs).data.len() == 32,
    decreases vs.len(),
{
    if vs.len() == 0 {
        lemma_small_mod(s.sp as nat, 32);
    } else {
        lemma_push_all_sp(s.push(vs[0]), vs.drop_first());
        lemma_mod_add_multiples_vanish((s.sp + 1) % 32 + (vs.len() - 1), 32);
        assert(((s.sp + 1) % 32 + (vs.len() - 1)) % 32 == (s.sp + 1 + (vs.len() - 1)) % 32) by {
            lemma_mod_mod_vanish(s.sp + 1, vs.len() - 1);
        }
    }
}

/// `(a % 32 + b) % 32 == (a + b) % 32`.
proof fn lemma_mod_mod_vanish(a: int, b: int)
    ensures
        (a % 32 + b) % 32 == (a + b) % 32,
{
    let k = a / 32;
    assert(a == 32 * k + a % 32) by {
        vstd::arithmetic::div_mod::lemma_fundamental_div_mod(a, 32);
    }
    assert((a % 32 + b + 32 * k) % 32 == (a % 32 + b) % 32) by {
        vstd::arithmetic::div_mod::lemma_mod_multiples_vanish(k, a % 32 + b, 32);
    }
}

/// The circular stack wraps: after any 32 pushes the pointer is back where it
/// began, and the next push overwrites the slot just above it — from a fresh
/// stack, slot 1.
pub proof fn lemma_push_wrap(s: StackModel, vs: Seq<u16>, w: u16)
    requires
        s.wf(),
        vs.len() == 32,
    ensures
        push_all(s, vs).sp == s.sp,
        push_all(s, vs).push(w).sp == (s.sp + 1) % 32,
        push_all(s, vs).push(w).data[(s.sp + 1) % 32] == w,
{
    lemma_push_all_sp(s, vs);
    lemma_mod_add_multiples_vanish(s.sp, 32);
    lemma_small_mod(s.sp as nat, 32);
}

} // verus!
