use vstd::prelude::*;

use crate::utils::{extract_5_bits, field5};

verus! {

/// One call frame as the contracts see it: its shared and its local slots.
pub struct FrameView {
    pub shared: Seq<u32>,
    pub local: Seq<u32>,
}

/// The register file as the contracts see it: the global slots and the
/// stack of frames, the top one last.
pub struct RegsView {
    pub globals: Seq<u32>,
    pub frames: Seq<FrameView>,
}

/// A frame whose slots are all zero.
pub open spec fn zero_frame() -> FrameView {
    FrameView { shared: Seq::new(8, |i: int| 0u32), local: Seq::new(8, |i: int| 0u32) }
}

impl RegsView {
    /// How many frames are on the stack.
    pub open spec fn depth(self) -> nat {
        self.frames.len()
    }

    /// Eight globals, at least two frames, eight slots of each kind in each.
    pub open spec fn wf(self) -> bool {
        &&& self.globals.len() == 8
        &&& self.frames.len() >= 2
        &&& forall|i: int|
            0 <= i < self.frames.len() ==> (#[trigger] self.frames[i]).shared.len() == 8
                && self.frames[i].local.len() == 8
    }

    /// The top frame.
    pub open spec fn top(self) -> FrameView {
        self.frames[self.frames.len() - 1]
    }

    /// The frame below the top one.
    pub open spec fn below(self) -> FrameView {
        self.frames[self.frames.len() - 2]
    }

    /// What register `r` reads: zero for register 0, a global for 1 to 7,
    /// the top frame's shared slots for 8 to 15, and the local then the shared
    /// slots of the frame below it for 16 to 23 and 24 to 31.
    pub open spec fn read(self, r: u8) -> u32 {
        if r == 0 {
            0
        } else if r < 8 {
            self.globals[r as int]
        } else if r < 16 {
            self.top().shared[r - 8]
        } else if r < 24 {
            self.below().local[r - 16]
        } else if r < 32 {
            self.below().shared[r - 24]
        } else {
            0
        }
    }

    /// The register file after `v` was written to register `r`; a write to
    /// register 0 lands in its global slot, which no read shows.
    pub open spec fn write(self, r: u8, v: u32) -> RegsView {
        let d = self.frames.len();
        if r < 8 {
            RegsView { globals: self.globals.update(r as int, v), ..self }
        } else if r < 16 {
            RegsView {
                frames: self.frames.update(
                    d - 1,
                    FrameView { shared: self.top().shared.update(r - 8, v), ..self.top() },
                ),
                ..self
            }
        } else if r < 24 {
            RegsView {
                frames: self.frames.update(
                    d - 2,
                    FrameView { local: self.below().local.update(r - 16, v), ..self.below() },
                ),
                ..self
            }
        } else if r < 32 {
            RegsView {
                frames: self.frames.update(
                    d - 2,
                    FrameView { shared: self.below().shared.update(r - 24, v), ..self.below() },
                ),
                ..self
            }
        } else {
            self
        }
    }

    /// The register file after a call: a zeroed frame on top.
    pub open spec fn call(self) -> RegsView {
        RegsView { frames: self.frames.push(zero_frame()), ..self }
    }

    /// The register file after a return: the top frame gone.
    pub open spec fn ret(self) -> RegsView {
        RegsView { frames: self.frames.drop_last(), ..self }
    }
}

#[derive(Clone, Copy)]
struct LocalSet {
    shared: [u32; 8],
    local: [u32; 8],
}

impl LocalSet {
    fn new() -> (r: Self)
        ensures
            r.shared@ == zero_frame().shared,
            r.local@ == zero_frame().local,
    {
        let r = LocalSet { shared: [0; 8], local: [0; 8] };
        assert(r.shared@ =~= zero_frame().shared);
        assert(r.local@ =~= zero_frame().local);
        r
    }
}

/// The register file: eight global slots and a stack of overlapping windows.
pub struct Registers {
    globals: [u32; 8],
    // the top frame's shared slots are r8..=15; the frame below it holds the
    // caller's locals (r16..=23) and the slots shared with it (r24..=31)
    locals: Vec<LocalSet>,
}

impl View for Registers {
    type V = RegsView;

    closed spec fn view(&self) -> RegsView {
        RegsView {
            globals: self.globals@,
            frames: self.locals@.map_values(
                |f: LocalSet| FrameView { shared: f.shared@, local: f.local@ },
            ),
        }
    }
}

impl Registers {
    /// The register file as `new` makes it.
    pub open spec fn new_view() -> RegsView {
        RegsView {
            globals: Seq::new(8, |i: int| 0u32),
            frames: seq![zero_frame(), zero_frame()],
        }
    }

    /// All registers zero, two frames deep.
    pub fn new() -> (r: Self)
        ensures
            r@ == Self::new_view(),
            r@.wf(),
    {
        let mut locals: Vec<LocalSet> = Vec::new();
        locals.push(LocalSet::new());
        locals.push(LocalSet::new());
        let r = Registers { globals: [0; 8], locals };
        assert(r@.globals =~= Self::new_view().globals);
        assert(r@.frames =~= Self::new_view().frames);
        r
    }

    /// How many frames are on the stack.
    pub fn depth(&self) -> (r: usize)
        ensures
            r == self@.depth(),
    {
        self.locals.len()
    }

    /// Pushes a zeroed frame: the former top frame's slots move from
    /// registers 8 to 15 to 24 to 31.
    pub fn call(&mut self)
        requires
            old(self)@.wf(),
        ensures
            final(self)@ == old(self)@.call(),
            final(self)@.wf(),
    {
        self.locals.push(LocalSet::new());
        assert(self@.frames =~= old(self)@.call().frames);
    }

    /// Pops the top frame; the two frames made by `new` stay.
    pub fn ret(&mut self)
        requires
            old(self)@.wf(),
            old(self)@.depth() > 2,
        ensures
            final(self)@ == old(self)@.ret(),
            final(self)@.wf(),
    {
        self.locals.pop();
        assert(self@.frames =~= old(self)@.ret().frames);
    }

    /// What register `rs` reads.
    pub fn read(&self, rs: RegisterSelector) -> (r: u32)
        requires
            self@.wf(),
        ensures
            r == self@.read(rs@),
    {
        let r = rs.inner();
        let n = self.locals.len();
        if r == 0 {
            0
        } else if r < 8 {
            self.globals[r as usize]
        } else if r < 16 {
            self.locals[n - 1].shared[r as usize - 8]
        } else if r < 24 {
            self.locals[n - 2].local[r as usize - 16]
        } else {
            self.locals[n - 2].shared[r as usize - 24]
        }
    }

    /// Writes `v` to register `rs`.
    pub fn write(&mut self, rs: RegisterSelector, v: u32)
        requires
            old(self)@.wf(),
        ensures
            final(self)@ == old(self)@.write(rs@, v),
            final(self)@.wf(),
    {
        let r = rs.inner();
        let n = self.locals.len();
        if r < 8 {
            self.globals[r as usize] = v;
            assert(self@.globals =~= old(self)@.write(rs@, v).globals);
        } else if r < 16 {
            let mut set = self.locals[n - 1];
            set.shared[r as usize - 8] = v;
            self.locals.set(n - 1, set);
        } else if r < 24 {
            let mut set = self.locals[n - 2];
            set.local[r as usize - 16] = v;
            self.locals.set(n - 2, set);
        } else {
            let mut set = self.locals[n - 2];
            set.shared[r as usize - 24] = v;
            self.locals.set(n - 2, set);
        }
        assert(self@.frames =~= old(self)@.write(rs@, v).frames);
    }
}

/// A register number, always below 32.
#[derive(Clone, Copy, PartialEq, Eq, Structural, Debug)]
pub struct RegisterSelector(u8);

impl View for RegisterSelector {
    type V = u8;

    closed spec fn view(&self) -> u8 {
        self.0
    }
}

impl RegisterSelector {
    #[verifier::type_invariant]
    spec fn inv(&self) -> bool {
        self.0 < 32
    }

    /// The always-zero register.
    pub fn zero() -> (r: Self)
        ensures
            r@ == 0,
    {
        RegisterSelector(0)
    }

    /// The register that holds the program counter.
    pub fn pc() -> (r: Self)
        ensures
            r@ == 2,
    {
        RegisterSelector(2)
    }

    /// Register `r`, where `r` names one.
    pub fn new(r: u8) -> (res: Option<Self>)
        ensures
            res is Some <==> r < 32,
            res is Some ==> res->0@ == r,
    {
        if r < 32 {
            Some(RegisterSelector(r))
        } else {
            None
        }
    }

    /// The register number.
    pub fn inner(&self) -> (r: u8)
        ensures
            r == self@,
            r < 32,
    {
        proof {
            use_type_invariant(self);
        }
        self.0
    }

    /// The destination field of an instruction word (bits 4 to 8).
    pub fn rd(i: u32) -> (r: Self)
        ensures
            r@ == field5(i, 4),
    {
        RegisterSelector(extract_5_bits(i, 4) as u8)
    }

    /// The first source field of an instruction word (bits 14 to 18).
    pub fn rs1(i: u32) -> (r: Self)
        ensures
            r@ == field5(i, 14),
    {
        RegisterSelector(extract_5_bits(i, 14) as u8)
    }

    /// The second source field of an instruction word (bits 19 to 23).
    pub fn rs2(i: u32) -> (r: Self)
        ensures
            r@ == field5(i, 19),
    {
        RegisterSelector(extract_5_bits(i, 19) as u8)
    }

    /// The third source field of an instruction word (bits 24 to 28).
    pub fn rs3(i: u32) -> (r: Self)
        ensures
            r@ == field5(i, 24),
    {
        RegisterSelector(extract_5_bits(i, 24) as u8)
    }
}

/// The register file after each `(register, value)` of `writes` in turn was written.
pub open spec fn write_all(regs: RegsView, writes: Seq<(u8, u32)>) -> RegsView
    decreases writes.len(),
{
    if writes.len() == 0 {
        regs
    } else {
        write_all(regs, writes.drop_last()).write(writes.last().0, writes.last().1)
    }
}

/// Register 0 reads zero after any sequence of writes.
pub proof fn lemma_zero_register(regs: RegsView, writes: Seq<(u8, u32)>)
    ensures
        write_all(regs, writes).read(0) == 0,
{
}

/// A call followed by a return leaves the register file as it was.
pub proof fn lemma_call_ret(regs: RegsView)
    ensures
        regs.call().ret() == regs,
        regs.call().depth() == regs.depth() + 1,
{
    assert(regs.call().ret().frames =~= regs.frames);
}

/// Register selectors with the same number are the same.
pub proof fn lemma_selector_eq(a: RegisterSelector, b: RegisterSelector)
    requires
        a@ == b@,
    ensures
        a == b,
{
}

} // verus!
