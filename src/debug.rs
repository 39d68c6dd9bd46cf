//! The debug bridge: what a trapped access reports to the operator, how the
//! operator's reply arms or disarms single-stepping, and the decisions of the
//! instruction-stepping loop that consults it.

use vstd::prelude::*;
use vstd::string::StrSliceExecFns;

verus! {

/// Why execution was paused for the operator.
#[derive(Clone, Copy, Debug, PartialEq, Eq, Structural)]
pub enum TrapKind {
    /// A read in the serial controller's read window.
    SerialReadWindowRead,
    /// A write in the serial controller's read window.
    SerialReadWindowWrite,
    /// A read in the serial controller's write window.
    SerialWriteWindowRead,
    /// A write in the serial controller's write window.
    SerialWriteWindowWrite,
    /// A write to the ROM seen at address zero.
    RomWriteAtZero,
    /// A write to the ROM at its fixed high alias.
    RomWriteAtAlias,
    /// Single-stepping is armed: a pause before each instruction.
    SingleStep,
}

/// A pause for the operator, with the address that caused it (the program
/// counter, for a single step).
#[derive(Clone, Copy, Debug, PartialEq, Eq, Structural)]
pub struct Trap {
    pub kind: TrapKind,
    pub addr: u32,
}

/// The text that names each kind of trap to the operator.
pub open spec fn trap_label(k: TrapKind) -> Seq<char> {
    match k {
        TrapKind::SerialReadWindowRead => "SCC_RD hardware read"@,
        TrapKind::SerialReadWindowWrite => "SCC_RD hardware write"@,
        TrapKind::SerialWriteWindowRead => "SCC_WR hardware read"@,
        TrapKind::SerialWriteWindowWrite => "SCC_WR hardware write"@,
        TrapKind::RomWriteAtZero => "write_u8 attempt to write to ROM@0"@,
        TrapKind::RomWriteAtAlias => "write_u8 attempt to write to ROM@400000"@,
        TrapKind::SingleStep => "Single-step"@,
    }
}

impl TrapKind {
    /// The label shown to the operator.
    pub fn label(&self) -> (r: &'static str)
        ensures
            r@ == trap_label(*self),
    {
        match self {
            TrapKind::SerialReadWindowRead => "SCC_RD hardware read",
            TrapKind::SerialReadWindowWrite => "SCC_RD hardware write",
            TrapKind::SerialWriteWindowRead => "SCC_WR hardware read",
            TrapKind::SerialWriteWindowWrite => "SCC_WR hardware write",
            TrapKind::RomWriteAtZero => "write_u8 attempt to write to ROM@0",
            TrapKind::RomWriteAtAlias => "write_u8 attempt to write to ROM@400000",
            TrapKind::SingleStep => "Single-step",
        }
    }
}

/// The text with leading and trailing white space removed.
pub uninterp spec fn trimmed(s: Seq<char>) -> Seq<char>;

/// Relies on `str::trim`: the reply without its surrounding white space
/// (line terminator included); the result depends on the text alone.
#[verifier::external_body]
fn trim_reply(s: &str) -> (r: &str)
    ensures
        r@ == trimmed(s@),
{
    s.trim()
}

/// Whether an operator reply asks for single-stepping: the single letter `s`
/// once surrounding white space is removed.
pub open spec fn is_single_step_reply(reply: Seq<char>) -> bool {
    trimmed(reply) == seq!['s']
}

/// Whether already trimmed reply text is the single-step command.
pub fn is_single_step_command(t: &str) -> (r: bool)
    ensures
        r == (t@ == seq!['s']),
{
    let r = t.unicode_len() == 1 && t.get_char(0) == 's';
    if r {
        assert(t@ =~= seq!['s']);
    }
    r
}

/// Whether an operator reply asks for single-stepping.
pub fn wants_single_step(reply: &str) -> (r: bool)
    ensures
        r == is_single_step_reply(reply@),
{
    is_single_step_command(trim_reply(reply))
}

/// What the stepping loop does next.
#[derive(Clone, Copy, Debug, PartialEq, Eq, Structural)]
pub enum StepAction {
    /// The cycle budget is spent or the core stopped: leave the loop.
    Stop,
    /// Execute one instruction.
    Execute,
    /// Pause for the operator, then execute one instruction.
    TrapThenExecute,
}

/// Book-keeping of one batch of instructions run against a cycle budget.
pub struct StepRun {
    cycles_left: i64,
    total: i64,
    halted: bool,
}

impl StepRun {
    /// Cycles of the budget not yet used (negative once overrun).
    pub closed spec fn spec_cycles_left(&self) -> int {
        self.cycles_left as int
    }

    /// Cycles executed so far.
    pub closed spec fn spec_total(&self) -> int {
        self.total as int
    }

    /// Whether the core reported that it executed nothing.
    pub closed spec fn spec_halted(&self) -> bool {
        self.halted
    }

    pub closed spec fn wf(&self) -> bool {
        &&& self.total >= 0
        &&& self.cycles_left > 0 ==> self.total + self.cycles_left <= i32::MAX
        &&& self.total <= 2 * (i32::MAX as int)
        &&& self.cycles_left >= i32::MIN
    }

    /// A batch with a budget of `cycles`.
    pub fn new(cycles: i32) -> (r: Self)
        ensures
            r.wf(),
            r.spec_cycles_left() == cycles,
            r.spec_total() == 0,
            !r.spec_halted(),
    {
        StepRun { cycles_left: cycles as i64, total: 0, halted: false }
    }

    /// The next thing to do: stop once the budget is spent or the core
    /// stopped; otherwise execute, pausing first when single-stepping is armed.
    pub fn next_action(&self, single_step_armed: bool) -> (r: StepAction)
        ensures
            r == (if self.spec_halted() || self.spec_cycles_left() <= 0 {
                StepAction::Stop
            } else if single_step_armed {
                StepAction::TrapThenExecute
            } else {
                StepAction::Execute
            }),
    {
        if self.halted || self.cycles_left <= 0 {
            StepAction::Stop
        } else if single_step_armed {
            StepAction::TrapThenExecute
        } else {
            StepAction::Execute
        }
    }

    /// Records that the core executed `executed` cycles; a count of zero or
    /// less means that it stopped.
    pub fn record(&mut self, executed: i32)
        requires
            old(self).wf(),
            !old(self).spec_halted(),
            old(self).spec_cycles_left() > 0,
        ensures
            final(self).wf(),
            executed <= 0 ==> final(self).spec_halted() && final(self).spec_total()
                == old(self).spec_total() && final(self).spec_cycles_left()
                == old(self).spec_cycles_left(),
            executed > 0 ==> !final(self).spec_halted() && final(self).spec_total()
                == old(self).spec_total() + executed && final(self).spec_cycles_left()
                == old(self).spec_cycles_left() - executed,
    {
        if executed <= 0 {
            self.halted = true;
        } else {
            self.cycles_left = self.cycles_left - executed as i64;
            self.total = self.total + executed as i64;
        }
    }

    /// Cycles executed so far.
    pub fn total(&self) -> (r: i64)
        ensures
            r == self.spec_total(),
    {
        self.total
    }
}

} // verus!
