//! What the trap handlers do: none of them returns to what it interrupted.

use vstd::prelude::*;

verus! {

/// The end of a trap that cannot be recovered from: the message is reported
/// and the machine halts for good.
#[derive(Clone, Copy, Debug, PartialEq, Eq, Structural)]
pub enum FatalTrap {
    /// A vector without a handler of its own was raised.
    UnhandledInterrupt,
    /// A page fault.
    PageFault,
    /// A double fault.
    DoubleFault,
    /// A breakpoint trap.
    Breakpoint,
}

impl FatalTrap {
    /// The message reported before the machine halts.
    pub fn message(&self) -> (text: &'static str)
        ensures
            text@ == match *self {
                FatalTrap::UnhandledInterrupt => "Unhandled interrupt"@,
                FatalTrap::PageFault => "Page fault"@,
                FatalTrap::DoubleFault => "Double fault"@,
                FatalTrap::Breakpoint => "Breakpoint"@,
            },
    {
        match self {
            FatalTrap::UnhandledInterrupt => "Unhandled interrupt",
            FatalTrap::PageFault => "Page fault",
            FatalTrap::DoubleFault => "Double fault",
            FatalTrap::Breakpoint => "Breakpoint",
        }
    }
}

/// Handler of every vector without a handler of its own.
pub fn default_handler() -> (trap: FatalTrap)
    ensures
        trap == FatalTrap::UnhandledInterrupt,
{
    FatalTrap::UnhandledInterrupt
}

/// Handler of the page fault.
pub fn page_fault() -> (trap: FatalTrap)
    ensures
        trap == FatalTrap::PageFault,
{
    FatalTrap::PageFault
}

/// Handler of the double fault.
pub fn double_fault() -> (trap: FatalTrap)
    ensures
        trap == FatalTrap::DoubleFault,
{
    FatalTrap::DoubleFault
}

/// Handler of the breakpoint trap.
pub fn breakpoint() -> (trap: FatalTrap)
    ensures
        trap == FatalTrap::Breakpoint,
{
    FatalTrap::Breakpoint
}

} // verus!
