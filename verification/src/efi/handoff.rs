//! The one reference to the firmware's system table, published once.

use vstd::prelude::*;

verus! {

/// Where the firmware's system table lies, once the boot entry has
/// published it. It is published at most once and never changes afterwards;
/// until then it is unset.
pub struct FirmwareHandoff {
    /// Address of the system table; zero while none is published.
    table: usize,
}

/// A second publication was refused: a system table is already in place.
#[derive(Clone, Copy, Debug, PartialEq, Eq, Structural)]
pub struct AlreadyRegistered {
    /// The address that was published first and stays published.
    pub current: usize,
}

/// The handoff state after an attempt to publish `system_table`: a state
/// that was set stays as it was, and an unset one takes the address, unless
/// the address is null, which publishes nothing.
pub open spec fn after_register(state: Option<usize>, system_table: usize) -> Option<usize> {
    match state {
        Some(current) => Some(current),
        None => if system_table == 0 {
            None
        } else {
            Some(system_table)
        },
    }
}

impl FirmwareHandoff {
    /// The published address, or `None` while the state is unset.
    pub closed spec fn view(&self) -> Option<usize> {
        if self.table == 0 {
            None
        } else {
            Some(self.table)
        }
    }

    /// A published address is never null.
    pub proof fn lemma_published_not_null(&self)
        ensures
            self@ matches Some(table) ==> table != 0,
    {
    }

    /// The unset state that the boot sequence starts from.
    pub fn new() -> (handoff: Self)
        ensures
            handoff@ is None,
    {
        FirmwareHandoff { table: 0 }
    }

    /// The published system table, or `None` where the firmware's services
    /// are not available.
    pub fn current(&self) -> (table: Option<usize>)
        ensures
            table == self@,
    {
        if self.table == 0 {
            None
        } else {
            Some(self.table)
        }
    }
}

/// Publishes `system_table` as the firmware's system table. Only an unset
/// state takes it; a state that is set refuses, reports the address it
/// holds, and keeps it.
pub fn register_system_table(handoff: &mut FirmwareHandoff, system_table: usize) -> (r: Result<
    (),
    AlreadyRegistered,
>)
    ensures
        final(handoff)@ == after_register(old(handoff)@, system_table),
        match old(handoff)@ {
            None => r is Ok,
            Some(current) => r == Err::<(), AlreadyRegistered>(AlreadyRegistered { current }),
        },
{
    if handoff.table == 0 {
        handoff.table = system_table;
        Ok(())
    } else {
        Err(AlreadyRegistered { current: handoff.table })
    }
}

/// Once a system table is published, every later attempt leaves it in place.
pub proof fn lemma_first_registration_stays(first: usize, second: usize)
    requires
        first != 0,
    ensures
        after_register(None, first) == Some(first),
        after_register(after_register(None, first), second) == Some(first),
{
}

} // verus!
