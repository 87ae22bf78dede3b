//! Interrupt causes and the handler identifiers the kernel hands out.
use vstd::prelude::*;

verus! {

/// A cause of interrupt of the interrupt controller.
#[derive(Clone, Copy, Debug, PartialEq, Eq, Structural)]
pub enum InterruptType {
    Gs,
    VBlankStart,
    VBlankEnd,
    Vif0,
    Vif1,
    Vu0,
    Vu1,
    Ipu,
    Timer0,
    Timer1,
    Timer2,
    SFifo,
    Vu0Watchdog,
}

impl InterruptType {
    pub open spec fn spec_code(self) -> i32 {
        match self {
            InterruptType::Gs => 0,
            InterruptType::VBlankStart => 2,
            InterruptType::VBlankEnd => 3,
            InterruptType::Vif0 => 4,
            InterruptType::Vif1 => 5,
            InterruptType::Vu0 => 6,
            InterruptType::Vu1 => 7,
            InterruptType::Ipu => 8,
            InterruptType::Timer0 => 9,
            InterruptType::Timer1 => 10,
            InterruptType::Timer2 => 11,
            InterruptType::SFifo => 13,
            InterruptType::Vu0Watchdog => 14,
        }
    }

    /// The cause number the kernel knows the interrupt by.
    pub fn code(&self) -> (c: i32)
        ensures
            c == self.spec_code(),
    {
        match self {
            InterruptType::Gs => 0,
            InterruptType::VBlankStart => 2,
            InterruptType::VBlankEnd => 3,
            InterruptType::Vif0 => 4,
            InterruptType::Vif1 => 5,
            InterruptType::Vu0 => 6,
            InterruptType::Vu1 => 7,
            InterruptType::Ipu => 8,
            InterruptType::Timer0 => 9,
            InterruptType::Timer1 => 10,
            InterruptType::Timer2 => 11,
            InterruptType::SFifo => 13,
            InterruptType::Vu0Watchdog => 14,
        }
    }
}

/// A registered interrupt handler.
#[derive(Clone, Copy, Debug, PartialEq, Eq, Structural)]
pub struct HandlerId(i32);

impl HandlerId {
    pub closed spec fn spec_id(self) -> i32 {
        self.0
    }

    pub fn id(&self) -> (i: i32)
        ensures
            i == self.spec_id(),
    {
        self.0
    }
}

/// What adding a handler came to, from the kernel's reply: -1 is a refusal, any other value the
/// new handler's identifier.
pub fn handler_from_reply(code: i32) -> (r: Result<HandlerId, ()>)
    ensures
        match r {
            Ok(h) => code != -1 && h.spec_id() == code,
            Err(()) => code == -1,
        },
{
    if code == -1 {
        Err(())
    } else {
        Ok(HandlerId(code))
    }
}

} // verus!
