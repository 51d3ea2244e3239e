use vstd::prelude::*;

use crate::text::{decimal, u64_decimal};

verus! {

/// The API a rumble was delivered through.
#[derive(Clone, Copy, Debug, PartialEq, Eq, Structural)]
pub enum RumbleBackend {
    GameInput,
    WinRT,
    XInput(u32),
}

/// A description for diagnostics; XInput slots are numbered from one.
pub open spec fn backend_description(backend: RumbleBackend) -> Seq<char> {
    match backend {
        RumbleBackend::GameInput => "GameInput"@,
        RumbleBackend::WinRT => "WinRT Gamepad"@,
        RumbleBackend::XInput(slot) => "XInput slot "@ + decimal((slot + 1) as nat),
    }
}

impl RumbleBackend {
    pub fn description(self) -> (text: String)
        requires
            self matches RumbleBackend::XInput(slot) ==> slot < u32::MAX,
        ensures
            text@ == backend_description(self),
    {
        match self {
            RumbleBackend::GameInput => String::from_str("GameInput"),
            RumbleBackend::WinRT => String::from_str("WinRT Gamepad"),
            RumbleBackend::XInput(slot) => {
                let mut text = String::from_str("XInput slot ");
                text.append(u64_decimal((slot + 1) as u64).as_str());
                text
            },
        }
    }
}

} // verus!
