use vstd::prelude::*;

verus! {

/// Whether an audio endpoint plays or records.
#[derive(Clone, Copy, PartialEq, Eq, Structural, Debug)]
pub enum DeviceType {
    Render,
    Capture,
}

/// Which endpoints a listing covers.
#[derive(Clone, Copy, PartialEq, Eq, Structural, Debug)]
pub enum DeviceScope {
    Render,
    Capture,
    All,
}

/// The state of an audio endpoint.
#[derive(Clone, Copy, PartialEq, Eq, Structural, Debug)]
pub enum DeviceState {
    Active,
    Disabled,
    NotPresent,
    Unplugged,
}

/// The state bits of audio endpoints.
pub const ACTIVE: u32 = 0x1;
pub const DISABLED: u32 = 0x2;
pub const NOTPRESENT: u32 = 0x4;
pub const UNPLUGGED: u32 = 0x8;
pub const ALL: u32 = 0xF;
pub const ACTIVE_OR_DISABLED: u32 = ACTIVE | DISABLED;
pub const ACTIVE_OR_NOTPRESENT: u32 = ACTIVE | NOTPRESENT;
pub const ACTIVE_OR_UNPLUGGED: u32 = ACTIVE | UNPLUGGED;
pub const DISABLED_OR_NOTPRESENT: u32 = DISABLED | NOTPRESENT;
pub const DISABLED_OR_UNPLUGGED: u32 = DISABLED | UNPLUGGED;
pub const NOTPRESENT_OR_UNPLUGGED: u32 = NOTPRESENT | UNPLUGGED;
pub const ACTIVE_OR_DISABLED_OR_NOTPRESENT: u32 = ACTIVE_OR_DISABLED | NOTPRESENT;
pub const ACTIVE_OR_DISABLED_OR_UNPLUGGED: u32 = ACTIVE_OR_DISABLED | UNPLUGGED;
pub const ACTIVE_OR_NOTPRESENT_OR_UNPLUGGED: u32 = ACTIVE_OR_NOTPRESENT | UNPLUGGED;
pub const DISABLED_OR_NOTPRESENT_OR_UNPLUGGED: u32 = DISABLED_OR_NOTPRESENT | UNPLUGGED;

/// A set of endpoint states, as a listing of endpoints filters them.
#[derive(Clone, Copy, PartialEq, Eq, Structural, Debug)]
pub struct DeviceStates(pub u32);

impl DeviceStates {
    /// The states of both sets.
    pub fn or(self, rhs: Self) -> (r: Self)
        ensures
            r.0 == self.0 | rhs.0,
    {
        DeviceStates(self.0 | rhs.0)
    }
}

/// The state of an endpoint by the state code that the system reports; the
/// system reports no other codes.
pub fn state_of_code(code: u32) -> (r: Option<DeviceState>)
    ensures
        r == if code == ACTIVE {
            Some(DeviceState::Active)
        } else if code == DISABLED {
            Some(DeviceState::Disabled)
        } else if code == NOTPRESENT {
            Some(DeviceState::NotPresent)
        } else if code == UNPLUGGED {
            Some(DeviceState::Unplugged)
        } else {
            None
        },
{
    if code == ACTIVE {
        Some(DeviceState::Active)
    } else if code == DISABLED {
        Some(DeviceState::Disabled)
    } else if code == NOTPRESENT {
        Some(DeviceState::NotPresent)
    } else if code == UNPLUGGED {
        Some(DeviceState::Unplugged)
    } else {
        None
    }
}

/// The data flow that the system takes for a listing.
pub fn flow_of_scope(scope: DeviceScope) -> (r: u32)
    ensures
        r == match scope {
            DeviceScope::Render => 0u32,
            DeviceScope::Capture => 1u32,
            DeviceScope::All => 2u32,
        },
{
    match scope {
        DeviceScope::Render => 0,
        DeviceScope::Capture => 1,
        DeviceScope::All => 2,
    }
}

/// The data flow that the system takes for an endpoint type.
pub fn flow_of_type(t: DeviceType) -> (r: u32)
    ensures
        r == match t {
            DeviceType::Render => 0u32,
            DeviceType::Capture => 1u32,
        },
{
    match t {
        DeviceType::Render => 0,
        DeviceType::Capture => 1,
    }
}

/// The type that every endpoint of a listing has; none for a listing of all.
pub fn type_of_scope(scope: DeviceScope) -> (r: Option<DeviceType>)
    ensures
        r == match scope {
            DeviceScope::Render => Some(DeviceType::Render),
            DeviceScope::Capture => Some(DeviceType::Capture),
            DeviceScope::All => None,
        },
{
    match scope {
        DeviceScope::Render => Some(DeviceType::Render),
        DeviceScope::Capture => Some(DeviceType::Capture),
        DeviceScope::All => None,
    }
}

/// The type of an endpoint of data flow `flow` (the render flow is 0).
pub fn type_of_flow(flow: u32) -> (r: DeviceType)
    ensures
        r == if flow == 0 {
            DeviceType::Render
        } else {
            DeviceType::Capture
        },
{
    if flow == 0 {
        DeviceType::Render
    } else {
        DeviceType::Capture
    }
}

/// A change of an endpoint's volume or muting.
#[derive(Clone, Copy, PartialEq, Eq, Structural, Debug)]
pub struct VolumeNotfEvent {
    /// The volume, in percent.
    pub vol: u8,
    pub muted: bool,
    /// The context that the change was made in.
    pub ctx: u128,
}

/// The icon (0: live, 1: muted) to show after a volume change, if the
/// change mutes or unmutes the microphone.
pub fn mute_change(was_muted: bool, event: &VolumeNotfEvent) -> (r: Option<usize>)
    ensures
        r == if was_muted != event.muted {
            Some(if event.muted {
                1usize
            } else {
                0usize
            })
        } else {
            None
        },
{
    if was_muted != event.muted {
        Some(if event.muted { 1 } else { 0 })
    } else {
        None
    }
}

} // verus!
