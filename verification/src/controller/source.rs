use vstd::prelude::*;

verus! {

/// The Windows API a controller was read through.
#[derive(Clone, Copy, Debug, PartialEq, Eq, Structural)]
pub enum ControllerSource {
    GameInput,
    XInput,
    WinRT,
}

/// The user-facing name of a source.
pub open spec fn source_label(source: ControllerSource) -> Seq<char> {
    match source {
        ControllerSource::GameInput => "GameInput"@,
        ControllerSource::XInput => "XInput"@,
        ControllerSource::WinRT => "Windows.Gaming.Input"@,
    }
}

/// The backend a controller operation went through.
#[derive(Clone, Copy, Debug, PartialEq, Eq, Structural)]
pub enum BackendKind {
    GameInput,
    XInput,
    WinRT,
}

/// Each source is served by the backend of the same API.
pub open spec fn source_backend(source: ControllerSource) -> BackendKind {
    match source {
        ControllerSource::GameInput => BackendKind::GameInput,
        ControllerSource::XInput => BackendKind::XInput,
        ControllerSource::WinRT => BackendKind::WinRT,
    }
}

impl ControllerSource {
    pub fn backend_kind(self) -> (kind: BackendKind)
        ensures
            kind == source_backend(self),
    {
        match self {
            ControllerSource::GameInput => BackendKind::GameInput,
            ControllerSource::XInput => BackendKind::XInput,
            ControllerSource::WinRT => BackendKind::WinRT,
        }
    }

    pub fn label(self) -> (label: &'static str)
        ensures
            label@ == source_label(self),
    {
        match self {
            ControllerSource::GameInput => "GameInput",
            ControllerSource::XInput => "XInput",
            ControllerSource::WinRT => "Windows.Gaming.Input",
        }
    }
}

} // verus!
