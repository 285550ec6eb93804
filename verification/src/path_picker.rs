use vstd::prelude::*;

verus! {

/// The field a native file dialog fills in.
#[derive(Debug, Clone, Copy, PartialEq, Eq, Structural)]
pub enum PathPickerTarget {
    MaintenanceAppPath,
    SettingsOverlayImage,
}

/// Why a file dialog gave no path.
#[derive(Debug, Clone, Copy, PartialEq, Eq, Structural)]
pub enum PathPickerErrorKind {
    Unavailable,
    Failed,
}

/// A request to open a file dialog for one field.
#[derive(Debug, Clone, Copy, PartialEq, Eq, Structural)]
pub struct PathPickerRequest {
    pub request_id: u64,
    pub target: PathPickerTarget,
}

impl PathPickerRequest {
    pub fn new(request_id: u64, target: PathPickerTarget) -> (request: Self)
        ensures
            request.request_id == request_id,
            request.target == target,
    {
        PathPickerRequest { request_id, target }
    }
}

/// What a file dialog answered: the chosen path, if any, or why it failed.
#[derive(Debug)]
pub struct PathPickerResponse {
    pub request_id: u64,
    pub target: PathPickerTarget,
    pub path: Option<String>,
    pub error: Option<PathPickerErrorKind>,
}

} // verus!
