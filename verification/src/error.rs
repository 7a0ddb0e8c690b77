//! The failures the control core can report.

use vstd::prelude::*;

verus! {

/// Everything that can go wrong between the camera, the classifier and the
/// bus.
#[derive(Clone, Copy, Debug, PartialEq, Eq, Structural)]
pub enum CoreError {
    /// The bus node cannot be opened, or the controller does not answer.
    BusUnavailable,
    /// A block write on the bus failed.
    BusWrite,
    /// The video node cannot be opened.
    CameraUnavailable,
    /// The device refuses the required frame format.
    FormatUnsupported,
    /// Taking a frame from the stream failed.
    CaptureFailed,
    /// The frame could not be converted to RGB.
    DecodeFailed,
    /// A palette is empty, or a buffer does not have the configured size.
    ConfigInvalid,
}

/// The part of the system a failure belongs to.
#[derive(Clone, Copy, Debug, PartialEq, Eq, Structural)]
pub enum Component {
    Bus,
    Camera,
    Config,
}

impl CoreError {
    /// The component that failed.
    pub open spec fn component_of(self) -> Component {
        match self {
            CoreError::BusUnavailable | CoreError::BusWrite => Component::Bus,
            CoreError::CameraUnavailable
            | CoreError::FormatUnsupported
            | CoreError::CaptureFailed
            | CoreError::DecodeFailed => Component::Camera,
            CoreError::ConfigInvalid => Component::Config,
        }
    }

    /// The line shown for the failure: the component, then what went wrong.
    pub open spec fn summary_text(self) -> Seq<char> {
        match self {
            CoreError::BusUnavailable => "bus: cannot open the controller"@,
            CoreError::BusWrite => "bus: register write failed"@,
            CoreError::CameraUnavailable => "camera: cannot open the video device"@,
            CoreError::FormatUnsupported => "camera: frame format not supported"@,
            CoreError::CaptureFailed => "camera: capturing a frame failed"@,
            CoreError::DecodeFailed => "camera: converting a frame failed"@,
            CoreError::ConfigInvalid => "config: invalid palette or buffer size"@,
        }
    }

    pub fn component(&self) -> (c: Component)
        ensures
            c == self.component_of(),
    {
        match self {
            CoreError::BusUnavailable | CoreError::BusWrite => Component::Bus,
            CoreError::CameraUnavailable
            | CoreError::FormatUnsupported
            | CoreError::CaptureFailed
            | CoreError::DecodeFailed => Component::Camera,
            CoreError::ConfigInvalid => Component::Config,
        }
    }

    /// One line naming the component that failed and what went wrong.
    pub fn summary(&self) -> (s: &'static str)
        ensures
            s@ == self.summary_text(),
    {
        match self {
            CoreError::BusUnavailable => "bus: cannot open the controller",
            CoreError::BusWrite => "bus: register write failed",
            CoreError::CameraUnavailable => "camera: cannot open the video device",
            CoreError::FormatUnsupported => "camera: frame format not supported",
            CoreError::CaptureFailed => "camera: capturing a frame failed",
            CoreError::DecodeFailed => "camera: converting a frame failed",
            CoreError::ConfigInvalid => "config: invalid palette or buffer size",
        }
    }
}

} // verus!
