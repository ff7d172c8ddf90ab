//! Which audio endpoint a capture stream opens.

use vstd::prelude::*;

verus! {

/// Which audio stream to capture.
#[derive(PartialEq, Eq, Structural, Clone, Copy, Debug)]
pub enum CaptureMode {
    /// System audio output (what plays through speakers/headphones).
    Loopback,
    /// Default microphone input.
    Microphone,
}

/// The direction of the default endpoint a stream is opened on.
#[derive(PartialEq, Eq, Structural, Clone, Copy, Debug)]
pub enum EndpointFlow {
    /// The render (output) endpoint.
    Render,
    /// The capture (input) endpoint.
    Capture,
}

/// How a capture stream is opened: on which endpoint, and whether the
/// stream is a loopback of that endpoint.
#[derive(PartialEq, Eq, Structural, Clone, Copy, Debug)]
pub struct StreamSettings {
    pub flow: EndpointFlow,
    pub loopback: bool,
}

impl CaptureMode {
    /// System audio is captured as a loopback of the render endpoint; the
    /// microphone as a plain stream of the capture endpoint.
    pub fn stream_settings(&self) -> (s: StreamSettings)
        ensures
            s == (match *self {
                CaptureMode::Loopback => StreamSettings { flow: EndpointFlow::Render, loopback: true },
                CaptureMode::Microphone => StreamSettings {
                    flow: EndpointFlow::Capture,
                    loopback: false,
                },
            }),
    {
        match self {
            CaptureMode::Loopback => StreamSettings { flow: EndpointFlow::Render, loopback: true },
            CaptureMode::Microphone => StreamSettings { flow: EndpointFlow::Capture, loopback: false },
        }
    }
}

} // verus!
