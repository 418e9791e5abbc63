//! What can go wrong between the choice of a device and a running stream.

use vstd::prelude::*;
use vstd::string::*;

verus! {

/// A way of delivering samples that a stream can be opened with.
#[derive(Clone, Copy, Debug, PartialEq, Eq, Structural)]
pub enum Encoding {
    /// 32-bit floating point, taken as it comes.
    Float32,
    /// 16-bit signed integers.
    Signed16,
    /// 16-bit unsigned integers.
    Unsigned16,
}

/// Why a selector could not be read.
#[derive(Clone, Copy, Debug, PartialEq, Eq, Structural)]
pub enum SelectorFault {
    /// It is neither `default` nor begins with `input-`.
    Format,
    /// What follows `input-` is not an index.
    Index,
}

/// What the devices were being enumerated for.
#[derive(Clone, Copy, Debug, PartialEq, Eq, Structural)]
pub enum EnumerationUse {
    Resolving,
    Listing,
}

/// The step of opening a stream that failed.
#[derive(Clone, Copy, Debug, PartialEq, Eq, Structural)]
pub enum BuildStage {
    /// The device did not tell its default input configuration.
    Configuration,
    /// The stream could not be built for the encoding.
    Stream(Encoding),
}

/// An error of the capture pipeline. None is retried here.
#[derive(Debug)]
pub enum AudioError {
    DeviceEnumerationFailure(EnumerationUse, String),
    NoDefaultDevice,
    InvalidSelector(SelectorFault),
    DeviceNotFound,
    UnsupportedSampleFormat(String),
    StreamBuildFailure(BuildStage, String),
    StreamPlayFailure(String),
    StateLockFailure,
    PitchLockFailure,
}

/// An error as plain values.
pub enum ErrorView {
    DeviceEnumerationFailure(EnumerationUse, Seq<char>),
    NoDefaultDevice,
    InvalidSelector(SelectorFault),
    DeviceNotFound,
    UnsupportedSampleFormat(Seq<char>),
    StreamBuildFailure(BuildStage, Seq<char>),
    StreamPlayFailure(Seq<char>),
    StateLockFailure,
    PitchLockFailure,
}

impl View for AudioError {
    type V = ErrorView;

    open spec fn view(&self) -> ErrorView {
        match self {
            AudioError::DeviceEnumerationFailure(u, d) => ErrorView::DeviceEnumerationFailure(
                *u,
                d@,
            ),
            AudioError::NoDefaultDevice => ErrorView::NoDefaultDevice,
            AudioError::InvalidSelector(f) => ErrorView::InvalidSelector(*f),
            AudioError::DeviceNotFound => ErrorView::DeviceNotFound,
            AudioError::UnsupportedSampleFormat(n) => ErrorView::UnsupportedSampleFormat(n@),
            AudioError::StreamBuildFailure(s, d) => ErrorView::StreamBuildFailure(*s, d@),
            AudioError::StreamPlayFailure(d) => ErrorView::StreamPlayFailure(d@),
            AudioError::StateLockFailure => ErrorView::StateLockFailure,
            AudioError::PitchLockFailure => ErrorView::PitchLockFailure,
        }
    }
}

impl ErrorView {
    /// The text that the error is reported with.
    pub open spec fn text(self) -> Seq<char> {
        match self {
            ErrorView::DeviceEnumerationFailure(EnumerationUse::Resolving, d) => {
                "Failed to enumerate input devices: "@ + d
            },
            ErrorView::DeviceEnumerationFailure(EnumerationUse::Listing, d) => {
                "Failed to list input devices: "@ + d
            },
            ErrorView::NoDefaultDevice => "No default input device found"@,
            ErrorView::InvalidSelector(SelectorFault::Format) => "Invalid device_id format"@,
            ErrorView::InvalidSelector(SelectorFault::Index) => "Invalid device_id index"@,
            ErrorView::DeviceNotFound => "Requested input device not found"@,
            ErrorView::UnsupportedSampleFormat(n) => "Unsupported sample format: "@ + n,
            ErrorView::StreamBuildFailure(BuildStage::Configuration, d) => {
                "Failed to get default input config: "@ + d
            },
            ErrorView::StreamBuildFailure(BuildStage::Stream(Encoding::Float32), d) => {
                "Failed to build f32 input stream: "@ + d
            },
            ErrorView::StreamBuildFailure(BuildStage::Stream(Encoding::Signed16), d) => {
                "Failed to build i16 input stream: "@ + d
            },
            ErrorView::StreamBuildFailure(BuildStage::Stream(Encoding::Unsigned16), d) => {
                "Failed to build u16 input stream: "@ + d
            },
            ErrorView::StreamPlayFailure(d) => "Failed to start input stream: "@ + d,
            ErrorView::StateLockFailure => "Failed to access stream state"@,
            ErrorView::PitchLockFailure => "Failed to access pitch data"@,
        }
    }
}

fn labelled(label: &str, detail: &String) -> (out: String)
    ensures
        out@ == label@ + detail@,
{
    let mut out = String::from_str(label);
    out.append(detail.as_str());
    out
}

impl AudioError {
    /// The text that the error is reported with.
    pub fn message(&self) -> (text: String)
        ensures
            text@ == self@.text(),
    {
        match self {
            AudioError::DeviceEnumerationFailure(EnumerationUse::Resolving, d) => labelled(
                "Failed to enumerate input devices: ",
                d,
            ),
            AudioError::DeviceEnumerationFailure(EnumerationUse::Listing, d) => labelled(
                "Failed to list input devices: ",
                d,
            ),
            AudioError::NoDefaultDevice => String::from_str("No default input device found"),
            AudioError::InvalidSelector(SelectorFault::Format) => String::from_str(
                "Invalid device_id format",
            ),
            AudioError::InvalidSelector(SelectorFault::Index) => String::from_str(
                "Invalid device_id index",
            ),
            AudioError::DeviceNotFound => String::from_str("Requested input device not found"),
            AudioError::UnsupportedSampleFormat(n) => labelled("Unsupported sample format: ", n),
            AudioError::StreamBuildFailure(BuildStage::Configuration, d) => labelled(
                "Failed to get default input config: ",
                d,
            ),
            AudioError::StreamBuildFailure(BuildStage::Stream(Encoding::Float32), d) => labelled(
                "Failed to build f32 input stream: ",
                d,
            ),
            AudioError::StreamBuildFailure(BuildStage::Stream(Encoding::Signed16), d) => labelled(
                "Failed to build i16 input stream: ",
                d,
            ),
            AudioError::StreamBuildFailure(BuildStage::Stream(Encoding::Unsigned16), d) => labelled(
                "Failed to build u16 input stream: ",
                d,
            ),
            AudioError::StreamPlayFailure(d) => labelled("Failed to start input stream: ", d),
            AudioError::StateLockFailure => String::from_str("Failed to access stream state"),
            AudioError::PitchLockFailure => String::from_str("Failed to access pitch data"),
        }
    }
}

} // verus!
