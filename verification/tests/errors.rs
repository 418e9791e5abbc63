use mypitch::error::{AudioError, BuildStage, Encoding, EnumerationUse, SelectorFault};
use mypitch::session::StatusMessage;

#[test]
fn every_error_has_its_text() {
    let cases = vec![
        (
            AudioError::DeviceEnumerationFailure(EnumerationUse::Resolving, "x".to_string()),
            "Failed to enumerate input devices: x",
        ),
        (
            AudioError::DeviceEnumerationFailure(EnumerationUse::Listing, "y".to_string()),
            "Failed to list input devices: y",
        ),
        (AudioError::NoDefaultDevice, "No default input device found"),
        (AudioError::InvalidSelector(SelectorFault::Format), "Invalid device_id format"),
        (AudioError::InvalidSelector(SelectorFault::Index), "Invalid device_id index"),
        (AudioError::DeviceNotFound, "Requested input device not found"),
        (
            AudioError::UnsupportedSampleFormat("I8".to_string()),
            "Unsupported sample format: I8",
        ),
        (
            AudioError::StreamBuildFailure(BuildStage::Configuration, "busy".to_string()),
            "Failed to get default input config: busy",
        ),
        (
            AudioError::StreamBuildFailure(BuildStage::Stream(Encoding::Float32), "a".to_string()),
            "Failed to build f32 input stream: a",
        ),
        (
            AudioError::StreamBuildFailure(BuildStage::Stream(Encoding::Signed16), "b".to_string()),
            "Failed to build i16 input stream: b",
        ),
        (
            AudioError::StreamBuildFailure(BuildStage::Stream(Encoding::Unsigned16), "c".to_string()),
            "Failed to build u16 input stream: c",
        ),
        (AudioError::StreamPlayFailure("no".to_string()), "Failed to start input stream: no"),
        (AudioError::StateLockFailure, "Failed to access stream state"),
        (AudioError::PitchLockFailure, "Failed to access pitch data"),
    ];
    for (error, text) in cases {
        assert_eq!(error.message(), text);
    }
}

#[test]
fn every_status_has_its_text() {
    assert_eq!(StatusMessage::Started.text(), "Stream started");
    assert_eq!(StatusMessage::AlreadyRunning.text(), "Stream already running");
    assert_eq!(StatusMessage::Stopped.text(), "Stream stopped");
    assert_eq!(StatusMessage::AlreadyStopped.text(), "Stream already stopped");
}
