//! Switching one camera's recording: read its record, leave it alone when it
//! already records as asked, else write it back with both recording flags
//! changed. The network is the caller's: each step names the request to send,
//! and the caller hands back what came of it.

use vstd::prelude::*;
use crate::api::{ApiError, camera_of, camera_url, camera_url_of, get_camera};
use crate::config::Config;
use crate::model::{CameraListResponse, CameraRecord};

verus! {

/// Why switching the recording failed.
#[derive(Debug, PartialEq, Eq)]
pub enum OperationError {
    /// The camera's record could not be read.
    ReadFailed(ApiError),
    /// The changed record could not be written.
    WriteFailed,
}

/// A request to the appliance.
#[derive(Debug, PartialEq, Eq)]
pub enum Request {
    /// Read what the address holds.
    Get(String),
    /// Replace the camera at the address with the record.
    Put(String, CameraRecord),
}

/// What a toggle asks of its caller next.
#[derive(Debug, PartialEq, Eq)]
pub enum ToggleStep {
    Send(Request),
    Finished(Result<(), OperationError>),
}

/// Where a toggle stands.
#[derive(Debug, PartialEq, Eq, Structural, Clone, Copy)]
pub enum TogglePhase {
    /// The camera's record has been asked for.
    Fetching,
    /// The changed record has been sent.
    Writing,
    /// Nothing is left to do.
    Done,
}

/// One switch of one camera's recording.
#[derive(Debug, PartialEq, Eq)]
pub struct RecordingToggle {
    /// The camera's address, read and written alike.
    pub url: String,
    /// The recording state asked for.
    pub enabled: bool,
    /// Whether a write counts as done only on a 2xx status. When it is off, any
    /// answer to the write counts.
    pub strict_status: bool,
    pub phase: TogglePhase,
}

/// The record to write back after reading `record`, if any: none when
/// full-time recording already stands as asked, else the record with both
/// recording flags set.
pub open spec fn write_for(record: CameraRecord, enabled: bool) -> Option<CameraRecord> {
    if record.recording_settings.full_time_record_enabled == enabled {
        None
    } else {
        Some(record.with_recording(enabled))
    }
}

/// Whether the answer to a write counts as success.
pub open spec fn write_accepted(strict_status: bool, reply: Result<u16, ApiError>) -> bool {
    reply is Ok && (!strict_status || (200 <= reply->Ok_0 && reply->Ok_0 < 300))
}

/// Where a toggle goes, and what it asks next, on the answer to its read.
pub open spec fn after_read(t: RecordingToggle, reply: Result<CameraListResponse, ApiError>) -> (
    TogglePhase,
    ToggleStep,
) {
    match camera_of(reply) {
        Err(e) => (TogglePhase::Done, ToggleStep::Finished(Err(OperationError::ReadFailed(e)))),
        Ok(record) => match write_for(record, t.enabled) {
            None => (TogglePhase::Done, ToggleStep::Finished(Ok(()))),
            Some(w) => (TogglePhase::Writing, ToggleStep::Send(Request::Put(t.url, w))),
        },
    }
}

/// How a toggle ends on the answer to its write.
pub open spec fn after_write(t: RecordingToggle, reply: Result<u16, ApiError>) -> ToggleStep {
    if write_accepted(t.strict_status, reply) {
        ToggleStep::Finished(Ok(()))
    } else {
        ToggleStep::Finished(Err(OperationError::WriteFailed))
    }
}

/// A read that finds the camera already recording as asked ends the toggle
/// with success and sends no write.
pub proof fn lemma_no_write_when_already_set(
    t: RecordingToggle,
    reply: Result<CameraListResponse, ApiError>,
)
    requires
        camera_of(reply) is Ok,
        camera_of(reply)->Ok_0.recording_settings.full_time_record_enabled == t.enabled,
    ensures
        after_read(t, reply) == (TogglePhase::Done, ToggleStep::Finished(Ok::<(), OperationError>(()))),
{
}

/// A read that finds the camera recording otherwise than asked sends one
/// write to the camera's address, and waits for its answer, after which the
/// toggle ends. The written record has both recording flags set as asked and
/// every other field as it was read.
pub proof fn lemma_one_write_when_changed(
    t: RecordingToggle,
    reply: Result<CameraListResponse, ApiError>,
    written: Result<u16, ApiError>,
)
    requires
        camera_of(reply) is Ok,
        camera_of(reply)->Ok_0.recording_settings.full_time_record_enabled != t.enabled,
    ensures
        ({
            let read = camera_of(reply)->Ok_0;
            let (phase, step) = after_read(t, reply);
            &&& phase == TogglePhase::Writing
            &&& step matches ToggleStep::Send(Request::Put(url, w))
            &&& url == t.url
            &&& w.recording_settings.full_time_record_enabled == t.enabled
            &&& w.recording_settings.motion_record_enabled == t.enabled
            &&& w.recording_settings.channel == read.recording_settings.channel
            &&& w.recording_settings.pre_padding_secs == read.recording_settings.pre_padding_secs
            &&& w.recording_settings.post_padding_secs == read.recording_settings.post_padding_secs
            &&& w.analytics_settings == read.analytics_settings
            &&& w.id == read.id
            &&& w.name == read.name
            &&& w.managed == read.managed
            &&& w.uuid == read.uuid
        }),
        after_write(RecordingToggle { phase: TogglePhase::Writing, ..t }, written) is Finished,
{
}

impl RecordingToggle {
    /// Starts switching the recording of camera `camera_id` to `enabled`: the
    /// first step reads the camera's record.
    pub fn new(config: &Config, camera_id: &str, enabled: bool, strict_status: bool) -> (r: (
        RecordingToggle,
        ToggleStep,
    ))
        ensures
            r.0.url@ == camera_url(*config, camera_id@),
            r.0.enabled == enabled,
            r.0.strict_status == strict_status,
            r.0.phase == TogglePhase::Fetching,
            r.1 == ToggleStep::Send(Request::Get(r.0.url)),
    {
        let url = camera_url_of(config, camera_id);
        let get = Request::Get(url.clone());
        (RecordingToggle { url, enabled, strict_status, phase: TogglePhase::Fetching }, ToggleStep::Send(get))
    }

    /// Takes the answer to the read. A failed read, or one that did not hold
    /// exactly one record, ends the toggle with `ReadFailed`; a record that
    /// already records as asked ends it with success and no write; any other
    /// record is sent back with both recording flags changed.
    pub fn on_camera(self, reply: Result<CameraListResponse, ApiError>) -> (r: (
        RecordingToggle,
        ToggleStep,
    ))
        requires
            self.phase == TogglePhase::Fetching,
        ensures
            r.0.url == self.url,
            r.0.enabled == self.enabled,
            r.0.strict_status == self.strict_status,
            (r.0.phase, r.1) == after_read(self, reply),
    {
        let RecordingToggle { url, enabled, strict_status, phase: _ } = self;
        match get_camera(reply) {
            Err(e) => (
                RecordingToggle { url, enabled, strict_status, phase: TogglePhase::Done },
                ToggleStep::Finished(Err(OperationError::ReadFailed(e))),
            ),
            Ok(mut record) => {
                if record.is_recording() == enabled {
                    (
                        RecordingToggle { url, enabled, strict_status, phase: TogglePhase::Done },
                        ToggleStep::Finished(Ok(())),
                    )
                } else {
                    record.set_recording(enabled);
                    let put = Request::Put(url.clone(), record);
                    (
                        RecordingToggle { url, enabled, strict_status, phase: TogglePhase::Writing },
                        ToggleStep::Send(put),
                    )
                }
            },
        }
    }

    /// Takes the answer to the write: its HTTP status, or the transport error.
    /// The toggle ends either way.
    pub fn on_written(self, reply: Result<u16, ApiError>) -> (r: (RecordingToggle, ToggleStep))
        requires
            self.phase == TogglePhase::Writing,
        ensures
            r.0.url == self.url,
            r.0.enabled == self.enabled,
            r.0.strict_status == self.strict_status,
            r.0.phase == TogglePhase::Done,
            r.1 == after_write(self, reply),
    {
        let accepted = match reply {
            Ok(status) => !self.strict_status || (200 <= status && status < 300),
            Err(_) => false,
        };
        let RecordingToggle { url, enabled, strict_status, phase: _ } = self;
        let step = if accepted {
            ToggleStep::Finished(Ok(()))
        } else {
            ToggleStep::Finished(Err(OperationError::WriteFailed))
        };
        (RecordingToggle { url, enabled, strict_status, phase: TogglePhase::Done }, step)
    }
}

/// Starts switching the recording of camera `camera_id` to `status`, taking
/// any answer to the write as success.
pub fn update_record_setting(config: &Config, camera_id: &str, status: bool) -> (r: (
    RecordingToggle,
    ToggleStep,
))
    ensures
        r.0.url@ == camera_url(*config, camera_id@),
        r.0.enabled == status,
        !r.0.strict_status,
        r.0.phase == TogglePhase::Fetching,
        r.1 == ToggleStep::Send(Request::Get(r.0.url)),
{
    RecordingToggle::new(config, camera_id, status, false)
}

/// Starts switching the recording of camera `camera_id` on.
pub fn turn_recording_on(config: &Config, camera_id: &str) -> (r: (RecordingToggle, ToggleStep))
    ensures
        r.0.url@ == camera_url(*config, camera_id@),
        r.0.enabled,
        !r.0.strict_status,
        r.0.phase == TogglePhase::Fetching,
        r.1 == ToggleStep::Send(Request::Get(r.0.url)),
{
    update_record_setting(config, camera_id, true)
}

/// Starts switching the recording of camera `camera_id` off.
pub fn turn_recording_off(config: &Config, camera_id: &str) -> (r: (RecordingToggle, ToggleStep))
    ensures
        r.0.url@ == camera_url(*config, camera_id@),
        !r.0.enabled,
        !r.0.strict_status,
        r.0.phase == TogglePhase::Fetching,
        r.1 == ToggleStep::Send(Request::Get(r.0.url)),
{
    update_record_setting(config, camera_id, false)
}

} // verus!
