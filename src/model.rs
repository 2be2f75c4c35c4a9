//! The appliance's settings schema: a camera record and its two settings
//! objects, as plain data.

use vstd::prelude::*;

verus! {

/// Analytics settings of a camera. This library never changes them; they are
/// carried through so that a write sends them back as they were read.
#[derive(Debug, PartialEq, Eq)]
pub struct AnalyticsSettings {
    pub enable_sound_alert: bool,
    pub sound_alert_volume: u32,
    pub minimum_motion_secs: u32,
    pub end_motion_after_secs: u32,
}

/// Recording settings of a camera. The two recording flags are the only
/// fields that this library ever changes, and always together.
#[derive(Debug, PartialEq, Eq)]
pub struct RecordingSettings {
    pub channel: Option<String>,
    pub pre_padding_secs: u32,
    pub post_padding_secs: u32,
    pub full_time_record_enabled: bool,
    pub motion_record_enabled: bool,
}

/// One camera's full settings snapshot, as the appliance reported it.
#[derive(Debug, PartialEq, Eq)]
pub struct CameraRecord {
    pub id: String,
    pub name: String,
    pub managed: bool,
    pub uuid: String,
    pub analytics_settings: AnalyticsSettings,
    pub recording_settings: RecordingSettings,
}

/// Counters that the list endpoint reports beside its records.
#[derive(Debug, PartialEq, Eq)]
pub struct ListMeta {
    pub total_count: u32,
    pub filtered_count: u32,
}

/// What the camera endpoints answer: records in the appliance's order, and
/// their counters.
#[derive(Debug, PartialEq, Eq)]
pub struct CameraListResponse {
    pub data: Vec<CameraRecord>,
    pub meta: ListMeta,
}

/// The channel of recording settings read from input that lacks the field.
pub fn default_channel() -> (r: Option<String>)
    ensures
        r is Some,
        r->0@ == "0"@,
{
    Some(String::from_str("0"))
}

impl AnalyticsSettings {
    /// An equal copy.
    pub fn duplicate(&self) -> (r: Self)
        ensures
            r == *self,
    {
        AnalyticsSettings {
            enable_sound_alert: self.enable_sound_alert,
            sound_alert_volume: self.sound_alert_volume,
            minimum_motion_secs: self.minimum_motion_secs,
            end_motion_after_secs: self.end_motion_after_secs,
        }
    }
}

impl RecordingSettings {
    /// These settings with both recording flags set to `enabled`.
    pub open spec fn with_recording(self, enabled: bool) -> RecordingSettings {
        RecordingSettings {
            full_time_record_enabled: enabled,
            motion_record_enabled: enabled,
            ..self
        }
    }

    /// An equal copy.
    pub fn duplicate(&self) -> (r: Self)
        ensures
            r == *self,
    {
        let channel = match &self.channel {
            Some(c) => Some(c.clone()),
            None => None,
        };
        RecordingSettings {
            channel,
            pre_padding_secs: self.pre_padding_secs,
            post_padding_secs: self.post_padding_secs,
            full_time_record_enabled: self.full_time_record_enabled,
            motion_record_enabled: self.motion_record_enabled,
        }
    }
}

impl CameraRecord {
    /// This record with both recording flags set to `enabled` and every other
    /// field as it was.
    pub open spec fn with_recording(self, enabled: bool) -> CameraRecord {
        CameraRecord { recording_settings: self.recording_settings.with_recording(enabled), ..self }
    }

    /// Whether full-time recording is on.
    pub fn is_recording(&self) -> (r: bool)
        ensures
            r == self.recording_settings.full_time_record_enabled,
    {
        self.recording_settings.full_time_record_enabled
    }

    /// Sets both recording flags to `enabled`; nothing else changes.
    pub fn set_recording(&mut self, enabled: bool)
        ensures
            *final(self) == old(self).with_recording(enabled),
    {
        self.recording_settings.full_time_record_enabled = enabled;
        self.recording_settings.motion_record_enabled = enabled;
    }

    /// An equal copy.
    pub fn duplicate(&self) -> (r: Self)
        ensures
            r == *self,
    {
        CameraRecord {
            id: self.id.clone(),
            name: self.name.clone(),
            managed: self.managed,
            uuid: self.uuid.clone(),
            analytics_settings: self.analytics_settings.duplicate(),
            recording_settings: self.recording_settings.duplicate(),
        }
    }
}

} // verus!
