//! Listing the cameras of a video appliance and switching the recording of one
//! of them on or off.
//!
//! The library holds the settings model, the configuration, the request
//! addresses and every decision of a run as verified functions; the network
//! and the environment are left to the caller, who hands back what came in.

mod api;
mod config;
mod model;
mod run;
mod toggle;

pub use api::{
    ApiError, camera_of, camera_url, camera_url_of, get_camera, get_camera_list,
    lemma_cardinality_checked, lemma_list_keeps_managed_in_order, list_cameras_url, list_url,
    managed, managed_cameras, single_camera,
};
pub use config::{API_KEY_VARIABLE, Config, ConfigError, EnvValue, HOST_VARIABLE, error_for};
pub use model::{
    AnalyticsSettings, CameraListResponse, CameraRecord, ListMeta, RecordingSettings,
    default_channel,
};
pub use run::{Reply, Run, RunError, RunStep, run_step, toggling};
pub use toggle::{
    OperationError, RecordingToggle, Request, TogglePhase, ToggleStep, after_read, after_write,
    lemma_no_write_when_already_set, lemma_one_write_when_changed, turn_recording_off,
    turn_recording_on, update_record_setting, write_accepted, write_for,
};
