use unifi_recording::{
    AnalyticsSettings, ApiError, CameraListResponse, CameraRecord, Config, ConfigError, EnvValue,
    ListMeta, OperationError, RecordingSettings, RecordingToggle, Reply, Request, Run, RunError,
    RunStep, TogglePhase, ToggleStep, turn_recording_off, turn_recording_on, update_record_setting,
};

fn camera(id: &str, managed: bool, recording: bool) -> CameraRecord {
    CameraRecord {
        id: id.to_string(),
        name: format!("cam-{}", id),
        managed,
        uuid: format!("uuid-{}", id),
        analytics_settings: AnalyticsSettings {
            enable_sound_alert: false,
            sound_alert_volume: 100,
            minimum_motion_secs: 1,
            end_motion_after_secs: 9,
        },
        recording_settings: RecordingSettings {
            channel: None,
            pre_padding_secs: 4,
            post_padding_secs: 6,
            full_time_record_enabled: recording,
            motion_record_enabled: recording,
        },
    }
}

fn response(data: Vec<CameraRecord>) -> CameraListResponse {
    let n = data.len() as u32;
    CameraListResponse { data, meta: ListMeta { total_count: n, filtered_count: n } }
}

fn cfg() -> Config {
    Config { api_key: "abc".to_string(), host: "10.0.0.5".to_string() }
}

const CAMERA_ONE: &str = "http://10.0.0.5:7080/api/2.0/camera/1?apiKey=abc";

#[test]
fn turn_on_when_already_on_writes_nothing() {
    let (t, step) = turn_recording_on(&cfg(), "1");
    assert_eq!(step, ToggleStep::Send(Request::Get(CAMERA_ONE.to_string())));
    let (t, step) = t.on_camera(Ok(response(vec![camera("1", true, true)])));
    assert_eq!(step, ToggleStep::Finished(Ok(())));
    assert_eq!(t.phase, TogglePhase::Done);
}

#[test]
fn turn_off_when_on_writes_once() {
    let (t, _) = turn_recording_off(&cfg(), "1");
    let fetched = camera("1", true, true);
    let (t, step) = t.on_camera(Ok(response(vec![fetched.duplicate()])));
    let mut body = fetched;
    body.recording_settings.full_time_record_enabled = false;
    body.recording_settings.motion_record_enabled = false;
    assert_eq!(step, ToggleStep::Send(Request::Put(CAMERA_ONE.to_string(), body)));
    assert_eq!(t.phase, TogglePhase::Writing);
    let (t, step) = t.on_written(Ok(500));
    assert_eq!(step, ToggleStep::Finished(Ok(())));
    assert_eq!(t.phase, TogglePhase::Done);
}

#[test]
fn turn_on_when_off_sets_both_flags() {
    let (t, _) = update_record_setting(&cfg(), "1", true);
    let (_, step) = t.on_camera(Ok(response(vec![camera("1", true, false)])));
    match step {
        ToggleStep::Send(Request::Put(url, body)) => {
            assert_eq!(url, CAMERA_ONE);
            assert!(body.recording_settings.full_time_record_enabled);
            assert!(body.recording_settings.motion_record_enabled);
            assert_eq!(body.recording_settings.pre_padding_secs, 4);
        }
        other => panic!("unexpected step {:?}", other),
    }
}

#[test]
fn toggle_read_failure() {
    let (t, _) = turn_recording_off(&cfg(), "1");
    let (_, step) = t.on_camera(Err(ApiError::TransportError));
    assert_eq!(step, ToggleStep::Finished(Err(OperationError::ReadFailed(ApiError::TransportError))));
}

#[test]
fn toggle_cardinality_failure() {
    let (t, _) = turn_recording_off(&cfg(), "1");
    let (_, step) = t.on_camera(Ok(response(vec![])));
    assert_eq!(
        step,
        ToggleStep::Finished(Err(OperationError::ReadFailed(ApiError::UnexpectedCardinality)))
    );
}

#[test]
fn toggle_write_transport_failure() {
    let (t, _) = turn_recording_off(&cfg(), "1");
    let (t, _) = t.on_camera(Ok(response(vec![camera("1", true, true)])));
    let (_, step) = t.on_written(Err(ApiError::TransportError));
    assert_eq!(step, ToggleStep::Finished(Err(OperationError::WriteFailed)));
}

#[test]
fn strict_toggle_rejects_error_status() {
    let (t, _) = RecordingToggle::new(&cfg(), "1", false, true);
    let (t, _) = t.on_camera(Ok(response(vec![camera("1", true, true)])));
    let (_, step) = t.on_written(Ok(404));
    assert_eq!(step, ToggleStep::Finished(Err(OperationError::WriteFailed)));
    let (t, _) = RecordingToggle::new(&cfg(), "1", false, true);
    let (t, _) = t.on_camera(Ok(response(vec![camera("1", true, true)])));
    let (_, step) = t.on_written(Ok(204));
    assert_eq!(step, ToggleStep::Finished(Ok(())));
}

#[test]
fn run_turns_first_managed_camera_off() {
    let config = Config::new(EnvValue::Text("abc".to_string()), EnvValue::Text("10.0.0.5".to_string()));
    let (run, step) = Run::start(config);
    assert_eq!(
        step,
        RunStep::Send(Request::Get("http://10.0.0.5:7080/api/2.0/camera?apiKey=abc".to_string()))
    );
    let listed = response(vec![camera("1", true, true), camera("2", false, true)]);
    let (run, step) = run.on_reply(Reply::Fetched(Ok(listed)));
    assert_eq!(step, RunStep::Send(Request::Get(CAMERA_ONE.to_string())));
    let (run, step) = run.on_reply(Reply::Fetched(Ok(response(vec![camera("1", true, true)]))));
    let mut body = camera("1", true, true);
    body.recording_settings.full_time_record_enabled = false;
    body.recording_settings.motion_record_enabled = false;
    assert_eq!(step, RunStep::Send(Request::Put(CAMERA_ONE.to_string(), body)));
    let (run, step) = run.on_reply(Reply::Written(Ok(200)));
    assert_eq!(step, RunStep::Finished(Ok(())));
    assert_eq!(run, Run::Done);
}

#[test]
fn run_without_managed_cameras_stops() {
    let (run, _) = Run::start(Ok(cfg()));
    let listed = response(vec![camera("2", false, true)]);
    let (run, step) = run.on_reply(Reply::Fetched(Ok(listed)));
    assert_eq!(step, RunStep::Finished(Err(RunError::NoCameras)));
    assert_eq!(run, Run::Done);
}

#[test]
fn run_with_empty_list_stops() {
    let (run, _) = Run::start(Ok(cfg()));
    let (run, step) = run.on_reply(Reply::Fetched(Ok(response(vec![]))));
    assert_eq!(step, RunStep::Finished(Err(RunError::NoCameras)));
    assert_eq!(run, Run::Done);
}

#[test]
fn run_without_api_key_sends_nothing() {
    let config = Config::new(EnvValue::Missing, EnvValue::Text("10.0.0.5".to_string()));
    let (run, step) = Run::start(config);
    assert_eq!(
        step,
        RunStep::Finished(Err(RunError::Config(ConfigError::MissingVariable(
            "UNIFI_API_KEY".to_string()
        ))))
    );
    assert_eq!(run, Run::Done);
}

#[test]
fn run_list_failure_stops() {
    let (_, step) = Run::start(Ok(cfg())).0.on_reply(Reply::Fetched(Err(ApiError::DecodeError)));
    assert_eq!(step, RunStep::Finished(Err(RunError::List(ApiError::DecodeError))));
}

#[test]
fn run_already_off_ends_without_write() {
    let (run, _) = Run::start(Ok(cfg()));
    let (run, _) = run.on_reply(Reply::Fetched(Ok(response(vec![camera("1", true, false)]))));
    let (run, step) = run.on_reply(Reply::Fetched(Ok(response(vec![camera("1", true, false)]))));
    assert_eq!(step, RunStep::Finished(Ok(())));
    assert_eq!(run, Run::Done);
}

#[test]
fn run_write_failure_is_reported() {
    let (run, _) = Run::start(Ok(cfg()));
    let (run, _) = run.on_reply(Reply::Fetched(Ok(response(vec![camera("1", true, true)]))));
    let (run, _) = run.on_reply(Reply::Fetched(Ok(response(vec![camera("1", true, true)]))));
    let (_, step) = run.on_reply(Reply::Written(Err(ApiError::TransportError)));
    assert_eq!(step, RunStep::Finished(Err(RunError::Toggle(OperationError::WriteFailed))));
}
