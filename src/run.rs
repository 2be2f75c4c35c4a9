//! A whole run of the program: load the configuration, list the cameras, and
//! switch the recording of the first managed camera off. Every decision is
//! here; the caller sends the requests and hands back the answers.

use vstd::prelude::*;
use crate::api::{ApiError, camera_url, list_cameras_url, list_url, managed, managed_cameras};
use crate::config::{Config, ConfigError};
use crate::model::CameraListResponse;
use crate::toggle::{
    OperationError, RecordingToggle, Request, TogglePhase, ToggleStep, after_read, after_write,
    turn_recording_off,
};

verus! {

/// Why a run failed.
#[derive(Debug, PartialEq, Eq)]
pub enum RunError {
    /// The configuration could not be loaded.
    Config(ConfigError),
    /// The camera list could not be read.
    List(ApiError),
    /// The appliance manages no camera.
    NoCameras,
    /// Switching the recording failed.
    Toggle(OperationError),
}

/// What came of the last request sent.
#[derive(Debug, PartialEq, Eq)]
pub enum Reply {
    /// The decoded answer to a read, or why there is none.
    Fetched(Result<CameraListResponse, ApiError>),
    /// The HTTP status of the answer to a write, or why there is none.
    Written(Result<u16, ApiError>),
}

/// What a run asks of its caller next.
#[derive(Debug, PartialEq, Eq)]
pub enum RunStep {
    Send(Request),
    Finished(Result<(), RunError>),
}

/// Where a run stands.
#[derive(Debug, PartialEq, Eq)]
pub enum Run {
    /// The camera list has been asked for.
    Listing(Config),
    /// The recording of the chosen camera is being switched.
    Toggling(RecordingToggle),
    /// Nothing is left to do.
    Done,
}

/// A toggle's step as a step of the run.
pub open spec fn run_step(s: ToggleStep) -> RunStep {
    match s {
        ToggleStep::Send(req) => RunStep::Send(req),
        ToggleStep::Finished(Ok(())) => RunStep::Finished(Ok(())),
        ToggleStep::Finished(Err(e)) => RunStep::Finished(Err(RunError::Toggle(e))),
    }
}

fn lift(s: ToggleStep) -> (r: RunStep)
    ensures
        r == run_step(s),
{
    match s {
        ToggleStep::Send(req) => RunStep::Send(req),
        ToggleStep::Finished(Ok(())) => RunStep::Finished(Ok(())),
        ToggleStep::Finished(Err(e)) => RunStep::Finished(Err(RunError::Toggle(e))),
    }
}

/// The run that a toggle in `phase` leaves.
pub open spec fn toggling(t: RecordingToggle, phase: TogglePhase) -> Run {
    if phase == TogglePhase::Done {
        Run::Done
    } else {
        Run::Toggling(RecordingToggle { phase, ..t })
    }
}

impl Run {
    /// A toggle inside a run is always waiting for an answer.
    pub open spec fn wf(self) -> bool {
        self matches Run::Toggling(t) ==> t.phase != TogglePhase::Done
    }

    /// Whether the run waits for an answer of the kind of `reply`.
    pub open spec fn awaits(self, reply: Reply) -> bool {
        match self {
            Run::Listing(_) => reply is Fetched,
            Run::Toggling(t) => (t.phase == TogglePhase::Fetching && reply is Fetched) || (t.phase
                == TogglePhase::Writing && reply is Written),
            Run::Done => false,
        }
    }

    /// Whether `reply` may be handed to `on_reply` now.
    pub fn can_take(&self, reply: &Reply) -> (r: bool)
        ensures
            r == (self.wf() && self.awaits(*reply)),
    {
        match self {
            Run::Listing(_) => matches!(reply, Reply::Fetched(_)),
            Run::Toggling(t) => match t.phase {
                TogglePhase::Fetching => matches!(reply, Reply::Fetched(_)),
                TogglePhase::Writing => matches!(reply, Reply::Written(_)),
                TogglePhase::Done => false,
            },
            Run::Done => false,
        }
    }

    /// Starts a run on the loaded configuration: a failed load ends it before
    /// any request, else the first step reads the camera list.
    pub fn start(config: Result<Config, ConfigError>) -> (r: (Run, RunStep))
        ensures
            r.0.wf(),
            config is Err ==> r.0 is Done && r.1 == RunStep::Finished(
                Err(RunError::Config(config->Err_0)),
            ),
            config is Ok ==> r.0 == Run::Listing(config->Ok_0) && (r.1 matches RunStep::Send(
                Request::Get(url),
            ) && url@ == list_url(config->Ok_0)),
    {
        match config {
            Err(e) => (Run::Done, RunStep::Finished(Err(RunError::Config(e)))),
            Ok(c) => {
                let url = list_cameras_url(&c);
                (Run::Listing(c), RunStep::Send(Request::Get(url)))
            },
        }
    }

    /// Takes the answer to the last request. On the camera list: a failed read
    /// ends the run with `List`, a list without managed cameras with
    /// `NoCameras`; else the recording of the first managed camera is switched
    /// off. During the switch, the toggle decides.
    pub fn on_reply(self, reply: Reply) -> (r: (Run, RunStep))
        requires
            self.wf(),
            self.awaits(reply),
        ensures
            r.0.wf(),
            self matches Run::Listing(config) ==> match reply {
                Reply::Fetched(Err(e)) => r.0 is Done && r.1 == RunStep::Finished(
                    Err(RunError::List(e)),
                ),
                Reply::Fetched(Ok(response)) => if managed(response.data@).len() == 0 {
                    r.0 is Done && r.1 == RunStep::Finished(Err(RunError::NoCameras))
                } else {
                    &&& r.0 matches Run::Toggling(t)
                    &&& t.url@ == camera_url(config, managed(response.data@)[0].id@)
                    &&& !t.enabled
                    &&& !t.strict_status
                    &&& t.phase == TogglePhase::Fetching
                    &&& r.1 == RunStep::Send(Request::Get(t.url))
                },
                Reply::Written(_) => false,
            },
            self matches Run::Toggling(t) ==> match reply {
                Reply::Fetched(res) => r.0 == toggling(t, after_read(t, res).0) && r.1 == run_step(
                    after_read(t, res).1,
                ),
                Reply::Written(res) => r.0 is Done && r.1 == run_step(after_write(t, res)),
            },
    {
        match self {
            Run::Listing(config) => match reply {
                Reply::Fetched(Err(e)) => (Run::Done, RunStep::Finished(Err(RunError::List(e)))),
                Reply::Fetched(Ok(response)) => {
                    let cameras = managed_cameras(&response);
                    if cameras.len() == 0 {
                        (Run::Done, RunStep::Finished(Err(RunError::NoCameras)))
                    } else {
                        let (t, step) = turn_recording_off(&config, cameras[0].id.as_str());
                        (Run::Toggling(t), lift(step))
                    }
                },
                Reply::Written(_) => (Run::Done, RunStep::Finished(Ok(()))),
            },
            Run::Toggling(t) => match reply {
                Reply::Fetched(res) => {
                    let (t2, step) = t.on_camera(res);
                    let next = if t2.phase == TogglePhase::Done {
                        Run::Done
                    } else {
                        Run::Toggling(t2)
                    };
                    (next, lift(step))
                },
                Reply::Written(res) => {
                    let (_, step) = t.on_written(res);
                    (Run::Done, lift(step))
                },
            },
            Run::Done => (Run::Done, RunStep::Finished(Ok(()))),
        }
    }
}

} // verus!
