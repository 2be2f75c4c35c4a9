//! The appliance's camera endpoints: their addresses, and what the library
//! makes of their answers.

use vstd::prelude::*;
use crate::config::Config;
use crate::model::{CameraListResponse, CameraRecord};

verus! {

/// Why a read from the appliance failed.
#[derive(Debug, PartialEq, Eq)]
pub enum ApiError {
    /// The request could not be sent or no answer came.
    TransportError,
    /// The answer was not JSON of the expected shape.
    DecodeError,
    /// A single-camera lookup did not answer with exactly one record.
    UnexpectedCardinality,
}

/// The address of the camera list.
pub open spec fn list_url(config: Config) -> Seq<char> {
    "http://"@ + config.host@ + ":7080/api/2.0/camera?apiKey="@ + config.api_key@
}

/// The address of one camera.
pub open spec fn camera_url(config: Config, id: Seq<char>) -> Seq<char> {
    "http://"@ + config.host@ + ":7080/api/2.0/camera/"@ + id + "?apiKey="@ + config.api_key@
}

/// The records of `data` that the appliance manages, in their order.
pub open spec fn managed(data: Seq<CameraRecord>) -> Seq<CameraRecord> {
    data.filter(|c: CameraRecord| c.managed)
}

/// What a single-camera answer yields: its one record, the error of the read,
/// or `UnexpectedCardinality`.
pub open spec fn camera_of(reply: Result<CameraListResponse, ApiError>) -> Result<CameraRecord, ApiError> {
    match reply {
        Ok(response) => if response.data@.len() == 1 {
            Ok(response.data@[0])
        } else {
            Err(ApiError::UnexpectedCardinality)
        },
        Err(e) => Err(e),
    }
}

/// A single-camera answer with no record, or with two or more, fails with
/// `UnexpectedCardinality`.
pub proof fn lemma_cardinality_checked(response: CameraListResponse)
    requires
        response.data@.len() == 0 || response.data@.len() >= 2,
    ensures
        camera_of(Ok(response)) == Err::<CameraRecord, ApiError>(ApiError::UnexpectedCardinality),
{
}

/// The camera list holds exactly the managed records of the answer, and no
/// more records than the answer.
pub proof fn lemma_list_keeps_managed_in_order(data: Seq<CameraRecord>)
    ensures
        forall|i: int| 0 <= i < managed(data).len() ==> (#[trigger] managed(data)[i]).managed,
        managed(data).len() <= data.len(),
        forall|c: CameraRecord| #[trigger]
            managed(data).contains(c) <==> (c.managed && data.contains(c)),
{
    assert forall|c: CameraRecord| #[trigger] managed(data).contains(c) implies (c.managed
        && data.contains(c)) by {
        let i = choose|i: int| 0 <= i < managed(data).len() && managed(data)[i] == c;
        data.lemma_filter_pred(|c: CameraRecord| c.managed, i);
        data.lemma_filter_contains_rev(|c: CameraRecord| c.managed, c);
    }
}

/// Builds the address of the camera list.
pub fn list_cameras_url(config: &Config) -> (r: String)
    ensures
        r@ == list_url(*config),
{
    let mut url = String::from_str("http://");
    url.append(config.host.as_str());
    url.append(":7080/api/2.0/camera?apiKey=");
    url.append(config.api_key.as_str());
    url
}

/// Builds the address of the camera `camera_id`, for reading and for writing.
pub fn camera_url_of(config: &Config, camera_id: &str) -> (r: String)
    ensures
        r@ == camera_url(*config, camera_id@),
{
    let mut url = String::from_str("http://");
    url.append(config.host.as_str());
    url.append(":7080/api/2.0/camera/");
    url.append(camera_id);
    url.append("?apiKey=");
    url.append(config.api_key.as_str());
    url
}

/// The managed cameras of a list answer, in the appliance's order.
pub fn managed_cameras(response: &CameraListResponse) -> (r: Vec<CameraRecord>)
    ensures
        r@ == managed(response.data@),
{
    let data = &response.data;
    let mut out: Vec<CameraRecord> = Vec::new();
    let mut i: usize = 0;
    while i < data.len()
        invariant
            i <= data.len(),
            out@ == managed(data@.subrange(0, i as int)),
        decreases data.len() - i,
    {
        let c = data[i].duplicate();
        proof {
            let pre = data@.subrange(0, i as int);
            let next = data@.subrange(0, i as int + 1);
            assert(next.drop_last() =~= pre);
            assert(next.last() == data@[i as int]);
            reveal(Seq::filter);
        }
        if c.managed {
            out.push(c);
        }
        i = i + 1;
    }
    assert(data@.subrange(0, data@.len() as int) =~= data@);
    out
}

/// The camera list, from the list endpoint's answer: the managed cameras in
/// the appliance's order, or the error of the read.
pub fn get_camera_list(reply: Result<CameraListResponse, ApiError>) -> (r: Result<Vec<CameraRecord>, ApiError>)
    ensures
        reply is Ok <==> r is Ok,
        reply is Ok ==> r->Ok_0@ == managed(reply->Ok_0.data@),
        reply is Err ==> r->Err_0 == reply->Err_0,
{
    match reply {
        Ok(response) => Ok(managed_cameras(&response)),
        Err(e) => Err(e),
    }
}

/// The one record of a single-camera answer. Fails with
/// `UnexpectedCardinality` unless the answer holds exactly one record.
pub fn single_camera(response: CameraListResponse) -> (r: Result<CameraRecord, ApiError>)
    ensures
        r is Ok <==> response.data@.len() == 1,
        r is Ok ==> r->Ok_0 == response.data@[0],
        r is Err ==> r->Err_0 == ApiError::UnexpectedCardinality,
{
    let mut data = response.data;
    if data.len() == 1 {
        Ok(data.remove(0))
    } else {
        Err(ApiError::UnexpectedCardinality)
    }
}

/// One camera, from the single-camera endpoint's answer: its record, or the
/// error of the read, or `UnexpectedCardinality`.
pub fn get_camera(reply: Result<CameraListResponse, ApiError>) -> (r: Result<CameraRecord, ApiError>)
    ensures
        r == camera_of(reply),
{
    match reply {
        Ok(response) => single_camera(response),
        Err(e) => Err(e),
    }
}

} // verus!
