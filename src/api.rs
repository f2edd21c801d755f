//! What the HTTP handlers compute: tasks from submitted images, the errors
//! they report and the status each maps to, and the reply to a queued
//! request.

use vstd::prelude::*;

use crate::gray_image::{decode_gray_image, is_decoded, luma_decoding, GrayImage};
use crate::render::{even_odd, queue_even_odd, RenderTask};

verus! {

/// An error reported to the client that made a request.
#[derive(Debug)]
pub enum ApiError {
    InternalError(String),
    BadRequest(String),
    IoError(String),
    ImageError(image::ImageError),
    JoinError(String),
    SendError(String),
}

impl ApiError {
    /// HTTP status of the error: the client's input is at fault (400) for a
    /// bad request and for bytes that are no image; the server (500) otherwise.
    pub fn status_code(&self) -> (r: u16)
        ensures
            r == (match self {
                ApiError::BadRequest(_) | ApiError::IoError(_) | ApiError::ImageError(_) => 400u16,
                _ => 500u16,
            }),
    {
        match self {
            ApiError::InternalError(_) => 500,
            ApiError::BadRequest(_) => 400,
            ApiError::IoError(_) => 400,
            ApiError::ImageError(_) => 400,
            ApiError::JoinError(_) => 500,
            ApiError::SendError(_) => 500,
        }
    }
}

/// Reply to a request whose tasks were queued.
#[derive(Debug, Clone, Copy, PartialEq, Eq, Structural)]
pub struct RenderResponse {
    /// Tasks waiting in the queue once the request's tasks were added.
    pub queue_len: usize,
    pub queued: bool,
}

impl RenderResponse {
    pub fn queued(queue_len: usize) -> (r: RenderResponse)
        ensures
            r.queue_len == queue_len,
            r.queued,
    {
        RenderResponse { queue_len, queued: true }
    }
}

/// The task for the images given for each side: both sides, one side, or a
/// bad request where there is none.
pub fn task_from_images(left: Option<GrayImage>, right: Option<GrayImage>) -> (r: Result<
    RenderTask,
    ApiError,
>)
    ensures
        (left, right) matches (Some(l), Some(rt)) ==> (r matches Ok(RenderTask::Both(a, b)) && a == l
            && b == rt),
        (left, right) matches (Some(l), None) ==> (r matches Ok(RenderTask::Left(a)) && a == l),
        (left, right) matches (None, Some(rt)) ==> (r matches Ok(RenderTask::Right(b)) && b == rt),
        (left, right) matches (None, None) ==> (r matches Err(ApiError::BadRequest(m)) && m@
            == "No images provided"@),
{
    match (left, right) {
        (Some(l), Some(rt)) => Ok(RenderTask::Both(l, rt)),
        (Some(l), None) => Ok(RenderTask::Left(l)),
        (None, Some(rt)) => Ok(RenderTask::Right(rt)),
        (None, None) => Err(ApiError::BadRequest(String::from_str("No images provided"))),
    }
}

/// Decodes an uploaded image; bytes that are no image give an image error.
pub fn buf_to_gray_image(buf: &[u8]) -> (r: Result<GrayImage, ApiError>)
    ensures
        r is Ok <==> luma_decoding(buf@) is Some,
        r matches Ok(img) ==> is_decoded(img, luma_decoding(buf@)->Some_0),
        r matches Err(e) ==> e is ImageError,
{
    match decode_gray_image(buf) {
        Ok(img) => Ok(img),
        Err(e) => Err(ApiError::ImageError(e)),
    }
}

/// The bytes of an optional buffer.
pub open spec fn bytes_of(buf: Option<Vec<u8>>) -> Option<Seq<u8>> {
    match buf {
        Some(b) => Some(b@),
        None => None,
    }
}

/// A buffer is given and does not decode.
pub open spec fn fails_to_decode(buf: Option<Seq<u8>>) -> bool {
    match buf {
        Some(b) => luma_decoding(b) is None,
        None => false,
    }
}

/// `task` names the sides for which a buffer is given, each with the image
/// its buffer decodes to.
pub open spec fn task_of_decoded(task: RenderTask, left: Option<Seq<u8>>, right: Option<Seq<u8>>) -> bool {
    match (task, left, right) {
        (RenderTask::Both(a, b), Some(l), Some(rb)) => is_decoded(a, luma_decoding(l)->Some_0)
            && is_decoded(b, luma_decoding(rb)->Some_0),
        (RenderTask::Left(a), Some(l), None) => is_decoded(a, luma_decoding(l)->Some_0),
        (RenderTask::Right(b), None, Some(rb)) => is_decoded(b, luma_decoding(rb)->Some_0),
        _ => false,
    }
}

/// What a request with encoded images `left` and `right` gives: a bad
/// request without images, an image error where a given one does not
/// decode, else the task with the decoded images.
pub open spec fn prepared(left: Option<Seq<u8>>, right: Option<Seq<u8>>, r: Result<RenderTask, ApiError>) -> bool {
    if left is None && right is None {
        r matches Err(ApiError::BadRequest(m)) && m@ == "No images provided"@
    } else if fails_to_decode(left) || fails_to_decode(right) {
        r matches Err(ApiError::ImageError(_))
    } else {
        match r {
            Ok(task) => task_of_decoded(task, left, right),
            Err(_) => false,
        }
    }
}

/// The task for a request with an encoded image for the left side, the
/// right side, or both. The left image is decoded first; the first that
/// fails to decode fails the request.
pub fn prepare_task(left_image: Option<Vec<u8>>, right_image: Option<Vec<u8>>) -> (r: Result<
    RenderTask,
    ApiError,
>)
    ensures
        prepared(bytes_of(left_image), bytes_of(right_image), r),
{
    let left = match left_image {
        Some(buf) => match buf_to_gray_image(buf.as_slice()) {
            Ok(img) => Some(img),
            Err(e) => {
                return Err(e);
            },
        },
        None => None,
    };
    let right = match right_image {
        Some(buf) => match buf_to_gray_image(buf.as_slice()) {
            Ok(img) => Some(img),
            Err(e) => {
                return Err(e);
            },
        },
        None => None,
    };
    task_from_images(left, right)
}

/// The tasks for images uploaded as files, in upload order, given which
/// sides are configured: with both, images pair up (see `queue_even_odd`);
/// with one, each image is a task for that side; with none, an internal error.
pub fn tasks_for_files(images: Vec<GrayImage>, left_configured: bool, right_configured: bool) -> (r:
    Result<Vec<RenderTask>, ApiError>)
    ensures
        left_configured && right_configured ==> (r matches Ok(tasks) && tasks@ == even_odd(images@)),
        left_configured && !right_configured ==> (r matches Ok(tasks) && tasks@ == images@.map_values(
            |img: GrayImage| RenderTask::Left(img),
        )),
        !left_configured && right_configured ==> (r matches Ok(tasks) && tasks@ == images@.map_values(
            |img: GrayImage| RenderTask::Right(img),
        )),
        !left_configured && !right_configured ==> (r matches Err(ApiError::InternalError(m)) && m@
            == "No ports configured"@),
{
    if left_configured && right_configured {
        Ok(queue_even_odd(images))
    } else if left_configured || right_configured {
        let ghost all = images@;
        let mut rest = images;
        let mut tasks: Vec<RenderTask> = Vec::new();
        while rest.len() > 0
            invariant
                tasks@.len() + rest@.len() == all.len(),
                rest@ == all.subrange(tasks@.len() as int, all.len() as int),
                left_configured ==> tasks@ == all.subrange(0, tasks@.len() as int).map_values(
                    |img: GrayImage| RenderTask::Left(img),
                ),
                !left_configured ==> tasks@ == all.subrange(0, tasks@.len() as int).map_values(
                    |img: GrayImage| RenderTask::Right(img),
                ),
            decreases rest@.len(),
        {
            let img = rest.remove(0);
            if left_configured {
                tasks.push(RenderTask::Left(img));
                assert(tasks@ =~= all.subrange(0, tasks@.len() as int).map_values(
                    |img: GrayImage| RenderTask::Left(img),
                ));
            } else {
                tasks.push(RenderTask::Right(img));
                assert(tasks@ =~= all.subrange(0, tasks@.len() as int).map_values(
                    |img: GrayImage| RenderTask::Right(img),
                ));
            }
            assert(rest@ =~= all.subrange(tasks@.len() as int, all.len() as int));
        }
        assert(all.subrange(0, all.len() as int) =~= all);
        Ok(tasks)
    } else {
        Err(ApiError::InternalError(String::from_str("No ports configured")))
    }
}

} // verus!
