//! The plain records exchanged around the pipeline: the shape of a stored
//! image, a full image request, the per-request processing settings, and
//! the kinds of result a client can ask for.

use vstd::prelude::*;

verus! {

/// The accepted image encodings of an upload.
#[derive(Copy, Clone, Debug, PartialEq, Eq, Structural)]
pub enum ImageType {
    PNG,
    JPEG,
}

/// An uploaded image as the store holds it: its encoding and its bytes.
#[derive(Clone, Debug)]
pub struct StoredImage {
    pub image_type: ImageType,
    pub image: Vec<u8>,
}

/// A full conversion request: the job identifier's value with the image to
/// convert.
#[derive(Clone, Debug)]
pub struct ImageRequest {
    pub request_id: u32,
    pub image: StoredImage,
}

/// The per-request processing settings chosen by the client.
#[derive(Copy, Clone, Debug, PartialEq, Eq, Structural)]
pub struct RequestSettings {
    pub start_x: i32,
    pub end_x: i32,
    pub start_y: i32,
    pub end_y: i32,
    pub is_inverted: bool,
    pub is_low_quality: bool,
}

/// The kinds of artifact a client can retrieve for one job.
#[derive(Copy, Clone, Debug, PartialEq, Eq, Structural)]
pub enum ResultType {
    Model,
    Heightmap,
}

} // verus!
