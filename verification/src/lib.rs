//! Core of an asynchronous job-queue worker: a compact random job identifier
//! with a fixed wire form, a deterministic key namespace over a shared
//! key-value store, the consumer-group protocol of the submission queue, the
//! worker's per-entry dispatch state machine, and the staging of scratch data
//! for the external conversion engine.
//!
//! Everything here is pure decision logic, verified end to end.  The
//! unverified shell around it performs the actual store traffic, signal
//! handling and subprocess work, and feeds the outcomes back in as plain
//! values.

pub mod dispatch;
pub mod keys;
pub mod records;
pub mod request_id;
pub mod settings;
pub mod setup;
pub mod staging;
pub mod store;
pub mod worker;

pub use keys::image_key;
pub use keys::input_key;
pub use keys::processed_image_key;
pub use keys::result_key;
pub use records::ImageRequest;
pub use records::ImageType;
pub use records::RequestSettings;
pub use records::ResultType;
pub use records::StoredImage;
pub use request_id::RequestId;
pub use request_id::TryFromRequestIdError;
pub use settings::HttpSettings;
pub use settings::Limits;
pub use settings::RedisSettings;
