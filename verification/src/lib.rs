//! Verified request-dispatch and protocol core of a small HTTP front end
//! for an image-segmentation service.
//!
//! The library models requests, responses and handler outcomes as plain
//! values, decides routing and CORS policy, implements the base64 wire
//! codec and the mask post-processing pipeline, and proves the dispatch
//! chain's ordering guarantees. Socket handling, threads and the neural
//! inference collaborator live outside the library and talk to it through
//! plain values.

pub mod codec;
pub mod content_type;
pub mod dispatch;
pub mod handlers;
pub mod http;
pub mod mask;
pub mod segment;

pub use codec::base64_round_trip;
pub use codec::decode_base64;
pub use codec::encode_base64;
pub use content_type::get_content_type;
pub use dispatch::finish_chain;
pub use handlers::ApiRoute;
pub use handlers::FileProbe;
pub use handlers::backend_api;
pub use handlers::backend_api_route;
pub use handlers::foo_response;
pub use handlers::preflight_response;
pub use handlers::request_file;
pub use handlers::resolve_static_path;
pub use http::HandlerOutcome;
pub use http::HttpMethod;
pub use http::HttpResponse;
pub use http::OutcomeModel;
pub use http::ResponseModel;
pub use mask::RawMask;
pub use mask::SegmentResult;
pub use mask::postprocess_mask;
pub use segment::Category;
pub use segment::Point;
pub use segment::SegmentationRequest;
pub use segment::resize_longest_dims;
pub use segment::sam_begin;
pub use segment::sam_finish;
pub use segment::sam_respond;
pub use segment::segmentation_reply;
