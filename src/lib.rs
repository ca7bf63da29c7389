//! A typed client library for the Stability image-generation REST API:
//! validated request builders, JSON and multipart/form-data encoding of
//! requests, request targets, and the plain data of responses. Sending a
//! request and reading files are left to the caller.
pub mod client;
pub mod engine;
pub mod error;
pub mod generation;
pub mod img_to_img;
pub mod json;
pub mod masking;
pub mod text;
pub mod text_to_img;
pub mod upscale;
pub mod user;

pub use crate::client::{
    ACCEPT, APPLICATION_JSON, CONTENT_TYPE, DELETE, GET, IMAGE_PNG, POST,
};
pub use crate::error::{ApiResponseError, Error, ImageBuilderError};
pub use crate::generation::{
    ClipGuidancePreset, Image, ImageResponse, MultipartFormData, Sampler, StylePreset, TextPrompt,
    Thousandths,
};
