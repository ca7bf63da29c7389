//! The library's errors and the text that describes each of them.
use crate::text::{decimal, decimal_string};
use vstd::prelude::*;
use vstd::string::*;

verus! {

/// The structured error body that the API returns with a non-200 status.
#[derive(Debug)]
pub struct ApiResponseError {
    pub id: String,
    pub name: String,
    pub message: String,
}

/// The text that describes an API error.
pub open spec fn api_error_text(e: ApiResponseError) -> Seq<char> {
    "id: "@ + e.id@ + ", name: "@ + e.name@ + ", message: "@ + e.message@
}

impl ApiResponseError {
    /// Describes the error as `id: .., name: .., message: ..`.
    pub fn describe(&self) -> (r: String)
        ensures
            r@ == api_error_text(*self),
    {
        let mut s = String::from_str("id: ");
        s.append(self.id.as_str());
        s.append(", name: ");
        s.append(self.name.as_str());
        s.append(", message: ");
        s.append(self.message.as_str());
        assert(s@ =~= api_error_text(*self));
        s
    }
}

/// Errors of building a client, sending a request and decoding a response.
#[derive(Debug)]
pub enum Error {
    /// A client was built without a request target.
    ClientBuildError(String),
    /// The API answered with a non-200 status and this error body.
    ClientSendRequestError(ApiResponseError),
    /// The request target is not a valid URI.
    InvalidUri(String),
    /// The text is not a valid HTTP method.
    InvalidMethod(String),
    /// The text is not a valid header name.
    InvalidHeaderName(String),
    /// The text is not a valid header value.
    InvalidHeaderValue(String),
    /// A file part was given a path without an extension.
    InvalidFilePath(String),
    /// An image payload is not valid base64.
    Base64Decode,
}

/// The message of each error.
pub open spec fn error_text(e: Error) -> Seq<char> {
    match e {
        Error::ClientBuildError(s) => "Client build error: "@ + s@,
        Error::ClientSendRequestError(a) => api_error_text(a),
        Error::InvalidUri(s) => "invalid URI: "@ + s@,
        Error::InvalidMethod(s) => "invalid HTTP method: "@ + s@,
        Error::InvalidHeaderName(s) => "invalid header name: "@ + s@,
        Error::InvalidHeaderValue(s) => "invalid header value: "@ + s@,
        Error::InvalidFilePath(s) => "Invalid file path: "@ + s@,
        Error::Base64Decode => "the image payload is not valid base64"@,
    }
}

fn with_text(prefix: &str, s: &String) -> (r: String)
    ensures
        r@ == prefix@ + s@,
{
    let mut m = String::from_str(prefix);
    m.append(s.as_str());
    m
}

impl Error {
    /// The message that describes this error.
    pub fn message(&self) -> (r: String)
        ensures
            r@ == error_text(*self),
    {
        match self {
            Error::ClientBuildError(s) => with_text("Client build error: ", s),
            Error::ClientSendRequestError(a) => a.describe(),
            Error::InvalidUri(s) => with_text("invalid URI: ", s),
            Error::InvalidMethod(s) => with_text("invalid HTTP method: ", s),
            Error::InvalidHeaderName(s) => with_text("invalid header name: ", s),
            Error::InvalidHeaderValue(s) => with_text("invalid header value: ", s),
            Error::InvalidFilePath(s) => with_text("Invalid file path: ", s),
            Error::Base64Decode => String::from_str("the image payload is not valid base64"),
        }
    }
}

/// Validation and configuration errors of the request builders.
#[derive(Debug, PartialEq, Eq)]
pub enum ImageBuilderError {
    HeightNotMultipleOf64(u32),
    HeightLessThan128(u32),
    WidthNotMultipleOf64(u32),
    WidthLessThan128(u32),
    CfgScaleGreaterThan35(u32),
    SamplesGreaterThan10(u32),
    StepsGreaterThan150(u32),
    StepsLessThan10(u32),
    StylePresetNotSet,
    TextPromptEmpty,
    InitImageReadError(String),
    InitImagePathNotSet,
    UpscaleHeightLessThan512(u32),
    UpscaleWidthLessThan512(u32),
    UpscaleImagePathNotSet,
    UpscaleWidthHeightConflict,
    MaskSourceNotSet,
    MaskImagePathNotSet,
}

/// The message of each builder error; a value that was rejected is named in
/// decimal at its end.
pub open spec fn builder_error_text(e: ImageBuilderError) -> Seq<char> {
    match e {
        ImageBuilderError::HeightNotMultipleOf64(v) => "height must be a multiple of 64, but was "@
            + decimal(v as nat),
        ImageBuilderError::HeightLessThan128(v) => "height must not be less than 128, but was "@
            + decimal(v as nat),
        ImageBuilderError::WidthNotMultipleOf64(v) => "width must be a multiple of 64, but was "@
            + decimal(v as nat),
        ImageBuilderError::WidthLessThan128(v) => "width must not be less than 128, but was "@
            + decimal(v as nat),
        ImageBuilderError::CfgScaleGreaterThan35(v) => "cfg_scale must be no greater than 35, but was "@
            + decimal(v as nat),
        ImageBuilderError::SamplesGreaterThan10(v) => "samples must be no greater than 10, but was "@
            + decimal(v as nat),
        ImageBuilderError::StepsGreaterThan150(v) => "steps must be no greater than 150, but was "@
            + decimal(v as nat),
        ImageBuilderError::StepsLessThan10(v) => "steps must be no less than 10, but was "@ + decimal(
            v as nat,
        ),
        ImageBuilderError::StylePresetNotSet => "a style preset must be set"@,
        ImageBuilderError::TextPromptEmpty => "a text prompt must not be empty"@,
        ImageBuilderError::InitImageReadError(s) => "failed to read init image: "@ + s@,
        ImageBuilderError::InitImagePathNotSet => "init image path must be set"@,
        ImageBuilderError::UpscaleHeightLessThan512(v) =>
            "upscale height must be greater or equal to 512, but was "@ + decimal(v as nat),
        ImageBuilderError::UpscaleWidthLessThan512(v) =>
            "upscale width must be greater or equal to 512, but was "@ + decimal(v as nat),
        ImageBuilderError::UpscaleImagePathNotSet => "upscale image path must be set"@,
        ImageBuilderError::UpscaleWidthHeightConflict => "only one of width or height may be specified"@,
        ImageBuilderError::MaskSourceNotSet => "a mask source must be set"@,
        ImageBuilderError::MaskImagePathNotSet =>
            "mask image path must be set when using a black or white mask source"@,
    }
}

fn with_value(prefix: &str, v: u32) -> (r: String)
    ensures
        r@ == prefix@ + decimal(v as nat),
{
    let mut s = String::from_str(prefix);
    let d = decimal_string(v as u64);
    s.append(d.as_str());
    s
}

impl ImageBuilderError {
    /// The message that describes this error.
    pub fn message(&self) -> (r: String)
        ensures
            r@ == builder_error_text(*self),
    {
        match self {
            ImageBuilderError::HeightNotMultipleOf64(v) => with_value(
                "height must be a multiple of 64, but was ",
                *v,
            ),
            ImageBuilderError::HeightLessThan128(v) => with_value(
                "height must not be less than 128, but was ",
                *v,
            ),
            ImageBuilderError::WidthNotMultipleOf64(v) => with_value(
                "width must be a multiple of 64, but was ",
                *v,
            ),
            ImageBuilderError::WidthLessThan128(v) => with_value(
                "width must not be less than 128, but was ",
                *v,
            ),
            ImageBuilderError::CfgScaleGreaterThan35(v) => with_value(
                "cfg_scale must be no greater than 35, but was ",
                *v,
            ),
            ImageBuilderError::SamplesGreaterThan10(v) => with_value(
                "samples must be no greater than 10, but was ",
                *v,
            ),
            ImageBuilderError::StepsGreaterThan150(v) => with_value(
                "steps must be no greater than 150, but was ",
                *v,
            ),
            ImageBuilderError::StepsLessThan10(v) => with_value(
                "steps must be no less than 10, but was ",
                *v,
            ),
            ImageBuilderError::StylePresetNotSet => String::from_str("a style preset must be set"),
            ImageBuilderError::TextPromptEmpty => String::from_str("a text prompt must not be empty"),
            ImageBuilderError::InitImageReadError(s) => {
                let mut m = String::from_str("failed to read init image: ");
                m.append(s.as_str());
                m
            },
            ImageBuilderError::InitImagePathNotSet => String::from_str("init image path must be set"),
            ImageBuilderError::UpscaleHeightLessThan512(v) => with_value(
                "upscale height must be greater or equal to 512, but was ",
                *v,
            ),
            ImageBuilderError::UpscaleWidthLessThan512(v) => with_value(
                "upscale width must be greater or equal to 512, but was ",
                *v,
            ),
            ImageBuilderError::UpscaleImagePathNotSet => String::from_str(
                "upscale image path must be set",
            ),
            ImageBuilderError::UpscaleWidthHeightConflict => String::from_str(
                "only one of width or height may be specified",
            ),
            ImageBuilderError::MaskSourceNotSet => String::from_str("a mask source must be set"),
            ImageBuilderError::MaskImagePathNotSet => String::from_str(
                "mask image path must be set when using a black or white mask source",
            ),
        }
    }
}

} // verus!
