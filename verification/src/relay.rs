//! The relay pipeline: error taxonomy, messages, decisions and response
//! assembly.
//!
//! Everything the relay decides between receiving raw bytes and answering
//! the caller lives here: whether an upload may be issued at all, what a
//! parsed upstream response means, how a failure is worded, and how the
//! final response with its two content headers is put together.  The
//! unverified binary only carries bytes between these functions and the
//! network.

use vstd::prelude::*;
use crate::bytes::dec_digits;
use crate::bytes::u64_to_dec;
use crate::media::media_parse_of;
use crate::media::parse_media_type;
use crate::media::MediaType;
use crate::shape::spec_parse_upstream;
use crate::shape::parse_upstream_response;
use crate::shape::CompressionDescriptor;
use crate::shape::DescS;
use crate::shape::UpstreamParse;
use crate::shape::UpstreamParseS;

verus! {

/// The bytes of `"OK"`: the health endpoint's body.
pub open spec fn lit_ok_body() -> Seq<u8> {
    seq![0x4fu8, 0x4bu8]
}

pub fn ok_body_vec() -> (v: Vec<u8>)
    ensures
        v@ == lit_ok_body(),
{
    let mut v: Vec<u8> = Vec::new();
    v.push(0x4fu8);
    v.push(0x4bu8);
    proof {
        assert(v@ =~= lit_ok_body());
    }
    v
}

/// The bytes of `"api key missed"`: the message for a missing credential.
pub open spec fn lit_api_key_missed() -> Seq<u8> {
    seq![0x61u8, 0x70u8, 0x69u8, 0x20u8, 0x6bu8, 0x65u8, 0x79u8, 0x20u8, 0x6du8, 0x69u8, 0x73u8, 0x73u8, 0x65u8, 0x64u8]
}

pub fn api_key_missed_vec() -> (v: Vec<u8>)
    ensures
        v@ == lit_api_key_missed(),
{
    let mut v: Vec<u8> = Vec::new();
    v.push(0x61u8);
    v.push(0x70u8);
    v.push(0x69u8);
    v.push(0x20u8);
    v.push(0x6bu8);
    v.push(0x65u8);
    v.push(0x79u8);
    v.push(0x20u8);
    v.push(0x6du8);
    v.push(0x69u8);
    v.push(0x73u8);
    v.push(0x73u8);
    v.push(0x65u8);
    v.push(0x64u8);
    proof {
        assert(v@ =~= lit_api_key_missed());
    }
    v
}

/// The bytes of `"request error: "`: the prefix of an upload transport failure.
pub open spec fn lit_request_error_prefix() -> Seq<u8> {
    seq![0x72u8, 0x65u8, 0x71u8, 0x75u8, 0x65u8, 0x73u8, 0x74u8, 0x20u8, 0x65u8, 0x72u8, 0x72u8, 0x6fu8, 0x72u8, 0x3au8, 0x20u8]
}

pub fn request_error_prefix_vec() -> (v: Vec<u8>)
    ensures
        v@ == lit_request_error_prefix(),
{
    let mut v: Vec<u8> = Vec::new();
    v.push(0x72u8);
    v.push(0x65u8);
    v.push(0x71u8);
    v.push(0x75u8);
    v.push(0x65u8);
    v.push(0x73u8);
    v.push(0x74u8);
    v.push(0x20u8);
    v.push(0x65u8);
    v.push(0x72u8);
    v.push(0x72u8);
    v.push(0x6fu8);
    v.push(0x72u8);
    v.push(0x3au8);
    v.push(0x20u8);
    proof {
        assert(v@ =~= lit_request_error_prefix());
    }
    v
}

/// The bytes of `"tinyapi returned an error: "`: the prefix of an upstream application error.
pub open spec fn lit_upstream_error_prefix() -> Seq<u8> {
    seq![0x74u8, 0x69u8, 0x6eu8, 0x79u8, 0x61u8, 0x70u8, 0x69u8, 0x20u8, 0x72u8, 0x65u8, 0x74u8, 0x75u8, 0x72u8, 0x6eu8, 0x65u8, 0x64u8, 0x20u8, 0x61u8, 0x6eu8, 0x20u8, 0x65u8, 0x72u8, 0x72u8, 0x6fu8, 0x72u8, 0x3au8, 0x20u8]
}

pub fn upstream_error_prefix_vec() -> (v: Vec<u8>)
    ensures
        v@ == lit_upstream_error_prefix(),
{
    let mut v: Vec<u8> = Vec::new();
    v.push(0x74u8);
    v.push(0x69u8);
    v.push(0x6eu8);
    v.push(0x79u8);
    v.push(0x61u8);
    v.push(0x70u8);
    v.push(0x69u8);
    v.push(0x20u8);
    v.push(0x72u8);
    v.push(0x65u8);
    v.push(0x74u8);
    v.push(0x75u8);
    v.push(0x72u8);
    v.push(0x6eu8);
    v.push(0x65u8);
    v.push(0x64u8);
    v.push(0x20u8);
    v.push(0x61u8);
    v.push(0x6eu8);
    v.push(0x20u8);
    v.push(0x65u8);
    v.push(0x72u8);
    v.push(0x72u8);
    v.push(0x6fu8);
    v.push(0x72u8);
    v.push(0x3au8);
    v.push(0x20u8);
    proof {
        assert(v@ =~= lit_upstream_error_prefix());
    }
    v
}

/// The bytes of `"unexpected upstream response shape"`: the message for a response of neither shape.
pub open spec fn lit_malformed_response() -> Seq<u8> {
    seq![0x75u8, 0x6eu8, 0x65u8, 0x78u8, 0x70u8, 0x65u8, 0x63u8, 0x74u8, 0x65u8, 0x64u8, 0x20u8, 0x75u8, 0x70u8, 0x73u8, 0x74u8, 0x72u8, 0x65u8, 0x61u8, 0x6du8, 0x20u8, 0x72u8, 0x65u8, 0x73u8, 0x70u8, 0x6fu8, 0x6eu8, 0x73u8, 0x65u8, 0x20u8, 0x73u8, 0x68u8, 0x61u8, 0x70u8, 0x65u8]
}

pub fn malformed_response_vec() -> (v: Vec<u8>)
    ensures
        v@ == lit_malformed_response(),
{
    let mut v: Vec<u8> = Vec::new();
    v.push(0x75u8);
    v.push(0x6eu8);
    v.push(0x65u8);
    v.push(0x78u8);
    v.push(0x70u8);
    v.push(0x65u8);
    v.push(0x63u8);
    v.push(0x74u8);
    v.push(0x65u8);
    v.push(0x64u8);
    v.push(0x20u8);
    v.push(0x75u8);
    v.push(0x70u8);
    v.push(0x73u8);
    v.push(0x74u8);
    v.push(0x72u8);
    v.push(0x65u8);
    v.push(0x61u8);
    v.push(0x6du8);
    v.push(0x20u8);
    v.push(0x72u8);
    v.push(0x65u8);
    v.push(0x73u8);
    v.push(0x70u8);
    v.push(0x6fu8);
    v.push(0x6eu8);
    v.push(0x73u8);
    v.push(0x65u8);
    v.push(0x20u8);
    v.push(0x73u8);
    v.push(0x68u8);
    v.push(0x61u8);
    v.push(0x70u8);
    v.push(0x65u8);
    proof {
        assert(v@ =~= lit_malformed_response());
    }
    v
}

/// The bytes of `"invalid media type"`: the message for an unparsable output type.
pub open spec fn lit_invalid_media_type() -> Seq<u8> {
    seq![0x69u8, 0x6eu8, 0x76u8, 0x61u8, 0x6cu8, 0x69u8, 0x64u8, 0x20u8, 0x6du8, 0x65u8, 0x64u8, 0x69u8, 0x61u8, 0x20u8, 0x74u8, 0x79u8, 0x70u8, 0x65u8]
}

pub fn invalid_media_type_vec() -> (v: Vec<u8>)
    ensures
        v@ == lit_invalid_media_type(),
{
    let mut v: Vec<u8> = Vec::new();
    v.push(0x69u8);
    v.push(0x6eu8);
    v.push(0x76u8);
    v.push(0x61u8);
    v.push(0x6cu8);
    v.push(0x69u8);
    v.push(0x64u8);
    v.push(0x20u8);
    v.push(0x6du8);
    v.push(0x65u8);
    v.push(0x64u8);
    v.push(0x69u8);
    v.push(0x61u8);
    v.push(0x20u8);
    v.push(0x74u8);
    v.push(0x79u8);
    v.push(0x70u8);
    v.push(0x65u8);
    proof {
        assert(v@ =~= lit_invalid_media_type());
    }
    v
}

/// The bytes of `"something went wrong: "`: the prefix of every failure body.
pub open spec fn lit_wrong_prefix() -> Seq<u8> {
    seq![0x73u8, 0x6fu8, 0x6du8, 0x65u8, 0x74u8, 0x68u8, 0x69u8, 0x6eu8, 0x67u8, 0x20u8, 0x77u8, 0x65u8, 0x6eu8, 0x74u8, 0x20u8, 0x77u8, 0x72u8, 0x6fu8, 0x6eu8, 0x67u8, 0x3au8, 0x20u8]
}

pub fn wrong_prefix_vec() -> (v: Vec<u8>)
    ensures
        v@ == lit_wrong_prefix(),
{
    let mut v: Vec<u8> = Vec::new();
    v.push(0x73u8);
    v.push(0x6fu8);
    v.push(0x6du8);
    v.push(0x65u8);
    v.push(0x74u8);
    v.push(0x68u8);
    v.push(0x69u8);
    v.push(0x6eu8);
    v.push(0x67u8);
    v.push(0x20u8);
    v.push(0x77u8);
    v.push(0x65u8);
    v.push(0x6eu8);
    v.push(0x74u8);
    v.push(0x20u8);
    v.push(0x77u8);
    v.push(0x72u8);
    v.push(0x6fu8);
    v.push(0x6eu8);
    v.push(0x67u8);
    v.push(0x3au8);
    v.push(0x20u8);
    proof {
        assert(v@ =~= lit_wrong_prefix());
    }
    v
}

/// The bytes of `"attachment; filename="`: the prefix of the content-disposition header.
pub open spec fn lit_attachment_prefix() -> Seq<u8> {
    seq![0x61u8, 0x74u8, 0x74u8, 0x61u8, 0x63u8, 0x68u8, 0x6du8, 0x65u8, 0x6eu8, 0x74u8, 0x3bu8, 0x20u8, 0x66u8, 0x69u8, 0x6cu8, 0x65u8, 0x6eu8, 0x61u8, 0x6du8, 0x65u8, 0x3du8]
}

pub fn attachment_prefix_vec() -> (v: Vec<u8>)
    ensures
        v@ == lit_attachment_prefix(),
{
    let mut v: Vec<u8> = Vec::new();
    v.push(0x61u8);
    v.push(0x74u8);
    v.push(0x74u8);
    v.push(0x61u8);
    v.push(0x63u8);
    v.push(0x68u8);
    v.push(0x6du8);
    v.push(0x65u8);
    v.push(0x6eu8);
    v.push(0x74u8);
    v.push(0x3bu8);
    v.push(0x20u8);
    v.push(0x66u8);
    v.push(0x69u8);
    v.push(0x6cu8);
    v.push(0x65u8);
    v.push(0x6eu8);
    v.push(0x61u8);
    v.push(0x6du8);
    v.push(0x65u8);
    v.push(0x3du8);
    proof {
        assert(v@ =~= lit_attachment_prefix());
    }
    v
}

/// The bytes of `"api"`: the fixed HTTP Basic username.
pub open spec fn lit_basic_user() -> Seq<u8> {
    seq![0x61u8, 0x70u8, 0x69u8]
}

pub fn basic_user_vec() -> (v: Vec<u8>)
    ensures
        v@ == lit_basic_user(),
{
    let mut v: Vec<u8> = Vec::new();
    v.push(0x61u8);
    v.push(0x70u8);
    v.push(0x69u8);
    proof {
        assert(v@ =~= lit_basic_user());
    }
    v
}

/// The bytes of `"https://api.tinify.com/shrink"`: the upstream upload endpoint.
pub open spec fn lit_upload_endpoint() -> Seq<u8> {
    seq![0x68u8, 0x74u8, 0x74u8, 0x70u8, 0x73u8, 0x3au8, 0x2fu8, 0x2fu8, 0x61u8, 0x70u8, 0x69u8, 0x2eu8, 0x74u8, 0x69u8, 0x6eu8, 0x69u8, 0x66u8, 0x79u8, 0x2eu8, 0x63u8, 0x6fu8, 0x6du8, 0x2fu8, 0x73u8, 0x68u8, 0x72u8, 0x69u8, 0x6eu8, 0x6bu8]
}

pub fn upload_endpoint_vec() -> (v: Vec<u8>)
    ensures
        v@ == lit_upload_endpoint(),
{
    let mut v: Vec<u8> = Vec::new();
    v.push(0x68u8);
    v.push(0x74u8);
    v.push(0x74u8);
    v.push(0x70u8);
    v.push(0x73u8);
    v.push(0x3au8);
    v.push(0x2fu8);
    v.push(0x2fu8);
    v.push(0x61u8);
    v.push(0x70u8);
    v.push(0x69u8);
    v.push(0x2eu8);
    v.push(0x74u8);
    v.push(0x69u8);
    v.push(0x6eu8);
    v.push(0x69u8);
    v.push(0x66u8);
    v.push(0x79u8);
    v.push(0x2eu8);
    v.push(0x63u8);
    v.push(0x6fu8);
    v.push(0x6du8);
    v.push(0x2fu8);
    v.push(0x73u8);
    v.push(0x68u8);
    v.push(0x72u8);
    v.push(0x69u8);
    v.push(0x6eu8);
    v.push(0x6bu8);
    proof {
        assert(v@ =~= lit_upload_endpoint());
    }
    v
}

// ---------------------------------------------------------------------------
// The error taxonomy.
// ---------------------------------------------------------------------------

/// Mathematical form of a relay failure.
pub ghost enum RelayErrorS {
    /// The secret credential is not configured.
    NoCredential,
    /// The upload call failed at the network layer; the detail comes from
    /// the HTTP client.
    Transport(Seq<u8>),
    /// The upstream service rejected the request with a structured error.
    Upstream { code: Seq<u8>, message: Seq<u8> },
    /// The response body parsed as neither documented shape.
    MalformedResponse,
    /// The descriptor arrived but the artifact could not be downloaded.
    Download(Seq<u8>),
    /// The descriptor's output type is not a valid media type.
    MediaType,
}

/// One failure of the relay pipeline.  Every stage collapses into this one
/// taxonomy, and every value of it collapses into one HTTP 500 at the
/// surface.
#[derive(Debug)]
pub enum RelayError {
    NoCredential,
    Transport(Vec<u8>),
    Upstream { code: Vec<u8>, message: Vec<u8> },
    MalformedResponse,
    Download(Vec<u8>),
    MediaType,
}

impl View for RelayError {
    type V = RelayErrorS;

    open spec fn view(&self) -> RelayErrorS {
        match self {
            RelayError::NoCredential => RelayErrorS::NoCredential,
            RelayError::Transport(d) => RelayErrorS::Transport(d@),
            RelayError::Upstream { code, message } => RelayErrorS::Upstream {
                code: code@,
                message: message@,
            },
            RelayError::MalformedResponse => RelayErrorS::MalformedResponse,
            RelayError::Download(d) => RelayErrorS::Download(d@),
            RelayError::MediaType => RelayErrorS::MediaType,
        }
    }
}

/// The lowest-level description of a failure, the text an operator reads.
/// An upstream application error carries the upstream message verbatim; a
/// download failure surfaces the HTTP client's own words.
pub open spec fn spec_error_message(e: RelayErrorS) -> Seq<u8> {
    match e {
        RelayErrorS::NoCredential => lit_api_key_missed(),
        RelayErrorS::Transport(d) => lit_request_error_prefix() + d,
        RelayErrorS::Upstream { code, message } => lit_upstream_error_prefix() + message,
        RelayErrorS::MalformedResponse => lit_malformed_response(),
        RelayErrorS::Download(d) => d,
        RelayErrorS::MediaType => lit_invalid_media_type(),
    }
}

pub fn error_message(e: &RelayError) -> (r: Vec<u8>)
    ensures
        r@ == spec_error_message(e@),
{
    match e {
        RelayError::NoCredential => api_key_missed_vec(),
        RelayError::Transport(d) => {
            let mut v = request_error_prefix_vec();
            v.extend_from_slice(d.as_slice());
            v
        },
        RelayError::Upstream { code, message } => {
            let mut v = upstream_error_prefix_vec();
            v.extend_from_slice(message.as_slice());
            v
        },
        RelayError::MalformedResponse => malformed_response_vec(),
        RelayError::Download(d) => {
            let mut v: Vec<u8> = Vec::new();
            v.extend_from_slice(d.as_slice());
            proof {
                assert(v@ =~= d@);
            }
            v
        },
        RelayError::MediaType => invalid_media_type_vec(),
    }
}

/// The body of every failure response: a fixed prefix, then the error text.
pub open spec fn spec_failure_body(e: RelayErrorS) -> Seq<u8> {
    lit_wrong_prefix() + spec_error_message(e)
}

pub fn failure_body(e: &RelayError) -> (r: Vec<u8>)
    ensures
        r@ == spec_failure_body(e@),
{
    let mut v = wrong_prefix_vec();
    let m = error_message(e);
    v.extend_from_slice(m.as_slice());
    v
}

// ---------------------------------------------------------------------------
// The upload decision.
// ---------------------------------------------------------------------------

/// The one outbound upload the relay is allowed to issue: an authenticated
/// POST of the raw bytes to the fixed upstream endpoint, HTTP Basic, the
/// fixed username, the configured credential as password.
pub struct UploadPlan {
    pub endpoint: Vec<u8>,
    pub user: Vec<u8>,
    pub credential: Vec<u8>,
    pub body: Vec<u8>,
}

/// Decide whether an upload may be issued.  Without a configured credential
/// no plan is produced, so no outbound call can be made; with one, the plan
/// carries the fixed endpoint, the fixed username, the credential and the
/// caller's bytes unchanged.
pub fn upload_action(credential: Option<Vec<u8>>, body: Vec<u8>) -> (r: Result<
    UploadPlan,
    RelayError,
>)
    ensures
        match r {
            Ok(plan) => credential matches Some(k) && plan.credential@ == k@ && plan.body@
                == body@ && plan.endpoint@ == lit_upload_endpoint() && plan.user@
                == lit_basic_user(),
            Err(e) => credential is None && e@ == RelayErrorS::NoCredential,
        },
{
    match credential {
        Some(k) => Ok(
            UploadPlan {
                endpoint: upload_endpoint_vec(),
                user: basic_user_vec(),
                credential: k,
                body,
            },
        ),
        None => Err(RelayError::NoCredential),
    }
}

/// What a parsed upstream response body decides: a descriptor is success,
/// the error shape surfaces the upstream code and message, anything else is
/// a malformed response.
pub open spec fn upload_decision(p: UpstreamParseS) -> Result<DescS, RelayErrorS> {
    match p {
        UpstreamParseS::Descriptor(d) => Ok(d),
        UpstreamParseS::ApiError { code, message } => Err(
            RelayErrorS::Upstream { code, message },
        ),
        UpstreamParseS::Malformed => Err(RelayErrorS::MalformedResponse),
    }
}

/// Classify the body of an upstream response that arrived in full: parse it
/// as one of the two documented shapes and turn it into the upload's
/// outcome.
pub fn classify_upload_response(body: &Vec<u8>) -> (r: Result<CompressionDescriptor, RelayError>)
    ensures
        match r {
            Ok(d) => upload_decision(spec_parse_upstream(body@)) == Ok::<DescS, RelayErrorS>(d@),
            Err(e) => upload_decision(spec_parse_upstream(body@)) == Err::<DescS, RelayErrorS>(
                e@,
            ),
        },
{
    match parse_upstream_response(body) {
        UpstreamParse::Descriptor(d) => Ok(d),
        UpstreamParse::ApiError { code, message } => Err(RelayError::Upstream { code, message }),
        UpstreamParse::Malformed => Err(RelayError::MalformedResponse),
    }
}

// ---------------------------------------------------------------------------
// Response assembly.
// ---------------------------------------------------------------------------

/// The generated attachment filename: the wall-clock seconds in decimal, a
/// period, the media subtype.
pub open spec fn spec_filename(now_secs: u64, sub: Seq<u8>) -> Seq<u8> {
    dec_digits(now_secs as nat) + seq![0x2eu8] + sub
}

/// The value of the content-disposition header for that filename.
pub open spec fn spec_disposition(now_secs: u64, sub: Seq<u8>) -> Seq<u8> {
    lit_attachment_prefix() + spec_filename(now_secs, sub)
}

/// The final artifact: the compressed bytes and the two headers that
/// deliver them.
pub struct RelayResponse {
    pub body: Vec<u8>,
    pub content_type: Vec<u8>,
    pub content_disposition: Vec<u8>,
}

/// Assemble the outgoing response once the artifact has been downloaded.
/// The body is the downloaded bytes unchanged; the content type echoes the
/// descriptor's output type exactly; the disposition names a file after the
/// moment and the subtype.  An output type that is no valid media type is
/// the pipeline's one failure after a successful download.
pub fn assemble_relay_response(
    desc: &CompressionDescriptor,
    downloaded: Vec<u8>,
    now_secs: u64,
) -> (r: Result<RelayResponse, RelayError>)
    ensures
        match r {
            Ok(resp) => media_parse_of(desc.output_type@) matches Some(ts) && resp.body@
                == downloaded@ && resp.content_type@ == desc.output_type@
                && resp.content_disposition@ == spec_disposition(now_secs, ts.1),
            Err(e) => media_parse_of(desc.output_type@) is None && e@ == RelayErrorS::MediaType,
        },
{
    match parse_media_type(&desc.output_type) {
        None => Err(RelayError::MediaType),
        Some(mt) => {
            let mut disposition = attachment_prefix_vec();
            let stamp = u64_to_dec(now_secs);
            disposition.extend_from_slice(stamp.as_slice());
            disposition.push(0x2eu8);
            let MediaType { top: _, sub } = mt;
            disposition.extend_from_slice(sub.as_slice());
            let mut content_type: Vec<u8> = Vec::new();
            content_type.extend_from_slice(desc.output_type.as_slice());
            proof {
                assert(content_type@ =~= desc.output_type@);
                assert(disposition@ =~= spec_disposition(now_secs, sub@));
            }
            Ok(RelayResponse { body: downloaded, content_type, content_disposition: disposition })
        },
    }
}

// ---------------------------------------------------------------------------
// The HTTP surface.
// ---------------------------------------------------------------------------

/// One outgoing HTTP response of the relay: a status, a body, and the
/// content headers when the pipeline succeeded.
pub struct HttpResponse {
    pub status: u16,
    pub body: Vec<u8>,
    pub content_type: Option<Vec<u8>>,
    pub content_disposition: Option<Vec<u8>>,
}

/// The liveness answer: always 200 with body `OK`, whatever the state of
/// the upstream service or the credential.
pub fn health_response() -> (r: HttpResponse)
    ensures
        r.status == 200,
        r.body@ == lit_ok_body(),
        r.content_type is None,
        r.content_disposition is None,
{
    HttpResponse {
        status: 200,
        body: ok_body_vec(),
        content_type: None,
        content_disposition: None,
    }
}

/// Normalize the pipeline's outcome into the one HTTP response the caller
/// sees: 200 with the artifact and its two headers, or 500 whose body is
/// the failure text and nothing else - no downloaded bytes ever reach a
/// failure body.
pub fn compress_response(outcome: Result<RelayResponse, RelayError>) -> (r: HttpResponse)
    ensures
        match outcome {
            Ok(resp) => r.status == 200 && r.body@ == resp.body@ && (r.content_type
                matches Some(ct) && ct@ == resp.content_type@) && (r.content_disposition
                matches Some(cd) && cd@ == resp.content_disposition@),
            Err(e) => r.status == 500 && r.body@ == spec_failure_body(e@) && r.content_type
                is None && r.content_disposition is None,
        },
{
    match outcome {
        Ok(resp) => {
            let RelayResponse { body, content_type, content_disposition } = resp;
            HttpResponse {
                status: 200,
                body,
                content_type: Some(content_type),
                content_disposition: Some(content_disposition),
            }
        },
        Err(e) => HttpResponse {
            status: 500,
            body: failure_body(&e),
            content_type: None,
            content_disposition: None,
        },
    }
}

} // verus!
