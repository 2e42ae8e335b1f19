//! Uploads to the media service and deletions from it: the signed request
//! that is sent, and what the service's answer means.
//!
//! Sending is not done here, and the clock is not read here. The reading of
//! the clock is handed in and a request is built and handed out; the status
//! and the body of the answer are handed in.

use crate::signature::{is_lower_hex, sign, signature_of, SignatureParams};
use crate::structs::opt_text;
use crate::text::{decimal, find_char, first_index_of, skip_chars, starts_with, to_decimal};
use vstd::prelude::*;
use vstd::string::*;

verus! {

#[verifier::external_type_specification]
#[verifier::external_body]
pub struct ExDecodeError(base64::DecodeError);

#[verifier::external_type_specification]
#[verifier::external_body]
pub struct ExJsonError(serde_json::Error);

#[verifier::external_type_specification]
#[verifier::external_body]
pub struct ExJsonValue(serde_json::Value);

/// The bytes that a text stands for in standard base64 with padding, or
/// `None` where the text is no such encoding.
pub uninterp spec fn base64_decoded(text: Seq<char>) -> Option<Seq<u8>>;

/// The strings that a JSON value holds as members of an object: each key
/// under which a string stands, with that string. A value that is no object
/// holds none.
pub uninterp spec fn json_strings(value: serde_json::Value) -> Map<Seq<char>, Seq<char>>;

/// The strings that a JSON text holds as members of its top-level object, or
/// `None` where the text is not JSON.
pub uninterp spec fn json_document(text: Seq<char>) -> Option<Map<Seq<char>, Seq<char>>>;

/// Calls `decode` of the crate base64 on its `STANDARD` engine. The contract
/// claims that the outcome depends on the text alone, and gives it its name.
#[verifier::external_body]
fn base64_decode(text: &str) -> (r: Result<Vec<u8>, base64::DecodeError>)
    ensures
        base64_decoded(text@) == (match r {
            Ok(bytes) => Some(bytes@),
            Err(_) => None,
        }),
{
    base64::Engine::decode(&base64::prelude::BASE64_STANDARD, text)
}

/// Renders a decoding error of the crate base64 as that crate words it.
/// Nothing is claimed of the wording.
#[verifier::external_body]
fn decode_error_text(error: &base64::DecodeError) -> String {
    error.to_string()
}

/// Calls `serde_json::from_str` for a `Value`. The contract claims that the
/// outcome depends on the text alone: whether the text is JSON, and what
/// strings the value that comes out holds.
#[verifier::external_body]
fn parse_json(text: &str) -> (r: Result<serde_json::Value, serde_json::Error>)
    ensures
        json_document(text@) == (match r {
            Ok(value) => Some(json_strings(value)),
            Err(_) => None,
        }),
{
    serde_json::from_str(text)
}

/// Reads the string under `key` with `Value::get` and `Value::as_str`. The
/// contract claims that a string comes out where the value is an object that
/// holds a string under the key, and that it is that string.
#[verifier::external_body]
fn json_string(value: &serde_json::Value, key: &str) -> (r: Option<String>)
    ensures
        match r {
            Some(found) => json_strings(*value).dom().contains(key@) && json_strings(
                *value,
            )[key@] == found@,
            None => !json_strings(*value).dom().contains(key@),
        },
{
    value.get(key).and_then(|member| member.as_str()).map(|found| found.to_owned())
}

// ---------------------------------------------------------------------------
// Errors
// ---------------------------------------------------------------------------

/// What can go wrong with the media service.
#[derive(Debug, Clone)]
pub enum CloudinaryError {
    /// A setting that the service needs is not there; the field names it.
    NotSet(String),
    /// The image is not base64; the field says why.
    InvalidBase64(String),
    /// The service refused the upload; the field holds the body of its answer.
    UploadFailed(String),
    /// The service refused the deletion; the field holds the body of its answer.
    DeleteFailed(String),
    /// The service accepted the upload and its answer is not JSON.
    MalformedResponse,
    /// The service accepted the upload and its answer names no address.
    NoSecureUrl,
}

/// The value of a [`CloudinaryError`].
pub enum CloudinaryErrorView {
    NotSet(Seq<char>),
    InvalidBase64(Seq<char>),
    UploadFailed(Seq<char>),
    DeleteFailed(Seq<char>),
    MalformedResponse,
    NoSecureUrl,
}

impl View for CloudinaryError {
    type V = CloudinaryErrorView;

    open spec fn view(&self) -> CloudinaryErrorView {
        match self {
            CloudinaryError::NotSet(name) => CloudinaryErrorView::NotSet(name@),
            CloudinaryError::InvalidBase64(why) => CloudinaryErrorView::InvalidBase64(why@),
            CloudinaryError::UploadFailed(body) => CloudinaryErrorView::UploadFailed(body@),
            CloudinaryError::DeleteFailed(body) => CloudinaryErrorView::DeleteFailed(body@),
            CloudinaryError::MalformedResponse => CloudinaryErrorView::MalformedResponse,
            CloudinaryError::NoSecureUrl => CloudinaryErrorView::NoSecureUrl,
        }
    }
}

impl CloudinaryErrorView {
    /// The error in words.
    pub open spec fn message(self) -> Seq<char> {
        match self {
            CloudinaryErrorView::NotSet(name) => name + " not set"@,
            CloudinaryErrorView::InvalidBase64(why) => "Failed to decode base64: "@ + why,
            CloudinaryErrorView::UploadFailed(body) => "Cloudinary upload failed: "@ + body,
            CloudinaryErrorView::DeleteFailed(body) => "Cloudinary delete failed: "@ + body,
            CloudinaryErrorView::MalformedResponse => "Malformed Cloudinary response"@,
            CloudinaryErrorView::NoSecureUrl => "No secure_url in Cloudinary response"@,
        }
    }
}

impl CloudinaryError {
    /// The error in words.
    pub fn message(&self) -> (r: String)
        ensures
            r@ == self@.message(),
    {
        match self {
            CloudinaryError::NotSet(name) => name.clone().concat(" not set"),
            CloudinaryError::InvalidBase64(why) => "Failed to decode base64: ".to_owned().concat(
                why.as_str(),
            ),
            CloudinaryError::UploadFailed(body) => "Cloudinary upload failed: ".to_owned().concat(
                body.as_str(),
            ),
            CloudinaryError::DeleteFailed(body) => "Cloudinary delete failed: ".to_owned().concat(
                body.as_str(),
            ),
            CloudinaryError::MalformedResponse => "Malformed Cloudinary response".to_owned(),
            CloudinaryError::NoSecureUrl => "No secure_url in Cloudinary response".to_owned(),
        }
    }
}

// ---------------------------------------------------------------------------
// Settings
// ---------------------------------------------------------------------------

/// The name of the setting that holds the tenant's name.
pub const CLOUD_NAME_VAR: &'static str = "CLOUDINARY_CLOUD_NAME";

/// The name of the setting that holds the key.
pub const API_KEY_VAR: &'static str = "CLOUDINARY_API_KEY";

/// The name of the setting that holds the secret.
pub const API_SECRET_VAR: &'static str = "CLOUDINARY_API_SECRET";

/// What the media service needs to know of its tenant. The key travels with
/// every request; the secret never does.
#[derive(Debug, Clone)]
pub struct CloudinaryConfig {
    pub cloud_name: String,
    pub api_key: String,
    pub api_secret: String,
}

/// The value of a [`CloudinaryConfig`].
pub struct CloudinaryConfigView {
    pub cloud_name: Seq<char>,
    pub api_key: Seq<char>,
    pub api_secret: Seq<char>,
}

impl View for CloudinaryConfig {
    type V = CloudinaryConfigView;

    open spec fn view(&self) -> CloudinaryConfigView {
        CloudinaryConfigView {
            cloud_name: self.cloud_name@,
            api_key: self.api_key@,
            api_secret: self.api_secret@,
        }
    }
}

/// The settings made of the three values, or the name of the first that is
/// missing: the tenant's name, the key, the secret, in this order.
pub open spec fn config_from(
    cloud_name: Option<Seq<char>>,
    api_key: Option<Seq<char>>,
    api_secret: Option<Seq<char>>,
) -> Result<CloudinaryConfigView, CloudinaryErrorView> {
    match (cloud_name, api_key, api_secret) {
        (None, _, _) => Err(CloudinaryErrorView::NotSet("CLOUDINARY_CLOUD_NAME"@)),
        (Some(_), None, _) => Err(CloudinaryErrorView::NotSet("CLOUDINARY_API_KEY"@)),
        (Some(_), Some(_), None) => Err(CloudinaryErrorView::NotSet("CLOUDINARY_API_SECRET"@)),
        (Some(cloud_name), Some(api_key), Some(api_secret)) => Ok(
            CloudinaryConfigView { cloud_name, api_key, api_secret },
        ),
    }
}

/// The view of what making the settings returned.
pub open spec fn config_view(r: Result<CloudinaryConfig, CloudinaryError>) -> Result<
    CloudinaryConfigView,
    CloudinaryErrorView,
> {
    match r {
        Ok(config) => Ok(config@),
        Err(error) => Err(error@),
    }
}

impl CloudinaryConfig {
    /// Makes the settings from what the environment holds under the three
    /// names. All three are needed.
    pub fn from_env(
        cloud_name: Option<String>,
        api_key: Option<String>,
        api_secret: Option<String>,
    ) -> (r: Result<CloudinaryConfig, CloudinaryError>)
        ensures
            config_view(r) == config_from(
                opt_text(cloud_name),
                opt_text(api_key),
                opt_text(api_secret),
            ),
    {
        let cloud_name = match cloud_name {
            Some(value) => value,
            None => {
                return Err(CloudinaryError::NotSet(CLOUD_NAME_VAR.to_owned()));
            },
        };
        let api_key = match api_key {
            Some(value) => value,
            None => {
                return Err(CloudinaryError::NotSet(API_KEY_VAR.to_owned()));
            },
        };
        let api_secret = match api_secret {
            Some(value) => value,
            None => {
                return Err(CloudinaryError::NotSet(API_SECRET_VAR.to_owned()));
            },
        };
        Ok(CloudinaryConfig { cloud_name, api_key, api_secret })
    }
}

// ---------------------------------------------------------------------------
// Requests
// ---------------------------------------------------------------------------

/// What a list of form fields holds.
pub open spec fn fields_view(fields: Seq<(String, String)>) -> Seq<(Seq<char>, Seq<char>)> {
    Seq::new(fields.len(), |i: int| (fields[i].0@, fields[i].1@))
}

/// An upload, ready to be sent as a multipart form: the address, the file
/// part with its name, and the text parts in their order.
#[derive(Debug, Clone)]
pub struct UploadRequest {
    pub url: String,
    pub file: Vec<u8>,
    pub file_name: String,
    pub fields: Vec<(String, String)>,
}

/// The value of an [`UploadRequest`].
pub struct UploadRequestView {
    pub url: Seq<char>,
    pub file: Seq<u8>,
    pub file_name: Seq<char>,
    pub fields: Seq<(Seq<char>, Seq<char>)>,
}

impl View for UploadRequest {
    type V = UploadRequestView;

    open spec fn view(&self) -> UploadRequestView {
        UploadRequestView {
            url: self.url@,
            file: self.file@,
            file_name: self.file_name@,
            fields: fields_view(self.fields@),
        }
    }
}

/// A deletion, ready to be sent as a form: the address and the fields.
#[derive(Debug, Clone)]
pub struct DeleteRequest {
    pub url: String,
    pub fields: Vec<(String, String)>,
}

/// The value of a [`DeleteRequest`].
pub struct DeleteRequestView {
    pub url: Seq<char>,
    pub fields: Seq<(Seq<char>, Seq<char>)>,
}

impl View for DeleteRequest {
    type V = DeleteRequestView;

    open spec fn view(&self) -> DeleteRequestView {
        DeleteRequestView { url: self.url@, fields: fields_view(self.fields@) }
    }
}

/// The address of an operation on the images of a tenant.
pub open spec fn endpoint(cloud_name: Seq<char>, operation: Seq<char>) -> Seq<char> {
    "https://api.cloudinary.com/v1_1/"@ + cloud_name + "/image/"@ + operation
}

/// The image in what a caller sent: what follows the first comma where the
/// text begins with `data:` and holds a comma, else the whole text.
pub open spec fn payload_of(data: Seq<char>) -> Seq<char> {
    if "data:"@.is_prefix_of(data) {
        match first_index_of(data, ',') {
            Some(at) => data.skip(at + 1),
            None => data,
        }
    } else {
        data
    }
}

/// The parameters of an upload that are signed.
pub open spec fn upload_params(timestamp: i64, public_id: Option<Seq<char>>) -> Map<
    Seq<char>,
    Seq<char>,
> {
    let fixed = Map::<Seq<char>, Seq<char>>::empty().insert(
        "timestamp"@,
        decimal(timestamp as int),
    ).insert("folder"@, "profile_pictures"@).insert(
        "transformation"@,
        "c_fill,w_300,h_300,f_auto,q_auto"@,
    );
    match public_id {
        Some(id) => fixed.insert("public_id"@, id),
        None => fixed,
    }
}

/// The text parts of an upload, in their order.
pub open spec fn upload_fields(
    config: CloudinaryConfigView,
    timestamp: i64,
    public_id: Option<Seq<char>>,
) -> Seq<(Seq<char>, Seq<char>)> {
    let fixed = seq![
        ("timestamp"@, decimal(timestamp as int)),
        ("api_key"@, config.api_key),
        ("signature"@, signature_of(upload_params(timestamp, public_id), config.api_secret)),
        ("folder"@, "profile_pictures"@),
        ("transformation"@, "c_fill,w_300,h_300,f_auto,q_auto"@),
    ];
    match public_id {
        Some(id) => fixed.push(("public_id"@, id)),
        None => fixed,
    }
}

/// The upload of the image in `data` at `timestamp`: the request, or the
/// error where the image is not base64.
pub open spec fn upload_at(
    config: CloudinaryConfigView,
    data: Seq<char>,
    public_id: Option<Seq<char>>,
    timestamp: i64,
) -> Option<UploadRequestView> {
    match base64_decoded(payload_of(data)) {
        Some(file) => Some(
            UploadRequestView {
                url: endpoint(config.cloud_name, "upload"@),
                file,
                file_name: "profile.jpg"@,
                fields: upload_fields(config, timestamp, public_id),
            },
        ),
        None => None,
    }
}

/// Whether `r` is what an upload at `timestamp` gives: the request that
/// `upload_at` describes, or an error that reports bad base64.
pub open spec fn is_upload_at(
    r: Result<UploadRequest, CloudinaryError>,
    config: CloudinaryConfigView,
    data: Seq<char>,
    public_id: Option<Seq<char>>,
    timestamp: i64,
) -> bool {
    match r {
        Ok(request) => upload_at(config, data, public_id, timestamp) == Some(request@),
        Err(error) => upload_at(config, data, public_id, timestamp) is None
            && error@ is InvalidBase64,
    }
}

/// The parameters of a deletion that are signed.
pub open spec fn delete_params(public_id: Seq<char>, timestamp: i64) -> Map<Seq<char>, Seq<char>> {
    Map::<Seq<char>, Seq<char>>::empty().insert("public_id"@, public_id).insert(
        "timestamp"@,
        decimal(timestamp as int),
    )
}

/// The deletion of an image at `timestamp`.
pub open spec fn delete_at(config: CloudinaryConfigView, public_id: Seq<char>, timestamp: i64) -> DeleteRequestView {
    DeleteRequestView {
        url: endpoint(config.cloud_name, "destroy"@),
        fields: seq![
            ("public_id"@, public_id),
            ("timestamp"@, decimal(timestamp as int)),
            ("signature"@, signature_of(delete_params(public_id, timestamp), config.api_secret)),
            ("api_key"@, config.api_key),
        ],
    }
}

/// Whether a status reports success: the 200s.
pub open spec fn is_success(status: u16) -> bool {
    200 <= status < 300
}

/// What the answer to an upload means: the address of the image, where the
/// service reported success and its answer is JSON with a string under
/// `secure_url`.
pub open spec fn upload_outcome(status: u16, body: Seq<char>) -> Result<
    Seq<char>,
    CloudinaryErrorView,
> {
    if !is_success(status) {
        Err(CloudinaryErrorView::UploadFailed(body))
    } else {
        match json_document(body) {
            None => Err(CloudinaryErrorView::MalformedResponse),
            Some(strings) => if strings.dom().contains("secure_url"@) {
                Ok(strings["secure_url"@])
            } else {
                Err(CloudinaryErrorView::NoSecureUrl)
            },
        }
    }
}

/// What the answer to a deletion means.
pub open spec fn delete_outcome(status: u16, body: Seq<char>) -> Result<(), CloudinaryErrorView> {
    if is_success(status) {
        Ok(())
    } else {
        Err(CloudinaryErrorView::DeleteFailed(body))
    }
}

fn pair(name: &str, value: &str) -> (r: (String, String))
    ensures
        r.0@ == name@,
        r.1@ == value@,
{
    (name.to_owned(), value.to_owned())
}

/// The part of the media service that needs no network.
#[derive(Debug, Clone)]
pub struct CloudinaryService {
    pub config: CloudinaryConfig,
}

impl CloudinaryService {
    /// A service for the tenant of the settings.
    pub fn new(config: CloudinaryConfig) -> (r: CloudinaryService)
        ensures
            r.config == config,
    {
        CloudinaryService { config }
    }

    /// Signs parameters with the tenant's secret. The signature is forty
    /// lower-case hexadecimal digits.
    pub fn generate_signature(&self, params: &SignatureParams) -> (r: String)
        ensures
            r@ == signature_of(params@, self.config@.api_secret),
            r@.len() == 40,
            forall|i: int| 0 <= i < r@.len() ==> is_lower_hex(#[trigger] r@[i]),
    {
        sign(params, self.config.api_secret.as_str())
    }

    fn endpoint(&self, operation: &str) -> (r: String)
        ensures
            r@ == endpoint(self.config@.cloud_name, operation@),
    {
        let mut url = "https://api.cloudinary.com/v1_1/".to_owned();
        url.append(self.config.cloud_name.as_str());
        url.append("/image/");
        url.append(operation);
        url
    }

    /// The image in what a caller sent, without the prefix of a data URL.
    pub fn payload(data: &str) -> (r: &str)
        ensures
            r@ == payload_of(data@),
    {
        if starts_with(data, "data:") {
            match find_char(data, ',') {
                Some(at) => skip_chars(data, at + 1),
                None => data,
            }
        } else {
            data
        }
    }

    /// Builds the upload of an image as of `timestamp`, the reading of the
    /// clock in whole seconds since the epoch. The image is base64, with or
    /// without the prefix of a data URL; `public_id` names the image to
    /// replace, if any. The one timestamp is signed and sent.
    pub fn upload_image(&self, data: &str, public_id: Option<String>, timestamp: i64) -> (r:
        Result<UploadRequest, CloudinaryError>)
        ensures
            is_upload_at(r, self.config@, data@, opt_text(public_id), timestamp),
    {
        let file = match base64_decode(Self::payload(data)) {
            Ok(file) => file,
            Err(error) => {
                return Err(CloudinaryError::InvalidBase64(decode_error_text(&error)));
            },
        };
        let stamp = to_decimal(timestamp);
        let mut params = SignatureParams::new();
        params.insert("timestamp", stamp.as_str());
        params.insert("folder", "profile_pictures");
        params.insert("transformation", "c_fill,w_300,h_300,f_auto,q_auto");
        match &public_id {
            Some(id) => params.insert("public_id", id.as_str()),
            None => {},
        }
        let signature = self.generate_signature(&params);
        let mut fields: Vec<(String, String)> = Vec::new();
        fields.push(pair("timestamp", stamp.as_str()));
        fields.push(pair("api_key", self.config.api_key.as_str()));
        fields.push(pair("signature", signature.as_str()));
        fields.push(pair("folder", "profile_pictures"));
        fields.push(pair("transformation", "c_fill,w_300,h_300,f_auto,q_auto"));
        match &public_id {
            Some(id) => fields.push(pair("public_id", id.as_str())),
            None => {},
        }
        assert(fields_view(fields@) =~= upload_fields(self.config@, timestamp, opt_text(public_id)));
        Ok(
            UploadRequest {
                url: self.endpoint("upload"),
                file,
                file_name: "profile.jpg".to_owned(),
                fields,
            },
        )
    }

    /// What the service's answer to an upload means.
    pub fn upload_response(status: u16, body: &str) -> (r: Result<String, CloudinaryError>)
        ensures
            match r {
                Ok(url) => upload_outcome(status, body@) == Ok::<Seq<char>, CloudinaryErrorView>(
                    url@,
                ),
                Err(error) => upload_outcome(status, body@) == Err::<
                    Seq<char>,
                    CloudinaryErrorView,
                >(error@),
            },
    {
        if status < 200 || status >= 300 {
            return Err(CloudinaryError::UploadFailed(body.to_owned()));
        }
        let document = match parse_json(body) {
            Ok(document) => document,
            Err(_) => {
                return Err(CloudinaryError::MalformedResponse);
            },
        };
        match json_string(&document, "secure_url") {
            Some(url) => Ok(url),
            None => Err(CloudinaryError::NoSecureUrl),
        }
    }

    /// Builds the deletion of an image as of `timestamp`, the reading of the
    /// clock in whole seconds since the epoch.
    pub fn delete_image(&self, public_id: &str, timestamp: i64) -> (r: DeleteRequest)
        ensures
            r@ == delete_at(self.config@, public_id@, timestamp),
    {
        let stamp = to_decimal(timestamp);
        let mut params = SignatureParams::new();
        params.insert("public_id", public_id);
        params.insert("timestamp", stamp.as_str());
        let signature = self.generate_signature(&params);
        let mut fields: Vec<(String, String)> = Vec::new();
        fields.push(pair("public_id", public_id));
        fields.push(pair("timestamp", stamp.as_str()));
        fields.push(pair("signature", signature.as_str()));
        fields.push(pair("api_key", self.config.api_key.as_str()));
        assert(fields_view(fields@) =~= delete_at(self.config@, public_id@, timestamp).fields);
        DeleteRequest { url: self.endpoint("destroy"), fields }
    }

    /// What the service's answer to a deletion means.
    pub fn delete_response(status: u16, body: &str) -> (r: Result<(), CloudinaryError>)
        ensures
            match r {
                Ok(_) => delete_outcome(status, body@) is Ok,
                Err(error) => delete_outcome(status, body@) == Err::<(), CloudinaryErrorView>(
                    error@,
                ),
            },
    {
        if status < 200 || status >= 300 {
            return Err(CloudinaryError::DeleteFailed(body.to_owned()));
        }
        Ok(())
    }
}

} // verus!
