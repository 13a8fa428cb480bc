//! The vh7.uk backend: what each request to the remote API holds, and how
//! its JSON replies are shaped into a [`ServiceResult`].
//!
//! The transport that actually sends a request and decodes the reply lives
//! outside the library; everything it sends and everything it hands back
//! passes through the functions here.

use vstd::prelude::*;
use crate::decimal::{dec_int, i64_to_decimal};
use crate::error::LopError;
use crate::services::{same_opt_ms, ServiceResult};
use crate::timestamps::{parse_rfc3339_ms, rfc3339_epoch_ms_of};
use crate::urls::{join_url, norm_url, url_join_of, url_norm_of};

verus! {

/// The API base that [`crate::services::Service::new`] configures.
pub const DEFAULT_API_URL: &'static str = "https://vh7.uk/api/";

/// The server's reply to a shorten request.
#[derive(Debug)]
pub struct Vh7ShortenResult {
    pub id: String,
    pub kind: String,
    pub created_at: String,
    pub expires_at: Option<String>,
    pub updated_at: Option<String>,
    pub url: String,
}

/// The server's reply to a paste request.
#[derive(Debug)]
pub struct Vh7PasteResult {
    pub id: String,
    pub kind: String,
    pub created_at: String,
    pub expires_at: Option<String>,
    pub updated_at: Option<String>,
    pub code: String,
    pub language: Option<String>,
}

/// The server's reply to an upload request.
#[derive(Debug)]
pub struct Vh7UploadResult {
    pub id: String,
    pub kind: String,
    pub created_at: String,
    pub expires_at: Option<String>,
    pub updated_at: Option<String>,
    pub filename: String,
    pub hash: String,
    pub size: i64,
}

/// One key-value pair of a form-encoded request body.
#[derive(Debug)]
pub struct FormField {
    pub key: String,
    pub value: String,
}

/// The body of a request to the API: either form-encoded key-value pairs,
/// or a multipart body holding one file part and one `expires` text part.
#[derive(Debug)]
pub enum Vh7Body {
    Form(Vec<FormField>),
    Multipart { file_data: Vec<u8>, file_name: String, mime_type: String, expires: String },
}

/// One fully-determined request to the API: where to POST and what to send.
#[derive(Debug)]
pub struct Vh7Request {
    pub url: String,
    pub body: Vh7Body,
}

/// The client of the vh7.uk API: a validated base URL. One request is
/// derived from it per command invocation.
#[derive(Debug)]
pub struct Vh7Service {
    pub api_base: String,
}

/// The text sent in the `expires` field: the decimal milliseconds of the
/// absolute expiry, or the literal text `null` when none is requested.
pub open spec fn expires_repr(expires_ms: Option<i64>) -> Seq<char> {
    match expires_ms {
        Some(ms) => dec_int(ms as int),
        None => "null"@,
    }
}

/// The public URL of a created resource: the record's id resolved against
/// the parent of the API base (the service's root).
pub open spec fn public_url_of(base: Seq<char>, id: Seq<char>) -> Option<Seq<char>> {
    match url_join_of(base, ".."@) {
        Some(parent) => url_join_of(parent, id),
        None => None,
    }
}

/// The expiry of a shaped result: the record's `expiresAt` timestamp where
/// it is present and parses, and nothing otherwise.
pub open spec fn response_expiry(expires_at: Option<String>) -> Option<int> {
    match expires_at {
        Some(s) => rfc3339_epoch_ms_of(s@),
        None => None,
    }
}

/// Renders the `expires` field of a request body.
fn expires_value(expires_ms: Option<i64>) -> (r: String)
    ensures
        r@ == expires_repr(expires_ms),
{
    match expires_ms {
        Some(ms) => i64_to_decimal(ms),
        None => "null".to_owned(),
    }
}

impl Vh7Service {
    /// A client bound to the given API base, which must parse as an
    /// absolute URL; the base is kept in its parsed serialization.
    pub fn with_base(base: &str) -> (r: Result<Vh7Service, LopError>)
        ensures
            r is Ok <==> url_norm_of(base@) is Some,
            r matches Ok(s) ==> s.api_base@ == url_norm_of(base@).unwrap(),
            r matches Err(e) ==> e is Config,
    {
        match norm_url(base) {
            Some(n) => Ok(Vh7Service { api_base: n }),
            None => Err(LopError::Config("the API base is not a valid URL".to_owned())),
        }
    }

    /// The request that shortens `url`: a form-encoded POST to the
    /// `shorten` route with the URL and the expiry field.
    pub fn shorten_request(&self, expires_ms: Option<i64>, url: &str) -> (r: Result<
        Vh7Request,
        LopError,
    >)
        ensures
            r is Ok <==> url_join_of(self.api_base@, "shorten"@) is Some,
            r matches Ok(req) ==> ({
                &&& req.url@ == url_join_of(self.api_base@, "shorten"@).unwrap()
                &&& req.body matches Vh7Body::Form(fields) && fields@.len() == 2
                    && fields@[0].key@ == "url"@ && fields@[0].value@ == url@
                    && fields@[1].key@ == "expires"@ && fields@[1].value@ == expires_repr(
                    expires_ms,
                )
            }),
            r matches Err(e) ==> e is Config,
    {
        let route = match join_url(self.api_base.as_str(), "shorten") {
            Some(u) => u,
            None => {
                return Err(LopError::Config("the API base admits no shorten route".to_owned()));
            },
        };
        let mut fields: Vec<FormField> = Vec::new();
        fields.push(FormField { key: "url".to_owned(), value: url.to_owned() });
        fields.push(FormField { key: "expires".to_owned(), value: expires_value(expires_ms) });
        Ok(Vh7Request { url: route, body: Vh7Body::Form(fields) })
    }

    /// The request that hosts the text `code`: a form-encoded POST to the
    /// `paste` route with the code and the expiry field.
    ///
    /// `language` is accepted so that a caller can state one, but it is
    /// not transmitted: the server does not take a language yet.
    pub fn paste_request(&self, expires_ms: Option<i64>, code: &str, language: &str) -> (r: Result<
        Vh7Request,
        LopError,
    >)
        ensures
            r is Ok <==> url_join_of(self.api_base@, "paste"@) is Some,
            r matches Ok(req) ==> ({
                &&& req.url@ == url_join_of(self.api_base@, "paste"@).unwrap()
                &&& req.body matches Vh7Body::Form(fields) && fields@.len() == 2
                    && fields@[0].key@ == "code"@ && fields@[0].value@ == code@
                    && fields@[1].key@ == "expires"@ && fields@[1].value@ == expires_repr(
                    expires_ms,
                )
            }),
            r matches Err(e) ==> e is Config,
    {
        let _ = language;
        let route = match join_url(self.api_base.as_str(), "paste") {
            Some(u) => u,
            None => {
                return Err(LopError::Config("the API base admits no paste route".to_owned()));
            },
        };
        let mut fields: Vec<FormField> = Vec::new();
        fields.push(FormField { key: "code".to_owned(), value: code.to_owned() });
        fields.push(FormField { key: "expires".to_owned(), value: expires_value(expires_ms) });
        Ok(Vh7Request { url: route, body: Vh7Body::Form(fields) })
    }

    /// The request that uploads a file: a multipart POST to the `upload`
    /// route with one file part and the expiry as a text part.
    pub fn upload_request(
        &self,
        expires_ms: Option<i64>,
        data: Vec<u8>,
        file_name: String,
        mime_type: String,
    ) -> (r: Result<Vh7Request, LopError>)
        ensures
            r is Ok <==> url_join_of(self.api_base@, "upload"@) is Some,
            r matches Ok(req) ==> ({
                &&& req.url@ == url_join_of(self.api_base@, "upload"@).unwrap()
                &&& req.body matches Vh7Body::Multipart {
                    file_data: d,
                    file_name: n,
                    mime_type: m,
                    expires: e,
                } && d@ == data@ && n@ == file_name@ && m@ == mime_type@ && e@ == expires_repr(
                    expires_ms,
                )
            }),
            r matches Err(e) ==> e is Config,
    {
        let route = match join_url(self.api_base.as_str(), "upload") {
            Some(u) => u,
            None => {
                return Err(LopError::Config("the API base admits no upload route".to_owned()));
            },
        };
        Ok(
            Vh7Request {
                url: route,
                body: Vh7Body::Multipart {
                    file_data: data,
                    file_name,
                    mime_type,
                    expires: expires_value(expires_ms),
                },
            },
        )
    }

    /// The public URL of the resource whose record carries `id`: the id
    /// resolved against the parent of the API base.
    pub fn resolve_public_url(&self, id: &str) -> (r: Result<String, LopError>)
        ensures
            r is Ok <==> public_url_of(self.api_base@, id@) is Some,
            r matches Ok(u) ==> u@ == public_url_of(self.api_base@, id@).unwrap(),
            r matches Err(e) ==> e is Decode,
    {
        let parent = match join_url(self.api_base.as_str(), "..") {
            Some(p) => p,
            None => {
                return Err(LopError::Decode("the API base has no parent URL".to_owned()));
            },
        };
        match join_url(parent.as_str(), id) {
            Some(u) => Ok(u),
            None => Err(LopError::Decode("the record id forms no valid URL".to_owned())),
        }
    }

    /// Shapes a record's id and optional expiry text into the uniform
    /// result: the public URL, and the expiry instant where the text is
    /// present and parses (an unparseable expiry is dropped, not fatal).
    fn shape_result(&self, id: &str, expires_at: &Option<String>) -> (r: Result<
        ServiceResult,
        LopError,
    >)
        ensures
            r is Ok <==> public_url_of(self.api_base@, id@) is Some,
            r matches Ok(sr) ==> sr.url@ == public_url_of(self.api_base@, id@).unwrap(),
            r matches Ok(sr) ==> same_opt_ms(sr.expires, response_expiry(*expires_at)),
            r matches Err(e) ==> e is Decode,
    {
        let url = match self.resolve_public_url(id) {
            Ok(u) => u,
            Err(e) => {
                return Err(e);
            },
        };
        let expires = match expires_at {
            Some(s) => parse_rfc3339_ms(s.as_str()),
            None => None,
        };
        Ok(ServiceResult { url, expires })
    }

    /// Shapes the server's reply to a shorten request.
    pub fn shorten_response(&self, rec: &Vh7ShortenResult) -> (r: Result<ServiceResult, LopError>)
        ensures
            r is Ok <==> public_url_of(self.api_base@, rec.id@) is Some,
            r matches Ok(sr) ==> sr.url@ == public_url_of(self.api_base@, rec.id@).unwrap(),
            r matches Ok(sr) ==> same_opt_ms(sr.expires, response_expiry(rec.expires_at)),
            r matches Err(e) ==> e is Decode,
    {
        self.shape_result(rec.id.as_str(), &rec.expires_at)
    }

    /// Shapes the server's reply to a paste request.
    pub fn paste_response(&self, rec: &Vh7PasteResult) -> (r: Result<ServiceResult, LopError>)
        ensures
            r is Ok <==> public_url_of(self.api_base@, rec.id@) is Some,
            r matches Ok(sr) ==> sr.url@ == public_url_of(self.api_base@, rec.id@).unwrap(),
            r matches Ok(sr) ==> same_opt_ms(sr.expires, response_expiry(rec.expires_at)),
            r matches Err(e) ==> e is Decode,
    {
        self.shape_result(rec.id.as_str(), &rec.expires_at)
    }

    /// Shapes the server's reply to an upload request.
    pub fn upload_response(&self, rec: &Vh7UploadResult) -> (r: Result<ServiceResult, LopError>)
        ensures
            r is Ok <==> public_url_of(self.api_base@, rec.id@) is Some,
            r matches Ok(sr) ==> sr.url@ == public_url_of(self.api_base@, rec.id@).unwrap(),
            r matches Ok(sr) ==> same_opt_ms(sr.expires, response_expiry(rec.expires_at)),
            r matches Err(e) ==> e is Decode,
    {
        self.shape_result(rec.id.as_str(), &rec.expires_at)
    }
}

impl crate::services::Service for Vh7Service {
    /// A client bound to the built-in API base.
    fn new() -> (r: Result<Vh7Service, LopError>)
        ensures
            r is Ok <==> url_norm_of(DEFAULT_API_URL@) is Some,
            r matches Ok(s) ==> s.api_base@ == url_norm_of(DEFAULT_API_URL@).unwrap(),
            r matches Err(e) ==> e is Config,
    {
        Vh7Service::with_base(DEFAULT_API_URL)
    }
}

} // verus!
