//! Builds authenticated HTTP PUT requests that upload a JSON event to an
//! object-storage bucket, signing each request with Signature Version 4
//! (SigV4): the request is canonicalized, a scoped signing key is derived
//! through a chain of keyed hashes, and the final signature is emitted in
//! the `authorization` header. No network call is performed here; the
//! returned request descriptor is handed to an external HTTP executor.

use vstd::prelude::*;

pub mod canonical;
pub mod crypto;
pub mod digits;
pub mod hex;
pub mod laws;
pub mod s3_payload;
pub mod sigv4;
pub mod timestamp;

use crate::s3_payload::{
    spec_headers, spec_missing, spec_object_key, spec_resolved, spec_url, Settings,
};
use crate::timestamp::UtcTime;

verus! {

/// The HTTP method of an outbound request descriptor.
#[derive(Clone, Copy, Debug, PartialEq, Eq, Structural)]
pub enum HttpMethod {
    Get,
    Put,
    Post,
    Delete,
}

/// An outbound request descriptor, handed as-is to an external HTTP
/// executor: any change to its headers or body after signing invalidates
/// the signature.
pub struct S3Request {
    pub method: HttpMethod,
    pub url: String,
    pub headers: Vec<(String, String)>,
    pub body: String,
    pub forward_client_headers: bool,
}

/// Builds the signed PUT request that uploads `file_content` as a fresh
/// JSON object under the configured bucket and key prefix. The clock is
/// read once, so the object key's stamp and the signed timestamp agree.
/// Fails with the error string naming the first missing required setting.
pub fn send_to_s3(settings_dict: Vec<(String, String)>, file_content: String) -> (r: Result<
    S3Request,
    String,
>)
    ensures
        ({
            let d = settings_dict.deep_view();
            match r {
                Ok(req) => {
                    let s = spec_resolved(d);
                    &&& spec_missing(d) is None
                    &&& req.method == HttpMethod::Put
                    &&& !req.forward_client_headers
                    &&& req.body@ == file_content@
                    &&& exists|t: UtcTime, u: Seq<char>|
                        {
                            &&& t.wf()
                            &&& u.len() == 36
                            &&& req.url@ == spec_url(
                                s.bucket,
                                s.region,
                                s.key_prefix,
                                #[trigger] spec_object_key(t, u),
                            )
                            &&& req.headers.deep_view() == spec_headers(
                                s,
                                req.url@,
                                file_content@,
                                t,
                            )
                        }
                },
                Err(e) => {
                    &&& spec_missing(d) is Some
                    &&& e@ == spec_missing(d)->Some_0.spec_message()
                },
            }
        }),
{
    let s3_settings = match Settings::new(settings_dict) {
        Ok(s) => s,
        Err(e) => {
            return Err(e.message());
        },
    };
    let t = UtcTime::now();
    let unique = s3_payload::fresh_uuid_string();
    let key = Settings::object_key_at(&t, unique.as_str());
    let s3_url = s3_settings.url_for_key(key.as_str());
    let sigv4_headers = s3_settings.generate_s3_headers_at(
        s3_url.as_str(),
        file_content.as_str(),
        &t,
    );
    Ok(
        S3Request {
            method: HttpMethod::Put,
            url: s3_url,
            headers: sigv4_headers,
            body: file_content,
            forward_client_headers: false,
        },
    )
}

} // verus!
