use vstd::prelude::*;
use crate::config::MinifyHtml;
use crate::headers::HeaderField;
use crate::headers::eligible;
use crate::headers::is_eligible;
use crate::headers::non_length_headers;
use crate::headers::remove_content_length;
use crate::minify::minify_outcome;

verus! {

/// A fully materialized response: status, headers, and complete body bytes.
/// This is what the middleware hands back once post-processing is done.
#[derive(Debug)]
pub struct BufferedResponse {
    pub status: u16,
    pub headers: Vec<HeaderField>,
    pub body: Vec<u8>,
}

/// The fixed plaintext `Internal Server Error` of the synthesized failure
/// response.
pub open spec fn error_body_text() -> Seq<u8> {
    seq![
        73u8, 110u8, 116u8, 101u8, 114u8, 110u8, 97u8, 108u8, 32u8, 83u8, 101u8, 114u8, 118u8,
        101u8, 114u8, 32u8, 69u8, 114u8, 114u8, 111u8, 114u8,
    ]
}

/// Whether a response is the synthesized local failure: status 500, headers
/// reset to none, and the short fixed plaintext body.
pub open spec fn is_error_response(r: BufferedResponse) -> bool {
    r.status == 500 && r.headers@.len() == 0 && r.body@ == error_body_text()
}

/// The response every local failure collapses to; the original response is
/// discarded, whatever its status was.
pub fn error_500_response() -> (r: BufferedResponse)
    ensures
        is_error_response(r),
{
    let mut body: Vec<u8> = Vec::new();
    body.push(73u8);
    body.push(110u8);
    body.push(116u8);
    body.push(101u8);
    body.push(114u8);
    body.push(110u8);
    body.push(97u8);
    body.push(108u8);
    body.push(32u8);
    body.push(83u8);
    body.push(101u8);
    body.push(114u8);
    body.push(118u8);
    body.push(101u8);
    body.push(114u8);
    body.push(32u8);
    body.push(69u8);
    body.push(114u8);
    body.push(114u8);
    body.push(111u8);
    body.push(114u8);
    proof {
        assert(body@ =~= error_body_text());
    }
    BufferedResponse { status: 500, headers: Vec::new(), body }
}

impl<S> MinifyHtml<S> {
    /// Rebuilds an eligible response once the body drain has finished.
    ///
    /// `collected` is what draining produced: the complete body bytes, or
    /// nothing when the stream failed mid-read. A failed drain, like a
    /// single-pass rejection, collapses to the synthesized failure response;
    /// otherwise the minified bytes stand under the original status and the
    /// original headers minus `content-length`. Nothing is retried.
    pub fn transform_eligible(
        &self,
        status: u16,
        headers: Vec<HeaderField>,
        collected: Option<Vec<u8>>,
    ) -> (r: BufferedResponse)
        ensures
            collected is None ==> is_error_response(r),
            collected matches Option::Some(b) ==> minify_outcome(
                self.backend,
                self.standard_config,
                self.onepass_config,
                b@,
            ) is None ==> is_error_response(r),
            collected matches Option::Some(b) ==> (minify_outcome(
                self.backend,
                self.standard_config,
                self.onepass_config,
                b@,
            ) matches Option::Some(m) ==> r.status == status && r.headers@
                == non_length_headers(headers@) && r.body@ == m),
    {
        match collected {
            Option::None => error_500_response(),
            Option::Some(bytes) => match self.minify_body(&bytes) {
                Option::None => error_500_response(),
                Option::Some(minified) => BufferedResponse {
                    status,
                    headers: remove_content_length(headers),
                    body: minified,
                },
            },
        }
    }

    /// One whole post-processing pass over a response whose body is already
    /// materialized: an ineligible response passes through identical in
    /// status, headers, and bytes; an eligible one is rebuilt around the
    /// minified body, or collapses to the synthesized failure when the
    /// single-pass backend rejects it.
    pub fn process_buffered(&self, response: BufferedResponse) -> (r: BufferedResponse)
        ensures
            !eligible(response.headers@) ==> r == response,
            eligible(response.headers@) ==> (minify_outcome(
                self.backend,
                self.standard_config,
                self.onepass_config,
                response.body@,
            ) matches Option::Some(m) ==> r.status == response.status && r.headers@
                == non_length_headers(response.headers@) && r.body@ == m),
            eligible(response.headers@) ==> minify_outcome(
                self.backend,
                self.standard_config,
                self.onepass_config,
                response.body@,
            ) is None ==> is_error_response(r),
    {
        if is_eligible(&response.headers) {
            let BufferedResponse { status, headers, body } = response;
            self.transform_eligible(status, headers, Option::Some(body))
        } else {
            response
        }
    }
}

} // verus!
