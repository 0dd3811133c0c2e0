use tower_minify_html::headers::HeaderField;
use tower_minify_html::headers::bytes_eq;
use tower_minify_html::headers::contains_needle;
use tower_minify_html::headers::content_length_bytes;
use tower_minify_html::headers::content_type_bytes;
use tower_minify_html::headers::html_token_bytes;
use tower_minify_html::headers::is_eligible;
use tower_minify_html::headers::remove_content_length;
use tower_minify_html::response::BufferedResponse;
use tower_minify_html::response::error_500_response;
use tower_minify_html::Backend;
use tower_minify_html::MinifyHtml;
use tower_minify_html::MinifyHtmlLayer;
use tower_minify_html::OnepassConfig;
use tower_minify_html::StandardConfig;

fn header(name: &[u8], value: &[u8]) -> HeaderField {
    HeaderField { name: name.to_vec(), value: value.to_vec() }
}

fn standard_service(config: StandardConfig) -> MinifyHtml<()> {
    MinifyHtmlLayer::builder().standard_config(config).build().layer(())
}

fn onepass_service() -> MinifyHtml<()> {
    MinifyHtmlLayer::builder().backend(Backend::Onepass).build().layer(())
}

fn response(status: u16, headers: Vec<HeaderField>, body: &[u8]) -> BufferedResponse {
    BufferedResponse { status, headers, body: body.to_vec() }
}

fn header_names(r: &BufferedResponse) -> Vec<Vec<u8>> {
    r.headers.iter().map(|h| h.name.clone()).collect()
}

#[test]
fn scenario_html_whitespace_collapsed() {
    let svc = standard_service(StandardConfig {
        keep_closing_tags: true,
        keep_comments: false,
        keep_html_and_head_opening_tags: false,
    });
    let headers = vec![
        header(b"content-type", b"text/html"),
        header(b"content-length", b"55"),
    ];
    let body = b"<title>    Hello    World    </title><p>    Hello    World    </p><!-- a note -->";
    let out = svc.process_buffered(response(200, headers, body));
    assert_eq!(out.status, 200);
    let names = header_names(&out);
    assert!(!names.contains(&b"content-length".to_vec()));
    assert!(names.contains(&b"content-type".to_vec()));
    let text = String::from_utf8(out.body.clone()).unwrap();
    // The backend leaves `<title>` text alone but collapses runs of
    // whitespace in ordinary content and strips the comment.
    assert!(text.contains("<p>Hello World"), "whitespace not collapsed: {text:?}");
    assert!(!text.contains("<!--"), "comment survived: {text:?}");
    assert!(text.contains("</p>"), "closing tag not kept: {text:?}");
    assert!(out.body.len() < body.len());
}

#[test]
fn scenario_json_passes_through_unchanged() {
    let svc = standard_service(StandardConfig::default());
    let headers = vec![
        header(b"content-type", b"application/json"),
        header(b"content-length", b"24"),
    ];
    let body = b"{\"written\":  \"by hand\"} ";
    let out = svc.process_buffered(response(200, headers, body));
    assert_eq!(out.status, 200);
    assert_eq!(out.body, body.to_vec());
    assert_eq!(out.headers.len(), 2);
    assert_eq!(out.headers[0].name, b"content-type".to_vec());
    assert_eq!(out.headers[0].value, b"application/json".to_vec());
    assert_eq!(out.headers[1].name, b"content-length".to_vec());
    assert_eq!(out.headers[1].value, b"24".to_vec());
}

#[test]
fn scenario_drain_failure_becomes_500() {
    let svc = standard_service(StandardConfig::default());
    let headers = vec![header(b"content-type", b"text/html")];
    let out = svc.transform_eligible(404, headers, None);
    assert_eq!(out.status, 500);
    assert!(out.headers.is_empty());
    assert_eq!(out.body, b"Internal Server Error".to_vec());
}

#[test]
fn scenario_onepass_rejection_becomes_500() {
    let svc = onepass_service();
    let headers = vec![
        header(b"content-type", b"text/html; charset=utf-8"),
        header(b"content-length", b"6"),
    ];
    let out = svc.process_buffered(response(200, headers, b"</div>"));
    assert_eq!(out.status, 500);
    assert!(out.headers.is_empty());
    assert_eq!(out.body, b"Internal Server Error".to_vec());
}

#[test]
fn scenario_missing_content_type_passes_through() {
    let svc = standard_service(StandardConfig::default());
    let headers = vec![header(b"content-length", b"20")];
    let body = b"<p>   not   gated   ";
    let out = svc.process_buffered(response(204, headers, body));
    assert_eq!(out.status, 204);
    assert_eq!(out.body, body.to_vec());
    assert_eq!(out.headers.len(), 1);
    assert_eq!(out.headers[0].name, b"content-length".to_vec());
    assert_eq!(out.headers[0].value, b"20".to_vec());
}

#[test]
fn non_utf8_content_type_is_ineligible() {
    let headers = vec![header(b"content-type", b"text/html\x80")];
    assert!(!is_eligible(&headers));
    let svc = standard_service(StandardConfig::default());
    let body = b"<p>  kept  as  is  </p>";
    let out = svc.process_buffered(response(200, headers, body));
    assert_eq!(out.body, body.to_vec());
}

#[test]
fn eligibility_is_substring_match_on_the_token() {
    assert!(is_eligible(&vec![header(b"content-type", b"text/html")]));
    assert!(is_eligible(&vec![header(b"content-type", b"text/html; charset=utf-8")]));
    assert!(!is_eligible(&vec![header(b"content-type", b"text/plain")]));
    assert!(!is_eligible(&vec![header(b"content-type", b"application/xhtml+xml")]));
    assert!(!is_eligible(&vec![header(b"content-type", b"TEXT/HTML")]));
    assert!(!is_eligible(&vec![]));
    assert!(!is_eligible(&vec![header(b"x-powered-by", b"text/html")]));
}

#[test]
fn first_content_type_header_decides() {
    let headers = vec![
        header(b"content-type", b"application/json"),
        header(b"content-type", b"text/html"),
    ];
    assert!(!is_eligible(&headers));
    let headers = vec![
        header(b"content-type", b"text/html"),
        header(b"content-type", b"application/json"),
    ];
    assert!(is_eligible(&headers));
}

#[test]
fn onepass_success_minifies_exactly() {
    let svc = onepass_service();
    let out = svc.minify_body(&b"<p>  Hello, world!  </p>".to_vec());
    assert_eq!(out, Some(b"<p>Hello, world!".to_vec()));
}

#[test]
fn standard_backend_never_rejects() {
    let svc = standard_service(StandardConfig::default());
    let out = svc.minify_body(&b"<p>  Hello, world!  </p>".to_vec());
    assert_eq!(out, Some(b"<p>Hello, world!".to_vec()));
    let malformed = svc.minify_body(&b"</div>".to_vec());
    assert!(malformed.is_some());
}

#[test]
fn remove_content_length_keeps_order() {
    let headers = vec![
        header(b"server", b"a"),
        header(b"content-length", b"10"),
        header(b"etag", b"b"),
        header(b"content-length", b"11"),
    ];
    let out = remove_content_length(headers);
    assert_eq!(out.len(), 2);
    assert_eq!(out[0].name, b"server".to_vec());
    assert_eq!(out[0].value, b"a".to_vec());
    assert_eq!(out[1].name, b"etag".to_vec());
    assert_eq!(out[1].value, b"b".to_vec());
}

#[test]
fn error_500_response_is_fixed() {
    let r = error_500_response();
    assert_eq!(r.status, 500);
    assert!(r.headers.is_empty());
    assert_eq!(r.body, b"Internal Server Error".to_vec());
}

#[test]
fn byte_helpers_behave() {
    assert_eq!(content_type_bytes(), b"content-type".to_vec());
    assert_eq!(content_length_bytes(), b"content-length".to_vec());
    assert_eq!(html_token_bytes(), b"text/html".to_vec());
    assert!(bytes_eq(&b"abc".to_vec(), &b"abc".to_vec()));
    assert!(!bytes_eq(&b"abc".to_vec(), &b"abd".to_vec()));
    assert!(!bytes_eq(&b"abc".to_vec(), &b"ab".to_vec()));
    assert!(contains_needle(&b"text/html; charset".to_vec(), &b"text/html".to_vec()));
    assert!(contains_needle(&b"abc".to_vec(), &b"".to_vec()));
    assert!(!contains_needle(&b"text/htm".to_vec(), &b"text/html".to_vec()));
}

#[test]
fn builder_defaults_prefer_standard_backend() {
    let layer = MinifyHtmlLayer::builder().build();
    assert_eq!(layer.backend, Backend::Standard);
    assert_eq!(layer.standard_config, StandardConfig::default());
    assert_eq!(layer.onepass_config, OnepassConfig::default());
    assert_eq!(Backend::default(), Backend::Standard);
}

#[test]
fn builder_carries_selections() {
    let standard = StandardConfig {
        keep_closing_tags: true,
        keep_comments: true,
        keep_html_and_head_opening_tags: true,
    };
    let onepass = OnepassConfig { minify_js: false, minify_css: true };
    let layer = MinifyHtmlLayer::builder()
        .backend(Backend::Onepass)
        .standard_config(standard)
        .onepass_config(onepass)
        .build();
    assert_eq!(layer.backend, Backend::Onepass);
    assert_eq!(layer.standard_config, standard);
    assert_eq!(layer.onepass_config, onepass);

    let from_new = MinifyHtmlLayer::new(standard);
    assert_eq!(from_new.backend, Backend::Standard);
    assert_eq!(from_new.standard_config, standard);

    let svc = layer.layer(7u32);
    assert_eq!(svc.inner, 7u32);
    assert_eq!(svc.backend, Backend::Onepass);
}
