use std::io::{Read, Seek, SeekFrom, Write};

use wkhtmltopdf_lambda::args::{build_args, ArgToken};
use wkhtmltopdf_lambda::error::ConvertError;
use wkhtmltopdf_lambda::locate::{bundled_binary_path, layer_binary_path, select_executable};
use wkhtmltopdf_lambda::render::{after_render, error_response, respond, uploaded_response, RenderOutcome};
use wkhtmltopdf_lambda::request::{Page, PageType, PdfOption, PdfRequest, PdfResponse, S3Details};
use wkhtmltopdf_lambda::upload::{prepare_upload, resolve_region, StorageRegion};

fn target(bucket: &str, key: &str, region: Option<&str>) -> S3Details {
    S3Details {
        bucket: bucket.to_string(),
        object_key: key.to_string(),
        region: region.map(|r| r.to_string()),
    }
}

fn opt(name: &str, value: Option<&str>) -> PdfOption {
    PdfOption { name: name.to_string(), value: value.map(|v| v.to_string()) }
}

fn url_page(page_type: PageType, url: &str, options: Vec<PdfOption>) -> Page {
    Page { page_type, html_url: Some(url.to_string()), html_base64: None, options }
}

fn inline_page(page_type: PageType, encoded: &str, options: Vec<PdfOption>) -> Page {
    Page { page_type, html_url: None, html_base64: Some(encoded.to_string()), options }
}

fn request(pages: Vec<Page>, options: Vec<PdfOption>) -> PdfRequest {
    PdfRequest { pages, options, output: target("b", "k", None) }
}

fn texts(tokens: &[ArgToken]) -> Vec<String> {
    tokens
        .iter()
        .map(|t| match t {
            ArgToken::Text(s) => s.clone(),
            ArgToken::InlineFile(k) => format!("<file {}>", k),
        })
        .collect()
}

#[test]
fn single_url_page_renders_and_uploads() {
    let req = request(vec![url_page(PageType::Content, "https://example.com/a.html", vec![])], vec![]);
    let plan = build_args(&req).unwrap();
    assert!(plan.inline_html().is_empty());
    let args = plan.resolve(&vec![], "/tmp/out.pdf".to_string());
    assert_eq!(args, vec!["content", "https://example.com/a.html", "/tmp/out.pdf"]);

    assert!(matches!(after_render(true, &vec![], &vec![]), RenderOutcome::Upload));
    let upload = prepare_upload(b"%PDF-1.4".to_vec(), &req.output, &None).unwrap();
    assert_eq!(upload.bucket, "b");
    assert_eq!(upload.key, "k");
    assert_eq!(upload.content_type, "application/pdf");
    assert_eq!(upload.body, b"%PDF-1.4".to_vec());
    assert!(matches!(upload.region, StorageRegion::Named(ref n) if n == "ap-southeast-2"));

    let resp = uploaded_response();
    assert!(resp.success);
    assert!(resp.messages.is_empty());
}

#[test]
fn global_options_come_first_in_order() {
    let req = request(
        vec![url_page(PageType::Cover, "u", vec![opt("--zoom", Some("2"))])],
        vec![opt("--grayscale", None), opt("--page-size", Some("A4"))],
    );
    let plan = build_args(&req).unwrap();
    assert_eq!(
        texts(plan.tokens()),
        vec!["--grayscale", "--page-size", "A4", "cover", "u", "--zoom", "2"]
    );
}

#[test]
fn toc_page_emits_only_its_type() {
    let mut toc = url_page(PageType::TableOfContents, "https://x", vec![opt("--xsl", Some("a.xsl"))]);
    toc.html_base64 = Some("!!!".to_string());
    let req = request(vec![toc, url_page(PageType::Content, "c", vec![])], vec![]);
    let plan = build_args(&req).unwrap();
    assert_eq!(texts(plan.tokens()), vec!["toc", "content", "c"]);
    assert!(plan.inline_html().is_empty());
}

#[test]
fn inline_page_ends_with_local_file_access() {
    let req = request(
        vec![
            inline_page(PageType::Content, "PGgxPmhpPC9oMT4=", vec![opt("--zoom", Some("1"))]),
            url_page(PageType::Content, "u", vec![]),
        ],
        vec![],
    );
    let plan = build_args(&req).unwrap();
    assert_eq!(
        texts(plan.tokens()),
        vec!["content", "<file 0>", "--zoom", "1", "--enable-local-file-access", "content", "u"]
    );
    assert_eq!(plan.inline_html(), &vec![b"<h1>hi</h1>".to_vec()]);
    let args = plan.resolve(&vec!["/tmp/in0.html".to_string()], "/tmp/out.pdf".to_string());
    assert_eq!(
        args,
        vec!["content", "/tmp/in0.html", "--zoom", "1", "--enable-local-file-access", "content", "u", "/tmp/out.pdf"]
    );
}

#[test]
fn url_wins_over_inline_content_but_keeps_flag() {
    let mut page = url_page(PageType::Content, "u", vec![]);
    page.html_base64 = Some("not base64 at all".to_string());
    let plan = build_args(&request(vec![page], vec![])).unwrap();
    assert_eq!(texts(plan.tokens()), vec!["content", "u", "--enable-local-file-access"]);
    assert!(plan.inline_html().is_empty());
}

#[test]
fn several_inline_pages_get_their_own_files() {
    let req = request(
        vec![
            inline_page(PageType::Cover, "YQ==", vec![]),
            inline_page(PageType::Content, "YmM=", vec![]),
        ],
        vec![],
    );
    let plan = build_args(&req).unwrap();
    assert_eq!(
        texts(plan.tokens()),
        vec!["cover", "<file 0>", "--enable-local-file-access", "content", "<file 1>", "--enable-local-file-access"]
    );
    assert_eq!(plan.inline_html(), &vec![b"a".to_vec(), b"bc".to_vec()]);
}

#[test]
fn missing_source_fails() {
    let empty = Page { page_type: PageType::Content, html_url: None, html_base64: None, options: vec![] };
    let req = request(vec![inline_page(PageType::Content, "YQ==", vec![]), empty], vec![]);
    let err = build_args(&req).unwrap_err();
    assert!(matches!(err, ConvertError::MissingSource));
    assert_eq!(err.message(), "No page source specified");
}

#[test]
fn invalid_base64_fails_with_decode_error() {
    let req = request(vec![inline_page(PageType::Content, "@@@", vec![])], vec![]);
    let err = build_args(&req).unwrap_err();
    assert!(matches!(err, ConvertError::Decode(_)));
    assert!(err.message().starts_with("Failed to decode Base64: "));
    assert!(err.message().len() > "Failed to decode Base64: ".len());
}

#[test]
fn earlier_error_decides() {
    let empty = Page { page_type: PageType::Content, html_url: None, html_base64: None, options: vec![] };
    let req = request(vec![inline_page(PageType::Content, "@@@", vec![]), empty], vec![]);
    assert!(matches!(build_args(&req).unwrap_err(), ConvertError::Decode(_)));
}

#[test]
fn decoded_content_round_trips_through_temp_file() {
    let html = b"<html><body>\xc3\xa9t\xc3\xa9</body></html>".to_vec();
    let encoded = "PGh0bWw+PGJvZHk+w6l0w6k8L2JvZHk+PC9odG1sPg==";
    let plan = build_args(&request(vec![inline_page(PageType::Content, encoded, vec![])], vec![])).unwrap();
    let mut file = tempfile::Builder::new().suffix(".html").tempfile().unwrap();
    file.write_all(&plan.inline_html()[0]).unwrap();
    file.seek(SeekFrom::Start(0)).unwrap();
    let mut back = Vec::new();
    file.read_to_end(&mut back).unwrap();
    assert_eq!(back, html);
}

#[test]
fn failed_render_reports_output_without_upload() {
    match after_render(false, &b"out text".to_vec(), &b"err text".to_vec()) {
        RenderOutcome::Finished(resp) => {
            assert!(!resp.success);
            assert_eq!(resp.messages, vec!["out text", "err text"]);
        }
        RenderOutcome::Upload => panic!("a failed render is not uploaded"),
    }
}

#[test]
fn failed_render_skips_empty_streams() {
    match after_render(false, &vec![], &b"boom".to_vec()) {
        RenderOutcome::Finished(resp) => assert_eq!(resp.messages, vec!["boom"]),
        RenderOutcome::Upload => panic!("a failed render is not uploaded"),
    }
    match after_render(false, &b"only out".to_vec(), &vec![]) {
        RenderOutcome::Finished(resp) => assert_eq!(resp.messages, vec!["only out"]),
        RenderOutcome::Upload => panic!("a failed render is not uploaded"),
    }
    match after_render(false, &vec![], &vec![]) {
        RenderOutcome::Finished(resp) => {
            assert!(!resp.success);
            assert!(resp.messages.is_empty());
        }
        RenderOutcome::Upload => panic!("a failed render is not uploaded"),
    }
}

#[test]
fn failed_render_output_is_read_lossily() {
    match after_render(false, &vec![b'a', 0xff, b'b'], &vec![]) {
        RenderOutcome::Finished(resp) => assert_eq!(resp.messages, vec!["a\u{fffd}b"]),
        RenderOutcome::Upload => panic!("a failed render is not uploaded"),
    }
}

#[test]
fn empty_output_is_an_error() {
    let err = prepare_upload(vec![], &target("b", "k", Some("not-a-region")), &None).unwrap_err();
    assert!(matches!(err, ConvertError::EmptyOutput));
    let resp = error_response(&err);
    assert!(!resp.success);
    assert_eq!(resp.messages, vec!["Failed to read PDF output"]);
}

#[test]
fn endpoint_override_wins_over_region() {
    let ov = Some("http://localhost:4566".to_string());
    for region in [None, Some("eu-west-1".to_string()), Some("bogus".to_string())] {
        match resolve_region(&ov, &region).unwrap() {
            StorageRegion::Custom { name, endpoint } => {
                assert_eq!(name, "us-east-1");
                assert_eq!(endpoint, "http://localhost:4566");
            }
            StorageRegion::Named(n) => panic!("expected the custom endpoint, got {}", n),
        }
    }
}

#[test]
fn explicit_region_is_honoured() {
    for (given, canonical) in [("eu-west-1", "eu-west-1"), ("US-EAST-2", "us-east-2"), ("apsoutheast1", "ap-southeast-1")] {
        match resolve_region(&None, &Some(given.to_string())).unwrap() {
            StorageRegion::Named(n) => assert_eq!(n, canonical),
            StorageRegion::Custom { .. } => panic!("no endpoint was configured"),
        }
    }
}

#[test]
fn default_region_without_configuration() {
    match resolve_region(&None, &None).unwrap() {
        StorageRegion::Named(n) => assert_eq!(n, "ap-southeast-2"),
        StorageRegion::Custom { .. } => panic!("no endpoint was configured"),
    }
}

#[test]
fn invalid_region_is_an_error() {
    let err = prepare_upload(b"pdf".to_vec(), &target("b", "k", Some("Mars-1")), &None).unwrap_err();
    match &err {
        ConvertError::InvalidRegion(m) => assert_eq!(m, "Not a valid AWS region: mars-1"),
        other => panic!("unexpected error {:?}", other),
    }
    assert_eq!(error_response(&err).messages, vec!["Not a valid AWS region: mars-1"]);
}

#[test]
fn executable_search_order() {
    let root = Some("/var/task".to_string());
    let layer = select_executable(true, &root, true);
    assert_eq!(layer.binary, "/opt/bin/wkhtmltopdf");
    assert_eq!(layer.fontconfig, "/opt/fonts");
    let bundled = select_executable(false, &root, true);
    assert_eq!(bundled.binary, "/var/task/bin/wkhtmltopdf");
    assert_eq!(bundled.fontconfig, "/var/task/fonts");
    let system = select_executable(false, &root, false);
    assert_eq!(system.binary, "/usr/bin/wkhtmltopdf");
    assert_eq!(system.fontconfig, "/usr/share/fonts");
    let no_root = select_executable(false, &None, true);
    assert_eq!(no_root.binary, "/usr/bin/wkhtmltopdf");
    assert_eq!(layer_binary_path(), "/opt/bin/wkhtmltopdf");
    assert_eq!(bundled_binary_path(&"/r".to_string()), "/r/bin/wkhtmltopdf");
}

#[test]
fn respond_turns_errors_into_responses() {
    let ok = respond(Ok(PdfResponse { success: true, messages: vec![] }));
    assert!(ok.success);
    assert!(ok.messages.is_empty());
    let failed = respond(Err(ConvertError::Spawn("No such file or directory (os error 2)".to_string())));
    assert!(!failed.success);
    assert_eq!(failed.messages, vec!["No such file or directory (os error 2)"]);
    let decode = respond(Err(ConvertError::Decode("Invalid byte 64, offset 0.".to_string())));
    assert_eq!(decode.messages, vec!["Failed to decode Base64: Invalid byte 64, offset 0."]);
}
