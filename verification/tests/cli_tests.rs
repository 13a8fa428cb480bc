use lop::cli::{
    needs_confirmation, paste_source, render_plan, upload_command_request, PasteSource,
};
use lop::services::vh7::{Vh7Body, Vh7Service, Vh7ShortenResult};
use lop::services::ServiceResult;

#[test]
fn filename_wins_over_inline_code() {
    let filename = Some("notes.txt".to_string());
    let code = Some("print".to_string());
    assert_eq!(paste_source(&filename, &code), PasteSource::File);
}

#[test]
fn inline_code_wins_over_clipboard() {
    assert_eq!(paste_source(&None, &Some("print".to_string())), PasteSource::Code);
    assert_eq!(paste_source(&None, &None), PasteSource::Clipboard);
    assert_eq!(paste_source(&Some("a".to_string()), &None), PasteSource::File);
}

#[test]
fn inline_code_never_asks_for_confirmation() {
    let code = Some("print".to_string());
    assert!(!needs_confirmation(false, &code));
    assert!(!needs_confirmation(true, &code));
}

#[test]
fn other_sources_ask_unless_forced() {
    assert!(needs_confirmation(false, &None));
    assert!(!needs_confirmation(true, &None));
}

#[test]
fn quiet_mode_prints_only_the_bare_url() {
    let result = ServiceResult {
        url: "https://vh7.uk/xyz".to_string(),
        expires: Some(1_704_067_200_000),
    };
    let plan = render_plan(&result, true, false);
    assert_eq!(plan.qr_url, None);
    assert!(!plan.emphasize_url);
    assert_eq!(plan.url_line, "https://vh7.uk/xyz");
    assert_eq!(plan.expiry_line, None);
}

#[test]
fn normal_mode_prints_url_and_formatted_expiry() {
    let result = ServiceResult {
        url: "https://vh7.uk/xyz".to_string(),
        expires: Some(1_704_067_200_000),
    };
    let plan = render_plan(&result, false, false);
    assert_eq!(plan.qr_url, None);
    assert!(plan.emphasize_url);
    assert_eq!(plan.url_line, "https://vh7.uk/xyz");
    assert_eq!(plan.expiry_line, Some("01 Jan 2024 00:00".to_string()));
}

#[test]
fn qr_flag_renders_the_url_as_a_code_too() {
    let result = ServiceResult { url: "https://vh7.uk/xyz".to_string(), expires: None };
    let plan = render_plan(&result, true, true);
    assert_eq!(plan.qr_url, Some("https://vh7.uk/xyz".to_string()));
    assert!(plan.emphasize_url);
    assert_eq!(plan.expiry_line, None);
}

#[test]
fn upload_command_always_submits_text_plain() {
    let srv = Vh7Service::with_base("https://vh7.uk/api/").unwrap();
    let req = upload_command_request(
        &srv,
        None,
        vec![0x89, 0x50, 0x4e, 0x47],
        "picture.png".to_string(),
    )
    .unwrap();
    match req.body {
        Vh7Body::Multipart { mime_type, file_name, .. } => {
            assert_eq!(mime_type, "text/plain");
            assert_eq!(file_name, "picture.png");
        }
        Vh7Body::Form(_) => panic!("an upload request is multipart"),
    }
}

#[test]
fn shorten_scenario_end_to_end() {
    let srv = Vh7Service::with_base("https://vh7.uk/api/").unwrap();

    let req = srv.shorten_request(None, "https://long.example/path").unwrap();
    assert_eq!(req.url, "https://vh7.uk/api/shorten");
    match &req.body {
        Vh7Body::Form(fields) => {
            assert_eq!(fields[0].value, "https://long.example/path");
            assert_eq!(fields[1].value, "null");
        }
        Vh7Body::Multipart { .. } => panic!("a shorten request is form-encoded"),
    }

    let rec = Vh7ShortenResult {
        id: "xyz".to_string(),
        kind: "shorten".to_string(),
        created_at: "2024-01-01T00:00:00Z".to_string(),
        expires_at: None,
        updated_at: None,
        url: "https://long.example/path".to_string(),
    };
    let res = srv.shorten_response(&rec).unwrap();
    assert_eq!(res.url, "https://vh7.uk/xyz");
    assert_eq!(res.expires, None);

    let quiet = render_plan(&res, true, false);
    assert!(!quiet.emphasize_url);
    assert_eq!(quiet.url_line, "https://vh7.uk/xyz");
    assert_eq!(quiet.expiry_line, None);
    assert_eq!(quiet.qr_url, None);

    let normal = render_plan(&res, false, false);
    assert!(normal.emphasize_url);
    assert_eq!(normal.url_line, "https://vh7.uk/xyz");
    assert_eq!(normal.expiry_line, None);
}
