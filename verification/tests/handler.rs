use upload_service::config::Config;
use upload_service::content_type::{ContentType, MediaParam};
use upload_service::error::UploadError;
use upload_service::filename::file_name_of;
use upload_service::ident::is_identifier_str;
use upload_service::pages::{index_page, link, success_page, HEADER};
use upload_service::upload::{
    failure, find_upload_part, finish_save, is_upload_field, next_step, plan_step, respond,
    advance, is_in_turn, PartHeader, Phase, Response, SaveOutcome, Step, UploadEvent,
    UPLOAD_FIELD,
};

const ID: &str = "V1StGXR8_Z5jdHi6B-my";

fn config() -> Config {
    Config::new(Some("/srv/files".to_string()), Some("https://cdn.example".to_string())).unwrap()
}

fn on_request(event: &UploadEvent) -> Step {
    next_step(&config(), Phase::Idle, event).1
}

fn on_body(event: &UploadEvent) -> Step {
    next_step(&config(), Phase::Scanning, event).1
}

fn planned(dir: &str, phase: Phase, event: &UploadEvent) -> Step {
    plan_step(dir, ID, phase, event).1
}

fn part(name: &str, file_name: Option<&str>) -> PartHeader {
    PartHeader { name: name.to_string(), file_name: file_name.map(|f| f.to_string()) }
}

#[test]
fn index_page_holds_the_upload_form() {
    let page = index_page();
    assert!(page.starts_with(HEADER));
    assert!(page.contains("<form action=\"/upload\" method=\"post\" enctype=\"multipart/form-data\">"));
    assert!(page.contains("<input type=\"file\" name=\"fileToUpload\""));
    assert!(page.contains("<input type=\"submit\""));
    assert!(page.ends_with("</form>\n</div>\n"));
}

#[test]
fn index_page_is_exact() {
    let expected = "<div style=\"font-family:monospace; text-align: center; zoom: 1.5; padding-left: 3vw; padding-top:20vh;\">\n<form action=\"/upload\" method=\"post\" enctype=\"multipart/form-data\">\n   <h1>Select file to upload:</h1> <br>\n   <input type=\"file\" name=\"fileToUpload\" id=\"fileToUpload\" required> <br><br>\n   <input type=\"submit\" value=\"Upload File\" name=\"submit\">\n</form>\n</div>\n";
    assert_eq!(index_page(), expected);
}

#[test]
fn success_page_links_to_the_file() {
    let page = success_page(&config(), "abc123.png");
    assert!(page.contains("href=\"https://cdn.example/abc123.png\""));
    assert!(page.contains("<a href=\"https://cdn.example/abc123.png\">https://cdn.example/abc123.png</a>"));
    assert!(page.contains("<a href=\"/\">Upload next file</a>"));
    assert!(page.starts_with(HEADER));
}

#[test]
fn success_page_is_exact() {
    let expected = "<div style=\"font-family:monospace; text-align: center; zoom: 1.5; padding-left: 3vw; padding-top:20vh;\">\n            <h1>File link:</h1>\n            <br>\n            <a href=\"https://cdn.example/f\">https://cdn.example/f</a>\n            <br><br>\n            <a href=\"/\">Upload next file</a>\n        </div>\n        ";
    assert_eq!(success_page(&config(), "f"), expected);
}

#[test]
fn success_page_renders_any_name() {
    let page = success_page(&config(), "never-uploaded");
    assert!(page.contains("href=\"https://cdn.example/never-uploaded\""));
    let page = success_page(&config(), "");
    assert!(page.contains("href=\"https://cdn.example/\""));
}

#[test]
fn link_joins_base_and_file() {
    assert_eq!(link("https://cdn.example", "abc123.png"), "https://cdn.example/abc123.png");
    assert_eq!(link("", ""), "/");
}

#[test]
fn upload_field_is_matched_exactly() {
    assert_eq!(UPLOAD_FIELD, "fileToUpload");
    assert!(is_upload_field("fileToUpload"));
    assert!(!is_upload_field("filetoupload"));
    assert!(!is_upload_field("fileToUpload "));
    assert!(!is_upload_field("submit"));
    assert!(!is_upload_field(""));
    assert!(part("fileToUpload", None).is_upload());
    assert!(!part("other", Some("fileToUpload")).is_upload());
}

#[test]
fn first_matching_part_is_found() {
    let parts = vec![
        part("submit", None),
        part("fileToUpload", Some("one.png")),
        part("fileToUpload", Some("two.png")),
    ];
    assert_eq!(find_upload_part(&parts), Some(1));
    assert_eq!(find_upload_part(&vec![part("fileToUpload", None)]), Some(0));
    assert_eq!(find_upload_part(&vec![part("a", None), part("b", Some("fileToUpload"))]), None);
    assert_eq!(find_upload_part(&Vec::new()), None);
}

#[test]
fn png_upload_is_stored_and_redirected() {
    let ct = ContentType {
        top: "multipart".to_string(),
        sub: "form-data".to_string(),
        params: vec![MediaParam { key: "boundary".to_string(), value: "XYZ".to_string() }],
    };
    assert_eq!(ct.boundary(), Ok("XYZ".to_string()));
    assert_eq!(
        on_request(&UploadEvent::Request(Some(ct))),
        Step::Scan { boundary: "XYZ".to_string() }
    );
    let event = UploadEvent::Part(part("fileToUpload", Some("photo.png")));
    let step = on_body(&event);
    let path = match step {
        Step::Save { path } => path,
        other => panic!("{:?}", other),
    };
    let file = file_name_of(&path).unwrap();
    assert_eq!(path, format!("/srv/files/{}", file));
    assert!(file.ends_with(".png"));
    let id = &file[..file.len() - 4];
    assert!(is_identifier_str(id));
    let verdict = finish_save(SaveOutcome::File(path.clone()));
    assert_eq!(verdict, Ok(path));
    assert_eq!(respond(&verdict), Response::Redirect { file });
}

#[test]
fn planned_step_for_a_known_identifier() {
    let event = UploadEvent::Part(part("fileToUpload", Some("photo.png")));
    assert_eq!(
        planned("/srv/files", Phase::Scanning, &event),
        Step::Save { path: "/srv/files/V1StGXR8_Z5jdHi6B-my.png".to_string() }
    );
    let event = UploadEvent::Part(part("fileToUpload", None));
    assert_eq!(
        planned("/srv/files/", Phase::Scanning, &event),
        Step::Save { path: "/srv/files/V1StGXR8_Z5jdHi6B-my".to_string() }
    );
}

#[test]
fn other_parts_are_skipped() {
    let event = UploadEvent::Part(part("submit", Some("photo.png")));
    assert_eq!(planned("/srv/files", Phase::Scanning, &event), Step::Skip);
    assert_eq!(on_body(&event), Step::Skip);
}

#[test]
fn body_without_the_field_fails_with_500() {
    let step = on_body(&UploadEvent::End);
    assert_eq!(step, Step::Fail(UploadError::NoFileField));
    assert_eq!(
        respond(&Err(UploadError::NoFileField)),
        Response::Failure { status: 500, message: "no fileToUpload field found".to_string() }
    );
}

#[test]
fn broken_body_fails_with_the_readers_text() {
    let event = UploadEvent::Broken("unexpected end of stream".to_string());
    let step = planned("/srv/files", Phase::Scanning, &event);
    assert_eq!(step, Step::Fail(UploadError::Storage("unexpected end of stream".to_string())));
    assert_eq!(on_body(&event), step);
}

#[test]
fn two_uploads_of_one_file_get_two_names() {
    let event = UploadEvent::Part(part("fileToUpload", Some("photo.png")));
    let a = on_body(&event);
    let b = on_body(&event);
    assert_ne!(a, b);
}

#[test]
fn only_a_complete_file_counts_as_stored() {
    assert_eq!(finish_save(SaveOutcome::File("/srv/files/a".to_string())), Ok("/srv/files/a".to_string()));
    assert_eq!(finish_save(SaveOutcome::InMemory), Err(UploadError::NotAFile));
    assert_eq!(finish_save(SaveOutcome::Partial), Err(UploadError::PartialWrite));
    assert_eq!(
        finish_save(SaveOutcome::Failed("permission denied".to_string())),
        Err(UploadError::Storage("permission denied".to_string()))
    );
    assert_eq!(finish_save(SaveOutcome::NonUnicodePath), Err(UploadError::NonUnicodeFileName));
}

#[test]
fn responses_to_failures() {
    assert_eq!(
        respond(&Err(UploadError::PartialWrite)),
        Response::Failure { status: 500, message: "found partial".to_string() }
    );
    assert_eq!(
        respond(&Err(UploadError::Storage("disk full".to_string()))),
        Response::Failure { status: 500, message: "disk full".to_string() }
    );
    assert_eq!(
        respond(&Err(UploadError::NotMultipart)),
        Response::Failure { status: 400, message: "Content-Type not multipart/form-data".to_string() }
    );
    assert_eq!(
        failure(&UploadError::MissingBoundary),
        Response::Failure {
            status: 400,
            message: "`Content-Type: multipart/form-data` boundary param not provided".to_string()
        }
    );
    assert_eq!(
        respond(&Err(UploadError::NonUnicodeFileName)),
        Response::Failure { status: 500, message: "filename not valid UTF-8".to_string() }
    );
}

#[test]
fn stored_path_without_file_name_is_a_failure() {
    assert_eq!(
        respond(&Ok("/".to_string())),
        Response::Failure {
            status: 500,
            message: "no valid filename for stored file found!".to_string()
        }
    );
    assert_eq!(
        respond(&Ok("/srv/files/abc.png".to_string())),
        Response::Redirect { file: "abc.png".to_string() }
    );
}

fn request(top: &str, sub: &str, params: &[(&str, &str)]) -> UploadEvent {
    UploadEvent::Request(Some(ContentType {
        top: top.to_string(),
        sub: sub.to_string(),
        params: params
            .iter()
            .map(|(k, v)| MediaParam { key: k.to_string(), value: v.to_string() })
            .collect(),
    }))
}

#[test]
fn request_without_content_type_is_given_up_with_400() {
    let event = UploadEvent::Request(None);
    assert_eq!(on_request(&event), Step::Fail(UploadError::NotMultipart));
    assert_eq!(planned("/srv/files", Phase::Idle, &event), Step::Fail(UploadError::NotMultipart));
    assert_eq!(
        failure(&UploadError::NotMultipart),
        Response::Failure { status: 400, message: "Content-Type not multipart/form-data".to_string() }
    );
}

#[test]
fn non_multipart_request_is_given_up_with_400() {
    for event in [
        request("text", "plain", &[]),
        request("application", "json", &[("boundary", "XYZ")]),
        request("multipart", "mixed", &[("boundary", "XYZ")]),
    ] {
        let step = on_request(&event);
        assert_eq!(step, Step::Fail(UploadError::NotMultipart));
        assert_eq!(planned("/srv/files", Phase::Idle, &event), step);
        assert_eq!(
            respond(&Err(UploadError::NotMultipart)),
            Response::Failure {
                status: 400,
                message: "Content-Type not multipart/form-data".to_string()
            }
        );
    }
}

#[test]
fn request_without_boundary_is_given_up_with_400() {
    for event in [
        request("multipart", "form-data", &[]),
        request("multipart", "form-data", &[("charset", "utf-8")]),
        request("MULTIPART", "Form-Data", &[("bound", "XYZ")]),
    ] {
        let step = on_request(&event);
        assert_eq!(step, Step::Fail(UploadError::MissingBoundary));
        assert_eq!(failure(&UploadError::MissingBoundary), respond(&Err(UploadError::MissingBoundary)));
        assert_eq!(UploadError::MissingBoundary.status(), 400);
    }
}

#[test]
fn multipart_request_is_scanned_with_its_boundary() {
    let event = request("multipart", "form-data", &[("charset", "utf-8"), ("boundary", "----x")]);
    assert_eq!(planned("/srv/files", Phase::Idle, &event), Step::Scan { boundary: "----x".to_string() });
    assert_eq!(on_request(&event), Step::Scan { boundary: "----x".to_string() });
}

#[test]
fn body_without_the_field_is_skipped_throughout() {
    let parts = vec![part("submit", None), part("comment", Some("fileToUpload.png"))];
    assert_eq!(find_upload_part(&parts), None);
    for p in parts {
        assert_eq!(on_body(&UploadEvent::Part(p)), Step::Skip);
    }
    assert_eq!(on_body(&UploadEvent::End), Step::Fail(UploadError::NoFileField));
}

#[test]
fn phases_follow_the_steps() {
    let ct = ContentType {
        top: "multipart".to_string(),
        sub: "form-data".to_string(),
        params: vec![MediaParam { key: "boundary".to_string(), value: "XYZ".to_string() }],
    };
    let (phase, step) = plan_step("/srv/files", ID, Phase::Idle, &UploadEvent::Request(Some(ct)));
    assert_eq!(step, Step::Scan { boundary: "XYZ".to_string() });
    assert_eq!(phase, Phase::Scanning);
    let (phase, step) = plan_step("/srv/files", ID, phase, &UploadEvent::Part(part("submit", None)));
    assert_eq!(step, Step::Skip);
    assert_eq!(phase, Phase::Scanning);
    let upload = UploadEvent::Part(part("fileToUpload", Some("one.png")));
    let (phase, step) = plan_step("/srv/files", ID, phase, &upload);
    assert_eq!(step, Step::Save { path: "/srv/files/V1StGXR8_Z5jdHi6B-my.png".to_string() });
    assert_eq!(phase, Phase::Finished);
}

#[test]
fn a_second_upload_part_is_not_saved() {
    let first = UploadEvent::Part(part("fileToUpload", Some("one.png")));
    let second = UploadEvent::Part(part("fileToUpload", Some("two.png")));
    let (phase, step) = next_step(&config(), Phase::Scanning, &first);
    assert!(matches!(step, Step::Save { .. }));
    assert_eq!(phase, Phase::Finished);
    assert_eq!(next_step(&config(), phase, &second), (Phase::Finished, Step::Stop));
    assert_eq!(plan_step("/srv/files", ID, phase, &second), (Phase::Finished, Step::Stop));
    assert_eq!(next_step(&config(), phase, &UploadEvent::End), (Phase::Finished, Step::Stop));
}

#[test]
fn failure_finishes_the_request() {
    assert_eq!(
        next_step(&config(), Phase::Idle, &UploadEvent::Request(None)),
        (Phase::Finished, Step::Fail(UploadError::NotMultipart))
    );
    assert_eq!(
        next_step(&config(), Phase::Scanning, &UploadEvent::End),
        (Phase::Finished, Step::Fail(UploadError::NoFileField))
    );
    assert_eq!(
        next_step(&config(), Phase::Scanning, &UploadEvent::Broken("cut".to_string())),
        (Phase::Finished, Step::Fail(UploadError::Storage("cut".to_string())))
    );
}

#[test]
fn events_out_of_turn_are_stopped() {
    let upload = UploadEvent::Part(part("fileToUpload", Some("one.png")));
    assert_eq!(next_step(&config(), Phase::Idle, &upload), (Phase::Idle, Step::Stop));
    assert_eq!(next_step(&config(), Phase::Idle, &UploadEvent::End), (Phase::Idle, Step::Stop));
    assert_eq!(
        next_step(&config(), Phase::Scanning, &UploadEvent::Request(None)),
        (Phase::Scanning, Step::Stop)
    );
    assert!(is_in_turn(Phase::Idle, &UploadEvent::Request(None)));
    assert!(!is_in_turn(Phase::Idle, &upload));
    assert!(is_in_turn(Phase::Scanning, &upload));
    assert!(is_in_turn(Phase::Scanning, &UploadEvent::End));
    assert!(!is_in_turn(Phase::Scanning, &UploadEvent::Request(None)));
    assert!(!is_in_turn(Phase::Finished, &upload));
    assert!(!is_in_turn(Phase::Finished, &UploadEvent::Request(None)));
}

#[test]
fn phase_after_each_step() {
    assert_eq!(advance(Phase::Idle, &Step::Scan { boundary: "b".to_string() }), Phase::Scanning);
    assert_eq!(advance(Phase::Scanning, &Step::Skip), Phase::Scanning);
    assert_eq!(advance(Phase::Idle, &Step::Stop), Phase::Idle);
    assert_eq!(advance(Phase::Finished, &Step::Stop), Phase::Finished);
    assert_eq!(advance(Phase::Scanning, &Step::Save { path: "p".to_string() }), Phase::Finished);
    assert_eq!(advance(Phase::Scanning, &Step::Fail(UploadError::NoFileField)), Phase::Finished);
}

#[test]
fn stored_path_with_trailing_component_is_redirected_to_its_file_name() {
    assert_eq!(
        respond(&Ok("/srv/files/abc.png/".to_string())),
        Response::Redirect { file: "abc.png".to_string() }
    );
    assert_eq!(
        respond(&Ok("/srv/files/..".to_string())),
        Response::Failure {
            status: 500,
            message: "no valid filename for stored file found!".to_string()
        }
    );
}
