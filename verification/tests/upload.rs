use contact_service::upload::PartDecision;
use contact_service::upload::UploadResponse;
use contact_service::upload::extension_for;
use contact_service::upload::part_decision;
use contact_service::upload::plan_upload;
use contact_service::upload::upload_filename;
use contact_service::upload::upload_path;

#[test]
fn allow_list_maps_exactly_two_types() {
    assert_eq!(extension_for(&"image/jpeg".to_owned()), Some("jpg".to_owned()));
    assert_eq!(extension_for(&"image/png".to_owned()), Some("png".to_owned()));
    assert_eq!(extension_for(&"image/gif".to_owned()), None);
    assert_eq!(extension_for(&"text/plain".to_owned()), None);
    assert_eq!(extension_for(&"IMAGE/PNG".to_owned()), None);
    assert_eq!(extension_for(&"".to_owned()), None);
}

#[test]
fn part_without_content_type_is_rejected() {
    let d = part_decision(&None);
    assert!(matches!(d, PartDecision::MissingContentType));
}

#[test]
fn part_with_allowed_type_is_saved() {
    match part_decision(&Some("image/jpeg".to_owned())) {
        PartDecision::Save(ext) => assert_eq!(ext, "jpg"),
        _ => panic!("expected a save"),
    }
}

#[test]
fn png_part_writes_exactly_one_png_file() {
    let parts = vec![Some("image/png".to_owned())];
    let plan = plan_upload(&parts);
    assert_eq!(plan.response, UploadResponse::Uploaded);
    assert_eq!(plan.response.status_code(), 200);
    assert_eq!(plan.files.len(), 1);
    let name = &plan.files[0];
    assert!(name.starts_with("img_"));
    assert!(name.ends_with(".png"));
    assert_eq!(name.len(), 44);
}

#[test]
fn text_plain_part_yields_400_and_no_file() {
    let parts = vec![Some("text/plain".to_owned())];
    let plan = plan_upload(&parts);
    assert_eq!(plan.response, UploadResponse::FileTypeNotAllowed);
    assert_eq!(plan.response.status_code(), 400);
    assert_eq!(plan.response.body_message(), "File type not allowed");
    assert_eq!(plan.files.len(), 0);
}

#[test]
fn missing_content_type_yields_400_and_no_file() {
    let parts = vec![None];
    let plan = plan_upload(&parts);
    assert_eq!(plan.response, UploadResponse::InvalidContentType);
    assert_eq!(plan.response.status_code(), 400);
    assert_eq!(plan.response.body_message(), "Invalid content type");
    assert_eq!(plan.files.len(), 0);
}

#[test]
fn zero_parts_yield_200_and_no_files() {
    let parts: Vec<Option<String>> = vec![];
    let plan = plan_upload(&parts);
    assert_eq!(plan.response, UploadResponse::Uploaded);
    assert_eq!(plan.response.status_code(), 200);
    assert_eq!(plan.response.body_message(), "File uploaded successfully");
    assert_eq!(plan.files.len(), 0);
}

#[test]
fn files_written_before_an_abort_stay() {
    let parts = vec![
        Some("image/png".to_owned()),
        Some("image/jpeg".to_owned()),
        Some("application/pdf".to_owned()),
        Some("image/png".to_owned()),
    ];
    let plan = plan_upload(&parts);
    assert_eq!(plan.response, UploadResponse::FileTypeNotAllowed);
    assert_eq!(plan.files.len(), 2);
    assert!(plan.files[0].ends_with(".png"));
    assert!(plan.files[1].ends_with(".jpg"));
}

#[test]
fn mixed_stream_of_allowed_parts_writes_one_file_each() {
    let parts = vec![
        Some("image/jpeg".to_owned()),
        Some("image/png".to_owned()),
        Some("image/jpeg".to_owned()),
    ];
    let plan = plan_upload(&parts);
    assert_eq!(plan.response, UploadResponse::Uploaded);
    assert_eq!(plan.files.len(), 3);
    assert!(plan.files[0].ends_with(".jpg"));
    assert!(plan.files[1].ends_with(".png"));
    assert!(plan.files[2].ends_with(".jpg"));
}

#[test]
fn generated_filenames_are_distinct() {
    let ext = "png".to_owned();
    let a = upload_filename(&ext);
    let b = upload_filename(&ext);
    assert_ne!(a, b);

    let parts = vec![Some("image/png".to_owned()), Some("image/png".to_owned())];
    let plan = plan_upload(&parts);
    assert_eq!(plan.files.len(), 2);
    assert_ne!(plan.files[0], plan.files[1]);
}

#[test]
fn upload_filename_has_the_documented_shape() {
    let name = upload_filename(&"jpg".to_owned());
    assert_eq!(name.len(), 44);
    assert!(name.starts_with("img_"));
    assert!(name.ends_with(".jpg"));
    let token = &name[4..40];
    assert!(token.chars().all(|c| c.is_ascii_hexdigit() || c == '-'));
}

#[test]
fn upload_path_joins_the_uploads_directory() {
    assert_eq!(upload_path(&"img_x.png".to_owned()), "uploads/img_x.png");
}
