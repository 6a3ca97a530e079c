use base64::Engine;
use rename_engine::pathname::{file_name_of, raw_extension_of};
use rename_engine::preview::{
    finish_preview, metadata_error_message, preview_gate, preview_size_check, read_error_message,
    PreviewHeader, MAX_PREVIEW_FILE_SIZE,
};

#[test]
fn preview_size_cap_is_20_mib() {
    assert_eq!(MAX_PREVIEW_FILE_SIZE, 20 * 1024 * 1024);
}

#[test]
fn missing_source_is_rejected_first() {
    let r = preview_gate(false, "photo.png");
    assert_eq!(r.err().as_deref(), Some("source_not_found"));
}

#[test]
fn txt_extension_is_unsupported() {
    let r = preview_gate(true, "notes.txt");
    assert_eq!(r.err().as_deref(), Some("unsupported_preview_format"));
}

#[test]
fn no_extension_is_unsupported() {
    assert_eq!(
        preview_gate(true, "archive").err().as_deref(),
        Some("unsupported_preview_format")
    );
    assert_eq!(
        preview_gate(true, ".gitignore").err().as_deref(),
        Some("unsupported_preview_format")
    );
    assert_eq!(
        preview_gate(true, "trailing.").err().as_deref(),
        Some("unsupported_preview_format")
    );
}

#[test]
fn pdf_extension_classifies_as_pdf() {
    let h = preview_gate(true, "docs/report.pdf").unwrap();
    assert_eq!(h.kind, "pdf");
    assert_eq!(h.mime, "application/pdf");
    assert_eq!(h.file_name, "report.pdf");
}

#[test]
fn uppercase_extension_still_classifies() {
    let h = preview_gate(true, "SCAN.PDF").unwrap();
    assert_eq!(h.kind, "pdf");
    assert_eq!(h.mime, "application/pdf");
    assert_eq!(h.file_name, "SCAN.PDF");
}

#[test]
fn jpg_and_jpeg_classify_as_jpeg_image() {
    let h1 = preview_gate(true, "a/b/photo.jpg").unwrap();
    assert_eq!(h1.kind, "image");
    assert_eq!(h1.mime, "image/jpeg");
    let h2 = preview_gate(true, "a\\b\\photo.JPeG").unwrap();
    assert_eq!(h2.kind, "image");
    assert_eq!(h2.mime, "image/jpeg");
    assert_eq!(h2.file_name, "photo.JPeG");
}

#[test]
fn only_the_last_dot_names_the_extension() {
    let h = preview_gate(true, "backup.2024.png").unwrap();
    assert_eq!(h.kind, "image");
    assert_eq!(h.mime, "image/png");
}

#[test]
fn size_check_allows_up_to_the_cap() {
    assert!(preview_size_check(0).is_ok());
    assert!(preview_size_check(10 * 1024).is_ok());
    assert!(preview_size_check(MAX_PREVIEW_FILE_SIZE).is_ok());
    assert_eq!(
        preview_size_check(MAX_PREVIEW_FILE_SIZE + 1).err().as_deref(),
        Some("preview_file_too_large")
    );
    assert_eq!(
        preview_size_check(25 * 1024 * 1024).err().as_deref(),
        Some("preview_file_too_large")
    );
}

#[test]
fn io_error_messages_carry_the_detail() {
    assert_eq!(
        metadata_error_message("permission denied (os error 13)"),
        "read_metadata_failed:permission denied (os error 13)"
    );
    assert_eq!(
        read_error_message("unexpected end of file"),
        "read_file_failed:unexpected end of file"
    );
}

#[test]
fn payload_base64_decodes_back_to_the_bytes() {
    // A 10 KiB pseudo-PNG body.
    let bytes: Vec<u8> = (0..10 * 1024).map(|i| (i % 251) as u8).collect();
    let header = preview_gate(true, "pics/photo.png").unwrap();
    let payload = finish_preview(header, &bytes);
    assert_eq!(payload.kind, "image");
    assert_eq!(payload.mime, "image/png");
    assert_eq!(payload.file_name, "photo.png");
    let decoded = base64::engine::general_purpose::STANDARD
        .decode(payload.base64_data.as_bytes())
        .unwrap();
    assert_eq!(decoded, bytes);
}

#[test]
fn payload_base64_is_the_standard_encoding() {
    let header = PreviewHeader {
        kind: String::from("pdf"),
        mime: String::from("application/pdf"),
        file_name: String::from("h.pdf"),
    };
    let payload = finish_preview(header, &b"hello".to_vec());
    assert_eq!(payload.base64_data, "aGVsbG8=");
}

#[test]
fn empty_file_encodes_to_empty_text() {
    let header = PreviewHeader {
        kind: String::from("image"),
        mime: String::from("image/png"),
        file_name: String::from("z.png"),
    };
    let payload = finish_preview(header, &Vec::new());
    assert_eq!(payload.base64_data, "");
}

#[test]
fn file_name_takes_the_last_component() {
    assert_eq!(file_name_of("a/b/c.txt"), "c.txt");
    assert_eq!(file_name_of("c.txt"), "c.txt");
    assert_eq!(file_name_of("a\\b\\c.txt"), "c.txt");
    assert_eq!(file_name_of("a/b/"), "b");
    assert_eq!(file_name_of("/"), "");
    assert_eq!(file_name_of(""), "");
    assert_eq!(file_name_of("a/.."), "");
    assert_eq!(file_name_of("."), "");
}

#[test]
fn raw_extension_follows_the_last_dot() {
    assert_eq!(raw_extension_of("photo.PNG"), "PNG");
    assert_eq!(raw_extension_of("a.b.c"), "c");
    assert_eq!(raw_extension_of("archive"), "");
    assert_eq!(raw_extension_of(".hidden"), "");
    assert_eq!(raw_extension_of("name."), "");
}
