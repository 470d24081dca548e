use post_service::create::{storage_name, storage_path};
use post_service::decimal::{push_decimal, push_signed_decimal};
use post_service::response::ErrorKind;
use post_service::upload::{check_extension, validate_upload, UploadCandidate};

fn candidate(name: Option<&str>, size: usize) -> UploadCandidate {
    UploadCandidate {
        file_name: name.map(|n| n.to_string()),
        size,
        path: "/tmp/upload-1".to_string(),
    }
}

#[test]
fn png_under_the_limit_is_accepted() {
    assert_eq!(validate_upload(&candidate(Some("photo.png"), 1024), 5_000_000), Ok(()));
}

#[test]
fn pdf_is_an_invalid_file_type() {
    assert_eq!(
        validate_upload(&candidate(Some("doc.pdf"), 1024), 5_000_000),
        Err(ErrorKind::InvalidFileType)
    );
}

#[test]
fn empty_upload_is_an_invalid_file_size() {
    assert_eq!(
        validate_upload(&candidate(Some("photo.png"), 0), 5_000_000),
        Err(ErrorKind::InvalidFileSize)
    );
}

#[test]
fn upload_over_the_limit_is_too_large() {
    assert_eq!(
        validate_upload(&candidate(Some("photo.jpg"), 10_000_001), 10_000_000),
        Err(ErrorKind::FileTooLarge)
    );
}

#[test]
fn upload_at_the_limit_is_accepted() {
    assert_eq!(validate_upload(&candidate(Some("photo.jpg"), 10_000_000), 10_000_000), Ok(()));
    assert_eq!(validate_upload(&candidate(Some("photo.jpg"), 1), 1), Ok(()));
}

#[test]
fn limit_of_zero_admits_nothing() {
    assert_eq!(
        validate_upload(&candidate(Some("photo.jpg"), 1), 0),
        Err(ErrorKind::FileTooLarge)
    );
    assert_eq!(
        validate_upload(&candidate(Some("photo.jpg"), 0), 0),
        Err(ErrorKind::InvalidFileSize)
    );
}

#[test]
fn the_type_is_checked_before_the_size() {
    assert_eq!(
        validate_upload(&candidate(Some("doc.pdf"), 0), 5_000_000),
        Err(ErrorKind::InvalidFileType)
    );
    assert_eq!(
        validate_upload(&candidate(Some("doc.pdf"), 99), 5),
        Err(ErrorKind::InvalidFileType)
    );
}

#[test]
fn short_names_are_rejected_not_sliced() {
    for name in ["", "a", "jpg", ".jp", "png"] {
        assert_eq!(
            validate_upload(&candidate(Some(name), 10), 100),
            Err(ErrorKind::InvalidFileType),
            "{:?}",
            name
        );
    }
}

#[test]
fn upload_without_a_name_is_rejected() {
    assert_eq!(validate_upload(&candidate(None, 10), 100), Err(ErrorKind::InvalidFileType));
}

#[test]
fn extension_alone_is_a_name() {
    assert!(check_extension(".jpg"));
    assert!(check_extension(".png"));
}

#[test]
fn extension_is_case_sensitive() {
    assert!(!check_extension("photo.PNG"));
    assert!(!check_extension("photo.Jpg"));
    assert!(check_extension("PHOTO.jpg"));
}

#[test]
fn only_the_last_four_characters_count() {
    assert!(!check_extension("photo.jpeg"));
    assert!(!check_extension("photo.jpg.exe"));
    assert!(!check_extension("photo.jpg "));
    assert!(check_extension("archive.tar.png"));
    assert!(!check_extension("photojpg"));
}

#[test]
fn names_beyond_ascii_are_measured_in_characters() {
    assert!(check_extension("été.png"));
    assert!(check_extension("写真.jpg"));
    assert!(!check_extension("photo.pñg"));
    assert!(!check_extension("é.p"));
}

#[test]
fn decimal_notation() {
    for (n, text) in [
        (0u64, "0"),
        (7, "7"),
        (10, "10"),
        (909, "909"),
        (1_700_000_000, "1700000000"),
        (u64::MAX, "18446744073709551615"),
    ] {
        let mut out = String::new();
        push_decimal(&mut out, n);
        assert_eq!(out, text);
    }
}

#[test]
fn decimal_notation_appends() {
    let mut out = "n=".to_string();
    push_decimal(&mut out, 42);
    push_signed_decimal(&mut out, -42);
    assert_eq!(out, "n=42-42");
}

#[test]
fn signed_decimal_notation() {
    for (n, text) in [
        (0i64, "0"),
        (-1, "-1"),
        (1, "1"),
        (-10, "-10"),
        (i64::MAX, "9223372036854775807"),
        (i64::MIN, "-9223372036854775808"),
    ] {
        let mut out = String::new();
        push_signed_decimal(&mut out, n);
        assert_eq!(out, text);
    }
}

#[test]
fn stored_name_is_time_hyphen_name() {
    assert_eq!(storage_name(1_700_000_000, "cat.jpg"), "1700000000-cat.jpg");
    assert_eq!(storage_name(0, ""), "0-");
    assert_eq!(storage_name(-5, "x.png"), "-5-x.png");
    assert_eq!(storage_name(12, "null"), "12-null");
}

#[test]
fn stored_names_differ_from_second_to_second() {
    assert_ne!(storage_name(1_700_000_000, "cat.jpg"), storage_name(1_700_000_001, "cat.jpg"));
}

#[test]
fn blobs_lie_in_the_public_directory() {
    assert_eq!(storage_path("1700000000-cat.jpg"), "./public/1700000000-cat.jpg");
    assert_eq!(storage_path(""), "./public/");
}
