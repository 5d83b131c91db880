use cliobulk::commands::validate_output_path;

#[test]
fn test_validate_output_path() {
    // Valid paths
    assert!(validate_output_path("image.jpg").is_ok());
    assert!(validate_output_path("image.jpeg").is_ok());
    assert!(validate_output_path("image.png").is_ok());
    assert!(validate_output_path("image.webp").is_ok());
    assert!(validate_output_path("/home/user/image.jpg").is_ok());
    assert!(validate_output_path("C:\\Users\\User\\image.jpg").is_ok());
    assert!(validate_output_path("IMAGE.JPG").is_ok()); // Case insensitive

    // Invalid paths
    assert!(validate_output_path("image.exe").is_err());
    assert!(validate_output_path("image.sh").is_err());
    assert!(validate_output_path("image").is_err()); // No extension
    assert!(validate_output_path("image.txt").is_err());
    assert!(validate_output_path("image.jpg.exe").is_err());
    assert!(validate_output_path("/etc/passwd").is_err());
}

#[test]
fn refusal_carries_the_list_of_extensions() {
    assert_eq!(
        validate_output_path("image.exe"),
        Err("Invalid output file extension. Allowed: [\"jpg\", \"jpeg\", \"png\", \"webp\"]".to_string())
    );
}

#[test]
fn extension_is_read_from_the_last_component_that_counts() {
    assert!(validate_output_path("out/photo.png/").is_ok());
    assert!(validate_output_path("out/photo.png/.").is_ok());
    assert!(validate_output_path("out/photo.png/./").is_ok());
    assert!(validate_output_path("out.png/photo").is_err());
    assert!(validate_output_path("out/photo.png/..").is_err());
}

#[test]
fn a_leading_dot_starts_no_extension() {
    assert!(validate_output_path(".png").is_err());
    assert!(validate_output_path("dir/.jpg").is_err());
    assert!(validate_output_path("..png").is_ok());
    assert!(validate_output_path("a.").is_err());
    assert!(validate_output_path("").is_err());
    assert!(validate_output_path("/").is_err());
    assert!(validate_output_path(".").is_err());
    assert!(validate_output_path("..").is_err());
}

#[test]
fn extension_matches_std_path_on_this_platform() {
    let allowed = ["jpg", "jpeg", "png", "webp"];
    let cases = [
        "image.jpg", "IMAGE.JpEg", "a/b/c.webp", "a.png/", "a.png/.", "a.png/..", ".png", "..png",
        "x/.jpg", "a.b.c.PNG", "noext", "", "/", ".", "..", "a.", "dir.jpg/file", "dir/file.jpg//",
        "été.png", "photo.pn\u{212A}", "a/./b.jpeg/./.",
    ];
    for case in cases {
        let by_std = std::path::Path::new(case)
            .extension()
            .and_then(|e| e.to_str())
            .map(|e| allowed.contains(&e.to_lowercase().as_str()))
            .unwrap_or(false);
        assert_eq!(validate_output_path(case).is_ok(), by_std, "{:?}", case);
    }
}
