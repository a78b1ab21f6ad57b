use sidecar_supervisor::download::sanitize_download_filename;

#[test]
fn sanitize_download_filename_keeps_safe_name() {
    assert_eq!(sanitize_download_filename("report-2026_02(1).csv"), "report-2026_02(1).csv");
}

#[test]
fn sanitize_download_filename_strips_path_segments() {
    assert_eq!(sanitize_download_filename("../../etc/passwd"), "passwd");
    assert_eq!(sanitize_download_filename(r"..\..\evil.txt"), "evil.txt");
}

#[test]
fn sanitize_download_filename_rejects_empty_or_dot_names() {
    assert_eq!(sanitize_download_filename(""), "download");
    assert_eq!(sanitize_download_filename("."), "download");
    assert_eq!(sanitize_download_filename(".."), "download");
    assert_eq!(sanitize_download_filename("   "), "download");
}

#[test]
fn sanitize_download_filename_replaces_unsafe_chars() {
    assert_eq!(sanitize_download_filename("bad*name?.txt"), "bad_name_.txt");
}

#[test]
fn sanitize_download_filename_truncates_long_names() {
    let long_name = format!("{}.txt", "a".repeat(200));
    assert_eq!(sanitize_download_filename(&long_name).len(), 120);
}

#[test]
fn sanitize_trims_unicode_blanks_around_the_last_segment() {
    assert_eq!(sanitize_download_filename("dir/\u{00A0}\u{2003} notes.txt \u{3000}"), "notes.txt");
    assert_eq!(sanitize_download_filename("a/b/\t c.pdf\r\n"), "c.pdf");
}

#[test]
fn sanitize_replaces_inner_unicode_by_underscores() {
    assert_eq!(sanitize_download_filename("r\u{00E9}sum\u{00E9}.doc"), "r_sum_.doc");
    assert_eq!(sanitize_download_filename("a\u{00A0}b"), "a_b");
    assert_eq!(sanitize_download_filename("50% (final)-v_2.txt"), "50% (final)-v_2.txt");
}

#[test]
fn sanitize_strips_dots_then_blanks_from_both_ends() {
    assert_eq!(sanitize_download_filename("..hidden.."), "hidden");
    assert_eq!(sanitize_download_filename(". .a"), ".a");
    assert_eq!(sanitize_download_filename(". . ."), "download");
    assert_eq!(sanitize_download_filename(". ."), "download");
    assert_eq!(sanitize_download_filename("*"), "_");
}

#[test]
fn sanitize_ends_in_a_separator_gives_fallback() {
    assert_eq!(sanitize_download_filename("some/dir/"), "download");
    assert_eq!(sanitize_download_filename("some\\dir\\"), "download");
    assert_eq!(sanitize_download_filename("mixed/dir\\file.bin"), "file.bin");
}

#[test]
fn sanitize_truncates_to_the_first_120_characters() {
    let long_name = format!("{}.txt", "a".repeat(200));
    assert_eq!(sanitize_download_filename(&long_name), "a".repeat(120));
    let exact = "b".repeat(120);
    assert_eq!(sanitize_download_filename(&exact), exact);
    let over = format!("{}c", "b".repeat(120));
    assert_eq!(sanitize_download_filename(&over), "b".repeat(120));
}
