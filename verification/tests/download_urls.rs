use sidecar_supervisor::download::{download_filename_for_url, download_name_from_url};

#[test]
fn blob_url_carries_the_name_in_its_fragment() {
    assert_eq!(
        download_name_from_url("blob:http://127.0.0.1:8000/1234-abcd#report%20%282%29.xlsx"),
        "report (2).xlsx"
    );
    assert_eq!(download_name_from_url("blob:x#first#second"), "first");
    assert_eq!(download_name_from_url("blob:x#"), "");
}

#[test]
fn blob_url_without_fragment_has_no_name() {
    assert_eq!(download_name_from_url("blob:http://127.0.0.1:8000/1234-abcd"), "download");
    assert_eq!(
        download_filename_for_url("blob:http://127.0.0.1:8000/1234-abcd"),
        "download"
    );
}

#[test]
fn blob_url_leaves_other_escapes_alone() {
    assert_eq!(download_name_from_url("blob:x#a%2Fb%20c"), "a%2Fb c");
    assert_eq!(download_name_from_url("blob:x#%%200"), "% 0");
    assert_eq!(download_name_from_url("blob:x#%2%2080%2"), "%2 80%2");
    assert_eq!(download_name_from_url("blob:x#%29%28%20"), ")( ");
}

#[test]
fn plain_url_gives_last_path_segment_without_query() {
    assert_eq!(
        download_name_from_url("http://127.0.0.1:8000/api/export/devices.csv?token=1&x=a/b"),
        "b"
    );
    assert_eq!(
        download_name_from_url("http://127.0.0.1:8000/api/export/devices.csv?token=1"),
        "devices.csv"
    );
    assert_eq!(download_name_from_url("http://host/dir/"), "");
    assert_eq!(download_name_from_url("no-slash?x"), "no-slash");
}

#[test]
fn download_filename_for_url_is_made_safe() {
    assert_eq!(
        download_filename_for_url("blob:http://h/1#..%20my%20file%28v2%29.xlsx"),
        "my file(v2).xlsx"
    );
    assert_eq!(download_filename_for_url("http://host/files/bad*name?.txt"), "bad_name");
    assert_eq!(download_filename_for_url("http://host/dir/"), "download");
}
