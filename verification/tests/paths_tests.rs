use donldr::paths::determine_file_path;

#[test]
fn directory_gains_url_file_name() {
    assert_eq!(determine_file_path("/tmp", "http://host/a/b.bin", true), "/tmp/b.bin");
}

#[test]
fn trailing_slash_is_not_doubled() {
    assert_eq!(determine_file_path("./", "http://host/f.txt", true), "./f.txt");
}

#[test]
fn plain_file_path_is_kept() {
    assert_eq!(determine_file_path("out.bin", "http://host/f.txt", false), "out.bin");
}

#[test]
fn url_without_slash_falls_back_to_default_name() {
    assert_eq!(determine_file_path("/tmp", "nohost", true), "/tmp/download.bin");
}

#[test]
fn url_ending_in_slash_gives_empty_name() {
    assert_eq!(determine_file_path("/tmp", "http://host/dir/", true), "/tmp/");
}
