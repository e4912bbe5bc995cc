use devya::paths::{get_cert_path, join_path};

#[test]
fn cert_paths_sit_under_the_data_directory() {
    let (cert, key) = get_cert_path("/home/user/.local/share/devya");
    assert_eq!(cert, "/home/user/.local/share/devya/cert/ca.crt");
    assert_eq!(key, "/home/user/.local/share/devya/cert/ca.key");
}

#[test]
fn join_keeps_a_trailing_separator_and_an_empty_base() {
    assert_eq!(join_path("/data/", "cert/ca.crt"), "/data/cert/ca.crt");
    assert_eq!(join_path("", "cert/ca.crt"), "cert/ca.crt");
    assert_eq!(join_path(".", "cert/ca.key"), "./cert/ca.key");
}
