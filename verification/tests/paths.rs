use std::path::Path;

use splinterd_config::default::get_cert_file_path;

#[test]
fn cert_path_appends_name_to_directory_that_ends_in_a_slash() {
    assert_eq!(
        get_cert_file_path("/etc/splinter/certs/", "client.crt"),
        Some(String::from("/etc/splinter/certs/client.crt"))
    );
    assert_eq!(
        get_cert_file_path("/etc/splinter/certs/", "private/server.key"),
        Some(String::from("/etc/splinter/certs/private/server.key"))
    );
}

#[test]
fn cert_path_puts_a_slash_after_directory_that_has_none() {
    assert_eq!(
        get_cert_file_path("/etc/splinter/certs", "ca.pem"),
        Some(String::from("/etc/splinter/certs/ca.pem"))
    );
    assert_eq!(
        get_cert_file_path("certs", "ca.pem"),
        Some(String::from("certs/ca.pem"))
    );
}

#[test]
fn cert_path_of_absolute_name_is_the_name() {
    assert_eq!(
        get_cert_file_path("/etc/splinter/certs/", "/opt/ca.pem"),
        Some(String::from("/opt/ca.pem"))
    );
    assert_eq!(
        get_cert_file_path("", "/opt/ca.pem"),
        Some(String::from("/opt/ca.pem"))
    );
}

#[test]
fn cert_path_edge_cases() {
    assert_eq!(get_cert_file_path("", "ca.pem"), Some(String::from("ca.pem")));
    assert_eq!(get_cert_file_path("", ""), Some(String::new()));
    assert_eq!(get_cert_file_path("certs", ""), Some(String::from("certs/")));
    assert_eq!(get_cert_file_path("certs/", ""), Some(String::from("certs/")));
    assert_eq!(get_cert_file_path("/", "ca.pem"), Some(String::from("/ca.pem")));
    assert_eq!(
        get_cert_file_path("certs//", "ca.pem"),
        Some(String::from("certs//ca.pem"))
    );
    assert_eq!(
        get_cert_file_path("zertifikate/schlüssel", "größe.pem"),
        Some(String::from("zertifikate/schlüssel/größe.pem"))
    );
}

#[test]
fn cert_path_does_not_depend_on_the_file_being_there() {
    let missing = get_cert_file_path("/nonexistent/splinter/certs/", "client.crt");
    assert_eq!(
        missing,
        Some(String::from("/nonexistent/splinter/certs/client.crt"))
    );
    assert!(!Path::new(&missing.unwrap()).exists());
}

#[test]
fn cert_path_is_what_a_unix_path_joins() {
    let cases = [
        ("/etc/splinter/certs/", "client.crt"),
        ("/etc/splinter/certs", "private/client.key"),
        ("", "ca.pem"),
        ("certs", ""),
        ("certs/", "/abs/ca.pem"),
        ("a//", "b"),
    ];
    for (dir, file) in cases {
        let joined = Path::new(dir).join(file);
        assert_eq!(
            get_cert_file_path(dir, file).as_deref(),
            joined.to_str(),
            "{:?} {:?}",
            dir,
            file
        );
    }
}
