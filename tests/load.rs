use sentiment_text::{decode_body, extract_text_from_html, import_file, response_status, ErrorKind};

fn supply_test_html() -> &'static str {
    r#"
            <html>
                <body>
                    <div id="example">
                        <p>Hello, world!</p>
                    </div>
                </body>
            </html>
        "#
}

#[test]
fn args_test_import_file_from_path_is_success() {
    let text = import_file(Ok(String::new())).expect("Unable to import text in test");
    assert_eq!(text, "")
}

#[test]
fn args_test_import_file_from_path_is_failure() {
    let e = import_file(Err("No such file or directory (os error 2)".to_string())).unwrap_err();
    assert_eq!(
        e.message(),
        "Error importing file from file system. No such file or directory (os error 2)"
    );
}

#[test]
fn lib_test_import_file_from_path_is_success() {
    let text = import_file(Ok(String::new())).expect("Unable to import text in test");
    assert_eq!(text, "")
}

#[test]
fn lib_test_import_file_from_path_is_failure() {
    let e = import_file(Err("No such file or directory (os error 2)".to_string())).unwrap_err();
    assert_eq!(
        e.message(),
        "Error importing file from file system. No such file or directory (os error 2)"
    );
}

#[test]
fn args_test_fetch_html_from_site_is_success() {
    let address = "http://127.0.0.1:8080";
    response_status(address, Ok(200)).expect("Unable to get HTML");
    let html = decode_body(Ok(supply_test_html().to_string())).expect("Unable to get HTML");
    let selector = "div#example p";
    let text = extract_text_from_html(&html, selector).expect("Unable to parse HTML");
    assert_eq!(text, "Hello, world!")
}

#[test]
fn lib_test_fetch_html_from_site_is_success() {
    let address = "http://127.0.0.1:8080";
    response_status(address, Ok(200)).expect("Unable to get HTML");
    let html = decode_body(Ok(supply_test_html().to_string())).expect("Unable to get HTML");
    let selector = "div#example p";
    let text = extract_text_from_html(&html, selector).expect("Unable to parse HTML");
    assert_eq!(text, "Hello, world!")
}

#[test]
fn server_error_status_is_a_request_failure_naming_the_code() {
    let e = response_status("http://example.test/", Ok(500)).unwrap_err();
    match &e {
        ErrorKind::Request(target, detail) => {
            assert_eq!(target, "http://example.test/");
            assert_eq!(detail, "Request failed with code 500");
        }
        other => panic!("unexpected error {:?}", other),
    }
    assert!(e.message().contains("500"));
    assert_eq!(
        e.message(),
        "Error making request to 'http://example.test/'. Request failed with code 500"
    );
}

#[test]
fn status_codes_at_the_edges_of_success() {
    assert!(response_status("http://a", Ok(200)).is_ok());
    assert!(response_status("http://a", Ok(299)).is_ok());
    assert_eq!(
        response_status("http://a", Ok(199)).unwrap_err().message(),
        "Error making request to 'http://a'. Request failed with code 199"
    );
    assert_eq!(
        response_status("http://a", Ok(300)).unwrap_err().message(),
        "Error making request to 'http://a'. Request failed with code 300"
    );
    assert_eq!(
        response_status("http://a", Ok(404)).unwrap_err().message(),
        "Error making request to 'http://a'. Request failed with code 404"
    );
    assert_eq!(
        response_status("http://a", Ok(0)).unwrap_err().message(),
        "Error making request to 'http://a'. Request failed with code 0"
    );
    assert_eq!(
        response_status("http://a", Ok(65535)).unwrap_err().message(),
        "Error making request to 'http://a'. Request failed with code 65535"
    );
}

#[test]
fn transport_failure_is_a_request_failure() {
    let e = response_status("http://nowhere", Err("connection refused".to_string())).unwrap_err();
    assert!(matches!(e, ErrorKind::Request(ref t, ref d) if t == "http://nowhere" && d == "connection refused"));
}

#[test]
fn undecodable_body_is_a_decode_failure() {
    let e = decode_body(Err("invalid utf-8".to_string())).unwrap_err();
    assert_eq!(e.message(), "Error decoding HTML. invalid utf-8");
}

#[test]
fn file_text_is_returned_verbatim() {
    let text = import_file(Ok("line one\nline two\n\n".to_string())).unwrap();
    assert_eq!(text, "line one\nline two\n\n");
}
