use sentiment_text::args::is_remote;
use sentiment_text::{import_file, Args, Cmd, ErrorKind, Origin, Type};

fn supply_test_html() -> &'static str {
    r#"
            <html>
                <body>
                    <div id="example">
                        <p>Hello, world!</p>
                    </div>
                </body>
            </html>
        "#
}

fn html_args(path: &str, selector: &str) -> Args {
    Args {
        cmd: Cmd::Analyse(Type::Html {
            path: path.to_string(),
            selector: selector.to_string(),
        }),
    }
}

#[test]
fn test_get_text_for_text_file() {
    let args = Args {
        cmd: Cmd::Analyse(Type::Text {
            path: "bar.txt".to_string(),
        }),
    };
    assert!(matches!(args.origin(), Origin::File(ref p) if p == "bar.txt"));
    let loaded = import_file(Ok("Hello world!".to_string()));
    let text = args.get_text(loaded).expect("Unable to get text");
    assert_eq!(text, "Hello world!")
}

#[test]
fn test_get_text_for_html_file() {
    let args = html_args("bar.html", "div#example p");
    assert!(matches!(args.origin(), Origin::File(ref p) if p == "bar.html"));
    let loaded = import_file(Ok(supply_test_html().to_string()));
    let text = args.get_text(loaded).expect("Unable to get text");
    assert_eq!(text, "Hello, world!")
}

#[test]
fn test_get_text_for_site() {
    let args = html_args("http://127.0.0.1:8080", "div#example p");
    assert!(matches!(args.origin(), Origin::Site(ref p) if p == "http://127.0.0.1:8080"));
    let text = args
        .get_text(Ok(supply_test_html().to_string()))
        .expect("Unable to get text");
    assert_eq!(text, "Hello, world!")
}

#[test]
fn html_without_text_at_selector_fails() {
    let args = html_args("bar.html", "div#example a");
    let e = args.get_text(Ok(supply_test_html().to_string())).unwrap_err();
    assert!(e.message().contains("No text available at selector"));
}

#[test]
fn load_failure_is_passed_on_before_extraction() {
    let args = html_args("missing.html", "div[");
    let loaded = import_file(Err("No such file or directory (os error 2)".to_string()));
    let e = args.get_text(loaded).unwrap_err();
    assert!(matches!(e, ErrorKind::ReadToString(ref d) if d == "No such file or directory (os error 2)"));
}

#[test]
fn text_file_is_never_parsed_as_html() {
    let args = Args {
        cmd: Cmd::Analyse(Type::Text {
            path: "http://example.test/page".to_string(),
        }),
    };
    assert!(matches!(args.origin(), Origin::File(ref p) if p == "http://example.test/page"));
    let text = args.get_text(Ok("<p>raw</p>".to_string())).unwrap();
    assert_eq!(text, "<p>raw</p>");
}

#[test]
fn remote_classification_is_by_prefix() {
    assert!(is_remote("http://example.test"));
    assert!(is_remote("https://example.test"));
    assert!(is_remote("http"));
    assert!(is_remote("httpfile.html"));
    assert!(!is_remote("htt"));
    assert!(!is_remote(""));
    assert!(!is_remote("HTTP://example.test"));
    assert!(!is_remote("./http.html"));
    assert!(matches!(html_args("httpfile.html", "p").origin(), Origin::Site(_)));
}
