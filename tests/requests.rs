use hyttpd::handler::{
    begin_request, dispatch, log_line, server_identity, Begin, ErrorPage, Route,
    ERR_BAD_REQUEST, ERR_INTERNAL_SERVER_ERROR, ERR_NOT_FOUND,
};
use hyttpd::listing::{render_directory, render_entry, ListingEntry};
use hyttpd::resolve::{path_is_absolute, request_dirindex, request_path, RequestTarget};

fn path(p: &str) -> RequestTarget {
    RequestTarget::AbsolutePath(p.to_string())
}

fn entry(name: &str, is_dir: bool) -> ListingEntry {
    ListingEntry { name: name.to_string(), is_dir }
}

#[test]
fn absolute_path_loses_leading_separator() {
    assert_eq!(request_path(&path("/a/b")), Some("a/b".to_string()));
    assert_eq!(request_path(&path("/index.html")), Some("index.html".to_string()));
}

#[test]
fn root_resolves_to_empty_path() {
    assert_eq!(request_path(&path("/")), Some(String::new()));
}

#[test]
fn only_one_separator_is_removed() {
    assert_eq!(request_path(&path("//etc")), Some("/etc".to_string()));
}

#[test]
fn traversal_segments_are_kept() {
    assert_eq!(request_path(&path("/../secret")), Some("../secret".to_string()));
    assert_eq!(request_path(&path("/a%20b")), Some("a%20b".to_string()));
}

#[test]
fn absolute_uri_path_loses_leading_separator() {
    let t = RequestTarget::AbsoluteUri("/x/y.txt".to_string());
    assert_eq!(request_path(&t), Some("x/y.txt".to_string()));
}

#[test]
fn other_forms_resolve_to_nothing() {
    let t = RequestTarget::Authority("example.com:443".to_string());
    assert_eq!(request_path(&t), None);
    assert_eq!(request_path(&RequestTarget::Star), None);
}

#[test]
fn other_forms_get_bad_request() {
    match begin_request(&RequestTarget::Star) {
        Begin::Reject(e) => {
            assert_eq!(e, ErrorPage::BadRequest);
            assert_eq!(e.status(), 400);
            assert_eq!(e.body(), ERR_BAD_REQUEST);
        }
        _ => panic!("expected a rejection"),
    }
    let t = RequestTarget::Authority("host:80".to_string());
    assert!(matches!(begin_request(&t), Begin::Reject(ErrorPage::BadRequest)));
}

#[test]
fn absolute_resolved_path_aborts() {
    assert!(matches!(begin_request(&path("//etc/passwd")), Begin::Abort));
}

#[test]
fn path_target_is_looked_up() {
    match begin_request(&path("/docs/")) {
        Begin::Lookup { resolved, effective } => {
            assert_eq!(resolved, "docs/");
            assert_eq!(effective, "docs/index.html");
        }
        _ => panic!("expected a lookup"),
    }
    match begin_request(&path("/a.txt")) {
        Begin::Lookup { resolved, effective } => {
            assert_eq!(resolved, "a.txt");
            assert_eq!(effective, "a.txt");
        }
        _ => panic!("expected a lookup"),
    }
}

#[test]
fn default_document_for_empty_final_component() {
    assert_eq!(request_dirindex(&String::new()), "index.html");
    assert_eq!(request_dirindex(&"a/".to_string()), "a/index.html");
    assert_eq!(request_dirindex(&"a/b/".to_string()), "a/b/index.html");
}

#[test]
fn named_file_is_looked_up_as_is() {
    assert_eq!(request_dirindex(&"a/b".to_string()), "a/b");
    assert_eq!(request_dirindex(&"index.html".to_string()), "index.html");
}

#[test]
fn absolute_paths_are_recognised() {
    assert!(path_is_absolute(&"/etc".to_string()));
    assert!(!path_is_absolute(&"etc/".to_string()));
    assert!(!path_is_absolute(&String::new()));
}

#[test]
fn site_root_is_listed_even_with_index_html() {
    assert_eq!(dispatch(&String::new(), true, false), Route::Listing);
    assert_eq!(dispatch(&String::new(), false, false), Route::Listing);
}

#[test]
fn directory_named_index_is_listed() {
    assert_eq!(dispatch(&"sub/".to_string(), true, true), Route::Listing);
}

#[test]
fn subdirectory_without_index_is_not_found() {
    assert_eq!(dispatch(&"sub/".to_string(), false, false), Route::NotFound);
}

#[test]
fn missing_path_is_not_found() {
    assert_eq!(dispatch(&"missing.txt".to_string(), false, false), Route::NotFound);
    assert_eq!(ErrorPage::NotFound.status(), 404);
    assert_eq!(
        ErrorPage::NotFound.body(),
        "<html><body><h1>404 Not Found</h1></body></html>"
    );
    assert_eq!(ErrorPage::NotFound.body(), ERR_NOT_FOUND);
}

#[test]
fn existing_file_is_opened() {
    assert_eq!(dispatch(&"a.txt".to_string(), true, false), Route::OpenFile);
}

#[test]
fn open_failure_page() {
    assert_eq!(ErrorPage::InternalServerError.status(), 500);
    assert_eq!(ErrorPage::InternalServerError.body(), ERR_INTERNAL_SERVER_ERROR);
    assert_eq!(
        ERR_INTERNAL_SERVER_ERROR,
        "<html><body><h1>500 Internal Server Error</h1></body></html>"
    );
}

#[test]
fn bad_request_page() {
    assert_eq!(ERR_BAD_REQUEST, "<html><body><h1>400 Bad Request</h1></body></html>");
}

#[test]
fn listing_links_file_and_subdirectory() {
    assert_eq!(
        render_entry(&entry("a.txt", false)),
        "<li><a href=\"a.txt\">a.txt</a></li>\n"
    );
    assert_eq!(render_entry(&entry("sub", true)), "<li><a href=\"sub/\">sub</a></li>\n");
}

#[test]
fn listing_page_of_directory() {
    let page = render_directory(&String::new(), &vec![entry("a.txt", false), entry("sub", true)]);
    assert_eq!(
        page,
        "<html><head><title>Index of </title></head><body><h1>Index of </h1><ul>\n\
         <li><a href=\"a.txt\">a.txt</a></li>\n\
         <li><a href=\"sub/\">sub</a></li>\n\
         </ul></body></html>"
    );
}

#[test]
fn listing_keeps_given_order_and_echoes_name() {
    let page = render_directory(&"<b>".to_string(), &vec![entry("z", false), entry("a", false)]);
    assert_eq!(
        page,
        "<html><head><title>Index of <b></title></head><body><h1>Index of <b></h1><ul>\n\
         <li><a href=\"z\">z</a></li>\n\
         <li><a href=\"a\">a</a></li>\n\
         </ul></body></html>"
    );
}

#[test]
fn empty_directory_listing() {
    assert_eq!(
        render_directory(&"d".to_string(), &Vec::new()),
        "<html><head><title>Index of d</title></head><body><h1>Index of d</h1><ul>\n\
         </ul></body></html>"
    );
}

#[test]
fn repeated_requests_answer_alike() {
    let entries = vec![entry("a.txt", false), entry("sub", true)];
    let first = render_directory(&String::new(), &entries);
    let second = render_directory(&String::new(), &entries);
    assert_eq!(first, second);
    assert_eq!(request_path(&path("/a/")), request_path(&path("/a/")));
    assert_eq!(dispatch(&"a".to_string(), true, false), dispatch(&"a".to_string(), true, false));
}

#[test]
fn server_header_value() {
    assert_eq!(server_identity("0.1.0"), "hyttpd/0.1.0");
}

#[test]
fn request_log_line() {
    assert_eq!(
        log_line("127.0.0.1", "2015-06-01 12:30:00", "HTTP/1.1", "GET", "/a.txt"),
        "127.0.0.1 [2015-06-01 12:30:00] HTTP/1.1:GET /a.txt"
    );
}
