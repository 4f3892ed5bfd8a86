use cervus::response::{transform_header_name, Response, FALLBACK_STATUS};

#[test]
fn header_name_is_canonically_cased() {
    assert_eq!(transform_header_name(b"content-type"), b"Content-Type".to_vec());
    assert_eq!(transform_header_name(b"x-powered-by"), b"X-Powered-By".to_vec());
    assert_eq!(transform_header_name(b"Content-Type"), b"Content-Type".to_vec());
    assert_eq!(transform_header_name(b"etag"), b"Etag".to_vec());
}

#[test]
fn header_name_edge_cases() {
    assert_eq!(transform_header_name(b""), Vec::<u8>::new());
    assert_eq!(transform_header_name(b"-"), b"-".to_vec());
    assert_eq!(transform_header_name(b"x--y"), b"X--Y".to_vec());
    assert_eq!(transform_header_name(b"123-abc"), b"123-Abc".to_vec());
}

#[test]
fn body_and_cookies_round_through_unchanged() {
    let resp = Response::from_raw(
        b"hello".to_vec(),
        Vec::new(),
        Vec::new(),
        vec![(b"session".to_vec(), b"abc123".to_vec())],
        200,
    );
    assert_eq!(resp.get_body(), b"hello".to_vec());
    let cookies = resp.get_cookies();
    assert_eq!(cookies.len(), 1);
    assert_eq!(cookies[0].0, b"session".to_vec());
    assert_eq!(cookies[0].1, b"abc123".to_vec());
}

#[test]
fn empty_file_path_means_no_file() {
    let none = Response::from_raw(Vec::new(), Vec::new(), Vec::new(), Vec::new(), 200);
    assert_eq!(none.get_file(), None);
    let some = Response::from_raw(
        Vec::new(),
        b"/static/index.html".to_vec(),
        Vec::new(),
        Vec::new(),
        200,
    );
    assert_eq!(some.get_file(), Some(b"/static/index.html".to_vec()));
}

#[test]
fn headers_come_back_cased_with_values_kept() {
    let resp = Response::from_raw(
        Vec::new(),
        Vec::new(),
        vec![
            (b"content-type".to_vec(), b"text/html".to_vec()),
            (b"x-frame-options".to_vec(), b"DENY".to_vec()),
        ],
        Vec::new(),
        200,
    );
    let headers = resp.get_headers();
    assert_eq!(headers.len(), 2);
    assert_eq!(headers[0].0, b"Content-Type".to_vec());
    assert_eq!(headers[0].1, b"text/html".to_vec());
    assert_eq!(headers[1].0, b"X-Frame-Options".to_vec());
    assert_eq!(headers[1].1, b"DENY".to_vec());
}

#[test]
fn invalid_status_codes_collapse_to_fallback() {
    let ok = Response::from_raw(Vec::new(), Vec::new(), Vec::new(), Vec::new(), 200);
    assert_eq!(ok.get_status(), 200);
    let teapot = Response::from_raw(Vec::new(), Vec::new(), Vec::new(), Vec::new(), 418);
    assert_eq!(teapot.get_status(), 418);
    let low = Response::from_raw(Vec::new(), Vec::new(), Vec::new(), Vec::new(), 99);
    assert_eq!(low.get_status(), FALLBACK_STATUS);
    let high = Response::from_raw(Vec::new(), Vec::new(), Vec::new(), Vec::new(), 600);
    assert_eq!(high.get_status(), FALLBACK_STATUS);
    let zero = Response::from_raw(Vec::new(), Vec::new(), Vec::new(), Vec::new(), 0);
    assert_eq!(zero.get_status(), FALLBACK_STATUS);
    let edge_low = Response::from_raw(Vec::new(), Vec::new(), Vec::new(), Vec::new(), 100);
    assert_eq!(edge_low.get_status(), 100);
    let edge_high = Response::from_raw(Vec::new(), Vec::new(), Vec::new(), Vec::new(), 599);
    assert_eq!(edge_high.get_status(), 599);
}
