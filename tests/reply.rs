use hyper_bench::reply::{decimal_bytes, respond, Reply};
use hyper_bench::{LISTEN_IPV4, LISTEN_PORT};

#[test]
fn reply_is_hello_world() {
    let r = respond();
    assert_eq!(r.status, 200);
    assert_eq!(r.body, b"Hello World!".to_vec());
    assert_eq!(
        r.headers,
        vec![
            (b"Server".to_vec(), b"hyper".to_vec()),
            (b"Content-Length".to_vec(), b"12".to_vec()),
        ]
    );
}

#[test]
fn content_length_matches_body() {
    let r = respond();
    let length = String::from_utf8(r.headers[1].1.clone()).unwrap();
    assert_eq!(length.parse::<usize>().unwrap(), r.body.len());
}

#[test]
fn every_reply_is_the_same() {
    let replies: Vec<Reply> = (0..5).map(|_| respond()).collect();
    assert_eq!(replies.len(), 5);
    for r in &replies {
        assert_eq!(*r, replies[0]);
    }
}

#[test]
fn decimal_bytes_values() {
    assert_eq!(decimal_bytes(0), b"0".to_vec());
    assert_eq!(decimal_bytes(9), b"9".to_vec());
    assert_eq!(decimal_bytes(10), b"10".to_vec());
    assert_eq!(decimal_bytes(12), b"12".to_vec());
    assert_eq!(decimal_bytes(907), b"907".to_vec());
    assert_eq!(decimal_bytes(usize::MAX), usize::MAX.to_string().into_bytes());
}

#[test]
fn listens_on_loopback_8080() {
    assert_eq!(LISTEN_IPV4.to_be_bytes(), [127, 0, 0, 1]);
    assert_eq!(LISTEN_PORT, 8080);
}

#[test]
fn decimal_bytes_read_back() {
    for n in [0usize, 7, 12, 100, 65535, usize::MAX] {
        let text = String::from_utf8(decimal_bytes(n)).unwrap();
        assert_eq!(hyper_bench::cli::parse_decimal(&text), Some(n));
    }
}
