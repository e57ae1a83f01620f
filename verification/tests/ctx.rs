use conduit_proxy::ctx::{Client, DstLabels, DstLabelsWatch, Request, Response, Server};
use conduit_proxy::transport::{IpAddr, SocketAddr};

fn addr(last: u8, port: u16) -> SocketAddr {
    SocketAddr { ip: IpAddr::V4(10, 0, 0, last), port }
}

fn server() -> Server {
    Server { proxy: 7, local: addr(1, 4140), remote: addr(2, 51000), orig_dst: None }
}

fn labels() -> DstLabels {
    DstLabels { labels: vec![("service".to_string(), "books".to_string())] }
}

fn client(dst_labels: Option<DstLabelsWatch>) -> Client {
    Client { proxy: 7, remote: addr(3, 8080), dst_labels }
}

#[test]
fn request_records_its_metadata() {
    let r = Request::new(
        "http://books/list".to_string(),
        "GET".to_string(),
        Some(labels()),
        &server(),
        client(None),
        42,
    );
    assert_eq!(r.id, 42);
    assert_eq!(r.uri, "http://books/list");
    assert_eq!(r.method, "GET");
    assert_eq!(r.server, server());
    assert_eq!(r.dst_labels, Some(labels()));
}

#[test]
fn request_dst_labels_come_from_the_client_watch() {
    let watch = DstLabelsWatch { current: Some(labels()) };
    let with = Request::new(
        "/".to_string(),
        "GET".to_string(),
        None,
        &server(),
        client(Some(watch.clone())),
        1,
    );
    assert_eq!(with.dst_labels(), Some(&watch));
    let without =
        Request::new("/".to_string(), "GET".to_string(), None, &server(), client(None), 2);
    assert_eq!(without.dst_labels(), None);
}

#[test]
fn response_records_status_against_its_request() {
    let rq = Request::new("/".to_string(), "PUT".to_string(), None, &server(), client(None), 9);
    let rs = Response::new(503, rq.clone());
    assert_eq!(rs.status, 503);
    assert_eq!(rs.request, rq);
}

#[test]
fn server_orig_dst_is_used_only_if_not_local() {
    let mut s = server();
    assert_eq!(s.orig_dst_if_not_local(), None);
    s.orig_dst = Some(s.local);
    assert_eq!(s.orig_dst_if_not_local(), None);
    let other = addr(9, 9999);
    s.orig_dst = Some(other);
    assert_eq!(s.orig_dst_if_not_local(), Some(other));
}
