use argocd_client::ArgoClient;

#[test]
fn new_keeps_url_and_token() {
    let c = ArgoClient::new("https://argocd.example.com:443", "s3cr3t").unwrap();
    assert_eq!(c.url(), "https://argocd.example.com:443");
    assert_eq!(c.authorization_value(), "Bearer s3cr3t");
}

#[test]
fn new_twice_still_succeeds() {
    assert!(ArgoClient::new("https://a", "t1").is_ok());
    assert!(ArgoClient::new("https://b", "t2").is_ok());
}

#[test]
fn request_headers_carry_token_and_marker() {
    let c = ArgoClient::new("https://argocd", "abc.def").unwrap();
    let h = c.request_headers();
    assert_eq!(
        h,
        vec![
            ("authorization".to_string(), "Bearer abc.def".to_string()),
            ("x-grpc-web".to_string(), "1".to_string()),
        ]
    );
    let empty = ArgoClient::new("https://argocd", "").unwrap();
    assert_eq!(empty.authorization_value(), "Bearer ");
}

#[test]
fn queries_name_the_application() {
    let q = ArgoClient::list_query();
    assert_eq!(q.name, None);
    assert!(q.projects.is_empty());
    let q = ArgoClient::get_query("guestbook");
    assert_eq!(q.name, Some("guestbook".to_string()));
    assert!(q.projects.is_empty());
}
