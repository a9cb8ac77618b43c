use webgrab::extract::{
    collect_dependents, discover_dependents, extract_dependents, normalize_reference, seed_base,
};

#[test]
fn root_relative_reference_is_rewritten() {
    let r = normalize_reference("https", "host.example", String::from("/img/a.png"));
    assert_eq!(r, "https://host.example/img/a.png");
}

#[test]
fn absolute_reference_is_untouched() {
    let r = normalize_reference("https", "host.example", String::from("https://other.example/b.png"));
    assert_eq!(r, "https://other.example/b.png");
}

#[test]
fn path_relative_reference_is_untouched() {
    let r = normalize_reference("https", "host.example", String::from("../x/y.css"));
    assert_eq!(r, "../x/y.css");
}

#[test]
fn empty_reference_is_untouched() {
    let r = normalize_reference("https", "host.example", String::new());
    assert_eq!(r, "");
}

#[test]
fn rel_me_link_is_excluded() {
    let html = r#"<html><head><link rel="me" href="https://example.com/x"></head></html>"#;
    let urls = extract_dependents("https", "host.example", html);
    assert!(urls.is_empty());
}

#[test]
fn stylesheet_link_is_included() {
    let html = r#"<html><head><link rel="stylesheet" href="/a.css"></head></html>"#;
    let urls = extract_dependents("https", "host.example", html);
    assert_eq!(urls, vec![String::from("https://host.example/a.css")]);
}

#[test]
fn link_without_rel_is_included() {
    let html = r#"<html><head><link href="/b.css"></head></html>"#;
    let urls = extract_dependents("https", "host.example", html);
    assert_eq!(urls, vec![String::from("https://host.example/b.css")]);
}

#[test]
fn link_without_href_is_skipped() {
    let html = r#"<html><head><link rel="stylesheet"></head></html>"#;
    let urls = extract_dependents("https", "host.example", html);
    assert!(urls.is_empty());
}

#[test]
fn links_precede_images_in_document_order() {
    let html = r#"<html><head>
        <link rel="stylesheet" href="/one.css">
        <link rel="stylesheet" href="/two.css">
        </head><body>
        <img src="/pic1.png">
        <img src="/pic2.png">
        </body></html>"#;
    let urls = extract_dependents("http", "h.test", html);
    assert_eq!(
        urls,
        vec![
            String::from("http://h.test/one.css"),
            String::from("http://h.test/two.css"),
            String::from("http://h.test/pic1.png"),
            String::from("http://h.test/pic2.png"),
        ]
    );
}

#[test]
fn duplicate_references_are_kept() {
    let html = r#"<html><body><img src="/same.png"><img src="/same.png"></body></html>"#;
    let urls = extract_dependents("http", "h.test", html);
    assert_eq!(
        urls,
        vec![String::from("http://h.test/same.png"), String::from("http://h.test/same.png")]
    );
}

#[test]
fn collect_handles_scanned_attributes() {
    let links = vec![
        (Some(String::from("me")), Some(String::from("/about"))),
        (Some(String::from("stylesheet")), Some(String::from("/s.css"))),
        (None, Some(String::from("http://a.test/x"))),
        (Some(String::from("icon")), None),
    ];
    let imgs = vec![Some(String::from("/i.png")), None];
    let urls = collect_dependents("https", "site.test", &links, &imgs);
    assert_eq!(
        urls,
        vec![
            String::from("https://site.test/s.css"),
            String::from("http://a.test/x"),
            String::from("https://site.test/i.png"),
        ]
    );
}

#[test]
fn seed_base_reads_scheme_and_host() {
    let base = seed_base("https://host.example/page").expect("base");
    assert_eq!(base.0, "https");
    assert_eq!(base.1, "host.example");
}

#[test]
fn seed_base_rejects_invalid_url() {
    assert!(seed_base("not a url").is_none());
}

#[test]
fn seed_base_rejects_url_without_host() {
    assert!(seed_base("mailto:someone@example.com").is_none());
}

#[test]
fn end_to_end_discovery_order() {
    let html = r#"<html><head><link rel="me" href="/about"><link rel="stylesheet" href="/s.css"></head><body><img src="http://cdn.other/x.png"></body></html>"#;
    let body: Vec<u8> = html.as_bytes().to_vec();
    let urls = discover_dependents("https://site.test/", &body).expect("seed URL must parse");
    assert_eq!(
        urls,
        vec![String::from("https://site.test/s.css"), String::from("http://cdn.other/x.png")]
    );
}

#[test]
fn discovery_of_invalid_seed_is_none() {
    let body: Vec<u8> = b"<html></html>".to_vec();
    assert!(discover_dependents("::not-a-url::", &body).is_none());
}

#[test]
fn discovery_is_repeatable() {
    let html = r#"<html><head><link href="/a.css"></head><body><img src="/b.png"></body></html>"#;
    let body: Vec<u8> = html.as_bytes().to_vec();
    let first = discover_dependents("http://site.test/p", &body).expect("parse");
    let second = discover_dependents("http://site.test/p", &body).expect("parse");
    assert_eq!(first, second);
}
