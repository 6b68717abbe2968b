use pdcst::models::Subscription;
use pdcst::opml::{OpmlExporter, OpmlImporter, OutlineNode};

fn outline(text: &str, xml_url: Option<&str>, children: Vec<OutlineNode>) -> OutlineNode {
    OutlineNode {
        text: text.to_string(),
        kind: Some("rss".to_string()),
        xml_url: xml_url.map(String::from),
        html_url: None,
        title: None,
        outlines: children,
    }
}

fn create_test_subscription(title: &str, rss_url: &str) -> Subscription {
    let mut sub = Subscription::new(title.to_string(), rss_url.to_string());
    sub.website_url = Some(format!(
        "https://{}.com",
        title.to_lowercase().replace(' ', "")
    ));
    sub
}

#[test]
fn test_import_from_string() {
    let opml_content = r#"<?xml version="1.0" encoding="UTF-8"?>
<opml version="2.0">
  <body>
    <outline text="Test Podcast" type="rss" xmlUrl="https://example.com/feed.xml" htmlUrl="https://example.com"/>
  </body>
</opml>"#;
    let subs = OpmlImporter::import_from_string(opml_content).unwrap();
    assert_eq!(subs.len(), 1);
    assert_eq!(subs[0].title, "Test Podcast");
    assert_eq!(subs[0].rss_url, "https://example.com/feed.xml");
    assert_eq!(subs[0].website_url, Some("https://example.com".to_string()));
}

#[test]
fn test_import_nested_outlines() {
    let opml_content = r#"<?xml version="1.0" encoding="UTF-8"?>
<opml version="2.0">
  <body>
    <outline text="Technology">
      <outline text="Podcast 1" type="rss" xmlUrl="https://example.com/feed1.xml"/>
      <outline text="Podcast 2" type="rss" xmlUrl="https://example.com/feed2.xml"/>
    </outline>
    <outline text="Podcast 3" type="rss" xmlUrl="https://example.com/feed3.xml"/>
  </body>
</opml>"#;
    let subs = OpmlImporter::import_from_string(opml_content).unwrap();
    assert_eq!(subs.len(), 3);
    assert_eq!(subs[0].title, "Podcast 1");
    assert_eq!(subs[2].rss_url, "https://example.com/feed3.xml");
}

#[test]
fn import_rejects_a_document_that_is_not_opml() {
    let err = OpmlImporter::import_from_string("not xml").unwrap_err();
    assert_eq!(err, "Failed to parse OPML");
}

#[test]
fn nested_outline_trees_are_walked_depth_first() {
    let body = vec![
        outline(
            "Technology",
            None,
            vec![
                outline("Podcast 1", Some("https://example.com/feed1.xml"), vec![]),
                outline("Podcast 2", Some("https://example.com/feed2.xml"), vec![]),
            ],
        ),
        outline("Podcast 3", Some("https://example.com/feed3.xml"), vec![]),
    ];
    let subs = OpmlImporter::subscriptions_from_outlines(&body);
    assert_eq!(subs.len(), 3);
    assert_eq!(subs[0].title, "Podcast 1");
    assert_eq!(subs[2].rss_url, "https://example.com/feed3.xml");
}

#[test]
fn test_empty_xml_url_ignored() {
    let body = vec![
        outline("Valid Podcast", Some("https://example.com/feed.xml"), vec![]),
        outline("Category", None, vec![]),
        outline("Empty URL", Some(""), vec![]),
    ];
    let subs = OpmlImporter::subscriptions_from_outlines(&body);
    assert_eq!(subs.len(), 1);
    assert_eq!(subs[0].title, "Valid Podcast");
}

#[test]
fn import_keeps_the_website() {
    let mut o = outline("Test Podcast", Some("https://example.com/feed.xml"), vec![]);
    o.html_url = Some("https://example.com".to_string());
    let mut subs = Vec::new();
    OpmlImporter::extract_subscriptions(&o, &mut subs);
    assert_eq!(subs.len(), 1);
    assert_eq!(subs[0].website_url, Some("https://example.com".to_string()));
}

#[test]
fn test_round_trip() {
    let original_subs = vec![
        create_test_subscription("Podcast A", "https://example.com/a.xml"),
        create_test_subscription("Podcast B", "https://example.com/b.xml"),
        create_test_subscription("Podcast C", "https://example.com/c.xml"),
    ];
    let outlines = OpmlExporter::outlines_for(&original_subs);
    assert_eq!(outlines[0].kind.as_deref(), Some("rss"));
    assert_eq!(outlines[0].title.as_deref(), Some("Podcast A"));
    let imported_subs = OpmlImporter::subscriptions_from_outlines(&outlines);
    assert_eq!(imported_subs.len(), original_subs.len());
    for (original, imported) in original_subs.iter().zip(imported_subs.iter()) {
        assert_eq!(imported.title, original.title);
        assert_eq!(imported.rss_url, original.rss_url);
        assert_eq!(imported.website_url, original.website_url);
    }
}
