use citum_core::xml::{parse_style_document, XmlChild};

#[test]
fn test_parse_style_document_reads_tree() {
    let text = r#"<?xml version="1.0"?><style xmlns="http://purl.org/net/xbiblio/csl" class="in-text"><info><title>APA</title></info><!-- c --></style>"#;
    let root = parse_style_document(text).unwrap();
    assert_eq!(root.name, "style");
    assert_eq!(root.attributes, vec![("class".to_string(), "in-text".to_string())]);
    assert_eq!(root.children.len(), 2);
    match &root.children[0] {
        XmlChild::Element(info) => {
            assert_eq!(info.name, "info");
            match &info.children[0] {
                XmlChild::Element(t) => {
                    assert_eq!(t.name, "title");
                    assert!(matches!(&t.children[0], XmlChild::Text(s) if s == "APA"));
                }
                _ => panic!("Expected title element"),
            }
        }
        _ => panic!("Expected info element"),
    }
    assert!(matches!(&root.children[1], XmlChild::Comment(s) if s == " c "));
}

#[test]
fn test_parse_style_document_rejects_malformed_text() {
    assert_eq!(
        parse_style_document("<style><info></style>").unwrap_err(),
        "the style is not a well-formed XML document"
    );
    assert!(parse_style_document("").is_err());
}
