use parse_mediawiki_dump::FromNamespaceId;
use parse_mediawiki_dump::Namespace;
use parse_mediawiki_dump::NamespaceId;
use std::io::{BufReader, Cursor};

const DUMP: &str = r#"
<mediawiki xmlns="http://www.mediawiki.org/xml/export-0.10/">,
    <page>
        <ns>0</ns>
        <title>alpha</title>
        <revision>
            <format>beta</format>
            <model>gamma</model>
            <text>delta</text>
        </revision>
    </page>
    <page>
        <title>epsilon</title>
        <ns>1</ns>
        <redirect title="zeta" />
        <revision>
            <text>eta</text>
        </revision>
    </page>
</mediawiki>"#;

#[test]
fn main() {
    let mut parser = parse_mediawiki_dump::parse(BufReader::new(Cursor::new(DUMP)));
    assert!(match parser.next() {
        Some(Ok(parse_mediawiki_dump::Page {
            format: Some(format),
            model: Some(model),
            namespace,
            redirect_title,
            text,
            title,
        })) =>
            format == "beta"
                && model == "gamma"
                && redirect_title == None
                && text == "delta"
                && title == "alpha"
                && namespace == NamespaceId::from(0),
        _ => false,
    });
    assert!(match parser.next() {
        Some(Ok(parse_mediawiki_dump::Page {
            format: None,
            model: None,
            namespace,
            redirect_title,
            text,
            title,
        })) =>
            text == "eta"
                && title == "epsilon"
                && namespace == NamespaceId::from(1)
                && redirect_title == Some("zeta".to_string()),
        _ => false,
    });
    assert!(parser.next().is_none());

    let mut parser = parse_mediawiki_dump::parse_with_namespace(BufReader::new(Cursor::new(DUMP)));
    assert!(match parser.next() {
        Some(Ok(parse_mediawiki_dump::Page {
            format: Some(format),
            model: Some(model),
            namespace: Namespace::Main,
            redirect_title,
            text,
            title,
        })) =>
            format == "beta"
                && model == "gamma"
                && redirect_title == None
                && text == "delta"
                && title == "alpha",
        _ => false,
    });
    assert!(match parser.next() {
        Some(Ok(parse_mediawiki_dump::Page {
            format: None,
            model: None,
            namespace: Namespace::Talk,
            redirect_title,
            text,
            title,
        })) =>
            text == "eta"
                && title == "epsilon"
                && redirect_title == Some("zeta".to_string()),
        _ => false,
    });
    assert!(parser.next().is_none());
}

#[test]
fn namespace_id_wraps_its_integer() {
    assert_eq!(NamespaceId::new(7).into_inner(), 7);
    assert_eq!(NamespaceId::new(-2).into_inner(), -2);
    assert_eq!(i32::from(NamespaceId::from(13)), 13);
    assert_eq!(NamespaceId::from(5), NamespaceId(5));
}

#[test]
fn built_in_namespaces_convert() {
    assert_eq!(
        Namespace::from_namespace_id(NamespaceId(0)),
        Some(Namespace::Main)
    );
    assert_eq!(
        Namespace::from_namespace_id(NamespaceId(11)),
        Some(Namespace::TemplateTalk)
    );
    assert_eq!(
        Namespace::from_namespace_id(NamespaceId(-2)),
        Some(Namespace::Media)
    );
    assert_eq!(Namespace::from_namespace_id(NamespaceId(16)), None);
    assert_eq!(Namespace::from_namespace_id(NamespaceId(-3)), None);
}

#[test]
fn match_namespace_recognizes_the_export_uri() {
    let uri: &[u8] = b"http://www.mediawiki.org/xml/export-0.10/";
    assert!(parse_mediawiki_dump::match_namespace(Some(uri)));
    assert!(!parse_mediawiki_dump::match_namespace(None));
    assert!(!parse_mediawiki_dump::match_namespace(Some(
        b"http://www.mediawiki.org/xml/export-0.11/"
    )));
    assert!(!parse_mediawiki_dump::match_namespace(Some(b"")));
}
