use parse_mediawiki_dump::Error;
use parse_mediawiki_dump::NamespaceId;

const EXPORT_NS: &str = "http://www.mediawiki.org/xml/export-0.10/";

fn dump(body: &str) -> String {
    format!("<mediawiki xmlns=\"{}\">{}</mediawiki>", EXPORT_NS, body)
}

fn one_page(page_body: &str) -> String {
    dump(&format!("<page>{}</page>", page_body))
}

#[test]
fn entities_in_text_and_attributes_are_resolved() {
    let text = one_page(
        "<ns>0</ns><title>a &amp; b</title><redirect title=\"c &lt;d&gt;\"/>\
         <revision><text>x&#65;y</text></revision>",
    );
    let mut parser = parse_mediawiki_dump::parse(text.as_bytes());
    let page = parser.next().unwrap().expect("one record");
    assert_eq!(page.title, "a & b");
    assert_eq!(page.redirect_title.as_deref(), Some("c <d>"));
    assert_eq!(page.text, "xAy");
}

#[test]
fn empty_scalar_elements_yield_empty_strings() {
    let text = one_page("<ns>0</ns><title></title><revision><text/></revision>");
    let mut parser = parse_mediawiki_dump::parse(text.as_bytes());
    let page = parser.next().unwrap().expect("one record");
    assert_eq!(page.title, "");
    assert_eq!(page.text, "");
}

#[test]
fn signed_and_extreme_namespace_ids_parse() {
    let text = dump(
        "<page><ns>-2</ns><title>a</title><revision><text>x</text></revision></page>\
         <page><ns>+7</ns><title>b</title><revision><text>y</text></revision></page>\
         <page><ns>2147483647</ns><title>c</title><revision><text>z</text></revision></page>\
         <page><ns>-2147483648</ns><title>d</title><revision><text>w</text></revision></page>",
    );
    let mut parser = parse_mediawiki_dump::parse(text.as_bytes());
    assert_eq!(parser.next().unwrap().unwrap().namespace, NamespaceId(-2));
    assert_eq!(parser.next().unwrap().unwrap().namespace, NamespaceId(7));
    assert_eq!(
        parser.next().unwrap().unwrap().namespace,
        NamespaceId(2147483647)
    );
    assert_eq!(
        parser.next().unwrap().unwrap().namespace,
        NamespaceId(-2147483648)
    );
    assert!(parser.next().is_none());
}

#[test]
fn non_integer_namespace_text_is_a_format_error() {
    let text = one_page("<ns>zero</ns><title>a</title><revision><text>x</text></revision>");
    let mut parser = parse_mediawiki_dump::parse(text.as_bytes());
    assert!(matches!(parser.next(), Some(Err(Error::Format(_)))));
}

#[test]
fn out_of_range_namespace_text_is_a_format_error() {
    let text = one_page(
        "<ns>99999999999999999999</ns><title>a</title><revision><text>x</text></revision>",
    );
    let mut parser = parse_mediawiki_dump::parse(text.as_bytes());
    assert!(matches!(parser.next(), Some(Err(Error::Format(_)))));
}

#[test]
fn empty_namespace_text_is_a_format_error() {
    let text = one_page("<ns/><title>a</title><revision><text>x</text></revision>");
    let mut parser = parse_mediawiki_dump::parse(text.as_bytes());
    assert!(matches!(parser.next(), Some(Err(Error::Format(_)))));
}

#[test]
fn duplicate_title_is_a_format_error() {
    let text = one_page(
        "<ns>0</ns><title>a</title><title>b</title><revision><text>x</text></revision>",
    );
    let mut parser = parse_mediawiki_dump::parse(text.as_bytes());
    assert!(matches!(parser.next(), Some(Err(Error::Format(_)))));
}

#[test]
fn duplicate_ns_is_a_format_error() {
    let text = one_page(
        "<ns>0</ns><ns>1</ns><title>a</title><revision><text>x</text></revision>",
    );
    let mut parser = parse_mediawiki_dump::parse(text.as_bytes());
    assert!(matches!(parser.next(), Some(Err(Error::Format(_)))));
}

#[test]
fn duplicate_text_in_one_revision_is_a_format_error() {
    let text = one_page(
        "<ns>0</ns><title>a</title><revision><text>x</text><text>y</text></revision>",
    );
    let mut parser = parse_mediawiki_dump::parse(text.as_bytes());
    assert!(matches!(parser.next(), Some(Err(Error::Format(_)))));
}

#[test]
fn revision_without_text_is_a_format_error() {
    let text = one_page("<ns>0</ns><title>a</title><revision><model>m</model></revision>");
    let mut parser = parse_mediawiki_dump::parse(text.as_bytes());
    assert!(matches!(parser.next(), Some(Err(Error::Format(_)))));
}

#[test]
fn redirect_without_title_attribute_is_a_format_error() {
    let text = one_page(
        "<ns>0</ns><title>a</title><redirect/><revision><text>x</text></revision>",
    );
    let mut parser = parse_mediawiki_dump::parse(text.as_bytes());
    assert!(matches!(parser.next(), Some(Err(Error::Format(_)))));
}

#[test]
fn scalar_field_with_child_elements_is_a_format_error() {
    let text = one_page(
        "<ns>0</ns><title><b>a</b></title><revision><text>x</text></revision>",
    );
    let mut parser = parse_mediawiki_dump::parse(text.as_bytes());
    assert!(matches!(parser.next(), Some(Err(Error::Format(_)))));
}

#[test]
fn truncated_document_is_an_error() {
    let text = format!(
        "<mediawiki xmlns=\"{}\"><page><ns>0</ns><title>a</title>",
        EXPORT_NS
    );
    let mut parser = parse_mediawiki_dump::parse(text.as_bytes());
    assert!(matches!(
        parser.next(),
        Some(Err(Error::Format(_))) | Some(Err(Error::XmlReader(_)))
    ));
    assert!(parser.next().is_none());
}

#[test]
fn malformed_markup_is_a_reader_error() {
    let text = "<mediawiki xmlns=\"http://www.mediawiki.org/xml/export-0.10/\">\
                <page></pGge></mediawiki>";
    let mut parser = parse_mediawiki_dump::parse(text.as_bytes());
    assert!(matches!(parser.next(), Some(Err(Error::XmlReader(_)))));
    assert!(parser.next().is_none());
}

#[test]
fn comments_and_instructions_are_ignored() {
    let text = format!(
        "<?xml version=\"1.0\"?><!-- export --><mediawiki xmlns=\"{}\">\
         <!-- before --><page><ns>0</ns><!-- inside --><title>a</title>\
         <revision><?hint?><text>x</text></revision></page></mediawiki>",
        EXPORT_NS
    );
    let mut parser = parse_mediawiki_dump::parse(text.as_bytes());
    let page = parser.next().unwrap().expect("one record");
    assert_eq!(page.title, "a");
    assert_eq!(page.text, "x");
    assert!(parser.next().is_none());
}
