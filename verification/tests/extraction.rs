use parse_mediawiki_dump::Error;
use parse_mediawiki_dump::Namespace;
use parse_mediawiki_dump::NamespaceId;
use parse_mediawiki_dump::Page;

const EXPORT_NS: &str = "http://www.mediawiki.org/xml/export-0.10/";

fn dump(body: &str) -> String {
    format!("<mediawiki xmlns=\"{}\">{}</mediawiki>", EXPORT_NS, body)
}

#[test]
fn scenario_two_pages_in_order() {
    let text = dump(
        "<page><ns>0</ns><title>alpha</title>\
         <revision><format>beta</format><model>gamma</model><text>delta</text></revision>\
         </page>\
         <page><title>epsilon</title><ns>42</ns><redirect title=\"zeta\"/>\
         <revision><text>eta</text></revision>\
         </page>",
    );
    let mut parser = parse_mediawiki_dump::parse(text.as_bytes());
    let first = match parser.next() {
        Some(Ok(page)) => page,
        _ => panic!("expected the first record"),
    };
    assert_eq!(first.namespace, NamespaceId(0));
    assert_eq!(first.title, "alpha");
    assert_eq!(first.format.as_deref(), Some("beta"));
    assert_eq!(first.model.as_deref(), Some("gamma"));
    assert_eq!(first.text, "delta");
    assert_eq!(first.redirect_title, None);
    let second = match parser.next() {
        Some(Ok(page)) => page,
        _ => panic!("expected the second record"),
    };
    assert_eq!(second.namespace, NamespaceId(42));
    assert_eq!(second.title, "epsilon");
    assert_eq!(second.format, None);
    assert_eq!(second.model, None);
    assert_eq!(second.text, "eta");
    assert_eq!(second.redirect_title.as_deref(), Some("zeta"));
    assert!(parser.next().is_none());
    assert!(parser.next().is_none());
}

#[test]
fn scenario_second_revision_is_not_supported() {
    let text = dump(
        "<page><ns>0</ns><title>alpha</title>\
         <revision><text>delta</text></revision>\
         <revision><text>eta</text></revision>\
         </page>\
         <page><ns>0</ns><title>beta</title><revision><text>x</text></revision></page>",
    );
    let mut parser = parse_mediawiki_dump::parse(text.as_bytes());
    let position = match parser.next() {
        Some(Err(Error::NotSupported(position))) => position,
        _ => panic!("expected the unsupported-feature error"),
    };
    // the error is reported at the second revision start tag
    let first = text.find("<revision>").unwrap();
    let second = text[first + 1..].find("<revision>").unwrap() + first + 1;
    assert_eq!(position, second + "<revision>".len());
    // extraction does not continue past that page
    assert!(parser.next().is_none());
}

#[test]
fn scenario_missing_ns_is_a_format_error() {
    let text = dump(
        "<page><title>alpha</title><revision><text>delta</text></revision></page>",
    );
    let mut parser = parse_mediawiki_dump::parse(text.as_bytes());
    let position = match parser.next() {
        Some(Err(Error::Format(position))) => position,
        _ => panic!("expected a format error"),
    };
    // the error is reported at the page's end tag
    let end_tag = text.find("</page>").unwrap();
    assert_eq!(position, end_tag + "</page>".len());
    assert!(parser.next().is_none());
}

#[test]
fn unconvertible_namespace_carries_the_exact_integer() {
    let text = dump(
        "<page><ns>0</ns><title>alpha</title><revision><text>a</text></revision></page>\
         <page><ns>16</ns><title>beta</title><revision><text>b</text></revision></page>",
    );
    let mut parser =
        parse_mediawiki_dump::parse_with_namespace::<_, Namespace>(text.as_bytes());
    assert!(matches!(
        parser.next(),
        Some(Ok(Page { namespace: Namespace::Main, .. }))
    ));
    match parser.next() {
        Some(Err(Error::Namespace { id, position })) => {
            assert_eq!(id, NamespaceId(16));
            assert!(position > 0);
        }
        _ => panic!("expected a namespace error"),
    }
    assert!(parser.next().is_none());
}

#[test]
fn record_count_matches_page_count_with_unknown_elements() {
    let text = dump(
        "<siteinfo><sitename>x</sitename><dbname>y</dbname></siteinfo>\
         <page><ns>0</ns><title>a</title><unknown><nested><deep/></nested></unknown>\
         <revision><contributor><username>u</username></contributor><text>1</text></revision>\
         </page>\
         <page><ns>1</ns><title>b</title><revision><text>2</text></revision></page>\
         <page><ns>2</ns><title>c</title><revision><text>3</text></revision></page>",
    );
    let mut parser = parse_mediawiki_dump::parse(text.as_bytes());
    let mut count = 0;
    let mut titles: Vec<String> = Vec::new();
    while let Some(result) = parser.next() {
        let page = result.expect("every record should be yielded");
        titles.push(page.title.clone());
        count += 1;
    }
    assert_eq!(count, 3);
    assert_eq!(titles, vec!["a".to_string(), "b".to_string(), "c".to_string()]);
}

#[test]
fn rerunning_extraction_yields_identical_records() {
    let text = dump(
        "<page><ns>0</ns><title>a</title>\
         <revision><model>m</model><text>one</text></revision></page>\
         <page><ns>4</ns><title>b</title><redirect title=\"c\"/>\
         <revision><text>two</text></revision></page>",
    );
    let collect = |input: &str| -> Vec<Page<NamespaceId>> {
        let mut parser = parse_mediawiki_dump::parse(input.as_bytes());
        let mut pages = Vec::new();
        while let Some(result) = parser.next() {
            pages.push(result.expect("well-formed input"));
        }
        pages
    };
    let first = collect(&text);
    let second = collect(&text);
    assert_eq!(first, second);
    assert_eq!(first.len(), 2);
}

#[test]
fn empty_document_yields_no_records() {
    let text = format!("<mediawiki xmlns=\"{}\"/>", EXPORT_NS);
    let mut parser = parse_mediawiki_dump::parse(text.as_bytes());
    assert!(parser.next().is_none());
}

#[test]
fn wrong_root_namespace_is_a_format_error() {
    let text = "<mediawiki xmlns=\"http://www.mediawiki.org/xml/export-0.11/\">\
                <page><ns>0</ns><title>a</title><revision><text>x</text></revision></page>\
                </mediawiki>";
    let mut parser = parse_mediawiki_dump::parse(text.as_bytes());
    assert!(matches!(parser.next(), Some(Err(Error::Format(_)))));
}

#[test]
fn unbound_root_is_a_format_error() {
    let text = "<mediawiki><page><ns>0</ns><title>a</title>\
                <revision><text>x</text></revision></page></mediawiki>";
    let mut parser = parse_mediawiki_dump::parse(text.as_bytes());
    assert!(matches!(parser.next(), Some(Err(Error::Format(_)))));
}

#[test]
fn elements_of_other_namespaces_are_skipped() {
    let text = format!(
        "<mediawiki xmlns=\"{}\" xmlns:o=\"urn:other\">\
         <o:page><o:ns>9</o:ns></o:page>\
         <page><ns>0</ns><title>a</title><o:title>wrong</o:title>\
         <revision><o:text>wrong</o:text><text>right</text></revision></page>\
         </mediawiki>",
        EXPORT_NS
    );
    let mut parser = parse_mediawiki_dump::parse(text.as_bytes());
    let page = parser.next().unwrap().expect("one record");
    assert_eq!(page.title, "a");
    assert_eq!(page.text, "right");
    assert!(parser.next().is_none());
}
