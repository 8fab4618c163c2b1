use manga109api::book_from_nodes;
use manga109api::page_image_name;
use manga109api::parse_raw_xml_annotations_and_make_book;
use manga109api::parse_u32_digits;
use manga109api::parse_usize_digits;
use manga109api::u32_to_dec_string;
use manga109api::usize_to_dec_string;
use manga109api::Error;
use manga109api::XmlNode;

fn elem(tag: &str, attrs: &[(&str, &str)], text: Option<&str>, depth: usize) -> XmlNode {
    XmlNode {
        is_elem: true,
        tag: tag.to_string(),
        attrs: attrs.iter().map(|(k, v)| (k.to_string(), v.to_string())).collect(),
        text: text.map(|t| t.to_string()),
        depth,
    }
}

#[test]
fn test_parse_annotation() {
    let xml = r#"
        <annotation title="title">
            <characters>
                <character id="id1" name="name1"/>
                <character id="id2" name="name2"/>
            </characters>
            <pages>
                <page index="1" width="100" height="200">
                    <frame id="1" xmin="10" ymin="20" xmax="30" ymax="40"/>
                    <text id="1" xmin="10" ymin="20" xmax="30" ymax="40">value1</text>
                    <face id="1" xmin="10" ymin="20" xmax="30" ymax="40" character="character1"/>
                    <body id="1" xmin="10" ymin="20" xmax="30" ymax="40" character="character1"/>
                </page>
                <page index="2" width="200" height="300">
                    <frame id="2" xmin="20" ymin="30" xmax="40" ymax="50"/>
                    <text id="2" xmin="20" ymin="30" xmax="40" ymax="50">value2</text>
                    <face id="2" xmin="20" ymin="30" xmax="40" ymax="50" character="character2"/>
                    <body id="2" xmin="20" ymin="30" xmax="40" ymax="50" character="character2"/>
                </page>
            </pages>
        </annotation>
    "#;

    let book = parse_raw_xml_annotations_and_make_book(xml, "", "").unwrap();
    assert_eq!(book.title, ("title".to_string()));

    let characters = book.characters;
    assert_eq!(characters.len(), 2);
    assert_eq!(characters[0].id, ("id1".to_string()));
    assert_eq!(characters[0].name, ("name1".to_string()));
    assert_eq!(characters[1].id, ("id2".to_string()));
    assert_eq!(characters[1].name, ("name2".to_string()));

    let pages = book.pages;
    assert_eq!(pages.len(), 2);

    let page1 = &pages[0];
    assert_eq!(page1.index, 1);
    assert_eq!(page1.width, 100);
    assert_eq!(page1.height, 200);

    let frames = page1.frames.clone();
    assert_eq!(frames.len(), 1);
    assert_eq!(frames[0].id, "1".to_string());
    assert_eq!(frames[0].xmin, 10);
    assert_eq!(frames[0].ymin, 20);
    assert_eq!(frames[0].xmax, 30);
    assert_eq!(frames[0].ymax, 40);

    let texts = page1.texts.clone();
    assert_eq!(texts.len(), 1);
    assert_eq!(texts[0].id, "1".to_string());
    assert_eq!(texts[0].xmin, 10);
    assert_eq!(texts[0].ymin, 20);
    assert_eq!(texts[0].xmax, 30);
    assert_eq!(texts[0].ymax, 40);
    assert_eq!(texts[0].value, "value1".to_string());

    let faces = page1.faces.clone();
    assert_eq!(faces.len(), 1);
    assert_eq!(faces[0].id, "1".to_string());
    assert_eq!(faces[0].xmin, 10);
    assert_eq!(faces[0].ymin, 20);
    assert_eq!(faces[0].xmax, 30);
    assert_eq!(faces[0].ymax, 40);
    assert_eq!(faces[0].character, "character1".to_string());

    let bodies = page1.bodies.clone();
    assert_eq!(bodies.len(), 1);
    assert_eq!(bodies[0].id, "1".to_string());
    assert_eq!(bodies[0].xmin, 10);
    assert_eq!(bodies[0].ymin, 20);
    assert_eq!(bodies[0].xmax, 30);
    assert_eq!(bodies[0].ymax, 40);
    assert_eq!(bodies[0].character, "character1".to_string());

    let page2 = &pages[1];
    assert_eq!(page2.index, 2);
    assert_eq!(page2.width, 200);
    assert_eq!(page2.height, 300);

    let frames = page2.frames.clone();
    assert_eq!(frames.len(), 1);
    assert_eq!(frames[0].id, "2".to_string());
    assert_eq!(frames[0].xmin, 20);
    assert_eq!(frames[0].ymin, 30);

    let texts = page2.texts.clone();
    assert_eq!(texts.len(), 1);
    assert_eq!(texts[0].id, "2".to_string());
    assert_eq!(texts[0].xmin, 20);
    assert_eq!(texts[0].ymin, 30);
    assert_eq!(texts[0].xmax, 40);
    assert_eq!(texts[0].ymax, 50);
    assert_eq!(texts[0].value, "value2".to_string());

    let faces = page2.faces.clone();
    assert_eq!(faces.len(), 1);
    assert_eq!(faces[0].id, "2".to_string());
    assert_eq!(faces[0].xmin, 20);
    assert_eq!(faces[0].ymin, 30);
    assert_eq!(faces[0].xmax, 40);
    assert_eq!(faces[0].ymax, 50);
    assert_eq!(faces[0].character, "character2".to_string());

    let bodies = page2.bodies.clone();
    assert_eq!(bodies.len(), 1);
    assert_eq!(bodies[0].id, "2".to_string());
    assert_eq!(bodies[0].xmin, 20);
    assert_eq!(bodies[0].ymin, 30);
    assert_eq!(bodies[0].xmax, 40);
    assert_eq!(bodies[0].ymax, 50);
    assert_eq!(bodies[0].character, "character2".to_string());
}

#[test]
fn malformed_xml_is_an_xml_error() {
    let r = parse_raw_xml_annotations_and_make_book("<annotation title='t'", "", "");
    assert!(matches!(r, Err(Error::Xml { .. })));
}

#[test]
fn missing_title_is_a_schema_error() {
    let r = parse_raw_xml_annotations_and_make_book("<annotation/>", "", "");
    match r {
        Err(Error::Schema { title, tag, attr }) => {
            assert_eq!(title, "");
            assert_eq!(tag, "annotation");
            assert_eq!(attr, "title");
        }
        other => panic!("expected a schema error, got {:?}", other),
    }
}

#[test]
fn missing_attribute_names_element_and_attribute() {
    let xml = r#"<annotation title="t"><page index="1" width="10"></page></annotation>"#;
    let r = parse_raw_xml_annotations_and_make_book(xml, "", "");
    match r {
        Err(Error::Schema { title, tag, attr }) => {
            assert_eq!(title, "t");
            assert_eq!(tag, "page");
            assert_eq!(attr, "height");
        }
        other => panic!("expected a schema error, got {:?}", other),
    }
}

#[test]
fn non_numeric_attribute_is_a_schema_error() {
    let xml = r#"<annotation title="t"><page index="one" width="10" height="10"/></annotation>"#;
    let r = parse_raw_xml_annotations_and_make_book(xml, "", "");
    assert!(matches!(r, Err(Error::Schema { .. })));
}

#[test]
fn text_without_content_is_a_schema_error() {
    let xml = r#"<annotation title="t"><page index="1" width="10" height="10">
        <text id="a" xmin="1" ymin="1" xmax="2" ymax="2"></text>
    </page></annotation>"#;
    let r = parse_raw_xml_annotations_and_make_book(xml, "", "");
    match r {
        Err(Error::Schema { title, tag, attr }) => {
            assert_eq!(title, "t");
            assert_eq!(tag, "text");
            assert_eq!(attr, "#text");
        }
        other => panic!("expected a schema error, got {:?}", other),
    }
}

#[test]
fn degenerate_rectangle_is_an_integrity_error() {
    let xml = r#"<annotation title="t"><page index="1" width="10" height="10">
        <frame id="f7" xmin="30" ymin="20" xmax="30" ymax="40"/>
    </page></annotation>"#;
    let r = parse_raw_xml_annotations_and_make_book(xml, "", "");
    match r {
        Err(Error::Integrity { title, tag, id }) => {
            assert_eq!(title, "t");
            assert_eq!(tag, "frame");
            assert_eq!(id, "f7");
        }
        other => panic!("expected an integrity error, got {:?}", other),
    }
}

#[test]
fn entities_are_found_at_any_nesting_depth() {
    let xml = r#"<annotation title="t">
        <wrapper><deeper><character id="c1" name="n1"/></deeper></wrapper>
        <pages><group><page index="3" width="10" height="10">
            <inner><frame id="f1" xmin="1" ymin="2" xmax="3" ymax="4"/></inner>
        </page></group></pages>
    </annotation>"#;
    let book = parse_raw_xml_annotations_and_make_book(xml, "", "").unwrap();
    assert_eq!(book.characters.len(), 1);
    assert_eq!(book.characters[0].id, "c1");
    assert_eq!(book.pages.len(), 1);
    assert_eq!(book.pages[0].index, 3);
    assert_eq!(book.pages[0].frames.len(), 1);
    assert_eq!(book.pages[0].frames[0].id, "f1");
}

#[test]
fn entities_outside_a_page_belong_to_no_page() {
    let xml = r#"<annotation title="t">
        <page index="1" width="10" height="10"/>
        <frame id="stray" xmin="1" ymin="1" xmax="2" ymax="2"/>
    </annotation>"#;
    let book = parse_raw_xml_annotations_and_make_book(xml, "", "").unwrap();
    assert_eq!(book.pages.len(), 1);
    assert_eq!(book.pages[0].frames.len(), 0);
}

#[test]
fn recorded_paths_are_kept_verbatim() {
    let xml = r#"<annotation title="t"><page index="1" width="10" height="10"/></annotation>"#;
    let book =
        parse_raw_xml_annotations_and_make_book(xml, "/r/annotations/t.xml", "/r/images/t").unwrap();
    assert_eq!(book.annotation_filepaths, "/r/annotations/t.xml");
    assert_eq!(book.image_root_dir, "/r/images/t");
    assert_eq!(book.get_annotation_file_paths(), "/r/annotations/t.xml");
    assert_eq!(book.get_image_dir_paths(), "/r/images/t");
}

#[test]
fn digit_parsing_is_exact() {
    assert_eq!(parse_u32_digits("0"), Some(0));
    assert_eq!(parse_u32_digits("010"), Some(10));
    assert_eq!(parse_u32_digits("4294967295"), Some(u32::MAX));
    assert_eq!(parse_u32_digits("4294967296"), None);
    assert_eq!(parse_u32_digits(""), None);
    assert_eq!(parse_u32_digits("+3"), None);
    assert_eq!(parse_u32_digits("12a"), None);
    assert_eq!(parse_usize_digits("12345"), Some(12345));
    assert_eq!(parse_usize_digits("-1"), None);
}

#[test]
fn digit_printing_is_exact() {
    assert_eq!(u32_to_dec_string(0), "0");
    assert_eq!(u32_to_dec_string(7), "7");
    assert_eq!(u32_to_dec_string(1234), "1234");
    assert_eq!(u32_to_dec_string(u32::MAX), "4294967295");
    assert_eq!(usize_to_dec_string(98765), "98765");
}

#[test]
fn book_from_nodes_builds_from_a_node_list() {
    let nodes = vec![
        elem("annotation", &[("title", "t")], None, 1),
        elem("character", &[("id", "c1"), ("name", "n1")], None, 2),
        elem("page", &[("index", "4"), ("width", "20"), ("height", "30")], None, 2),
        elem("frame", &[("id", "f1"), ("xmin", "1"), ("ymin", "2"), ("xmax", "3"), ("ymax", "4")], None, 3),
        elem("page", &[("index", "5"), ("width", "21"), ("height", "31")], None, 2),
    ];
    let book = book_from_nodes(&nodes, "a.xml", "imgs").unwrap();
    assert_eq!(book.title, "t");
    assert_eq!(book.characters.len(), 1);
    assert_eq!(book.pages.len(), 2);
    assert_eq!(book.pages[0].index, 4);
    assert_eq!(book.pages[0].frames.len(), 1);
    assert_eq!(book.pages[0].frames[0].ymax, 4);
    assert_eq!(book.pages[1].index, 5);
    assert_eq!(book.pages[1].frames.len(), 0);
    assert_eq!(book.annotation_filepaths, "a.xml");
    assert_eq!(book.image_root_dir, "imgs");
}

#[test]
fn page_image_names_are_zero_padded() {
    assert_eq!(page_image_name(0), "000.jpg");
    assert_eq!(page_image_name(9), "009.jpg");
    assert_eq!(page_image_name(42), "042.jpg");
    assert_eq!(page_image_name(123), "123.jpg");
    assert_eq!(page_image_name(1234), "1234.jpg");
}
