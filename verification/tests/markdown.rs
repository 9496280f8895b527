use markdown_builder::{
    Element, Header, Image, ImageBuilder, Link, LinkBuilder, List, ListBuilder, Markdown,
    Paragraph, ValidationError,
};
use tousize::ToUsize;

#[test]
fn test_empty_document_using_default() {
    let doc = Markdown::default();
    assert_eq!(doc.elements.len(), 0);
    assert_eq!(doc.footers.len(), 0);
}

#[test]
fn test_empty_document_using_new() {
    let doc = Markdown::new();
    assert_eq!(doc.elements.len(), 0);
    assert_eq!(doc.footers.len(), 0);
}

#[test]
fn test_create_document_with_empty_vecs() {
    assert_eq!(Markdown::with(vec![], vec![]).render(), "");
}

#[test]
fn test_create_document_with_paragraph() {
    assert_eq!(
        Markdown::with(
            vec![Element::Paragraph(Paragraph::from("Hello World"))],
            vec![]
        )
        .render(),
        "Hello World\n"
    );
}

#[test]
fn test_create_document_with_paragraph_and_footer() {
    assert_eq!(
        Markdown::with(
            vec![Element::Paragraph(Paragraph::from("Hello World"))],
            vec![Element::Text("[test]: https://example.com".to_string())]
        )
        .render(),
        "Hello World\n\n[test]: https://example.com\n"
    );
}

#[test]
fn test_empty_document_render() {
    assert_eq!(Markdown::new().render(), "");
}

#[test]
fn document_with_one_paragraph() {
    assert_eq!(
        Markdown::new().paragraph("Hello World").render(),
        "Hello World\n"
    );
}

#[test]
fn document_with_two_paragraphs() {
    assert_eq!(
        Markdown::new()
            .paragraph("Hello World")
            .paragraph("Two paragraphs")
            .render(),
        "Hello World\n\nTwo paragraphs\n"
    );
}

#[test]
fn document_with_paragraphs_a_and_b() {
    assert_eq!(Markdown::new().paragraph("A").paragraph("B").render(), "A\n\nB\n");
}

#[test]
fn test_document_with_header_shorthands() {
    assert_eq!(
        Markdown::new()
            .h1("My document")
            .paragraph("I like pizza.")
            .h2("Heading 2")
            .h3("Heading 3")
            .h4("Heading 4")
            .h5("Heading 5")
            .h6("Heading 6")
            .render(),
        "# My document\n\nI like pizza.\n\n## Heading 2\n\n### Heading 3\n\n#### Heading 4\n\n##### Heading 5\n\n###### Heading 6\n"
    )
}

#[test]
fn test_document_with_header() {
    assert_eq!(
        Markdown::new()
            .header("My document", 1u16.to_usize())
            .unwrap()
            .paragraph("I like pizza.")
            .header("Heading 2", 2usize.to_usize())
            .unwrap()
            .header("Heading 6", 6usize.to_usize())
            .unwrap()
            .render(),
        "# My document\n\nI like pizza.\n\n## Heading 2\n\n###### Heading 6\n"
    )
}

#[test]
#[should_panic]
fn test_document_header_upper_range_panic() {
    Markdown::new().header("Invalid header", 7usize).unwrap();
}

#[test]
#[should_panic]
fn test_document_header_bottom_range_panic() {
    Markdown::new().header("Invalid header", 0usize).unwrap();
}

#[test]
fn test_document_header_shorthand_matches_generic() {
    assert_eq!(
        Markdown::new().header("Header", 1usize).unwrap().render(),
        Markdown::new().h1("Header").render()
    );
    assert_eq!(
        Markdown::new().header("Header", 2usize).unwrap().render(),
        Markdown::new().h2("Header").render()
    );
    assert_eq!(
        Markdown::new().header("Header", 3usize).unwrap().render(),
        Markdown::new().h3("Header").render()
    );
    assert_eq!(
        Markdown::new().header("Header", 4usize).unwrap().render(),
        Markdown::new().h4("Header").render()
    );
    assert_eq!(
        Markdown::new().header("Header", 5usize).unwrap().render(),
        Markdown::new().h5("Header").render()
    );
    assert_eq!(
        Markdown::new().header("Header", 6usize).unwrap().render(),
        Markdown::new().h6("Header").render()
    );
}

#[test]
fn document_refuses_header_levels_outside_of_one_to_six() {
    let mut doc = Markdown::new();
    doc.paragraph("before");
    for level in [0usize, 7, 42, usize::MAX] {
        assert_eq!(
            doc.header("Invalid header", level).unwrap_err(),
            ValidationError::InvalidLevel
        );
        assert_eq!(doc.elements.len(), 1);
        assert_eq!(doc.footers.len(), 0);
    }
    assert_eq!(doc.render(), "before\n");
    doc.header("after", 6).unwrap();
    assert_eq!(doc.render(), "before\n\n###### after\n");
}

#[test]
fn document_with_image() {
    let mut doc = Markdown::new();
    doc.image(
        ImageBuilder::new()
            .url("https://example.com/picture.png")
            .text("A cute picture of a sandcat")
            .build()
            .unwrap(),
    );

    assert_eq!(
        doc.render(),
        "![A cute picture of a sandcat](https://example.com/picture.png)\n"
    );
}

#[test]
fn document_with_image_footer() {
    let mut doc = Markdown::new();
    doc.image(
        ImageBuilder::new()
            .url("https://example.com/picture.png")
            .text("A cute picture of a sandcat")
            .footer()
            .build()
            .unwrap(),
    );

    assert_eq!(doc.render(), "![A cute picture of a sandcat][A cute picture of a sandcat]\n\n[A cute picture of a sandcat]: https://example.com/picture.png\n");
}

#[test]
fn test_document_with_link() {
    let mut doc = Markdown::new();
    doc.link(
        LinkBuilder::new()
            .url("https://example.com/picture.png")
            .text("A cute picture of a sandcat")
            .build()
            .unwrap(),
    );

    assert_eq!(
        doc.render(),
        "[A cute picture of a sandcat](https://example.com/picture.png)\n"
    );
}

#[test]
fn test_document_with_link_footer() {
    let mut doc = Markdown::new();
    doc.link(
        LinkBuilder::new()
            .url("https://example.com/picture.png")
            .text("A cute picture of a sandcat")
            .footer()
            .build()
            .unwrap(),
    );

    assert_eq!(doc.render(), "[A cute picture of a sandcat][A cute picture of a sandcat]\n\n[A cute picture of a sandcat]: https://example.com/picture.png\n");
}

#[test]
fn test_document_with_list() {
    let mut doc = Markdown::new();

    doc.list(
        ListBuilder::new()
            .append(Element::Text("First do this".to_string()))
            .append(Element::Text("Then do this".to_string()))
            .ordered()
            .unwrap(),
    );

    assert_eq!(doc.render(), "1. First do this\n2. Then do this\n")
}

#[test]
fn test_document_add() {
    assert_eq!(
        Markdown::new()
            .add(Element::Paragraph(Paragraph::from("Hello world")))
            .render(),
        "Hello world\n"
    );
}

#[test]
fn document_adds_one_footer_for_each_flagged_element_in_order() {
    let mut doc = Markdown::new();
    doc.link(Link::from("https://a.example", "a", true, false));
    assert_eq!(doc.elements.len(), 1);
    assert_eq!(doc.footers.len(), 1);
    doc.paragraph("between");
    assert_eq!(doc.footers.len(), 1);
    doc.link(Link::from("https://b.example", "b", false, false));
    assert_eq!(doc.elements.len(), 3);
    assert_eq!(doc.footers.len(), 1);
    doc.image(Image::from("https://c.example/c.png", "c", true));
    assert_eq!(doc.elements.len(), 4);
    assert_eq!(doc.footers.len(), 2);
    doc.image(Image::from("https://d.example/d.png", "d", false));
    assert_eq!(doc.footers.len(), 2);
    doc.link(Link::from("https://a.example", "a", true, true));
    assert_eq!(doc.elements.len(), 6);
    assert_eq!(doc.footers.len(), 3);
    assert_eq!(doc.footers[0].render(), "[a]: https://a.example");
    assert_eq!(doc.footers[1].render(), "[c]: https://c.example/c.png");
    assert_eq!(doc.footers[2].render(), "[a]: https://a.example");
    assert_eq!(
        doc.render(),
        "[a][a]\n\nbetween\n\n[b](https://b.example)\n\n![c][c]\n\n![d](https://d.example/d.png)\n\n[a][a]\n[a]: https://a.example\n[c]: https://c.example/c.png\n[a]: https://a.example\n"
    );
}

#[test]
fn document_add_brings_no_footer_along() {
    let mut doc = Markdown::new();
    doc.add(Element::Link(Link::from("https://a.example", "a", true, false)));
    assert_eq!(doc.elements.len(), 1);
    assert_eq!(doc.footers.len(), 0);
    assert_eq!(doc.render(), "[a][a]\n");
}

#[test]
fn document_link_round_trip_through_the_footer() {
    let link = Link::from("https://example.com", "some text", true, false);
    let label = "[some text]";
    let mut doc = Markdown::new();
    doc.link(link);
    let out = doc.render();
    assert_eq!(
        out,
        "[some text][some text]\n\n[some text]: https://example.com\n"
    );
    let (body, footer) = out.split_once("\n\n").unwrap();
    assert_eq!(body, format!("{}{}", label, label));
    assert!(footer.starts_with(label));
    assert_eq!(&footer[label.len()..], ": https://example.com\n");
}

#[test]
fn document_with_footers_only() {
    assert_eq!(
        Markdown::with(
            vec![],
            vec![
                Element::Text("[one]: 1".to_string()),
                Element::Text("[two]: 2".to_string())
            ]
        )
        .render(),
        "\n[one]: 1\n[two]: 2\n"
    );
}

#[test]
fn document_separates_elements_by_one_line_feed() {
    assert_eq!(
        Markdown::with(
            vec![
                Element::Text("a".to_string()),
                Element::Text("b".to_string()),
                Element::Text(String::new()),
                Element::Text("c\n".to_string()),
            ],
            vec![]
        )
        .render(),
        "a\nb\n\nc\n"
    );
    assert_eq!(
        Markdown::new()
            .link(Link::from("u", "t", false, true))
            .link(Link::from("v", "s", false, true))
            .render(),
        "[t](u)\n[s](v)"
    );
}

#[test]
fn document_can_be_rendered_again_and_added_to() {
    let mut doc = Markdown::new();
    doc.h1("Title").paragraph("Text");
    let first = doc.render();
    assert_eq!(first, "# Title\n\nText\n");
    assert_eq!(doc.render(), first);
    doc.list(List::unordered_with(vec![Element::Header(
        Header::from("inside", 2).unwrap(),
    )]));
    assert_eq!(doc.render(), "# Title\n\nText\n\n- ## inside\n");
    assert_eq!(doc.elements.len(), 3);
}

#[test]
fn document_wraps_its_paragraphs() {
    let word = "1234567890";
    let text = [word; 9].join(" ");
    assert_eq!(
        Markdown::new().paragraph(text.as_str()).h2("next").render(),
        format!("{}\n{}\n\n## next\n", [word; 8].join(" "), word)
    );
}

#[test]
fn document_clone_is_a_deep_copy() {
    let mut doc = Markdown::new();
    doc.h1("Title")
        .link(Link::from("https://a.example", "a", true, false));
    let copy = doc.clone();
    doc.paragraph("later");
    assert_eq!(copy.elements.len(), 2);
    assert_eq!(copy.footers.len(), 1);
    assert_eq!(
        copy.render(),
        "# Title\n\n[a][a]\n\n[a]: https://a.example\n"
    );
    assert_eq!(
        doc.render(),
        "# Title\n\n[a][a]\n\nlater\n\n[a]: https://a.example\n"
    );
}
