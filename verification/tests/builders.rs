use markdown_builder::{
    Checkbox, Checkmark, Element, Image, ImageBuilder, Link, LinkBuilder, List, ListBuilder,
    ListType, Paragraph, ValidationError,
};

#[test]
fn test_image_builder_url_footer() {
    let image = Image::builder()
        .url("https://example.com/picture.png")
        .text("A cute picture of a sandcat")
        .footer()
        .build()
        .unwrap();

    assert_eq!(image.footer, true);
    assert_eq!(image.url, "https://example.com/picture.png");
    assert_eq!(image.text, "A cute picture of a sandcat");
}

#[test]
fn test_image_builder_url_set_footer() {
    let footer = Image::builder()
        .url("https://example.com/picture.png")
        .text("A cute picture of a sandcat")
        .set_footer(true)
        .build()
        .unwrap();

    assert_eq!(footer.footer, true);
    assert_eq!(footer.url, "https://example.com/picture.png");
    assert_eq!(footer.text, "A cute picture of a sandcat");

    let no_footer = Image::builder()
        .url("https://example.com/picture.png")
        .text("A cute picture of a sandcat")
        .set_footer(false)
        .build()
        .unwrap();

    assert_eq!(no_footer.footer, false);
    assert_eq!(no_footer.url, "https://example.com/picture.png");
    assert_eq!(no_footer.text, "A cute picture of a sandcat");
}

#[test]
#[should_panic]
fn test_image_builder_no_url_panic() {
    Image::builder().text("Hello world").build().unwrap();
}

#[test]
#[should_panic]
fn test_image_builder_footer_no_alt_text_panic() {
    Image::builder()
        .url("https://example.com/picture.png")
        .footer()
        .build()
        .unwrap();
}

#[test]
fn image_builder_without_url_is_refused() {
    assert_eq!(
        ImageBuilder::new().build().unwrap_err(),
        ValidationError::MissingUrl
    );
    assert_eq!(
        ImageBuilder::new()
            .text("Hello world")
            .footer()
            .build()
            .unwrap_err(),
        ValidationError::MissingUrl
    );
    assert_eq!(
        ImageBuilder::default().text("x").build().unwrap_err(),
        ValidationError::MissingUrl
    );
}

#[test]
fn image_builder_footer_without_text_is_refused() {
    assert_eq!(
        ImageBuilder::new()
            .url("https://example.com/picture.png")
            .footer()
            .build()
            .unwrap_err(),
        ValidationError::MissingFooterText
    );
    assert_eq!(
        ImageBuilder::new()
            .set_footer(true)
            .url("https://example.com/picture.png")
            .build()
            .unwrap_err(),
        ValidationError::MissingFooterText
    );
}

#[test]
fn image_builder_with_url_only() {
    let image = ImageBuilder::new()
        .url("https://example.com/picture.png")
        .build()
        .unwrap();
    assert_eq!(image.footer, false);
    assert_eq!(image.text, "");
    assert_eq!(image.url, "https://example.com/picture.png");
    assert_eq!(image.render(), "![](https://example.com/picture.png)\n");
}

#[test]
fn image_builder_last_call_wins() {
    let image = ImageBuilder::new()
        .url("first")
        .url("second")
        .text("one")
        .text("two")
        .footer()
        .set_footer(false)
        .build()
        .unwrap();
    assert_eq!(image.url, "second");
    assert_eq!(image.text, "two");
    assert_eq!(image.footer, false);
}

#[test]
fn test_link_builder_text_url() {
    let link = Link::builder()
        .url("https://www.rust-lang.org/")
        .text("A cool website")
        .build()
        .unwrap();

    assert_eq!(link.url, "https://www.rust-lang.org/");
    assert_eq!(link.text, "A cool website");
    assert_eq!(link.footer, false);
    assert_eq!(link.inlined, false);
}

#[test]
fn test_link_builder_text_url_footer() {
    let link = Link::builder()
        .url("https://www.rust-lang.org/")
        .text("A cool website")
        .footer()
        .build()
        .unwrap();

    assert_eq!(link.url, "https://www.rust-lang.org/");
    assert_eq!(link.text, "A cool website");
    assert_eq!(link.footer, true);
    assert_eq!(link.inlined, false);
}

#[test]
fn test_link_builder_text_url_set_footer() {
    let link = Link::builder()
        .url("https://www.rust-lang.org/")
        .text("A cool website")
        .set_footer(true)
        .build()
        .unwrap();

    assert_eq!(link.url, "https://www.rust-lang.org/");
    assert_eq!(link.text, "A cool website");
    assert_eq!(link.footer, true);
    assert_eq!(link.inlined, false);

    let link_footerless = Link::builder()
        .url("https://www.rust-lang.org/")
        .text("A cool website")
        .set_footer(false)
        .build()
        .unwrap();

    assert_eq!(link_footerless.url, "https://www.rust-lang.org/");
    assert_eq!(link_footerless.text, "A cool website");
    assert_eq!(link_footerless.footer, false);
    assert_eq!(link_footerless.inlined, false);
}

#[test]
fn test_link_builder_text_url_inlined() {
    let link = Link::builder()
        .url("https://www.rust-lang.org/")
        .text("A cool website")
        .inlined()
        .build()
        .unwrap();

    assert_eq!(link.url, "https://www.rust-lang.org/");
    assert_eq!(link.text, "A cool website");
    assert_eq!(link.footer, false);
    assert_eq!(link.inlined, true);
}

#[test]
fn test_link_builder_text_url_set_inlined() {
    let link_inlined = Link::builder()
        .url("https://www.rust-lang.org/")
        .text("A cool website")
        .set_footer(true)
        .set_inlined(true)
        .build()
        .unwrap();

    assert_eq!(link_inlined.url, "https://www.rust-lang.org/");
    assert_eq!(link_inlined.text, "A cool website");
    assert_eq!(link_inlined.footer, true);
    assert_eq!(link_inlined.inlined, true);

    let link = Link::builder()
        .url("https://www.rust-lang.org/")
        .text("A cool website")
        .set_footer(false)
        .set_inlined(false)
        .build()
        .unwrap();

    assert_eq!(link.url, "https://www.rust-lang.org/");
    assert_eq!(link.text, "A cool website");
    assert_eq!(link.footer, false);
    assert_eq!(link.inlined, false);
}

#[test]
#[should_panic]
fn test_link_builder_no_url_panic() {
    Link::builder()
        .url("https://www.rust-lang.org/")
        .build()
        .unwrap();
}

#[test]
#[should_panic]
fn test_link_builder_no_text_panic() {
    Link::builder().text("A cool website").build().unwrap();
}

#[test]
fn link_builder_says_what_is_missing() {
    assert_eq!(
        LinkBuilder::new().build().unwrap_err(),
        ValidationError::MissingUrl
    );
    assert_eq!(
        LinkBuilder::new()
            .text("A cool website")
            .build()
            .unwrap_err(),
        ValidationError::MissingUrl
    );
    assert_eq!(
        LinkBuilder::new()
            .url("https://www.rust-lang.org/")
            .build()
            .unwrap_err(),
        ValidationError::MissingText
    );
    assert_eq!(
        LinkBuilder::default()
            .url("https://www.rust-lang.org/")
            .footer()
            .inlined()
            .build()
            .unwrap_err(),
        ValidationError::MissingText
    );
}

#[test]
fn test_ordered_paragraphs() {
    let list = List::builder()
        .append(Element::Paragraph(Paragraph::from("Hello World")))
        .append(Element::Paragraph(Paragraph::from("John doe")))
        .ordered()
        .unwrap();

    assert_eq!(list.typ, ListType::Ordered);
    assert_eq!(list.items.len(), 2);
    assert_eq!(list.render(), "1. Hello World\n2. John doe\n");
}

#[test]
fn test_unordered_text() {
    let list = List::builder()
        .append(Element::Text("Hello World".to_string()))
        .append(Element::Text("John doe".to_string()))
        .unordered()
        .unwrap();

    assert_eq!(list.typ, ListType::Unordered);
    assert_eq!(list.items.len(), 2);
    assert_eq!(list.render(), "- Hello World\n- John doe\n");
}

#[test]
fn test_unordered_checkboxes() {
    let list = List::builder()
        .checkbox("Eat spaghetti", true)
        .checkbox("Eat pizza", false)
        .checkbox("Eat kebab", true)
        .unordered()
        .unwrap();

    assert_eq!(list.typ, ListType::Unordered);
    assert_eq!(list.items.len(), 3);
    assert_eq!(
        list.render(),
        "- [x] Eat spaghetti\n- [ ] Eat pizza\n- [x] Eat kebab\n"
    );
}

#[test]
#[should_panic]
fn test_list_builder_unordered_no_elements_panic() {
    List::builder().unordered().unwrap();
}

#[test]
#[should_panic]
fn test_list_builder_ordered_no_elements_panic() {
    List::builder().ordered().unwrap();
}

#[test]
#[should_panic]
fn test_list_builder_ordered_checkbox_panic() {
    List::builder()
        .checkbox("Hello world", false)
        .checkbox("Checked", true)
        .ordered()
        .unwrap();
}

#[test]
fn list_builder_refuses_empty_lists() {
    assert_eq!(
        ListBuilder::new().ordered().unwrap_err(),
        ValidationError::EmptyList
    );
    assert_eq!(
        ListBuilder::new().unordered().unwrap_err(),
        ValidationError::EmptyList
    );
    assert_eq!(
        ListBuilder::default().unordered().unwrap_err(),
        ValidationError::EmptyList
    );
}

#[test]
fn list_builder_refuses_check_items_in_ordered_lists() {
    assert_eq!(
        ListBuilder::new()
            .checkbox("Hello world", false)
            .ordered()
            .unwrap_err(),
        ValidationError::MixedContentKind
    );
    assert_eq!(
        ListBuilder::new()
            .append(Element::Text("first".to_string()))
            .checkbox("second", true)
            .append(Element::Text("third".to_string()))
            .ordered()
            .unwrap_err(),
        ValidationError::MixedContentKind
    );
    assert_eq!(
        ListBuilder::new()
            .append(Element::Checkbox(Checkbox::from("appended", false)))
            .ordered()
            .unwrap_err(),
        ValidationError::MixedContentKind
    );
    assert_eq!(
        ListBuilder::new()
            .append(Element::Text("first".to_string()))
            .append(Element::Checkmark(Checkmark::from("appended", true)))
            .ordered()
            .unwrap_err(),
        ValidationError::MixedContentKind
    );
}

#[test]
fn list_builder_keeps_the_order_of_its_items() {
    let list = ListBuilder::new()
        .append(Element::Text("one".to_string()))
        .checkbox("two", false)
        .append(Element::Checkmark(Checkmark::from("three", true)))
        .append(Element::Paragraph(Paragraph::from("four")))
        .unordered()
        .unwrap();
    assert_eq!(list.items.len(), 4);
    assert_eq!(
        list.render(),
        "- one\n- [ ] two\n- [x] three\n- four\n"
    );
}

#[test]
fn list_builder_checks_only_its_own_items() {
    let inner = ListBuilder::new()
        .checkbox("inside", true)
        .unordered()
        .unwrap();
    let list = ListBuilder::new()
        .append(Element::List(inner))
        .ordered()
        .unwrap();
    assert_eq!(list.typ, ListType::Ordered);
    assert_eq!(list.render(), "1. - [x] inside\n");
}

#[test]
fn builders_can_be_cloned() {
    let base = ListBuilder::new().append(Element::Text("one".to_string()));
    let ordered = base.clone().ordered().unwrap();
    let unordered = base.checkbox("two", true).unordered().unwrap();
    assert_eq!(ordered.render(), "1. one\n");
    assert_eq!(unordered.render(), "- one\n- [x] two\n");
    let link = LinkBuilder::new().url("u").text("t");
    assert_eq!(link.clone(), link);
    assert_eq!(link.clone().footer().build().unwrap().render(), "[t][t]\n");
    assert_eq!(link.build().unwrap().render(), "[t](u)\n");
    let image = ImageBuilder::new().url("u");
    assert_eq!(image.clone(), image);
    assert_eq!(image.build().unwrap().render(), "![](u)\n");
}
