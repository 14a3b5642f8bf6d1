use jarkup_rs::{
    decode_document, decode_document_within, encode_document, BlockComponent, BlockQuote,
    BlockQuoteProps, BlockQuoteSlots, Bookmark, BookmarkProps, BookmarkSlots, Callout,
    CalloutProps, CalloutSlots, CalloutType, CodeBlock, CodeBlockProps, CodeBlockSlots, Column,
    ColumnList, ColumnListProps, ColumnListSlots, ColumnProps, ColumnSlots, Component,
    DecodeError, Divider, DividerProps, DividerSlots, File, FileProps, FileSlots, Heading,
    HeadingLevel, HeadingProps, HeadingSlots, Icon, IconProps, IconSlots, Image, ImageProps,
    ImageSlots, InlineComponent, Json, Katex, KatexProps, KatexSlots, List, ListItem,
    ListItemProps, ListItemSlots, ListProps, ListSlots, ListStyle, Number, Paragraph,
    ParagraphProps, ParagraphSlots, Table, TableCell, TableCellProps, TableCellSlots, TableProps,
    TableRow, TableRowProps, TableRowSlots, TableSlots, Text, TextProps, TextSlots, Toggle,
    ToggleProps, ToggleSlots, Unsupported, UnsupportedProps, UnsupportedSlots,
};

fn s(text: &str) -> String {
    text.to_string()
}

fn obj(members: Vec<(&str, Json)>) -> Json {
    Json::Object(members.into_iter().map(|(key, value)| (s(key), value)).collect())
}

fn string(text: &str) -> Json {
    Json::Str(s(text))
}

fn uint(n: u64) -> Json {
    Json::Number(Number::PosInt(n))
}

fn text(content: &str) -> InlineComponent {
    InlineComponent::Text(Text {
        props: TextProps { text: s(content), ..Default::default() },
        slots: TextSlots,
    })
}

fn text_json(content: &str) -> Json {
    obj(vec![
        ("type", string("Text")),
        ("inline", Json::Bool(true)),
        ("props", obj(vec![("text", string(content))])),
    ])
}

fn paragraph(content: &str) -> Component {
    Component::from(Paragraph {
        props: ParagraphProps,
        slots: ParagraphSlots { default: vec![text(content)] },
    })
}

fn every_kind() -> Vec<Component> {
    vec![
        Component::from(Text {
            props: TextProps {
                text: s("all"),
                color: Some(s("red")),
                background_color: Some(s("blue")),
                bold: true,
                italic: true,
                underline: true,
                strikethrough: true,
                katex: true,
                code: true,
                ruby: Some(s("ruby")),
                href: Some(s("https://example.com")),
                favicon: Some(s("favicon.ico")),
            },
            slots: TextSlots,
        }),
        Component::from(Text::default()),
        Component::from(Icon {
            props: IconProps { src: s("icon.svg"), alt: Some(s("an icon")) },
            slots: IconSlots,
        }),
        Component::from(Icon {
            props: IconProps { src: s("icon.svg"), alt: None },
            slots: IconSlots,
        }),
        Component::from(Heading {
            props: HeadingProps { level: HeadingLevel::H3 },
            slots: HeadingSlots { default: vec![text("Title")] },
        }),
        paragraph("Hello, world!"),
        Component::from(ListItem {
            props: ListItemProps,
            slots: ListItemSlots { default: vec![text("item")] },
        }),
        Component::from(List {
            props: ListProps { list_style: ListStyle::Ordered },
            slots: ListSlots {
                default: vec![
                    Component::from(ListItem {
                        props: ListItemProps,
                        slots: ListItemSlots { default: vec![text("one")] },
                    }),
                    Component::from(ListItem {
                        props: ListItemProps,
                        slots: ListItemSlots { default: vec![text("two")] },
                    }),
                ],
            },
        }),
        Component::from(List::default()),
        Component::from(BlockQuote {
            props: BlockQuoteProps { cite: Some(s("someone")) },
            slots: BlockQuoteSlots { default: vec![paragraph("quoted")] },
        }),
        Component::from(Callout {
            props: CalloutProps { callout_type: CalloutType::Warning },
            slots: CalloutSlots { default: vec![paragraph("careful")] },
        }),
        Component::from(Callout::default()),
        Component::from(Divider { props: DividerProps, slots: DividerSlots }),
        Component::from(Toggle {
            props: ToggleProps,
            slots: ToggleSlots { default: vec![paragraph("hidden")], summary: vec![text("more")] },
        }),
        Component::from(Bookmark {
            props: BookmarkProps {
                url: s("https://example.com"),
                title: Some(s("Example")),
                description: None,
                image: Some(s("card.png")),
            },
            slots: BookmarkSlots,
        }),
        Component::from(File {
            props: FileProps { src: s("a.pdf"), name: Some(s("A")) },
            slots: FileSlots,
        }),
        Component::from(Image {
            props: ImageProps { src: s("a.png"), alt: None },
            slots: ImageSlots,
        }),
        Component::from(CodeBlock {
            props: CodeBlockProps { code: s("fn main() {}"), language: s("rust") },
            slots: CodeBlockSlots { default: vec![text("caption")] },
        }),
        Component::from(Katex {
            props: KatexProps { expression: s("e^{i\\pi}") },
            slots: KatexSlots,
        }),
        Component::from(Table {
            props: TableProps {
                has_column_header: true,
                has_row_header: false,
                caption: Some(s("numbers")),
            },
            slots: TableSlots {
                header: Some(vec![Component::from(TableRow {
                    props: TableRowProps,
                    slots: TableRowSlots {
                        default: vec![Component::from(TableCell {
                            props: TableCellProps { is_header: true },
                            slots: TableCellSlots { default: vec![text("n")] },
                        })],
                    },
                })]),
                body: vec![Component::from(TableRow {
                    props: TableRowProps,
                    slots: TableRowSlots {
                        default: vec![Component::from(TableCell {
                            props: TableCellProps { is_header: false },
                            slots: TableCellSlots { default: vec![text("1")] },
                        })],
                    },
                })],
            },
        }),
        Component::from(Table {
            props: TableProps::default(),
            slots: TableSlots { header: Some(vec![]), body: vec![] },
        }),
        Component::from(Table::default()),
        Component::from(ColumnList {
            props: ColumnListProps {},
            slots: ColumnListSlots {
                default: vec![
                    Component::from(Column {
                        props: ColumnProps {},
                        slots: ColumnSlots { default: vec![paragraph("left")] },
                    }),
                    Component::from(Column {
                        props: ColumnProps {},
                        slots: ColumnSlots { default: vec![paragraph("right")] },
                    }),
                ],
            },
        }),
        Component::from(Unsupported {
            props: Some(UnsupportedProps { details: s("embed") }),
            slots: UnsupportedSlots {},
        }),
        Component::from(Unsupported { props: None, slots: UnsupportedSlots {} }),
    ]
}

#[test]
fn every_kind_round_trips() {
    for component in every_kind() {
        let json = component.encode();
        assert_eq!(Component::decode(&json), Ok(component));
    }
}

#[test]
fn document_round_trips_in_order() {
    let document = every_kind();
    let json = encode_document(&document);
    match &json {
        Json::Array(items) => assert_eq!(items.len(), document.len()),
        _ => panic!("a document is written as an array"),
    }
    assert_eq!(decode_document(&json), Ok(document));
}

#[test]
fn blocks_and_kinds_round_trip_on_their_own() {
    let heading = Heading {
        props: HeadingProps { level: HeadingLevel::H2 },
        slots: HeadingSlots { default: vec![text("a"), text("b")] },
    };
    assert_eq!(Heading::decode(&heading.encode()), Ok(heading.clone()));
    let block = BlockComponent::from(heading);
    assert_eq!(BlockComponent::decode(&block.encode()), Ok(block));
    let inline = text("c");
    assert_eq!(InlineComponent::decode(&inline.encode()), Ok(inline));
    let props = TextProps { text: s("d"), bold: true, ..Default::default() };
    assert_eq!(TextProps::decode(&props.encode()), Ok(props));
}

#[test]
fn paragraph_is_written_as_documented() {
    let bare = Paragraph {
        props: ParagraphProps,
        slots: ParagraphSlots { default: vec![text("Hello, world!")] },
    };
    let expected = obj(vec![
        ("inline", Json::Bool(false)),
        ("slots", obj(vec![("default", Json::Array(vec![text_json("Hello, world!")]))])),
    ]);
    assert_eq!(bare.encode(), expected);
    assert_eq!(Paragraph::decode(&expected), Ok(bare));
}

#[test]
fn tag_comes_first_then_inline_props_slots() {
    let heading = Component::from(Heading {
        props: HeadingProps { level: HeadingLevel::H1 },
        slots: HeadingSlots { default: vec![] },
    });
    assert_eq!(
        heading.encode(),
        obj(vec![
            ("type", string("Heading")),
            ("inline", Json::Bool(false)),
            ("props", obj(vec![("level", uint(1))])),
            ("slots", obj(vec![("default", Json::Array(vec![]))])),
        ])
    );
}

#[test]
fn defaults_are_left_out() {
    assert_eq!(
        Text::default().encode(),
        obj(vec![("inline", Json::Bool(true)), ("props", obj(vec![("text", string(""))]))])
    );
    assert_eq!(Divider::default().encode(), obj(vec![("inline", Json::Bool(false))]));
    assert_eq!(
        List::default().encode(),
        obj(vec![
            ("inline", Json::Bool(false)),
            ("slots", obj(vec![("default", Json::Array(vec![]))])),
        ])
    );
    assert_eq!(
        Table::default().encode(),
        obj(vec![
            ("inline", Json::Bool(false)),
            ("slots", obj(vec![("body", Json::Array(vec![]))])),
        ])
    );
    assert_eq!(Unsupported::default().encode(), obj(vec![("inline", Json::Bool(false))]));
    assert_eq!(TextProps::default().encode(), vec![(s("text"), string(""))]);
    assert_eq!(TableProps::default().encode(), vec![]);
    assert_eq!(ListProps::default().encode(), vec![]);
    assert_eq!(CalloutProps::default().encode(), vec![]);
    assert_eq!(BlockQuoteProps::default().encode(), vec![]);
    assert_eq!(TableCellProps::default().encode(), vec![]);
}

#[test]
fn set_fields_are_written_in_order() {
    let props = TextProps {
        text: s("t"),
        color: Some(s("c")),
        background_color: None,
        bold: true,
        italic: false,
        underline: true,
        strikethrough: false,
        katex: false,
        code: true,
        ruby: None,
        href: Some(s("h")),
        favicon: None,
    };
    assert_eq!(
        props.encode(),
        vec![
            (s("text"), string("t")),
            (s("color"), string("c")),
            (s("bold"), Json::Bool(true)),
            (s("underline"), Json::Bool(true)),
            (s("code"), Json::Bool(true)),
            (s("href"), string("h")),
        ]
    );
    let table = TableProps { has_column_header: false, has_row_header: true, caption: None };
    assert_eq!(table.encode(), vec![(s("hasRowHeader"), Json::Bool(true))]);
    let cell = TableCellProps { is_header: true };
    assert_eq!(cell.encode(), vec![(s("isHeader"), Json::Bool(true))]);
    let callout = CalloutProps { callout_type: CalloutType::Tip };
    assert_eq!(callout.encode(), vec![(s("type"), string("tip"))]);
    let text_props = obj(vec![("backgroundColor", string("b")), ("text", string("t"))]);
    match &text_props {
        Json::Object(members) => {
            let read = TextProps::decode(members).unwrap();
            assert_eq!(read.background_color, Some(s("b")));
            assert_eq!(read.text, s("t"));
            assert!(!read.bold);
        },
        _ => unreachable!(),
    }
}

#[test]
fn heading_levels_are_the_integers_one_to_six() {
    let levels = [
        HeadingLevel::H1,
        HeadingLevel::H2,
        HeadingLevel::H3,
        HeadingLevel::H4,
        HeadingLevel::H5,
        HeadingLevel::H6,
    ];
    for (i, level) in levels.iter().enumerate() {
        let n = i as u8 + 1;
        assert_eq!(u8::from(*level), n);
        assert_eq!(HeadingLevel::try_from(n), Ok(*level));
        let heading = Heading {
            props: HeadingProps { level: *level },
            slots: HeadingSlots { default: vec![] },
        };
        let json = heading.encode();
        match &json {
            Json::Object(members) => {
                assert_eq!(members[1], (s("props"), obj(vec![("level", uint(n as u64))])));
            },
            _ => panic!("a heading is written as an object"),
        }
        assert_eq!(Heading::decode(&json), Ok(heading));
    }
    assert_eq!(HeadingLevel::try_from(0), Err(DecodeError::OutOfRange));
    assert_eq!(HeadingLevel::try_from(7), Err(DecodeError::OutOfRange));
    assert_eq!(HeadingLevel::try_from(255), Err(DecodeError::OutOfRange));
    assert_eq!(HeadingLevel::default(), HeadingLevel::H1);
}

fn heading_with_level(level: Json) -> Json {
    obj(vec![
        ("type", string("Heading")),
        ("inline", Json::Bool(false)),
        ("props", obj(vec![("level", level)])),
        ("slots", obj(vec![("default", Json::Array(vec![]))])),
    ])
}

#[test]
fn heading_level_out_of_range_is_rejected() {
    for n in [0u64, 7, 8, 256, u64::MAX] {
        assert_eq!(
            BlockComponent::decode(&heading_with_level(uint(n))),
            Err(DecodeError::OutOfRange)
        );
        assert_eq!(Heading::decode(&heading_with_level(uint(n))), Err(DecodeError::OutOfRange));
    }
    for n in [-1i64, -6, i64::MIN] {
        assert_eq!(
            BlockComponent::decode(&heading_with_level(Json::Number(Number::NegInt(n)))),
            Err(DecodeError::OutOfRange)
        );
    }
    assert_eq!(
        BlockComponent::decode(&heading_with_level(Json::Number(Number::NegInt(3)))),
        Ok(BlockComponent::from(Heading {
            props: HeadingProps { level: HeadingLevel::H3 },
            slots: HeadingSlots { default: vec![] },
        }))
    );
    assert_eq!(
        BlockComponent::decode(&heading_with_level(Json::Number(Number::Float(
            2.0f64.to_bits()
        )))),
        Err(DecodeError::TypeMismatch)
    );
    assert_eq!(
        BlockComponent::decode(&heading_with_level(string("2"))),
        Err(DecodeError::TypeMismatch)
    );
    assert_eq!(
        BlockComponent::decode(&heading_with_level(Json::Null)),
        Err(DecodeError::TypeMismatch)
    );
    let no_level = obj(vec![
        ("type", string("Heading")),
        ("inline", Json::Bool(false)),
        ("props", obj(vec![("depth", uint(2))])),
        ("slots", obj(vec![("default", Json::Array(vec![]))])),
    ]);
    assert_eq!(BlockComponent::decode(&no_level), Err(DecodeError::MissingRequiredField));
}

#[test]
fn unknown_tags_are_rejected_with_their_name() {
    let unknown = obj(vec![("type", string("NotAKind")), ("inline", Json::Bool(false))]);
    assert_eq!(BlockComponent::decode(&unknown), Err(DecodeError::UnknownTag(s("NotAKind"))));
    assert_eq!(InlineComponent::decode(&unknown), Err(DecodeError::UnknownTag(s("NotAKind"))));
    assert_eq!(Component::decode(&unknown), Err(DecodeError::NoMatchingVariant));
    assert_eq!(
        BlockComponent::decode(&text_json("inline, not a block")),
        Err(DecodeError::UnknownTag(s("Text")))
    );
    let divider = obj(vec![("type", string("Divider")), ("inline", Json::Bool(false))]);
    assert_eq!(InlineComponent::decode(&divider), Err(DecodeError::UnknownTag(s("Divider"))));
    let lower = obj(vec![("type", string("divider")), ("inline", Json::Bool(false))]);
    assert_eq!(BlockComponent::decode(&lower), Err(DecodeError::UnknownTag(s("divider"))));
}

#[test]
fn tag_must_be_a_string_member_of_an_object() {
    let no_tag = obj(vec![("inline", Json::Bool(false))]);
    assert_eq!(BlockComponent::decode(&no_tag), Err(DecodeError::MissingRequiredField));
    assert_eq!(InlineComponent::decode(&no_tag), Err(DecodeError::MissingRequiredField));
    let number_tag = obj(vec![("type", uint(1)), ("inline", Json::Bool(false))]);
    assert_eq!(BlockComponent::decode(&number_tag), Err(DecodeError::TypeMismatch));
    for json in [Json::Null, Json::Bool(true), uint(1), string("Divider"), Json::Array(vec![])] {
        assert_eq!(BlockComponent::decode(&json), Err(DecodeError::TypeMismatch));
        assert_eq!(InlineComponent::decode(&json), Err(DecodeError::TypeMismatch));
        assert_eq!(Divider::decode(&json), Err(DecodeError::TypeMismatch));
        assert_eq!(Component::decode(&json), Err(DecodeError::NoMatchingVariant));
    }
}

#[test]
fn inline_flag_is_fixed_by_the_kind() {
    let missing = obj(vec![("type", string("Divider"))]);
    assert_eq!(BlockComponent::decode(&missing), Err(DecodeError::MissingRequiredField));
    let wrong = obj(vec![("type", string("Divider")), ("inline", Json::Bool(true))]);
    assert_eq!(BlockComponent::decode(&wrong), Err(DecodeError::TypeMismatch));
    let not_bool = obj(vec![("type", string("Divider")), ("inline", string("false"))]);
    assert_eq!(BlockComponent::decode(&not_bool), Err(DecodeError::TypeMismatch));
    let text_as_block = obj(vec![
        ("type", string("Text")),
        ("inline", Json::Bool(false)),
        ("props", obj(vec![("text", string("x"))])),
    ]);
    assert_eq!(InlineComponent::decode(&text_as_block), Err(DecodeError::TypeMismatch));
    assert_eq!(Component::decode(&text_as_block), Err(DecodeError::NoMatchingVariant));
    assert!(Component::from(Text::default()).inline());
    assert!(!Component::from(Divider::default()).inline());
}

#[test]
fn required_members_must_be_there() {
    let no_props = obj(vec![("type", string("Text")), ("inline", Json::Bool(true))]);
    assert_eq!(InlineComponent::decode(&no_props), Err(DecodeError::MissingRequiredField));
    let null_props =
        obj(vec![("type", string("Text")), ("inline", Json::Bool(true)), ("props", Json::Null)]);
    assert_eq!(InlineComponent::decode(&null_props), Err(DecodeError::TypeMismatch));
    let no_text = obj(vec![
        ("type", string("Text")),
        ("inline", Json::Bool(true)),
        ("props", obj(vec![("bold", Json::Bool(true))])),
    ]);
    assert_eq!(InlineComponent::decode(&no_text), Err(DecodeError::MissingRequiredField));
    let no_slots = obj(vec![("type", string("Paragraph")), ("inline", Json::Bool(false))]);
    assert_eq!(BlockComponent::decode(&no_slots), Err(DecodeError::MissingRequiredField));
    let no_default = obj(vec![
        ("type", string("Paragraph")),
        ("inline", Json::Bool(false)),
        ("slots", obj(vec![("other", Json::Array(vec![]))])),
    ]);
    assert_eq!(BlockComponent::decode(&no_default), Err(DecodeError::MissingRequiredField));
    let no_language = obj(vec![
        ("type", string("CodeBlock")),
        ("inline", Json::Bool(false)),
        ("props", obj(vec![("code", string("x"))])),
        ("slots", obj(vec![("default", Json::Array(vec![]))])),
    ]);
    assert_eq!(BlockComponent::decode(&no_language), Err(DecodeError::MissingRequiredField));
    let no_summary = obj(vec![
        ("type", string("Toggle")),
        ("inline", Json::Bool(false)),
        ("slots", obj(vec![("default", Json::Array(vec![]))])),
    ]);
    assert_eq!(BlockComponent::decode(&no_summary), Err(DecodeError::MissingRequiredField));
}

#[test]
fn members_must_have_the_right_type() {
    let text_number = obj(vec![
        ("type", string("Text")),
        ("inline", Json::Bool(true)),
        ("props", obj(vec![("text", uint(1))])),
    ]);
    assert_eq!(InlineComponent::decode(&text_number), Err(DecodeError::TypeMismatch));
    let bold_string = obj(vec![
        ("type", string("Text")),
        ("inline", Json::Bool(true)),
        ("props", obj(vec![("text", string("x")), ("bold", string("yes"))])),
    ]);
    assert_eq!(InlineComponent::decode(&bold_string), Err(DecodeError::TypeMismatch));
    let color_bool = obj(vec![
        ("type", string("Text")),
        ("inline", Json::Bool(true)),
        ("props", obj(vec![("text", string("x")), ("color", Json::Bool(true))])),
    ]);
    assert_eq!(InlineComponent::decode(&color_bool), Err(DecodeError::TypeMismatch));
    let props_array = obj(vec![
        ("type", string("Divider")),
        ("inline", Json::Bool(false)),
        ("props", Json::Array(vec![])),
    ]);
    assert_eq!(BlockComponent::decode(&props_array), Err(DecodeError::TypeMismatch));
    let slots_string = obj(vec![
        ("type", string("Divider")),
        ("inline", Json::Bool(false)),
        ("slots", string("none")),
    ]);
    assert_eq!(BlockComponent::decode(&slots_string), Err(DecodeError::TypeMismatch));
    let default_object = obj(vec![
        ("type", string("Paragraph")),
        ("inline", Json::Bool(false)),
        ("slots", obj(vec![("default", obj(vec![]))])),
    ]);
    assert_eq!(BlockComponent::decode(&default_object), Err(DecodeError::TypeMismatch));
    let header_string = obj(vec![
        ("type", string("Table")),
        ("inline", Json::Bool(false)),
        ("slots", obj(vec![("header", string("h")), ("body", Json::Array(vec![]))])),
    ]);
    assert_eq!(BlockComponent::decode(&header_string), Err(DecodeError::TypeMismatch));
    let style_number = obj(vec![
        ("type", string("List")),
        ("inline", Json::Bool(false)),
        ("props", obj(vec![("listStyle", uint(1))])),
        ("slots", obj(vec![("default", Json::Array(vec![]))])),
    ]);
    assert_eq!(BlockComponent::decode(&style_number), Err(DecodeError::TypeMismatch));
}

#[test]
fn closed_enumerations_reject_other_strings() {
    assert_eq!(ListStyle::parse("unordered"), Ok(ListStyle::Unordered));
    assert_eq!(ListStyle::parse("ordered"), Ok(ListStyle::Ordered));
    assert_eq!(ListStyle::parse("Ordered"), Err(DecodeError::UnknownEnumString));
    assert_eq!(ListStyle::parse(""), Err(DecodeError::UnknownEnumString));
    assert_eq!(ListStyle::Unordered.as_str(), "unordered");
    assert_eq!(ListStyle::Ordered.as_str(), "ordered");
    assert_eq!(ListStyle::default(), ListStyle::Unordered);
    let callouts = [
        (CalloutType::Note, "note"),
        (CalloutType::Tip, "tip"),
        (CalloutType::Important, "important"),
        (CalloutType::Warning, "warning"),
        (CalloutType::Caution, "caution"),
    ];
    for (callout, name) in callouts {
        assert_eq!(callout.as_str(), name);
        assert_eq!(CalloutType::parse(name), Ok(callout));
    }
    assert_eq!(CalloutType::parse("danger"), Err(DecodeError::UnknownEnumString));
    assert_eq!(CalloutType::default(), CalloutType::Note);
    let list = obj(vec![
        ("type", string("List")),
        ("inline", Json::Bool(false)),
        ("props", obj(vec![("listStyle", string("bulleted"))])),
        ("slots", obj(vec![("default", Json::Array(vec![]))])),
    ]);
    assert_eq!(BlockComponent::decode(&list), Err(DecodeError::UnknownEnumString));
    let callout = obj(vec![
        ("type", string("Callout")),
        ("inline", Json::Bool(false)),
        ("props", obj(vec![("type", string("danger"))])),
        ("slots", obj(vec![("default", Json::Array(vec![]))])),
    ]);
    assert_eq!(BlockComponent::decode(&callout), Err(DecodeError::UnknownEnumString));
}

#[test]
fn list_style_defaults_to_unordered() {
    let bare = obj(vec![
        ("type", string("List")),
        ("inline", Json::Bool(false)),
        ("slots", obj(vec![("default", Json::Array(vec![]))])),
    ]);
    let list = BlockComponent::decode(&bare).unwrap();
    match &list {
        BlockComponent::List(list) => assert_eq!(list.props.list_style, ListStyle::Unordered),
        _ => panic!("a list was written"),
    }
    assert_eq!(list.encode(), bare);
    let explicit = obj(vec![
        ("type", string("List")),
        ("inline", Json::Bool(false)),
        ("props", obj(vec![("listStyle", string("unordered"))])),
        ("slots", obj(vec![("default", Json::Array(vec![]))])),
    ]);
    assert_eq!(BlockComponent::decode(&explicit), Ok(list.clone()));
    let empty_props = obj(vec![
        ("type", string("List")),
        ("inline", Json::Bool(false)),
        ("props", obj(vec![])),
        ("slots", obj(vec![("default", Json::Array(vec![]))])),
    ]);
    assert_eq!(BlockComponent::decode(&empty_props), Ok(list.clone()));
    let ordered = BlockComponent::from(List {
        props: ListProps { list_style: ListStyle::Ordered },
        slots: ListSlots { default: vec![] },
    });
    assert_eq!(
        ordered.encode(),
        obj(vec![
            ("type", string("List")),
            ("inline", Json::Bool(false)),
            ("props", obj(vec![("listStyle", string("ordered"))])),
            ("slots", obj(vec![("default", Json::Array(vec![]))])),
        ])
    );
}

#[test]
fn null_and_absent_read_as_the_default() {
    let nulls = obj(vec![
        ("type", string("Text")),
        ("inline", Json::Bool(true)),
        (
            "props",
            obj(vec![
                ("text", string("x")),
                ("color", Json::Null),
                ("bold", Json::Null),
                ("italic", Json::Bool(false)),
            ]),
        ),
        ("slots", Json::Null),
    ]);
    assert_eq!(InlineComponent::decode(&nulls), Ok(text("x")));
    let table = obj(vec![
        ("type", string("Table")),
        ("inline", Json::Bool(false)),
        ("props", Json::Null),
        ("slots", obj(vec![("header", Json::Null), ("body", Json::Array(vec![]))])),
    ]);
    assert_eq!(BlockComponent::decode(&table), Ok(BlockComponent::from(Table::default())));
    let callout = obj(vec![
        ("type", string("Callout")),
        ("inline", Json::Bool(false)),
        ("props", obj(vec![("type", Json::Null)])),
        ("slots", obj(vec![("default", Json::Array(vec![]))])),
    ]);
    assert_eq!(BlockComponent::decode(&callout), Ok(BlockComponent::from(Callout::default())));
}

#[test]
fn members_that_no_field_has_are_passed_over() {
    let extra = obj(vec![
        ("id", string("abc")),
        ("type", string("Text")),
        ("inline", Json::Bool(true)),
        ("props", obj(vec![("text", string("x")), ("size", uint(12))])),
        ("slots", obj(vec![("default", Json::Array(vec![]))])),
    ]);
    assert_eq!(InlineComponent::decode(&extra), Ok(text("x")));
    assert_eq!(Component::decode(&extra), Ok(Component::from(text("x"))));
}

#[test]
fn first_of_two_members_with_one_key_is_read() {
    let twice = obj(vec![
        ("type", string("Text")),
        ("inline", Json::Bool(true)),
        ("props", obj(vec![("text", string("first")), ("text", string("second"))])),
    ]);
    assert_eq!(InlineComponent::decode(&twice), Ok(text("first")));
}

#[test]
fn unsupported_attributes_may_be_absent() {
    let bare = obj(vec![("type", string("Unsupported")), ("inline", Json::Bool(false))]);
    let none = BlockComponent::from(Unsupported { props: None, slots: UnsupportedSlots {} });
    assert_eq!(BlockComponent::decode(&bare), Ok(none.clone()));
    let empty = obj(vec![
        ("type", string("Unsupported")),
        ("inline", Json::Bool(false)),
        ("props", obj(vec![])),
    ]);
    assert_eq!(BlockComponent::decode(&empty), Ok(none));
    let details = obj(vec![
        ("type", string("Unsupported")),
        ("inline", Json::Bool(false)),
        ("props", obj(vec![("details", string("embed"))])),
    ]);
    let some = BlockComponent::from(Unsupported {
        props: Some(UnsupportedProps { details: s("embed") }),
        slots: UnsupportedSlots {},
    });
    assert_eq!(BlockComponent::decode(&details), Ok(some.clone()));
    assert_eq!(some.encode(), details);
    let other = obj(vec![
        ("type", string("Unsupported")),
        ("inline", Json::Bool(false)),
        ("props", obj(vec![("reason", string("embed"))])),
    ]);
    assert_eq!(BlockComponent::decode(&other), Err(DecodeError::MissingRequiredField));
}

#[test]
fn table_header_is_kept_apart_from_an_empty_one() {
    let with_empty = Table {
        props: TableProps::default(),
        slots: TableSlots { header: Some(vec![]), body: vec![] },
    };
    let without = Table::default();
    assert_ne!(with_empty.encode(), without.encode());
    assert_eq!(Table::decode(&with_empty.encode()), Ok(with_empty));
    assert_eq!(Table::decode(&without.encode()), Ok(without));
}

#[test]
fn a_failure_inside_fails_the_whole() {
    let bad_child = obj(vec![("type", string("Heading")), ("inline", Json::Bool(false))]);
    let quote = obj(vec![
        ("type", string("BlockQuote")),
        ("inline", Json::Bool(false)),
        (
            "slots",
            obj(vec![(
                "default",
                Json::Array(vec![
                    obj(vec![("type", string("Divider")), ("inline", Json::Bool(false))]),
                    bad_child,
                ]),
            )]),
        ),
    ]);
    assert_eq!(BlockComponent::decode(&quote), Err(DecodeError::NoMatchingVariant));
    assert_eq!(Component::decode(&quote), Err(DecodeError::NoMatchingVariant));
    let bad_inline = obj(vec![
        ("type", string("Paragraph")),
        ("inline", Json::Bool(false)),
        (
            "slots",
            obj(vec![(
                "default",
                Json::Array(vec![
                    text_json("fine"),
                    obj(vec![("type", string("Divider")), ("inline", Json::Bool(false))]),
                ]),
            )]),
        ),
    ]);
    assert_eq!(BlockComponent::decode(&bad_inline), Err(DecodeError::UnknownTag(s("Divider"))));
    let document = Json::Array(vec![text_json("fine"), Json::Null, uint(3)]);
    assert_eq!(decode_document(&document), Err(DecodeError::NoMatchingVariant));
    assert_eq!(decode_document(&obj(vec![])), Err(DecodeError::TypeMismatch));
    assert_eq!(decode_document(&Json::Array(vec![])), Ok(vec![]));
}

#[test]
fn the_first_failure_is_reported() {
    let two_faults = obj(vec![
        ("type", string("Text")),
        ("inline", Json::Bool(true)),
        ("props", obj(vec![("favicon", uint(1))])),
    ]);
    assert_eq!(InlineComponent::decode(&two_faults), Err(DecodeError::MissingRequiredField));
    let shape_first = obj(vec![
        ("type", string("Heading")),
        ("inline", Json::Bool(false)),
        ("props", obj(vec![("level", uint(9))])),
    ]);
    assert_eq!(BlockComponent::decode(&shape_first), Err(DecodeError::MissingRequiredField));
    let props_before_slots = obj(vec![
        ("type", string("Heading")),
        ("inline", Json::Bool(false)),
        ("props", obj(vec![("level", uint(9))])),
        ("slots", obj(vec![("default", string("x"))])),
    ]);
    assert_eq!(BlockComponent::decode(&props_before_slots), Err(DecodeError::OutOfRange));
    let front_first = Json::Array(vec![
        obj(vec![("type", string("Heading")), ("inline", Json::Bool(false))]),
        text_json("fine"),
    ]);
    match &front_first {
        Json::Array(items) => {
            assert_eq!(
                jarkup_rs::inline::decode_inlines(items),
                Err(DecodeError::UnknownTag(s("Heading")))
            );
        },
        _ => unreachable!(),
    }
}

#[test]
fn list_of_a_thousand_items_round_trips() {
    let items: Vec<Component> = (0..1000)
        .map(|i| {
            Component::from(ListItem {
                props: ListItemProps,
                slots: ListItemSlots { default: vec![text(&format!("item {}", i))] },
            })
        })
        .collect();
    let list = Component::from(List {
        props: ListProps { list_style: ListStyle::Ordered },
        slots: ListSlots { default: items },
    });
    let json = list.encode();
    let read = Component::decode(&json).unwrap();
    assert_eq!(read, list);
    match read {
        Component::BlockComponent(BlockComponent::List(list)) => {
            assert_eq!(list.slots.default.len(), 1000);
            for (i, item) in list.slots.default.iter().enumerate() {
                match item {
                    Component::BlockComponent(BlockComponent::ListItem(item)) => {
                        assert_eq!(item.slots.default, vec![text(&format!("item {}", i))]);
                    },
                    _ => panic!("a list item was written"),
                }
            }
        },
        _ => panic!("a list was written"),
    }
}

#[test]
fn nested_containers_round_trip() {
    let mut inner = paragraph("innermost");
    for depth in 0..64 {
        inner = match depth % 4 {
            0 => Component::from(BlockQuote {
                props: BlockQuoteProps { cite: None },
                slots: BlockQuoteSlots { default: vec![inner] },
            }),
            1 => Component::from(Toggle {
                props: ToggleProps,
                slots: ToggleSlots { default: vec![inner], summary: vec![text("more")] },
            }),
            2 => Component::from(Column {
                props: ColumnProps {},
                slots: ColumnSlots { default: vec![paragraph("before"), inner] },
            }),
            _ => Component::from(Callout {
                props: CalloutProps { callout_type: CalloutType::Caution },
                slots: CalloutSlots { default: vec![inner, paragraph("after")] },
            }),
        };
    }
    let json = inner.encode();
    assert_eq!(Component::decode(&json), Ok(inner));
}

#[test]
fn conversions_wrap_the_kind() {
    let divider = Divider::default();
    assert_eq!(BlockComponent::from(divider.clone()), BlockComponent::Divider(divider.clone()));
    assert_eq!(
        Component::from(divider.clone()),
        Component::BlockComponent(BlockComponent::Divider(divider.clone()))
    );
    let icon = Icon { props: IconProps { src: s("i"), alt: None }, slots: IconSlots };
    assert_eq!(InlineComponent::from(icon.clone()), InlineComponent::Icon(icon.clone()));
    assert_eq!(
        Component::from(icon.clone()),
        Component::InlineComponent(InlineComponent::Icon(icon.clone()))
    );
    let into: Component = icon.clone().into();
    assert_eq!(into, Component::from(InlineComponent::Icon(icon)));
    let block: Component = BlockComponent::Divider(divider.clone()).into();
    assert_eq!(block, Component::from(divider));
}

#[test]
fn copies_are_equal() {
    for component in every_kind() {
        assert_eq!(component.clone(), component);
    }
    let json = encode_document(&every_kind());
    assert_eq!(json.clone(), json);
    let error = DecodeError::UnknownTag(s("x"));
    assert_eq!(error.clone(), error);
}

#[test]
fn numbers_that_are_integers_are_told_apart() {
    assert_eq!(Number::PosInt(5).integer(), Some(5));
    assert_eq!(Number::PosInt(u64::MAX).integer(), Some(u64::MAX as i128));
    assert_eq!(Number::NegInt(-5).integer(), Some(-5));
    assert_eq!(Number::Float(1.5f64.to_bits()).integer(), None);
}

#[test]
fn nesting_is_counted_by_arrays_and_objects() {
    for flat in [Json::Null, Json::Bool(false), uint(1), string("x")] {
        assert!(flat.nests_within(0));
        assert!(flat.nests_within(7));
    }
    assert!(!Json::Array(vec![]).nests_within(0));
    assert!(Json::Array(vec![]).nests_within(1));
    assert!(!obj(vec![]).nests_within(0));
    assert!(obj(vec![]).nests_within(1));
    let two = Json::Array(vec![uint(1), obj(vec![("a", string("x"))]), Json::Null]);
    assert!(!two.nests_within(1));
    assert!(two.nests_within(2));
    assert!(two.nests_within(usize::MAX));
    let three = obj(vec![("a", uint(1)), ("b", two.clone())]);
    assert!(!three.nests_within(2));
    assert!(three.nests_within(3));
    let mut deep = Json::Null;
    for _ in 0..40 {
        deep = Json::Array(vec![deep]);
    }
    assert!(!deep.nests_within(39));
    assert!(deep.nests_within(40));
}

#[test]
fn decoding_within_a_limit_reads_nothing_that_nests_deeper() {
    let run = text_json("x");
    assert_eq!(Component::decode_within(&run, 1), None);
    assert_eq!(Component::decode_within(&run, 2), Some(Ok(Component::from(text("x")))));
    assert_eq!(Component::decode_within(&Json::Null, 0), Some(Err(DecodeError::NoMatchingVariant)));
    let document = encode_document(&every_kind());
    assert_eq!(decode_document_within(&document, 3), None);
    assert_eq!(decode_document_within(&document, 64), Some(Ok(every_kind())));
    assert_eq!(decode_document_within(&uint(3), 0), Some(Err(DecodeError::TypeMismatch)));
    let mut inner = paragraph("innermost");
    for _ in 0..10 {
        inner = Component::from(BlockQuote {
            props: BlockQuoteProps { cite: None },
            slots: BlockQuoteSlots { default: vec![inner] },
        });
    }
    let json = inner.encode();
    // each quotation adds an object, its slots and an array; the paragraph
    // adds the same and the run of text an object and its attributes
    assert_eq!(Component::decode_within(&json, 3 * 11 + 1), None);
    assert_eq!(Component::decode_within(&json, 3 * 11 + 2), Some(Ok(inner)));
}
