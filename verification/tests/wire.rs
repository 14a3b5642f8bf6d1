use jarkup_rs::{
    decode_document, encode_document, BlockComponent, Component, DecodeError, Heading,
    HeadingLevel, InlineComponent, Json, List, ListStyle, Number, Paragraph, ParagraphProps,
    ParagraphSlots, Text, TextProps,
};
use serde_json::Value;

fn from_value(value: &Value) -> Json {
    match value {
        Value::Null => Json::Null,
        Value::Bool(b) => Json::Bool(*b),
        Value::Number(n) => {
            if let Some(u) = n.as_u64() {
                Json::Number(Number::PosInt(u))
            } else if let Some(i) = n.as_i64() {
                Json::Number(Number::NegInt(i))
            } else {
                Json::Number(Number::Float(n.as_f64().unwrap_or(0.0).to_bits()))
            }
        },
        Value::String(s) => Json::Str(s.clone()),
        Value::Array(items) => Json::Array(items.iter().map(from_value).collect()),
        Value::Object(members) => {
            Json::Object(members.iter().map(|(k, v)| (k.clone(), from_value(v))).collect())
        },
    }
}

fn to_value(json: &Json) -> Value {
    match json {
        Json::Null => Value::Null,
        Json::Bool(b) => Value::Bool(*b),
        Json::Number(Number::PosInt(u)) => Value::from(*u),
        Json::Number(Number::NegInt(i)) => Value::from(*i),
        Json::Number(Number::Float(bits)) => Value::from(f64::from_bits(*bits)),
        Json::Str(s) => Value::String(s.clone()),
        Json::Array(items) => Value::Array(items.iter().map(to_value).collect()),
        Json::Object(members) => {
            let mut map = serde_json::Map::new();
            for (key, value) in members {
                map.insert(key.clone(), to_value(value));
            }
            Value::Object(map)
        },
    }
}

fn parse(text: &str) -> Json {
    from_value(&serde_json::from_str::<Value>(text).unwrap())
}

const DOCUMENT: &str = r##"[
  {"type": "Heading", "inline": false, "props": {"level": 1},
   "slots": {"default": [{"type": "Text", "inline": true, "props": {"text": "Title"}}]}},
  {"type": "Paragraph", "inline": false,
   "slots": {"default": [
     {"type": "Text", "inline": true, "props": {"text": "Hello, ", "bold": true}},
     {"type": "Icon", "inline": true, "props": {"src": "wave.svg", "alt": "wave"}},
     {"type": "Text", "inline": true,
      "props": {"text": "world!", "href": "https://example.com", "color": "#ff0000"}}
   ]}},
  {"type": "List", "inline": false, "props": {"listStyle": "ordered"},
   "slots": {"default": [
     {"type": "ListItem", "inline": false,
      "slots": {"default": [{"type": "Text", "inline": true, "props": {"text": "one"}}]}},
     {"type": "ListItem", "inline": false,
      "slots": {"default": [{"type": "Text", "inline": true, "props": {"text": "two"}}]}}
   ]}},
  {"type": "BlockQuote", "inline": false, "props": {"cite": "https://example.com/source"},
   "slots": {"default": [
     {"type": "Callout", "inline": false, "props": {"type": "warning"},
      "slots": {"default": [{"type": "Divider", "inline": false}]}}
   ]}},
  {"type": "Toggle", "inline": false,
   "slots": {"default": [{"type": "Katex", "inline": false, "props": {"expression": "x^2"}}],
             "summary": [{"type": "Text", "inline": true, "props": {"text": "more"}}]}},
  {"type": "Bookmark", "inline": false,
   "props": {"url": "https://example.com", "title": "Example"}},
  {"type": "File", "inline": false, "props": {"src": "a.pdf"}},
  {"type": "Image", "inline": false, "props": {"src": "a.png", "alt": "A"}},
  {"type": "CodeBlock", "inline": false, "props": {"code": "let x = 1;", "language": "rust"},
   "slots": {"default": []}},
  {"type": "Table", "inline": false, "props": {"hasColumnHeader": true, "caption": "t"},
   "slots": {
     "header": [{"type": "TableRow", "inline": false, "slots": {"default": [
       {"type": "TableCell", "inline": false, "props": {"isHeader": true},
        "slots": {"default": [{"type": "Text", "inline": true, "props": {"text": "h"}}]}}]}}],
     "body": [{"type": "TableRow", "inline": false, "slots": {"default": [
       {"type": "TableCell", "inline": false,
        "slots": {"default": [{"type": "Text", "inline": true, "props": {"text": "c"}}]}}]}}]}},
  {"type": "ColumnList", "inline": false, "slots": {"default": [
     {"type": "Column", "inline": false, "slots": {"default": []}},
     {"type": "Column", "inline": false, "slots": {"default": []}}]}},
  {"type": "Unsupported", "inline": false, "props": {"details": "embed"}},
  {"type": "Text", "inline": true, "props": {"text": "a root run"}}
]"##;

#[test]
fn serialize() {
    let inline = InlineComponent::Text(Text {
        props: TextProps { text: "Hello, world!".to_string(), ..Default::default() },
        ..Default::default()
    });

    let paragraph = Component::BlockComponent(BlockComponent::Paragraph(Paragraph {
        props: ParagraphProps,
        slots: ParagraphSlots { default: vec![inline] },
    }));

    println!("{}", serde_json::to_string(&to_value(&paragraph.encode())).unwrap());
}

#[test]
fn deserialize() {
    let slice = DOCUMENT.as_bytes();

    let results =
        decode_document(&from_value(&serde_json::from_slice::<Value>(slice).unwrap())).unwrap();

    println!("{}", serde_json::to_string(&to_value(&encode_document(&results))).unwrap());
}

#[test]
fn serialized_paragraph_is_the_documented_text() {
    let inline = InlineComponent::Text(Text {
        props: TextProps { text: "Hello, world!".to_string(), ..Default::default() },
        ..Default::default()
    });
    let paragraph =
        Paragraph { props: ParagraphProps, slots: ParagraphSlots { default: vec![inline] } };
    let documented = r#"{"inline": false, "slots": {"default": [
        {"type":"Text","inline": true, "props": {"text": "Hello, world!"}}
    ]}}"#;
    assert_eq!(to_value(&paragraph.encode()), serde_json::from_str::<Value>(documented).unwrap());
    assert_eq!(Paragraph::decode(&parse(documented)), Ok(paragraph.clone()));
    let tagged = r#"{"type":"Paragraph","inline":false,"slots":{"default":[
        {"type":"Text","inline":true,"props":{"text":"Hello, world!"}}]}}"#;
    let component = Component::from(paragraph);
    assert_eq!(to_value(&component.encode()), serde_json::from_str::<Value>(tagged).unwrap());
    assert_eq!(Component::decode(&parse(tagged)), Ok(component));
}

#[test]
fn deserialized_document_is_written_back_as_it_was() {
    let value = serde_json::from_str::<Value>(DOCUMENT).unwrap();
    let components = decode_document(&from_value(&value)).unwrap();
    assert_eq!(components.len(), 13);
    assert!(!components[0].inline());
    assert!(components[12].inline());
    assert_eq!(to_value(&encode_document(&components)), value);
    assert_eq!(decode_document(&encode_document(&components)), Ok(components));
}

fn heading_text(level: &str) -> String {
    let head = r#"{"type":"Heading","inline":false,"props":{"level":"#;
    let tail = r#"},"slots":{"default":[]}}"#;
    format!("{}{}{}", head, level, tail)
}

#[test]
fn heading_levels_in_text() {
    let names = [
        HeadingLevel::H1,
        HeadingLevel::H2,
        HeadingLevel::H3,
        HeadingLevel::H4,
        HeadingLevel::H5,
        HeadingLevel::H6,
    ];
    for n in 1..=6usize {
        let text = heading_text(&n.to_string());
        let value = serde_json::from_str::<Value>(&text).unwrap();
        let read = BlockComponent::decode(&from_value(&value)).unwrap();
        match &read {
            BlockComponent::Heading(Heading { props, .. }) => assert_eq!(props.level, names[n - 1]),
            _ => panic!("a heading was written"),
        }
        assert_eq!(to_value(&read.encode()), value);
    }
    for bad in ["0", "7", "-1", "300", "18446744073709551615"] {
        let text = heading_text(bad);
        assert_eq!(BlockComponent::decode(&parse(&text)), Err(DecodeError::OutOfRange));
    }
    for bad in ["2.0", "2.5", "\"2\"", "true", "null", "[2]"] {
        let text = heading_text(bad);
        assert_eq!(BlockComponent::decode(&parse(&text)), Err(DecodeError::TypeMismatch));
    }
}

#[test]
fn unknown_tag_in_text() {
    let text = r#"{"type":"NotAKind","inline":false,"props":{},"slots":{}}"#;
    assert_eq!(
        BlockComponent::decode(&parse(text)),
        Err(DecodeError::UnknownTag("NotAKind".to_string()))
    );
    assert_eq!(Component::decode(&parse(text)), Err(DecodeError::NoMatchingVariant));
}

#[test]
fn list_without_style_in_text() {
    let text = r#"{"type":"List","inline":false,"slots":{"default":[]}}"#;
    let value = serde_json::from_str::<Value>(text).unwrap();
    let read = BlockComponent::decode(&from_value(&value)).unwrap();
    assert_eq!(
        read,
        BlockComponent::from(List {
            props: jarkup_rs::ListProps { list_style: ListStyle::Unordered },
            slots: jarkup_rs::ListSlots { default: vec![] },
        })
    );
    let written = to_value(&read.encode());
    assert_eq!(written, value);
    assert!(written.get("props").is_none());
}
