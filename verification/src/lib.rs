//! A typed model of rich documents, trees of inline and block components,
//! and the JSON shape in which such documents are exchanged.
//!
//! A component is written as an object: `inline`, fixed by its kind; `props`,
//! its attributes; `slots`, its children by name; and, inside a union, `type`,
//! the name of its kind. An attribute at its default is left out, and so is a
//! record that is left without members. On the way back a member that is
//! absent or `null` reads as the default, a member that no field has is
//! passed over, and the first failure fails the whole.
//!
//! Every type of the model has a mathematical model of its own (its view),
//! and every encoder and decoder is specified over these models: what is
//! written for a component, what is read from a JSON value, and which failure
//! is reported for a value that is no component. The encoders promise that
//! what they write is read back as the component that was written.

pub mod choice;
pub mod component;
pub mod container;
pub mod convert;
pub mod error;
pub mod field;
pub mod inline;
pub mod json;
pub mod laws;
pub mod leaf;
pub mod level;
pub mod shape;

pub use crate::choice::{CalloutType, ListStyle};
pub use crate::component::{
    decode_document, decode_document_within, encode_document, BlockComponent,
    BlockComponentView, Component, ComponentView,
};
pub use crate::container::{
    BlockQuote, BlockQuoteProps, BlockQuoteSlots, Callout, CalloutProps, CalloutSlots, Column,
    ColumnList, ColumnListProps, ColumnListSlots, ColumnProps, ColumnSlots, List, ListProps,
    ListSlots, Table, TableProps, TableRow, TableRowProps, TableRowSlots, TableSlots, Toggle,
    ToggleProps, ToggleSlots,
};
pub use crate::error::{DecodeError, DecodeErrorView};
pub use crate::inline::{
    Icon, IconProps, IconSlots, InlineComponent, InlineComponentView, Text, TextProps, TextSlots,
};
pub use crate::json::{Json, JsonView, Number};
pub use crate::leaf::{
    Bookmark, BookmarkProps, BookmarkSlots, CodeBlock, CodeBlockProps, CodeBlockSlots, Divider,
    DividerProps, DividerSlots, File, FileProps, FileSlots, Heading, HeadingProps, HeadingSlots,
    Image, ImageProps, ImageSlots, Katex, KatexProps, KatexSlots, ListItem, ListItemProps,
    ListItemSlots, Paragraph, ParagraphProps, ParagraphSlots, TableCell, TableCellProps,
    TableCellSlots, Unsupported, UnsupportedProps, UnsupportedSlots,
};
pub use crate::level::HeadingLevel;
