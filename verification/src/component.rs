//! Components: the nodes of a document tree. A component is either inline or
//! a block. Which of the two a value is, is told from its shape alone: it is
//! read as an inline component where it can be, and as a block otherwise.
//!
//! Blocks nest to any depth. Encoding and decoding set no limit of their own
//! and recurse once for each level of nesting, so the depth that they can
//! handle is that of the stack they run on. For a value from a source that is
//! not trusted, `decode_within` and `decode_document_within` take the limit
//! from the caller and look no deeper than it allows.

use crate::container::{
    BlockQuote, BlockQuoteView, Callout, CalloutView, Column, ColumnList, ColumnListView,
    ColumnView, List, ListView, Table, TableRow, TableRowView, TableView, Toggle, ToggleView,
    block_quote_view, callout_view, column_list_view, column_view, list_view, table_row_view,
    table_view, toggle_view,
};
use crate::error::{result_map, result_view, DecodeError, DecodeErrorView};
use crate::field::{
    field, lemma_array_decreases, optional_array, put, read_array, read_opt_array,
    required_array, skip,
};
use crate::inline::{InlineComponent, InlineComponentView};
use crate::json::{items_view, members_view, nests_within, same, Json, JsonView, Members};
use crate::leaf::{
    Bookmark, BookmarkView, CodeBlock, CodeBlockView, Divider, File, FileView, Heading,
    HeadingView, Image, ImageView, Katex, KatexView, ListItem, ListItemView, Paragraph,
    ParagraphView, TableCell, TableCellView, Unsupported, UnsupportedView,
};
use crate::shape::{lemma_tag_of_tagged, read_tag, tag_of, tagged, with_tag};
use vstd::prelude::*;

verus! {

/// A structural node of a document.
#[derive(Debug, PartialEq, Eq)]
pub enum BlockComponent {
    Heading(Heading),
    Paragraph(Paragraph),
    ListItem(ListItem),
    List(List),
    BlockQuote(BlockQuote),
    Callout(Callout),
    Divider(Divider),
    Toggle(Toggle),
    Bookmark(Bookmark),
    File(File),
    Image(Image),
    CodeBlock(CodeBlock),
    Katex(Katex),
    Table(Table),
    TableRow(TableRow),
    TableCell(TableCell),
    ColumnList(ColumnList),
    Column(Column),
    Unsupported(Unsupported),
}

/// The mathematical model of a [`BlockComponent`].
pub enum BlockComponentView {
    Heading(HeadingView),
    Paragraph(ParagraphView),
    ListItem(ListItemView),
    List(ListView),
    BlockQuote(BlockQuoteView),
    Callout(CalloutView),
    Divider(Divider),
    Toggle(ToggleView),
    Bookmark(BookmarkView),
    File(FileView),
    Image(ImageView),
    CodeBlock(CodeBlockView),
    Katex(KatexView),
    Table(TableView),
    TableRow(TableRowView),
    TableCell(TableCellView),
    ColumnList(ColumnListView),
    Column(ColumnView),
    Unsupported(UnsupportedView),
}

/// A node of a document.
#[derive(Debug, PartialEq, Eq)]
pub enum Component {
    InlineComponent(InlineComponent),
    BlockComponent(BlockComponent),
}

/// The mathematical model of a [`Component`].
pub enum ComponentView {
    InlineComponent(InlineComponentView),
    BlockComponent(BlockComponentView),
}

/// The model of a component.
pub open spec fn component_view(component: Component) -> ComponentView
    decreases component,
{
    match component {
        Component::InlineComponent(inline) => ComponentView::InlineComponent(inline@),
        Component::BlockComponent(block) => ComponentView::BlockComponent(block_view(block)),
    }
}

/// The model of a block.
pub open spec fn block_view(block: BlockComponent) -> BlockComponentView
    decreases block,
{
    match block {
        BlockComponent::Heading(kind) => BlockComponentView::Heading(kind@),
        BlockComponent::Paragraph(kind) => BlockComponentView::Paragraph(kind@),
        BlockComponent::ListItem(kind) => BlockComponentView::ListItem(kind@),
        BlockComponent::List(kind) => BlockComponentView::List(list_view(kind)),
        BlockComponent::BlockQuote(kind) => BlockComponentView::BlockQuote(block_quote_view(kind)),
        BlockComponent::Callout(kind) => BlockComponentView::Callout(callout_view(kind)),
        BlockComponent::Divider(kind) => BlockComponentView::Divider(kind@),
        BlockComponent::Toggle(kind) => BlockComponentView::Toggle(toggle_view(kind)),
        BlockComponent::Bookmark(kind) => BlockComponentView::Bookmark(kind@),
        BlockComponent::File(kind) => BlockComponentView::File(kind@),
        BlockComponent::Image(kind) => BlockComponentView::Image(kind@),
        BlockComponent::CodeBlock(kind) => BlockComponentView::CodeBlock(kind@),
        BlockComponent::Katex(kind) => BlockComponentView::Katex(kind@),
        BlockComponent::Table(kind) => BlockComponentView::Table(table_view(kind)),
        BlockComponent::TableRow(kind) => BlockComponentView::TableRow(table_row_view(kind)),
        BlockComponent::TableCell(kind) => BlockComponentView::TableCell(kind@),
        BlockComponent::ColumnList(kind) => BlockComponentView::ColumnList(column_list_view(kind)),
        BlockComponent::Column(kind) => BlockComponentView::Column(column_view(kind)),
        BlockComponent::Unsupported(kind) => BlockComponentView::Unsupported(kind@),
    }
}

/// The models of a sequence of components, in order.
pub open spec fn components_view(items: Seq<Component>) -> Seq<ComponentView>
    decreases items,
{
    Seq::new(
        items.len(),
        |i: int|
            if 0 <= i < items.len() {
                component_view(items[i])
            } else {
                arbitrary()
            },
    )
}

/// The models of a sequence of components that may be left out.
pub open spec fn opt_components_view(items: Option<Vec<Component>>) -> Option<Seq<ComponentView>>
    decreases items,
{
    match items {
        Some(items) => Some(components_view(items@)),
        None => None,
    }
}

impl View for BlockComponent {
    type V = BlockComponentView;

    open spec fn view(&self) -> BlockComponentView {
        block_view(*self)
    }
}

impl View for Component {
    type V = ComponentView;

    open spec fn view(&self) -> ComponentView {
        component_view(*self)
    }
}

impl Clone for BlockComponent {
    fn clone(&self) -> (block: BlockComponent)
        ensures
            block@ == self@,
        decreases self,
    {
        match self {
            BlockComponent::Heading(kind) => BlockComponent::Heading(kind.clone()),
            BlockComponent::Paragraph(kind) => BlockComponent::Paragraph(kind.clone()),
            BlockComponent::ListItem(kind) => BlockComponent::ListItem(kind.clone()),
            BlockComponent::List(kind) => BlockComponent::List(kind.clone()),
            BlockComponent::BlockQuote(kind) => BlockComponent::BlockQuote(kind.clone()),
            BlockComponent::Callout(kind) => BlockComponent::Callout(kind.clone()),
            BlockComponent::Divider(kind) => BlockComponent::Divider(kind.clone()),
            BlockComponent::Toggle(kind) => BlockComponent::Toggle(kind.clone()),
            BlockComponent::Bookmark(kind) => BlockComponent::Bookmark(kind.clone()),
            BlockComponent::File(kind) => BlockComponent::File(kind.clone()),
            BlockComponent::Image(kind) => BlockComponent::Image(kind.clone()),
            BlockComponent::CodeBlock(kind) => BlockComponent::CodeBlock(kind.clone()),
            BlockComponent::Katex(kind) => BlockComponent::Katex(kind.clone()),
            BlockComponent::Table(kind) => BlockComponent::Table(kind.clone()),
            BlockComponent::TableRow(kind) => BlockComponent::TableRow(kind.clone()),
            BlockComponent::TableCell(kind) => BlockComponent::TableCell(kind.clone()),
            BlockComponent::ColumnList(kind) => BlockComponent::ColumnList(kind.clone()),
            BlockComponent::Column(kind) => BlockComponent::Column(kind.clone()),
            BlockComponent::Unsupported(kind) => BlockComponent::Unsupported(kind.clone()),
        }
    }
}

impl Clone for Component {
    fn clone(&self) -> (component: Component)
        ensures
            component@ == self@,
        decreases self,
    {
        match self {
            Component::InlineComponent(inline) => Component::InlineComponent(inline.clone()),
            Component::BlockComponent(block) => Component::BlockComponent(block.clone()),
        }
    }
}

/// The names of the kinds differ from one another in their length or in
/// their first character.
pub proof fn lemma_tags()
    ensures
        "Text"@.len() == 4,
        "Text"@[0] == 'T',
        "Icon"@.len() == 4,
        "Icon"@[0] == 'I',
        "Heading"@.len() == 7,
        "Heading"@[0] == 'H',
        "Paragraph"@.len() == 9,
        "Paragraph"@[0] == 'P',
        "ListItem"@.len() == 8,
        "ListItem"@[0] == 'L',
        "List"@.len() == 4,
        "List"@[0] == 'L',
        "BlockQuote"@.len() == 10,
        "BlockQuote"@[0] == 'B',
        "Callout"@.len() == 7,
        "Callout"@[0] == 'C',
        "Divider"@.len() == 7,
        "Divider"@[0] == 'D',
        "Toggle"@.len() == 6,
        "Toggle"@[0] == 'T',
        "Bookmark"@.len() == 8,
        "Bookmark"@[0] == 'B',
        "File"@.len() == 4,
        "File"@[0] == 'F',
        "Image"@.len() == 5,
        "Image"@[0] == 'I',
        "CodeBlock"@.len() == 9,
        "CodeBlock"@[0] == 'C',
        "Katex"@.len() == 5,
        "Katex"@[0] == 'K',
        "Table"@.len() == 5,
        "Table"@[0] == 'T',
        "TableRow"@.len() == 8,
        "TableRow"@[0] == 'T',
        "TableCell"@.len() == 9,
        "TableCell"@[0] == 'T',
        "ColumnList"@.len() == 10,
        "ColumnList"@[0] == 'C',
        "Column"@.len() == 6,
        "Column"@[0] == 'C',
        "Unsupported"@.len() == 11,
        "Unsupported"@[0] == 'U',
{
    reveal_strlit("Text");
    reveal_strlit("Icon");
    reveal_strlit("Heading");
    reveal_strlit("Paragraph");
    reveal_strlit("ListItem");
    reveal_strlit("List");
    reveal_strlit("BlockQuote");
    reveal_strlit("Callout");
    reveal_strlit("Divider");
    reveal_strlit("Toggle");
    reveal_strlit("Bookmark");
    reveal_strlit("File");
    reveal_strlit("Image");
    reveal_strlit("CodeBlock");
    reveal_strlit("Katex");
    reveal_strlit("Table");
    reveal_strlit("TableRow");
    reveal_strlit("TableCell");
    reveal_strlit("ColumnList");
    reveal_strlit("Column");
    reveal_strlit("Unsupported");
}

/// Whether a name is the name of a block kind.
pub open spec fn is_block_tag(tag: Seq<char>) -> bool {
        ||| tag == "Heading"@
        ||| tag == "Paragraph"@
        ||| tag == "ListItem"@
        ||| tag == "List"@
        ||| tag == "BlockQuote"@
        ||| tag == "Callout"@
        ||| tag == "Divider"@
        ||| tag == "Toggle"@
        ||| tag == "Bookmark"@
        ||| tag == "File"@
        ||| tag == "Image"@
        ||| tag == "CodeBlock"@
        ||| tag == "Katex"@
        ||| tag == "Table"@
        ||| tag == "TableRow"@
        ||| tag == "TableCell"@
        ||| tag == "ColumnList"@
        ||| tag == "Column"@
        ||| tag == "Unsupported"@
}

/// An object under a name that is not the name of an inline kind is not read
/// as an inline component.
proof fn lemma_tagged_is_not_inline(tag: Seq<char>, object: JsonView)
    requires
        object is Object,
        tag != "Text"@,
        tag != "Icon"@,
    ensures
        InlineComponentView::decoded(tagged(tag, object)) is Err,
{
    lemma_tag_of_tagged(tag, object);
}

/// Reading back the object that a heading was written as, as a block,
/// gives the heading.
proof fn lemma_heading_round_trip(kind: HeadingView)
    ensures
        BlockComponentView::decoded(tagged("Heading"@, kind.encoded())) == Ok::<
            BlockComponentView,
            DecodeErrorView,
        >(BlockComponentView::Heading(kind)),
{
    lemma_tags();
    kind.lemma_round_trip();
    lemma_tag_of_tagged("Heading"@, kind.encoded());
    HeadingView::lemma_decoded_tagged("Heading"@, kind.encoded());
}

/// Reading back the object that a paragraph was written as, as a block,
/// gives the paragraph.
proof fn lemma_paragraph_round_trip(kind: ParagraphView)
    ensures
        BlockComponentView::decoded(tagged("Paragraph"@, kind.encoded())) == Ok::<
            BlockComponentView,
            DecodeErrorView,
        >(BlockComponentView::Paragraph(kind)),
{
    lemma_tags();
    kind.lemma_round_trip();
    lemma_tag_of_tagged("Paragraph"@, kind.encoded());
    ParagraphView::lemma_decoded_tagged("Paragraph"@, kind.encoded());
}

/// Reading back the object that a list item was written as, as a block,
/// gives the list item.
proof fn lemma_list_item_round_trip(kind: ListItemView)
    ensures
        BlockComponentView::decoded(tagged("ListItem"@, kind.encoded())) == Ok::<
            BlockComponentView,
            DecodeErrorView,
        >(BlockComponentView::ListItem(kind)),
{
    lemma_tags();
    kind.lemma_round_trip();
    lemma_tag_of_tagged("ListItem"@, kind.encoded());
    ListItemView::lemma_decoded_tagged("ListItem"@, kind.encoded());
}

/// Reading back the object that a list was written as, as a block,
/// gives the list.
proof fn lemma_list_round_trip(kind: ListView)
    ensures
        BlockComponentView::decoded(tagged("List"@, kind.encoded())) == Ok::<
            BlockComponentView,
            DecodeErrorView,
        >(BlockComponentView::List(kind)),
    decreases kind, 2nat,
{
    lemma_tags();
    kind.lemma_round_trip();
    lemma_tag_of_tagged("List"@, kind.encoded());
    ListView::lemma_decoded_tagged("List"@, kind.encoded());
}

/// Reading back the object that a block quotation was written as, as a block,
/// gives the block quotation.
proof fn lemma_block_quote_round_trip(kind: BlockQuoteView)
    ensures
        BlockComponentView::decoded(tagged("BlockQuote"@, kind.encoded())) == Ok::<
            BlockComponentView,
            DecodeErrorView,
        >(BlockComponentView::BlockQuote(kind)),
    decreases kind, 2nat,
{
    lemma_tags();
    kind.lemma_round_trip();
    lemma_tag_of_tagged("BlockQuote"@, kind.encoded());
    BlockQuoteView::lemma_decoded_tagged("BlockQuote"@, kind.encoded());
}

/// Reading back the object that a callout was written as, as a block,
/// gives the callout.
proof fn lemma_callout_round_trip(kind: CalloutView)
    ensures
        BlockComponentView::decoded(tagged("Callout"@, kind.encoded())) == Ok::<
            BlockComponentView,
            DecodeErrorView,
        >(BlockComponentView::Callout(kind)),
    decreases kind, 2nat,
{
    lemma_tags();
    kind.lemma_round_trip();
    lemma_tag_of_tagged("Callout"@, kind.encoded());
    CalloutView::lemma_decoded_tagged("Callout"@, kind.encoded());
}

/// Reading back the object that a divider was written as, as a block,
/// gives the divider.
proof fn lemma_divider_round_trip(kind: Divider)
    ensures
        BlockComponentView::decoded(tagged("Divider"@, kind.encoded())) == Ok::<
            BlockComponentView,
            DecodeErrorView,
        >(BlockComponentView::Divider(kind)),
{
    lemma_tags();
    kind.lemma_round_trip();
    lemma_tag_of_tagged("Divider"@, kind.encoded());
    Divider::lemma_decoded_tagged("Divider"@, kind.encoded());
}

/// Reading back the object that a toggle was written as, as a block,
/// gives the toggle.
proof fn lemma_toggle_round_trip(kind: ToggleView)
    ensures
        BlockComponentView::decoded(tagged("Toggle"@, kind.encoded())) == Ok::<
            BlockComponentView,
            DecodeErrorView,
        >(BlockComponentView::Toggle(kind)),
    decreases kind, 2nat,
{
    lemma_tags();
    kind.lemma_round_trip();
    lemma_tag_of_tagged("Toggle"@, kind.encoded());
    ToggleView::lemma_decoded_tagged("Toggle"@, kind.encoded());
}

/// Reading back the object that a bookmark was written as, as a block,
/// gives the bookmark.
proof fn lemma_bookmark_round_trip(kind: BookmarkView)
    ensures
        BlockComponentView::decoded(tagged("Bookmark"@, kind.encoded())) == Ok::<
            BlockComponentView,
            DecodeErrorView,
        >(BlockComponentView::Bookmark(kind)),
{
    lemma_tags();
    kind.lemma_round_trip();
    lemma_tag_of_tagged("Bookmark"@, kind.encoded());
    BookmarkView::lemma_decoded_tagged("Bookmark"@, kind.encoded());
}

/// Reading back the object that a file was written as, as a block,
/// gives the file.
proof fn lemma_file_round_trip(kind: FileView)
    ensures
        BlockComponentView::decoded(tagged("File"@, kind.encoded())) == Ok::<
            BlockComponentView,
            DecodeErrorView,
        >(BlockComponentView::File(kind)),
{
    lemma_tags();
    kind.lemma_round_trip();
    lemma_tag_of_tagged("File"@, kind.encoded());
    FileView::lemma_decoded_tagged("File"@, kind.encoded());
}

/// Reading back the object that an image was written as, as a block,
/// gives the image.
proof fn lemma_image_round_trip(kind: ImageView)
    ensures
        BlockComponentView::decoded(tagged("Image"@, kind.encoded())) == Ok::<
            BlockComponentView,
            DecodeErrorView,
        >(BlockComponentView::Image(kind)),
{
    lemma_tags();
    kind.lemma_round_trip();
    lemma_tag_of_tagged("Image"@, kind.encoded());
    ImageView::lemma_decoded_tagged("Image"@, kind.encoded());
}

/// Reading back the object that a block of code was written as, as a block,
/// gives the block of code.
proof fn lemma_code_block_round_trip(kind: CodeBlockView)
    ensures
        BlockComponentView::decoded(tagged("CodeBlock"@, kind.encoded())) == Ok::<
            BlockComponentView,
            DecodeErrorView,
        >(BlockComponentView::CodeBlock(kind)),
{
    lemma_tags();
    kind.lemma_round_trip();
    lemma_tag_of_tagged("CodeBlock"@, kind.encoded());
    CodeBlockView::lemma_decoded_tagged("CodeBlock"@, kind.encoded());
}

/// Reading back the object that a KaTeX block was written as, as a block,
/// gives the KaTeX block.
proof fn lemma_katex_round_trip(kind: KatexView)
    ensures
        BlockComponentView::decoded(tagged("Katex"@, kind.encoded())) == Ok::<
            BlockComponentView,
            DecodeErrorView,
        >(BlockComponentView::Katex(kind)),
{
    lemma_tags();
    kind.lemma_round_trip();
    lemma_tag_of_tagged("Katex"@, kind.encoded());
    KatexView::lemma_decoded_tagged("Katex"@, kind.encoded());
}

/// Reading back the object that a table was written as, as a block,
/// gives the table.
proof fn lemma_table_round_trip(kind: TableView)
    ensures
        BlockComponentView::decoded(tagged("Table"@, kind.encoded())) == Ok::<
            BlockComponentView,
            DecodeErrorView,
        >(BlockComponentView::Table(kind)),
    decreases kind, 2nat,
{
    lemma_tags();
    kind.lemma_round_trip();
    lemma_tag_of_tagged("Table"@, kind.encoded());
    TableView::lemma_decoded_tagged("Table"@, kind.encoded());
}

/// Reading back the object that a table row was written as, as a block,
/// gives the table row.
proof fn lemma_table_row_round_trip(kind: TableRowView)
    ensures
        BlockComponentView::decoded(tagged("TableRow"@, kind.encoded())) == Ok::<
            BlockComponentView,
            DecodeErrorView,
        >(BlockComponentView::TableRow(kind)),
    decreases kind, 2nat,
{
    lemma_tags();
    kind.lemma_round_trip();
    lemma_tag_of_tagged("TableRow"@, kind.encoded());
    TableRowView::lemma_decoded_tagged("TableRow"@, kind.encoded());
}

/// Reading back the object that a table cell was written as, as a block,
/// gives the table cell.
proof fn lemma_table_cell_round_trip(kind: TableCellView)
    ensures
        BlockComponentView::decoded(tagged("TableCell"@, kind.encoded())) == Ok::<
            BlockComponentView,
            DecodeErrorView,
        >(BlockComponentView::TableCell(kind)),
{
    lemma_tags();
    kind.lemma_round_trip();
    lemma_tag_of_tagged("TableCell"@, kind.encoded());
    TableCellView::lemma_decoded_tagged("TableCell"@, kind.encoded());
}

/// Reading back the object that a column list was written as, as a block,
/// gives the column list.
proof fn lemma_column_list_round_trip(kind: ColumnListView)
    ensures
        BlockComponentView::decoded(tagged("ColumnList"@, kind.encoded())) == Ok::<
            BlockComponentView,
            DecodeErrorView,
        >(BlockComponentView::ColumnList(kind)),
    decreases kind, 2nat,
{
    lemma_tags();
    kind.lemma_round_trip();
    lemma_tag_of_tagged("ColumnList"@, kind.encoded());
    ColumnListView::lemma_decoded_tagged("ColumnList"@, kind.encoded());
}

/// Reading back the object that a column was written as, as a block,
/// gives the column.
proof fn lemma_column_round_trip(kind: ColumnView)
    ensures
        BlockComponentView::decoded(tagged("Column"@, kind.encoded())) == Ok::<
            BlockComponentView,
            DecodeErrorView,
        >(BlockComponentView::Column(kind)),
    decreases kind, 2nat,
{
    lemma_tags();
    kind.lemma_round_trip();
    lemma_tag_of_tagged("Column"@, kind.encoded());
    ColumnView::lemma_decoded_tagged("Column"@, kind.encoded());
}

/// Reading back the object that an unsupported part was written as, as a block,
/// gives the unsupported part.
proof fn lemma_unsupported_round_trip(kind: UnsupportedView)
    ensures
        BlockComponentView::decoded(tagged("Unsupported"@, kind.encoded())) == Ok::<
            BlockComponentView,
            DecodeErrorView,
        >(BlockComponentView::Unsupported(kind)),
{
    lemma_tags();
    kind.lemma_round_trip();
    lemma_tag_of_tagged("Unsupported"@, kind.encoded());
    UnsupportedView::lemma_decoded_tagged("Unsupported"@, kind.encoded());
}

impl BlockComponentView {
    /// The object that the block is written as: the object of its kind with
    /// the name of the kind under `type`.
    pub open spec fn encoded(self) -> JsonView
        decreases self, 0nat,
    {
        match self {
            BlockComponentView::Heading(kind) => tagged("Heading"@, kind.encoded()),
            BlockComponentView::Paragraph(kind) => tagged("Paragraph"@, kind.encoded()),
            BlockComponentView::ListItem(kind) => tagged("ListItem"@, kind.encoded()),
            BlockComponentView::List(kind) => tagged("List"@, kind.encoded()),
            BlockComponentView::BlockQuote(kind) => tagged("BlockQuote"@, kind.encoded()),
            BlockComponentView::Callout(kind) => tagged("Callout"@, kind.encoded()),
            BlockComponentView::Divider(kind) => tagged("Divider"@, kind.encoded()),
            BlockComponentView::Toggle(kind) => tagged("Toggle"@, kind.encoded()),
            BlockComponentView::Bookmark(kind) => tagged("Bookmark"@, kind.encoded()),
            BlockComponentView::File(kind) => tagged("File"@, kind.encoded()),
            BlockComponentView::Image(kind) => tagged("Image"@, kind.encoded()),
            BlockComponentView::CodeBlock(kind) => tagged("CodeBlock"@, kind.encoded()),
            BlockComponentView::Katex(kind) => tagged("Katex"@, kind.encoded()),
            BlockComponentView::Table(kind) => tagged("Table"@, kind.encoded()),
            BlockComponentView::TableRow(kind) => tagged("TableRow"@, kind.encoded()),
            BlockComponentView::TableCell(kind) => tagged("TableCell"@, kind.encoded()),
            BlockComponentView::ColumnList(kind) => tagged("ColumnList"@, kind.encoded()),
            BlockComponentView::Column(kind) => tagged("Column"@, kind.encoded()),
            BlockComponentView::Unsupported(kind) => tagged("Unsupported"@, kind.encoded()),
        }
    }

    /// The block that a value is read as: the `type` member picks the kind,
    /// and a name that is not the name of a block kind is an unknown tag.
    pub open spec fn decoded(json: JsonView) -> Result<BlockComponentView, DecodeErrorView>
        decreases json, 2nat,
    {
        match tag_of(json) {
            Err(e) => Err(e),
            Ok(tag) => if tag == "Heading"@ {
                match HeadingView::decoded(json) {
                    Ok(kind) => Ok(BlockComponentView::Heading(kind)),
                    Err(e) => Err(e),
                }
            } else if tag == "Paragraph"@ {
                match ParagraphView::decoded(json) {
                    Ok(kind) => Ok(BlockComponentView::Paragraph(kind)),
                    Err(e) => Err(e),
                }
            } else if tag == "ListItem"@ {
                match ListItemView::decoded(json) {
                    Ok(kind) => Ok(BlockComponentView::ListItem(kind)),
                    Err(e) => Err(e),
                }
            } else if tag == "List"@ {
                match ListView::decoded(json) {
                    Ok(kind) => Ok(BlockComponentView::List(kind)),
                    Err(e) => Err(e),
                }
            } else if tag == "BlockQuote"@ {
                match BlockQuoteView::decoded(json) {
                    Ok(kind) => Ok(BlockComponentView::BlockQuote(kind)),
                    Err(e) => Err(e),
                }
            } else if tag == "Callout"@ {
                match CalloutView::decoded(json) {
                    Ok(kind) => Ok(BlockComponentView::Callout(kind)),
                    Err(e) => Err(e),
                }
            } else if tag == "Divider"@ {
                match Divider::decoded(json) {
                    Ok(kind) => Ok(BlockComponentView::Divider(kind)),
                    Err(e) => Err(e),
                }
            } else if tag == "Toggle"@ {
                match ToggleView::decoded(json) {
                    Ok(kind) => Ok(BlockComponentView::Toggle(kind)),
                    Err(e) => Err(e),
                }
            } else if tag == "Bookmark"@ {
                match BookmarkView::decoded(json) {
                    Ok(kind) => Ok(BlockComponentView::Bookmark(kind)),
                    Err(e) => Err(e),
                }
            } else if tag == "File"@ {
                match FileView::decoded(json) {
                    Ok(kind) => Ok(BlockComponentView::File(kind)),
                    Err(e) => Err(e),
                }
            } else if tag == "Image"@ {
                match ImageView::decoded(json) {
                    Ok(kind) => Ok(BlockComponentView::Image(kind)),
                    Err(e) => Err(e),
                }
            } else if tag == "CodeBlock"@ {
                match CodeBlockView::decoded(json) {
                    Ok(kind) => Ok(BlockComponentView::CodeBlock(kind)),
                    Err(e) => Err(e),
                }
            } else if tag == "Katex"@ {
                match KatexView::decoded(json) {
                    Ok(kind) => Ok(BlockComponentView::Katex(kind)),
                    Err(e) => Err(e),
                }
            } else if tag == "Table"@ {
                match TableView::decoded(json) {
                    Ok(kind) => Ok(BlockComponentView::Table(kind)),
                    Err(e) => Err(e),
                }
            } else if tag == "TableRow"@ {
                match TableRowView::decoded(json) {
                    Ok(kind) => Ok(BlockComponentView::TableRow(kind)),
                    Err(e) => Err(e),
                }
            } else if tag == "TableCell"@ {
                match TableCellView::decoded(json) {
                    Ok(kind) => Ok(BlockComponentView::TableCell(kind)),
                    Err(e) => Err(e),
                }
            } else if tag == "ColumnList"@ {
                match ColumnListView::decoded(json) {
                    Ok(kind) => Ok(BlockComponentView::ColumnList(kind)),
                    Err(e) => Err(e),
                }
            } else if tag == "Column"@ {
                match ColumnView::decoded(json) {
                    Ok(kind) => Ok(BlockComponentView::Column(kind)),
                    Err(e) => Err(e),
                }
            } else if tag == "Unsupported"@ {
                match UnsupportedView::decoded(json) {
                    Ok(kind) => Ok(BlockComponentView::Unsupported(kind)),
                    Err(e) => Err(e),
                }
            } else {
                Err(DecodeErrorView::UnknownTag(tag))
            },
        }
    }

    /// Reading back the object that the block was written as gives the
    /// block.
    pub proof fn lemma_round_trip(self)
        ensures
            BlockComponentView::decoded(self.encoded()) == Ok::<
                BlockComponentView,
                DecodeErrorView,
            >(self),
        decreases self, 2nat,
    {
        lemma_tags();
        match self {
            BlockComponentView::Heading(kind) => lemma_heading_round_trip(kind),
            BlockComponentView::Paragraph(kind) => lemma_paragraph_round_trip(kind),
            BlockComponentView::ListItem(kind) => lemma_list_item_round_trip(kind),
            BlockComponentView::List(kind) => lemma_list_round_trip(kind),
            BlockComponentView::BlockQuote(kind) => lemma_block_quote_round_trip(kind),
            BlockComponentView::Callout(kind) => lemma_callout_round_trip(kind),
            BlockComponentView::Divider(kind) => lemma_divider_round_trip(kind),
            BlockComponentView::Toggle(kind) => lemma_toggle_round_trip(kind),
            BlockComponentView::Bookmark(kind) => lemma_bookmark_round_trip(kind),
            BlockComponentView::File(kind) => lemma_file_round_trip(kind),
            BlockComponentView::Image(kind) => lemma_image_round_trip(kind),
            BlockComponentView::CodeBlock(kind) => lemma_code_block_round_trip(kind),
            BlockComponentView::Katex(kind) => lemma_katex_round_trip(kind),
            BlockComponentView::Table(kind) => lemma_table_round_trip(kind),
            BlockComponentView::TableRow(kind) => lemma_table_row_round_trip(kind),
            BlockComponentView::TableCell(kind) => lemma_table_cell_round_trip(kind),
            BlockComponentView::ColumnList(kind) => lemma_column_list_round_trip(kind),
            BlockComponentView::Column(kind) => lemma_column_round_trip(kind),
            BlockComponentView::Unsupported(kind) => lemma_unsupported_round_trip(kind),
        }
    }

    /// What a block is written as is not read as an inline component: the
    /// name under `type` is not the name of an inline kind.
    pub proof fn lemma_encoded_is_not_inline(self)
        ensures
            InlineComponentView::decoded(self.encoded()) is Err,
    {
        lemma_tags();
        match self {
            BlockComponentView::Heading(kind) => {
                lemma_tagged_is_not_inline("Heading"@, kind.encoded());
            },
            BlockComponentView::Paragraph(kind) => {
                lemma_tagged_is_not_inline("Paragraph"@, kind.encoded());
            },
            BlockComponentView::ListItem(kind) => {
                lemma_tagged_is_not_inline("ListItem"@, kind.encoded());
            },
            BlockComponentView::List(kind) => {
                lemma_tagged_is_not_inline("List"@, kind.encoded());
            },
            BlockComponentView::BlockQuote(kind) => {
                lemma_tagged_is_not_inline("BlockQuote"@, kind.encoded());
            },
            BlockComponentView::Callout(kind) => {
                lemma_tagged_is_not_inline("Callout"@, kind.encoded());
            },
            BlockComponentView::Divider(kind) => {
                lemma_tagged_is_not_inline("Divider"@, kind.encoded());
            },
            BlockComponentView::Toggle(kind) => {
                lemma_tagged_is_not_inline("Toggle"@, kind.encoded());
            },
            BlockComponentView::Bookmark(kind) => {
                lemma_tagged_is_not_inline("Bookmark"@, kind.encoded());
            },
            BlockComponentView::File(kind) => {
                lemma_tagged_is_not_inline("File"@, kind.encoded());
            },
            BlockComponentView::Image(kind) => {
                lemma_tagged_is_not_inline("Image"@, kind.encoded());
            },
            BlockComponentView::CodeBlock(kind) => {
                lemma_tagged_is_not_inline("CodeBlock"@, kind.encoded());
            },
            BlockComponentView::Katex(kind) => {
                lemma_tagged_is_not_inline("Katex"@, kind.encoded());
            },
            BlockComponentView::Table(kind) => {
                lemma_tagged_is_not_inline("Table"@, kind.encoded());
            },
            BlockComponentView::TableRow(kind) => {
                lemma_tagged_is_not_inline("TableRow"@, kind.encoded());
            },
            BlockComponentView::TableCell(kind) => {
                lemma_tagged_is_not_inline("TableCell"@, kind.encoded());
            },
            BlockComponentView::ColumnList(kind) => {
                lemma_tagged_is_not_inline("ColumnList"@, kind.encoded());
            },
            BlockComponentView::Column(kind) => {
                lemma_tagged_is_not_inline("Column"@, kind.encoded());
            },
            BlockComponentView::Unsupported(kind) => {
                lemma_tagged_is_not_inline("Unsupported"@, kind.encoded());
            },
        }
    }
}

impl BlockComponent {
    /// Writes the block as an object with its `type` member, from which it
    /// can be read back.
    pub fn encode(&self) -> (json: Json)
        ensures
            json@ == self@.encoded(),
            BlockComponentView::decoded(json@) == Ok::<BlockComponentView, DecodeErrorView>(
                self@,
            ),
        decreases self, 0nat,
    {
        proof {
            self@.lemma_round_trip();
        }
        match self {
            BlockComponent::Heading(kind) => with_tag("Heading", kind.encode()),
            BlockComponent::Paragraph(kind) => with_tag("Paragraph", kind.encode()),
            BlockComponent::ListItem(kind) => with_tag("ListItem", kind.encode()),
            BlockComponent::List(kind) => with_tag("List", kind.encode()),
            BlockComponent::BlockQuote(kind) => with_tag("BlockQuote", kind.encode()),
            BlockComponent::Callout(kind) => with_tag("Callout", kind.encode()),
            BlockComponent::Divider(kind) => with_tag("Divider", kind.encode()),
            BlockComponent::Toggle(kind) => with_tag("Toggle", kind.encode()),
            BlockComponent::Bookmark(kind) => with_tag("Bookmark", kind.encode()),
            BlockComponent::File(kind) => with_tag("File", kind.encode()),
            BlockComponent::Image(kind) => with_tag("Image", kind.encode()),
            BlockComponent::CodeBlock(kind) => with_tag("CodeBlock", kind.encode()),
            BlockComponent::Katex(kind) => with_tag("Katex", kind.encode()),
            BlockComponent::Table(kind) => with_tag("Table", kind.encode()),
            BlockComponent::TableRow(kind) => with_tag("TableRow", kind.encode()),
            BlockComponent::TableCell(kind) => with_tag("TableCell", kind.encode()),
            BlockComponent::ColumnList(kind) => with_tag("ColumnList", kind.encode()),
            BlockComponent::Column(kind) => with_tag("Column", kind.encode()),
            BlockComponent::Unsupported(kind) => with_tag("Unsupported", kind.encode()),
        }
    }

    /// Reads the block from an object with a `type` member.
    pub fn decode(json: &Json) -> (r: Result<BlockComponent, DecodeError>)
        ensures
            result_view(r) == BlockComponentView::decoded(json@),
        decreases json@, 2nat,
    {
        let tag = read_tag(json)?;
        if same(tag.as_str(), "Heading") {
            Ok(BlockComponent::Heading(Heading::decode(json)?))
        } else if same(tag.as_str(), "Paragraph") {
            Ok(BlockComponent::Paragraph(Paragraph::decode(json)?))
        } else if same(tag.as_str(), "ListItem") {
            Ok(BlockComponent::ListItem(ListItem::decode(json)?))
        } else if same(tag.as_str(), "List") {
            Ok(BlockComponent::List(List::decode(json)?))
        } else if same(tag.as_str(), "BlockQuote") {
            Ok(BlockComponent::BlockQuote(BlockQuote::decode(json)?))
        } else if same(tag.as_str(), "Callout") {
            Ok(BlockComponent::Callout(Callout::decode(json)?))
        } else if same(tag.as_str(), "Divider") {
            Ok(BlockComponent::Divider(Divider::decode(json)?))
        } else if same(tag.as_str(), "Toggle") {
            Ok(BlockComponent::Toggle(Toggle::decode(json)?))
        } else if same(tag.as_str(), "Bookmark") {
            Ok(BlockComponent::Bookmark(Bookmark::decode(json)?))
        } else if same(tag.as_str(), "File") {
            Ok(BlockComponent::File(File::decode(json)?))
        } else if same(tag.as_str(), "Image") {
            Ok(BlockComponent::Image(Image::decode(json)?))
        } else if same(tag.as_str(), "CodeBlock") {
            Ok(BlockComponent::CodeBlock(CodeBlock::decode(json)?))
        } else if same(tag.as_str(), "Katex") {
            Ok(BlockComponent::Katex(Katex::decode(json)?))
        } else if same(tag.as_str(), "Table") {
            Ok(BlockComponent::Table(Table::decode(json)?))
        } else if same(tag.as_str(), "TableRow") {
            Ok(BlockComponent::TableRow(TableRow::decode(json)?))
        } else if same(tag.as_str(), "TableCell") {
            Ok(BlockComponent::TableCell(TableCell::decode(json)?))
        } else if same(tag.as_str(), "ColumnList") {
            Ok(BlockComponent::ColumnList(ColumnList::decode(json)?))
        } else if same(tag.as_str(), "Column") {
            Ok(BlockComponent::Column(Column::decode(json)?))
        } else if same(tag.as_str(), "Unsupported") {
            Ok(BlockComponent::Unsupported(Unsupported::decode(json)?))
        } else {
            Err(DecodeError::UnknownTag(tag))
        }
    }
}

impl ComponentView {
    /// Whether the component is set within running text.
    pub open spec fn inline(self) -> bool {
        self is InlineComponent
    }

    /// The object that the component is written as: nothing tells on the
    /// wire which of the two it is but the object itself.
    pub open spec fn encoded(self) -> JsonView
        decreases self, 0nat,
    {
        match self {
            ComponentView::InlineComponent(inline) => inline.encoded(),
            ComponentView::BlockComponent(block) => block.encoded(),
        }
    }

    /// The component that a value is read as: an inline component where the
    /// value can be read as one, else a block where it can be read as one;
    /// where it can be read as neither, no variant matches.
    pub open spec fn decoded(json: JsonView) -> Result<ComponentView, DecodeErrorView>
        decreases json, 3nat,
    {
        match InlineComponentView::decoded(json) {
            Ok(inline) => Ok(ComponentView::InlineComponent(inline)),
            Err(_) => match BlockComponentView::decoded(json) {
                Ok(block) => Ok(ComponentView::BlockComponent(block)),
                Err(_) => Err(DecodeErrorView::NoMatchingVariant),
            },
        }
    }

    /// Reading back the object that the component was written as gives the
    /// component.
    pub proof fn lemma_round_trip(self)
        ensures
            ComponentView::decoded(self.encoded()) == Ok::<ComponentView, DecodeErrorView>(self),
        decreases self, 3nat,
    {
        match self {
            ComponentView::InlineComponent(inline) => {
                inline.lemma_round_trip();
            },
            ComponentView::BlockComponent(block) => {
                block.lemma_encoded_is_not_inline();
                block.lemma_round_trip();
            },
        }
    }
}

impl Component {
    /// Whether the component is set within running text.
    pub fn inline(&self) -> (inline: bool)
        ensures
            inline == self@.inline(),
    {
        match self {
            Component::InlineComponent(_) => true,
            Component::BlockComponent(_) => false,
        }
    }

    /// Writes the component as an object, from which it can be read back.
    pub fn encode(&self) -> (json: Json)
        ensures
            json@ == self@.encoded(),
            ComponentView::decoded(json@) == Ok::<ComponentView, DecodeErrorView>(self@),
        decreases self, 0nat,
    {
        proof {
            self@.lemma_round_trip();
        }
        match self {
            Component::InlineComponent(inline) => inline.encode(),
            Component::BlockComponent(block) => block.encode(),
        }
    }

    /// Reads the component from an object.
    pub fn decode(json: &Json) -> (r: Result<Component, DecodeError>)
        ensures
            result_view(r) == ComponentView::decoded(json@),
        decreases json@, 3nat,
    {
        match InlineComponent::decode(json) {
            Ok(inline) => Ok(Component::InlineComponent(inline)),
            Err(_) => match BlockComponent::decode(json) {
                Ok(block) => Ok(Component::BlockComponent(block)),
                Err(_) => Err(DecodeError::NoMatchingVariant),
            },
        }
    }

    /// Reads the component from an object in which arrays and objects are
    /// nested at most `limit` deep, and reads nothing from a value in which
    /// they are nested deeper.
    pub fn decode_within(json: &Json, limit: usize) -> (r: Option<Result<Component, DecodeError>>)
        ensures
            match r {
                Some(read) => nests_within(json@, limit as nat) && result_view(read)
                    == ComponentView::decoded(json@),
                None => !nests_within(json@, limit as nat),
            },
    {
        if json.nests_within(limit) {
            Some(Component::decode(json))
        } else {
            None
        }
    }
}

/// The array items that a sequence of components is written as, in order.
pub open spec fn encoded_components(items: Seq<ComponentView>) -> Seq<JsonView>
    decreases items, 0nat,
{
    Seq::new(
        items.len(),
        |i: int|
            if 0 <= i < items.len() {
                items[i].encoded()
            } else {
                JsonView::Null
            },
    )
}

/// The sequence of components that the items of an array are read as: the
/// items are read in order, and the first failure is the result.
pub open spec fn decoded_components(items: Seq<JsonView>) -> Result<
    Seq<ComponentView>,
    DecodeErrorView,
>
    decreases items, 0nat,
{
    if items.len() == 0 {
        Ok(Seq::empty())
    } else {
        match decoded_components(items.drop_last()) {
            Err(e) => Err(e),
            Ok(front) => match ComponentView::decoded(items.last()) {
                Err(e) => Err(e),
                Ok(last) => Ok(front.push(last)),
            },
        }
    }
}

/// What stands for a slot of components: always an array, even when the slot
/// holds nothing.
pub open spec fn components_value(items: Seq<ComponentView>) -> Option<JsonView>
    decreases items, 1nat,
{
    Some(JsonView::Array(encoded_components(items)))
}

/// What stands for a slot of components that may be left out: an array where
/// the slot is there.
pub open spec fn opt_components_value(items: Option<Seq<ComponentView>>) -> Option<JsonView>
    decreases items, 1nat,
{
    match items {
        Some(items) => Some(JsonView::Array(encoded_components(items))),
        None => None,
    }
}

/// A slot of components as it is read: the member must be there and be an
/// array, and each of its items must be a component.
pub open spec fn components_at(members: Members, key: Seq<char>) -> Result<
    Seq<ComponentView>,
    DecodeErrorView,
>
    decreases members, 1nat,
{
    match required_array(members, key) {
        Err(e) => Err(e),
        Ok(items) => {
            proof {
                lemma_array_decreases(members, key);
            }
            decoded_components(items)
        },
    }
}

/// A slot of components that may be left out as it is read: absent or `null`
/// reads as no slot; an array reads as for a slot that must be there.
pub open spec fn opt_components_at(members: Members, key: Seq<char>) -> Result<
    Option<Seq<ComponentView>>,
    DecodeErrorView,
>
    decreases members, 1nat,
{
    match optional_array(members, key) {
        Err(e) => Err(e),
        Ok(None) => Ok(None),
        Ok(Some(items)) => {
            proof {
                lemma_array_decreases(members, key);
            }
            match decoded_components(items) {
                Err(e) => Err(e),
                Ok(read) => Ok(Some(read)),
            }
        },
    }
}

/// Reading back the items that a sequence was written as gives the sequence.
pub proof fn lemma_components_round_trip(items: Seq<ComponentView>)
    ensures
        decoded_components(encoded_components(items)) == Ok::<Seq<ComponentView>, DecodeErrorView>(
            items,
        ),
    decreases items, 0nat,
{
    if items.len() != 0 {
        lemma_components_round_trip(items.drop_last());
        items.last().lemma_round_trip();
        assert(encoded_components(items).drop_last() == encoded_components(items.drop_last()));
        assert(items.drop_last().push(items.last()) == items);
    } else {
        assert(items == Seq::<ComponentView>::empty());
    }
}

/// Reading back the items that a sequence that may be left out was written
/// as gives the sequence.
pub proof fn lemma_opt_components_round_trip(items: Option<Seq<ComponentView>>)
    ensures
        items matches Some(items) ==> decoded_components(encoded_components(items)) == Ok::<
            Seq<ComponentView>,
            DecodeErrorView,
        >(items),
    decreases items, 0nat,
{
    if let Some(items) = items {
        lemma_components_round_trip(items);
    }
}

/// Once the first `n` items of an array have failed to be read, the array as
/// a whole fails in the same way.
pub proof fn lemma_decoded_components_fails(items: Seq<JsonView>, n: int)
    requires
        0 <= n <= items.len(),
        decoded_components(items.take(n)) is Err,
    ensures
        decoded_components(items) == decoded_components(items.take(n)),
    decreases items.len() - n,
{
    if n < items.len() {
        assert(items.take(n + 1).drop_last() == items.take(n));
        lemma_decoded_components_fails(items, n + 1);
    } else {
        assert(items.take(n) == items);
    }
}

/// A copy of a sequence of components.
#[verifier::loop_isolation(false)]
pub fn clone_components(items: &Vec<Component>) -> (copy: Vec<Component>)
    ensures
        components_view(copy@) == components_view(items@),
    decreases items,
{
    let mut copy: Vec<Component> = Vec::new();
    let mut i: usize = 0;
    while i < items.len()
        invariant
            i <= items.len(),
            copy@.len() == i,
            forall|j: int| 0 <= j < i ==> (#[trigger] copy@[j])@ == items@[j]@,
        decreases items.len() - i,
    {
        copy.push(items[i].clone());
        i += 1;
    }
    assert(components_view(copy@) =~= components_view(items@));
    copy
}

/// A copy of a sequence of components that may be left out.
pub fn clone_opt_components(items: &Option<Vec<Component>>) -> (copy: Option<Vec<Component>>)
    ensures
        opt_components_view(copy) == opt_components_view(*items),
    decreases items,
{
    match items {
        Some(items) => Some(clone_components(items)),
        None => None,
    }
}

/// Writes a sequence of components as the items of an array, from which it
/// can be read back.
#[verifier::loop_isolation(false)]
pub fn encode_components(items: &Vec<Component>) -> (array: Vec<Json>)
    ensures
        items_view(array@) == encoded_components(components_view(items@)),
        decoded_components(items_view(array@)) == Ok::<Seq<ComponentView>, DecodeErrorView>(
            components_view(items@),
        ),
    decreases items, 0nat,
{
    proof {
        lemma_components_round_trip(components_view(items@));
    }
    let mut array: Vec<Json> = Vec::new();
    let mut i: usize = 0;
    while i < items.len()
        invariant
            i <= items.len(),
            array@.len() == i,
            forall|j: int| 0 <= j < i ==> (#[trigger] array@[j])@ == items@[j]@.encoded(),
        decreases items.len() - i,
    {
        array.push(items[i].encode());
        i += 1;
    }
    assert(items_view(array@) =~= encoded_components(components_view(items@)));
    array
}

/// Reads the items of an array as a sequence of components.
#[verifier::loop_isolation(false)]
pub fn decode_components(items: &Vec<Json>) -> (r: Result<Vec<Component>, DecodeError>)
    ensures
        result_map(r, |read: Vec<Component>| components_view(read@)) == decoded_components(
            items_view(items@),
        ),
    decreases items_view(items@), 0nat,
{
    let ghost all = items_view(items@);
    let mut read: Vec<Component> = Vec::new();
    let mut i: usize = 0;
    assert(components_view(read@) =~= Seq::empty());
    while i < items.len()
        invariant
            i <= items.len(),
            all == items_view(items@),
            decoded_components(all.take(i as int)) == Ok::<Seq<ComponentView>, DecodeErrorView>(
                components_view(read@),
            ),
        decreases items.len() - i,
    {
        let ghost before = components_view(read@);
        assert(all.take(i + 1).drop_last() == all.take(i as int));
        assert(all.take(i + 1).last() == items@[i as int]@);
        assert(all[i as int] == items@[i as int]@);
        match Component::decode(&items[i]) {
            Err(e) => {
                proof {
                    lemma_decoded_components_fails(all, i + 1);
                }
                return Err(e);
            },
            Ok(component) => {
                read.push(component);
                assert(components_view(read@) =~= before.push(component@));
            },
        }
        i += 1;
    }
    assert(all.take(i as int) == all);
    Ok(read)
}

/// Appends a slot of components to a member list.
pub fn put_components(members: &mut Vec<(String, Json)>, key: &str, items: &Vec<Component>)
    ensures
        members_view(final(members)@) == members_view(old(members)@) + field(
            key@,
            components_value(components_view(items@)),
        ),
    decreases items, 1nat,
{
    put(members, key, Json::Array(encode_components(items)));
}

/// Appends a slot of components that may be left out to a member list.
pub fn put_opt_components(
    members: &mut Vec<(String, Json)>,
    key: &str,
    items: &Option<Vec<Component>>,
)
    ensures
        members_view(final(members)@) == members_view(old(members)@) + field(
            key@,
            opt_components_value(opt_components_view(*items)),
        ),
    decreases items, 1nat,
{
    match items {
        Some(items) => put(members, key, Json::Array(encode_components(items))),
        None => skip(members, key),
    }
}

/// Reads a slot of components from a member list.
pub fn read_components(members: &Vec<(String, Json)>, key: &str) -> (r: Result<
    Vec<Component>,
    DecodeError,
>)
    ensures
        result_map(r, |read: Vec<Component>| components_view(read@)) == components_at(
            members_view(members@),
            key@,
        ),
    decreases members_view(members@), 1nat,
{
    let items = read_array(members, key)?;
    proof {
        lemma_array_decreases(members_view(members@), key@);
    }
    decode_components(items)
}

/// Reads a slot of components that may be left out from a member list.
pub fn read_opt_components(members: &Vec<(String, Json)>, key: &str) -> (r: Result<
    Option<Vec<Component>>,
    DecodeError,
>)
    ensures
        result_map(r, |read: Option<Vec<Component>>| opt_components_view(read))
            == opt_components_at(members_view(members@), key@),
    decreases members_view(members@), 1nat,
{
    match read_opt_array(members, key)? {
        None => Ok(None),
        Some(items) => {
            proof {
                lemma_array_decreases(members_view(members@), key@);
            }
            Ok(Some(decode_components(items)?))
        },
    }
}

/// The array that a document, a sequence of root components, is written as.
pub open spec fn encoded_document(components: Seq<ComponentView>) -> JsonView {
    JsonView::Array(encoded_components(components))
}

/// The document that a value is read as: the value must be an array, and
/// each of its items must be a component.
pub open spec fn decoded_document(json: JsonView) -> Result<Seq<ComponentView>, DecodeErrorView> {
    match json {
        JsonView::Array(items) => decoded_components(items),
        _ => Err(DecodeErrorView::TypeMismatch),
    }
}

/// Writes a document as an array, from which it can be read back.
pub fn encode_document(components: &Vec<Component>) -> (json: Json)
    ensures
        json@ == encoded_document(components_view(components@)),
        decoded_document(json@) == Ok::<Seq<ComponentView>, DecodeErrorView>(
            components_view(components@),
        ),
{
    Json::Array(encode_components(components))
}

/// Reads a document from an array.
pub fn decode_document(json: &Json) -> (r: Result<Vec<Component>, DecodeError>)
    ensures
        result_map(r, |read: Vec<Component>| components_view(read@)) == decoded_document(json@),
{
    match json {
        Json::Array(items) => decode_components(items),
        _ => Err(DecodeError::TypeMismatch),
    }
}

/// Reads a document from an array in which arrays and objects are nested at
/// most `limit` deep, the array of the document itself counted, and reads
/// nothing from a value in which they are nested deeper.
pub fn decode_document_within(json: &Json, limit: usize) -> (r: Option<
    Result<Vec<Component>, DecodeError>,
>)
    ensures
        match r {
            Some(read) => nests_within(json@, limit as nat) && result_map(
                read,
                |read: Vec<Component>| components_view(read@),
            ) == decoded_document(json@),
            None => !nests_within(json@, limit as nat),
        },
{
    if json.nests_within(limit) {
        Some(decode_document(json))
    } else {
        None
    }
}

} // verus!
