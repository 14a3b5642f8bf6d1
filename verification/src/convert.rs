//! Each kind of component taken as a member of its union, and as a component.

use crate::component::{BlockComponent, Component};
use crate::container::{
    BlockQuote, Callout, Column, ColumnList, List, Table, TableRow, Toggle,
};
use crate::inline::{Icon, InlineComponent, Text};
use crate::leaf::{
    Bookmark, CodeBlock, Divider, File, Heading, Image, Katex, ListItem, Paragraph, TableCell,
    Unsupported,
};
use vstd::prelude::*;
use vstd::std_specs::convert::FromSpecImpl;

verus! {

impl From<Text> for InlineComponent {
    /// The run of text, as an inline component.
    fn from(kind: Text) -> (component: InlineComponent)
        ensures
            component == InlineComponent::Text(kind),
    {
        InlineComponent::Text(kind)
    }
}

impl FromSpecImpl<Text> for InlineComponent {
    open spec fn obeys_from_spec() -> bool {
        true
    }

    open spec fn from_spec(kind: Text) -> InlineComponent {
        InlineComponent::Text(kind)
    }
}

impl From<Text> for Component {
    /// The run of text, as a component.
    fn from(kind: Text) -> (component: Component)
        ensures
            component == Component::InlineComponent(InlineComponent::Text(kind)),
    {
        Component::InlineComponent(InlineComponent::Text(kind))
    }
}

impl FromSpecImpl<Text> for Component {
    open spec fn obeys_from_spec() -> bool {
        true
    }

    open spec fn from_spec(kind: Text) -> Component {
        Component::InlineComponent(InlineComponent::Text(kind))
    }
}

impl From<Icon> for InlineComponent {
    /// The icon, as an inline component.
    fn from(kind: Icon) -> (component: InlineComponent)
        ensures
            component == InlineComponent::Icon(kind),
    {
        InlineComponent::Icon(kind)
    }
}

impl FromSpecImpl<Icon> for InlineComponent {
    open spec fn obeys_from_spec() -> bool {
        true
    }

    open spec fn from_spec(kind: Icon) -> InlineComponent {
        InlineComponent::Icon(kind)
    }
}

impl From<Icon> for Component {
    /// The icon, as a component.
    fn from(kind: Icon) -> (component: Component)
        ensures
            component == Component::InlineComponent(InlineComponent::Icon(kind)),
    {
        Component::InlineComponent(InlineComponent::Icon(kind))
    }
}

impl FromSpecImpl<Icon> for Component {
    open spec fn obeys_from_spec() -> bool {
        true
    }

    open spec fn from_spec(kind: Icon) -> Component {
        Component::InlineComponent(InlineComponent::Icon(kind))
    }
}

impl From<Heading> for BlockComponent {
    /// The heading, as a block.
    fn from(kind: Heading) -> (component: BlockComponent)
        ensures
            component == BlockComponent::Heading(kind),
    {
        BlockComponent::Heading(kind)
    }
}

impl FromSpecImpl<Heading> for BlockComponent {
    open spec fn obeys_from_spec() -> bool {
        true
    }

    open spec fn from_spec(kind: Heading) -> BlockComponent {
        BlockComponent::Heading(kind)
    }
}

impl From<Heading> for Component {
    /// The heading, as a component.
    fn from(kind: Heading) -> (component: Component)
        ensures
            component == Component::BlockComponent(BlockComponent::Heading(kind)),
    {
        Component::BlockComponent(BlockComponent::Heading(kind))
    }
}

impl FromSpecImpl<Heading> for Component {
    open spec fn obeys_from_spec() -> bool {
        true
    }

    open spec fn from_spec(kind: Heading) -> Component {
        Component::BlockComponent(BlockComponent::Heading(kind))
    }
}

impl From<Paragraph> for BlockComponent {
    /// The paragraph, as a block.
    fn from(kind: Paragraph) -> (component: BlockComponent)
        ensures
            component == BlockComponent::Paragraph(kind),
    {
        BlockComponent::Paragraph(kind)
    }
}

impl FromSpecImpl<Paragraph> for BlockComponent {
    open spec fn obeys_from_spec() -> bool {
        true
    }

    open spec fn from_spec(kind: Paragraph) -> BlockComponent {
        BlockComponent::Paragraph(kind)
    }
}

impl From<Paragraph> for Component {
    /// The paragraph, as a component.
    fn from(kind: Paragraph) -> (component: Component)
        ensures
            component == Component::BlockComponent(BlockComponent::Paragraph(kind)),
    {
        Component::BlockComponent(BlockComponent::Paragraph(kind))
    }
}

impl FromSpecImpl<Paragraph> for Component {
    open spec fn obeys_from_spec() -> bool {
        true
    }

    open spec fn from_spec(kind: Paragraph) -> Component {
        Component::BlockComponent(BlockComponent::Paragraph(kind))
    }
}

impl From<ListItem> for BlockComponent {
    /// The list item, as a block.
    fn from(kind: ListItem) -> (component: BlockComponent)
        ensures
            component == BlockComponent::ListItem(kind),
    {
        BlockComponent::ListItem(kind)
    }
}

impl FromSpecImpl<ListItem> for BlockComponent {
    open spec fn obeys_from_spec() -> bool {
        true
    }

    open spec fn from_spec(kind: ListItem) -> BlockComponent {
        BlockComponent::ListItem(kind)
    }
}

impl From<ListItem> for Component {
    /// The list item, as a component.
    fn from(kind: ListItem) -> (component: Component)
        ensures
            component == Component::BlockComponent(BlockComponent::ListItem(kind)),
    {
        Component::BlockComponent(BlockComponent::ListItem(kind))
    }
}

impl FromSpecImpl<ListItem> for Component {
    open spec fn obeys_from_spec() -> bool {
        true
    }

    open spec fn from_spec(kind: ListItem) -> Component {
        Component::BlockComponent(BlockComponent::ListItem(kind))
    }
}

impl From<List> for BlockComponent {
    /// The list, as a block.
    fn from(kind: List) -> (component: BlockComponent)
        ensures
            component == BlockComponent::List(kind),
    {
        BlockComponent::List(kind)
    }
}

impl FromSpecImpl<List> for BlockComponent {
    open spec fn obeys_from_spec() -> bool {
        true
    }

    open spec fn from_spec(kind: List) -> BlockComponent {
        BlockComponent::List(kind)
    }
}

impl From<List> for Component {
    /// The list, as a component.
    fn from(kind: List) -> (component: Component)
        ensures
            component == Component::BlockComponent(BlockComponent::List(kind)),
    {
        Component::BlockComponent(BlockComponent::List(kind))
    }
}

impl FromSpecImpl<List> for Component {
    open spec fn obeys_from_spec() -> bool {
        true
    }

    open spec fn from_spec(kind: List) -> Component {
        Component::BlockComponent(BlockComponent::List(kind))
    }
}

impl From<BlockQuote> for BlockComponent {
    /// The block quotation, as a block.
    fn from(kind: BlockQuote) -> (component: BlockComponent)
        ensures
            component == BlockComponent::BlockQuote(kind),
    {
        BlockComponent::BlockQuote(kind)
    }
}

impl FromSpecImpl<BlockQuote> for BlockComponent {
    open spec fn obeys_from_spec() -> bool {
        true
    }

    open spec fn from_spec(kind: BlockQuote) -> BlockComponent {
        BlockComponent::BlockQuote(kind)
    }
}

impl From<BlockQuote> for Component {
    /// The block quotation, as a component.
    fn from(kind: BlockQuote) -> (component: Component)
        ensures
            component == Component::BlockComponent(BlockComponent::BlockQuote(kind)),
    {
        Component::BlockComponent(BlockComponent::BlockQuote(kind))
    }
}

impl FromSpecImpl<BlockQuote> for Component {
    open spec fn obeys_from_spec() -> bool {
        true
    }

    open spec fn from_spec(kind: BlockQuote) -> Component {
        Component::BlockComponent(BlockComponent::BlockQuote(kind))
    }
}

impl From<Callout> for BlockComponent {
    /// The callout, as a block.
    fn from(kind: Callout) -> (component: BlockComponent)
        ensures
            component == BlockComponent::Callout(kind),
    {
        BlockComponent::Callout(kind)
    }
}

impl FromSpecImpl<Callout> for BlockComponent {
    open spec fn obeys_from_spec() -> bool {
        true
    }

    open spec fn from_spec(kind: Callout) -> BlockComponent {
        BlockComponent::Callout(kind)
    }
}

impl From<Callout> for Component {
    /// The callout, as a component.
    fn from(kind: Callout) -> (component: Component)
        ensures
            component == Component::BlockComponent(BlockComponent::Callout(kind)),
    {
        Component::BlockComponent(BlockComponent::Callout(kind))
    }
}

impl FromSpecImpl<Callout> for Component {
    open spec fn obeys_from_spec() -> bool {
        true
    }

    open spec fn from_spec(kind: Callout) -> Component {
        Component::BlockComponent(BlockComponent::Callout(kind))
    }
}

impl From<Divider> for BlockComponent {
    /// The divider, as a block.
    fn from(kind: Divider) -> (component: BlockComponent)
        ensures
            component == BlockComponent::Divider(kind),
    {
        BlockComponent::Divider(kind)
    }
}

impl FromSpecImpl<Divider> for BlockComponent {
    open spec fn obeys_from_spec() -> bool {
        true
    }

    open spec fn from_spec(kind: Divider) -> BlockComponent {
        BlockComponent::Divider(kind)
    }
}

impl From<Divider> for Component {
    /// The divider, as a component.
    fn from(kind: Divider) -> (component: Component)
        ensures
            component == Component::BlockComponent(BlockComponent::Divider(kind)),
    {
        Component::BlockComponent(BlockComponent::Divider(kind))
    }
}

impl FromSpecImpl<Divider> for Component {
    open spec fn obeys_from_spec() -> bool {
        true
    }

    open spec fn from_spec(kind: Divider) -> Component {
        Component::BlockComponent(BlockComponent::Divider(kind))
    }
}

impl From<Toggle> for BlockComponent {
    /// The toggle, as a block.
    fn from(kind: Toggle) -> (component: BlockComponent)
        ensures
            component == BlockComponent::Toggle(kind),
    {
        BlockComponent::Toggle(kind)
    }
}

impl FromSpecImpl<Toggle> for BlockComponent {
    open spec fn obeys_from_spec() -> bool {
        true
    }

    open spec fn from_spec(kind: Toggle) -> BlockComponent {
        BlockComponent::Toggle(kind)
    }
}

impl From<Toggle> for Component {
    /// The toggle, as a component.
    fn from(kind: Toggle) -> (component: Component)
        ensures
            component == Component::BlockComponent(BlockComponent::Toggle(kind)),
    {
        Component::BlockComponent(BlockComponent::Toggle(kind))
    }
}

impl FromSpecImpl<Toggle> for Component {
    open spec fn obeys_from_spec() -> bool {
        true
    }

    open spec fn from_spec(kind: Toggle) -> Component {
        Component::BlockComponent(BlockComponent::Toggle(kind))
    }
}

impl From<Bookmark> for BlockComponent {
    /// The bookmark, as a block.
    fn from(kind: Bookmark) -> (component: BlockComponent)
        ensures
            component == BlockComponent::Bookmark(kind),
    {
        BlockComponent::Bookmark(kind)
    }
}

impl FromSpecImpl<Bookmark> for BlockComponent {
    open spec fn obeys_from_spec() -> bool {
        true
    }

    open spec fn from_spec(kind: Bookmark) -> BlockComponent {
        BlockComponent::Bookmark(kind)
    }
}

impl From<Bookmark> for Component {
    /// The bookmark, as a component.
    fn from(kind: Bookmark) -> (component: Component)
        ensures
            component == Component::BlockComponent(BlockComponent::Bookmark(kind)),
    {
        Component::BlockComponent(BlockComponent::Bookmark(kind))
    }
}

impl FromSpecImpl<Bookmark> for Component {
    open spec fn obeys_from_spec() -> bool {
        true
    }

    open spec fn from_spec(kind: Bookmark) -> Component {
        Component::BlockComponent(BlockComponent::Bookmark(kind))
    }
}

impl From<File> for BlockComponent {
    /// The file, as a block.
    fn from(kind: File) -> (component: BlockComponent)
        ensures
            component == BlockComponent::File(kind),
    {
        BlockComponent::File(kind)
    }
}

impl FromSpecImpl<File> for BlockComponent {
    open spec fn obeys_from_spec() -> bool {
        true
    }

    open spec fn from_spec(kind: File) -> BlockComponent {
        BlockComponent::File(kind)
    }
}

impl From<File> for Component {
    /// The file, as a component.
    fn from(kind: File) -> (component: Component)
        ensures
            component == Component::BlockComponent(BlockComponent::File(kind)),
    {
        Component::BlockComponent(BlockComponent::File(kind))
    }
}

impl FromSpecImpl<File> for Component {
    open spec fn obeys_from_spec() -> bool {
        true
    }

    open spec fn from_spec(kind: File) -> Component {
        Component::BlockComponent(BlockComponent::File(kind))
    }
}

impl From<Image> for BlockComponent {
    /// The image, as a block.
    fn from(kind: Image) -> (component: BlockComponent)
        ensures
            component == BlockComponent::Image(kind),
    {
        BlockComponent::Image(kind)
    }
}

impl FromSpecImpl<Image> for BlockComponent {
    open spec fn obeys_from_spec() -> bool {
        true
    }

    open spec fn from_spec(kind: Image) -> BlockComponent {
        BlockComponent::Image(kind)
    }
}

impl From<Image> for Component {
    /// The image, as a component.
    fn from(kind: Image) -> (component: Component)
        ensures
            component == Component::BlockComponent(BlockComponent::Image(kind)),
    {
        Component::BlockComponent(BlockComponent::Image(kind))
    }
}

impl FromSpecImpl<Image> for Component {
    open spec fn obeys_from_spec() -> bool {
        true
    }

    open spec fn from_spec(kind: Image) -> Component {
        Component::BlockComponent(BlockComponent::Image(kind))
    }
}

impl From<CodeBlock> for BlockComponent {
    /// The block of code, as a block.
    fn from(kind: CodeBlock) -> (component: BlockComponent)
        ensures
            component == BlockComponent::CodeBlock(kind),
    {
        BlockComponent::CodeBlock(kind)
    }
}

impl FromSpecImpl<CodeBlock> for BlockComponent {
    open spec fn obeys_from_spec() -> bool {
        true
    }

    open spec fn from_spec(kind: CodeBlock) -> BlockComponent {
        BlockComponent::CodeBlock(kind)
    }
}

impl From<CodeBlock> for Component {
    /// The block of code, as a component.
    fn from(kind: CodeBlock) -> (component: Component)
        ensures
            component == Component::BlockComponent(BlockComponent::CodeBlock(kind)),
    {
        Component::BlockComponent(BlockComponent::CodeBlock(kind))
    }
}

impl FromSpecImpl<CodeBlock> for Component {
    open spec fn obeys_from_spec() -> bool {
        true
    }

    open spec fn from_spec(kind: CodeBlock) -> Component {
        Component::BlockComponent(BlockComponent::CodeBlock(kind))
    }
}

impl From<Katex> for BlockComponent {
    /// The KaTeX block, as a block.
    fn from(kind: Katex) -> (component: BlockComponent)
        ensures
            component == BlockComponent::Katex(kind),
    {
        BlockComponent::Katex(kind)
    }
}

impl FromSpecImpl<Katex> for BlockComponent {
    open spec fn obeys_from_spec() -> bool {
        true
    }

    open spec fn from_spec(kind: Katex) -> BlockComponent {
        BlockComponent::Katex(kind)
    }
}

impl From<Katex> for Component {
    /// The KaTeX block, as a component.
    fn from(kind: Katex) -> (component: Component)
        ensures
            component == Component::BlockComponent(BlockComponent::Katex(kind)),
    {
        Component::BlockComponent(BlockComponent::Katex(kind))
    }
}

impl FromSpecImpl<Katex> for Component {
    open spec fn obeys_from_spec() -> bool {
        true
    }

    open spec fn from_spec(kind: Katex) -> Component {
        Component::BlockComponent(BlockComponent::Katex(kind))
    }
}

impl From<Table> for BlockComponent {
    /// The table, as a block.
    fn from(kind: Table) -> (component: BlockComponent)
        ensures
            component == BlockComponent::Table(kind),
    {
        BlockComponent::Table(kind)
    }
}

impl FromSpecImpl<Table> for BlockComponent {
    open spec fn obeys_from_spec() -> bool {
        true
    }

    open spec fn from_spec(kind: Table) -> BlockComponent {
        BlockComponent::Table(kind)
    }
}

impl From<Table> for Component {
    /// The table, as a component.
    fn from(kind: Table) -> (component: Component)
        ensures
            component == Component::BlockComponent(BlockComponent::Table(kind)),
    {
        Component::BlockComponent(BlockComponent::Table(kind))
    }
}

impl FromSpecImpl<Table> for Component {
    open spec fn obeys_from_spec() -> bool {
        true
    }

    open spec fn from_spec(kind: Table) -> Component {
        Component::BlockComponent(BlockComponent::Table(kind))
    }
}

impl From<TableRow> for BlockComponent {
    /// The table row, as a block.
    fn from(kind: TableRow) -> (component: BlockComponent)
        ensures
            component == BlockComponent::TableRow(kind),
    {
        BlockComponent::TableRow(kind)
    }
}

impl FromSpecImpl<TableRow> for BlockComponent {
    open spec fn obeys_from_spec() -> bool {
        true
    }

    open spec fn from_spec(kind: TableRow) -> BlockComponent {
        BlockComponent::TableRow(kind)
    }
}

impl From<TableRow> for Component {
    /// The table row, as a component.
    fn from(kind: TableRow) -> (component: Component)
        ensures
            component == Component::BlockComponent(BlockComponent::TableRow(kind)),
    {
        Component::BlockComponent(BlockComponent::TableRow(kind))
    }
}

impl FromSpecImpl<TableRow> for Component {
    open spec fn obeys_from_spec() -> bool {
        true
    }

    open spec fn from_spec(kind: TableRow) -> Component {
        Component::BlockComponent(BlockComponent::TableRow(kind))
    }
}

impl From<TableCell> for BlockComponent {
    /// The table cell, as a block.
    fn from(kind: TableCell) -> (component: BlockComponent)
        ensures
            component == BlockComponent::TableCell(kind),
    {
        BlockComponent::TableCell(kind)
    }
}

impl FromSpecImpl<TableCell> for BlockComponent {
    open spec fn obeys_from_spec() -> bool {
        true
    }

    open spec fn from_spec(kind: TableCell) -> BlockComponent {
        BlockComponent::TableCell(kind)
    }
}

impl From<TableCell> for Component {
    /// The table cell, as a component.
    fn from(kind: TableCell) -> (component: Component)
        ensures
            component == Component::BlockComponent(BlockComponent::TableCell(kind)),
    {
        Component::BlockComponent(BlockComponent::TableCell(kind))
    }
}

impl FromSpecImpl<TableCell> for Component {
    open spec fn obeys_from_spec() -> bool {
        true
    }

    open spec fn from_spec(kind: TableCell) -> Component {
        Component::BlockComponent(BlockComponent::TableCell(kind))
    }
}

impl From<ColumnList> for BlockComponent {
    /// The column list, as a block.
    fn from(kind: ColumnList) -> (component: BlockComponent)
        ensures
            component == BlockComponent::ColumnList(kind),
    {
        BlockComponent::ColumnList(kind)
    }
}

impl FromSpecImpl<ColumnList> for BlockComponent {
    open spec fn obeys_from_spec() -> bool {
        true
    }

    open spec fn from_spec(kind: ColumnList) -> BlockComponent {
        BlockComponent::ColumnList(kind)
    }
}

impl From<ColumnList> for Component {
    /// The column list, as a component.
    fn from(kind: ColumnList) -> (component: Component)
        ensures
            component == Component::BlockComponent(BlockComponent::ColumnList(kind)),
    {
        Component::BlockComponent(BlockComponent::ColumnList(kind))
    }
}

impl FromSpecImpl<ColumnList> for Component {
    open spec fn obeys_from_spec() -> bool {
        true
    }

    open spec fn from_spec(kind: ColumnList) -> Component {
        Component::BlockComponent(BlockComponent::ColumnList(kind))
    }
}

impl From<Column> for BlockComponent {
    /// The column, as a block.
    fn from(kind: Column) -> (component: BlockComponent)
        ensures
            component == BlockComponent::Column(kind),
    {
        BlockComponent::Column(kind)
    }
}

impl FromSpecImpl<Column> for BlockComponent {
    open spec fn obeys_from_spec() -> bool {
        true
    }

    open spec fn from_spec(kind: Column) -> BlockComponent {
        BlockComponent::Column(kind)
    }
}

impl From<Column> for Component {
    /// The column, as a component.
    fn from(kind: Column) -> (component: Component)
        ensures
            component == Component::BlockComponent(BlockComponent::Column(kind)),
    {
        Component::BlockComponent(BlockComponent::Column(kind))
    }
}

impl FromSpecImpl<Column> for Component {
    open spec fn obeys_from_spec() -> bool {
        true
    }

    open spec fn from_spec(kind: Column) -> Component {
        Component::BlockComponent(BlockComponent::Column(kind))
    }
}

impl From<Unsupported> for BlockComponent {
    /// The unsupported part, as a block.
    fn from(kind: Unsupported) -> (component: BlockComponent)
        ensures
            component == BlockComponent::Unsupported(kind),
    {
        BlockComponent::Unsupported(kind)
    }
}

impl FromSpecImpl<Unsupported> for BlockComponent {
    open spec fn obeys_from_spec() -> bool {
        true
    }

    open spec fn from_spec(kind: Unsupported) -> BlockComponent {
        BlockComponent::Unsupported(kind)
    }
}

impl From<Unsupported> for Component {
    /// The unsupported part, as a component.
    fn from(kind: Unsupported) -> (component: Component)
        ensures
            component == Component::BlockComponent(BlockComponent::Unsupported(kind)),
    {
        Component::BlockComponent(BlockComponent::Unsupported(kind))
    }
}

impl FromSpecImpl<Unsupported> for Component {
    open spec fn obeys_from_spec() -> bool {
        true
    }

    open spec fn from_spec(kind: Unsupported) -> Component {
        Component::BlockComponent(BlockComponent::Unsupported(kind))
    }
}

impl From<InlineComponent> for Component {
    /// The inline component, as a component.
    fn from(inline: InlineComponent) -> (component: Component)
        ensures
            component == Component::InlineComponent(inline),
    {
        Component::InlineComponent(inline)
    }
}

impl FromSpecImpl<InlineComponent> for Component {
    open spec fn obeys_from_spec() -> bool {
        true
    }

    open spec fn from_spec(inline: InlineComponent) -> Component {
        Component::InlineComponent(inline)
    }
}

impl From<BlockComponent> for Component {
    /// The block component, as a component.
    fn from(block: BlockComponent) -> (component: Component)
        ensures
            component == Component::BlockComponent(block),
    {
        Component::BlockComponent(block)
    }
}

impl FromSpecImpl<BlockComponent> for Component {
    open spec fn obeys_from_spec() -> bool {
        true
    }

    open spec fn from_spec(block: BlockComponent) -> Component {
        Component::BlockComponent(block)
    }
}

} // verus!
