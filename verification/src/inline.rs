//! The inline components: what is set within running text. They have no
//! children.

use crate::error::{result_map, result_view, DecodeError, DecodeErrorView};
use crate::field::{
    clone_opt_str, field, flag, flag_value, group_field_lookups, lemma_empty_then, literal,
    no_members,
    opt_str_value, opt_view, optional_str, or_none, put, put_flag, put_opt_str, put_str,
    read_array, read_flag, read_opt_str, read_str, required_array, required_str, str_value,
};
use crate::json::{items_view, lookup, members_view, same, Json, JsonView, Members};
use crate::shape::{
    build, kind_object, kind_parts, lemma_kind_object_records, lemma_kind_parts_of_object,
    lemma_kind_parts_of_tagged, lemma_tag_of_tagged, read_tag, split, tag_of, tagged, with_tag,
};
use vstd::prelude::*;

verus! {

/// The attributes of a run of text.
#[derive(Debug, PartialEq, Eq)]
pub struct TextProps {
    /// The characters of the run.
    pub text: String,
    /// The colour of the characters.
    pub color: Option<String>,
    /// The colour behind the characters.
    pub background_color: Option<String>,
    /// Set in bold.
    pub bold: bool,
    /// Set in italics.
    pub italic: bool,
    /// Underlined.
    pub underline: bool,
    /// Struck through.
    pub strikethrough: bool,
    /// The characters are a KaTeX expression.
    pub katex: bool,
    /// Set as code.
    pub code: bool,
    /// The annotation set above the characters.
    pub ruby: Option<String>,
    /// Where the run links to.
    pub href: Option<String>,
    /// The icon of the page that the run links to.
    pub favicon: Option<String>,
}

/// The mathematical model of a [`TextProps`].
pub struct TextPropsView {
    /// The characters of the run.
    pub text: Seq<char>,
    /// The colour of the characters.
    pub color: Option<Seq<char>>,
    /// The colour behind the characters.
    pub background_color: Option<Seq<char>>,
    /// Set in bold.
    pub bold: bool,
    /// Set in italics.
    pub italic: bool,
    /// Underlined.
    pub underline: bool,
    /// Struck through.
    pub strikethrough: bool,
    /// The characters are a KaTeX expression.
    pub katex: bool,
    /// Set as code.
    pub code: bool,
    /// The annotation set above the characters.
    pub ruby: Option<Seq<char>>,
    /// Where the run links to.
    pub href: Option<Seq<char>>,
    /// The icon of the page that the run links to.
    pub favicon: Option<Seq<char>>,
}

impl View for TextProps {
    type V = TextPropsView;

    open spec fn view(&self) -> TextPropsView {
        TextPropsView {
            text: self.text@,
            color: opt_view(self.color),
            background_color: opt_view(self.background_color),
            bold: self.bold,
            italic: self.italic,
            underline: self.underline,
            strikethrough: self.strikethrough,
            katex: self.katex,
            code: self.code,
            ruby: opt_view(self.ruby),
            href: opt_view(self.href),
            favicon: opt_view(self.favicon),
        }
    }
}

impl Clone for TextProps {
    fn clone(&self) -> (record: TextProps)
        ensures
            record@ == self@,
    {
        TextProps {
            text: self.text.clone(),
            color: clone_opt_str(&self.color),
            background_color: clone_opt_str(&self.background_color),
            bold: self.bold,
            italic: self.italic,
            underline: self.underline,
            strikethrough: self.strikethrough,
            katex: self.katex,
            code: self.code,
            ruby: clone_opt_str(&self.ruby),
            href: clone_opt_str(&self.href),
            favicon: clone_opt_str(&self.favicon),
        }
    }
}

impl Default for TextProps {
    fn default() -> (record: TextProps)
        ensures
            record@ == TextPropsView::initial(),
    {
        TextProps {
            text: String::new(),
            color: None,
            background_color: None,
            bold: false,
            italic: false,
            underline: false,
            strikethrough: false,
            katex: false,
            code: false,
            ruby: None,
            href: None,
            favicon: None,
        }
    }
}

impl TextPropsView {
    /// The record with every field at its default.
    pub open spec fn initial() -> TextPropsView {
        TextPropsView {
            text: Seq::empty(),
            color: None,
            background_color: None,
            bold: false,
            italic: false,
            underline: false,
            strikethrough: false,
            katex: false,
            code: false,
            ruby: None,
            href: None,
            favicon: None,
        }
    }

    /// The members that the record is written as.
    pub open spec fn encoded(self) -> Members {
        field("text"@, str_value(self.text))
            + field("color"@, opt_str_value(self.color))
            + field("backgroundColor"@, opt_str_value(self.background_color))
            + field("bold"@, flag_value(self.bold))
            + field("italic"@, flag_value(self.italic))
            + field("underline"@, flag_value(self.underline))
            + field("strikethrough"@, flag_value(self.strikethrough))
            + field("katex"@, flag_value(self.katex))
            + field("code"@, flag_value(self.code))
            + field("ruby"@, opt_str_value(self.ruby))
            + field("href"@, opt_str_value(self.href))
            + field("favicon"@, opt_str_value(self.favicon))
    }

    /// The record that a member list is read as. Where more than one field
    /// fails, the failure of the field that is declared first is the result.
    pub open spec fn decoded(members: Members) -> Result<TextPropsView, DecodeErrorView> {
        let text = required_str(members, "text"@);
        let color = optional_str(members, "color"@);
        let background_color = optional_str(members, "backgroundColor"@);
        let bold = flag(members, "bold"@);
        let italic = flag(members, "italic"@);
        let underline = flag(members, "underline"@);
        let strikethrough = flag(members, "strikethrough"@);
        let katex = flag(members, "katex"@);
        let code = flag(members, "code"@);
        let ruby = optional_str(members, "ruby"@);
        let href = optional_str(members, "href"@);
        let favicon = optional_str(members, "favicon"@);
        if text is Err {
            Err(text->Err_0)
        } else if color is Err {
            Err(color->Err_0)
        } else if background_color is Err {
            Err(background_color->Err_0)
        } else if bold is Err {
            Err(bold->Err_0)
        } else if italic is Err {
            Err(italic->Err_0)
        } else if underline is Err {
            Err(underline->Err_0)
        } else if strikethrough is Err {
            Err(strikethrough->Err_0)
        } else if katex is Err {
            Err(katex->Err_0)
        } else if code is Err {
            Err(code->Err_0)
        } else if ruby is Err {
            Err(ruby->Err_0)
        } else if href is Err {
            Err(href->Err_0)
        } else if favicon is Err {
            Err(favicon->Err_0)
        } else {
            Ok(
                TextPropsView {
                    text: text->Ok_0,
                    color: color->Ok_0,
                    background_color: background_color->Ok_0,
                    bold: bold->Ok_0,
                    italic: italic->Ok_0,
                    underline: underline->Ok_0,
                    strikethrough: strikethrough->Ok_0,
                    katex: katex->Ok_0,
                    code: code->Ok_0,
                    ruby: ruby->Ok_0,
                    href: href->Ok_0,
                    favicon: favicon->Ok_0,
                },
            )
        }
    }

    /// Each field is found under its own key, as what stands for it;
    /// at least one member is always written.
    pub proof fn lemma_encoded(self)
        ensures
            lookup(self.encoded(), "text"@) == str_value(self.text),
            lookup(self.encoded(), "color"@) == opt_str_value(self.color),
            lookup(self.encoded(), "backgroundColor"@) == opt_str_value(self.background_color),
            lookup(self.encoded(), "bold"@) == flag_value(self.bold),
            lookup(self.encoded(), "italic"@) == flag_value(self.italic),
            lookup(self.encoded(), "underline"@) == flag_value(self.underline),
            lookup(self.encoded(), "strikethrough"@) == flag_value(self.strikethrough),
            lookup(self.encoded(), "katex"@) == flag_value(self.katex),
            lookup(self.encoded(), "code"@) == flag_value(self.code),
            lookup(self.encoded(), "ruby"@) == opt_str_value(self.ruby),
            lookup(self.encoded(), "href"@) == opt_str_value(self.href),
            lookup(self.encoded(), "favicon"@) == opt_str_value(self.favicon),
            self.encoded().len() > 0,
    {
        broadcast use group_field_lookups;

        reveal_strlit("text");
        reveal_strlit("color");
        reveal_strlit("backgroundColor");
        reveal_strlit("bold");
        reveal_strlit("italic");
        reveal_strlit("underline");
        reveal_strlit("strikethrough");
        reveal_strlit("katex");
        reveal_strlit("code");
        reveal_strlit("ruby");
        reveal_strlit("href");
        reveal_strlit("favicon");
        assert("text"@.len() == 4);
        assert("color"@.len() == 5);
        assert("backgroundColor"@.len() == 15);
        assert("bold"@.len() == 4);
        assert("italic"@.len() == 6);
        assert("underline"@.len() == 9);
        assert("strikethrough"@.len() == 13);
        assert("katex"@.len() == 5);
        assert("code"@.len() == 4);
        assert("ruby"@.len() == 4);
        assert("href"@.len() == 4);
        assert("favicon"@.len() == 7);
        assert("text"@[0] == 't');
        assert("bold"@[0] == 'b');
        assert("code"@[0] == 'c');
        assert("ruby"@[0] == 'r');
        assert("href"@[0] == 'h');
        assert("color"@[0] == 'c');
        assert("katex"@[0] == 'k');
    }

    /// Reading back the members that the record was written as gives the
    /// record.
    pub proof fn lemma_round_trip(self)
        ensures
            Self::decoded(self.encoded()) == Ok::<Self, DecodeErrorView>(self),
    {
        self.lemma_encoded();
    }
}

impl TextProps {
    /// Writes the record as the members of an object, from which it can be
    /// read back.
    pub fn encode(&self) -> (members: Vec<(String, Json)>)
        ensures
            members_view(members@) == self@.encoded(),
            TextPropsView::decoded(members_view(members@)) == Ok::<
                TextPropsView,
                DecodeErrorView,
            >(self@),
    {
        broadcast use lemma_empty_then;

        let mut members = no_members();
        put_str(&mut members, "text", &self.text);
        put_opt_str(&mut members, "color", &self.color);
        put_opt_str(&mut members, "backgroundColor", &self.background_color);
        put_flag(&mut members, "bold", self.bold);
        put_flag(&mut members, "italic", self.italic);
        put_flag(&mut members, "underline", self.underline);
        put_flag(&mut members, "strikethrough", self.strikethrough);
        put_flag(&mut members, "katex", self.katex);
        put_flag(&mut members, "code", self.code);
        put_opt_str(&mut members, "ruby", &self.ruby);
        put_opt_str(&mut members, "href", &self.href);
        put_opt_str(&mut members, "favicon", &self.favicon);
        proof {
            self@.lemma_round_trip();
        }
        members
    }

    /// Reads the record from the members of an object.
    pub fn decode(members: &Vec<(String, Json)>) -> (r: Result<TextProps, DecodeError>)
        ensures
            result_view(r) == TextPropsView::decoded(members_view(members@)),
    {
        let text = read_str(members, "text")?;
        let color = read_opt_str(members, "color")?;
        let background_color = read_opt_str(members, "backgroundColor")?;
        let bold = read_flag(members, "bold")?;
        let italic = read_flag(members, "italic")?;
        let underline = read_flag(members, "underline")?;
        let strikethrough = read_flag(members, "strikethrough")?;
        let katex = read_flag(members, "katex")?;
        let code = read_flag(members, "code")?;
        let ruby = read_opt_str(members, "ruby")?;
        let href = read_opt_str(members, "href")?;
        let favicon = read_opt_str(members, "favicon")?;
        Ok(TextProps {
            text,
            color,
            background_color,
            bold,
            italic,
            underline,
            strikethrough,
            katex,
            code,
            ruby,
            href,
            favicon,
        })
    }
}

/// The slots of a run of text: it has no children.
#[derive(Debug, PartialEq, Eq)]
pub struct TextSlots;

impl View for TextSlots {
    type V = TextSlots;

    open spec fn view(&self) -> TextSlots {
        *self
    }
}

impl Clone for TextSlots {
    fn clone(&self) -> (record: TextSlots)
        ensures
            record@ == self@,
    {
        TextSlots
    }
}

impl Default for TextSlots {
    fn default() -> (record: TextSlots)
        ensures
            record@ == TextSlots::initial(),
    {
        TextSlots
    }
}

impl TextSlots {
    /// The record with every field at its default.
    pub open spec fn initial() -> TextSlots {
        TextSlots
    }

    /// The members that the record is written as.
    pub open spec fn encoded(self) -> Members {
        Seq::empty()
    }

    /// The record that a member list is read as: whatever the list holds,
    /// the record takes nothing from it.
    pub open spec fn decoded(members: Members) -> Result<TextSlots, DecodeErrorView> {
        Ok(TextSlots)
    }

    /// Reading back the members that the record was written as gives the
    /// record.
    pub proof fn lemma_round_trip(self)
        ensures
            Self::decoded(self.encoded()) == Ok::<Self, DecodeErrorView>(self),
    {
    }
}

impl TextSlots {
    /// Writes the record as the members of an object, from which it can be
    /// read back.
    pub fn encode(&self) -> (members: Vec<(String, Json)>)
        ensures
            members_view(members@) == self@.encoded(),
            TextSlots::decoded(members_view(members@)) == Ok::<TextSlots, DecodeErrorView>(self@),
    {
        no_members()
    }

    /// Reads the record from the members of an object.
    pub fn decode(members: &Vec<(String, Json)>) -> (r: Result<TextSlots, DecodeError>)
        ensures
            result_view(r) == TextSlots::decoded(members_view(members@)),
    {
        Ok(TextSlots)
    }
}

/// A run of text.
#[derive(Debug, PartialEq, Eq)]
pub struct Text {
    /// The attributes.
    pub props: TextProps,
    /// The children, by slot.
    pub slots: TextSlots,
}

/// The mathematical model of a [`Text`].
pub struct TextView {
    /// The attributes.
    pub props: TextPropsView,
    /// The children, by slot.
    pub slots: TextSlots,
}

impl View for Text {
    type V = TextView;

    open spec fn view(&self) -> TextView {
        TextView { props: self.props@, slots: self.slots@ }
    }
}

impl Clone for Text {
    fn clone(&self) -> (kind: Text)
        ensures
            kind@ == self@,
    {
        Text { props: self.props.clone(), slots: self.slots.clone() }
    }
}

impl Default for Text {
    fn default() -> (kind: Text)
        ensures
            kind@ == TextView::initial(),
    {
        Text { props: TextProps::default(), slots: TextSlots::default() }
    }
}

impl TextView {
    /// The run of text with every attribute at its default and no children.
    pub open spec fn initial() -> TextView {
        Self { props: TextPropsView::initial(), slots: TextSlots::initial() }
    }

    /// The object that the run of text is written as, without a `type` member.
    pub open spec fn encoded(self) -> JsonView {
        kind_object(true, self.props.encoded(), self.slots.encoded())
    }

    /// The run of text that a value is read as. The shape of the object is checked
    /// first, then the attributes are read, then the slots; the first failure
    /// is the result.
    pub open spec fn decoded(json: JsonView) -> Result<TextView, DecodeErrorView> {
        match kind_parts(json, true, true, false) {
            Err(e) => Err(e),
            Ok(parts) => {
                let props = TextPropsView::decoded(parts.0);
                let slots = TextSlots::decoded(parts.1);
                if props is Err {
                    Err(props->Err_0)
                } else if slots is Err {
                    Err(slots->Err_0)
                } else {
                    Ok(TextView { props: props->Ok_0, slots: slots->Ok_0 })
                }
            },
        }
    }

    /// Reading back the object that the run of text was written as gives the
    /// run of text.
    pub proof fn lemma_round_trip(self)
        ensures
            Self::decoded(self.encoded()) == Ok::<Self, DecodeErrorView>(self),
    {
        self.props.lemma_round_trip();
        self.slots.lemma_round_trip();
        self.props.lemma_encoded();
        lemma_kind_parts_of_object(true, self.props.encoded(), self.slots.encoded(), true, false);
    }

    /// The object has no `slots` member.
    pub proof fn lemma_defaults_left_out(self)
        ensures
            self.encoded() matches JsonView::Object(members) && lookup(members, "slots"@) is None,
    {
        lemma_kind_object_records(true, self.props.encoded(), self.slots.encoded());
    }

    /// A `type` member in front of the members of a value does not change
    /// what the value is read as.
    pub proof fn lemma_decoded_tagged(tag: Seq<char>, json: JsonView)
        ensures
            TextView::decoded(tagged(tag, json)) == TextView::decoded(json),
    {
        lemma_kind_parts_of_tagged(tag, json, true, true, false);
    }
}

impl Text {
    /// Writes the run of text as an object, without a `type` member, from which it
    /// can be read back.
    pub fn encode(&self) -> (json: Json)
        ensures
            json@ == self@.encoded(),
            TextView::decoded(json@) == Ok::<TextView, DecodeErrorView>(self@),
    {
        proof {
            self@.lemma_round_trip();
        }
        build(true, self.props.encode(), self.slots.encode())
    }

    /// Reads the run of text from an object; a `type` member, if there is one, is
    /// not looked at.
    pub fn decode(json: &Json) -> (r: Result<Text, DecodeError>)
        ensures
            result_view(r) == TextView::decoded(json@),
    {
        let parts = split(json, true, true, false)?;
        let none = no_members();
        let props = TextProps::decode(or_none(parts.0, &none))?;
        let slots = TextSlots::decode(or_none(parts.1, &none))?;
        Ok(Text { props, slots })
    }
}

/// The attributes of an icon.
#[derive(Debug, PartialEq, Eq)]
pub struct IconProps {
    /// Where the picture is.
    pub src: String,
    /// The text that stands in for the picture.
    pub alt: Option<String>,
}

/// The mathematical model of an [`IconProps`].
pub struct IconPropsView {
    /// Where the picture is.
    pub src: Seq<char>,
    /// The text that stands in for the picture.
    pub alt: Option<Seq<char>>,
}

impl View for IconProps {
    type V = IconPropsView;

    open spec fn view(&self) -> IconPropsView {
        IconPropsView {
            src: self.src@,
            alt: opt_view(self.alt),
        }
    }
}

impl Clone for IconProps {
    fn clone(&self) -> (record: IconProps)
        ensures
            record@ == self@,
    {
        IconProps {
            src: self.src.clone(),
            alt: clone_opt_str(&self.alt),
        }
    }
}

impl Default for IconProps {
    fn default() -> (record: IconProps)
        ensures
            record@ == IconPropsView::initial(),
    {
        IconProps {
            src: String::new(),
            alt: None,
        }
    }
}

impl IconPropsView {
    /// The record with every field at its default.
    pub open spec fn initial() -> IconPropsView {
        IconPropsView {
            src: Seq::empty(),
            alt: None,
        }
    }

    /// The members that the record is written as.
    pub open spec fn encoded(self) -> Members {
        field("src"@, str_value(self.src))
            + field("alt"@, opt_str_value(self.alt))
    }

    /// The record that a member list is read as. Where more than one field
    /// fails, the failure of the field that is declared first is the result.
    pub open spec fn decoded(members: Members) -> Result<IconPropsView, DecodeErrorView> {
        let src = required_str(members, "src"@);
        let alt = optional_str(members, "alt"@);
        if src is Err {
            Err(src->Err_0)
        } else if alt is Err {
            Err(alt->Err_0)
        } else {
            Ok(
                IconPropsView {
                    src: src->Ok_0,
                    alt: alt->Ok_0,
                },
            )
        }
    }

    /// Each field is found under its own key, as what stands for it;
    /// at least one member is always written.
    pub proof fn lemma_encoded(self)
        ensures
            lookup(self.encoded(), "src"@) == str_value(self.src),
            lookup(self.encoded(), "alt"@) == opt_str_value(self.alt),
            self.encoded().len() > 0,
    {
        broadcast use group_field_lookups;

        reveal_strlit("src");
        reveal_strlit("alt");
        assert("src"@.len() == 3);
        assert("alt"@.len() == 3);
        assert("src"@[0] == 's');
        assert("alt"@[0] == 'a');
    }

    /// Reading back the members that the record was written as gives the
    /// record.
    pub proof fn lemma_round_trip(self)
        ensures
            Self::decoded(self.encoded()) == Ok::<Self, DecodeErrorView>(self),
    {
        self.lemma_encoded();
    }
}

impl IconProps {
    /// Writes the record as the members of an object, from which it can be
    /// read back.
    pub fn encode(&self) -> (members: Vec<(String, Json)>)
        ensures
            members_view(members@) == self@.encoded(),
            IconPropsView::decoded(members_view(members@)) == Ok::<
                IconPropsView,
                DecodeErrorView,
            >(self@),
    {
        broadcast use lemma_empty_then;

        let mut members = no_members();
        put_str(&mut members, "src", &self.src);
        put_opt_str(&mut members, "alt", &self.alt);
        proof {
            self@.lemma_round_trip();
        }
        members
    }

    /// Reads the record from the members of an object.
    pub fn decode(members: &Vec<(String, Json)>) -> (r: Result<IconProps, DecodeError>)
        ensures
            result_view(r) == IconPropsView::decoded(members_view(members@)),
    {
        let src = read_str(members, "src")?;
        let alt = read_opt_str(members, "alt")?;
        Ok(IconProps {
            src,
            alt,
        })
    }
}

/// The slots of an icon: it has no children.
#[derive(Debug, PartialEq, Eq)]
pub struct IconSlots;

impl View for IconSlots {
    type V = IconSlots;

    open spec fn view(&self) -> IconSlots {
        *self
    }
}

impl Clone for IconSlots {
    fn clone(&self) -> (record: IconSlots)
        ensures
            record@ == self@,
    {
        IconSlots
    }
}

impl Default for IconSlots {
    fn default() -> (record: IconSlots)
        ensures
            record@ == IconSlots::initial(),
    {
        IconSlots
    }
}

impl IconSlots {
    /// The record with every field at its default.
    pub open spec fn initial() -> IconSlots {
        IconSlots
    }

    /// The members that the record is written as.
    pub open spec fn encoded(self) -> Members {
        Seq::empty()
    }

    /// The record that a member list is read as: whatever the list holds,
    /// the record takes nothing from it.
    pub open spec fn decoded(members: Members) -> Result<IconSlots, DecodeErrorView> {
        Ok(IconSlots)
    }

    /// Reading back the members that the record was written as gives the
    /// record.
    pub proof fn lemma_round_trip(self)
        ensures
            Self::decoded(self.encoded()) == Ok::<Self, DecodeErrorView>(self),
    {
    }
}

impl IconSlots {
    /// Writes the record as the members of an object, from which it can be
    /// read back.
    pub fn encode(&self) -> (members: Vec<(String, Json)>)
        ensures
            members_view(members@) == self@.encoded(),
            IconSlots::decoded(members_view(members@)) == Ok::<IconSlots, DecodeErrorView>(self@),
    {
        no_members()
    }

    /// Reads the record from the members of an object.
    pub fn decode(members: &Vec<(String, Json)>) -> (r: Result<IconSlots, DecodeError>)
        ensures
            result_view(r) == IconSlots::decoded(members_view(members@)),
    {
        Ok(IconSlots)
    }
}

/// A small picture set in running text.
#[derive(Debug, PartialEq, Eq)]
pub struct Icon {
    /// The attributes.
    pub props: IconProps,
    /// The children, by slot.
    pub slots: IconSlots,
}

/// The mathematical model of an [`Icon`].
pub struct IconView {
    /// The attributes.
    pub props: IconPropsView,
    /// The children, by slot.
    pub slots: IconSlots,
}

impl View for Icon {
    type V = IconView;

    open spec fn view(&self) -> IconView {
        IconView { props: self.props@, slots: self.slots@ }
    }
}

impl Clone for Icon {
    fn clone(&self) -> (kind: Icon)
        ensures
            kind@ == self@,
    {
        Icon { props: self.props.clone(), slots: self.slots.clone() }
    }
}

impl Default for Icon {
    fn default() -> (kind: Icon)
        ensures
            kind@ == IconView::initial(),
    {
        Icon { props: IconProps::default(), slots: IconSlots::default() }
    }
}

impl IconView {
    /// The icon with every attribute at its default and no children.
    pub open spec fn initial() -> IconView {
        Self { props: IconPropsView::initial(), slots: IconSlots::initial() }
    }

    /// The object that the icon is written as, without a `type` member.
    pub open spec fn encoded(self) -> JsonView {
        kind_object(true, self.props.encoded(), self.slots.encoded())
    }

    /// The icon that a value is read as. The shape of the object is checked
    /// first, then the attributes are read, then the slots; the first failure
    /// is the result.
    pub open spec fn decoded(json: JsonView) -> Result<IconView, DecodeErrorView> {
        match kind_parts(json, true, true, false) {
            Err(e) => Err(e),
            Ok(parts) => {
                let props = IconPropsView::decoded(parts.0);
                let slots = IconSlots::decoded(parts.1);
                if props is Err {
                    Err(props->Err_0)
                } else if slots is Err {
                    Err(slots->Err_0)
                } else {
                    Ok(IconView { props: props->Ok_0, slots: slots->Ok_0 })
                }
            },
        }
    }

    /// Reading back the object that the icon was written as gives the
    /// icon.
    pub proof fn lemma_round_trip(self)
        ensures
            Self::decoded(self.encoded()) == Ok::<Self, DecodeErrorView>(self),
    {
        self.props.lemma_round_trip();
        self.slots.lemma_round_trip();
        self.props.lemma_encoded();
        lemma_kind_parts_of_object(true, self.props.encoded(), self.slots.encoded(), true, false);
    }

    /// The object has no `slots` member.
    pub proof fn lemma_defaults_left_out(self)
        ensures
            self.encoded() matches JsonView::Object(members) && lookup(members, "slots"@) is None,
    {
        lemma_kind_object_records(true, self.props.encoded(), self.slots.encoded());
    }

    /// A `type` member in front of the members of a value does not change
    /// what the value is read as.
    pub proof fn lemma_decoded_tagged(tag: Seq<char>, json: JsonView)
        ensures
            IconView::decoded(tagged(tag, json)) == IconView::decoded(json),
    {
        lemma_kind_parts_of_tagged(tag, json, true, true, false);
    }
}

impl Icon {
    /// Writes the icon as an object, without a `type` member, from which it
    /// can be read back.
    pub fn encode(&self) -> (json: Json)
        ensures
            json@ == self@.encoded(),
            IconView::decoded(json@) == Ok::<IconView, DecodeErrorView>(self@),
    {
        proof {
            self@.lemma_round_trip();
        }
        build(true, self.props.encode(), self.slots.encode())
    }

    /// Reads the icon from an object; a `type` member, if there is one, is
    /// not looked at.
    pub fn decode(json: &Json) -> (r: Result<Icon, DecodeError>)
        ensures
            result_view(r) == IconView::decoded(json@),
    {
        let parts = split(json, true, true, false)?;
        let none = no_members();
        let props = IconProps::decode(or_none(parts.0, &none))?;
        let slots = IconSlots::decode(or_none(parts.1, &none))?;
        Ok(Icon { props, slots })
    }
}

/// A component that is set within running text.
#[derive(Debug, PartialEq, Eq)]
pub enum InlineComponent {
    Text(Text),
    Icon(Icon),
}

/// The mathematical model of an [`InlineComponent`].
pub enum InlineComponentView {
    Text(TextView),
    Icon(IconView),
}

impl View for InlineComponent {
    type V = InlineComponentView;

    open spec fn view(&self) -> InlineComponentView {
        match self {
            InlineComponent::Text(kind) => InlineComponentView::Text(kind@),
            InlineComponent::Icon(kind) => InlineComponentView::Icon(kind@),
        }
    }
}

impl Clone for InlineComponent {
    fn clone(&self) -> (component: InlineComponent)
        ensures
            component@ == self@,
    {
        match self {
            InlineComponent::Text(kind) => InlineComponent::Text(kind.clone()),
            InlineComponent::Icon(kind) => InlineComponent::Icon(kind.clone()),
        }
    }
}

impl InlineComponentView {
    /// The object that the component is written as: the object of its kind
    /// with the name of the kind under `type`.
    pub open spec fn encoded(self) -> JsonView {
        match self {
            InlineComponentView::Text(kind) => tagged("Text"@, kind.encoded()),
            InlineComponentView::Icon(kind) => tagged("Icon"@, kind.encoded()),
        }
    }

    /// The component that a value is read as: the `type` member picks the
    /// kind, and a name that is not the name of an inline kind is an unknown
    /// tag.
    pub open spec fn decoded(json: JsonView) -> Result<InlineComponentView, DecodeErrorView> {
        match tag_of(json) {
            Err(e) => Err(e),
            Ok(tag) => if tag == "Text"@ {
                match TextView::decoded(json) {
                    Ok(kind) => Ok(InlineComponentView::Text(kind)),
                    Err(e) => Err(e),
                }
            } else if tag == "Icon"@ {
                match IconView::decoded(json) {
                    Ok(kind) => Ok(InlineComponentView::Icon(kind)),
                    Err(e) => Err(e),
                }
            } else {
                Err(DecodeErrorView::UnknownTag(tag))
            },
        }
    }

    /// Reading back the object that the component was written as gives the
    /// component.
    pub proof fn lemma_round_trip(self)
        ensures
            InlineComponentView::decoded(self.encoded()) == Ok::<
                InlineComponentView,
                DecodeErrorView,
            >(self),
    {
        reveal_strlit("Text");
        reveal_strlit("Icon");
        assert("Text"@[0] == 'T' && "Icon"@[0] == 'I');
        match self {
            InlineComponentView::Text(kind) => {
                kind.lemma_round_trip();
                lemma_tag_of_tagged("Text"@, kind.encoded());
                TextView::lemma_decoded_tagged("Text"@, kind.encoded());
            },
            InlineComponentView::Icon(kind) => {
                kind.lemma_round_trip();
                lemma_tag_of_tagged("Icon"@, kind.encoded());
                IconView::lemma_decoded_tagged("Icon"@, kind.encoded());
            },
        }
    }

    /// Whatever is read as an inline component holds `true` under `inline`.
    pub proof fn lemma_decoded_is_inline(json: JsonView)
        ensures
            InlineComponentView::decoded(json) is Ok ==> json is Object && literal(
                json->Object_0,
                "inline"@,
                true,
            ) is Ok,
    {
    }
}

impl InlineComponent {
    /// Writes the component as an object with its `type` member, from which
    /// it can be read back.
    pub fn encode(&self) -> (json: Json)
        ensures
            json@ == self@.encoded(),
            InlineComponentView::decoded(json@) == Ok::<InlineComponentView, DecodeErrorView>(
                self@,
            ),
    {
        proof {
            self@.lemma_round_trip();
        }
        match self {
            InlineComponent::Text(kind) => with_tag("Text", kind.encode()),
            InlineComponent::Icon(kind) => with_tag("Icon", kind.encode()),
        }
    }

    /// Reads the component from an object with a `type` member.
    pub fn decode(json: &Json) -> (r: Result<InlineComponent, DecodeError>)
        ensures
            result_view(r) == InlineComponentView::decoded(json@),
    {
        let tag = read_tag(json)?;
        if same(tag.as_str(), "Text") {
            Ok(InlineComponent::Text(Text::decode(json)?))
        } else if same(tag.as_str(), "Icon") {
            Ok(InlineComponent::Icon(Icon::decode(json)?))
        } else {
            Err(DecodeError::UnknownTag(tag))
        }
    }
}

/// The models of a sequence of inline components, in order.
pub open spec fn inlines_view(items: Seq<InlineComponent>) -> Seq<InlineComponentView> {
    Seq::new(items.len(), |i: int| items[i]@)
}

/// The array items that a sequence of inline components is written as, in
/// order.
pub open spec fn encoded_inlines(items: Seq<InlineComponentView>) -> Seq<JsonView> {
    Seq::new(items.len(), |i: int| items[i].encoded())
}

/// The sequence of inline components that the items of an array are read as:
/// the items are read in order, and the first failure is the result.
pub open spec fn decoded_inlines(items: Seq<JsonView>) -> Result<
    Seq<InlineComponentView>,
    DecodeErrorView,
>
    decreases items.len(),
{
    if items.len() == 0 {
        Ok(Seq::empty())
    } else {
        match decoded_inlines(items.drop_last()) {
            Err(e) => Err(e),
            Ok(front) => match InlineComponentView::decoded(items.last()) {
                Err(e) => Err(e),
                Ok(last) => Ok(front.push(last)),
            },
        }
    }
}

/// What stands for a slot of inline components: always an array, even when
/// the slot holds nothing.
pub open spec fn inlines_value(items: Seq<InlineComponentView>) -> Option<JsonView> {
    Some(JsonView::Array(encoded_inlines(items)))
}

/// A slot of inline components as it is read: the member must be there and
/// be an array, and each of its items must be an inline component.
pub open spec fn inlines_at(members: Members, key: Seq<char>) -> Result<
    Seq<InlineComponentView>,
    DecodeErrorView,
> {
    match required_array(members, key) {
        Err(e) => Err(e),
        Ok(items) => decoded_inlines(items),
    }
}

/// Reading back the items that a sequence was written as gives the sequence.
pub proof fn lemma_inlines_round_trip(items: Seq<InlineComponentView>)
    ensures
        decoded_inlines(encoded_inlines(items)) == Ok::<Seq<InlineComponentView>, DecodeErrorView>(
            items,
        ),
    decreases items.len(),
{
    if items.len() != 0 {
        lemma_inlines_round_trip(items.drop_last());
        items.last().lemma_round_trip();
        assert(encoded_inlines(items).drop_last() == encoded_inlines(items.drop_last()));
        assert(items.drop_last().push(items.last()) == items);
    } else {
        assert(items == Seq::<InlineComponentView>::empty());
    }
}

/// Once the first `n` items of an array have failed to be read, the array as
/// a whole fails in the same way.
pub proof fn lemma_decoded_inlines_fails(items: Seq<JsonView>, n: int)
    requires
        0 <= n <= items.len(),
        decoded_inlines(items.take(n)) is Err,
    ensures
        decoded_inlines(items) == decoded_inlines(items.take(n)),
    decreases items.len() - n,
{
    if n < items.len() {
        assert(items.take(n + 1).drop_last() == items.take(n));
        lemma_decoded_inlines_fails(items, n + 1);
    } else {
        assert(items.take(n) == items);
    }
}

/// A copy of a sequence of inline components.
pub fn clone_inlines(items: &Vec<InlineComponent>) -> (copy: Vec<InlineComponent>)
    ensures
        inlines_view(copy@) == inlines_view(items@),
{
    let mut copy: Vec<InlineComponent> = Vec::new();
    let mut i: usize = 0;
    while i < items.len()
        invariant
            i <= items.len(),
            copy@.len() == i,
            forall|j: int| 0 <= j < i ==> (#[trigger] copy@[j])@ == items@[j]@,
        decreases items.len() - i,
    {
        copy.push(items[i].clone());
        i += 1;
    }
    assert(inlines_view(copy@) =~= inlines_view(items@));
    copy
}

/// Writes a sequence of inline components as the items of an array, from
/// which it can be read back.
pub fn encode_inlines(items: &Vec<InlineComponent>) -> (array: Vec<Json>)
    ensures
        items_view(array@) == encoded_inlines(inlines_view(items@)),
        decoded_inlines(items_view(array@)) == Ok::<Seq<InlineComponentView>, DecodeErrorView>(
            inlines_view(items@),
        ),
{
    proof {
        lemma_inlines_round_trip(inlines_view(items@));
    }
    let mut array: Vec<Json> = Vec::new();
    let mut i: usize = 0;
    while i < items.len()
        invariant
            i <= items.len(),
            array@.len() == i,
            forall|j: int| 0 <= j < i ==> (#[trigger] array@[j])@ == items@[j]@.encoded(),
        decreases items.len() - i,
    {
        array.push(items[i].encode());
        i += 1;
    }
    assert(items_view(array@) =~= encoded_inlines(inlines_view(items@)));
    array
}

/// Reads the items of an array as a sequence of inline components.
pub fn decode_inlines(items: &Vec<Json>) -> (r: Result<Vec<InlineComponent>, DecodeError>)
    ensures
        result_map(r, |read: Vec<InlineComponent>| inlines_view(read@)) == decoded_inlines(
            items_view(items@),
        ),
{
    let ghost all = items_view(items@);
    let mut read: Vec<InlineComponent> = Vec::new();
    let mut i: usize = 0;
    assert(inlines_view(read@) =~= Seq::empty());
    while i < items.len()
        invariant
            i <= items.len(),
            all == items_view(items@),
            decoded_inlines(all.take(i as int)) == Ok::<Seq<InlineComponentView>, DecodeErrorView>(
                inlines_view(read@),
            ),
        decreases items.len() - i,
    {
        let ghost before = inlines_view(read@);
        assert(all.take(i + 1).drop_last() == all.take(i as int));
        assert(all.take(i + 1).last() == items@[i as int]@);
        match InlineComponent::decode(&items[i]) {
            Err(e) => {
                proof {
                    lemma_decoded_inlines_fails(all, i + 1);
                }
                return Err(e);
            },
            Ok(component) => {
                read.push(component);
                assert(inlines_view(read@) =~= before.push(component@));
            },
        }
        i += 1;
    }
    assert(all.take(i as int) == all);
    Ok(read)
}

/// Appends a slot of inline components to a member list.
pub fn put_inlines(members: &mut Vec<(String, Json)>, key: &str, items: &Vec<InlineComponent>)
    ensures
        members_view(final(members)@) == members_view(old(members)@) + field(
            key@,
            inlines_value(inlines_view(items@)),
        ),
{
    put(members, key, Json::Array(encode_inlines(items)));
}

/// Reads a slot of inline components from a member list.
pub fn read_inlines(members: &Vec<(String, Json)>, key: &str) -> (r: Result<
    Vec<InlineComponent>,
    DecodeError,
>)
    ensures
        result_map(r, |read: Vec<InlineComponent>| inlines_view(read@)) == inlines_at(
            members_view(members@),
            key@,
        ),
{
    let items = read_array(members, key)?;
    decode_inlines(items)
}

} // verus!
