//! What the bot says: replies, embeds and their fields.

use vstd::prelude::*;

verus! {

/// The colour of every embed that the bot sends.
pub const EMBED_COLOR: u32 = 0x8B_D8C6;

/// One titled line of an embed.
#[derive(Debug, Clone, PartialEq, Eq)]
pub struct EmbedField {
    pub name: String,
    pub value: String,
    pub inline: bool,
}

pub struct EmbedFieldView {
    pub name: Seq<char>,
    pub value: Seq<char>,
    pub inline: bool,
}

impl View for EmbedField {
    type V = EmbedFieldView;

    open spec fn view(&self) -> EmbedFieldView {
        EmbedFieldView { name: self.name@, value: self.value@, inline: self.inline }
    }
}

impl DeepView for EmbedField {
    type V = EmbedFieldView;

    open spec fn deep_view(&self) -> EmbedFieldView {
        self@
    }
}

impl EmbedField {
    /// A field that takes a line of its own.
    pub fn new(name: &str, value: &str) -> (field: Self)
        ensures
            field@ == block_field(name@, value@),
    {
        EmbedField { name: String::from_str(name), value: String::from_str(value), inline: false }
    }
}

/// The field that `EmbedField::new` makes of a name and a value.
pub open spec fn block_field(name: Seq<char>, value: Seq<char>) -> EmbedFieldView {
    EmbedFieldView { name, value, inline: false }
}

/// A card with a title, an optional description and fields.
#[derive(Debug, Clone, PartialEq, Eq)]
pub struct Embed {
    pub title: String,
    pub description: Option<String>,
    pub color: u32,
    pub fields: Vec<EmbedField>,
}

pub struct EmbedView {
    pub title: Seq<char>,
    pub description: Option<Seq<char>>,
    pub color: u32,
    pub fields: Seq<EmbedFieldView>,
}

impl View for Embed {
    type V = EmbedView;

    open spec fn view(&self) -> EmbedView {
        EmbedView {
            title: self.title@,
            description: self.description.deep_view(),
            color: self.color,
            fields: self.fields.deep_view(),
        }
    }
}

impl DeepView for Embed {
    type V = EmbedView;

    open spec fn deep_view(&self) -> EmbedView {
        self@
    }
}

impl Embed {
    /// An embed in the bot's colour with a title and nothing else.
    pub fn new(title: &str) -> (embed: Self)
        ensures
            embed@ == titled(title@),
    {
        let embed = Embed {
            title: String::from_str(title),
            description: None,
            color: EMBED_COLOR,
            fields: Vec::new(),
        };
        assert(embed.fields.deep_view() =~= Seq::empty());
        embed
    }

    /// The embed with `text` as its description.
    pub fn description(self, text: String) -> (embed: Self)
        ensures
            embed@ == (EmbedView { description: Some(text@), ..self@ }),
    {
        Embed { description: Some(text), ..self }
    }

    /// The embed with `field` after the fields that it has.
    pub fn field(self, field: EmbedField) -> (embed: Self)
        ensures
            embed@ == (EmbedView { fields: self@.fields.push(field@), ..self@ }),
    {
        let mut embed = self;
        embed.fields.push(field);
        assert(embed.fields.deep_view() =~= self.fields.deep_view().push(field@));
        embed
    }
}

/// The embed that `Embed::new` makes of a title.
pub open spec fn titled(title: Seq<char>) -> EmbedView {
    EmbedView { title, description: None, color: EMBED_COLOR, fields: Seq::empty() }
}

/// A message for the user, before it is known by which platform call it
/// will travel.
#[derive(Debug, Clone, PartialEq, Eq)]
pub struct Reply {
    pub content: String,
    pub embed: Option<Embed>,
    pub ephemeral: bool,
    pub update_last: bool,
}

pub struct ReplyView {
    pub content: Seq<char>,
    pub embed: Option<EmbedView>,
    pub ephemeral: bool,
    pub update_last: bool,
}

impl View for Reply {
    type V = ReplyView;

    open spec fn view(&self) -> ReplyView {
        ReplyView {
            content: self.content@,
            embed: self.embed.deep_view(),
            ephemeral: self.ephemeral,
            update_last: self.update_last,
        }
    }
}

impl DeepView for Reply {
    type V = ReplyView;

    open spec fn deep_view(&self) -> ReplyView {
        self@
    }
}

impl ReplyView {
    /// The reply that `Reply::new` makes.
    pub open spec fn empty() -> ReplyView {
        ReplyView { content: Seq::empty(), embed: None, ephemeral: false, update_last: false }
    }

    /// A visible reply of text alone.
    pub open spec fn text(content: Seq<char>) -> ReplyView {
        ReplyView { content, ..ReplyView::empty() }
    }

    /// A reply of text alone that only the invoking user sees.
    pub open spec fn notice(content: Seq<char>) -> ReplyView {
        ReplyView { content, ephemeral: true, ..ReplyView::empty() }
    }
}

impl Reply {
    /// An empty reply: visible to all, and a message of its own.
    pub fn new() -> (reply: Self)
        ensures
            reply@ == ReplyView::empty(),
    {
        Reply { content: String::new(), embed: None, ephemeral: false, update_last: false }
    }

    /// The reply with `content` in place of its text.
    pub fn content(self, content: String) -> (reply: Self)
        ensures
            reply@ == (ReplyView { content: content@, ..self@ }),
    {
        Reply { content, ..self }
    }

    /// The reply with `embed` in place of its embed.
    pub fn embed(self, embed: Embed) -> (reply: Self)
        ensures
            reply@ == (ReplyView { embed: Some(embed@), ..self@ }),
    {
        Reply { embed: Some(embed), ..self }
    }

    /// The reply, visible to the invoking user only.
    pub fn ephemeral(self) -> (reply: Self)
        ensures
            reply@ == (ReplyView { ephemeral: true, ..self@ }),
    {
        Reply { ephemeral: true, ..self }
    }

    /// The reply, meant to replace the last message instead of following it.
    pub fn update_last(self) -> (reply: Self)
        ensures
            reply@ == (ReplyView { update_last: true, ..self@ }),
    {
        Reply { update_last: true, ..self }
    }

    /// A reply of `text` alone that only the invoking user sees.
    pub fn notice(text: &str) -> (reply: Self)
        ensures
            reply@ == ReplyView::notice(text@),
    {
        Reply {
            content: String::from_str(text),
            embed: None,
            ephemeral: true,
            update_last: false,
        }
    }
}

} // verus!
