//! The builder to create a new reply.
//!
//! `CreateReply` abstracts over prefix and application command responses:
//! one builder collects content, embeds, attachments, components and
//! flags, and is then serialized into the concrete outbound payload shape
//! a given response channel takes. The payload pieces (embeds,
//! attachments, rows of components, mention filters) are carried through
//! uninterpreted: this library fixes which pieces go out, in what order
//! and under which flags; the transport collaborator encodes them.

use vstd::prelude::*;

verus! {

/// One embed, carried through as its prepared payload.
#[derive(Clone)]
pub struct Embed {
    /// The embed's prepared payload, encoded by the transport.
    pub payload: String,
}

/// One attachment, carried through as its prepared payload.
#[derive(Clone)]
pub struct Attachment {
    /// The attachment's prepared payload, encoded by the transport.
    pub payload: String,
}

/// One row of message components (buttons, select menus), carried through
/// as its prepared payload.
#[derive(Clone)]
pub struct ActionRow {
    /// The row's prepared payload, encoded by the transport.
    pub payload: String,
}

/// The allowed-mentions filter of a message, carried through as its
/// prepared payload.
#[derive(Clone)]
pub struct AllowedMentions {
    /// The filter's prepared payload, encoded by the transport.
    pub payload: String,
}

/// An already-sent message an edit or a reply refers to, by id.
#[derive(Clone, Copy, PartialEq, Eq, Structural, Debug)]
pub struct Message {
    /// The message's id.
    pub id: u64,
}

/// Message builder that abstracts over prefix and application command
/// responses.
#[derive(Clone)]
pub struct CreateReply {
    /// Message content.
    pub content: Option<String>,
    /// Embeds, if present.
    pub embeds: Vec<Embed>,
    /// Message attachments.
    pub attachments: Vec<Attachment>,
    /// Whether the message is ephemeral (only has an effect in application
    /// commands). Left unset, it is completed from the command's default.
    pub ephemeral: Option<bool>,
    /// Message components, that is, buttons and select menus.
    pub components: Option<Vec<ActionRow>>,
    /// The allowed mentions for the message.
    pub allowed_mentions: Option<AllowedMentions>,
    /// Whether this message is an inline reply to the invoking message
    /// (prefix-only; application responses are always inline).
    pub reply: bool,
}

impl Default for CreateReply {
    /// A blank reply: no content, no payloads, nothing set.
    fn default() -> (r: CreateReply)
        ensures
            r.content is None && r.embeds@ == Seq::<Embed>::empty() && r.attachments@
                == Seq::<Attachment>::empty() && r.ephemeral is None && r.components is None
                && r.allowed_mentions is None && r.reply == false,
    {
        CreateReply {
            content: None,
            embeds: Vec::new(),
            attachments: Vec::new(),
            ephemeral: None,
            components: None,
            allowed_mentions: None,
            reply: false,
        }
    }
}

impl CreateReply {
    /// Creates a new blank `CreateReply`.
    pub fn new() -> (r: Self)
        ensures
            r.content is None && r.embeds@ == Seq::<Embed>::empty() && r.attachments@
                == Seq::<Attachment>::empty() && r.ephemeral is None && r.components is None
                && r.allowed_mentions is None && r.reply == false,
    {
        Self::default()
    }

    /// Set the content of the message.
    pub fn content(self, content: String) -> (r: Self)
        ensures
            r == (CreateReply { content: Some(content), ..self }),
    {
        let mut this = self;
        this.content = Some(content);
        this
    }

    /// Adds an embed to the message.
    ///
    /// Existing embeds are kept.
    pub fn embed(self, b: Embed) -> (r: Self)
        ensures
            r.embeds@ == self.embeds@.push(b),
            r.content == self.content && r.attachments == self.attachments && r.ephemeral
                == self.ephemeral && r.components == self.components && r.allowed_mentions
                == self.allowed_mentions && r.reply == self.reply,
    {
        let mut this = self;
        this.embeds.push(b);
        this
    }

    /// Set components (buttons and select menus) for this message.
    ///
    /// Any previously set components will be overwritten.
    pub fn components(self, b: Vec<ActionRow>) -> (r: Self)
        ensures
            r == (CreateReply { components: Some(b), ..self }),
    {
        let mut this = self;
        this.components = Some(b);
        this
    }

    /// Add an attachment.
    ///
    /// This will not have an effect in a slash command's initial response!
    pub fn attachment(self, attachment: Attachment) -> (r: Self)
        ensures
            r.attachments@ == self.attachments@.push(attachment),
            r.content == self.content && r.embeds == self.embeds && r.ephemeral == self.ephemeral
                && r.components == self.components && r.allowed_mentions == self.allowed_mentions
                && r.reply == self.reply,
    {
        let mut this = self;
        this.attachments.push(attachment);
        this
    }

    /// Toggles whether the message is an ephemeral response (only the
    /// invoking user can see it).
    ///
    /// This only has an effect in slash commands!
    pub fn ephemeral(self, ephemeral: bool) -> (r: Self)
        ensures
            r == (CreateReply { ephemeral: Some(ephemeral), ..self }),
    {
        let mut this = self;
        this.ephemeral = Some(ephemeral);
        this
    }

    /// Set the allowed mentions for the message.
    pub fn allowed_mentions(self, b: AllowedMentions) -> (r: Self)
        ensures
            r == (CreateReply { allowed_mentions: Some(b), ..self }),
    {
        let mut this = self;
        this.allowed_mentions = Some(b);
        this
    }

    /// Makes this message an inline reply to another message
    /// (prefix-only, because slash commands are always inline replies
    /// anyways).
    ///
    /// To disable the ping, set `Self::allowed_mentions` with the replied
    /// user excluded.
    pub fn reply(self, reply: bool) -> (r: Self)
        ensures
            r == (CreateReply { reply, ..self }),
    {
        let mut this = self;
        this.reply = reply;
        this
    }

    /// Completes the builder with the data it always has, as configured on
    /// the framework or the command: an unset ephemeral flag takes the
    /// command's default, an unset mention filter takes the framework's.
    /// The embedding then applies its reply callback, when one is
    /// registered, to the completed builder.
    ///
    /// Invoked in every place where a reply is accepted and sent out.
    pub fn complete_from_ctx(
        self,
        command_ephemeral: bool,
        framework_allowed_mentions: Option<AllowedMentions>,
    ) -> (r: Self)
        ensures
            r.ephemeral == Some(
                if self.ephemeral is Some {
                    self.ephemeral->Some_0
                } else {
                    command_ephemeral
                },
            ),
            r.allowed_mentions == if self.allowed_mentions is Some {
                self.allowed_mentions
            } else {
                framework_allowed_mentions
            },
            r.content == self.content && r.embeds == self.embeds && r.attachments
                == self.attachments && r.components == self.components && r.reply == self.reply,
    {
        let mut this = self;
        if this.ephemeral.is_none() {
            this.ephemeral = Some(command_ephemeral);
        }
        if this.allowed_mentions.is_none() {
            this.allowed_mentions = framework_allowed_mentions;
        }
        this
    }
}

/// The payload shape of an initial application command response.
pub struct InteractionResponseMessage {
    /// Message content, when set.
    pub content: Option<String>,
    /// Embeds, in order.
    pub embeds: Vec<Embed>,
    /// The allowed-mentions filter, when set.
    pub allowed_mentions: Option<AllowedMentions>,
    /// Component rows, when set.
    pub components: Option<Vec<ActionRow>>,
    /// Whether the response is ephemeral.
    pub ephemeral: bool,
    /// Attached files, in order.
    pub attachments: Vec<Attachment>,
}

/// The payload shape of an application command follow-up response.
pub struct InteractionResponseFollowup {
    /// Message content, when set.
    pub content: Option<String>,
    /// Embeds, in order.
    pub embeds: Vec<Embed>,
    /// The allowed-mentions filter, when set.
    pub allowed_mentions: Option<AllowedMentions>,
    /// Component rows, when set.
    pub components: Option<Vec<ActionRow>>,
    /// Whether the response is ephemeral.
    pub ephemeral: bool,
    /// Attached files, in order.
    pub attachments: Vec<Attachment>,
}

/// The payload shape of an edit of the initial application command
/// response. Attachments cannot be edited, and ephemerality cannot be
/// changed in retrospect, so the edit shape carries neither.
pub struct InteractionResponseEdit {
    /// Message content, when set.
    pub content: Option<String>,
    /// Embeds, in order.
    pub embeds: Vec<Embed>,
    /// The allowed-mentions filter, when set.
    pub allowed_mentions: Option<AllowedMentions>,
    /// Component rows, when set.
    pub components: Option<Vec<ActionRow>>,
}

/// The payload shape of an edit of an already-sent prefix message.
/// Ephemerality does not exist for prefix messages, and the replied-to
/// message cannot be changed afterwards.
pub struct MessageEdit {
    /// Message content, when set.
    pub content: Option<String>,
    /// Embeds, in order.
    pub embeds: Vec<Embed>,
    /// Attached files, in order.
    pub attachments: Vec<Attachment>,
    /// The allowed-mentions filter, when set.
    pub allowed_mentions: Option<AllowedMentions>,
    /// Component rows, when set.
    pub components: Option<Vec<ActionRow>>,
}

/// The payload shape of a new prefix message.
pub struct NewMessage {
    /// Message content, when set.
    pub content: Option<String>,
    /// Embeds, in order.
    pub embeds: Vec<Embed>,
    /// The allowed-mentions filter, when set.
    pub allowed_mentions: Option<AllowedMentions>,
    /// Component rows, when set.
    pub components: Option<Vec<ActionRow>>,
    /// The message this one replies to inline, when the builder asked for
    /// a reply.
    pub reference_message: Option<Message>,
    /// Attached files, in order.
    pub attachments: Vec<Attachment>,
}

impl CreateReply {
    /// Serialize this response builder to the initial-response payload
    /// shape. An unset ephemeral flag goes out as not ephemeral; the
    /// reply flag has no meaning here, since interactions cannot reply to
    /// a message.
    pub fn to_slash_initial_response(self) -> (f: InteractionResponseMessage)
        ensures
            f.content == self.content,
            f.embeds == self.embeds,
            f.allowed_mentions == self.allowed_mentions,
            f.components == self.components,
            f.ephemeral == (self.ephemeral matches Some(true)),
            f.attachments == self.attachments,
    {
        let CreateReply {
            content,
            embeds,
            attachments,
            ephemeral,
            components,
            allowed_mentions,
            reply: _,  // can't reply to a message in interactions
        } = self;
        let ephemeral = match ephemeral {
            Some(e) => e,
            None => false,
        };
        InteractionResponseMessage {
            content,
            embeds,
            allowed_mentions,
            components,
            ephemeral,
            attachments,
        }
    }

    /// Serialize this response builder to the follow-up payload shape.
    pub fn to_slash_followup_response(self) -> (f: InteractionResponseFollowup)
        ensures
            f.content == self.content,
            f.embeds == self.embeds,
            f.allowed_mentions == self.allowed_mentions,
            f.components == self.components,
            f.ephemeral == (self.ephemeral matches Some(true)),
            f.attachments == self.attachments,
    {
        let CreateReply {
            content,
            embeds,
            attachments,
            ephemeral,
            components,
            allowed_mentions,
            reply: _,
        } = self;
        let ephemeral = match ephemeral {
            Some(e) => e,
            None => false,
        };
        InteractionResponseFollowup {
            content,
            embeds,
            allowed_mentions,
            components,
            ephemeral,
            attachments,
        }
    }

    /// Serialize this response builder to the initial-response edit
    /// payload shape. Attachments and the ephemeral flag are dropped:
    /// neither can be changed by an edit.
    pub fn to_slash_initial_response_edit(self) -> (f: InteractionResponseEdit)
        ensures
            f.content == self.content,
            f.embeds == self.embeds,
            f.allowed_mentions == self.allowed_mentions,
            f.components == self.components,
    {
        let CreateReply {
            content,
            embeds,
            attachments: _,  // no attachment edits in this response shape
            ephemeral: _,  // can't edit ephemerality in retrospect
            components,
            allowed_mentions,
            reply: _,
        } = self;
        InteractionResponseEdit { content, embeds, allowed_mentions, components }
    }

    /// Serialize this response builder to the prefix message edit payload
    /// shape. Ephemerality is not supported in prefix mode, and the
    /// replied-to message cannot be changed afterwards.
    pub fn to_prefix_edit(self) -> (f: MessageEdit)
        ensures
            f.content == self.content,
            f.embeds == self.embeds,
            f.attachments == self.attachments,
            f.allowed_mentions == self.allowed_mentions,
            f.components == self.components,
    {
        let CreateReply {
            content,
            embeds,
            attachments,
            ephemeral: _,  // not supported in prefix
            components,
            allowed_mentions,
            reply: _,  // can't edit the reference message afterwards
        } = self;
        MessageEdit { content, embeds, attachments, allowed_mentions, components }
    }

    /// Serialize this response builder to the new prefix message payload
    /// shape, replying inline to `invocation_message` when the builder
    /// asked for a reply.
    pub fn to_prefix(self, invocation_message: &Message) -> (m: NewMessage)
        ensures
            m.content == self.content,
            m.embeds == self.embeds,
            m.allowed_mentions == self.allowed_mentions,
            m.components == self.components,
            m.reference_message == if self.reply {
                Some(*invocation_message)
            } else {
                None::<Message>
            },
            m.attachments == self.attachments,
    {
        let CreateReply {
            content,
            embeds,
            attachments,
            ephemeral: _,  // not supported in prefix
            components,
            allowed_mentions,
            reply,
        } = self;
        let reference_message = if reply {
            Some(*invocation_message)
        } else {
            None
        };
        NewMessage {
            content,
            embeds,
            allowed_mentions,
            components,
            reference_message,
            attachments,
        }
    }
}

} // verus!
