//! The older reply-builder family, kept for callers that still speak the
//! acknowledge-based response shape.
//!
//! Unlike the current builder, every message state carries a
//! `with_source` flag, and acknowledgements are replies of their own.

use vstd::prelude::*;

verus! {

use crate::interaction::embed::Embed;
use crate::interaction::response::AllowedMentions;
use crate::interaction::response::ApplicationCommandCallbackData;
use crate::interaction::response::spec_embeds_seq;

/// A reply in the older response shape.
#[derive(Debug)]
pub enum InteractionResponse {
    /// The answer to a liveness probe.
    Pong,
    /// A bare acknowledgement.
    Acknowledge,
    /// An acknowledgement that echoes the command.
    AcknowledgeWithSource,
    /// A channel message.
    ChannelMessage(ApplicationCommandCallbackData),
    /// A channel message that echoes the command.
    ChannelMessageWithSource(ApplicationCommandCallbackData),
}

/// Assembles a reply step by step; the type parameter names the state the
/// reply is in, so an incomplete reply cannot be finished.
#[derive(Debug)]
pub struct InteractionResponseBuilder<State>(pub State);

/// State of a pong reply.
#[derive(Debug)]
pub struct Pong;

/// State of an acknowledgement.
#[derive(Debug)]
pub struct Acknowledge {
    pub with_source: bool,
}

/// State of a channel message that has no content yet.
#[derive(Debug)]
pub struct ChannelMessageNoContent {
    pub with_source: bool,
    pub tts: Option<bool>,
    pub embeds: Option<Vec<Embed>>,
    pub allowed_mentions: Option<AllowedMentions>,
}

/// State of a channel message that can be finished.
#[derive(Debug)]
pub struct ChannelMessage {
    pub with_source: bool,
    pub content: String,
    pub tts: Option<bool>,
    pub embeds: Option<Vec<Embed>>,
    pub allowed_mentions: Option<AllowedMentions>,
}

impl InteractionResponseBuilder<Pong> {
    /// Starts a pong reply.
    pub fn pong() -> Self {
        InteractionResponseBuilder(Pong)
    }

    /// The finished pong reply.
    pub fn finish(self) -> (r: InteractionResponse)
        ensures
            r is Pong,
    {
        InteractionResponse::Pong
    }
}

impl InteractionResponseBuilder<Acknowledge> {
    /// Starts an acknowledgement that does not echo the command.
    pub fn acknowledge() -> (r: Self)
        ensures
            !r.0.with_source,
    {
        InteractionResponseBuilder(Acknowledge { with_source: false })
    }

    /// Sets whether the reply echoes the command.
    pub fn with_source(self, with_source: bool) -> (r: Self)
        ensures
            r.0.with_source == with_source,
    {
        InteractionResponseBuilder(Acknowledge { with_source })
    }

    /// The finished acknowledgement, echoing the command when asked to.
    pub fn finish(self) -> (r: InteractionResponse)
        ensures
            self.0.with_source ==> r is AcknowledgeWithSource,
            !self.0.with_source ==> r is Acknowledge,
    {
        if self.0.with_source {
            InteractionResponse::AcknowledgeWithSource
        } else {
            InteractionResponse::Acknowledge
        }
    }
}

impl InteractionResponseBuilder<ChannelMessageNoContent> {
    /// Starts a channel-message reply with nothing set.
    pub fn channel_message() -> (r: Self)
        ensures
            !r.0.with_source,
            r.0.tts is None,
            r.0.embeds is None,
            r.0.allowed_mentions is None,
    {
        InteractionResponseBuilder(
            ChannelMessageNoContent {
                with_source: false,
                tts: None,
                embeds: None,
                allowed_mentions: None,
            },
        )
    }

    /// Sets the message text; the reply can then be finished.
    pub fn content(self, content: &str) -> (r: InteractionResponseBuilder<ChannelMessage>)
        ensures
            r.0.content@ == content@,
            r.0.with_source == self.0.with_source,
            r.0.tts == self.0.tts,
            r.0.embeds == self.0.embeds,
            r.0.allowed_mentions == self.0.allowed_mentions,
    {
        let ChannelMessageNoContent { with_source, tts, embeds, allowed_mentions } = self.0;
        InteractionResponseBuilder(
            ChannelMessage {
                with_source,
                content: content.to_owned(),
                tts,
                embeds,
                allowed_mentions,
            },
        )
    }

    /// Sets whether the reply echoes the command.
    pub fn with_source(self, with_source: bool) -> (r: Self)
        ensures
            r.0.with_source == with_source,
            r.0.tts == self.0.tts,
            r.0.embeds == self.0.embeds,
            r.0.allowed_mentions == self.0.allowed_mentions,
    {
        let mut s = self;
        s.0.with_source = with_source;
        s
    }

    /// Sets whether the message is read aloud.
    pub fn tts(self, tts: bool) -> (r: Self)
        ensures
            r.0.tts == Some(tts),
            r.0.with_source == self.0.with_source,
            r.0.embeds == self.0.embeds,
            r.0.allowed_mentions == self.0.allowed_mentions,
    {
        let mut s = self;
        s.0.tts = Some(tts);
        s
    }

    /// Adds an embed to the ones already gathered.
    pub fn embed(self, embed: Embed) -> (r: Self)
        ensures
            r.0.with_source == self.0.with_source,
            r.0.tts == self.0.tts,
            r.0.allowed_mentions == self.0.allowed_mentions,
            r.0.embeds matches Some(v) && v@ == spec_embeds_seq(self.0.embeds).push(embed),
    {
        let ChannelMessageNoContent { with_source, tts, embeds, allowed_mentions } = self.0;
        let mut v = match embeds {
            Some(v) => v,
            None => Vec::new(),
        };
        v.push(embed);
        InteractionResponseBuilder(
            ChannelMessageNoContent { with_source, tts, embeds: Some(v), allowed_mentions },
        )
    }

    /// Sets which mentions may notify.
    pub fn allowed_mentions(self, allowed_mentions: AllowedMentions) -> (r: Self)
        ensures
            r.0.allowed_mentions == Some(allowed_mentions),
            r.0.with_source == self.0.with_source,
            r.0.tts == self.0.tts,
            r.0.embeds == self.0.embeds,
    {
        let mut s = self;
        s.0.allowed_mentions = Some(allowed_mentions);
        s
    }
}

impl InteractionResponseBuilder<ChannelMessage> {
    /// The finished channel message, echoing the command when asked to.
    pub fn finish(self) -> (r: InteractionResponse)
        ensures
            ({
                let data = ApplicationCommandCallbackData {
                    tts: self.0.tts,
                    content: Some(self.0.content),
                    embeds: self.0.embeds,
                    allowed_mentions: self.0.allowed_mentions,
                };
                if self.0.with_source {
                    r == InteractionResponse::ChannelMessageWithSource(data)
                } else {
                    r == InteractionResponse::ChannelMessage(data)
                }
            }),
    {
        let ChannelMessage { with_source, content, tts, embeds, allowed_mentions } = self.0;
        let data = ApplicationCommandCallbackData {
            tts,
            content: Some(content),
            embeds,
            allowed_mentions,
        };
        if with_source {
            InteractionResponse::ChannelMessageWithSource(data)
        } else {
            InteractionResponse::ChannelMessage(data)
        }
    }

    /// Sets whether the reply echoes the command.
    pub fn with_source(self, with_source: bool) -> (r: Self)
        ensures
            r.0.with_source == with_source,
            r.0.content == self.0.content,
            r.0.tts == self.0.tts,
            r.0.embeds == self.0.embeds,
            r.0.allowed_mentions == self.0.allowed_mentions,
    {
        let mut s = self;
        s.0.with_source = with_source;
        s
    }

    /// Sets whether the message is read aloud.
    pub fn tts(self, tts: bool) -> (r: Self)
        ensures
            r.0.tts == Some(tts),
            r.0.with_source == self.0.with_source,
            r.0.content == self.0.content,
            r.0.embeds == self.0.embeds,
            r.0.allowed_mentions == self.0.allowed_mentions,
    {
        let mut s = self;
        s.0.tts = Some(tts);
        s
    }

    /// Adds an embed to the ones already gathered.
    pub fn embed(self, embed: Embed) -> (r: Self)
        ensures
            r.0.with_source == self.0.with_source,
            r.0.content == self.0.content,
            r.0.tts == self.0.tts,
            r.0.allowed_mentions == self.0.allowed_mentions,
            r.0.embeds matches Some(v) && v@ == spec_embeds_seq(self.0.embeds).push(embed),
    {
        let ChannelMessage { with_source, content, tts, embeds, allowed_mentions } = self.0;
        let mut v = match embeds {
            Some(v) => v,
            None => Vec::new(),
        };
        v.push(embed);
        InteractionResponseBuilder(
            ChannelMessage { with_source, content, tts, embeds: Some(v), allowed_mentions },
        )
    }

    /// Sets which mentions may notify.
    pub fn allowed_mentions(self, allowed_mentions: AllowedMentions) -> (r: Self)
        ensures
            r.0.allowed_mentions == Some(allowed_mentions),
            r.0.with_source == self.0.with_source,
            r.0.content == self.0.content,
            r.0.tts == self.0.tts,
            r.0.embeds == self.0.embeds,
    {
        let mut s = self;
        s.0.allowed_mentions = Some(allowed_mentions);
        s
    }
}

} // verus!
