//! Rich-embed payload attached to a channel-message response.
//!
//! The timestamp is carried as unix seconds; the transport layer renders
//! it in its wire format when the embed is serialized.

use vstd::prelude::*;

verus! {

/// An embedded card: every part optional.
#[derive(Clone, Debug)]
pub struct Embed {
    pub title: Option<String>,
    pub description: Option<String>,
    pub url: Option<String>,
    pub timestamp: Option<i64>,
    pub footer: Option<Footer>,
    pub thumbnail: Option<Media>,
    pub image: Option<Media>,
    pub video: Option<Media>,
    pub provider: Option<Provider>,
    pub author: Option<Author>,
    pub fields: Option<Vec<Field>>,
}

/// The embed's footer line.
#[derive(Clone, Debug)]
pub struct Footer {
    pub text: String,
    pub icon_url: Option<String>,
    pub proxy_icon_url: Option<String>,
}

/// An image or video attached to the embed.
#[derive(Clone, Debug)]
pub struct Media {
    pub url: Option<String>,
    pub proxy_url: Option<String>,
    pub height: Option<u32>,
    pub width: Option<u32>,
}

/// The name and link of the embed's provider.
#[derive(Clone, Debug)]
pub struct Provider {
    pub name: Option<String>,
    pub url: Option<String>,
}

/// The author line of the embed.
#[derive(Clone, Debug)]
pub struct Author {
    pub name: Option<String>,
    pub url: Option<String>,
    pub icon_url: Option<String>,
    pub proxy_icon_url: Option<String>,
}

/// One name/value pair shown in the embed's body.
#[derive(Clone, Debug)]
pub struct Field {
    pub name: String,
    pub value: String,
    pub inline: Option<bool>,
}

impl Field {
    /// A field rendered on its own line.
    pub fn new(name: &str, value: &str) -> (r: Field)
        ensures
            r.name@ == name@,
            r.value@ == value@,
            r.inline is None,
    {
        Field { name: name.to_owned(), value: value.to_owned(), inline: None }
    }

    /// A field rendered inline with its neighbours.
    pub fn new_inline(name: &str, value: &str) -> (r: Field)
        ensures
            r.name@ == name@,
            r.value@ == value@,
            r.inline == Some(true),
    {
        Field { name: name.to_owned(), value: value.to_owned(), inline: Some(true) }
    }
}

} // verus!
