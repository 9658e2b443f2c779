//! What the relay reads of a MIME message. The parser is the caller's: it fills
//! these values, and the relay decides on them.

use crate::json::opt_text;
use vstd::prelude::*;

verus! {

/// The headers and bodies of a message, as far as the relay reads them.
#[derive(Debug)]
pub struct Head {
    /// The display names of the senders, in the order of the `From` header; an
    /// entry is `None` where a sender has no display name.
    pub senders: Vec<Option<String>>,
    pub subject: Option<String>,
    /// The bodies of the message as HTML, in order; an entry is `None` where a
    /// body cannot be shown as HTML.
    pub html_bodies: Vec<Option<String>>,
}

/// What the relay reads of one attachment.
#[derive(Debug)]
pub struct Part {
    /// The type of the `Content-Disposition` header.
    pub disposition: Option<String>,
    /// The type of the `Content-Type` header.
    pub media_type: Option<String>,
    /// The subtype of the `Content-Type` header.
    pub media_subtype: Option<String>,
    pub content_id: Option<String>,
    pub name: Option<String>,
    pub contents: Vec<u8>,
}

/// A parsed message: its head and its attachments, in order.
#[derive(Debug)]
pub struct Mime {
    pub head: Head,
    pub parts: Vec<Part>,
}

pub struct HeadView {
    pub senders: Seq<Option<Seq<char>>>,
    pub subject: Option<Seq<char>>,
    pub html_bodies: Seq<Option<Seq<char>>>,
}

pub struct PartView {
    pub disposition: Option<Seq<char>>,
    pub media_type: Option<Seq<char>>,
    pub media_subtype: Option<Seq<char>>,
    pub content_id: Option<Seq<char>>,
    pub name: Option<Seq<char>>,
    pub contents: Seq<u8>,
}

pub struct MimeView {
    pub head: HeadView,
    pub parts: Seq<PartView>,
}

/// The characters of a sequence of optional strings.
pub open spec fn opt_texts(v: Seq<Option<String>>) -> Seq<Option<Seq<char>>> {
    v.map_values(|s: Option<String>| opt_text(s))
}

/// The views of a sequence of parts.
pub open spec fn part_views(parts: Seq<Part>) -> Seq<PartView> {
    parts.map_values(|p: Part| p@)
}

impl View for Head {
    type V = HeadView;

    open spec fn view(&self) -> HeadView {
        HeadView {
            senders: opt_texts(self.senders@),
            subject: opt_text(self.subject),
            html_bodies: opt_texts(self.html_bodies@),
        }
    }
}

impl View for Part {
    type V = PartView;

    open spec fn view(&self) -> PartView {
        PartView {
            disposition: opt_text(self.disposition),
            media_type: opt_text(self.media_type),
            media_subtype: opt_text(self.media_subtype),
            content_id: opt_text(self.content_id),
            name: opt_text(self.name),
            contents: self.contents@,
        }
    }
}

impl View for Mime {
    type V = MimeView;

    open spec fn view(&self) -> MimeView {
        MimeView { head: self.head@, parts: part_views(self.parts@) }
    }
}

pub open spec fn opt_mime_view(m: Option<Mime>) -> Option<MimeView> {
    match m {
        Some(m) => Some(m@),
        None => None,
    }
}

} // verus!
