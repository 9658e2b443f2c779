//! From an accepted message to the payload of the send request.
//!
//! The message body is MIME. Its first HTML body becomes the body of the letter
//! and the name of its first sender the name of the letter's sender;
//! attachments that are displayed inline are put into the HTML as data URIs
//! where it refers to them by content id; the others travel as attachments.

use crate::codec::{encodable, encode_standard, encode_url_safe, standard_base64, url_safe_base64};
use crate::json::{json_quoted, opt_text, quote};
use crate::mime::{opt_texts, part_views, Head, HeadView, Part, PartView};
use crate::smtp_server::{Addr, AddrView};
use crate::text::{append_joined, joined, replace_all, replaced, same_text, texts};
use vstd::prelude::*;
use vstd::string::*;

verus! {

/// A file that travels with a letter.
#[derive(Debug)]
pub struct Attachment {
    /// The contents, as URL-safe base64 text.
    pub body: String,
    pub filename: String,
}

/// What the send request says.
#[derive(Debug)]
pub struct Letter {
    pub subject: String,
    pub to: Vec<Addr>,
    /// The display name of the sender.
    pub sender: String,
    /// The HTML body; empty if the message has none.
    pub html: String,
    pub attachments: Vec<Attachment>,
}

/// Why a message was not turned into a letter.
#[derive(Clone, Copy, Debug, PartialEq, Eq, Structural)]
pub enum SendError {
    /// The body is not a MIME message.
    Unparsable,
    /// An attachment is too long for its base64 text to be computed on this machine.
    Oversized,
}

pub struct AttachmentView {
    pub body: Seq<char>,
    pub filename: Seq<char>,
}

pub struct LetterView {
    pub subject: Seq<char>,
    pub to: Seq<AddrView>,
    pub sender: Seq<char>,
    pub html: Seq<char>,
    pub attachments: Seq<AttachmentView>,
}

impl View for Attachment {
    type V = AttachmentView;

    open spec fn view(&self) -> AttachmentView {
        AttachmentView { body: self.body@, filename: self.filename@ }
    }
}

impl View for Letter {
    type V = LetterView;

    open spec fn view(&self) -> LetterView {
        LetterView {
            subject: self.subject@,
            to: self.to@.map_values(|a: Addr| a@),
            sender: self.sender@,
            html: self.html@,
            attachments: self.attachments@.map_values(|a: Attachment| a@),
        }
    }
}

impl SendError {
    /// The message of the failure.
    pub open spec fn text(self) -> Seq<char> {
        match self {
            SendError::Unparsable => "Failed to parse the email content"@,
            SendError::Oversized => "An attachment is too large to encode"@,
        }
    }

    /// The message of the failure.
    pub fn to_string(&self) -> (r: String)
        ensures
            r@ == self.text(),
    {
        match self {
            SendError::Unparsable => String::from_str("Failed to parse the email content"),
            SendError::Oversized => String::from_str("An attachment is too large to encode"),
        }
    }
}

/// The file name of an attachment that has none.
pub open spec fn placeholder() -> Seq<char> {
    "\u{672a}\u{77e5}"@
}

/// The part is displayed inline.
pub open spec fn is_inline(p: PartView) -> bool {
    p.disposition == Some("inline"@)
}

/// The part is put into the HTML: it is displayed inline and has a type, a
/// subtype and a content id.
pub open spec fn substitutes(p: PartView) -> bool {
    is_inline(p) && p.media_type is Some && p.media_subtype is Some && p.content_id is Some
}

/// The reference that the HTML makes to a part.
pub open spec fn reference(p: PartView) -> Seq<char> {
    "cid:"@ + p.content_id->0
}

/// The data URI that stands for a part.
pub open spec fn data_uri(p: PartView) -> Seq<char> {
    "data:"@ + p.media_type->0 + "/"@ + p.media_subtype->0 + ";base64,"@ + standard_base64(
        p.contents,
    )
}

/// The HTML after one part: its references to the part replaced, if the part is
/// put into the HTML; else unchanged.
pub open spec fn with_inline(html: Seq<char>, p: PartView) -> Seq<char> {
    if substitutes(p) {
        replaced(html, reference(p), data_uri(p))
    } else {
        html
    }
}

/// The HTML after all parts, each applied in order.
pub open spec fn html_after(html: Seq<char>, parts: Seq<PartView>) -> Seq<char>
    decreases parts.len(),
{
    if parts.len() == 0 {
        html
    } else {
        with_inline(html_after(html, parts.drop_last()), parts.last())
    }
}

/// The attachment that a part travels as.
pub open spec fn attachment_of(p: PartView) -> AttachmentView {
    AttachmentView {
        body: url_safe_base64(p.contents),
        filename: match p.name {
            Some(n) => n,
            None => placeholder(),
        },
    }
}

/// The attachments of a letter: the parts that are not displayed inline, in order.
pub open spec fn attachments_from(parts: Seq<PartView>) -> Seq<AttachmentView>
    decreases parts.len(),
{
    if parts.len() == 0 {
        Seq::empty()
    } else if is_inline(parts.last()) {
        attachments_from(parts.drop_last())
    } else {
        attachments_from(parts.drop_last()).push(attachment_of(parts.last()))
    }
}

/// The contents of the part are encoded, and can be on this machine.
pub open spec fn fits(p: PartView) -> bool {
    substitutes(p) || !is_inline(p) ==> encodable(p.contents.len())
}

/// Every part whose contents are encoded can be encoded on this machine.
pub open spec fn all_fit(parts: Seq<PartView>) -> bool {
    forall|i: int| 0 <= i < parts.len() ==> fits(#[trigger] parts[i])
}

/// The text of an optional header; empty if it is absent.
pub open spec fn or_empty(s: Option<Seq<char>>) -> Seq<char> {
    match s {
        Some(t) => t,
        None => Seq::empty(),
    }
}

/// The first of the texts, where there is one and it is present; else empty.
pub open spec fn first_or_empty(texts: Seq<Option<Seq<char>>>) -> Seq<char> {
    if texts.len() > 0 {
        or_empty(texts[0])
    } else {
        Seq::empty()
    }
}

/// The letter for these recipients that a message with this head and these
/// attachments makes.
pub open spec fn letter_of(to: Seq<AddrView>, head: HeadView, parts: Seq<PartView>) -> LetterView {
    LetterView {
        subject: or_empty(head.subject),
        to: to,
        sender: first_or_empty(head.senders),
        html: html_after(first_or_empty(head.html_bodies), parts),
        attachments: attachments_from(parts),
    }
}

/// The JSON object for a recipient.
pub open spec fn address_json(a: AddrView) -> Seq<char> {
    "{\"mail_address\":"@ + json_quoted(a.mail_address) + ",\"name\":"@ + json_quoted(a.name)
        + "}"@
}

/// The JSON object for an attachment.
pub open spec fn attachment_json(a: AttachmentView) -> Seq<char> {
    "{\"body\":"@ + json_quoted(a.body) + ",\"filename\":"@ + json_quoted(a.filename) + "}"@
}

/// The member `attachments` of the payload; absent if there are none.
pub open spec fn attachments_member(l: LetterView) -> Seq<char> {
    if l.attachments.len() != 0 {
        "\"attachments\":["@ + joined(l.attachments.map_values(|a| attachment_json(a))) + "],"@
    } else {
        Seq::empty()
    }
}

/// The member `body_html` of the payload; absent if the HTML is empty.
pub open spec fn html_member(l: LetterView) -> Seq<char> {
    if l.html.len() != 0 {
        "\"body_html\":"@ + json_quoted(l.html) + ","@
    } else {
        Seq::empty()
    }
}

/// The JSON text of the payload of the send request.
pub open spec fn letter_json(l: LetterView) -> Seq<char> {
    "{"@ + attachments_member(l) + html_member(l) + "\"head_from\":{\"name\":"@ + json_quoted(
        l.sender,
    ) + "},\"subject\":"@ + json_quoted(l.subject) + ",\"to\":["@ + joined(
        l.to.map_values(|a| address_json(a)),
    ) + "]}"@
}

pub open spec fn letter_result_view(r: Result<Letter, SendError>) -> Result<LetterView, SendError> {
    match r {
        Ok(l) => Ok(l@),
        Err(e) => Err(e),
    }
}

fn text_or_empty(s: Option<String>) -> (r: String)
    ensures
        r@ == or_empty(opt_text(s)),
{
    match s {
        Some(t) => t,
        None => String::new(),
    }
}

fn first_text(texts: &Vec<Option<String>>) -> (r: String)
    ensures
        r@ == first_or_empty(opt_texts(texts@)),
{
    if texts.len() > 0 {
        match &texts[0] {
            Some(t) => t.clone(),
            None => String::new(),
        }
    } else {
        String::new()
    }
}

fn is_inline_part(p: &Part) -> (r: bool)
    ensures
        r == is_inline(p@),
{
    match &p.disposition {
        Some(d) => same_text(d.as_str(), "inline"),
        None => false,
    }
}

/// Builds the data URI of a part that is put into the HTML, given the base64
/// text of its contents.
fn data_uri_text(media_type: &str, media_subtype: &str, encoded: &str) -> (r: String)
    ensures
        r@ == "data:"@ + media_type@ + "/"@ + media_subtype@ + ";base64,"@ + encoded@,
{
    let mut uri = String::from_str("data:");
    uri.append(media_type);
    uri.append("/");
    uri.append(media_subtype);
    uri.append(";base64,");
    uri.append(encoded);
    uri
}

/// Applies one part to the HTML. `None` when the part is too long to encode.
fn apply_inline(html: String, p: &Part) -> (r: Option<String>)
    requires
        is_inline(p@),
    ensures
        r is Some == fits(p@),
        r is Some ==> r->0@ == with_inline(html@, p@),
{
    match (&p.media_type, &p.media_subtype, &p.content_id) {
        (Some(media_type), Some(media_subtype), Some(id)) => {
            match encode_standard(p.contents.as_slice()) {
                None => None,
                Some(encoded) => {
                    let mut from = String::from_str("cid:");
                    from.append(id.as_str());
                    let to = data_uri_text(
                        media_type.as_str(),
                        media_subtype.as_str(),
                        encoded.as_str(),
                    );
                    Some(replace_all(html.as_str(), from.as_str(), to.as_str()))
                },
            }
        },
        _ => Some(html),
    }
}

/// Turns a part into the attachment it travels as. `None` when the part is too
/// long to encode.
fn attach(p: Part) -> (r: Option<Attachment>)
    requires
        !is_inline(p@),
    ensures
        r is Some == fits(p@),
        r is Some ==> r->0@ == attachment_of(p@),
{
    match encode_url_safe(p.contents.as_slice()) {
        None => None,
        Some(body) => {
            let filename = match p.name {
                Some(n) => n,
                None => String::from_str("\u{672a}\u{77e5}"),
            };
            Some(Attachment { body, filename })
        },
    }
}

/// Makes the letter for `to` out of the head and the attachments of a message.
/// Fails exactly when an attachment that has to be encoded is too long for that.
pub fn compose(to: Vec<Addr>, head: Head, parts: Vec<Part>) -> (r: Result<
    Letter,
    SendError,
>)
    ensures
        letter_result_view(r) == if all_fit(part_views(parts@)) {
            Ok::<LetterView, SendError>(
                letter_of(to@.map_values(|a: Addr| a@), head@, part_views(parts@)),
            )
        } else {
            Err::<LetterView, SendError>(SendError::Oversized)
        },
{
    let ghost all = part_views(parts@);
    let ghost html0 = first_or_empty(head@.html_bodies);
    let mut html = first_text(&head.html_bodies);
    let mut attachments: Vec<Attachment> = Vec::new();
    for part in it: parts
        invariant
            it.seq() == parts@,
            all == part_views(parts@),
            html@ == html_after(html0, all.take(it.index() as int)),
            attachments@.map_values(|a: Attachment| a@) == attachments_from(
                all.take(it.index() as int),
            ),
            all_fit(all.take(it.index() as int)),
    {
        proof {
            assert(all.take(it.index() + 1).drop_last() =~= all.take(it.index() as int));
            assert(all[it.index() as int] == part@);
        }
        if is_inline_part(&part) {
            match apply_inline(html, &part) {
                None => {
                    return Err(SendError::Oversized);
                },
                Some(next) => {
                    html = next;
                },
            }
        } else {
            match attach(part) {
                None => {
                    return Err(SendError::Oversized);
                },
                Some(a) => {
                    attachments.push(a);
                },
            }
        }
    }
    assert(all.take(parts@.len() as int) =~= all);
    Ok(
        Letter {
            subject: text_or_empty(head.subject),
            to,
            sender: first_text(&head.senders),
            html,
            attachments,
        },
    )
}

fn address_text(a: &Addr) -> (r: String)
    ensures
        r@ == address_json(a@),
{
    let mut text = String::from_str("{\"mail_address\":");
    text.append(quote(a.mail_address.as_str()).as_str());
    text.append(",\"name\":");
    text.append(quote(a.name.as_str()).as_str());
    text.append("}");
    text
}

fn attachment_text(a: &Attachment) -> (r: String)
    ensures
        r@ == attachment_json(a@),
{
    let mut text = String::from_str("{\"body\":");
    text.append(quote(a.body.as_str()).as_str());
    text.append(",\"filename\":");
    text.append(quote(a.filename.as_str()).as_str());
    text.append("}");
    text
}

impl Letter {
    fn address_texts(&self) -> (r: Vec<String>)
        ensures
            texts(r@) == self@.to.map_values(|a| address_json(a)),
    {
        let ghost all = self@.to.map_values(|a| address_json(a));
        let mut items: Vec<String> = Vec::new();
        let mut i: usize = 0;
        while i < self.to.len()
            invariant
                i <= self.to.len(),
                all == self@.to.map_values(|a| address_json(a)),
                texts(items@) == all.take(i as int),
            decreases self.to.len() - i,
        {
            let item = address_text(&self.to[i]);
            items.push(item);
            assert(all.take(i + 1) =~= all.take(i as int).push(all[i as int]));
            i += 1;
        }
        items
    }

    fn attachment_texts(&self) -> (r: Vec<String>)
        ensures
            texts(r@) == self@.attachments.map_values(|a| attachment_json(a)),
    {
        let ghost all = self@.attachments.map_values(|a| attachment_json(a));
        let mut items: Vec<String> = Vec::new();
        let mut i: usize = 0;
        while i < self.attachments.len()
            invariant
                i <= self.attachments.len(),
                all == self@.attachments.map_values(|a| attachment_json(a)),
                texts(items@) == all.take(i as int),
            decreases self.attachments.len() - i,
        {
            let item = attachment_text(&self.attachments[i]);
            items.push(item);
            assert(all.take(i + 1) =~= all.take(i as int).push(all[i as int]));
            i += 1;
        }
        items
    }

    /// The JSON text of the payload of the send request: the members
    /// `attachments` (if any), `body_html` (if not empty), `head_from`, `subject`
    /// and `to`, in this order.
    pub fn to_json(&self) -> (r: String)
        ensures
            r@ == letter_json(self@),
    {
        let mut text = String::from_str("{");
        if self.attachments.len() != 0 {
            let items = self.attachment_texts();
            text.append("\"attachments\":[");
            append_joined(&mut text, &items);
            text.append("],");
        }
        if !self.html.as_str().is_empty() {
            text.append("\"body_html\":");
            text.append(quote(self.html.as_str()).as_str());
            text.append(",");
        }
        text.append("\"head_from\":{\"name\":");
        text.append(quote(self.sender.as_str()).as_str());
        text.append("},\"subject\":");
        text.append(quote(self.subject.as_str()).as_str());
        text.append(",\"to\":[");
        let items = self.address_texts();
        append_joined(&mut text, &items);
        text.append("]}");
        text
    }
}

/// Parts that are displayed inline never travel as attachments, and parts that
/// are not put into the HTML leave it as it is: a message whose parts are all
/// attached keeps its HTML and attaches every part, in order; a message whose
/// parts are all displayed inline attaches nothing.
pub proof fn law_parts(html: Seq<char>, parts: Seq<PartView>)
    ensures
        attachments_from(parts).len() <= parts.len(),
        (forall|i: int| 0 <= i < parts.len() ==> !substitutes(#[trigger] parts[i])) ==> html_after(
            html,
            parts,
        ) == html,
        (forall|i: int| 0 <= i < parts.len() ==> !is_inline(#[trigger] parts[i]))
            ==> attachments_from(parts) == parts.map_values(|p| attachment_of(p)),
        (forall|i: int| 0 <= i < parts.len() ==> is_inline(#[trigger] parts[i]))
            ==> attachments_from(parts).len() == 0,
    decreases parts.len(),
{
    if parts.len() > 0 {
        let front = parts.drop_last();
        law_parts(html, front);
    }
}

/// An attachment has the name of its part, and the placeholder where the part
/// has none; its body is the URL-safe base64 text of the contents.
pub proof fn law_attachment_name(p: PartView)
    ensures
        p.name is Some ==> attachment_of(p).filename == p.name->0,
        p.name is None ==> attachment_of(p).filename == placeholder(),
        attachment_of(p).body == url_safe_base64(p.contents),
{
}

} // verus!
