//! The parsed message as the extractor reads it.
//!
//! Parsing is left to `mail_parser`, and to the caller: this crate reads
//! messages, it does not make them. This module declares the parser's types,
//! gives the part tree of a message a mathematical model, and states what
//! each accessor used by the crate returns in terms of that model. Nothing
//! here is proved: these contracts are the assumptions the rest of the crate
//! is verified against. They hold of every message, parsed or built by hand.

use mail_parser::{ContentType, Message, MessagePart, MimeHeaders};
use vstd::prelude::*;

verus! {

// The parser's types. Their values are opaque here; what the crate reads of
// them is named by the functions below.
#[verifier::external_type_specification]
#[verifier::external_body]
pub struct ExMessage<'x>(Message<'x>);

#[verifier::external_type_specification]
#[verifier::external_body]
pub struct ExMessagePart<'x>(MessagePart<'x>);

#[verifier::external_type_specification]
#[verifier::external_body]
pub struct ExContentType<'x>(ContentType<'x>);

/// A declared content type: the type and, where present, the subtype.
pub struct ContentTypeModel {
    pub ctype: Seq<char>,
    pub subtype: Option<Seq<char>>,
}

/// One attachment-bearing part of a message: the name and content type it
/// declares, its payload, and, where the payload is itself a message, the
/// attachment-bearing parts of that message.
pub struct PartModel {
    pub name: Option<Seq<char>>,
    pub content_type: Option<ContentTypeModel>,
    pub contents: Seq<u8>,
    pub nested: Option<Seq<PartModel>>,
}

/// The attachment-bearing parts of a message, in the order in which
/// `Message::attachments` yields them.
pub uninterp spec fn attachment_parts(message: Message<'_>) -> Seq<PartModel>;

/// A part as its accessors show it: `name` is what `attachment_name` returns,
/// `content_type` what `content_type` returns, `nested` the attachment-bearing
/// parts of what `message` returns, and, for a part without a nested message,
/// `contents` what `contents` returns.
pub uninterp spec fn part_model(part: MessagePart<'_>) -> PartModel;

/// A content-type header value as its accessors show it: `ctype` is what
/// `ctype` returns and `subtype` what `subtype` returns.
pub uninterp spec fn content_type_model(content_type: ContentType<'_>) -> ContentTypeModel;

/// `MessagePart::message`: the nested message, where the part's payload is
/// one.
pub assume_specification<'x, 'a>[ MessagePart::<'x>::message ](part: &'a MessagePart<'x>) -> (nested:
    Option<&'a Message<'x>>)
    ensures
        match nested {
            Some(message) => part_model(*part).nested == Some(attachment_parts(*message)),
            None => part_model(*part).nested is None,
        },
;

/// `MessagePart::contents`: the payload of a part that holds no nested
/// message. For a part that holds one the function reads the first part of
/// the nested message and panics where that message has none, so such parts
/// are left out.
pub assume_specification<'x, 'a>[ MessagePart::<'x>::contents ](part: &'a MessagePart<'x>) -> (contents:
    &'a [u8])
    requires
        part_model(*part).nested is None,
    ensures
        contents@ == part_model(*part).contents,
;

/// `ContentType::ctype`: the type of a content-type header value.
pub assume_specification<'x, 'a>[ ContentType::<'x>::ctype ](content_type: &'a ContentType<'x>) -> (ctype: &'a str)
    ensures
        ctype@ == content_type_model(*content_type).ctype,
;

/// `ContentType::subtype`: the subtype of a content-type header value, where
/// it has one.
pub assume_specification<'x, 'a>[ ContentType::<'x>::subtype ](content_type: &'a ContentType<'x>) -> (subtype: Option<&'a str>)
    ensures
        match subtype {
            Some(subtype) => content_type_model(*content_type).subtype == Some(subtype@),
            None => content_type_model(*content_type).subtype is None,
        },
;

/// `Message::attachments`: the attachment-bearing parts of a message, in the
/// order in which the iterator yields them.
#[verifier::external_body]
pub(crate) fn message_attachments<'a>(message: &'a Message<'a>) -> (parts: Vec<&'a MessagePart<'a>>)
    ensures
        parts@.len() == attachment_parts(*message).len(),
        forall|i: int|
            0 <= i < parts@.len() ==> part_model(*parts@[i]) == #[trigger] attachment_parts(
                *message,
            )[i],
{
    message.attachments().collect()
}

/// `MimeHeaders::attachment_name` on a part: the file name that the part
/// declares, where it declares one.
#[verifier::external_body]
pub(crate) fn declared_name<'a>(part: &'a MessagePart<'a>) -> (name: Option<&'a str>)
    ensures
        match name {
            Some(name) => part_model(*part).name == Some(name@),
            None => part_model(*part).name is None,
        },
{
    part.attachment_name()
}

/// `MimeHeaders::content_type` on a part: the content type that the part
/// declares, where it declares one.
#[verifier::external_body]
pub(crate) fn declared_content_type<'a>(part: &'a MessagePart<'a>) -> (content_type: Option<
    &'a ContentType<'a>,
>)
    ensures
        match content_type {
            Some(content_type) => part_model(*part).content_type == Some(
                content_type_model(*content_type),
            ),
            None => part_model(*part).content_type is None,
        },
{
    part.content_type()
}

} // verus!
