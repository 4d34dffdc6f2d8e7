//! The depth-first walk that turns a parsed message into a flat, ordered list
//! of attachments, unwrapping every nested message on the way.

use crate::attachment::{Attachment, AttachmentView, ContentBytes};
use crate::error::{ErrorView, ExtractError};
use crate::message::{
    attachment_parts, content_type_model, declared_content_type, declared_name,
    message_attachments, part_model, ContentTypeModel, PartModel,
};
use mail_parser::{ContentType, Message, MessagePart};
use vstd::prelude::*;
use vstd::string::*;

verus! {

/// The name given to an attachment whose part declares none.
pub open spec fn untitled() -> Seq<char> {
    "untitled"@
}

/// The display name of a part: the name it declares, or the fallback.
pub open spec fn display_name(part: PartModel) -> Seq<char> {
    match part.name {
        Some(name) => name,
        None => untitled(),
    }
}

/// A content type as text: `type/subtype`, or `type` alone without a subtype.
pub open spec fn content_type_text(content_type: ContentTypeModel) -> Seq<char> {
    match content_type.subtype {
        Some(subtype) => content_type.ctype + "/"@ + subtype,
        None => content_type.ctype,
    }
}

/// The attachment that a leaf part becomes.
pub open spec fn leaf_attachment(part: PartModel) -> AttachmentView {
    AttachmentView {
        name: display_name(part),
        content_type: match part.content_type {
            Some(content_type) => Some(content_type_text(content_type)),
            None => None,
        },
        content_bytes: part.contents,
    }
}

/// The attachments found under one part: those of the nested message where
/// the part holds one, else the part itself.
pub open spec fn part_attachments(part: PartModel) -> Seq<AttachmentView>
    decreases part, 0nat,
{
    match part.nested {
        Some(inner) => flatten_prefix(inner, inner.len()),
        None => seq![leaf_attachment(part)],
    }
}

/// The attachments found under the first `count` parts of `parts`, in order.
pub open spec fn flatten_prefix(parts: Seq<PartModel>, count: nat) -> Seq<AttachmentView>
    decreases parts, count,
{
    if count == 0 || count > parts.len() {
        Seq::empty()
    } else {
        flatten_prefix(parts, (count - 1) as nat) + part_attachments(parts[count - 1])
    }
}

/// The attachments found under `parts`: depth first, in the order of the
/// parts, each nested message replaced by what it holds.
pub open spec fn flatten(parts: Seq<PartModel>) -> Seq<AttachmentView> {
    flatten_prefix(parts, parts.len())
}

/// How deep messages are nested under one part: nothing for a leaf, one
/// more than the depth of the nested message for a part that holds one.
pub open spec fn part_depth(part: PartModel) -> nat
    decreases part, 0nat,
{
    match part.nested {
        Some(inner) => 1 + depth_prefix(inner, inner.len()),
        None => 0,
    }
}

/// The greatest depth under the first `count` parts of `parts`.
pub open spec fn depth_prefix(parts: Seq<PartModel>, count: nat) -> nat
    decreases parts, count,
{
    if count == 0 || count > parts.len() {
        0
    } else {
        let earlier = depth_prefix(parts, (count - 1) as nat);
        let last = part_depth(parts[count - 1]);
        if earlier >= last {
            earlier
        } else {
            last
        }
    }
}

/// How deep messages are nested under `parts`: the greatest number of
/// nested messages that have to be opened, one inside the other, to reach a
/// part.
pub open spec fn nesting_depth(parts: Seq<PartModel>) -> nat {
    depth_prefix(parts, parts.len())
}

/// The depth under a prefix bounds the depth of each of its parts and of each
/// shorter prefix.
proof fn lemma_depth_bounds(parts: Seq<PartModel>, count: nat, index: int)
    requires
        0 <= index < count <= parts.len(),
    ensures
        part_depth(parts[index]) <= depth_prefix(parts, count),
        depth_prefix(parts, index as nat) <= depth_prefix(parts, count),
    decreases count,
{
    if index + 1 < count {
        lemma_depth_bounds(parts, (count - 1) as nat, index);
    }
}

/// The text of a declared content type.
fn content_type_string(content_type: &ContentType) -> (text: String)
    ensures
        text@ == content_type_text(content_type_model(*content_type)),
{
    let mut text = content_type.ctype().to_owned();
    match content_type.subtype() {
        Some(subtype) => {
            text.append("/");
            text.append(subtype);
        },
        None => {},
    }
    text
}

impl Attachment {
    /// Copies a leaf part out of the message: its declared name or
    /// `"untitled"`, its content type as text, and its payload.
    ///
    /// Only a part that holds no nested message is a leaf; `get_attachments`
    /// tells the two apart and unwraps the others.
    pub fn from_part<'a>(part: &'a MessagePart<'a>) -> (attachment: Attachment)
        requires
            part_model(*part).nested is None,
        ensures
            attachment@ == leaf_attachment(part_model(*part)),
    {
        let name = match declared_name(part) {
            Some(name) => name.to_owned(),
            None => "untitled".to_owned(),
        };
        let content_bytes = ContentBytes::new(part.contents());
        let content_type = match declared_content_type(part) {
            Some(content_type) => Some(content_type_string(content_type)),
            None => None,
        };
        Attachment { name, content_type, content_bytes }
    }
}

/// Lists the attachments of `message`, depth first and in the order of its
/// parts. A part that holds a nested message contributes the attachments of
/// that message in its place and is not listed itself.
pub fn get_attachments<'a>(message: &'a Message<'a>) -> (attachments: Vec<Attachment>)
    ensures
        attachments.deep_view() == flatten(attachment_parts(*message)),
    decreases attachment_parts(*message),
{
    let parts = message_attachments(message);
    let ghost models = attachment_parts(*message);
    let mut attachments: Vec<Attachment> = Vec::new();
    let mut index: usize = 0;
    while index < parts.len()
        invariant
            index <= parts.len(),
            parts@.len() == models.len(),
            models == attachment_parts(*message),
            forall|i: int| 0 <= i < parts@.len() ==> part_model(*parts@[i]) == #[trigger] models[i],
            attachments.deep_view() == flatten_prefix(models, index as nat),
        decreases parts.len() - index,
    {
        let part = parts[index];
        let ghost before = attachments.deep_view();
        match part.message() {
            Some(nested) => {
                proof {
                    let model = models[index as int];
                    assert(part_model(*part) == model);
                    assert(decreases_to!(models => model.nested->0));
                }
                let mut inner = get_attachments(nested);
                attachments.append(&mut inner);
            },
            None => {
                attachments.push(Attachment::from_part(part));
            },
        }
        assert(attachments.deep_view() == before + part_attachments(models[index as int]));
        index += 1;
    }
    attachments
}

/// Lists the attachments of `message` as `get_attachments` does, but opens
/// at most `max_depth` nested messages one inside the other. A message that
/// is nested more deeply is refused, and nothing is listed.
pub fn get_attachments_within<'a>(message: &'a Message<'a>, max_depth: usize) -> (result: Result<
    Vec<Attachment>,
    ExtractError,
>)
    ensures
        match result {
            Ok(attachments) => nesting_depth(attachment_parts(*message)) <= max_depth
                && attachments.deep_view() == flatten(attachment_parts(*message)),
            Err(error) => nesting_depth(attachment_parts(*message)) > max_depth && error@
                == ErrorView::TooDeeplyNested,
        },
    decreases attachment_parts(*message),
{
    let parts = message_attachments(message);
    let ghost models = attachment_parts(*message);
    let mut attachments: Vec<Attachment> = Vec::new();
    let mut index: usize = 0;
    while index < parts.len()
        invariant
            index <= parts.len(),
            parts@.len() == models.len(),
            models == attachment_parts(*message),
            forall|i: int| 0 <= i < parts@.len() ==> part_model(*parts@[i]) == #[trigger] models[i],
            attachments.deep_view() == flatten_prefix(models, index as nat),
            depth_prefix(models, index as nat) <= max_depth,
        decreases parts.len() - index,
    {
        let part = parts[index];
        let ghost before = attachments.deep_view();
        let ghost model = models[index as int];
        proof {
            assert(part_model(*part) == model);
            lemma_depth_bounds(models, models.len(), index as int);
        }
        match part.message() {
            Some(nested) => {
                if max_depth == 0 {
                    return Err(ExtractError::TooDeeplyNested);
                }
                proof {
                    assert(decreases_to!(models => model.nested->0));
                }
                match get_attachments_within(nested, max_depth - 1) {
                    Ok(mut inner) => {
                        attachments.append(&mut inner);
                    },
                    Err(error) => {
                        return Err(error);
                    },
                }
            },
            None => {
                attachments.push(Attachment::from_part(part));
            },
        }
        assert(attachments.deep_view() == before + part_attachments(model));
        index += 1;
    }
    Ok(attachments)
}

} // verus!
