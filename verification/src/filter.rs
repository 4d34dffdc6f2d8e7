//! The content-type filter: keeps the attachments whose content type is one
//! of the allowed strings.

use crate::attachment::{Attachment, AttachmentView};
use vstd::prelude::*;

verus! {

/// Whether an attachment passes a non-empty allow-list: it declares a content
/// type, and that type is, character for character, one of the allowed ones.
pub open spec fn is_allowed(attachment: AttachmentView, mime_types: Seq<Seq<char>>) -> bool {
    match attachment.content_type {
        Some(content_type) => mime_types.contains(content_type),
        None => false,
    }
}

/// The test that a non-empty allow-list applies to each attachment.
pub open spec fn allowed_by(mime_types: Seq<Seq<char>>) -> spec_fn(AttachmentView) -> bool {
    |attachment: AttachmentView| is_allowed(attachment, mime_types)
}

/// The attachments that survive the filter: all of them where the allow-list
/// is empty, else those that pass it, in the order they came in.
pub open spec fn filtered(attachments: Seq<AttachmentView>, mime_types: Seq<Seq<char>>) -> Seq<
    AttachmentView,
> {
    if mime_types.len() == 0 {
        attachments
    } else {
        attachments.filter(allowed_by(mime_types))
    }
}

/// Whether `text` is one of `mime_types`.
fn is_listed(mime_types: &[String], text: &String) -> (listed: bool)
    ensures
        listed == mime_types.deep_view().contains(text@),
{
    let mut index: usize = 0;
    while index < mime_types.len()
        invariant
            index <= mime_types@.len(),
            forall|i: int| 0 <= i < index ==> mime_types.deep_view()[i] != text@,
        decreases mime_types@.len() - index,
    {
        if mime_types[index] == *text {
            assert(mime_types.deep_view()[index as int] == text@);
            return true;
        }
        index += 1;
    }
    false
}

/// Whether `attachment` passes the allow-list `mime_types`.
fn passes(attachment: &Attachment, mime_types: &[String]) -> (allowed: bool)
    ensures
        allowed == is_allowed(attachment@, mime_types.deep_view()),
{
    match &attachment.content_type {
        Some(content_type) => is_listed(mime_types, content_type),
        None => false,
    }
}

/// Copies every attachment of a list.
fn clone_all(attachments: &Vec<Attachment>) -> (copies: Vec<Attachment>)
    ensures
        copies.deep_view() == attachments.deep_view(),
{
    let mut copies: Vec<Attachment> = Vec::new();
    let mut index: usize = 0;
    while index < attachments.len()
        invariant
            index <= attachments.len(),
            copies.deep_view() == attachments.deep_view().take(index as int),
        decreases attachments.len() - index,
    {
        let ghost before = copies.deep_view();
        let attachment = &attachments[index];
        copies.push(attachment.clone());
        assert(copies.deep_view() == before.push(attachment@));
        assert(attachments.deep_view().take(index + 1) == before.push(attachment@));
        index += 1;
    }
    assert(attachments.deep_view().take(index as int) == attachments.deep_view());
    copies
}

/// Keeps the attachments whose content type equals one of `mime_types`.
///
/// An empty `mime_types` keeps every attachment. Otherwise an attachment
/// without a content type is dropped, the comparison is exact and
/// case-sensitive, and the survivors keep their relative order.
pub fn filter_by_mime_type(attachments: &Vec<Attachment>, mime_types: &[String]) -> (kept: Vec<
    Attachment,
>)
    ensures
        kept.deep_view() == filtered(attachments.deep_view(), mime_types.deep_view()),
{
    if mime_types.len() == 0 {
        return clone_all(attachments);
    }
    let ghost all = attachments.deep_view();
    let ghost test = allowed_by(mime_types.deep_view());
    let mut kept: Vec<Attachment> = Vec::new();
    let mut index: usize = 0;
    proof {
        reveal(Seq::filter);
    }
    while index < attachments.len()
        invariant
            index <= attachments.len(),
            all == attachments.deep_view(),
            test == allowed_by(mime_types.deep_view()),
            kept.deep_view() == all.take(index as int).filter(test),
        decreases attachments.len() - index,
    {
        let attachment = &attachments[index];
        let ghost before = kept.deep_view();
        proof {
            assert(all.take(index + 1) == all.take(index as int).push(attachment@));
            all.take(index as int).lemma_filter_push(attachment@, test);
        }
        if passes(attachment, mime_types) {
            kept.push(attachment.clone());
            assert(kept.deep_view() == before.push(attachment@));
        }
        index += 1;
    }
    assert(all.take(index as int) == all);
    kept
}

} // verus!
