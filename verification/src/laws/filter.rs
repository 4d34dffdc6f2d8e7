//! What holds of the content-type filter on every list and allow-list.

use crate::attachment::AttachmentView;
use crate::filter::{allowed_by, filtered, is_allowed};
use vstd::prelude::*;

verus! {

/// An empty allow-list filters nothing: the list comes back as it is.
pub proof fn lemma_empty_allow_list_keeps_all(attachments: Seq<AttachmentView>)
    ensures
        filtered(attachments, Seq::empty()) == attachments,
{
}

/// The filter keeps the order: filtering a list is filtering its front and
/// its back and joining the results.
pub proof fn lemma_filter_concat(
    front: Seq<AttachmentView>,
    back: Seq<AttachmentView>,
    mime_types: Seq<Seq<char>>,
)
    ensures
        filtered(front + back, mime_types) == filtered(front, mime_types) + filtered(
            back,
            mime_types,
        ),
{
    Seq::filter_distributes_over_add(front, back, allowed_by(mime_types));
}

/// Under a non-empty allow-list an attachment stays exactly if its content
/// type is on the list; one without a content type is dropped.
pub proof fn lemma_filter_single(attachment: AttachmentView, mime_types: Seq<Seq<char>>)
    requires
        mime_types.len() > 0,
    ensures
        filtered(seq![attachment], mime_types) == if is_allowed(attachment, mime_types) {
            seq![attachment]
        } else {
            Seq::empty()
        },
        attachment.content_type is None ==> filtered(seq![attachment], mime_types).len() == 0,
{
    Seq::<AttachmentView>::empty().lemma_filter_push(attachment, allowed_by(mime_types));
    assert(Seq::<AttachmentView>::empty().push(attachment) == seq![attachment]);
    reveal(Seq::filter);
    assert(Seq::<AttachmentView>::empty().filter(allowed_by(mime_types)).len() == 0);
}

/// Under a non-empty allow-list the filter keeps allowed attachments only,
/// and drops none of them.
pub proof fn lemma_filter_keeps_exactly_the_allowed(
    attachments: Seq<AttachmentView>,
    mime_types: Seq<Seq<char>>,
)
    requires
        mime_types.len() > 0,
    ensures
        forall|i: int|
            0 <= i < filtered(attachments, mime_types).len() ==> is_allowed(
                #[trigger] filtered(attachments, mime_types)[i],
                mime_types,
            ) && attachments.contains(filtered(attachments, mime_types)[i]),
        forall|i: int|
            0 <= i < attachments.len() && is_allowed(#[trigger] attachments[i], mime_types)
                ==> filtered(attachments, mime_types).contains(attachments[i]),
        filtered(attachments, mime_types).len() <= attachments.len(),
{
    let test = allowed_by(mime_types);
    let kept = attachments.filter(test);
    attachments.lemma_filter_len(test);
    assert forall|i: int| 0 <= i < kept.len() implies is_allowed(#[trigger] kept[i], mime_types)
        && attachments.contains(kept[i]) by {
        attachments.lemma_filter_pred(test, i);
        assert(kept.contains(kept[i]));
        attachments.lemma_filter_contains_rev(test, kept[i]);
    }
    assert forall|i: int|
        0 <= i < attachments.len() && is_allowed(
            #[trigger] attachments[i],
            mime_types,
        ) implies kept.contains(attachments[i]) by {
        attachments.lemma_filter_contains(test, i);
    }
}

} // verus!
