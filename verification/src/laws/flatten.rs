//! What holds of the flattened attachment list of every part tree.

use crate::attachment::AttachmentView;
use crate::extractor::{flatten, flatten_prefix, leaf_attachment, part_attachments, untitled};
use crate::message::PartModel;
use vstd::prelude::*;

verus! {

/// Whether `leaf` is a part without a nested message somewhere under `part`:
/// the part itself, or a leaf under one of the parts of its nested message.
pub open spec fn is_leaf_of(part: PartModel, leaf: PartModel) -> bool
    decreases part, 0nat,
{
    match part.nested {
        Some(inner) => is_leaf_among(inner, inner.len(), leaf),
        None => part == leaf,
    }
}

/// Whether `leaf` is a leaf under one of the first `count` parts of `parts`.
pub open spec fn is_leaf_among(parts: Seq<PartModel>, count: nat, leaf: PartModel) -> bool
    decreases parts, count,
{
    if count == 0 || count > parts.len() {
        false
    } else {
        is_leaf_among(parts, (count - 1) as nat, leaf) || is_leaf_of(parts[count - 1], leaf)
    }
}

/// Whether `leaf` is a leaf somewhere under `parts`.
pub open spec fn is_leaf_under(parts: Seq<PartModel>, leaf: PartModel) -> bool {
    is_leaf_among(parts, parts.len(), leaf)
}

/// The attachments under a prefix depend on the parts of that prefix alone.
proof fn lemma_prefix_agrees(first: Seq<PartModel>, second: Seq<PartModel>, count: nat)
    requires
        count <= first.len(),
        count <= second.len(),
        forall|i: int| 0 <= i < count ==> first[i] == second[i],
    ensures
        flatten_prefix(first, count) == flatten_prefix(second, count),
    decreases count,
{
    if count > 0 {
        lemma_prefix_agrees(first, second, (count - 1) as nat);
    }
}

/// Flattening keeps the order of the parts: the attachments of a list of
/// parts are those of its front followed by those of its back.
pub proof fn lemma_flatten_concat(front: Seq<PartModel>, back: Seq<PartModel>)
    ensures
        flatten(front + back) == flatten(front) + flatten(back),
    decreases back.len(),
{
    let all = front + back;
    if back.len() == 0 {
        assert(all == front);
    } else {
        let shorter = front + back.drop_last();
        lemma_flatten_concat(front, back.drop_last());
        lemma_prefix_agrees(all, shorter, shorter.len());
        lemma_prefix_agrees(back, back.drop_last(), (back.len() - 1) as nat);
        assert(all[all.len() - 1] == back.last());
    }
}

/// A single part contributes its own attachments.
pub proof fn lemma_flatten_single(part: PartModel)
    ensures
        flatten(seq![part]) == part_attachments(part),
{
    assert(flatten_prefix(seq![part], 0) == Seq::<AttachmentView>::empty());
}

/// A message whose only attachment-bearing part is a named leaf yields
/// exactly one attachment: it carries the declared name and, byte for byte,
/// the payload of the part.
pub proof fn lemma_single_named_attachment(part: PartModel)
    requires
        part.nested is None,
        part.name is Some,
    ensures
        flatten(seq![part]) == seq![leaf_attachment(part)],
        flatten(seq![part]).len() == 1,
        flatten(seq![part])[0].name == part.name->0,
        flatten(seq![part])[0].content_bytes == part.contents,
{
    lemma_flatten_single(part);
}

/// A part that holds a nested message is replaced, in place, by the
/// attachments of that message: what comes before it stays before, what comes
/// after it stays after, and the part itself adds no entry.
pub proof fn lemma_nested_message_is_spliced(
    before: Seq<PartModel>,
    container: PartModel,
    after: Seq<PartModel>,
)
    requires
        container.nested is Some,
    ensures
        flatten(before + seq![container] + after) == flatten(before) + flatten(
            container.nested->0,
        ) + flatten(after),
{
    lemma_flatten_concat(before + seq![container], after);
    lemma_flatten_concat(before, seq![container]);
    lemma_flatten_single(container);
}

/// Every entry found under a prefix of parts stands for a leaf under it.
proof fn lemma_entry_is_leaf(parts: Seq<PartModel>, count: nat, k: int) -> (leaf: PartModel)
    requires
        0 <= k < flatten_prefix(parts, count).len(),
    ensures
        is_leaf_among(parts, count, leaf),
        flatten_prefix(parts, count)[k] == leaf_attachment(leaf),
    decreases parts, count,
{
    let earlier = flatten_prefix(parts, (count - 1) as nat);
    let part = parts[count - 1];
    if k < earlier.len() {
        lemma_entry_is_leaf(parts, (count - 1) as nat, k)
    } else {
        match part.nested {
            Some(inner) => {
                assert(part_attachments(part) == flatten_prefix(inner, inner.len()));
                let leaf = lemma_entry_is_leaf(inner, inner.len(), k - earlier.len());
                assert(is_leaf_of(part, leaf) == is_leaf_among(inner, inner.len(), leaf));
                leaf
            },
            None => {
                assert(part_attachments(part) == seq![leaf_attachment(part)]);
                assert(is_leaf_of(part, part));
                part
            },
        }
    }
}

/// The list holds leaves only: every entry is the attachment of a part
/// without a nested message, found somewhere under the parts. A part that
/// holds a nested message never has an entry of its own.
pub proof fn lemma_only_leaves_are_listed(parts: Seq<PartModel>, k: int) -> (leaf: PartModel)
    requires
        0 <= k < flatten(parts).len(),
    ensures
        is_leaf_under(parts, leaf),
        leaf.nested is None,
        flatten(parts)[k] == leaf_attachment(leaf),
{
    let leaf = lemma_entry_is_leaf(parts, parts.len(), k);
    lemma_leaf_holds_no_message(parts, parts.len(), leaf);
    leaf
}

/// A leaf holds no nested message.
proof fn lemma_leaf_holds_no_message(parts: Seq<PartModel>, count: nat, leaf: PartModel)
    requires
        is_leaf_among(parts, count, leaf),
    ensures
        leaf.nested is None,
    decreases parts, count,
{
    if is_leaf_among(parts, (count - 1) as nat, leaf) {
        lemma_leaf_holds_no_message(parts, (count - 1) as nat, leaf);
    } else {
        let part = parts[count - 1];
        assert(is_leaf_of(part, leaf));
        match part.nested {
            Some(inner) => {
                assert(is_leaf_of(part, leaf) == is_leaf_among(inner, inner.len(), leaf));
                lemma_leaf_holds_no_message(inner, inner.len(), leaf);
            },
            None => {},
        }
    }
}

/// Every entry of the list carries the name that its part declares, and the
/// name `untitled` where the part declares none.
pub proof fn lemma_listed_names(parts: Seq<PartModel>, k: int) -> (leaf: PartModel)
    requires
        0 <= k < flatten(parts).len(),
    ensures
        is_leaf_under(parts, leaf),
        flatten(parts)[k] == leaf_attachment(leaf),
        leaf.name is Some ==> flatten(parts)[k].name == leaf.name->0,
        leaf.name is None ==> flatten(parts)[k].name == seq!['u', 'n', 't', 'i', 't', 'l', 'e', 'd'],
{
    let leaf = lemma_only_leaves_are_listed(parts, k);
    if leaf.name is None {
        lemma_unnamed_is_untitled(leaf);
    }
    leaf
}

/// An attachment whose part declares no name is called `untitled`.
pub proof fn lemma_unnamed_is_untitled(part: PartModel)
    requires
        part.name is None,
    ensures
        leaf_attachment(part).name == seq!['u', 'n', 't', 'i', 't', 'l', 'e', 'd'],
{
    reveal_strlit("untitled");
    assert(untitled() == seq!['u', 'n', 't', 'i', 't', 'l', 'e', 'd']);
}

} // verus!
