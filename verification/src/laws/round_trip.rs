//! How the two operations of the crate agree on one input.

use crate::api::{extracted, extracted_within, planned, planned_from_opts, planned_within};
use crate::attachment::AttachmentView;
use crate::error::ErrorView;
use crate::filter::{allowed_by, filtered};
use crate::laws::batch::{all_succeeded, lemma_writes_follow_in_order};
use crate::message::PartModel;
use crate::options::{OptionKey, OptionsView, ValueView};
use crate::writer::{stored_path, ActionView, OutcomeView, WriterView};
use vstd::prelude::*;

verus! {

/// A store writes what extraction lists. For one parsed input, as long as
/// the directory and the earlier writes succeed, the write of the file
/// number `index` carries, byte for byte, the content of entry `index` of the
/// filtered list, to the path made of the directory and that entry's name
/// with the prefix in front; and that entry is one of the attachments that
/// extraction lists for the same input.
pub proof fn lemma_store_writes_what_extract_lists(
    parts: Seq<PartModel>,
    options: OptionsView,
    outcomes: Seq<OutcomeView>,
    index: int,
)
    requires
        0 <= index < filtered(extracted(Some(parts))->Ok_0, options.mime_types).len(),
        all_succeeded(outcomes, index + 1),
    ensures
        planned(Some(parts), options) is Ok,
        ({
            let listed = extracted(Some(parts))->Ok_0;
            let kept = filtered(listed, options.mime_types);
            let batch = planned(Some(parts), options)->Ok_0;
            &&& listed.contains(kept[index])
            &&& options.mime_types.len() == 0 ==> kept[index] == listed[index]
            &&& batch.run(outcomes.take(index + 1)).pending() == (ActionView::WriteFile {
                path: stored_path(options.directory, options.prefix + kept[index].name),
                bytes: kept[index].content_bytes,
            })
        }),
{
    let listed = extracted(Some(parts))->Ok_0;
    let kept = filtered(listed, options.mime_types);
    lemma_writes_follow_in_order(kept, options.directory, options.prefix, outcomes, index);
    if options.mime_types.len() > 0 {
        assert(kept.contains(kept[index]));
        listed.lemma_filter_contains_rev(allowed_by(options.mime_types), kept[index]);
    }
}

/// Input that is no message yields a parse error from every operation: no
/// list and no batch, whatever the options, the depth limit or the keyword
/// list, even a bad one.
pub proof fn lemma_no_message_no_result(
    options: OptionsView,
    max_depth: nat,
    opts: Seq<(OptionKey, ValueView)>,
)
    ensures
        extracted(None) == Err::<Seq<AttachmentView>, _>(ErrorView::ParseError),
        extracted_within(None, max_depth) == Err::<Seq<AttachmentView>, _>(ErrorView::ParseError),
        planned(None, options) == Err::<WriterView, _>(ErrorView::ParseError),
        planned_within(None, options, max_depth) == Err::<WriterView, _>(ErrorView::ParseError),
        planned_from_opts(None, opts) == Err::<WriterView, _>(ErrorView::ParseError),
{
}

/// A depth limit changes what is refused, never what is written: a store
/// under a limit either refuses the input as too deeply nested, or starts
/// the very batch that the store without a limit starts.
pub proof fn lemma_limit_only_refuses(parts: Seq<PartModel>, options: OptionsView, max_depth: nat)
    ensures
        planned_within(Some(parts), options, max_depth) == planned(Some(parts), options)
            || planned_within(Some(parts), options, max_depth) == Err::<WriterView, _>(
            ErrorView::TooDeeplyNested,
        ),
{
}

} // verus!
