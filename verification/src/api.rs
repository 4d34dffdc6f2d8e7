//! The two operations of the crate: listing the attachments of a message, and
//! preparing the batch that stores them. Each comes without and with a limit
//! on how deep messages may be nested; the store also comes with its options
//! as a keyword list.
//!
//! The operations start from the outcome of the parse, the message or none,
//! and not from raw bytes: the parser can panic on malformed input, which no
//! function of this crate may do, so the caller makes that call.

use crate::attachment::{Attachment, AttachmentView};
use crate::error::{ErrorView, ExtractError};
use crate::extractor::{flatten, get_attachments, get_attachments_within, nesting_depth};
use crate::filter::{filter_by_mime_type, filtered};
use crate::message::{attachment_parts, PartModel};
use crate::options::{
    get_max_depth_from_opts, max_depth_of, resolved, OptionKey, OptionValue, OptionsView,
    StoreOptions, ValueView,
};
use crate::writer::{DiskWriter, WriterView};
use mail_parser::Message;
use vstd::prelude::*;

verus! {

/// What extraction yields for the outcome of a parse: the flattened
/// attachments of the message, or a parse error where there is no message.
pub open spec fn extracted(parsed: Option<Seq<PartModel>>) -> Result<
    Seq<AttachmentView>,
    ErrorView,
> {
    match parsed {
        Some(parts) => Ok(flatten(parts)),
        None => Err(ErrorView::ParseError),
    }
}

/// What extraction yields where at most `max_depth` nested messages may be
/// opened one inside the other: a message nested more deeply is refused.
pub open spec fn extracted_within(parsed: Option<Seq<PartModel>>, max_depth: nat) -> Result<
    Seq<AttachmentView>,
    ErrorView,
> {
    match parsed {
        Some(parts) => if nesting_depth(parts) <= max_depth {
            Ok(flatten(parts))
        } else {
            Err(ErrorView::TooDeeplyNested)
        },
        None => Err(ErrorView::ParseError),
    }
}

/// The batch that a store starts with for the outcome of a parse: the
/// attachments that pass the filter, bound for the directory and prefix of
/// the options, with no step taken yet.
pub open spec fn planned(parsed: Option<Seq<PartModel>>, options: OptionsView) -> Result<
    WriterView,
    ErrorView,
> {
    match parsed {
        Some(parts) => Ok(
            WriterView::initial(
                filtered(flatten(parts), options.mime_types),
                options.directory,
                options.prefix,
            ),
        ),
        None => Err(ErrorView::ParseError),
    }
}

/// The batch that a store starts with where at most `max_depth` nested
/// messages may be opened one inside the other.
pub open spec fn planned_within(
    parsed: Option<Seq<PartModel>>,
    options: OptionsView,
    max_depth: nat,
) -> Result<WriterView, ErrorView> {
    match extracted_within(parsed, max_depth) {
        Ok(listed) => Ok(
            WriterView::initial(
                filtered(listed, options.mime_types),
                options.directory,
                options.prefix,
            ),
        ),
        Err(error) => Err(error),
    }
}

/// The batch that a store starts with for the outcome of a parse and a
/// keyword list. Input that is no message is a parse error whatever the
/// list holds; then a list with a value of the wrong shape is refused; then
/// the depth limit of the list, if it sets one, is applied.
pub open spec fn planned_from_opts(
    parsed: Option<Seq<PartModel>>,
    opts: Seq<(OptionKey, ValueView)>,
) -> Result<WriterView, ErrorView> {
    match parsed {
        None => Err(ErrorView::ParseError),
        Some(_) => match (resolved(opts), max_depth_of(opts)) {
            (Ok(options), Ok(None)) => planned(parsed, options),
            (Ok(options), Ok(Some(max_depth))) => planned_within(parsed, options, max_depth),
            _ => Err(ErrorView::BadOption),
        },
    }
}

/// An extraction result as plain mathematical values.
pub open spec fn extraction_view(result: Result<Vec<Attachment>, ExtractError>) -> Result<
    Seq<AttachmentView>,
    ErrorView,
> {
    match result {
        Ok(attachments) => Ok(attachments.deep_view()),
        Err(error) => Err(error@),
    }
}

/// A prepared store as plain mathematical values.
pub open spec fn plan_view(result: Result<DiskWriter, ExtractError>) -> Result<
    WriterView,
    ErrorView,
> {
    match result {
        Ok(writer) => Ok(writer@),
        Err(error) => Err(error@),
    }
}

/// The outcome of a parse as plain mathematical values: the
/// attachment-bearing parts of the message, or none without a message.
pub open spec fn parse_view(parsed: Option<&Message>) -> Option<Seq<PartModel>> {
    match parsed {
        Some(message) => Some(attachment_parts(*message)),
        None => None,
    }
}

/// Lists the attachments of a parsed message, nested messages unwrapped.
/// Where the parse found no message the result is a parse error, and no
/// list.
pub fn extract<'a>(parsed: Option<&'a Message<'a>>) -> (result: Result<
    Vec<Attachment>,
    ExtractError,
>)
    ensures
        extraction_view(result) == extracted(parse_view(parsed)),
{
    match parsed {
        Some(message) => Ok(get_attachments(message)),
        None => Err(ExtractError::ParseError),
    }
}

/// Lists the attachments of a parsed message as `extract` does, unless
/// messages are nested more than `max_depth` deep in it: then the message is
/// refused as too deeply nested, and nothing is listed.
pub fn extract_within<'a>(parsed: Option<&'a Message<'a>>, max_depth: usize) -> (result: Result<
    Vec<Attachment>,
    ExtractError,
>)
    ensures
        extraction_view(result) == extracted_within(parse_view(parsed), max_depth as nat),
{
    match parsed {
        Some(message) => get_attachments_within(message, max_depth),
        None => Err(ExtractError::ParseError),
    }
}

/// Prepares the store of a parsed message: extracts the attachments, keeps
/// those that `options` allows, and returns the batch that writes them, which
/// is what `extract` lists for the same message and the filter keeps. Where
/// the parse found no message the result is a parse error, and nothing is to
/// be written.
pub fn plan_store<'a>(parsed: Option<&'a Message<'a>>, options: StoreOptions) -> (result: Result<
    DiskWriter,
    ExtractError,
>)
    ensures
        plan_view(result) == planned(parse_view(parsed), options@),
{
    match parsed {
        Some(message) => {
            let attachments = get_attachments(message);
            let kept = filter_by_mime_type(&attachments, options.mime_types.as_slice());
            Ok(DiskWriter::new(kept, options.directory, options.prefix))
        },
        None => Err(ExtractError::ParseError),
    }
}

/// Prepares the store of a parsed message as `plan_store` does, but opens at
/// most `max_depth` nested messages one inside the other: a message nested
/// more deeply is refused, and nothing is to be written.
pub fn plan_store_within<'a>(
    parsed: Option<&'a Message<'a>>,
    options: StoreOptions,
    max_depth: usize,
) -> (result: Result<DiskWriter, ExtractError>)
    ensures
        plan_view(result) == planned_within(parse_view(parsed), options@, max_depth as nat),
{
    match parsed {
        Some(message) => match get_attachments_within(message, max_depth) {
            Ok(attachments) => {
                let kept = filter_by_mime_type(&attachments, options.mime_types.as_slice());
                Ok(DiskWriter::new(kept, options.directory, options.prefix))
            },
            Err(error) => Err(error),
        },
        None => Err(ExtractError::ParseError),
    }
}

/// Prepares the store of a parsed message under the options of a keyword
/// list: content types, directory, prefix and depth limit, each from its
/// first entry or its default. A missing message comes first: it is a parse
/// error even where the list is bad. A list with a value of the wrong shape
/// is refused next.
pub fn plan_store_from_opts<'a>(
    parsed: Option<&'a Message<'a>>,
    opts: &[(OptionKey, OptionValue)],
) -> (result: Result<DiskWriter, ExtractError>)
    ensures
        plan_view(result) == planned_from_opts(parse_view(parsed), opts.deep_view()),
{
    if parsed.is_none() {
        return Err(ExtractError::ParseError);
    }
    let options = match StoreOptions::from_opts(opts) {
        Ok(options) => options,
        Err(_) => {
            return Err(ExtractError::BadOption);
        },
    };
    match get_max_depth_from_opts(opts) {
        Ok(Some(max_depth)) => plan_store_within(parsed, options, max_depth),
        Ok(None) => plan_store(parsed, options),
        Err(_) => Err(ExtractError::BadOption),
    }
}

} // verus!
