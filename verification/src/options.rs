//! The options of a store: which content types to keep, where to write, and
//! what to put in front of every file name.
//!
//! Callers that hold a keyword list resolve it here: for each option the
//! first entry under its key counts, an option that is absent takes its
//! default, and a value of the wrong shape is refused. A keyword list may
//! also set a limit on how deep messages may be nested.

use vstd::prelude::*;

verus! {

/// The key of a keyword-list entry.
#[derive(Debug, Clone, Copy, PartialEq, Eq, Structural)]
pub enum OptionKey {
    MimeTypes,
    Directory,
    Prefix,
    MaxDepth,
    /// Any key that names no option.
    Unknown,
}

/// The value of a keyword-list entry, as plain mathematical values.
pub enum ValueView {
    Text(Seq<char>),
    TextList(Seq<Seq<char>>),
    Count(nat),
    Other,
}

/// The value of a keyword-list entry.
#[derive(Debug)]
pub enum OptionValue {
    /// A string.
    Text(String),
    /// A list of strings.
    TextList(Vec<String>),
    /// A number that is not negative.
    Count(usize),
    /// Anything else.
    Other,
}

impl DeepView for OptionKey {
    type V = OptionKey;

    open spec fn deep_view(&self) -> OptionKey {
        *self
    }
}

impl DeepView for OptionValue {
    type V = ValueView;

    open spec fn deep_view(&self) -> ValueView {
        match self {
            OptionValue::Text(text) => ValueView::Text(text@),
            OptionValue::TextList(list) => ValueView::TextList(list.deep_view()),
            OptionValue::Count(count) => ValueView::Count(*count as nat),
            OptionValue::Other => ValueView::Other,
        }
    }
}

/// The value of a recognised option has the wrong shape.
#[derive(Debug, Clone, Copy, PartialEq, Eq, Structural)]
pub struct BadOption;

/// The options of a store as plain mathematical values.
pub struct OptionsView {
    pub mime_types: Seq<Seq<char>>,
    pub directory: Seq<char>,
    pub prefix: Seq<char>,
}

/// The options of a store.
#[derive(Debug)]
pub struct StoreOptions {
    /// The content types to keep; empty keeps every attachment.
    pub mime_types: Vec<String>,
    /// The directory to write to.
    pub directory: String,
    /// What every file name starts with.
    pub prefix: String,
}

impl View for StoreOptions {
    type V = OptionsView;

    open spec fn view(&self) -> OptionsView {
        OptionsView {
            mime_types: self.mime_types.deep_view(),
            directory: self.directory@,
            prefix: self.prefix@,
        }
    }
}

/// The options of a store for which nothing was asked: every content type,
/// the current directory, no prefix.
pub open spec fn default_options() -> OptionsView {
    OptionsView { mime_types: Seq::empty(), directory: "."@, prefix: Seq::empty() }
}

impl Default for StoreOptions {
    fn default() -> (options: Self)
        ensures
            options@ == default_options(),
    {
        let options = StoreOptions {
            mime_types: Vec::new(),
            directory: ".".to_owned(),
            prefix: String::new(),
        };
        assert(options.mime_types.deep_view() == Seq::<Seq<char>>::empty());
        options
    }
}

/// The value of the first entry of `opts` under `key`, if there is one.
pub open spec fn first_value(opts: Seq<(OptionKey, ValueView)>, key: OptionKey) -> Option<
    ValueView,
>
    decreases opts.len(),
{
    if opts.len() == 0 {
        None
    } else if opts[0].0 == key {
        Some(opts[0].1)
    } else {
        first_value(opts.drop_first(), key)
    }
}

/// The content types that a keyword list asks for.
pub open spec fn mime_types_of(opts: Seq<(OptionKey, ValueView)>) -> Result<
    Seq<Seq<char>>,
    BadOption,
> {
    match first_value(opts, OptionKey::MimeTypes) {
        None => Ok(default_options().mime_types),
        Some(ValueView::TextList(list)) => Ok(list),
        Some(_) => Err(BadOption),
    }
}

/// The text that a keyword list gives under `key`, or `default` without an
/// entry under it.
pub open spec fn text_of(opts: Seq<(OptionKey, ValueView)>, key: OptionKey, default: Seq<char>)
    -> Result<Seq<char>, BadOption> {
    match first_value(opts, key) {
        None => Ok(default),
        Some(ValueView::Text(text)) => Ok(text),
        Some(_) => Err(BadOption),
    }
}

/// How many nested messages a keyword list allows to be opened one inside
/// the other: the number under the first `MaxDepth` entry, or no limit
/// without such an entry.
pub open spec fn max_depth_of(opts: Seq<(OptionKey, ValueView)>) -> Result<Option<nat>, BadOption> {
    match first_value(opts, OptionKey::MaxDepth) {
        None => Ok(None),
        Some(ValueView::Count(count)) => Ok(Some(count)),
        Some(_) => Err(BadOption),
    }
}

/// The options that a keyword list resolves to. Where several values have
/// the wrong shape the list is refused all the same.
pub open spec fn resolved(opts: Seq<(OptionKey, ValueView)>) -> Result<OptionsView, BadOption> {
    match (
        mime_types_of(opts),
        text_of(opts, OptionKey::Directory, default_options().directory),
        text_of(opts, OptionKey::Prefix, default_options().prefix),
    ) {
        (Ok(mime_types), Ok(directory), Ok(prefix)) => Ok(
            OptionsView { mime_types, directory, prefix },
        ),
        _ => Err(BadOption),
    }
}

/// The first entry of `opts` under `key`.
fn find_value<'a>(opts: &'a [(OptionKey, OptionValue)], key: OptionKey) -> (found: Option<
    &'a OptionValue,
>)
    ensures
        match found {
            Some(value) => first_value(opts.deep_view(), key) == Some(value.deep_view()),
            None => first_value(opts.deep_view(), key) is None,
        },
{
    let ghost all = opts.deep_view();
    let mut index: usize = 0;
    assert(all.skip(0) == all);
    while index < opts.len()
        invariant
            index <= opts@.len(),
            all == opts.deep_view(),
            first_value(all, key) == first_value(all.skip(index as int), key),
        decreases opts@.len() - index,
    {
        let ghost rest = all.skip(index as int);
        assert(rest[0] == all[index as int]);
        assert(rest.drop_first() == all.skip(index + 1));
        if opts[index].0 == key {
            return Some(&opts[index].1);
        }
        index += 1;
    }
    assert(all.skip(index as int).len() == 0);
    None
}

/// Copies a list of strings.
fn clone_texts(texts: &Vec<String>) -> (copies: Vec<String>)
    ensures
        copies.deep_view() == texts.deep_view(),
{
    let copies = texts.clone();
    assert(copies.deep_view() == texts.deep_view());
    copies
}

/// The content types to keep: the list under the first `MimeTypes` entry, or
/// none without such an entry.
pub fn get_mime_types_from_opts(opts: &[(OptionKey, OptionValue)]) -> (mime_types: Result<
    Vec<String>,
    BadOption,
>)
    ensures
        match mime_types {
            Ok(list) => mime_types_of(opts.deep_view()) == Ok::<_, BadOption>(list.deep_view()),
            Err(error) => mime_types_of(opts.deep_view()) == Err::<Seq<Seq<char>>, _>(error),
        },
{
    match find_value(opts, OptionKey::MimeTypes) {
        None => {
            let list: Vec<String> = Vec::new();
            assert(list.deep_view() == Seq::<Seq<char>>::empty());
            Ok(list)
        },
        Some(OptionValue::TextList(list)) => Ok(clone_texts(list)),
        Some(_) => Err(BadOption),
    }
}

/// The directory to write to: the text under the first `Directory` entry, or
/// the current directory without such an entry.
pub fn get_directory_from_opts(opts: &[(OptionKey, OptionValue)]) -> (directory: Result<
    String,
    BadOption,
>)
    ensures
        match directory {
            Ok(text) => text_of(opts.deep_view(), OptionKey::Directory, "."@) == Ok::<_, BadOption>(
                text@,
            ),
            Err(error) => text_of(opts.deep_view(), OptionKey::Directory, "."@) == Err::<
                Seq<char>,
                _,
            >(error),
        },
{
    match find_value(opts, OptionKey::Directory) {
        None => Ok(".".to_owned()),
        Some(OptionValue::Text(text)) => Ok(text.clone()),
        Some(_) => Err(BadOption),
    }
}

/// The prefix of every file name: the text under the first `Prefix` entry, or
/// the empty text without such an entry.
pub fn get_prefix_from_opts(opts: &[(OptionKey, OptionValue)]) -> (prefix: Result<
    String,
    BadOption,
>)
    ensures
        match prefix {
            Ok(text) => text_of(opts.deep_view(), OptionKey::Prefix, Seq::empty()) == Ok::<
                _,
                BadOption,
            >(text@),
            Err(error) => text_of(opts.deep_view(), OptionKey::Prefix, Seq::empty()) == Err::<
                Seq<char>,
                _,
            >(error),
        },
{
    match find_value(opts, OptionKey::Prefix) {
        None => Ok(String::new()),
        Some(OptionValue::Text(text)) => Ok(text.clone()),
        Some(_) => Err(BadOption),
    }
}

/// The depth limit of a keyword list: the number under the first `MaxDepth`
/// entry, or none without such an entry.
pub fn get_max_depth_from_opts(opts: &[(OptionKey, OptionValue)]) -> (max_depth: Result<
    Option<usize>,
    BadOption,
>)
    ensures
        match max_depth {
            Ok(Some(limit)) => max_depth_of(opts.deep_view()) == Ok::<_, BadOption>(
                Some(limit as nat),
            ),
            Ok(None) => max_depth_of(opts.deep_view()) == Ok::<Option<nat>, BadOption>(None),
            Err(error) => max_depth_of(opts.deep_view()) == Err::<Option<nat>, _>(error),
        },
{
    match find_value(opts, OptionKey::MaxDepth) {
        None => Ok(None),
        Some(OptionValue::Count(count)) => Ok(Some(*count)),
        Some(_) => Err(BadOption),
    }
}

impl StoreOptions {
    /// Resolves a keyword list: each option from its first entry, or its
    /// default.
    pub fn from_opts(opts: &[(OptionKey, OptionValue)]) -> (options: Result<StoreOptions, BadOption>)
        ensures
            match options {
                Ok(options) => resolved(opts.deep_view()) == Ok::<_, BadOption>(options@),
                Err(error) => resolved(opts.deep_view()) == Err::<OptionsView, _>(error),
            },
    {
        let mime_types = match get_mime_types_from_opts(opts) {
            Ok(mime_types) => mime_types,
            Err(error) => { return Err(error); },
        };
        let directory = match get_directory_from_opts(opts) {
            Ok(directory) => directory,
            Err(error) => { return Err(error); },
        };
        let prefix = match get_prefix_from_opts(opts) {
            Ok(prefix) => prefix,
            Err(error) => { return Err(error); },
        };
        Ok(StoreOptions { mime_types, directory, prefix })
    }
}

} // verus!
