use mail_attachments::options::{
    get_directory_from_opts, get_max_depth_from_opts, get_mime_types_from_opts,
    get_prefix_from_opts, BadOption, OptionKey, OptionValue, StoreOptions,
};

fn text(value: &str) -> OptionValue {
    OptionValue::Text(value.to_string())
}

fn list(values: &[&str]) -> OptionValue {
    OptionValue::TextList(values.iter().map(|v| v.to_string()).collect())
}

#[test]
fn defaults_are_unfiltered_current_directory_no_prefix() {
    let options = StoreOptions::default();
    assert!(options.mime_types.is_empty());
    assert_eq!(options.directory, ".");
    assert_eq!(options.prefix, "");
}

#[test]
fn empty_keyword_list_resolves_to_the_defaults() {
    assert_eq!(get_mime_types_from_opts(&[]), Ok(Vec::new()));
    assert_eq!(get_directory_from_opts(&[]), Ok(".".to_string()));
    assert_eq!(get_prefix_from_opts(&[]), Ok(String::new()));
    let options = StoreOptions::from_opts(&[]).unwrap();
    assert!(options.mime_types.is_empty());
    assert_eq!(options.directory, ".");
    assert_eq!(options.prefix, "");
}

#[test]
fn each_option_is_read_from_its_own_key() {
    let opts = vec![
        (OptionKey::Prefix, text("msg-")),
        (OptionKey::MimeTypes, list(&["image/png", "text/plain"])),
        (OptionKey::Directory, text("/tmp/out")),
    ];
    assert_eq!(
        get_mime_types_from_opts(&opts),
        Ok(vec!["image/png".to_string(), "text/plain".to_string()])
    );
    assert_eq!(get_directory_from_opts(&opts), Ok("/tmp/out".to_string()));
    assert_eq!(get_prefix_from_opts(&opts), Ok("msg-".to_string()));
    let options = StoreOptions::from_opts(&opts).unwrap();
    assert_eq!(options.mime_types, vec!["image/png".to_string(), "text/plain".to_string()]);
    assert_eq!(options.directory, "/tmp/out");
    assert_eq!(options.prefix, "msg-");
}

#[test]
fn options_default_independently() {
    let opts = vec![(OptionKey::Directory, text("out"))];
    let options = StoreOptions::from_opts(&opts).unwrap();
    assert!(options.mime_types.is_empty());
    assert_eq!(options.directory, "out");
    assert_eq!(options.prefix, "");
}

#[test]
fn the_first_entry_under_a_key_counts() {
    let opts = vec![
        (OptionKey::Directory, text("first")),
        (OptionKey::Directory, text("second")),
        (OptionKey::Prefix, text("pre-")),
        (OptionKey::Prefix, list(&["ignored"])),
    ];
    assert_eq!(get_directory_from_opts(&opts), Ok("first".to_string()));
    assert_eq!(get_prefix_from_opts(&opts), Ok("pre-".to_string()));
}

#[test]
fn unknown_keys_are_skipped() {
    let opts = vec![
        (OptionKey::Unknown, text("noise")),
        (OptionKey::Unknown, OptionValue::Other),
        (OptionKey::Prefix, text("p")),
    ];
    assert_eq!(get_prefix_from_opts(&opts), Ok("p".to_string()));
    assert_eq!(get_directory_from_opts(&opts), Ok(".".to_string()));
    assert_eq!(get_mime_types_from_opts(&opts), Ok(Vec::new()));
}

#[test]
fn a_value_of_the_wrong_shape_is_refused() {
    let opts = vec![(OptionKey::MimeTypes, text("image/png"))];
    assert_eq!(get_mime_types_from_opts(&opts), Err(BadOption));
    assert_eq!(StoreOptions::from_opts(&opts).err(), Some(BadOption));
    let opts = vec![(OptionKey::Directory, list(&["a"]))];
    assert_eq!(get_directory_from_opts(&opts), Err(BadOption));
    assert_eq!(StoreOptions::from_opts(&opts).err(), Some(BadOption));
    let opts = vec![(OptionKey::Prefix, OptionValue::Other)];
    assert_eq!(get_prefix_from_opts(&opts), Err(BadOption));
    assert_eq!(StoreOptions::from_opts(&opts).err(), Some(BadOption));
}

#[test]
fn a_bad_first_entry_is_not_rescued_by_a_later_one() {
    let opts = vec![
        (OptionKey::Directory, OptionValue::Other),
        (OptionKey::Directory, text("fine")),
    ];
    assert_eq!(get_directory_from_opts(&opts), Err(BadOption));
}

#[test]
fn an_empty_list_of_types_is_a_valid_value() {
    let opts = vec![(OptionKey::MimeTypes, list(&[]))];
    assert_eq!(get_mime_types_from_opts(&opts), Ok(Vec::new()));
}

#[test]
fn empty_texts_are_valid_values() {
    let opts = vec![(OptionKey::Directory, text("")), (OptionKey::Prefix, text(""))];
    assert_eq!(get_directory_from_opts(&opts), Ok(String::new()));
    assert_eq!(get_prefix_from_opts(&opts), Ok(String::new()));
}

#[test]
fn depth_limit_is_absent_by_default() {
    assert_eq!(get_max_depth_from_opts(&[]), Ok(None));
    let opts = vec![(OptionKey::Directory, text("out"))];
    assert_eq!(get_max_depth_from_opts(&opts), Ok(None));
}

#[test]
fn depth_limit_is_read_from_its_first_entry() {
    let opts = vec![
        (OptionKey::Prefix, text("p")),
        (OptionKey::MaxDepth, OptionValue::Count(7)),
        (OptionKey::MaxDepth, OptionValue::Count(9)),
    ];
    assert_eq!(get_max_depth_from_opts(&opts), Ok(Some(7)));
    let opts = vec![(OptionKey::MaxDepth, OptionValue::Count(0))];
    assert_eq!(get_max_depth_from_opts(&opts), Ok(Some(0)));
}

#[test]
fn depth_limit_of_the_wrong_shape_is_refused() {
    let opts = vec![(OptionKey::MaxDepth, text("7"))];
    assert_eq!(get_max_depth_from_opts(&opts), Err(BadOption));
    let opts = vec![(OptionKey::MaxDepth, OptionValue::Other)];
    assert_eq!(get_max_depth_from_opts(&opts), Err(BadOption));
}

#[test]
fn a_number_is_no_text() {
    let opts = vec![(OptionKey::Directory, OptionValue::Count(3))];
    assert_eq!(get_directory_from_opts(&opts), Err(BadOption));
    let opts = vec![(OptionKey::MimeTypes, OptionValue::Count(3))];
    assert_eq!(get_mime_types_from_opts(&opts), Err(BadOption));
}

#[test]
fn depth_limit_does_not_touch_the_store_options() {
    let opts = vec![(OptionKey::MaxDepth, OptionValue::Other)];
    let options = StoreOptions::from_opts(&opts).unwrap();
    assert_eq!(options.directory, ".");
}
