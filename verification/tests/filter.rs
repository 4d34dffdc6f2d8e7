use mail_attachments::attachment::{Attachment, ContentBytes};
use mail_attachments::filter::filter_by_mime_type;

fn attachment(name: &str, content_type: Option<&str>) -> Attachment {
    Attachment {
        name: name.to_string(),
        content_type: content_type.map(|t| t.to_string()),
        content_bytes: ContentBytes::new(name.as_bytes()),
    }
}

fn sample() -> Vec<Attachment> {
    vec![
        attachment("a.png", Some("image/png")),
        attachment("b.txt", Some("text/plain")),
        attachment("c", None),
        attachment("d.png", Some("image/png")),
    ]
}

fn names(attachments: &[Attachment]) -> Vec<&str> {
    attachments.iter().map(|a| a.name.as_str()).collect()
}

fn types(list: &[&str]) -> Vec<String> {
    list.iter().map(|t| t.to_string()).collect()
}

#[test]
fn empty_allow_list_is_the_identity() {
    let all = sample();
    let kept = filter_by_mime_type(&all, &[]);
    assert_eq!(kept.len(), all.len());
    for (k, a) in kept.iter().zip(all.iter()) {
        assert_eq!(k.name, a.name);
        assert_eq!(k.content_type, a.content_type);
        assert_eq!(k.content_bytes.0, a.content_bytes.0);
    }
}

#[test]
fn png_filter_keeps_exactly_the_png_attachments() {
    let all = vec![
        attachment("a.png", Some("image/png")),
        attachment("b.txt", Some("text/plain")),
        attachment("c", None),
    ];
    let kept = filter_by_mime_type(&all, &types(&["image/png"]));
    assert_eq!(names(&kept), vec!["a.png"]);
    assert_eq!(kept[0].content_type.as_deref(), Some("image/png"));
    assert_eq!(kept[0].content_bytes.0, b"a.png".to_vec());
}

#[test]
fn filter_preserves_relative_order() {
    let kept = filter_by_mime_type(&sample(), &types(&["image/png"]));
    assert_eq!(names(&kept), vec!["a.png", "d.png"]);
    let kept = filter_by_mime_type(&sample(), &types(&["text/plain", "image/png"]));
    assert_eq!(names(&kept), vec!["a.png", "b.txt", "d.png"]);
}

#[test]
fn attachment_without_content_type_never_matches() {
    let all = vec![attachment("c", None)];
    assert!(filter_by_mime_type(&all, &types(&["image/png"])).is_empty());
    assert!(filter_by_mime_type(&all, &types(&[""])).is_empty());
    assert_eq!(filter_by_mime_type(&all, &[]).len(), 1);
}

#[test]
fn matching_is_exact_and_case_sensitive() {
    let all = sample();
    assert!(filter_by_mime_type(&all, &types(&["IMAGE/PNG"])).is_empty());
    assert!(filter_by_mime_type(&all, &types(&["image/*"])).is_empty());
    assert!(filter_by_mime_type(&all, &types(&["image"])).is_empty());
    assert!(filter_by_mime_type(&all, &types(&["image/png "])).is_empty());
    assert!(filter_by_mime_type(&all, &types(&["image/pn"])).is_empty());
}

#[test]
fn filter_that_matches_nothing_yields_nothing() {
    assert!(filter_by_mime_type(&sample(), &types(&["application/pdf"])).is_empty());
}

#[test]
fn filter_of_an_empty_list_is_empty() {
    assert!(filter_by_mime_type(&Vec::new(), &[]).is_empty());
    assert!(filter_by_mime_type(&Vec::new(), &types(&["image/png"])).is_empty());
}

#[test]
fn filter_leaves_its_input_alone() {
    let all = sample();
    let _ = filter_by_mime_type(&all, &types(&["text/plain"]));
    assert_eq!(names(&all), vec!["a.png", "b.txt", "c", "d.png"]);
}

#[test]
fn filter_splits_over_concatenation() {
    let all = sample();
    let allow = types(&["image/png"]);
    let front: Vec<Attachment> = all[..2].to_vec();
    let back: Vec<Attachment> = all[2..].to_vec();
    let mut joined: Vec<String> = Vec::new();
    for a in filter_by_mime_type(&front, &allow) {
        joined.push(a.name);
    }
    for a in filter_by_mime_type(&back, &allow) {
        joined.push(a.name);
    }
    let whole: Vec<String> = filter_by_mime_type(&all, &allow).into_iter().map(|a| a.name).collect();
    assert_eq!(joined, whole);
}
