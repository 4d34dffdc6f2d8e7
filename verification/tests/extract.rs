use mail_attachments::api::{extract, extract_within};
use mail_attachments::attachment::Attachment;
use mail_attachments::error::ExtractError;
use mail_parser::{Message, MessageParser};

fn parse(raw: &[u8]) -> Option<Message<'_>> {
    MessageParser::default().parse(raw)
}

fn extract_raw(raw: &[u8]) -> Result<Vec<Attachment>, ExtractError> {
    extract(parse(raw).as_ref())
}

fn extract_raw_within(raw: &[u8], max_depth: usize) -> Result<Vec<Attachment>, ExtractError> {
    extract_within(parse(raw).as_ref(), max_depth)
}

fn mixed_message() -> Vec<u8> {
    let text = "From: sender@example.com\r\n\
To: receiver@example.com\r\n\
Subject: Files\r\n\
MIME-Version: 1.0\r\n\
Content-Type: multipart/mixed; boundary=\"outer\"\r\n\
\r\n\
--outer\r\n\
Content-Type: text/plain; charset=\"utf-8\"\r\n\
\r\n\
See the files.\r\n\
--outer\r\n\
Content-Type: application/octet-stream; name=\"data.bin\"\r\n\
Content-Disposition: attachment; filename=\"data.bin\"\r\n\
Content-Transfer-Encoding: base64\r\n\
\r\n\
AAECAwT/\r\n\
--outer\r\n\
Content-Type: image/png\r\n\
Content-Disposition: attachment\r\n\
Content-Transfer-Encoding: base64\r\n\
\r\n\
iVBORw==\r\n\
--outer--\r\n";
    text.as_bytes().to_vec()
}

fn forwarded_message() -> Vec<u8> {
    let text = "From: a@example.com\r\n\
Subject: outer\r\n\
MIME-Version: 1.0\r\n\
Content-Type: multipart/mixed; boundary=\"outer\"\r\n\
\r\n\
--outer\r\n\
Content-Type: text/plain\r\n\
\r\n\
outer text\r\n\
--outer\r\n\
Content-Type: message/rfc822\r\n\
Content-Disposition: attachment; filename=\"fwd.eml\"\r\n\
\r\n\
From: b@example.com\r\n\
Subject: inner\r\n\
MIME-Version: 1.0\r\n\
Content-Type: multipart/mixed; boundary=\"inner\"\r\n\
\r\n\
--inner\r\n\
Content-Type: text/plain\r\n\
\r\n\
inner text\r\n\
--inner\r\n\
Content-Type: application/pdf\r\n\
Content-Disposition: attachment; filename=\"inner.pdf\"\r\n\
Content-Transfer-Encoding: base64\r\n\
\r\n\
JVBERi0=\r\n\
--inner--\r\n\
--outer\r\n\
Content-Type: text/csv\r\n\
Content-Disposition: attachment; filename=\"after.csv\"\r\n\
\r\n\
a,b\r\n\
--outer--\r\n";
    text.as_bytes().to_vec()
}

#[test]
fn extract_lists_attachments_in_order() {
    let attachments = extract_raw(&mixed_message()).unwrap();
    assert_eq!(attachments.len(), 2);
    assert_eq!(attachments[0].name, "data.bin");
    assert_eq!(attachments[0].content_type.as_deref(), Some("application/octet-stream"));
    assert_eq!(attachments[0].content_bytes.0, vec![0u8, 1, 2, 3, 4, 255]);
    assert_eq!(attachments[1].name, "untitled");
    assert_eq!(attachments[1].content_type.as_deref(), Some("image/png"));
    assert_eq!(attachments[1].content_bytes.0, vec![0x89u8, 0x50, 0x4e, 0x47]);
}

#[test]
fn single_part_message_yields_its_payload_exactly() {
    let raw = b"From: a@example.com\r\n\
Content-Type: application/pdf; name=\"f.pdf\"\r\n\
Content-Disposition: attachment; filename=\"f.pdf\"\r\n\
\r\n\
%PDF-1.4 data";
    let attachments = extract_raw(raw).unwrap();
    assert_eq!(attachments.len(), 1);
    assert_eq!(attachments[0].name, "f.pdf");
    assert_eq!(attachments[0].content_type.as_deref(), Some("application/pdf"));
    assert_eq!(attachments[0].content_bytes.0, b"%PDF-1.4 data".to_vec());
}

#[test]
fn nested_message_is_unwrapped_in_place() {
    let attachments = extract_raw(&forwarded_message()).unwrap();
    let names: Vec<&str> = attachments.iter().map(|a| a.name.as_str()).collect();
    assert_eq!(names, vec!["inner.pdf", "after.csv"]);
    assert_eq!(attachments[0].content_type.as_deref(), Some("application/pdf"));
    assert_eq!(attachments[0].content_bytes.0, b"%PDF-".to_vec());
    assert_eq!(attachments[1].content_type.as_deref(), Some("text/csv"));
    assert_eq!(attachments[1].content_bytes.0, b"a,b".to_vec());
    assert!(attachments.iter().all(|a| a.name != "fwd.eml"));
    assert!(attachments.iter().all(|a| a.content_type.as_deref() != Some("message/rfc822")));
}

#[test]
fn attachment_without_a_name_is_untitled() {
    let raw = b"From: a@example.com\r\n\
Content-Type: application/zip\r\n\
Content-Disposition: attachment\r\n\
\r\n\
PK";
    let attachments = extract_raw(raw).unwrap();
    assert_eq!(attachments.len(), 1);
    assert_eq!(attachments[0].name, "untitled");
    assert_eq!(attachments[0].content_bytes.0, b"PK".to_vec());
}

#[test]
fn name_falls_back_to_the_content_type_attribute() {
    let raw = b"From: a@example.com\r\n\
Content-Type: application/zip; name=\"from-type.zip\"\r\n\
Content-Disposition: attachment\r\n\
\r\n\
PK";
    let attachments = extract_raw(raw).unwrap();
    assert_eq!(attachments.len(), 1);
    assert_eq!(attachments[0].name, "from-type.zip");
}

#[test]
fn content_type_without_subtype_is_the_type_alone() {
    let raw = b"From: a@example.com\r\n\
Content-Type: application\r\n\
Content-Disposition: attachment; filename=\"x\"\r\n\
\r\n\
DATA";
    let attachments = extract_raw(raw).unwrap();
    assert_eq!(attachments.len(), 1);
    assert_eq!(attachments[0].content_type.as_deref(), Some("application"));
}

#[test]
fn part_without_content_type_has_none() {
    let raw = b"From: a@example.com\r\n\
Content-Disposition: attachment; filename=\"f.bin\"\r\n\
\r\n\
DATA";
    let attachments = extract_raw(raw).unwrap();
    assert_eq!(attachments.len(), 1);
    assert_eq!(attachments[0].name, "f.bin");
    assert_eq!(attachments[0].content_type, None);
    assert_eq!(attachments[0].content_bytes.0, b"DATA".to_vec());
}

#[test]
fn message_without_attachments_yields_an_empty_list() {
    let raw = b"From: a@example.com\r\nSubject: hello\r\n\r\nJust text.\r\n";
    let attachments = extract_raw(raw).unwrap();
    assert!(attachments.is_empty());
}

#[test]
fn extract_without_a_message_is_a_parse_error() {
    assert!(matches!(extract(None), Err(ExtractError::ParseError)));
    assert!(matches!(extract_within(None, 0), Err(ExtractError::ParseError)));
}

#[test]
fn extract_refuses_empty_input() {
    assert!(matches!(extract_raw(b""), Err(ExtractError::ParseError)));
}

#[test]
fn extract_refuses_blank_input() {
    assert!(matches!(extract_raw(b"   "), Err(ExtractError::ParseError)));
}

#[test]
fn extraction_is_repeatable() {
    let raw = forwarded_message();
    let first = extract_raw(&raw).unwrap();
    let second = extract_raw(&raw).unwrap();
    assert_eq!(first.len(), second.len());
    for (a, b) in first.iter().zip(second.iter()) {
        assert_eq!(a.name, b.name);
        assert_eq!(a.content_type, b.content_type);
        assert_eq!(a.content_bytes.0, b.content_bytes.0);
    }
}

#[test]
fn attachments_outlive_the_input() {
    let attachments = {
        let raw = mixed_message();
        extract_raw(&raw).unwrap()
    };
    assert_eq!(attachments[0].content_bytes.0, vec![0u8, 1, 2, 3, 4, 255]);
}

#[test]
fn depth_limit_refuses_a_nested_message() {
    let raw = forwarded_message();
    assert!(matches!(extract_raw_within(&raw, 0), Err(ExtractError::TooDeeplyNested)));
}

#[test]
fn depth_limit_admits_what_stays_within_it() {
    let raw = forwarded_message();
    let bounded = extract_raw_within(&raw, 1).unwrap();
    let names: Vec<&str> = bounded.iter().map(|a| a.name.as_str()).collect();
    assert_eq!(names, vec!["inner.pdf", "after.csv"]);
    let flat = extract_raw_within(&mixed_message(), 0).unwrap();
    assert_eq!(flat.len(), 2);
}

#[test]
fn depth_limit_keeps_the_parse_error() {
    assert!(matches!(extract_raw_within(b"", 5), Err(ExtractError::ParseError)));
}
