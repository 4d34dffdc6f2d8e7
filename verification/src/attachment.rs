//! The attachment value and its mathematical view.

use vstd::prelude::*;
use vstd::slice::slice_to_vec;

verus! {

/// The raw body of an attachment: an owned buffer, independent of the
/// message it was copied from.
#[derive(Debug)]
pub struct ContentBytes(pub Vec<u8>);

impl View for ContentBytes {
    type V = Seq<u8>;

    open spec fn view(&self) -> Seq<u8> {
        self.0@
    }
}

impl ContentBytes {
    /// Copies `content_bytes` into a buffer of its own.
    pub fn new(content_bytes: &[u8]) -> (bytes: Self)
        ensures
            bytes@ == content_bytes@,
    {
        ContentBytes(slice_to_vec(content_bytes))
    }

    /// The bytes held.
    pub fn as_slice(&self) -> (bytes: &[u8])
        ensures
            bytes@ == self@,
    {
        self.0.as_slice()
    }
}

impl Clone for ContentBytes {
    fn clone(&self) -> (copy: Self)
        ensures
            copy@ == self@,
    {
        ContentBytes(slice_to_vec(self.0.as_slice()))
    }
}

/// What an attachment is, as plain mathematical values.
pub struct AttachmentView {
    pub name: Seq<char>,
    pub content_type: Option<Seq<char>>,
    pub content_bytes: Seq<u8>,
}

/// A file carried by a message: its display name, its content type where the
/// part declared one, and its body.
#[derive(Debug)]
pub struct Attachment {
    pub name: String,
    pub content_type: Option<String>,
    pub content_bytes: ContentBytes,
}

impl View for Attachment {
    type V = AttachmentView;

    open spec fn view(&self) -> AttachmentView {
        AttachmentView {
            name: self.name@,
            content_type: match self.content_type {
                Some(content_type) => Some(content_type@),
                None => None,
            },
            content_bytes: self.content_bytes@,
        }
    }
}

impl DeepView for Attachment {
    type V = AttachmentView;

    open spec fn deep_view(&self) -> AttachmentView {
        self@
    }
}

impl Clone for Attachment {
    fn clone(&self) -> (copy: Self)
        ensures
            copy@ == self@,
    {
        let content_type = match &self.content_type {
            Some(content_type) => Some(content_type.clone()),
            None => None,
        };
        Attachment {
            name: self.name.clone(),
            content_type,
            content_bytes: self.content_bytes.clone(),
        }
    }
}

} // verus!
