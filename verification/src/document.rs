//! A fetched artifact: the unit that the cache stores, the moderation
//! provider inspects, and the responder serializes.

use vstd::prelude::*;

verus! {

/// The mathematical content of a [`Document`].
pub ghost struct DocView {
    pub id: u128,
    pub content_type: Seq<char>,
    pub content_length: u64,
    pub bytes: Seq<u8>,
    pub url: Seq<char>,
}

/// A fetched artifact. `id` is the request identifier that produced it,
/// `content_type` the media type taken from the response (empty when the
/// origin sent none), `content_length` the advertised length with the
/// observed length as fallback, and `bytes` the payload.
pub struct Document {
    pub id: u128,
    pub content_type: String,
    pub content_length: u64,
    pub bytes: Vec<u8>,
    pub url: String,
}

impl View for Document {
    type V = DocView;

    open spec fn view(&self) -> DocView {
        DocView {
            id: self.id,
            content_type: self.content_type@,
            content_length: self.content_length,
            bytes: self.bytes@,
            url: self.url@,
        }
    }
}

impl Document {
    /// The accounted size of the document: the length of its payload.
    pub fn size_in_bytes(&self) -> (r: u64)
        ensures
            r == self@.bytes.len(),
    {
        let len = self.bytes.len();
        len as u64
    }

    /// A copy of the document with the same content; the shared handle of
    /// the cache and the responder.
    pub fn duplicate(&self) -> (r: Document)
        ensures
            r@ == self@,
    {
        let bytes = self.bytes.clone();
        proof {
            assert(bytes@ =~= self.bytes@);
        }
        Document {
            id: self.id,
            content_type: self.content_type.clone(),
            content_length: self.content_length,
            bytes,
            url: self.url.clone(),
        }
    }
}

} // verus!
