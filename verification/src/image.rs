//! Image blobs.
use vstd::prelude::*;
use crate::text::opt_text;

verus! {

/// An image, keyed by the URL it comes from.
///
/// The bytes arrive with a fetch. Until then only the key is known, and
/// `etag` and `last_modified` stay empty; afterwards they let the next fetch
/// ask the server whether the image has changed.
#[derive(Debug)]
pub struct Image {
    pub pk: String,
    pub mimetype: Option<String>,
    pub etag: Option<String>,
    pub last_modified: Option<String>,
    pub data: Option<Vec<u8>>,
}

/// The mathematical value of an [`Image`].
pub struct ImageView {
    pub pk: Seq<char>,
    pub mimetype: Option<Seq<char>>,
    pub etag: Option<Seq<char>>,
    pub last_modified: Option<Seq<char>>,
    pub data: Option<Seq<u8>>,
}

impl ImageView {
    /// An image of which only the key is known.
    pub open spec fn bare(pk: Seq<char>) -> ImageView {
        ImageView { pk, mimetype: None, etag: None, last_modified: None, data: None }
    }

    /// An image is loaded once its bytes are there.
    pub open spec fn loaded(self) -> bool {
        self.data is Some
    }
}

impl View for Image {
    type V = ImageView;

    open spec fn view(&self) -> ImageView {
        ImageView {
            pk: self.pk@,
            mimetype: opt_text(self.mimetype),
            etag: opt_text(self.etag),
            last_modified: opt_text(self.last_modified),
            data: match self.data {
                Some(bytes) => Some(bytes@),
                None => None,
            },
        }
    }
}

impl Image {
    /// An image that is not loaded yet.
    pub fn new(pk: &str) -> (image: Image)
        ensures
            image@ == ImageView::bare(pk@),
    {
        Image { pk: pk.to_owned(), mimetype: None, etag: None, last_modified: None, data: None }
    }

    /// Whether the bytes are there.
    pub fn loaded(&self) -> (r: bool)
        ensures
            r == self@.loaded(),
    {
        self.data.is_some()
    }

    /// What the `Debug` form of an image shows: its key and whether it is
    /// loaded, never the bytes.
    pub fn summary(&self) -> (text: String)
        ensures
            text@ == "Image {pk: "@ + self.pk@ + ", loaded: "@ + (if self@.loaded() {
                "true"@
            } else {
                "false"@
            }) + "}"@,
    {
        let head = String::from_str("Image {pk: ").concat(self.pk.as_str()).concat(", loaded: ");
        let flag = if self.loaded() {
            head.concat("true")
        } else {
            head.concat("false")
        };
        flag.concat("}")
    }
}

impl PartialEq for Image {
    /// Two images are the same when key and etag agree.
    fn eq(&self, other: &Image) -> (same: bool) {
        let same_etag = match (&self.etag, &other.etag) {
            (Some(a), Some(b)) => *a.as_str() == *b.as_str(),
            (None, None) => true,
            _ => false,
        };
        *self.pk.as_str() == *other.pk.as_str() && same_etag
    }
}

impl vstd::std_specs::cmp::PartialEqSpecImpl for Image {
    open spec fn obeys_eq_spec() -> bool {
        true
    }

    open spec fn eq_spec(&self, other: &Image) -> bool {
        self@.pk == other@.pk && self@.etag == other@.etag
    }
}

impl Eq for Image {

}

} // verus!
