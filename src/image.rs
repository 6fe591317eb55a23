use vstd::prelude::*;

verus! {

/// A decoded image as the client holds it: the file's declared name and
/// media type, its declared size and its full byte content.
pub struct Image {
    pub name: String,
    pub mime_type: String,
    pub size: u64,
    pub bytes: Vec<u8>,
}

/// The mathematical content of an [`Image`].
pub struct ImageView {
    pub name: Seq<char>,
    pub mime_type: Seq<char>,
    pub size: u64,
    pub bytes: Seq<u8>,
}

impl View for Image {
    type V = ImageView;

    open spec fn view(&self) -> ImageView {
        ImageView { name: self.name@, mime_type: self.mime_type@, size: self.size, bytes: self.bytes@ }
    }
}

impl Image {
    /// An image with the given name, media type, declared size and content.
    pub fn new(name: String, mime_type: String, size: u64, bytes: Vec<u8>) -> (r: Image)
        ensures
            r.name@ == name@,
            r.mime_type@ == mime_type@,
            r.size == size,
            r.bytes@ == bytes@,
    {
        Image { name, mime_type, size, bytes }
    }
}

} // verus!
