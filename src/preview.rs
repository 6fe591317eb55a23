use vstd::prelude::*;

use base64::Engine;

use crate::image::Image;
use crate::sorter::OrderChangedMessage;

verus! {

/// The standard padded base64 text of `b`.
pub uninterp spec fn base64_of(b: Seq<u8>) -> Seq<char>;

/// The longest input that the encoder can size without overflow.
pub open spec fn encodable_len(n: nat) -> bool {
    n <= usize::MAX / 2
}

/// Relies on `base64::engine::general_purpose::STANDARD.encode`: the padded
/// standard-alphabet encoding, which depends on the bytes alone.  It panics
/// only when the output length overflows `usize`, which the bound excludes.
#[verifier::external_body]
fn base64_encode(b: &[u8]) -> (r: String)
    requires
        encodable_len(b@.len()),
    ensures
        r@ == base64_of(b@),
{
    base64::engine::general_purpose::STANDARD.encode(b)
}

/// The data URI of content of media type `mime_type` whose base64 text is
/// `encoded`.
pub open spec fn data_uri(mime_type: Seq<char>, encoded: Seq<char>) -> Seq<char> {
    "data:"@ + mime_type + ";base64,"@ + encoded
}

/// Builds the data URI from a media type and the base64 text of the content.
pub fn data_uri_of(mime_type: &str, encoded: &str) -> (r: String)
    ensures
        r@ == data_uri(mime_type@, encoded@),
{
    let mut s = String::from_str("data:");
    s.append(mime_type);
    s.append(";base64,");
    s.append(encoded);
    s
}

/// The data URI that previews `image`.
pub fn encode_image(image: &Image) -> (r: String)
    requires
        encodable_len(image.bytes@.len()),
    ensures
        r@ == data_uri(image.mime_type@, base64_of(image.bytes@)),
{
    let encoded = base64_encode(image.bytes.as_slice());
    data_uri_of(image.mime_type.as_str(), encoded.as_str())
}

/// The preview state of one image in the sorter: its data URI once encoded,
/// and whether an encoding is under way.
pub struct SortingImage {
    pub encoded_image: String,
    pub is_encoding: bool,
}

/// The events of one sorter entry.
pub enum Msg {
    /// One of the entry's buttons was pressed.
    OrderChanged(OrderChangedMessage),
    /// The preview should be (re)computed.
    Encoding,
    /// The preview was computed.
    Encoded(String),
}

/// What a sorter entry asks of its surroundings.
pub enum SortingEffect {
    Nothing,
    /// Pass the reordering request on to the list's owner.
    Forward(OrderChangedMessage),
    /// Compute the preview of the entry's image.
    StartEncoding,
}

/// Which of an entry's three buttons are disabled.
pub struct ControlStates {
    pub left_disabled: bool,
    pub remove_disabled: bool,
    pub right_disabled: bool,
}

impl SortingImage {
    /// An entry with no preview yet.
    pub fn create() -> (r: SortingImage)
        ensures
            r.encoded_image@.len() == 0,
            !r.is_encoding,
    {
        SortingImage { encoded_image: String::new(), is_encoding: false }
    }

    /// Processes one event of the entry.
    pub fn update(&mut self, msg: Msg) -> (r: SortingEffect)
        ensures
            match msg {
                Msg::OrderChanged(m) => r == SortingEffect::Forward(m) && *final(self) == *old(self),
                Msg::Encoding => r is StartEncoding && final(self).is_encoding
                    && final(self).encoded_image@ == old(self).encoded_image@,
                Msg::Encoded(uri) => r is Nothing && !final(self).is_encoding
                    && final(self).encoded_image@ == uri@,
            },
    {
        match msg {
            Msg::OrderChanged(m) => SortingEffect::Forward(m),
            Msg::Encoding => {
                self.is_encoding = true;
                SortingEffect::StartEncoding
            },
            Msg::Encoded(uri) => {
                self.encoded_image = uri;
                self.is_encoding = false;
                SortingEffect::Nothing
            },
        }
    }

    /// Whether a new image content calls for a new preview: it does exactly
    /// when the bytes differ.
    pub fn changed(new_bytes: &Vec<u8>, old_bytes: &Vec<u8>) -> (r: bool)
        ensures
            r == (new_bytes@ != old_bytes@),
    {
        let n = new_bytes.len();
        if n != old_bytes.len() {
            return true;
        }
        let mut i: usize = 0;
        while i < n
            invariant
                n == new_bytes@.len(),
                n == old_bytes@.len(),
                i <= n,
                forall|k: int| 0 <= k < i ==> new_bytes@[k] == old_bytes@[k],
            decreases n - i,
        {
            if new_bytes[i] != old_bytes[i] {
                return true;
            }
            i = i + 1;
        }
        assert(new_bytes@ =~= old_bytes@);
        false
    }

    /// Whether the entry should start computing its preview after a render:
    /// when none is under way and none exists yet.
    pub fn rendered(&self) -> (r: bool)
        ensures
            r == (!self.is_encoding && self.encoded_image@.len() == 0),
    {
        !self.is_encoding && self.encoded_image.as_str().is_empty()
    }
}

/// The buttons of the entry at `index` among `total`: moving left is disabled
/// on the first entry, moving right on the last, and all of them while
/// `disabled` (a merge is outstanding).
pub fn control_states(index: usize, total: usize, disabled: bool) -> (r: ControlStates)
    ensures
        r.left_disabled == (index == 0 || disabled),
        r.remove_disabled == disabled,
        r.right_disabled == (index + 1 >= total || disabled),
{
    ControlStates {
        left_disabled: index == 0 || disabled,
        remove_disabled: disabled,
        right_disabled: index >= total || total - index <= 1 || disabled,
    }
}

} // verus!
