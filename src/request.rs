use vstd::prelude::*;

use crate::image::Image;

verus! {

/// The merge options chosen so far, by option name, in the order in which
/// each name was first set.  Names are unique.
pub struct MergeOptionSet {
    pub entries: Vec<(String, bool)>,
}

/// The option names of `s`.
pub open spec fn names_of(s: Seq<(String, bool)>) -> Seq<Seq<char>> {
    s.map_values(|e: (String, bool)| e.0@)
}

/// The mapping that the entries `s` describe.
pub open spec fn options_map(s: Seq<(String, bool)>) -> Map<Seq<char>, bool>
    decreases s.len(),
{
    if s.len() == 0 {
        Map::empty()
    } else {
        options_map(s.drop_last()).insert(s.last().0@, s.last().1)
    }
}

/// No option name occurs twice in `s`.
pub open spec fn unique_names(s: Seq<(String, bool)>) -> bool {
    forall|i: int, j: int| 0 <= i < s.len() && 0 <= j < s.len() && i != j ==> s[i].0@ != s[j].0@
}

proof fn lemma_options_map_domain(s: Seq<(String, bool)>, k: Seq<char>)
    ensures
        options_map(s).contains_key(k) <==> exists|i: int| 0 <= i < s.len() && s[i].0@ == k,
    decreases s.len(),
{
    if s.len() > 0 {
        lemma_options_map_domain(s.drop_last(), k);
        if options_map(s.drop_last()).contains_key(k) {
            let i = choose|i: int| 0 <= i < s.drop_last().len() && s.drop_last()[i].0@ == k;
            assert(s[i].0@ == k);
        }
        if exists|i: int| 0 <= i < s.len() && s[i].0@ == k {
            let i = choose|i: int| 0 <= i < s.len() && s[i].0@ == k;
            if i < s.len() - 1 {
                assert(s.drop_last()[i].0@ == k);
            }
        }
    }
}

proof fn lemma_options_map_update(s: Seq<(String, bool)>, i: int, e: (String, bool))
    requires
        unique_names(s),
        0 <= i < s.len(),
        s[i].0@ == e.0@,
    ensures
        options_map(s.update(i, e)) == options_map(s).insert(e.0@, e.1),
    decreases s.len(),
{
    let t = s.update(i, e);
    if i == s.len() - 1 {
        assert(t.drop_last() =~= s.drop_last());
        assert(options_map(t) =~= options_map(s).insert(e.0@, e.1));
    } else {
        assert(t.drop_last() =~= s.drop_last().update(i, e));
        lemma_options_map_update(s.drop_last(), i, e);
        assert(s.last().0@ != e.0@);
        assert(options_map(t) =~= options_map(s).insert(e.0@, e.1));
    }
}

impl MergeOptionSet {
    /// The set in which no option is chosen yet.
    pub fn new() -> (r: MergeOptionSet)
        ensures
            r.wf(),
            options_map(r.entries@) == Map::<Seq<char>, bool>::empty(),
    {
        MergeOptionSet { entries: Vec::new() }
    }

    /// Option names are unique.
    pub open spec fn wf(&self) -> bool {
        unique_names(self.entries@)
    }

    /// The chosen value of each named option.
    pub open spec fn view(&self) -> Map<Seq<char>, bool> {
        options_map(self.entries@)
    }

    /// Records `checked` for the option `name`, replacing an earlier value.
    pub fn set(&mut self, name: String, checked: bool)
        requires
            old(self).wf(),
        ensures
            final(self).wf(),
            final(self).view() == old(self).view().insert(name@, checked),
            names_of(final(self).entries@) == if old(self).view().contains_key(name@) {
                names_of(old(self).entries@)
            } else {
                names_of(old(self).entries@).push(name@)
            },
    {
        let n = self.entries.len();
        let mut i: usize = 0;
        while i < n
            invariant
                self.entries@ == old(self).entries@,
                unique_names(self.entries@),
                n == self.entries@.len(),
                i <= n,
                forall|j: int| 0 <= j < i ==> self.entries@[j].0@ != name@,
            decreases n - i,
        {
            if self.entries[i].0 == name {
                proof {
                    lemma_options_map_update(self.entries@, i as int, (name, checked));
                    lemma_options_map_domain(self.entries@, name@);
                }
                let ghost before = self.entries@;
                self.entries.set(i, (name, checked));
                assert(names_of(self.entries@) =~= names_of(before));
                return;
            }
            i = i + 1;
        }
        proof {
            lemma_options_map_domain(self.entries@, name@);
        }
        let ghost before = self.entries@;
        self.entries.push((name, checked));
        assert(self.entries@.drop_last() =~= before);
        assert(names_of(self.entries@) =~= names_of(before).push(name@));
    }
}

/// The content of one multipart part.
pub enum PartContent {
    Bytes(Vec<u8>),
    Text(String),
}

/// One part of the outgoing multipart merge request.
pub struct FormPart {
    pub field: String,
    pub mime_type: String,
    pub content: PartContent,
}

/// The field name shared by every image part.
pub open spec fn images_field() -> Seq<char> {
    "images[]"@
}

/// The integer text that carries a flag: `1` for true, `0` for false.
pub open spec fn flag_text(b: bool) -> Seq<char> {
    if b { "1"@ } else { "0"@ }
}

/// Whether `p` is the part that uploads `img`.
pub open spec fn is_image_part(p: FormPart, img: Image) -> bool {
    &&& p.field@ == images_field()
    &&& p.mime_type@ == img.mime_type@
    &&& p.content matches PartContent::Bytes(b) && b@ == img.bytes@
}

/// Whether `p` is the part that carries the option `e`.
pub open spec fn is_option_part(p: FormPart, e: (String, bool)) -> bool {
    &&& p.field@ == e.0@
    &&& p.mime_type@ == "text/plain"@
    &&& p.content matches PartContent::Text(t) && t@ == flag_text(e.1)
}

/// Whether `parts` is the request for `images` and the option entries
/// `entries`: one image part per image in display order, then one part per
/// option.
pub open spec fn is_request_for(
    parts: Seq<FormPart>,
    images: Seq<Image>,
    entries: Seq<(String, bool)>,
) -> bool {
    &&& parts.len() == images.len() + entries.len()
    &&& forall|i: int| 0 <= i < images.len() ==> is_image_part(#[trigger] parts[i], images[i])
    &&& forall|j: int|
        0 <= j < entries.len() ==> is_option_part(#[trigger] parts[images.len() + j], entries[j])
}

fn copy_bytes(b: &Vec<u8>) -> (r: Vec<u8>)
    ensures
        r@ == b@,
{
    let r = b.clone();
    assert(r@ =~= b@);
    r
}

/// Builds the multipart merge request: the images in their current display
/// order under the shared image field, then each option as `1` or `0`.
pub fn build_parts(images: &Vec<Image>, options: &MergeOptionSet) -> (r: Vec<FormPart>)
    ensures
        is_request_for(r@, images@, options.entries@),
{
    let mut parts: Vec<FormPart> = Vec::new();
    let n = images.len();
    let mut i: usize = 0;
    while i < n
        invariant
            n == images@.len(),
            i <= n,
            parts@.len() == i,
            forall|k: int| 0 <= k < i ==> is_image_part(#[trigger] parts@[k], images@[k]),
        decreases n - i,
    {
        let img = &images[i];
        let part = FormPart {
            field: String::from_str("images[]"),
            mime_type: img.mime_type.clone(),
            content: PartContent::Bytes(copy_bytes(&img.bytes)),
        };
        parts.push(part);
        i = i + 1;
    }
    let m = options.entries.len();
    let mut j: usize = 0;
    while j < m
        invariant
            n == images@.len(),
            m == options.entries@.len(),
            j <= m,
            parts@.len() == n + j,
            forall|k: int| 0 <= k < n ==> is_image_part(#[trigger] parts@[k], images@[k]),
            forall|k: int|
                0 <= k < j ==> is_option_part(#[trigger] parts@[n + k], options.entries@[k]),
        decreases m - j,
    {
        let entry = &options.entries[j];
        let text = if entry.1 {
            String::from_str("1")
        } else {
            String::from_str("0")
        };
        let part = FormPart {
            field: entry.0.clone(),
            mime_type: String::from_str("text/plain"),
            content: PartContent::Text(text),
        };
        parts.push(part);
        proof {
            assert(parts@[n + j as int] == part);
        }
        j = j + 1;
    }
    parts
}

/// What came back from submitting a merge request.
pub enum MergeResponse {
    /// The request failed in transport or was answered with an error status;
    /// the text describes the failure.
    Failed(String),
    /// A success status, with the `Content-Type` header if there was one.
    Received { content_type: Option<String>, body: Vec<u8> },
}

/// The failure text of a success response without a content type.
pub open spec fn missing_content_type_text() -> Seq<char> {
    "Not found header 'Content-Type'"@
}

/// Turns the server's answer into the merged image.  The image's type is the
/// `Content-Type` header; a missing header is an error, never a default.
pub fn merged_image(response: MergeResponse) -> (r: Result<Image, String>)
    ensures
        match response {
            MergeResponse::Failed(e) => r matches Err(m) && m@ == e@,
            MergeResponse::Received { content_type, body } => match content_type {
                None => r matches Err(m) && m@ == missing_content_type_text(),
                Some(t) => r matches Ok(img) && img.name@ == Seq::<char>::empty() && img.mime_type@
                    == t@ && img.size == body@.len() && img.bytes@ == body@,
            },
        },
{
    match response {
        MergeResponse::Failed(e) => Err(e),
        MergeResponse::Received { content_type, body } => match content_type {
            None => Err(String::from_str("Not found header 'Content-Type'")),
            Some(t) => {
                let size = body.len() as u64;
                Ok(Image::new(String::new(), t, size, body))
            },
        },
    }
}

} // verus!
