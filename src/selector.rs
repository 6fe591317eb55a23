use vstd::prelude::*;

use crate::image::Image;
use crate::text::{accepted_image_type, png_type};

verus! {

/// A file as the user selected it: its declared name, media type and size.
pub struct SelectedFile {
    pub name: String,
    pub mime_type: String,
    pub size: u64,
}

/// Whether the file declares exactly the accepted image type.
pub open spec fn is_accepted(f: SelectedFile) -> bool {
    f.mime_type@ == png_type()
}

/// A file selection split into the files to decode and whether any file
/// was turned away.
pub struct Selection {
    pub accepted: Vec<SelectedFile>,
    pub any_rejected: bool,
}

/// The events of the file input.
pub enum Msg {
    /// A file was decoded.
    FileReady(Image),
    /// This many accepted files start decoding.
    ImagesSelected(usize),
    /// A file failed to decode.
    FileLoadError,
}

/// What the file input asks of its surroundings, in order.
pub enum SelectorEffect {
    /// Hand the decoded image to the list's owner.
    Deliver(Image),
    /// Report `count` pending decodes to the list's owner, then start them
    /// all; the input is cleared so that the same files can be chosen again.
    StartReads { count: usize },
    /// Alert the user that a file failed to load, and report one decode as
    /// settled.
    ReportLoadFailure,
}

/// The file input's state: the value shown by the input element.
pub struct ImageSelector {
    pub files_value: String,
}

/// Splits a selection: the accepted files keep their order, and the caller
/// warns once if any file was not an accepted image.
pub fn on_change(files: Vec<SelectedFile>) -> (r: Selection)
    ensures
        r.accepted@ == files@.filter(|f: SelectedFile| is_accepted(f)),
        r.any_rejected == exists|i: int| 0 <= i < files@.len() && !is_accepted(#[trigger] files@[i]),
{
    let ghost all = files@;
    let accepted_type = accepted_image_type();
    let mut rest = files;
    let mut accepted: Vec<SelectedFile> = Vec::new();
    let mut any_rejected = false;
    let ghost mut k: int = 0;
    while rest.len() > 0
        invariant
            0 <= k <= all.len(),
            rest@ == all.subrange(k, all.len() as int),
            accepted@ == all.subrange(0, k).filter(|f: SelectedFile| is_accepted(f)),
            accepted_type@ == png_type(),
            any_rejected == exists|i: int| 0 <= i < k && !is_accepted(#[trigger] all[i]),
        decreases rest@.len(),
    {
        let f = rest.remove(0);
        proof {
            assert(f == all[k]);
            assert(all.subrange(0, k + 1) =~= all.subrange(0, k).push(f));
            all.subrange(0, k).lemma_filter_push(f, |f: SelectedFile| is_accepted(f));
        }
        if f.mime_type == accepted_type {
            accepted.push(f);
        } else {
            any_rejected = true;
        }
        proof {
            k = k + 1;
            assert(rest@ =~= all.subrange(k, all.len() as int));
        }
    }
    assert(all.subrange(0, k) =~= all);
    Selection { accepted, any_rejected }
}

impl ImageSelector {
    /// A file input with nothing chosen.
    pub fn create() -> (r: ImageSelector)
        ensures
            r.files_value@.len() == 0,
    {
        ImageSelector { files_value: String::new() }
    }

    /// Processes one event of the file input.
    pub fn update(&mut self, msg: Msg) -> (r: SelectorEffect)
        ensures
            match msg {
                Msg::FileReady(img) => r == SelectorEffect::Deliver(img) && final(self).files_value@
                    == old(self).files_value@,
                Msg::ImagesSelected(count) => r == SelectorEffect::StartReads { count }
                    && final(self).files_value@.len() == 0,
                Msg::FileLoadError => r is ReportLoadFailure && final(self).files_value@
                    == old(self).files_value@,
            },
    {
        match msg {
            Msg::FileReady(img) => SelectorEffect::Deliver(img),
            Msg::ImagesSelected(count) => {
                self.files_value = String::new();
                SelectorEffect::StartReads { count }
            },
            Msg::FileLoadError => SelectorEffect::ReportLoadFailure,
        }
    }
}

} // verus!
