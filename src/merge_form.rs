use vstd::prelude::*;

use crate::image::Image;
use crate::request::{build_parts, is_request_for, FormPart, MergeOptionSet};
use crate::sorter::{apply_order_change, reordered, OrderChangedMessage};

verus! {

/// The events of the merge form, processed one at a time in arrival order.
pub enum Msg {
    /// A file finished decoding.
    AddImage(Image),
    /// This many files were accepted and started decoding.
    ImageLoading(usize),
    /// A file failed to decode.
    ImageLoadFailed,
    ImageOrderChanged(OrderChangedMessage),
    /// The server's answer to the outstanding merge, or why there is none.
    ImageMerged(Result<Image, String>),
    /// The user asked for a merge.
    MergeImage,
    /// A checkbox option was toggled.
    InputChanged { name: String, checked: bool },
}

/// What the form asks of its surroundings after an event.
pub enum Effect {
    Nothing,
    /// Send this multipart request to the merge endpoint.
    Submit(Vec<FormPart>),
    /// Tell the user that the merge failed, with the failure's description.
    AlertMergeFailed(String),
}

/// The result of processing one event.
pub struct Update {
    pub render: bool,
    pub effect: Effect,
}

/// The client-side state of a merge: the ordered images, the decodes still
/// in flight, the last merged image, whether a merge is outstanding, and the
/// chosen options.
pub struct MergeForm {
    pub images: Vec<Image>,
    pub loading_count: usize,
    pub result_image: Option<Image>,
    pub is_loading_result: bool,
    pub check_options: MergeOptionSet,
}

/// `n` lowered by one, never below zero.
pub open spec fn one_less(n: usize) -> usize {
    if n == 0 { 0 } else { (n - 1) as usize }
}

/// `a + b`, capped at the largest `usize`.
pub open spec fn capped_sum(a: usize, b: usize) -> usize {
    if a + b > usize::MAX { usize::MAX } else { (a + b) as usize }
}

/// The image sequence is left as it was.
pub open spec fn same_images(pre: MergeForm, post: MergeForm) -> bool {
    post.images@ == pre.images@
}

/// The option entries are left as they were.
pub open spec fn same_options(pre: MergeForm, post: MergeForm) -> bool {
    post.check_options.entries@ == pre.check_options.entries@
}

/// The effect of processing `msg` in state `pre`: the state `post` and the
/// update `u`.
pub open spec fn updated(pre: MergeForm, msg: Msg, post: MergeForm, u: Update) -> bool {
    match msg {
        Msg::AddImage(img) => {
            &&& post.images@ == pre.images@.push(img)
            &&& post.loading_count == one_less(pre.loading_count)
            &&& post.result_image == pre.result_image
            &&& post.is_loading_result == pre.is_loading_result
            &&& same_options(pre, post)
            &&& u.render
            &&& u.effect is Nothing
        },
        Msg::ImageLoading(n) => {
            &&& same_images(pre, post)
            &&& post.loading_count == capped_sum(pre.loading_count, n)
            &&& post.result_image == pre.result_image
            &&& post.is_loading_result == pre.is_loading_result
            &&& same_options(pre, post)
            &&& u.render
            &&& u.effect is Nothing
        },
        Msg::ImageLoadFailed => {
            &&& same_images(pre, post)
            &&& post.loading_count == one_less(pre.loading_count)
            &&& post.result_image == pre.result_image
            &&& post.is_loading_result == pre.is_loading_result
            &&& same_options(pre, post)
            &&& u.render
            &&& u.effect is Nothing
        },
        Msg::ImageOrderChanged(m) => {
            &&& post.images@ == reordered(pre.images@, m)
            &&& post.loading_count == pre.loading_count
            &&& post.result_image == pre.result_image
            &&& post.is_loading_result == pre.is_loading_result
            &&& same_options(pre, post)
            &&& u.render
            &&& u.effect is Nothing
        },
        Msg::ImageMerged(res) => {
            &&& same_images(pre, post)
            &&& post.loading_count == pre.loading_count
            &&& !post.is_loading_result
            &&& same_options(pre, post)
            &&& u.render
            &&& match res {
                Ok(img) => post.result_image == Some(img) && u.effect is Nothing,
                Err(e) => post.result_image == pre.result_image && (u.effect matches Effect::AlertMergeFailed(t) && t@ == e@),
            }
        },
        Msg::MergeImage => {
            &&& same_images(pre, post)
            &&& post.loading_count == pre.loading_count
            &&& post.result_image == pre.result_image
            &&& post.is_loading_result
            &&& same_options(pre, post)
            &&& if pre.is_loading_result {
                !u.render && u.effect is Nothing
            } else {
                u.render && (u.effect matches Effect::Submit(parts) && is_request_for(
                    parts@,
                    pre.images@,
                    pre.check_options.entries@,
                ))
            }
        },
        Msg::InputChanged { name, checked } => {
            &&& same_images(pre, post)
            &&& post.loading_count == pre.loading_count
            &&& post.result_image == pre.result_image
            &&& post.is_loading_result == pre.is_loading_result
            &&& post.check_options.view() == pre.check_options.view().insert(name@, checked)
            &&& !u.render
            &&& u.effect is Nothing
        },
    }
}

impl MergeForm {
    /// An empty form: no images, nothing loading, no result, no options.
    pub fn create() -> (r: MergeForm)
        ensures
            r.wf(),
            r.images@.len() == 0,
            r.loading_count == 0,
            r.result_image is None,
            !r.is_loading_result,
            r.check_options.view() == Map::<Seq<char>, bool>::empty(),
    {
        MergeForm {
            images: Vec::new(),
            loading_count: 0,
            result_image: None,
            is_loading_result: false,
            check_options: MergeOptionSet::new(),
        }
    }

    /// Well-formedness: option names are unique.
    pub open spec fn wf(&self) -> bool {
        self.check_options.wf()
    }

    /// Processes one event.
    pub fn update(&mut self, msg: Msg) -> (r: Update)
        requires
            old(self).wf(),
        ensures
            final(self).wf(),
            updated(*old(self), msg, *final(self), r),
    {
        match msg {
            Msg::AddImage(i) => {
                self.images.push(i);
                if self.loading_count > 0 {
                    self.loading_count = self.loading_count - 1;
                }
                Update { render: true, effect: Effect::Nothing }
            },
            Msg::ImageLoading(count) => {
                if count > usize::MAX - self.loading_count {
                    self.loading_count = usize::MAX;
                } else {
                    self.loading_count = self.loading_count + count;
                }
                Update { render: true, effect: Effect::Nothing }
            },
            Msg::ImageLoadFailed => {
                if self.loading_count > 0 {
                    self.loading_count = self.loading_count - 1;
                }
                Update { render: true, effect: Effect::Nothing }
            },
            Msg::ImageOrderChanged(m) => {
                apply_order_change(&mut self.images, m);
                Update { render: true, effect: Effect::Nothing }
            },
            Msg::MergeImage => {
                if self.is_loading_result {
                    Update { render: false, effect: Effect::Nothing }
                } else {
                    self.is_loading_result = true;
                    let parts = build_parts(&self.images, &self.check_options);
                    Update { render: true, effect: Effect::Submit(parts) }
                }
            },
            Msg::ImageMerged(res) => {
                self.is_loading_result = false;
                match res {
                    Ok(i) => {
                        self.result_image = Some(i);
                        Update { render: true, effect: Effect::Nothing }
                    },
                    Err(e) => Update { render: true, effect: Effect::AlertMergeFailed(e) },
                }
            },
            Msg::InputChanged { name, checked } => {
                self.check_options.set(name, checked);
                Update { render: false, effect: Effect::Nothing }
            },
        }
    }
}

/// A decoded image always lands at the end of the sequence, whichever decode
/// finished first, and settles exactly one pending decode.
pub proof fn lemma_decoded_image_appended(pre: MergeForm, img: Image, post: MergeForm, u: Update)
    requires
        pre.loading_count > 0,
        updated(pre, Msg::AddImage(img), post, u),
    ensures
        post.images@.len() == pre.images@.len() + 1,
        post.images@.last() == img,
        post.images@.drop_last() == pre.images@,
        post.loading_count == pre.loading_count - 1,
{
    assert(post.images@.drop_last() =~= pre.images@);
}

/// A merge request uploads the images in the order they are displayed at the
/// moment of submission, ahead of the option parts.
pub proof fn lemma_parts_follow_display_order(pre: MergeForm, post: MergeForm, u: Update)
    requires
        !pre.is_loading_result,
        updated(pre, Msg::MergeImage, post, u),
    ensures
        u.effect matches Effect::Submit(parts) && is_request_for(
            parts@,
            pre.images@,
            pre.check_options.entries@,
        ),
        post.is_loading_result,
{
}

/// Whether `states`, `msgs` and `updates` record a run of the form: each
/// message taken in turn from the state before it.
pub open spec fn is_run(states: Seq<MergeForm>, msgs: Seq<Msg>, updates: Seq<Update>) -> bool {
    &&& states.len() == msgs.len() + 1
    &&& updates.len() == msgs.len()
    &&& forall|k: int|
        #![trigger msgs[k]]
        0 <= k < msgs.len() ==> updated(states[k], msgs[k], states[k + 1], updates[k])
}

/// Whether `msg` settles an outstanding merge: only the server's answer does.
pub open spec fn settles_merge(msg: Msg) -> bool {
    msg is ImageMerged
}

proof fn lemma_loading_persists(
    states: Seq<MergeForm>,
    msgs: Seq<Msg>,
    updates: Seq<Update>,
    n: int,
)
    requires
        is_run(states, msgs, updates),
        msgs.len() >= 1,
        msgs[0] is MergeImage,
        forall|k: int| 0 < k < msgs.len() ==> !settles_merge(#[trigger] msgs[k]),
        1 <= n <= msgs.len(),
    ensures
        states[n].is_loading_result,
    decreases n,
{
    let _ = msgs[n - 1];
    if n > 1 {
        lemma_loading_persists(states, msgs, updates, n - 1);
    }
}

/// Once a merge is submitted, every further request for a merge is ignored
/// (nothing is sent) until the answer to the first one is processed.
pub proof fn lemma_no_second_submission(
    states: Seq<MergeForm>,
    msgs: Seq<Msg>,
    updates: Seq<Update>,
)
    requires
        is_run(states, msgs, updates),
        msgs.len() >= 1,
        msgs[0] is MergeImage,
        forall|k: int| 0 < k < msgs.len() ==> !settles_merge(#[trigger] msgs[k]),
    ensures
        forall|k: int|
            0 < k < msgs.len() && #[trigger] msgs[k] is MergeImage ==> updates[k].effect is Nothing,
        states.last().is_loading_result,
{
    assert forall|k: int| 0 < k < msgs.len() && #[trigger] msgs[k] is MergeImage implies updates[k].effect is Nothing by {
        lemma_loading_persists(states, msgs, updates, k);
    }
    lemma_loading_persists(states, msgs, updates, msgs.len() as int);
}

} // verus!
