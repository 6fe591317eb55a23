use vstd::prelude::*;

use crate::compose::{config_of, engine_config, ImageConfig, MergeOptions};
use crate::error::{upload_failed, upload_failed_text, ApiError};
use crate::text::{accepted_image_type, decimal, fresh_request_id, is_token_char, png_type, push_decimal};

verus! {

/// The directory under which every request's staging directory is made.
pub const TEMP_UPLOAD_DIRECTORY: &'static str = "./images-temp";

/// The depth the composition engine is run with.
pub const ENGINE_DEPTH: u32 = 10;

/// A request token: 36 lower-case hex digits and hyphens.
pub open spec fn is_request_token(t: Seq<char>) -> bool {
    t.len() == 36 && forall|i: int| 0 <= i < t.len() ==> is_token_char(#[trigger] t[i])
}

/// Where a staging session stands: each phase waits for one kind of event.
#[derive(Clone, Copy, Debug, PartialEq, Eq, Structural)]
pub enum StagingPhase {
    /// Waiting to learn whether the directory's lock marker already exists.
    CheckingLock,
    /// Waiting for the directory and its lock marker to be written.
    Preparing,
    /// Waiting for the next uploaded part, or for the end of the parts.
    Receiving,
    /// Waiting for the accepted part to be stored.
    Persisting,
    /// Waiting for the composition engine.
    Composing,
    /// Waiting for the directory and everything in it to be deleted.
    CleaningUp,
    /// The response has been decided.
    Finished,
}

/// What the surrounding server reports back after performing an action.
pub enum StagingEvent {
    LockChecked { present: bool },
    /// The directory and the lock marker were written, or the I/O failure.
    Prepared { failure: Option<String> },
    /// The next part of the upload, with its declared media type.
    PartOffered { content_type: Option<String> },
    /// No part is left.
    PartsDone,
    Persisted { ok: bool },
    /// The engine produced the merged image, or the reason it did not.
    Composed { failure: Option<String> },
    /// The directory was removed, or the I/O failure.
    CleanedUp { failure: Option<String> },
}

/// What the surrounding server must do next.
pub enum StagingAction {
    /// Look for the lock marker at `lock_path`.
    CheckLock { lock_path: String },
    /// Create `dir` and write an empty lock marker at `lock_path`.
    Prepare { dir: String, lock_path: String },
    /// Offer the next uploaded part, in arrival order.
    NextPart,
    /// Store the offered part at `path`.
    Persist { path: String },
    /// Run the composition engine on `dir` with search depth `depth` and
    /// `config`.
    Compose { dir: String, depth: u32, config: ImageConfig },
    /// Delete every file in `dir`, then `dir` itself.
    CleanUp { dir: String },
    /// Answer the request: the merged image, or the error.
    Respond { outcome: Result<(), ApiError> },
}

/// The staging area of one merge request.
pub struct Staging {
    pub dir: String,
    pub lock_path: String,
    pub config: ImageConfig,
    pub phase: StagingPhase,
    /// How many parts have been stored so far.
    pub stored: u64,
    /// The error to answer once the directory is gone.
    pub failure: Option<ApiError>,
    /// Whether the directory may exist on disk because of this session.
    pub dir_created: bool,
}

/// The directory of the request with token `token` under `root`.
pub open spec fn dir_of(root: Seq<char>, token: Seq<char>) -> Seq<char> {
    root + "/"@ + token
}

/// The lock marker inside `dir`.
pub open spec fn lock_path_of(dir: Seq<char>) -> Seq<char> {
    dir + "/.lock"@
}

/// The file that holds the `index`-th stored part (1-based).
pub open spec fn part_path_of(dir: Seq<char>, index: nat) -> Seq<char> {
    dir + "/"@ + decimal(index) + ".png"@
}

/// The diagnostic of a part whose media type is `t`.
pub open spec fn unsupported_type_text(t: Seq<char>) -> Seq<char> {
    "File type "@ + t + " is not supported"@
}

/// Whether `e` reports a part with no media type.
pub open spec fn is_missing_type_error(e: ApiError) -> bool {
    &&& e matches ApiError::InvalidParameter { message, sensitive_message }
    &&& message@ == "Invalid image"@
    &&& sensitive_message matches Some(s)
    &&& s@ == "Cannot identifying file content type"@
}

/// Whether `e` reports a part of media type `t`, which is not accepted.
pub open spec fn is_unsupported_type_error(e: ApiError, t: Seq<char>) -> bool {
    &&& e matches ApiError::InvalidParameter { message, sensitive_message }
    &&& message@ == "Unsupported file type"@
    &&& sensitive_message matches Some(s)
    &&& s@ == unsupported_type_text(t)
}

/// Whether `e` is the upload failure.
pub open spec fn is_upload_error(e: ApiError) -> bool {
    e matches ApiError::ImageUploadError { message } && message@ == upload_failed_text()
}

/// Whether `e` is the I/O failure described by `d`.
pub open spec fn is_io_error(e: ApiError, d: Seq<char>) -> bool {
    e matches ApiError::IoError { description } && description@ == d
}

/// Whether `e` is the engine failure described by `d`.
pub open spec fn is_process_error(e: ApiError, d: Seq<char>) -> bool {
    e matches ApiError::ImageProcessFailed { description } && description@ == d
}

/// Whether `act` deletes the directory `dir`.
pub open spec fn cleans(act: StagingAction, dir: Seq<char>) -> bool {
    act matches StagingAction::CleanUp { dir: d } && d@ == dir
}

/// Whether a session in phase `phase` takes the event `ev`.
pub open spec fn accepts_event(phase: StagingPhase, ev: StagingEvent) -> bool {
    match phase {
        StagingPhase::CheckingLock => ev is LockChecked,
        StagingPhase::Preparing => ev is Prepared,
        StagingPhase::Receiving => ev is PartOffered || ev is PartsDone,
        StagingPhase::Persisting => ev is Persisted,
        StagingPhase::Composing => ev is Composed,
        StagingPhase::CleaningUp => ev is CleanedUp,
        StagingPhase::Finished => false,
    }
}

/// A session that moved on to deleting its directory.
pub open spec fn cleaning_with(pre: Staging, post: Staging, act: StagingAction) -> bool {
    &&& post.phase == StagingPhase::CleaningUp
    &&& post.stored == pre.stored
    &&& post.dir_created == pre.dir_created
    &&& cleans(act, pre.dir@)
}

/// The transition from `pre` on `ev` to `post`, emitting `act`.
pub open spec fn stepped(pre: Staging, ev: StagingEvent, post: Staging, act: StagingAction) -> bool {
    &&& post.dir@ == pre.dir@
    &&& post.lock_path@ == pre.lock_path@
    &&& post.config == pre.config
    &&& match ev {
        StagingEvent::LockChecked { present } => if present {
            &&& post.phase == StagingPhase::Finished
            &&& !post.dir_created
            &&& post.stored == pre.stored
            &&& act matches StagingAction::Respond { outcome } && outcome matches Err(e)
                && is_upload_error(e)
        } else {
            &&& post.phase == StagingPhase::Preparing
            &&& post.dir_created
            &&& post.stored == pre.stored
            &&& act matches StagingAction::Prepare { dir, lock_path } && dir@ == pre.dir@
                && lock_path@ == pre.lock_path@
        },
        StagingEvent::Prepared { failure } => match failure {
            None => {
                &&& post.phase == StagingPhase::Receiving
                &&& post.dir_created
                &&& post.stored == pre.stored
                &&& act is NextPart
            },
            Some(d) => cleaning_with(pre, post, act) && (post.failure matches Some(e)
                && is_io_error(e, d@)),
        },
        StagingEvent::PartOffered { content_type } => match content_type {
            None => cleaning_with(pre, post, act) && (post.failure matches Some(e)
                && is_missing_type_error(e)),
            Some(t) => if t@ != png_type() {
                cleaning_with(pre, post, act) && (post.failure matches Some(e)
                    && is_unsupported_type_error(e, t@))
            } else if pre.stored == u64::MAX {
                cleaning_with(pre, post, act) && (post.failure matches Some(e) && is_upload_error(e))
            } else {
                &&& post.phase == StagingPhase::Persisting
                &&& post.dir_created
                &&& post.stored == pre.stored
                &&& act matches StagingAction::Persist { path } && path@ == part_path_of(
                    pre.dir@,
                    (pre.stored + 1) as nat,
                )
            },
        },
        StagingEvent::PartsDone => {
            &&& post.phase == StagingPhase::Composing
            &&& post.dir_created
            &&& post.stored == pre.stored
            &&& act matches StagingAction::Compose { dir, depth, config } && dir@ == pre.dir@
                && depth == ENGINE_DEPTH && config == pre.config
        },
        StagingEvent::Persisted { ok } => if ok {
            &&& post.phase == StagingPhase::Receiving
            &&& post.dir_created
            &&& post.stored == pre.stored + 1
            &&& act is NextPart
        } else {
            cleaning_with(pre, post, act) && (post.failure matches Some(e) && is_upload_error(e))
        },
        StagingEvent::Composed { failure } => match failure {
            None => cleaning_with(pre, post, act) && post.failure is None,
            Some(d) => cleaning_with(pre, post, act) && (post.failure matches Some(e)
                && is_process_error(e, d@)),
        },
        StagingEvent::CleanedUp { failure } => {
            &&& post.phase == StagingPhase::Finished
            &&& post.dir_created == pre.dir_created
            &&& post.stored == pre.stored
            &&& act matches StagingAction::Respond { outcome } && match pre.failure {
                Some(e) => outcome == Err::<(), ApiError>(e),
                None => match failure {
                    None => outcome is Ok,
                    Some(d) => outcome matches Err(e) && is_io_error(e, d@),
                },
            }
        },
    }
}

impl Staging {
    /// Well-formedness: the lock marker lies in the directory, the directory
    /// exists because of this session in the phases that follow its
    /// creation, and a part being stored can still be numbered.
    pub open spec fn wf(&self) -> bool {
        &&& self.lock_path@ == lock_path_of(self.dir@)
        &&& self.phase == StagingPhase::CheckingLock ==> !self.dir_created
        &&& (self.phase == StagingPhase::Preparing || self.phase == StagingPhase::Receiving
            || self.phase == StagingPhase::Persisting || self.phase == StagingPhase::Composing)
            ==> self.dir_created
        &&& self.phase != StagingPhase::CleaningUp ==> self.failure is None
        &&& self.phase == StagingPhase::Persisting ==> self.stored < u64::MAX
    }

    /// Starts the staging of a request with token `token` under `root`: the
    /// first action looks for the lock marker.
    pub fn begin(root: &str, token: &str, options: MergeOptions) -> (r: (Staging, StagingAction))
        ensures
            r.0.wf(),
            r.0.dir@ == dir_of(root@, token@),
            r.0.config == config_of(options),
            r.0.phase == StagingPhase::CheckingLock,
            r.0.stored == 0,
            r.1 matches StagingAction::CheckLock { lock_path } && lock_path@ == lock_path_of(
                dir_of(root@, token@),
            ),
    {
        let mut dir = String::from_str(root);
        dir.append("/");
        dir.append(token);
        let mut lock_path = dir.clone();
        lock_path.append("/.lock");
        let action = StagingAction::CheckLock { lock_path: lock_path.clone() };
        let s = Staging {
            dir,
            lock_path,
            config: engine_config(options),
            phase: StagingPhase::CheckingLock,
            stored: 0,
            failure: None,
            dir_created: false,
        };
        (s, action)
    }

    /// Starts the staging of a new request under `root`, with a freshly
    /// generated token.
    pub fn start(root: &str, options: MergeOptions) -> (r: (Staging, StagingAction))
        ensures
            r.0.wf(),
            exists|t: Seq<char>| is_request_token(t) && r.0.dir@ == dir_of(root@, t),
            r.0.config == config_of(options),
            r.0.phase == StagingPhase::CheckingLock,
            r.0.stored == 0,
            r.1 matches StagingAction::CheckLock { lock_path } && lock_path@ == lock_path_of(r.0.dir@),
    {
        let token = fresh_request_id();
        let r = Staging::begin(root, token.as_str(), options);
        assert(is_request_token(token@));
        r
    }

    /// Whether the session takes `ev` now.
    pub fn accepts(&self, ev: &StagingEvent) -> (r: bool)
        ensures
            r == accepts_event(self.phase, *ev),
    {
        match self.phase {
            StagingPhase::CheckingLock => matches!(ev, StagingEvent::LockChecked { .. }),
            StagingPhase::Preparing => matches!(ev, StagingEvent::Prepared { .. }),
            StagingPhase::Receiving => matches!(ev, StagingEvent::PartOffered { .. })
                || matches!(ev, StagingEvent::PartsDone),
            StagingPhase::Persisting => matches!(ev, StagingEvent::Persisted { .. }),
            StagingPhase::Composing => matches!(ev, StagingEvent::Composed { .. }),
            StagingPhase::CleaningUp => matches!(ev, StagingEvent::CleanedUp { .. }),
            StagingPhase::Finished => false,
        }
    }

    fn into_cleanup(self, failure: Option<ApiError>) -> (r: (Staging, StagingAction))
        requires
            self.wf(),
            self.dir_created,
        ensures
            r.0.dir@ == self.dir@,
            r.0.lock_path@ == self.lock_path@,
            r.0.config == self.config,
            r.0.failure == failure,
            r.0.wf(),
            cleaning_with(self, r.0, r.1),
    {
        let action = StagingAction::CleanUp { dir: self.dir.clone() };
        let s = Staging { phase: StagingPhase::CleaningUp, failure, ..self };
        (s, action)
    }

    /// Takes the outcome of the previous action and decides the next one.
    /// A part that could not be numbered (the counter is exhausted) is
    /// refused as an upload failure.
    pub fn step(self, ev: StagingEvent) -> (r: (Staging, StagingAction))
        requires
            self.wf(),
            accepts_event(self.phase, ev),
        ensures
            r.0.wf(),
            stepped(self, ev, r.0, r.1),
    {
        match ev {
            StagingEvent::LockChecked { present } => {
                if present {
                    let s = Staging { phase: StagingPhase::Finished, ..self };
                    (s, StagingAction::Respond { outcome: Err(upload_failed()) })
                } else {
                    let action = StagingAction::Prepare {
                        dir: self.dir.clone(),
                        lock_path: self.lock_path.clone(),
                    };
                    let s = Staging { phase: StagingPhase::Preparing, dir_created: true, ..self };
                    (s, action)
                }
            },
            StagingEvent::Prepared { failure } => match failure {
                None => {
                    let s = Staging { phase: StagingPhase::Receiving, ..self };
                    (s, StagingAction::NextPart)
                },
                Some(d) => self.into_cleanup(Some(ApiError::IoError { description: d })),
            },
            StagingEvent::PartOffered { content_type } => match content_type {
                None => self.into_cleanup(
                    Some(
                        ApiError::InvalidParameter {
                            message: String::from_str("Invalid image"),
                            sensitive_message: Some(
                                String::from_str("Cannot identifying file content type"),
                            ),
                        },
                    ),
                ),
                Some(t) => {
                    let accepted = accepted_image_type();
                    if t != accepted {
                        let mut s = String::from_str("File type ");
                        s.append(t.as_str());
                        s.append(" is not supported");
                        self.into_cleanup(
                            Some(
                                ApiError::InvalidParameter {
                                    message: String::from_str("Unsupported file type"),
                                    sensitive_message: Some(s),
                                },
                            ),
                        )
                    } else if self.stored == u64::MAX {
                        self.into_cleanup(Some(upload_failed()))
                    } else {
                        let mut path = self.dir.clone();
                        path.append("/");
                        push_decimal(&mut path, self.stored + 1);
                        path.append(".png");
                        let s = Staging { phase: StagingPhase::Persisting, ..self };
                        (s, StagingAction::Persist { path })
                    }
                },
            },
            StagingEvent::PartsDone => {
                let action = StagingAction::Compose {
                    dir: self.dir.clone(),
                    depth: ENGINE_DEPTH,
                    config: self.config,
                };
                let s = Staging { phase: StagingPhase::Composing, ..self };
                (s, action)
            },
            StagingEvent::Persisted { ok } => {
                if ok {
                    let s = Staging {
                        phase: StagingPhase::Receiving,
                        stored: self.stored + 1,
                        ..self
                    };
                    (s, StagingAction::NextPart)
                } else {
                    self.into_cleanup(Some(upload_failed()))
                }
            },
            StagingEvent::Composed { failure } => match failure {
                None => self.into_cleanup(None),
                Some(d) => self.into_cleanup(Some(ApiError::ImageProcessFailed { description: d })),
            },
            StagingEvent::CleanedUp { failure } => {
                let Staging { dir, lock_path, config, phase: _, stored, failure: pending, dir_created } =
                    self;
                let outcome = match pending {
                    Some(e) => Err(e),
                    None => match failure {
                        None => Ok(()),
                        Some(d) => Err(ApiError::IoError { description: d }),
                    },
                };
                let s = Staging {
                    dir,
                    lock_path,
                    config,
                    phase: StagingPhase::Finished,
                    stored,
                    failure: None,
                    dir_created,
                };
                (s, StagingAction::Respond { outcome })
            },
        }
    }
}

/// Once this session may have created its directory, it answers only from
/// the clean-up phase: the directory is deleted on every path that ends the
/// request, whether it failed or not.
pub proof fn lemma_respond_only_after_cleanup(
    pre: Staging,
    ev: StagingEvent,
    post: Staging,
    act: StagingAction,
)
    requires
        pre.wf(),
        accepts_event(pre.phase, ev),
        stepped(pre, ev, post, act),
        act is Respond,
        pre.dir_created,
    ensures
        pre.phase == StagingPhase::CleaningUp,
        post.phase == StagingPhase::Finished,
{
}

/// A lock conflict is answered at once, as an upload failure, before the
/// session writes anything.
pub proof fn lemma_conflict_writes_nothing(pre: Staging, post: Staging, act: StagingAction)
    requires
        pre.wf(),
        pre.phase == StagingPhase::CheckingLock,
        stepped(pre, StagingEvent::LockChecked { present: true }, post, act),
    ensures
        !pre.dir_created,
        !post.dir_created,
        act matches StagingAction::Respond { outcome } && outcome matches Err(e) && is_upload_error(e),
{
}

/// A part of a type other than the accepted one aborts the staging with the
/// unsupported-type error, which is answered after the clean-up whatever the
/// clean-up reports.
pub proof fn lemma_unsupported_type_answered_after_cleanup(
    s0: Staging,
    t: String,
    s1: Staging,
    a1: StagingAction,
    cleanup_failure: Option<String>,
    s2: Staging,
    a2: StagingAction,
)
    requires
        s0.wf(),
        s0.phase == StagingPhase::Receiving,
        t@ != png_type(),
        stepped(s0, StagingEvent::PartOffered { content_type: Some(t) }, s1, a1),
        stepped(s1, StagingEvent::CleanedUp { failure: cleanup_failure }, s2, a2),
    ensures
        cleans(a1, s0.dir@),
        s2.phase == StagingPhase::Finished,
        a2 matches StagingAction::Respond { outcome } && outcome matches Err(e)
            && is_unsupported_type_error(e, t@),
{
}

/// How many parts `events` report as stored.
pub open spec fn stored_count(events: Seq<StagingEvent>) -> nat
    decreases events.len(),
{
    if events.len() == 0 {
        0
    } else {
        stored_count(events.drop_last()) + if events.last() matches StagingEvent::Persisted {
            ok: true,
        } {
            1nat
        } else {
            0nat
        }
    }
}

/// Whether `states`, `events` and `actions` record a run of a session: each
/// event taken in turn by the state before it.
pub open spec fn is_staging_run(
    states: Seq<Staging>,
    events: Seq<StagingEvent>,
    actions: Seq<StagingAction>,
) -> bool {
    &&& states.len() == events.len() + 1
    &&& actions.len() == events.len()
    &&& forall|k: int|
        #![trigger events[k]]
        0 <= k < events.len() ==> accepts_event(states[k].phase, events[k]) && stepped(
            states[k],
            events[k],
            states[k + 1],
            actions[k],
        )
}

proof fn lemma_run_counts_stored(
    states: Seq<Staging>,
    events: Seq<StagingEvent>,
    actions: Seq<StagingAction>,
    n: int,
)
    requires
        is_staging_run(states, events, actions),
        0 <= n <= events.len(),
    ensures
        states[n].stored == states[0].stored + stored_count(events.take(n)),
        states[n].dir@ == states[0].dir@,
    decreases n,
{
    if n > 0 {
        lemma_run_counts_stored(states, events, actions, n - 1);
        let _ = events[n - 1];
        assert(events.take(n).drop_last() =~= events.take(n - 1));
    }
}

/// Parts are stored under their arrival index: in a session started with
/// nothing stored, the part offered after `c` parts were stored goes to file
/// `c + 1`, so the order of the upload is the order of the file names.
pub proof fn lemma_parts_stored_in_arrival_order(
    states: Seq<Staging>,
    events: Seq<StagingEvent>,
    actions: Seq<StagingAction>,
)
    requires
        is_staging_run(states, events, actions),
        states[0].stored == 0,
    ensures
        forall|k: int|
            0 <= k < events.len() && #[trigger] actions[k] is Persist ==> (
            actions[k] matches StagingAction::Persist { path } && path@ == part_path_of(
                states[0].dir@,
                stored_count(events.take(k)) + 1,
            )),
{
    assert forall|k: int| 0 <= k < events.len() && #[trigger] actions[k] is Persist implies (
    actions[k] matches StagingAction::Persist { path } && path@ == part_path_of(
        states[0].dir@,
        stored_count(events.take(k)) + 1,
    )) by {
        lemma_run_counts_stored(states, events, actions, k);
        let _ = events[k];
    }
}

} // verus!
