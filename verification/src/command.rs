//! The decisions of the `/replay` and `/ping` slash commands.
//!
//! Handling `/replay` alternates outside work (Discord replies, the download,
//! the render, file access) with decisions. The decisions live here as a state
//! machine: the caller performs each `ReplayAction`, reports what came of it
//! as a `ReplayEvent`, and gets the next action back, until `Finish`.

use vstd::prelude::*;
use crate::upload::{UploadRefusal, upload_verdict, refusal_text, check_upload, law_upload_verdict};

verus! {

/// Where a `/replay` command stands.
#[derive(Clone, Copy, Debug, PartialEq, Eq, Structural)]
pub enum ReplayStage {
    /// Waiting for the uploaded attachment's name and size.
    AwaitingUpload,
    /// A refusal is being said.
    Answering,
    /// The reply is being deferred.
    Deferring,
    /// The attachment is being downloaded.
    Downloading,
    /// The replay's summary is being made.
    Summarizing,
    /// The video is being rendered.
    Rendering,
    /// The rendered video is being read back.
    ReadingVideo,
    /// The reply with the video is being sent.
    Sending,
    /// The render's output directory is being removed.
    CleaningUp,
    /// The command has finished.
    Finished,
}

/// What the caller reports after performing an action.
pub enum ReplayEvent {
    /// The command was invoked with an attachment of this name and size.
    Upload { file_name: String, size: u64 },
    /// The pending step (a reply, the deferral, the video reply, the
    /// removal of the output directory) completed.
    Completed,
    /// The pending step failed, with this error text.
    Failed(String),
    /// The attachment was downloaded; the caller keeps its bytes.
    Downloaded,
    /// The replay's summary, `None` where it could not be made.
    Summary(Option<String>),
    /// The video was rendered; the caller keeps its path.
    Rendered,
    /// Rendering returned this error text.
    RenderFailed(String),
    /// The render task died with this text.
    RenderPanicked(String),
    /// The rendered video was read; the caller keeps its bytes.
    VideoRead,
}

/// What the caller is to do next.
pub enum ReplayAction {
    /// Reply with this text.
    Say(String),
    /// Defer the reply.
    Defer,
    /// Download the attachment.
    Download,
    /// Make the summary of the downloaded replay.
    Summarize,
    /// Render the downloaded replay to a video.
    Render,
    /// Read the rendered video.
    ReadVideo,
    /// Reply with `content` and the video attached under `file_name`.
    SendVideo { content: String, file_name: String },
    /// Remove the directory that holds the rendered video.
    RemoveOutputDir,
    /// The command ends with this result.
    Finish(Result<(), String>),
}

/// `ReplayEvent` with its text taken by view.
pub enum ReplayEventView {
    Upload { file_name: Seq<char>, size: u64 },
    Completed,
    Failed(Seq<char>),
    Downloaded,
    Summary(Option<Seq<char>>),
    Rendered,
    RenderFailed(Seq<char>),
    RenderPanicked(Seq<char>),
    VideoRead,
}

/// `ReplayAction` with its text taken by view.
pub enum ReplayActionView {
    Say(Seq<char>),
    Defer,
    Download,
    Summarize,
    Render,
    ReadVideo,
    SendVideo { content: Seq<char>, file_name: Seq<char> },
    RemoveOutputDir,
    Finish(Result<(), Seq<char>>),
}

/// The state of a `/replay` command taken by view.
pub struct ReplayCommandView {
    pub stage: ReplayStage,
    pub summary: Seq<char>,
}

impl View for ReplayEvent {
    type V = ReplayEventView;

    open spec fn view(&self) -> ReplayEventView {
        match self {
            ReplayEvent::Upload { file_name, size } => ReplayEventView::Upload {
                file_name: file_name@,
                size: *size,
            },
            ReplayEvent::Completed => ReplayEventView::Completed,
            ReplayEvent::Failed(e) => ReplayEventView::Failed(e@),
            ReplayEvent::Downloaded => ReplayEventView::Downloaded,
            ReplayEvent::Summary(s) => ReplayEventView::Summary(
                match s {
                    Some(t) => Some(t@),
                    None => None,
                },
            ),
            ReplayEvent::Rendered => ReplayEventView::Rendered,
            ReplayEvent::RenderFailed(e) => ReplayEventView::RenderFailed(e@),
            ReplayEvent::RenderPanicked(e) => ReplayEventView::RenderPanicked(e@),
            ReplayEvent::VideoRead => ReplayEventView::VideoRead,
        }
    }
}

impl View for ReplayAction {
    type V = ReplayActionView;

    open spec fn view(&self) -> ReplayActionView {
        match self {
            ReplayAction::Say(t) => ReplayActionView::Say(t@),
            ReplayAction::Defer => ReplayActionView::Defer,
            ReplayAction::Download => ReplayActionView::Download,
            ReplayAction::Summarize => ReplayActionView::Summarize,
            ReplayAction::Render => ReplayActionView::Render,
            ReplayAction::ReadVideo => ReplayActionView::ReadVideo,
            ReplayAction::SendVideo { content, file_name } => ReplayActionView::SendVideo {
                content: content@,
                file_name: file_name@,
            },
            ReplayAction::RemoveOutputDir => ReplayActionView::RemoveOutputDir,
            ReplayAction::Finish(r) => ReplayActionView::Finish(
                match r {
                    Ok(()) => Ok(()),
                    Err(e) => Err(e@),
                },
            ),
        }
    }
}

/// The name under which the video is attached to the reply.
pub open spec fn video_file_name() -> Seq<char> {
    "minimap.mp4"@
}

/// The summary used when none could be made of the replay.
pub open spec fn fallback_summary() -> Seq<char> {
    "Replay"@
}

/// The summary that goes with the video: the one made, else the fallback.
pub open spec fn chosen_summary(s: Option<Seq<char>>) -> Seq<char> {
    match s {
        Some(t) => t,
        None => fallback_summary(),
    }
}

/// Whether `e` answers the action pending at `stage`.
pub open spec fn accepts(stage: ReplayStage, e: ReplayEventView) -> bool {
    match stage {
        ReplayStage::AwaitingUpload => e is Upload,
        ReplayStage::Answering => e is Completed || e is Failed,
        ReplayStage::Deferring => e is Completed || e is Failed,
        ReplayStage::Downloading => e is Downloaded || e is Failed,
        ReplayStage::Summarizing => e is Summary,
        ReplayStage::Rendering => e is Rendered || e is RenderFailed || e is RenderPanicked,
        ReplayStage::ReadingVideo => e is VideoRead || e is Failed,
        ReplayStage::Sending => e is Completed || e is Failed,
        ReplayStage::CleaningUp => e is Completed || e is Failed,
        ReplayStage::Finished => false,
    }
}

/// The state of a command that has just been invoked.
pub open spec fn initial_command() -> ReplayCommandView {
    ReplayCommandView { stage: ReplayStage::AwaitingUpload, summary: Seq::empty() }
}

/// The state that a finished command is left in.
pub open spec fn finished(c: ReplayCommandView) -> ReplayCommandView {
    ReplayCommandView { stage: ReplayStage::Finished, ..c }
}

/// One step of the `/replay` command: from its state and the outcome of the
/// pending action, the next state and action. Only meaningful where
/// `accepts(c.stage, e)`.
pub open spec fn next(c: ReplayCommandView, e: ReplayEventView) -> (ReplayCommandView, ReplayActionView) {
    match (c.stage, e) {
        (ReplayStage::AwaitingUpload, ReplayEventView::Upload { file_name, size }) => {
            match upload_verdict(file_name, size) {
                Err(r) => (
                    ReplayCommandView { stage: ReplayStage::Answering, ..c },
                    ReplayActionView::Say(refusal_text(r)),
                ),
                Ok(()) => (
                    ReplayCommandView { stage: ReplayStage::Deferring, ..c },
                    ReplayActionView::Defer,
                ),
            }
        },
        (ReplayStage::Answering, ReplayEventView::Failed(err)) => (
            finished(c),
            ReplayActionView::Finish(Err(err)),
        ),
        (ReplayStage::Answering, _) => (finished(c), ReplayActionView::Finish(Ok(()))),
        (ReplayStage::Deferring, ReplayEventView::Failed(err)) => (
            finished(c),
            ReplayActionView::Finish(Err(err)),
        ),
        (ReplayStage::Deferring, _) => (
            ReplayCommandView { stage: ReplayStage::Downloading, ..c },
            ReplayActionView::Download,
        ),
        (ReplayStage::Downloading, ReplayEventView::Failed(err)) => (
            finished(c),
            ReplayActionView::Finish(Err("Failed to download attachment: "@ + err)),
        ),
        (ReplayStage::Downloading, _) => (
            ReplayCommandView { stage: ReplayStage::Summarizing, ..c },
            ReplayActionView::Summarize,
        ),
        (ReplayStage::Summarizing, ReplayEventView::Summary(s)) => (
            ReplayCommandView { stage: ReplayStage::Rendering, summary: chosen_summary(s) },
            ReplayActionView::Render,
        ),
        (ReplayStage::Rendering, ReplayEventView::RenderFailed(err)) => (
            finished(c),
            ReplayActionView::Finish(Err("Render failed: "@ + err)),
        ),
        (ReplayStage::Rendering, ReplayEventView::RenderPanicked(err)) => (
            finished(c),
            ReplayActionView::Finish(Err("Render task panicked: "@ + err)),
        ),
        (ReplayStage::Rendering, _) => (
            ReplayCommandView { stage: ReplayStage::ReadingVideo, ..c },
            ReplayActionView::ReadVideo,
        ),
        (ReplayStage::ReadingVideo, ReplayEventView::Failed(_)) => (
            finished(c),
            ReplayActionView::Finish(Err("Failed to read rendered video"@)),
        ),
        (ReplayStage::ReadingVideo, _) => (
            ReplayCommandView { stage: ReplayStage::Sending, ..c },
            ReplayActionView::SendVideo { content: c.summary, file_name: video_file_name() },
        ),
        (ReplayStage::Sending, ReplayEventView::Failed(err)) => (
            finished(c),
            ReplayActionView::Finish(Err(err)),
        ),
        (ReplayStage::Sending, _) => (
            ReplayCommandView { stage: ReplayStage::CleaningUp, ..c },
            ReplayActionView::RemoveOutputDir,
        ),
        (ReplayStage::CleaningUp, _) => (finished(c), ReplayActionView::Finish(Ok(()))),
        _ => (c, ReplayActionView::Finish(Ok(()))),
    }
}


/// The actions that a command starting at `c` takes when the outcomes of its
/// actions are `events`, in order; the run stops at the first event that does
/// not answer the pending action.
pub open spec fn run(c: ReplayCommandView, events: Seq<ReplayEventView>) -> Seq<ReplayActionView>
    decreases events.len(),
{
    if events.len() == 0 || !accepts(c.stage, events[0]) {
        Seq::empty()
    } else {
        let (c2, a) = next(c, events[0]);
        seq![a].add(run(c2, events.drop_first()))
    }
}

/// The stage a command is in right after it has asked for action `a`.
pub open spec fn stage_after(a: ReplayActionView) -> ReplayStage {
    match a {
        ReplayActionView::Say(_) => ReplayStage::Answering,
        ReplayActionView::Defer => ReplayStage::Deferring,
        ReplayActionView::Download => ReplayStage::Downloading,
        ReplayActionView::Summarize => ReplayStage::Summarizing,
        ReplayActionView::Render => ReplayStage::Rendering,
        ReplayActionView::ReadVideo => ReplayStage::ReadingVideo,
        ReplayActionView::SendVideo { .. } => ReplayStage::Sending,
        ReplayActionView::RemoveOutputDir => ReplayStage::CleaningUp,
        ReplayActionView::Finish(_) => ReplayStage::Finished,
    }
}

/// Whether a command at `stage` may ask for `a` next.
pub open spec fn may_ask(stage: ReplayStage, a: ReplayActionView) -> bool {
    match stage {
        ReplayStage::AwaitingUpload => a is Say || a is Defer,
        ReplayStage::Answering => a is Finish,
        ReplayStage::Deferring => a is Download || a is Finish,
        ReplayStage::Downloading => a is Summarize || a is Finish,
        ReplayStage::Summarizing => a is Render,
        ReplayStage::Rendering => a is ReadVideo || a is Finish,
        ReplayStage::ReadingVideo => a is SendVideo || a is Finish,
        ReplayStage::Sending => a is RemoveOutputDir || a is Finish,
        ReplayStage::CleaningUp => a is Finish,
        ReplayStage::Finished => false,
    }
}

/// The most actions a command at `stage` can still ask for.
pub open spec fn steps_left(stage: ReplayStage) -> nat {
    match stage {
        ReplayStage::AwaitingUpload => 8,
        ReplayStage::Answering => 1,
        ReplayStage::Deferring => 7,
        ReplayStage::Downloading => 6,
        ReplayStage::Summarizing => 5,
        ReplayStage::Rendering => 4,
        ReplayStage::ReadingVideo => 3,
        ReplayStage::Sending => 2,
        ReplayStage::CleaningUp => 1,
        ReplayStage::Finished => 0,
    }
}

/// Whether a command at `stage` has settled its summary and is still running.
pub open spec fn summarized(stage: ReplayStage) -> bool {
    match stage {
        ReplayStage::Rendering | ReplayStage::ReadingVideo | ReplayStage::Sending
        | ReplayStage::CleaningUp => true,
        _ => false,
    }
}

proof fn lemma_next_shape(c: ReplayCommandView, e: ReplayEventView)
    requires
        accepts(c.stage, e),
    ensures
        may_ask(c.stage, next(c, e).1),
        next(c, e).0.stage == stage_after(next(c, e).1),
        steps_left(next(c, e).0.stage) < steps_left(c.stage),
        c.stage != ReplayStage::Summarizing ==> next(c, e).0.summary == c.summary,
        c.stage == ReplayStage::Summarizing ==> e is Summary && next(c, e).0.summary
            == chosen_summary(e->Summary_0),
        summarized(next(c, e).0.stage) && !summarized(c.stage) ==> c.stage
            == ReplayStage::Summarizing,
        next(c, e).1 is SendVideo ==> c.stage == ReplayStage::ReadingVideo
            && next(c, e).1->content == c.summary
            && next(c, e).1->file_name == video_file_name(),
{
}

proof fn lemma_run_order(c: ReplayCommandView, events: Seq<ReplayEventView>)
    ensures
        run(c, events).len() <= steps_left(c.stage),
        run(c, events).len() > 0 ==> may_ask(c.stage, run(c, events)[0]),
        forall|i: int|
            0 < i < run(c, events).len() ==> may_ask(
                stage_after(#[trigger] run(c, events)[i - 1]),
                run(c, events)[i],
            ),
    decreases events.len(),
{
    if events.len() > 0 && accepts(c.stage, events[0]) {
        let (c2, a) = next(c, events[0]);
        let rest = events.drop_first();
        lemma_next_shape(c, events[0]);
        lemma_run_order(c2, rest);
        let t = run(c, events);
        assert(t == seq![a].add(run(c2, rest)));
        assert forall|i: int| 0 < i < t.len() implies may_ask(
            stage_after(#[trigger] t[i - 1]),
            t[i],
        ) by {
            if i == 1 {
                assert(t[0] == a);
                assert(t[1] == run(c2, rest)[0]);
            } else {
                assert(t[i - 1] == run(c2, rest)[i - 2]);
                assert(t[i] == run(c2, rest)[i - 1]);
            }
        }
    }
}

proof fn lemma_run_video(c: ReplayCommandView, events: Seq<ReplayEventView>)
    ensures
        forall|i: int|
            0 <= i < run(c, events).len() && (#[trigger] run(c, events)[i]) is SendVideo ==> {
                &&& run(c, events)[i]->file_name == video_file_name()
                &&& {
                    ||| summarized(c.stage) && run(c, events)[i]->content == c.summary
                    ||| exists|j: int|
                        0 <= j < events.len() && (#[trigger] events[j]) is Summary
                            && run(c, events)[i]->content == chosen_summary(events[j]->Summary_0)
                }
            },
    decreases events.len(),
{
    if events.len() > 0 && accepts(c.stage, events[0]) {
        let (c2, a) = next(c, events[0]);
        let rest = events.drop_first();
        lemma_next_shape(c, events[0]);
        lemma_run_video(c2, rest);
        let t = run(c, events);
        assert(t == seq![a].add(run(c2, rest)));
        assert forall|i: int| 0 <= i < t.len() && (#[trigger] t[i]) is SendVideo implies {
            &&& t[i]->file_name == video_file_name()
            &&& {
                ||| summarized(c.stage) && t[i]->content == c.summary
                ||| exists|j: int|
                    0 <= j < events.len() && (#[trigger] events[j]) is Summary && t[i]->content
                        == chosen_summary(events[j]->Summary_0)
            }
        } by {
            if i > 0 {
                let r = run(c2, rest);
                assert(t[i] == r[i - 1]);
                if summarized(c2.stage) && r[i - 1]->content == c2.summary {
                    if !summarized(c.stage) {
                        assert(events[0] is Summary);
                        assert(c2.summary == chosen_summary(events[0]->Summary_0));
                    }
                } else {
                    let j = choose|j: int|
                        0 <= j < rest.len() && (#[trigger] rest[j]) is Summary && r[i - 1]->content
                            == chosen_summary(rest[j]->Summary_0);
                    assert(events[j + 1] == rest[j]);
                }
            }
        }
    }
}

/// Law: a refused upload is only answered. The command says why the upload
/// was refused and then finishes; it neither defers, downloads nor renders.
pub proof fn law_refused_upload_is_only_answered(
    file_name: Seq<char>,
    size: u64,
    later: Seq<ReplayEventView>,
)
    requires
        upload_verdict(file_name, size) is Err,
    ensures
        ({
            let t = run(
                initial_command(),
                seq![ReplayEventView::Upload { file_name, size }].add(later),
            );
            &&& 1 <= t.len() <= 2
            &&& t[0] == ReplayActionView::Say(
                refusal_text(upload_verdict(file_name, size)->Err_0),
            )
            &&& t.len() == 2 ==> t[1] is Finish
        }),
{
    let events = seq![ReplayEventView::Upload { file_name, size }].add(later);
    let (c2, a) = next(initial_command(), events[0]);
    assert(events.drop_first() == later);
    lemma_run_order(c2, later);
    let t = run(initial_command(), events);
    assert(t == seq![a].add(run(c2, later)));
    if t.len() == 2 {
        assert(t[1] == run(c2, later)[0]);
    }
}

/// Law: an accepted upload is deferred first; the command then asks for the
/// download, the summary, the render, the video, the reply and the removal of
/// the output directory in this order, each only once the one before it has
/// completed, and it finishes as soon as one of them fails. So no run takes
/// more than 8 actions, a run finishes at most once and at its end, and the
/// output directory is removed only after the reply with the video was sent.
pub proof fn law_replay_steps_in_order(events: Seq<ReplayEventView>)
    ensures
        ({
            let t = run(initial_command(), events);
            &&& t.len() <= 8
            &&& t.len() > 0 ==> (t[0] is Say || t[0] is Defer)
            &&& forall|i: int|
                0 < i < t.len() ==> may_ask(stage_after(#[trigger] t[i - 1]), t[i])
        }),
{
    lemma_run_order(initial_command(), events);
}

/// Law: an accepted upload, a file named some stem followed by `.wowsreplay`
/// of at most 50 MiB (52 428 800 bytes), is deferred first and is never
/// answered with a refusal, whatever comes after. When every step then
/// completes, the command downloads the replay, summarizes it, renders it,
/// reads the video back, sends it as `minimap.mp4` with the summary made,
/// removes the output directory and finishes successfully.
pub proof fn law_accepted_upload_is_rendered(
    stem: Seq<char>,
    size: u64,
    summary: Seq<char>,
    later: Seq<ReplayEventView>,
)
    requires
        size <= 52_428_800,
    ensures
        ({
            let upload = ReplayEventView::Upload { file_name: stem + ".wowsreplay"@, size };
            let t = run(initial_command(), seq![upload].add(later));
            &&& t.len() >= 1
            &&& t[0] == ReplayActionView::Defer
            &&& forall|i: int| 0 <= i < t.len() ==> !(#[trigger] t[i] is Say)
            &&& run(
                initial_command(),
                seq![
                    upload,
                    ReplayEventView::Completed,
                    ReplayEventView::Downloaded,
                    ReplayEventView::Summary(Some(summary)),
                    ReplayEventView::Rendered,
                    ReplayEventView::VideoRead,
                    ReplayEventView::Completed,
                    ReplayEventView::Completed,
                ],
            ) == seq![
                ReplayActionView::Defer,
                ReplayActionView::Download,
                ReplayActionView::Summarize,
                ReplayActionView::Render,
                ReplayActionView::ReadVideo,
                ReplayActionView::SendVideo { content: summary, file_name: "minimap.mp4"@ },
                ReplayActionView::RemoveOutputDir,
                ReplayActionView::Finish(Ok(())),
            ]
        }),
{
    let file_name = stem + ".wowsreplay"@;
    law_upload_verdict(file_name, size);
    assert(upload_verdict(file_name, size) is Ok);
    let upload = ReplayEventView::Upload { file_name, size };
    let events = seq![upload].add(later);
    assert(events.drop_first() == later);
    let (c2, a) = next(initial_command(), upload);
    assert(a == ReplayActionView::Defer);
    lemma_run_order(c2, later);
    let t = run(initial_command(), events);
    assert(t == seq![a].add(run(c2, later)));
    assert forall|i: int| 0 <= i < t.len() implies !(#[trigger] t[i] is Say) by {
        if i > 0 {
            assert(t[i] == run(c2, later)[i - 1]);
            if i == 1 {
                assert(run(c2, later)[0] == t[1]);
            } else {
                assert(t[i - 1] == run(c2, later)[i - 2]);
            }
        }
    }
    let e = seq![
        upload,
        ReplayEventView::Completed,
        ReplayEventView::Downloaded,
        ReplayEventView::Summary(Some(summary)),
        ReplayEventView::Rendered,
        ReplayEventView::VideoRead,
        ReplayEventView::Completed,
        ReplayEventView::Completed,
    ];
    reveal_with_fuel(run, 9);
    assert(run(initial_command(), e) =~= seq![
        ReplayActionView::Defer,
        ReplayActionView::Download,
        ReplayActionView::Summarize,
        ReplayActionView::Render,
        ReplayActionView::ReadVideo,
        ReplayActionView::SendVideo { content: summary, file_name: "minimap.mp4"@ },
        ReplayActionView::RemoveOutputDir,
        ReplayActionView::Finish(Ok(())),
    ]);
}

/// Law: the reply with the video attaches it as `minimap.mp4` and carries the
/// summary that was reported for the replay, or `Replay` where none could be
/// made.
pub proof fn law_video_reply_carries_summary(events: Seq<ReplayEventView>)
    ensures
        forall|i: int|
            0 <= i < run(initial_command(), events).len() && (#[trigger] run(
                initial_command(),
                events,
            )[i]) is SendVideo ==> {
                &&& run(initial_command(), events)[i]->file_name == video_file_name()
                &&& exists|j: int|
                    0 <= j < events.len() && (#[trigger] events[j]) is Summary
                        && run(initial_command(), events)[i]->content == chosen_summary(
                        events[j]->Summary_0,
                    )
            },
{
    lemma_run_video(initial_command(), events);
}

/// A `/replay` command in progress.
pub struct ReplayCommand {
    stage: ReplayStage,
    summary: String,
}

impl View for ReplayCommand {
    type V = ReplayCommandView;

    closed spec fn view(&self) -> ReplayCommandView {
        ReplayCommandView { stage: self.stage, summary: self.summary@ }
    }
}

impl ReplayCommand {
    /// A command that has just been invoked.
    pub fn new() -> (c: ReplayCommand)
        ensures
            c@ == initial_command(),
    {
        ReplayCommand { stage: ReplayStage::AwaitingUpload, summary: String::new() }
    }

    /// Where the command stands.
    pub fn stage(&self) -> (s: ReplayStage)
        ensures
            s == self@.stage,
    {
        self.stage
    }

    /// Whether `event` answers the pending action.
    pub fn accepts(&self, event: &ReplayEvent) -> (r: bool)
        ensures
            r == accepts(self@.stage, event@),
    {
        match self.stage {
            ReplayStage::AwaitingUpload => matches!(event, ReplayEvent::Upload { .. }),
            ReplayStage::Answering | ReplayStage::Deferring | ReplayStage::Sending
            | ReplayStage::CleaningUp => matches!(event, ReplayEvent::Completed | ReplayEvent::Failed(_)),
            ReplayStage::Downloading => matches!(event, ReplayEvent::Downloaded | ReplayEvent::Failed(_)),
            ReplayStage::Summarizing => matches!(event, ReplayEvent::Summary(_)),
            ReplayStage::Rendering => matches!(
                event,
                ReplayEvent::Rendered | ReplayEvent::RenderFailed(_) | ReplayEvent::RenderPanicked(_)
            ),
            ReplayStage::ReadingVideo => matches!(event, ReplayEvent::VideoRead | ReplayEvent::Failed(_)),
            ReplayStage::Finished => false,
        }
    }

    /// Takes the outcome of the pending action and gives the next action.
    pub fn step(&mut self, event: ReplayEvent) -> (a: ReplayAction)
        requires
            accepts(old(self)@.stage, event@),
        ensures
            (final(self)@, a@) == next(old(self)@, event@),
    {
        match self.stage {
            ReplayStage::AwaitingUpload => {
                match event {
                    ReplayEvent::Upload { file_name, size } => {
                        match check_upload(file_name.as_str(), size) {
                            Err(r) => {
                                self.stage = ReplayStage::Answering;
                                ReplayAction::Say(r.message())
                            },
                            Ok(()) => {
                                self.stage = ReplayStage::Deferring;
                                ReplayAction::Defer
                            },
                        }
                    },
                    _ => ReplayAction::Finish(Ok(())),
                }
            },
            ReplayStage::Answering => {
                self.stage = ReplayStage::Finished;
                match event {
                    ReplayEvent::Failed(err) => ReplayAction::Finish(Err(err)),
                    _ => ReplayAction::Finish(Ok(())),
                }
            },
            ReplayStage::Deferring => {
                match event {
                    ReplayEvent::Failed(err) => {
                        self.stage = ReplayStage::Finished;
                        ReplayAction::Finish(Err(err))
                    },
                    _ => {
                        self.stage = ReplayStage::Downloading;
                        ReplayAction::Download
                    },
                }
            },
            ReplayStage::Downloading => {
                match event {
                    ReplayEvent::Failed(err) => {
                        self.stage = ReplayStage::Finished;
                        let msg = String::from_str("Failed to download attachment: ").concat(
                            err.as_str(),
                        );
                        ReplayAction::Finish(Err(msg))
                    },
                    _ => {
                        self.stage = ReplayStage::Summarizing;
                        ReplayAction::Summarize
                    },
                }
            },
            ReplayStage::Summarizing => {
                match event {
                    ReplayEvent::Summary(Some(s)) => {
                        self.summary = s;
                    },
                    _ => {
                        self.summary = String::from_str("Replay");
                    },
                }
                self.stage = ReplayStage::Rendering;
                ReplayAction::Render
            },
            ReplayStage::Rendering => {
                match event {
                    ReplayEvent::RenderFailed(err) => {
                        self.stage = ReplayStage::Finished;
                        ReplayAction::Finish(Err(String::from_str("Render failed: ").concat(err.as_str())))
                    },
                    ReplayEvent::RenderPanicked(err) => {
                        self.stage = ReplayStage::Finished;
                        ReplayAction::Finish(
                            Err(String::from_str("Render task panicked: ").concat(err.as_str())),
                        )
                    },
                    _ => {
                        self.stage = ReplayStage::ReadingVideo;
                        ReplayAction::ReadVideo
                    },
                }
            },
            ReplayStage::ReadingVideo => {
                match event {
                    ReplayEvent::Failed(_) => {
                        self.stage = ReplayStage::Finished;
                        ReplayAction::Finish(Err(String::from_str("Failed to read rendered video")))
                    },
                    _ => {
                        self.stage = ReplayStage::Sending;
                        ReplayAction::SendVideo {
                            content: self.summary.clone(),
                            file_name: String::from_str("minimap.mp4"),
                        }
                    },
                }
            },
            ReplayStage::Sending => {
                match event {
                    ReplayEvent::Failed(err) => {
                        self.stage = ReplayStage::Finished;
                        ReplayAction::Finish(Err(err))
                    },
                    _ => {
                        self.stage = ReplayStage::CleaningUp;
                        ReplayAction::RemoveOutputDir
                    },
                }
            },
            ReplayStage::CleaningUp => {
                self.stage = ReplayStage::Finished;
                ReplayAction::Finish(Ok(()))
            },
            ReplayStage::Finished => ReplayAction::Finish(Ok(())),
        }
    }
}

/// The reply to `/ping`.
pub fn ping_reply() -> (s: String)
    ensures
        s@ == "Pong! Bot is running."@,
{
    String::from_str("Pong! Bot is running.")
}

} // verus!
