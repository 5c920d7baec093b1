//! How far the publication of a message has come, and what is next.

use vstd::prelude::*;

verus! {

/// How far the publication of a message has come.
#[derive(Debug, Clone, Copy, PartialEq, Eq, Structural)]
pub enum Stage {
    /// The media of the message are being looked up.
    Resolving,
    /// The text is being rendered, for a post with `files` attachments.
    Rendering { files: usize },
    /// `done` of `total` files have been handed to Mastodon, and the next is
    /// under way.
    Uploading { done: usize, total: usize },
    /// The status has been handed to the posting, which submits it, and
    /// waits and submits it again while Mastodon processes the media.
    Submitting,
    /// The post is up.
    Done,
    /// The publication failed.
    Failed,
    /// The time ran out while Mastodon was processing the media.
    TimedOut,
}

/// What happened for the publication.
#[derive(Debug, Clone, Copy, PartialEq, Eq, Structural)]
pub enum Signal {
    /// The media are known and Mastodon takes every one of them; `files` of
    /// them are to be handed over.
    Resolved { files: usize },
    /// The media could not be looked up, or Mastodon does not take one.
    Refused,
    /// The text is rendered.
    Rendered,
    /// The file under way has been handed over.
    Uploaded,
    /// The file under way could not be handed over.
    UploadFailed,
    /// The posting is done.
    Posted,
    /// The posting failed.
    PostFailed,
    /// The posting ran out of time.
    PostTimedOut,
}

/// What is to be done next for the publication.
#[derive(Debug, Clone, Copy, PartialEq, Eq, Structural)]
pub enum Todo {
    /// Render the text.
    Render,
    /// Hand the file at `index` of `total` to Mastodon.
    Upload { index: usize, total: usize },
    /// Put the status together and begin the posting.
    Submit,
    /// Tell the user how the publication ended.
    Reply,
    /// Nothing: the publication has ended, or the signal came out of turn.
    Nothing,
}

impl Stage {
    /// Whether the publication has ended.
    pub open spec fn is_final(self) -> bool {
        self is Done || self is Failed || self is TimedOut
    }

    /// Whether the count of files is sound.
    pub open spec fn wf(self) -> bool {
        self matches Stage::Uploading { done, total } ==> done < total
    }

    /// The stage after a signal, and what is to be done then.
    pub open spec fn next(self, signal: Signal) -> (Stage, Todo) {
        match (self, signal) {
            (Stage::Resolving, Signal::Resolved { files }) => (
                Stage::Rendering { files },
                Todo::Render,
            ),
            (Stage::Resolving, Signal::Refused) => (Stage::Failed, Todo::Reply),
            (Stage::Rendering { files }, Signal::Rendered) => if files == 0 {
                (Stage::Submitting, Todo::Submit)
            } else {
                (
                    Stage::Uploading { done: 0, total: files },
                    Todo::Upload { index: 0, total: files },
                )
            },
            (Stage::Uploading { done, total }, Signal::Uploaded) => if done + 1 < total {
                (
                    Stage::Uploading { done: (done + 1) as usize, total },
                    Todo::Upload { index: (done + 1) as usize, total },
                )
            } else {
                (Stage::Submitting, Todo::Submit)
            },
            (Stage::Uploading { .. }, Signal::UploadFailed) => (Stage::Failed, Todo::Reply),
            (Stage::Submitting, Signal::Posted) => (Stage::Done, Todo::Reply),
            (Stage::Submitting, Signal::PostFailed) => (Stage::Failed, Todo::Reply),
            (Stage::Submitting, Signal::PostTimedOut) => (Stage::TimedOut, Todo::Reply),
            _ => (self, Todo::Nothing),
        }
    }

    /// The stage after a run of signals.
    pub open spec fn after(self, signals: Seq<Signal>) -> Stage
        decreases signals.len(),
    {
        if signals.len() == 0 {
            self
        } else {
            self.next(signals[0]).0.after(signals.drop_first())
        }
    }

    /// What was to be done after the last of a run of signals, of which
    /// there is at least one.
    pub open spec fn todo_after(self, signals: Seq<Signal>) -> Todo
        decreases signals.len(),
    {
        if signals.len() <= 1 {
            self.next(signals[0]).1
        } else {
            self.next(signals[0]).0.todo_after(signals.drop_first())
        }
    }

    /// Begins a publication: the first thing is to look the media up.
    pub fn start() -> (r: Stage)
        ensures
            r == Stage::Resolving,
    {
        Stage::Resolving
    }
}

/// Takes one signal for a publication that stands at `stage`, and says where
/// it stands then and what is to be done next.
pub fn handle(stage: Stage, signal: Signal) -> (r: (Stage, Todo))
    requires
        stage.wf(),
    ensures
        r == stage.next(signal),
        r.0.wf(),
{
    match stage {
        Stage::Resolving => match signal {
            Signal::Resolved { files } => (Stage::Rendering { files }, Todo::Render),
            Signal::Refused => (Stage::Failed, Todo::Reply),
            _ => (stage, Todo::Nothing),
        },
        Stage::Rendering { files } => match signal {
            Signal::Rendered => {
                if files == 0 {
                    (Stage::Submitting, Todo::Submit)
                } else {
                    (
                        Stage::Uploading { done: 0, total: files },
                        Todo::Upload { index: 0, total: files },
                    )
                }
            },
            _ => (stage, Todo::Nothing),
        },
        Stage::Uploading { done, total } => match signal {
            Signal::Uploaded => {
                if done + 1 < total {
                    (
                        Stage::Uploading { done: done + 1, total },
                        Todo::Upload { index: done + 1, total },
                    )
                } else {
                    (Stage::Submitting, Todo::Submit)
                }
            },
            Signal::UploadFailed => (Stage::Failed, Todo::Reply),
            _ => (stage, Todo::Nothing),
        },
        Stage::Submitting => match signal {
            Signal::Posted => (Stage::Done, Todo::Reply),
            Signal::PostFailed => (Stage::Failed, Todo::Reply),
            Signal::PostTimedOut => (Stage::TimedOut, Todo::Reply),
            _ => (stage, Todo::Nothing),
        },
        _ => (stage, Todo::Nothing),
    }
}

/// A publication that has ended stays as it is, and asks for nothing more.
pub proof fn lemma_ended_stays(stage: Stage, signals: Seq<Signal>)
    requires
        stage.is_final(),
    ensures
        stage.after(signals) == stage,
        signals.len() > 0 ==> stage.todo_after(signals) == Todo::Nothing,
    decreases signals.len(),
{
    if signals.len() > 1 {
        lemma_ended_stays(stage, signals.drop_first());
    } else if signals.len() == 1 {
        assert(stage.after(signals.drop_first()) == stage);
    }
}

/// No file is handed to Mastodon unless all the media were taken: a
/// publication whose media are refused fails at once, and whatever happens
/// after that, no upload is asked for.
pub proof fn lemma_refused_media_upload_nothing(signals: Seq<Signal>)
    ensures
        Stage::Resolving.next(Signal::Refused) == (Stage::Failed, Todo::Reply),
        Stage::Resolving.after(seq![Signal::Refused] + signals) == Stage::Failed,
        signals.len() > 0 ==> Stage::Resolving.todo_after(seq![Signal::Refused] + signals)
            == Todo::Nothing,
{
    let all = seq![Signal::Refused] + signals;
    assert(all[0] == Signal::Refused);
    assert(all.drop_first() =~= signals);
    lemma_ended_stays(Stage::Failed, signals);
}

/// An upload is asked for only by a publication that is rendering or
/// uploading, that is, only after its media were resolved.
pub proof fn lemma_upload_only_after_resolving(stage: Stage, signal: Signal)
    requires
        stage.next(signal).1 is Upload,
    ensures
        stage is Rendering || stage is Uploading,
        signal == Signal::Rendered || signal == Signal::Uploaded,
{
}

/// The text is rendered, and then `k` files are handed over.
pub open spec fn uploads(k: nat) -> Seq<Signal> {
    seq![Signal::Rendered] + Seq::new(k, |i: int| Signal::Uploaded)
}

/// Where a publication with `files` files stands when `k` of them are up.
pub open spec fn stage_at(files: usize, k: nat) -> Stage {
    if k < files {
        Stage::Uploading { done: k as usize, total: files }
    } else {
        Stage::Submitting
    }
}

/// What a publication with `files` files asks for when `k` of them are up.
pub open spec fn todo_at(files: usize, k: nat) -> Todo {
    if k < files {
        Todo::Upload { index: k as usize, total: files }
    } else {
        Todo::Submit
    }
}

/// The files are handed over one by one, in order: after the text is
/// rendered and `k` files are up, the file at `k` is asked for, and after
/// the last of them the status is submitted.
pub proof fn lemma_uploads_in_order(files: usize, k: nat)
    requires
        k <= files,
    ensures
        (Stage::Rendering { files }).after(uploads(k)) == stage_at(files, k),
        (Stage::Rendering { files }).todo_after(uploads(k)) == todo_at(files, k),
    decreases k,
{
    let start = Stage::Rendering { files };
    let run = uploads(k);
    if k == 0 {
        assert(run.drop_first() =~= Seq::<Signal>::empty());
        assert(start.next(Signal::Rendered).0.after(Seq::<Signal>::empty()) == start.next(
            Signal::Rendered,
        ).0);
    } else {
        let before = uploads((k - 1) as nat);
        lemma_uploads_in_order(files, (k - 1) as nat);
        assert(run =~= before.push(Signal::Uploaded));
        lemma_after_push(start, before, Signal::Uploaded);
    }
}

/// A run with one more signal ends where the run ends and the signal leads.
pub proof fn lemma_after_push(stage: Stage, signals: Seq<Signal>, last: Signal)
    ensures
        stage.after(signals.push(last)) == stage.after(signals).next(last).0,
        stage.todo_after(signals.push(last)) == stage.after(signals).next(last).1,
    decreases signals.len(),
{
    let all = signals.push(last);
    if signals.len() == 0 {
        assert(all.drop_first() =~= Seq::<Signal>::empty());
        assert(stage.next(last).0.after(all.drop_first()) == stage.next(last).0);
    } else {
        assert(all[0] == signals[0]);
        assert(all.drop_first() =~= signals.drop_first().push(last));
        lemma_after_push(stage.next(signals[0]).0, signals.drop_first(), last);
    }
}

} // verus!
