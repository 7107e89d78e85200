use vstd::prelude::*;

use crate::common::Webhook;
use crate::error::Error;
use crate::model::Call;
use crate::upload::{create_webhook, is_webhook_for, set_transcription, Route, UploadPlan};

verus! {

/// Where an upload stands once its plan is made.
#[derive(Clone, Copy, Debug, PartialEq, Eq, Structural)]
pub enum FlowPhase {
    /// Nothing has been done yet.
    Begin,
    /// The files are being stored and the record persisted.
    Archiving,
    /// The files are being stored and the audio transcribed.
    Transcribing,
    /// The record with its transcript is being persisted and the
    /// notification posted.
    Notifying,
    /// The upload is stored.
    Stored,
    /// The upload failed.
    Failed,
}

/// What came of the work that the last action asked for.
#[derive(Clone, Debug)]
pub enum FlowEvent {
    /// Both operations succeeded.
    Completed,
    /// Both operations succeeded and the transcription service returned this text.
    Transcribed(String),
    /// One of the operations failed.
    Failed(Error),
}

/// The work to do next.
#[derive(Clone, Debug)]
pub enum FlowAction {
    /// Store both files and persist the record, concurrently.
    StoreAndPersist,
    /// Store both files and transcribe the audio, concurrently.
    StoreAndTranscribe,
    /// Persist the record and post this notification, concurrently.
    PersistAndNotify(Webhook),
    /// The upload is stored: answer with success.
    Finish,
    /// The upload failed: answer with this error.
    Abort(Error),
}

/// The phase that an event leads to. An event that does not fit the phase
/// fails the upload; so does a transcript for a call whose start time lies
/// outside the calendar (`time_ok` false), as no notification can be dated.
pub open spec fn next_phase(p: FlowPhase, e: FlowEvent, time_ok: bool) -> FlowPhase {
    match (p, e) {
        (FlowPhase::Archiving, FlowEvent::Completed) => FlowPhase::Stored,
        (FlowPhase::Transcribing, FlowEvent::Transcribed(_)) => if time_ok {
            FlowPhase::Notifying
        } else {
            FlowPhase::Failed
        },
        (FlowPhase::Notifying, FlowEvent::Completed) => FlowPhase::Stored,
        _ => FlowPhase::Failed,
    }
}

/// The phases that a sequence of events passes through, from `p` on.
pub open spec fn phases_after(p: FlowPhase, es: Seq<FlowEvent>, time_ok: bool) -> FlowPhase
    decreases es.len(),
{
    if es.len() == 0 {
        p
    } else {
        next_phase(phases_after(p, es.drop_last(), time_ok), es.last(), time_ok)
    }
}

/// One upload on its way through storage, transcription, persistence and
/// notification.
#[derive(Clone, Debug)]
pub struct UploadFlow {
    pub plan: UploadPlan,
    pub phase: FlowPhase,
}

impl UploadFlow {
    pub fn new(plan: UploadPlan) -> (r: UploadFlow)
        ensures
            r.plan == plan,
            r.phase == FlowPhase::Begin,
    {
        UploadFlow { plan, phase: FlowPhase::Begin }
    }

    /// The first action: on the archive route the files are stored while the
    /// record is persisted; on the transcription route they are stored while
    /// the audio is transcribed.
    pub fn start(&mut self) -> (r: FlowAction)
        ensures
            final(self).plan == old(self).plan,
            old(self).phase != FlowPhase::Begin ==> final(self).phase == FlowPhase::Failed
                && r is Abort,
            old(self).phase == FlowPhase::Begin && old(self).plan.route == Route::Archive
                ==> final(self).phase == FlowPhase::Archiving && r is StoreAndPersist,
            old(self).phase == FlowPhase::Begin && old(self).plan.route == Route::Transcribe
                ==> final(self).phase == FlowPhase::Transcribing && r is StoreAndTranscribe,
    {
        if self.phase != FlowPhase::Begin {
            self.phase = FlowPhase::Failed;
            return FlowAction::Abort(out_of_order());
        }
        match self.plan.route {
            Route::Archive => {
                self.phase = FlowPhase::Archiving;
                FlowAction::StoreAndPersist
            },
            Route::Transcribe => {
                self.phase = FlowPhase::Transcribing;
                FlowAction::StoreAndTranscribe
            },
        }
    }

    /// Takes in what came of the last action and names the next one. A
    /// transcript is recorded on the call, and the notification built from
    /// the record that will be persisted; a failure aborts the upload with
    /// that failure.
    pub fn advance(&mut self, e: FlowEvent) -> (r: FlowAction)
        ensures
            final(self).phase == next_phase(old(self).phase, e, old(self).plan.meta.call.start_time.wf()),
            final(self).phase == FlowPhase::Stored ==> r is Finish,
            final(self).phase == FlowPhase::Failed ==> r is Abort,
            e matches FlowEvent::Failed(err) ==> r == FlowAction::Abort(err),
            final(self).phase == FlowPhase::Notifying ==> e is Transcribed && r is PersistAndNotify
                && is_webhook_for(r->PersistAndNotify_0, final(self).plan.meta, e->Transcribed_0),
            old(self).phase == FlowPhase::Transcribing && e is Transcribed ==> final(self).plan.meta.call
                == (Call { transcription: Some(e->Transcribed_0), ..old(self).plan.meta.call }),
            !(old(self).phase == FlowPhase::Transcribing && e is Transcribed)
                ==> final(self).plan.meta.call == old(self).plan.meta.call,
            final(self).plan.meta.talkgroup == old(self).plan.meta.talkgroup,
            final(self).plan.meta.freq_list == old(self).plan.meta.freq_list,
            final(self).plan.meta.src_list == old(self).plan.meta.src_list,
            final(self).plan.meta.sources == old(self).plan.meta.sources,
            final(self).plan.prefix == old(self).plan.prefix,
            final(self).plan.json_key == old(self).plan.json_key,
            final(self).plan.audio_key == old(self).plan.audio_key,
            final(self).plan.route == old(self).plan.route,
    {
        match e {
            FlowEvent::Failed(err) => {
                self.phase = FlowPhase::Failed;
                FlowAction::Abort(err)
            },
            FlowEvent::Completed => {
                match self.phase {
                    FlowPhase::Archiving | FlowPhase::Notifying => {
                        self.phase = FlowPhase::Stored;
                        FlowAction::Finish
                    },
                    _ => {
                        self.phase = FlowPhase::Failed;
                        FlowAction::Abort(out_of_order())
                    },
                }
            },
            FlowEvent::Transcribed(text) => {
                if self.phase != FlowPhase::Transcribing {
                    self.phase = FlowPhase::Failed;
                    return FlowAction::Abort(out_of_order());
                }
                set_transcription(&mut self.plan.meta, text.clone());
                if !self.plan.meta.call.start_time.is_representable() {
                    self.phase = FlowPhase::Failed;
                    return FlowAction::Abort(
                        Error::PathParse(String::from_str("start time is outside the calendar")),
                    );
                }
                let w = create_webhook(&self.plan.meta, text);
                self.phase = FlowPhase::Notifying;
                FlowAction::PersistAndNotify(w)
            },
        }
    }
}

fn out_of_order() -> (r: Error)
    ensures
        r is Multipart,
{
    Error::Multipart(String::from_str("event does not fit the upload's progress"))
}

/// An upload on the archive route never reaches the notification: whatever
/// comes of its work, it is archiving, stored or failed, so no transcript is
/// requested and no webhook is posted.
pub proof fn lemma_archive_route_never_notifies(es: Seq<FlowEvent>, time_ok: bool)
    ensures
        phases_after(FlowPhase::Archiving, es, time_ok) == FlowPhase::Archiving
            || phases_after(FlowPhase::Archiving, es, time_ok) == FlowPhase::Stored
            || phases_after(FlowPhase::Archiving, es, time_ok) == FlowPhase::Failed,
    decreases es.len(),
{
    if es.len() > 0 {
        lemma_archive_route_never_notifies(es.drop_last(), time_ok);
    }
}

/// Once an upload is stored or failed, nothing brings it to the
/// notification phase again.
pub proof fn lemma_settled_flow_never_notifies(p: FlowPhase, es: Seq<FlowEvent>, time_ok: bool)
    requires
        p == FlowPhase::Stored || p == FlowPhase::Failed,
    ensures
        phases_after(p, es, time_ok) == FlowPhase::Stored || phases_after(p, es, time_ok)
            == FlowPhase::Failed,
    decreases es.len(),
{
    if es.len() > 0 {
        lemma_settled_flow_never_notifies(p, es.drop_last(), time_ok);
    }
}

} // verus!
