use vstd::prelude::*;

use crate::error::PrintError;
use crate::option_set::{CupsOptions, PairView};
use crate::text::{count_string, digits_of};

verus! {

/// The size of the chunks in which a document is streamed to the spooler (64 KiB).
pub const FILE_BUFFER_SIZE: usize = 65536;

/// The state of a print job on the spooler.
#[derive(Clone, Copy, Debug, PartialEq, Eq, Structural)]
pub enum JobState {
    /// The spooler has allocated the job; no document has been added yet.
    Created,
    /// Documents are being added; holds how many were added successfully.
    Uploading(usize),
    /// The job was closed and handed over for printing.
    Closed,
    /// The job was cancelled.
    Cancelled,
}

/// A job on the spooler, from its creation to its close or cancellation.
///
/// The native calls are made by the caller, which hands back their outcome:
/// a job is created from the spooler's answer to the create call, each document
/// from the outcome of its upload, and `print` from the answer to the one close
/// call. When the caller discards a job, it asks `release` whether to cancel it.
/// The job owns the validated option list it was created with.
#[derive(Debug)]
pub struct CupsJob {
    id: i32,
    title: String,
    options: CupsOptions,
    amount_documents: usize,
    state: JobState,
    close_issued: bool,
    cancel_on_drop: bool,
}

impl CupsJob {
    pub closed spec fn spec_id(&self) -> i32 {
        self.id
    }

    pub closed spec fn spec_title(&self) -> Seq<char> {
        self.title@
    }

    /// The option pairs the job was created with.
    pub closed spec fn spec_options(&self) -> Seq<PairView> {
        self.options@
    }

    pub closed spec fn spec_documents(&self) -> nat {
        self.amount_documents as nat
    }

    pub closed spec fn spec_state(&self) -> JobState {
        self.state
    }

    /// Whether the one close call of this job was made.
    pub closed spec fn spec_close_issued(&self) -> bool {
        self.close_issued
    }

    /// Whether discarding the job now must cancel it on the spooler.
    pub closed spec fn spec_cancel_on_drop(&self) -> bool {
        self.cancel_on_drop
    }

    /// The job exists on the spooler and was neither closed nor cancelled.
    pub open spec fn is_live(&self) -> bool {
        self.spec_state() is Created || self.spec_state() is Uploading
    }

    /// Documents may still be added and the job may still be closed: it is
    /// live and its close call was not made yet.
    pub open spec fn spec_is_open(&self) -> bool {
        self.is_live() && !self.spec_close_issued()
    }

    /// A job must be cancelled when discarded exactly while it is live; an
    /// uploading job counts its documents; a closed job made its close call.
    pub open spec fn wf(&self) -> bool {
        &&& self.spec_cancel_on_drop() == self.is_live()
        &&& self.spec_state() is Uploading ==> self.spec_state()->Uploading_0 as nat
            == self.spec_documents()
        &&& self.spec_state() is Closed ==> self.spec_close_issued()
    }

    /// The name under which the next document is uploaded: `{title}-{n}`,
    /// where `n` counts the documents from one.
    pub open spec fn spec_document_name(&self) -> Seq<char> {
        self.spec_title() + "-"@ + digits_of(self.spec_documents() + 1)
    }

    /// The job created with id `id` for `title`.
    pub open spec fn created(self, title: Seq<char>, id: i32) -> bool {
        &&& self.spec_id() == id
        &&& self.spec_title() == title
        &&& self.spec_documents() == 0
        &&& self.spec_state() == JobState::Created
        &&& !self.spec_close_issued()
        &&& self.spec_cancel_on_drop()
    }

    /// `next` is `self` after a document upload that succeeded or not.
    pub open spec fn document_step(self, next: CupsJob, uploaded: bool) -> bool {
        &&& next.spec_id() == self.spec_id()
        &&& next.spec_title() == self.spec_title()
        &&& next.spec_options() == self.spec_options()
        &&& next.spec_close_issued() == self.spec_close_issued()
        &&& next.spec_cancel_on_drop() == self.spec_cancel_on_drop()
        &&& next.spec_documents() == if uploaded {
            self.spec_documents() + 1
        } else {
            self.spec_documents()
        }
        &&& next.spec_state() == JobState::Uploading(next.spec_documents() as usize)
    }

    /// `next` is `self` after the spooler answered its close call: the close
    /// call is then made, whatever the answer.
    pub open spec fn close_step(self, next: CupsJob, closed: bool) -> bool {
        &&& next.spec_id() == self.spec_id()
        &&& next.spec_title() == self.spec_title()
        &&& next.spec_options() == self.spec_options()
        &&& next.spec_documents() == self.spec_documents()
        &&& next.spec_close_issued()
        &&& if closed {
            next.spec_state() == JobState::Closed && !next.spec_cancel_on_drop()
        } else {
            next.spec_state() == self.spec_state() && next.spec_cancel_on_drop()
                == self.spec_cancel_on_drop()
        }
    }

    /// The cancel call that discarding `self` issues: the job's id when it must
    /// be cancelled, else none.
    pub open spec fn cancel_call(self) -> Option<i32> {
        if self.spec_cancel_on_drop() {
            Some(self.spec_id())
        } else {
            None
        }
    }

    /// `next` is `self` after it was discarded.
    pub open spec fn release_step(self, next: CupsJob) -> bool {
        &&& next.spec_id() == self.spec_id()
        &&& next.spec_title() == self.spec_title()
        &&& next.spec_options() == self.spec_options()
        &&& next.spec_documents() == self.spec_documents()
        &&& next.spec_close_issued() == self.spec_close_issued()
        &&& !next.spec_cancel_on_drop()
        &&& next.spec_state() == if self.spec_cancel_on_drop() {
            JobState::Cancelled
        } else {
            self.spec_state()
        }
    }

    /// Creates a job titled `title` with a validated option list, from the
    /// spooler's answer to the create call: the job id it assigned, or its
    /// error message.
    pub fn try_new(title: &str, options: CupsOptions, created: Result<i32, String>) -> (r: Result<
        CupsJob,
        PrintError,
    >)
        requires
            options.is_validated(),
        ensures
            match created {
                Ok(id) => r is Ok && r->Ok_0.created(title@, id) && r->Ok_0.wf()
                    && r->Ok_0.spec_options() == options@,
                Err(m) => r is Err && r->Err_0.is_backend(m@),
            },
    {
        match created {
            Ok(id) => Ok(
                CupsJob {
                    id,
                    title: String::from_str(title),
                    options,
                    amount_documents: 0,
                    state: JobState::Created,
                    close_issued: false,
                    cancel_on_drop: true,
                },
            ),
            Err(m) => Err(PrintError::Backend(m)),
        }
    }

    /// The id the spooler assigned to this job.
    pub fn id(&self) -> (r: i32)
        ensures
            r == self.spec_id(),
    {
        self.id
    }

    /// The title of this job.
    pub fn title(&self) -> (r: &String)
        ensures
            r@ == self.spec_title(),
    {
        &self.title
    }

    /// The option list this job was created with.
    pub fn options(&self) -> (r: &CupsOptions)
        ensures
            r@ == self.spec_options(),
    {
        &self.options
    }

    /// How many documents were added successfully.
    pub fn amount_documents(&self) -> (r: usize)
        ensures
            r == self.spec_documents(),
    {
        self.amount_documents
    }

    /// The state of this job.
    pub fn state(&self) -> (r: JobState)
        ensures
            r == self.spec_state(),
    {
        self.state
    }

    /// Whether documents may still be added and the job may still be closed.
    pub fn is_open(&self) -> (r: bool)
        ensures
            r == self.spec_is_open(),
    {
        (match self.state {
            JobState::Created => true,
            JobState::Uploading(_) => true,
            _ => false,
        }) && !self.close_issued
    }

    /// The name for the next document, `{title}-{n}` with `n` counting from one.
    pub fn document_name(&self) -> (r: String)
        requires
            self.spec_documents() < usize::MAX,
        ensures
            r@ == self.spec_document_name(),
    {
        let mut name = self.title.clone();
        name.append("-");
        let n = count_string(self.amount_documents + 1);
        name.append(n.as_str());
        name
    }

    /// Records the outcome of uploading one document: the begin, stream and
    /// finish calls all succeeded, or the message of the first that failed.
    /// A failure leaves the documents added before it in place.
    pub fn add_document(&mut self, uploaded: Result<(), String>) -> (r: Result<(), PrintError>)
        requires
            old(self).wf(),
            old(self).spec_is_open(),
            old(self).spec_documents() < usize::MAX,
        ensures
            final(self).wf(),
            final(self).spec_is_open(),
            old(self).document_step(*final(self), uploaded is Ok),
            match uploaded {
                Ok(_) => r is Ok,
                Err(m) => r is Err && r->Err_0.is_backend(m@),
            },
    {
        match uploaded {
            Ok(()) => {
                self.amount_documents = self.amount_documents + 1;
                self.state = JobState::Uploading(self.amount_documents);
                Ok(())
            },
            Err(m) => {
                self.state = JobState::Uploading(self.amount_documents);
                Err(PrintError::Backend(m))
            },
        }
    }

    /// Records the spooler's answer to the one close call of this job. On
    /// success the job is closed and no longer cancelled when discarded; on
    /// failure the error is handed on and the cancel stays armed. Either way
    /// the job is no longer open: only `release` is left to call.
    pub fn print(&mut self, closed: Result<(), String>) -> (r: Result<(), PrintError>)
        requires
            old(self).wf(),
            old(self).spec_is_open(),
        ensures
            final(self).wf(),
            !final(self).spec_is_open(),
            old(self).close_step(*final(self), closed is Ok),
            match closed {
                Ok(_) => r is Ok,
                Err(m) => r is Err && r->Err_0.is_backend(m@),
            },
    {
        self.close_issued = true;
        match closed {
            Ok(()) => {
                self.state = JobState::Closed;
                self.cancel_on_drop = false;
                Ok(())
            },
            Err(m) => Err(PrintError::Backend(m)),
        }
    }

    /// Discards the job: returns the id of the job to cancel when it is live,
    /// once; later calls return `None`.
    pub fn release(&mut self) -> (r: Option<i32>)
        requires
            old(self).wf(),
        ensures
            final(self).wf(),
            !final(self).spec_is_open(),
            r == old(self).cancel_call(),
            old(self).release_step(*final(self)),
    {
        if self.cancel_on_drop {
            self.cancel_on_drop = false;
            self.state = JobState::Cancelled;
            Some(self.id)
        } else {
            None
        }
    }
}

/// A job that is created, has any number of documents added (each upload
/// succeeding or not) and is then discarded without `print` issues exactly one
/// cancel call, for its own id: the first release cancels it, and a second
/// release issues none.
pub proof fn lemma_abandoned_job_cancelled_once(
    title: Seq<char>,
    id: i32,
    history: Seq<CupsJob>,
    uploads: Seq<bool>,
    released: CupsJob,
    released_again: CupsJob,
)
    requires
        history.len() >= 1,
        uploads.len() == history.len() - 1,
        history[0].created(title, id),
        forall|i: int|
            0 <= i < uploads.len() ==> (#[trigger] history[i]).document_step(
                history[i + 1],
                uploads[i],
            ),
        history.last().release_step(released),
        released.release_step(released_again),
    ensures
        history.last().cancel_call() == Some(id),
        released.spec_state() == JobState::Cancelled,
        released.cancel_call() is None,
        released_again.cancel_call() is None,
    decreases history.len(),
{
    if history.len() > 1 {
        let n = history.len() - 1;
        let earlier = history.take(n);
        assert(earlier.last() == history[n - 1]);
        assert(history[n - 1].document_step(history[n], uploads[n - 1]));
        assert forall|i: int| 0 <= i < uploads.take(n - 1).len() implies (#[trigger] earlier[i]).document_step(
            earlier[i + 1],
            uploads.take(n - 1)[i],
        ) by {
            assert(history[i].document_step(history[i + 1], uploads[i]));
        }
        lemma_open_job_release(earlier.last());
        let r = choose_release(earlier.last());
        lemma_abandoned_job_cancelled_once(title, id, earlier, uploads.take(n - 1), r, r);
    }
}

/// The job that discarding `j` leaves behind.
spec fn choose_release(j: CupsJob) -> CupsJob {
    choose|next: CupsJob| j.release_step(next)
}

/// Every job can be discarded.
proof fn lemma_open_job_release(j: CupsJob)
    ensures
        exists|next: CupsJob| j.release_step(next),
{
    let next = CupsJob {
        id: j.id,
        title: j.title,
        options: j.options,
        amount_documents: j.amount_documents,
        close_issued: j.close_issued,
        state: if j.cancel_on_drop {
            JobState::Cancelled
        } else {
            j.state
        },
        cancel_on_drop: false,
    };
    assert(j.release_step(next));
}

/// `print` on an open job makes its one close call. When the spooler accepts
/// it, the job is closed and discarding it issues no cancel call; when it
/// refuses, discarding the job still cancels it. Either way the job is no
/// longer open, also after it is discarded, so no second close call follows
/// (`print` only takes an open job).
pub proof fn lemma_print_suppresses_cancel(
    j: CupsJob,
    accepted: CupsJob,
    refused: CupsJob,
    refused_released: CupsJob,
)
    requires
        j.wf(),
        j.spec_is_open(),
        j.close_step(accepted, true),
        j.close_step(refused, false),
        refused.release_step(refused_released),
    ensures
        accepted.spec_state() == JobState::Closed,
        accepted.cancel_call() is None,
        !accepted.spec_is_open(),
        !refused.spec_is_open(),
        refused.cancel_call() == Some(j.spec_id()),
        refused_released.spec_state() == JobState::Cancelled,
        !refused_released.spec_is_open(),
        refused_released.cancel_call() is None,
{
}

} // verus!
