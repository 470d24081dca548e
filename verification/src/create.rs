//! Creating a post together with its stored file.
//!
//! The file lives in a blob store and the post in a datastore, and no single
//! transaction spans the two. The workflow here is the sequence of decisions
//! that makes the pair appear together or not at all: copy the file, write the
//! row inside a transaction, commit, and on a failure after the copy delete the
//! file again. The workflow itself touches nothing. It names the next action;
//! the caller performs it and reports how it went.
use crate::decimal::{
    is_digit, lemma_signed_decimal_is_injective, lemma_signed_decimal_shape, push_signed_decimal,
    signed_decimal,
};
use crate::jwt::Claims;
use crate::post::{NewPost, NewPostView, Timestamp};
use crate::response::{ApiResponse, ErrorKind, ErrorKindView};
use crate::trusted::{current_time, random_uuid};
use crate::upload::{declared_name, upload_defect, validate_upload, UploadCandidate, UploadCandidateView};
use vstd::prelude::*;
use vstd::string::StringExecFns;

verus! {

/// The fields of a request to create a post.
#[derive(Debug, Clone, PartialEq, Eq)]
pub struct CreatePostModel {
    pub title: String,
    pub text: String,
    pub file: UploadCandidate,
}

/// The mathematical content of a [`CreatePostModel`].
pub struct CreatePostModelView {
    pub title: Seq<char>,
    pub text: Seq<char>,
    pub file: UploadCandidateView,
}

impl View for CreatePostModel {
    type V = CreatePostModelView;

    open spec fn view(&self) -> CreatePostModelView {
        CreatePostModelView { title: self.title@, text: self.text@, file: self.file@ }
    }
}

/// The name a blob is stored under: the second of arrival, a hyphen, and the
/// name the client declared.
pub open spec fn stored_name(secs: int, file_name: Seq<char>) -> Seq<char> {
    signed_decimal(secs) + seq!['-'] + file_name
}

/// Where in the blob store a blob of the given name lies.
pub open spec fn blob_path(name: Seq<char>) -> Seq<char> {
    "./public/"@ + name
}

/// Stored names do not collide: two uploads get the same name only if they
/// arrived in the same second under the same declared name.
pub proof fn lemma_stored_name_is_injective(
    secs: int,
    file_name: Seq<char>,
    other_secs: int,
    other_name: Seq<char>,
)
    requires
        stored_name(secs, file_name) == stored_name(other_secs, other_name),
    ensures
        secs == other_secs,
        file_name == other_name,
{
    let a = signed_decimal(secs);
    let b = signed_decimal(other_secs);
    let left = stored_name(secs, file_name);
    let right = stored_name(other_secs, other_name);
    lemma_signed_decimal_shape(secs);
    lemma_signed_decimal_shape(other_secs);
    assert(left[a.len() as int] == '-');
    assert(right[b.len() as int] == '-');
    if a.len() < b.len() {
        assert(right[a.len() as int] == b[a.len() as int]);
        assert(is_digit(b[a.len() as int]));
    } else if b.len() < a.len() {
        assert(left[b.len() as int] == a[b.len() as int]);
        assert(is_digit(a[b.len() as int]));
    }
    assert(a =~= left.subrange(0, a.len() as int));
    assert(b =~= right.subrange(0, b.len() as int));
    lemma_signed_decimal_is_injective(secs, other_secs);
    assert(file_name =~= left.subrange(a.len() as int + 1, left.len() as int));
    assert(other_name =~= right.subrange(b.len() as int + 1, right.len() as int));
}

/// Computes the name under which an upload is stored.
pub fn storage_name(secs: i64, file_name: &str) -> (name: String)
    ensures
        name@ == stored_name(secs as int, file_name@),
{
    let mut name = String::new();
    push_signed_decimal(&mut name, secs);
    proof {
        reveal_strlit("-");
    }
    name.append("-");
    name.append(file_name);
    assert(name@ =~= stored_name(secs as int, file_name@));
    name
}

/// Computes the place in the blob store of a blob of the given name.
pub fn storage_path(name: &str) -> (path: String)
    ensures
        path@ == blob_path(name@),
{
    let mut path = "./public/".to_owned();
    path.append(name);
    path
}

/// How the caller's last action went.
#[derive(Debug, Clone, PartialEq, Eq)]
pub enum Outcome {
    Succeeded,
    /// It failed, with the collaborator's message.
    Failed(String),
}

/// The mathematical content of an [`Outcome`].
pub enum OutcomeView {
    Succeeded,
    Failed(Seq<char>),
}

impl View for Outcome {
    type V = OutcomeView;

    open spec fn view(&self) -> OutcomeView {
        match self {
            Outcome::Succeeded => OutcomeView::Succeeded,
            Outcome::Failed(detail) => OutcomeView::Failed(detail@),
        }
    }
}

/// What the workflow is waiting for.
#[derive(Debug, Clone, Copy, PartialEq, Eq)]
pub enum Stage {
    /// The transaction is being opened.
    Opening,
    /// The blob is being copied to its permanent place.
    Copying,
    /// The row is being written inside the transaction.
    Inserting,
    /// The transaction is being committed.
    Committing,
    /// The transaction is being rolled back after a failure.
    Reverting,
    /// The copied blob is being deleted after a failure.
    Compensating,
    /// The transient upload is being removed after a success.
    Tidying,
    /// Nothing is left to do.
    Finished,
}

/// One creation in progress.
#[derive(Debug, Clone, PartialEq, Eq)]
pub struct CreateWorkflow {
    pub stage: Stage,
    /// The row to write.
    pub record: NewPost,
    /// Where the uploaded bytes wait.
    pub upload_path: String,
    /// The failure to report once the cleanup is over.
    pub failure: Option<ErrorKind>,
    /// Whether the blob reached its permanent place.
    pub blob_written: bool,
    /// Whether a blob was left behind that no row refers to.
    pub orphaned: bool,
}

/// The mathematical content of a [`CreateWorkflow`].
pub struct CreateWorkflowView {
    pub stage: Stage,
    pub record: NewPostView,
    pub upload_path: Seq<char>,
    pub failure: Option<ErrorKindView>,
    pub blob_written: bool,
    pub orphaned: bool,
}

impl View for CreateWorkflow {
    type V = CreateWorkflowView;

    open spec fn view(&self) -> CreateWorkflowView {
        CreateWorkflowView {
            stage: self.stage,
            record: self.record@,
            upload_path: self.upload_path@,
            failure: match self.failure {
                Some(e) => Some(e@),
                None => None,
            },
            blob_written: self.blob_written,
            orphaned: self.orphaned,
        }
    }
}

/// What the caller is asked to do next.
#[derive(Debug, Clone, PartialEq, Eq)]
pub enum Action {
    /// Open a datastore transaction.
    BeginTransaction,
    /// Copy the uploaded bytes to their permanent place.
    CopyBlob { from: String, to: String },
    /// Write the row inside the open transaction.
    InsertPost(NewPost),
    /// Commit the open transaction.
    Commit,
    /// Roll the open transaction back.
    Rollback,
    /// Delete the blob at this place in the blob store.
    DeleteBlob(String),
    /// Remove the transient upload at this place.
    DeleteUpload(String),
    /// Stop and report. `orphan` names a blob that could not be deleted and
    /// that no row refers to.
    Finish { failure: Option<ErrorKind>, orphan: Option<String> },
}

/// The mathematical content of an [`Action`].
pub enum ActionView {
    BeginTransaction,
    CopyBlob { from: Seq<char>, to: Seq<char> },
    InsertPost(NewPostView),
    Commit,
    Rollback,
    DeleteBlob(Seq<char>),
    DeleteUpload(Seq<char>),
    Finish { failure: Option<ErrorKindView>, orphan: Option<Seq<char>> },
}

impl View for Action {
    type V = ActionView;

    open spec fn view(&self) -> ActionView {
        match self {
            Action::BeginTransaction => ActionView::BeginTransaction,
            Action::CopyBlob { from, to } => ActionView::CopyBlob { from: from@, to: to@ },
            Action::InsertPost(record) => ActionView::InsertPost(record@),
            Action::Commit => ActionView::Commit,
            Action::Rollback => ActionView::Rollback,
            Action::DeleteBlob(path) => ActionView::DeleteBlob(path@),
            Action::DeleteUpload(path) => ActionView::DeleteUpload(path@),
            Action::Finish { failure, orphan } => ActionView::Finish {
                failure: match failure {
                    Some(e) => Some(e@),
                    None => None,
                },
                orphan: match orphan {
                    Some(path) => Some(path@),
                    None => None,
                },
            },
        }
    }
}

impl CreateWorkflowView {
    /// The workflow for a request that passed validation, before anything has
    /// been done: the row to write, owned by the caller and pointing at the
    /// blob's stored name.
    pub open spec fn initial(
        owner: i32,
        form: CreatePostModelView,
        now: Timestamp,
        uuid: u128,
    ) -> CreateWorkflowView {
        CreateWorkflowView {
            stage: Stage::Opening,
            record: NewPostView {
                title: form.title,
                text: form.text,
                uuid,
                image: stored_name(now.secs as int, declared_name(form.file.file_name)),
                user_id: owner,
                created_at: now,
            },
            upload_path: form.file.path,
            failure: None,
            blob_written: false,
            orphaned: false,
        }
    }

    /// Whether this is a workflow on which nothing has been done yet.
    pub open spec fn is_fresh(self) -> bool {
        &&& self.stage is Opening
        &&& self.failure is None
        &&& !self.blob_written
        &&& !self.orphaned
    }

    /// The permanent place of this workflow's blob.
    pub open spec fn blob(self) -> Seq<char> {
        blob_path(self.record.image)
    }

    /// The action that the workflow is waiting on.
    pub open spec fn pending(self) -> ActionView {
        match self.stage {
            Stage::Opening => ActionView::BeginTransaction,
            Stage::Copying => ActionView::CopyBlob { from: self.upload_path, to: self.blob() },
            Stage::Inserting => ActionView::InsertPost(self.record),
            Stage::Committing => ActionView::Commit,
            Stage::Reverting => ActionView::Rollback,
            Stage::Compensating => ActionView::DeleteBlob(self.blob()),
            Stage::Tidying => ActionView::DeleteUpload(self.upload_path),
            Stage::Finished => ActionView::Finish {
                failure: self.failure,
                orphan: if self.orphaned {
                    Some(self.blob())
                } else {
                    None
                },
            },
        }
    }

    /// The workflow after the pending action went as `outcome` says.
    ///
    /// A failed copy is a storage error, and the transaction is rolled back.
    /// Every failure of the datastore is a persistence error; once the blob is
    /// in place it is followed by the blob's deletion. Whether the rollback or
    /// the removal of the upload succeed changes nothing, and a blob that
    /// cannot be deleted is marked as orphaned.
    pub open spec fn next(self, outcome: OutcomeView) -> CreateWorkflowView {
        match (self.stage, outcome) {
            (Stage::Opening, OutcomeView::Succeeded) => CreateWorkflowView {
                stage: Stage::Copying,
                ..self
            },
            (Stage::Opening, OutcomeView::Failed(detail)) => CreateWorkflowView {
                stage: Stage::Finished,
                failure: Some(ErrorKindView::PersistenceError(detail)),
                ..self
            },
            (Stage::Copying, OutcomeView::Succeeded) => CreateWorkflowView {
                stage: Stage::Inserting,
                blob_written: true,
                ..self
            },
            (Stage::Copying, OutcomeView::Failed(detail)) => CreateWorkflowView {
                stage: Stage::Reverting,
                failure: Some(ErrorKindView::StorageWriteError(detail)),
                ..self
            },
            (Stage::Inserting, OutcomeView::Succeeded) => CreateWorkflowView {
                stage: Stage::Committing,
                ..self
            },
            (Stage::Inserting, OutcomeView::Failed(detail)) => CreateWorkflowView {
                stage: Stage::Reverting,
                failure: Some(ErrorKindView::PersistenceError(detail)),
                ..self
            },
            (Stage::Committing, OutcomeView::Succeeded) => CreateWorkflowView {
                stage: Stage::Tidying,
                ..self
            },
            (Stage::Committing, OutcomeView::Failed(detail)) => CreateWorkflowView {
                stage: Stage::Compensating,
                failure: Some(ErrorKindView::PersistenceError(detail)),
                ..self
            },
            (Stage::Reverting, _) => CreateWorkflowView {
                stage: if self.blob_written {
                    Stage::Compensating
                } else {
                    Stage::Finished
                },
                ..self
            },
            (Stage::Compensating, OutcomeView::Succeeded) => CreateWorkflowView {
                stage: Stage::Finished,
                ..self
            },
            (Stage::Compensating, OutcomeView::Failed(_)) => CreateWorkflowView {
                stage: Stage::Finished,
                orphaned: true,
                ..self
            },
            (Stage::Tidying, _) => CreateWorkflowView { stage: Stage::Finished, ..self },
            (Stage::Finished, _) => self,
        }
    }
}

impl CreateWorkflow {
    /// Whether nothing is left to do.
    pub fn is_finished(&self) -> (finished: bool)
        ensures
            finished == (self@.stage is Finished),
    {
        match self.stage {
            Stage::Finished => true,
            _ => false,
        }
    }

    /// The action that the workflow is waiting on.
    pub fn pending(&self) -> (action: Action)
        ensures
            action@ == self@.pending(),
    {
        match self.stage {
            Stage::Opening => Action::BeginTransaction,
            Stage::Copying => Action::CopyBlob {
                from: self.upload_path.clone(),
                to: storage_path(self.record.image.as_str()),
            },
            Stage::Inserting => Action::InsertPost(self.record.duplicate()),
            Stage::Committing => Action::Commit,
            Stage::Reverting => Action::Rollback,
            Stage::Compensating => Action::DeleteBlob(storage_path(self.record.image.as_str())),
            Stage::Tidying => Action::DeleteUpload(self.upload_path.clone()),
            Stage::Finished => {
                let failure = match &self.failure {
                    Some(e) => Some(e.duplicate()),
                    None => None,
                };
                let orphan = if self.orphaned {
                    Some(storage_path(self.record.image.as_str()))
                } else {
                    None
                };
                Action::Finish { failure, orphan }
            },
        }
    }

    /// Takes in how the pending action went and names the next one.
    pub fn advance(self, outcome: Outcome) -> (step: (CreateWorkflow, Action))
        ensures
            step.0@ == self@.next(outcome@),
            step.1@ == step.0@.pending(),
    {
        let mut workflow = self;
        match workflow.stage {
            Stage::Opening => match outcome {
                Outcome::Succeeded => {
                    workflow.stage = Stage::Copying;
                },
                Outcome::Failed(detail) => {
                    workflow.stage = Stage::Finished;
                    workflow.failure = Some(ErrorKind::PersistenceError(detail));
                },
            },
            Stage::Copying => match outcome {
                Outcome::Succeeded => {
                    workflow.stage = Stage::Inserting;
                    workflow.blob_written = true;
                },
                Outcome::Failed(detail) => {
                    workflow.stage = Stage::Reverting;
                    workflow.failure = Some(ErrorKind::StorageWriteError(detail));
                },
            },
            Stage::Inserting => match outcome {
                Outcome::Succeeded => {
                    workflow.stage = Stage::Committing;
                },
                Outcome::Failed(detail) => {
                    workflow.stage = Stage::Reverting;
                    workflow.failure = Some(ErrorKind::PersistenceError(detail));
                },
            },
            Stage::Committing => match outcome {
                Outcome::Succeeded => {
                    workflow.stage = Stage::Tidying;
                },
                Outcome::Failed(detail) => {
                    workflow.stage = Stage::Compensating;
                    workflow.failure = Some(ErrorKind::PersistenceError(detail));
                },
            },
            Stage::Reverting => {
                if workflow.blob_written {
                    workflow.stage = Stage::Compensating;
                } else {
                    workflow.stage = Stage::Finished;
                }
            },
            Stage::Compensating => match outcome {
                Outcome::Succeeded => {
                    workflow.stage = Stage::Finished;
                },
                Outcome::Failed(_) => {
                    workflow.stage = Stage::Finished;
                    workflow.orphaned = true;
                },
            },
            Stage::Tidying => {
                workflow.stage = Stage::Finished;
            },
            Stage::Finished => {},
        }
        let action = workflow.pending();
        (workflow, action)
    }

    /// The reply to the client once the workflow has finished.
    pub fn reply(&self) -> (reply: Result<ApiResponse, ApiResponse>)
        ensures
            match reply {
                Ok(response) => self@.failure is None && response@.status_code == 200
                    && response@.body == "Post Created"@,
                Err(response) => self@.failure matches Some(e) && response@.status_code
                    == e.status() && response@.body == e.message(),
            },
    {
        match &self.failure {
            None => Ok(ApiResponse::new(200, "Post Created".to_owned())),
            Some(e) => Err(e.response()),
        }
    }
}

/// Sets up the creation of a post for a request that passed validation, given
/// the time of arrival and a fresh identifier. Nothing has been done yet: the
/// first action is to open a transaction.
pub fn begin_create(claim: &Claims, form: CreatePostModel, now: Timestamp, uuid: u128) -> (start:
    (CreateWorkflow, Action))
    ensures
        start.0@ == CreateWorkflowView::initial(claim@.id, form@, now, uuid),
        start.1@ == ActionView::BeginTransaction,
{
    let image = match &form.file.file_name {
        Some(name) => storage_name(now.secs, name.as_str()),
        None => storage_name(now.secs, "null"),
    };
    let workflow = CreateWorkflow {
        stage: Stage::Opening,
        record: NewPost {
            title: form.title,
            text: form.text,
            uuid,
            image,
            user_id: claim.id,
            created_at: now,
        },
        upload_path: form.file.path,
        failure: None,
        blob_written: false,
        orphaned: false,
    };
    (workflow, Action::BeginTransaction)
}

/// Handles a request to create a post on behalf of an authenticated user.
///
/// The upload is validated first, and a request that fails validation is
/// turned down before anything else happens. Otherwise the clock is read, an
/// identifier is drawn, and the workflow starts with both.
pub fn create_post(claim: &Claims, post_model: CreatePostModel, max_file_size: u64) -> (result:
    Result<(CreateWorkflow, Action), ErrorKind>)
    ensures
        match result {
            Ok((workflow, action)) => {
                &&& upload_defect(
                    declared_name(post_model@.file.file_name),
                    post_model@.file.size,
                    max_file_size as nat,
                ) is None
                &&& action@ == ActionView::BeginTransaction
                &&& exists|now: Timestamp, uuid: u128|
                    workflow@ == CreateWorkflowView::initial(claim@.id, post_model@, now, uuid)
            },
            Err(e) => upload_defect(
                declared_name(post_model@.file.file_name),
                post_model@.file.size,
                max_file_size as nat,
            ) == Some(e@),
        },
{
    match validate_upload(&post_model.file, max_file_size) {
        Err(e) => Err(e),
        Ok(()) => {
            let reading = current_time();
            let now = Timestamp { secs: reading.0, nanos: reading.1 };
            let uuid = random_uuid();
            let ghost form = post_model@;
            let start = begin_create(claim, post_model, now, uuid);
            assert(start.0@ == CreateWorkflowView::initial(claim@.id, form, now, uuid));
            Ok(start)
        },
    }
}

} // verus!
