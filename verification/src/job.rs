//! One job of a batch as a state machine. The machine decides; whoever
//! drives it asks the authorizer, decodes, filters and saves, and reports
//! back what happened.

use vstd::prelude::*;
use vstd::string::StringExecFns;
use crate::commands::{
    invalid_extension_message,
    invalid_extension_text,
    progress_fraction,
    progress_of,
    PayloadModel,
    ProcessOptions,
    ProcessResult,
    ProgressPayload,
    ResultModel,
};
use crate::path::{has_allowed_extension, is_raw_path, output_path_allowed, raw_path};

verus! {

/// Where a job stands.
#[derive(Clone, Copy, Debug, PartialEq, Eq, Structural)]
pub enum Stage {
    Pending,
    Decoding,
    Filtering,
    Saving,
    Completed,
    Failed,
}

impl Stage {
    /// A job in this stage is over.
    pub open spec fn is_terminal(self) -> bool {
        self == Stage::Completed || self == Stage::Failed
    }

    /// Position of the stage in the life of a job. No job goes back to a
    /// stage of lower rank.
    pub open spec fn rank(self) -> nat {
        match self {
            Stage::Pending => 0,
            Stage::Decoding => 1,
            Stage::Filtering => 2,
            Stage::Saving => 3,
            Stage::Completed => 4,
            Stage::Failed => 4,
        }
    }

    /// The label under which the stage is notified.
    pub open spec fn label_text(self) -> Seq<char> {
        match self {
            Stage::Pending => "pending"@,
            Stage::Decoding => "decoding"@,
            Stage::Filtering => "filtering"@,
            Stage::Saving => "saving"@,
            Stage::Completed => "completed"@,
            Stage::Failed => "failed"@,
        }
    }

    /// Whether a job in this stage is over.
    pub fn terminal(self) -> (t: bool)
        ensures
            t == self.is_terminal(),
    {
        match self {
            Stage::Completed => true,
            Stage::Failed => true,
            _ => false,
        }
    }

    /// The label under which the stage is notified.
    pub fn label(self) -> (l: String)
        ensures
            l@ == self.label_text(),
    {
        match self {
            Stage::Pending => "pending".to_owned(),
            Stage::Decoding => "decoding".to_owned(),
            Stage::Filtering => "filtering".to_owned(),
            Stage::Saving => "saving".to_owned(),
            Stage::Completed => "completed".to_owned(),
            Stage::Failed => "failed".to_owned(),
        }
    }
}

/// Why a job failed.
#[derive(Clone, Copy, Debug, PartialEq, Eq, Structural)]
pub enum FailureKind {
    /// A path lies outside what the authorizer permits.
    PermissionDenied,
    /// The input does not exist.
    NotFound,
    /// The output path has no allowed extension.
    UnsupportedExtension,
    /// The input cannot be read as an image.
    DecodeFailure,
    /// The decoded samples do not make up an image.
    BufferConstructionFailure,
    /// The image could not be saved.
    EncodeFailure,
}

/// How the input of a job is decoded.
#[derive(Clone, Copy, Debug, PartialEq, Eq, Structural)]
pub enum DecoderKind {
    /// A sensor capture: full demosaic.
    Raw,
    /// Any other image.
    Generic,
}

/// What the driver of a job does next.
#[derive(Clone, Copy, Debug, PartialEq, Eq, Structural)]
pub enum JobAction {
    Decode(DecoderKind),
    Filter,
    Save,
    Nothing,
}

/// What the driver of a job reports.
#[derive(Debug)]
pub enum JobEvent {
    /// The authorizer has answered for the input and the output path.
    Authorized { input: bool, output: bool },
    /// The action that was asked for has been done.
    Done,
    /// The action that was asked for has failed.
    Failed { kind: FailureKind, message: String },
}

/// What a `JobEvent` holds.
pub enum EventModel {
    Authorized { input: bool, output: bool },
    Done,
    Failed { kind: FailureKind, message: Seq<char> },
}

impl View for JobEvent {
    type V = EventModel;

    open spec fn view(&self) -> EventModel {
        match *self {
            JobEvent::Authorized { input, output } => EventModel::Authorized { input, output },
            JobEvent::Done => EventModel::Done,
            JobEvent::Failed { kind, message } => EventModel::Failed { kind, message: message@ },
        }
    }
}

/// What a job is.
pub struct JobModel {
    pub input_path: Seq<char>,
    pub output_path: Seq<char>,
    pub options: ProcessOptions,
    pub index: nat,
    pub total: nat,
    pub progress: nat,
}

impl JobModel {
    /// The job is one of its batch, and its progress fraction is that of
    /// its place in it.
    pub open spec fn wf(self) -> bool {
        &&& self.index < self.total
        &&& self.progress == progress_fraction(self.index, self.total)
    }
}

/// One input, one output, the options of the batch and the place of the job
/// in the batch.
#[derive(Debug)]
pub struct ProcessJob {
    input_path: String,
    output_path: String,
    options: ProcessOptions,
    index: usize,
    total: usize,
    progress: u32,
}

impl View for ProcessJob {
    type V = JobModel;

    closed spec fn view(&self) -> JobModel {
        JobModel {
            input_path: self.input_path@,
            output_path: self.output_path@,
            options: self.options,
            index: self.index as nat,
            total: self.total as nat,
            progress: self.progress as nat,
        }
    }
}

impl ProcessJob {
    #[verifier::type_invariant]
    closed spec fn inv(&self) -> bool {
        self@.wf()
    }

    /// Job `index` of a batch of `total`. Its progress fraction is fixed here.
    /// There is no job with an index beyond the batch.
    pub fn new(
        input_path: String,
        output_path: String,
        options: ProcessOptions,
        index: usize,
        total: usize,
    ) -> (job: Option<ProcessJob>)
        ensures
            job is Some <==> index < total,
            job matches Some(j) ==> j@ == (JobModel {
                input_path: input_path@,
                output_path: output_path@,
                options,
                index: index as nat,
                total: total as nat,
                progress: progress_fraction(index as nat, total as nat),
            }) && j@.wf(),
    {
        if index >= total {
            return None;
        }
        let progress = progress_of(index, total);
        Some(ProcessJob { input_path, output_path, options, index, total, progress })
    }

    /// The path that is read.
    pub fn input_path(&self) -> (p: &String)
        ensures
            p@ == self@.input_path,
            self@.wf(),
    {
        proof {
            use_type_invariant(self);
        }
        &self.input_path
    }

    /// The path that is written.
    pub fn output_path(&self) -> (p: &String)
        ensures
            p@ == self@.output_path,
            self@.wf(),
    {
        proof {
            use_type_invariant(self);
        }
        &self.output_path
    }

    /// The options of the batch.
    pub fn options(&self) -> (o: ProcessOptions)
        ensures
            o == self@.options,
            self@.wf(),
    {
        proof {
            use_type_invariant(self);
        }
        self.options
    }

    /// Place of the job in its batch, from 0.
    pub fn index(&self) -> (i: usize)
        ensures
            i == self@.index,
            self@.wf(),
    {
        proof {
            use_type_invariant(self);
        }
        self.index
    }

    /// Number of jobs in the batch.
    pub fn total(&self) -> (t: usize)
        ensures
            t == self@.total,
            self@.wf(),
    {
        proof {
            use_type_invariant(self);
        }
        self.total
    }

    /// The progress fraction, in thousandths of a percent.
    pub fn progress(&self) -> (p: u32)
        ensures
            p == self@.progress,
            self@.wf(),
    {
        proof {
            use_type_invariant(self);
        }
        self.progress
    }
}

/// What one step of a job comes to.
#[derive(Debug)]
pub struct Step {
    /// The stage after the step.
    pub stage: Stage,
    /// What the driver does next.
    pub action: JobAction,
    /// The notification to publish, if the job has entered a stage.
    pub payload: Option<ProgressPayload>,
    /// The outcome of the job, if the step has ended it.
    pub result: Option<ProcessResult>,
    /// Why the job failed, if the step has failed it.
    pub failure: Option<FailureKind>,
}

/// What a `Step` holds.
pub struct StepModel {
    pub stage: Stage,
    pub action: JobAction,
    pub payload: Option<PayloadModel>,
    pub result: Option<ResultModel>,
    pub failure: Option<FailureKind>,
}

impl View for Step {
    type V = StepModel;

    open spec fn view(&self) -> StepModel {
        StepModel {
            stage: self.stage,
            action: self.action,
            payload: match self.payload {
                None => None,
                Some(p) => Some(p@),
            },
            result: match self.result {
                None => None,
                Some(r) => Some(r@),
            },
            failure: self.failure,
        }
    }
}

/// The decoder for an input path.
pub open spec fn decoder_for(input_path: Seq<char>) -> DecoderKind {
    if raw_path(input_path) {
        DecoderKind::Raw
    } else {
        DecoderKind::Generic
    }
}

/// The notification that the job has entered `stage`.
pub open spec fn payload_for(job: JobModel, stage: Stage, error: Option<Seq<char>>) -> PayloadModel {
    PayloadModel {
        path: job.input_path,
        success: stage != Stage::Failed,
        error,
        progress: job.progress,
        stage: stage.label_text(),
    }
}

/// The step that moves the job on to a stage in which something is to be done.
pub open spec fn step_on(job: JobModel, stage: Stage, action: JobAction) -> StepModel {
    StepModel {
        stage,
        action,
        payload: Some(payload_for(job, stage, None)),
        result: None,
        failure: None,
    }
}

/// The step that ends the job in success.
pub open spec fn step_completed(job: JobModel) -> StepModel {
    StepModel {
        stage: Stage::Completed,
        action: JobAction::Nothing,
        payload: Some(payload_for(job, Stage::Completed, None)),
        result: Some(ResultModel { success: true, path: job.output_path, error: None }),
        failure: None,
    }
}

/// The step that ends the job in failure.
pub open spec fn step_failed(job: JobModel, kind: FailureKind, message: Seq<char>) -> StepModel {
    StepModel {
        stage: Stage::Failed,
        action: JobAction::Nothing,
        payload: Some(payload_for(job, Stage::Failed, Some(message))),
        result: Some(ResultModel { success: false, path: job.output_path, error: Some(message) }),
        failure: Some(kind),
    }
}

/// The step that changes nothing.
pub open spec fn step_stay(stage: Stage) -> StepModel {
    StepModel { stage, action: JobAction::Nothing, payload: None, result: None, failure: None }
}

/// What a refused path is answered with.
pub open spec fn permission_text(path: Seq<char>) -> Seq<char> {
    "Path not permitted: "@ + path
}

/// The step that the answer of the authorizer leads to: refusal of either
/// path fails the job, then an output path without an allowed extension
/// fails it, and otherwise the input is to be decoded.
pub open spec fn step_authorized(job: JobModel, input: bool, output: bool) -> StepModel {
    if !input {
        step_failed(job, FailureKind::PermissionDenied, permission_text(job.input_path))
    } else if !output {
        step_failed(job, FailureKind::PermissionDenied, permission_text(job.output_path))
    } else if !output_path_allowed(job.output_path) {
        step_failed(job, FailureKind::UnsupportedExtension, invalid_extension_text())
    } else {
        step_on(job, Stage::Decoding, JobAction::Decode(decoder_for(job.input_path)))
    }
}

/// The step of a job in `stage` on `event`.
pub open spec fn step_spec(job: JobModel, stage: Stage, event: EventModel) -> StepModel {
    match event {
        EventModel::Authorized { input, output } => if stage == Stage::Pending {
            step_authorized(job, input, output)
        } else {
            step_stay(stage)
        },
        EventModel::Done => match stage {
            Stage::Decoding => step_on(job, Stage::Filtering, JobAction::Filter),
            Stage::Filtering => step_on(job, Stage::Saving, JobAction::Save),
            Stage::Saving => step_completed(job),
            _ => step_stay(stage),
        },
        EventModel::Failed { kind, message } => if stage.is_terminal() {
            step_stay(stage)
        } else {
            step_failed(job, kind, message)
        },
    }
}

fn notify(job: &ProcessJob, stage: Stage, error: Option<String>) -> (p: ProgressPayload)
    ensures
        p@ == payload_for(job@, stage, crate::commands::text_of(error)),
{
    let success = match stage {
        Stage::Failed => false,
        _ => true,
    };
    ProgressPayload {
        path: job.input_path().clone(),
        success,
        error,
        progress: job.progress(),
        stage: stage.label(),
    }
}

fn move_on(job: &ProcessJob, stage: Stage, action: JobAction) -> (step: Step)
    ensures
        step@ == step_on(job@, stage, action),
{
    Step { stage, action, payload: Some(notify(job, stage, None)), result: None, failure: None }
}

fn fail(job: &ProcessJob, kind: FailureKind, message: String) -> (step: Step)
    ensures
        step@ == step_failed(job@, kind, message@),
{
    let told = message.clone();
    Step {
        stage: Stage::Failed,
        action: JobAction::Nothing,
        payload: Some(notify(job, Stage::Failed, Some(told))),
        result: Some(
            ProcessResult { success: false, path: job.output_path().clone(), error: Some(message) },
        ),
        failure: Some(kind),
    }
}

fn stay(stage: Stage) -> (step: Step)
    ensures
        step@ == step_stay(stage),
{
    Step { stage, action: JobAction::Nothing, payload: None, result: None, failure: None }
}

fn refusal(path: &String) -> (m: String)
    ensures
        m@ == permission_text(path@),
{
    let m = "Path not permitted: ".to_owned();
    m.concat(path.as_str())
}

/// Take one step of a job: from the stage it is in and what its driver
/// reports, to the stage it enters, the notification to publish, what the
/// driver does next and, where the step ends the job, its outcome. An event
/// that the stage does not wait for changes nothing.
pub fn advance(job: &ProcessJob, stage: Stage, event: JobEvent) -> (step: Step)
    ensures
        step@ == step_spec(job@, stage, event@),
        job@.wf(),
{
    let _ = job.index();
    match event {
        JobEvent::Authorized { input, output } => match stage {
            Stage::Pending => {
                if !input {
                    fail(job, FailureKind::PermissionDenied, refusal(job.input_path()))
                } else if !output {
                    fail(job, FailureKind::PermissionDenied, refusal(job.output_path()))
                } else if !has_allowed_extension(job.output_path().as_str()) {
                    fail(job, FailureKind::UnsupportedExtension, invalid_extension_message())
                } else {
                    let decoder = if is_raw_path(job.input_path().as_str()) {
                        DecoderKind::Raw
                    } else {
                        DecoderKind::Generic
                    };
                    move_on(job, Stage::Decoding, JobAction::Decode(decoder))
                }
            },
            _ => stay(stage),
        },
        JobEvent::Done => match stage {
            Stage::Decoding => move_on(job, Stage::Filtering, JobAction::Filter),
            Stage::Filtering => move_on(job, Stage::Saving, JobAction::Save),
            Stage::Saving => Step {
                stage: Stage::Completed,
                action: JobAction::Nothing,
                payload: Some(notify(job, Stage::Completed, None)),
                result: Some(
                    ProcessResult { success: true, path: job.output_path().clone(), error: None },
                ),
                failure: None,
            },
            _ => stay(stage),
        },
        JobEvent::Failed { kind, message } => if stage.terminal() {
            stay(stage)
        } else {
            fail(job, kind, message)
        },
    }
}

/// No job goes back: a step keeps the stage or enters one of higher rank.
pub proof fn lemma_step_never_goes_back(job: JobModel, stage: Stage, event: EventModel)
    ensures
        step_spec(job, stage, event).stage == stage || step_spec(job, stage, event).stage.rank()
            > stage.rank(),
{
}

/// A job that is over stays as it is: no step changes its stage, asks for
/// work, notifies or reports an outcome again.
pub proof fn lemma_terminal_stage_absorbs(job: JobModel, stage: Stage, event: EventModel)
    requires
        stage.is_terminal(),
    ensures
        step_spec(job, stage, event) == step_stay(stage),
{
}

/// One notification per stage entered: a step notifies exactly when it
/// changes the stage, under the label of the stage entered, with the job's
/// input path and its progress fraction.
pub proof fn lemma_one_notification_per_stage(job: JobModel, stage: Stage, event: EventModel)
    ensures
        step_spec(job, stage, event).payload is Some <==> step_spec(job, stage, event).stage
            != stage,
        step_spec(job, stage, event).payload matches Some(p) ==> {
            &&& p.stage == step_spec(job, stage, event).stage.label_text()
            &&& p.path == job.input_path
            &&& p.progress == job.progress
            &&& p.success == (step_spec(job, stage, event).stage != Stage::Failed)
            &&& p.error is Some <==> step_spec(job, stage, event).stage == Stage::Failed
        },
{
}

/// A job reports its outcome in the step that ends it, and only there; the
/// outcome is a success exactly for a job that completed, and a failure
/// carries its message and its kind.
pub proof fn lemma_outcome_at_the_end(job: JobModel, stage: Stage, event: EventModel)
    ensures
        step_spec(job, stage, event).result is Some <==> (!stage.is_terminal() && step_spec(
            job,
            stage,
            event,
        ).stage.is_terminal()),
        step_spec(job, stage, event).result matches Some(r) ==> {
            &&& r.path == job.output_path
            &&& r.success == (step_spec(job, stage, event).stage == Stage::Completed)
            &&& r.error is Some <==> !r.success
        },
        step_spec(job, stage, event).failure is Some <==> (stage != Stage::Failed && step_spec(
            job,
            stage,
            event,
        ).stage == Stage::Failed),
{
}

/// Nothing is decoded for a job whose paths the authorizer refuses, nor for
/// one whose output path has no allowed extension: the job fails at once.
pub proof fn lemma_refused_job_does_no_work(job: JobModel, input: bool, output: bool)
    requires
        !input || !output || !output_path_allowed(job.output_path),
    ensures
        step_spec(job, Stage::Pending, EventModel::Authorized { input, output }).stage
            == Stage::Failed,
        step_spec(job, Stage::Pending, EventModel::Authorized { input, output }).action
            == JobAction::Nothing,
        input && output ==> step_spec(
            job,
            Stage::Pending,
            EventModel::Authorized { input, output },
        ).failure == Some(FailureKind::UnsupportedExtension),
        !(input && output) ==> step_spec(
            job,
            Stage::Pending,
            EventModel::Authorized { input, output },
        ).failure == Some(FailureKind::PermissionDenied),
{
}

/// Work is asked for in order: decoding on entering `Decoding`, filtering on
/// entering `Filtering`, saving on entering `Saving`, and nothing otherwise.
pub proof fn lemma_action_follows_stage(job: JobModel, stage: Stage, event: EventModel)
    ensures
        step_spec(job, stage, event).action is Decode <==> (stage == Stage::Pending && step_spec(
            job,
            stage,
            event,
        ).stage == Stage::Decoding),
        step_spec(job, stage, event).action == JobAction::Filter <==> (stage == Stage::Decoding
            && step_spec(job, stage, event).stage == Stage::Filtering),
        step_spec(job, stage, event).action == JobAction::Save <==> (stage == Stage::Filtering
            && step_spec(job, stage, event).stage == Stage::Saving),
{
}

} // verus!
