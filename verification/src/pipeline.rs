//! The request orchestrator: one state machine per in-flight request,
//! composing validation, staging, build invocation, artifact retrieval and
//! teardown into a single request-to-response pipeline. The machine decides;
//! the surrounding runtime performs each returned action (create the
//! workspace, run the tool, read the artifact, remove the workspace) and
//! feeds the observed event back in. Every path ends in exactly one
//! response, and teardown precedes it whenever staging was ever begun.

use vstd::prelude::*;
use crate::http::{
    HttpResponse, RespBody, FixedMsg, rejection_response_spec, rejection_response, STATUS_OK,
    STATUS_BAD_REQUEST, STATUS_UNSUPPORTED_MEDIA_TYPE, STATUS_INTERNAL_ERROR, STATUS_SERVICE_BUSY,
};
use crate::manifest::{Payload, Manifest, Rejection, rejection_of, staged_files_match, validate};

verus! {

/// The resource bounds a pipeline enforces on what the build hands back.
#[derive(Clone, Copy, Debug, PartialEq, Eq, Structural)]
pub struct BuildLimits {
    /// Captured diagnostic output is cut off beyond this many bytes.
    pub max_output_bytes: usize,
    /// An artifact larger than this is refused rather than truncated.
    pub max_artifact_bytes: usize,
}

/// `s` cut off at `cap` bytes.
pub open spec fn clip(s: Seq<u8>, cap: int) -> Seq<u8> {
    if s.len() <= cap {
        s
    } else {
        s.subrange(0, cap)
    }
}

/// Cuts captured output off at `cap` bytes, so a verbose build cannot grow
/// the response without bound.
pub fn truncate_output(out: Vec<u8>, cap: usize) -> (r: Vec<u8>)
    ensures
        r@ == clip(out@, cap as int),
{
    let mut out = out;
    out.truncate(cap);
    out
}

/// The decided fate of one request, fixed before teardown and turned into
/// the response after it.
pub enum Outcome {
    /// Not decided yet.
    Undecided,
    /// The build succeeded and the artifact was read.
    Success(Vec<u8>),
    /// The build tool exited non-zero; its diagnostic is safe to return.
    ToolchainFailure(Vec<u8>),
    /// The build exceeded its wall-clock bound.
    TimedOut,
    /// A staging, filesystem, launch or toolchain-contract failure.
    InternalFailure,
}

/// Where the pipeline stands: each phase names the action it has issued and
/// now awaits the result of.
#[derive(Clone, Copy, Debug, PartialEq, Eq, Structural)]
pub enum Phase {
    AwaitingSlot,
    AwaitingStage,
    AwaitingBuild,
    AwaitingArtifact,
    AwaitingTeardown,
    Done,
}

/// What the runtime observed while performing the last action.
pub enum BuildEvent {
    /// A build slot was granted.
    SlotGranted,
    /// No slot became free within the wait bound.
    SlotUnavailable,
    /// The workspace was created and every file staged.
    StageSucceeded,
    /// Creating the workspace or writing some file failed.
    StageFailed,
    /// The build tool ran to completion.
    BuildExited { exit_ok: bool, stderr: Vec<u8> },
    /// The build tool was killed at the wall-clock bound.
    BuildTimedOut,
    /// The build tool could not be launched at all.
    BuildLaunchFailed,
    /// The artifact was read.
    ArtifactRead { bytes: Vec<u8> },
    /// The tool reported success but left no artifact behind.
    ArtifactMissing,
    /// The artifact exists but could not be read.
    ArtifactReadFailed,
    /// The workspace no longer exists.
    TeardownComplete,
}

/// What the runtime must do next.
pub enum BuildAction {
    /// Wait for a build slot.
    AcquireSlot,
    /// Create the workspace, stage the manifest's files and the scaffolding.
    StageWorkspace,
    /// Run the build tool in the workspace under the configured bounds.
    RunBuild,
    /// Read the artifact from its conventional location.
    ReadArtifact,
    /// Remove the workspace; safe on a partially-created one.
    TearDown,
    /// Send this response; the request is over.
    Respond(HttpResponse),
}

/// One request's state machine.
pub struct Pipeline {
    pub phase: Phase,
    /// Staging was begun, so a workspace directory may exist.
    pub staged: bool,
    /// The workspace is gone again.
    pub torn_down: bool,
    /// A build slot is held.
    pub slot_held: bool,
    /// The decided outcome, once there is one.
    pub pending: Outcome,
    pub limits: BuildLimits,
}

pub open spec fn busy_response_spec() -> HttpResponse {
    HttpResponse { status: STATUS_SERVICE_BUSY, body: RespBody::Fixed(FixedMsg::Busy) }
}

pub open spec fn unsupported_media_response_spec() -> HttpResponse {
    HttpResponse {
        status: STATUS_UNSUPPORTED_MEDIA_TYPE,
        body: RespBody::Fixed(FixedMsg::NeedJsonContentType),
    }
}

pub open spec fn parse_error_response_spec() -> HttpResponse {
    HttpResponse { status: STATUS_BAD_REQUEST, body: RespBody::Fixed(FixedMsg::JsonParseError) }
}

/// The response owed to each decided outcome.
pub open spec fn outcome_response_spec(o: Outcome) -> HttpResponse {
    match o {
        Outcome::Success(b) => HttpResponse { status: STATUS_OK, body: RespBody::Artifact(b) },
        Outcome::ToolchainFailure(d) => HttpResponse {
            status: STATUS_BAD_REQUEST,
            body: RespBody::Diagnostic(d),
        },
        Outcome::TimedOut => HttpResponse {
            status: STATUS_BAD_REQUEST,
            body: RespBody::Fixed(FixedMsg::BuildTimedOut),
        },
        Outcome::InternalFailure => HttpResponse {
            status: STATUS_INTERNAL_ERROR,
            body: RespBody::Fixed(FixedMsg::InternalError),
        },
        Outcome::Undecided => HttpResponse {
            status: STATUS_INTERNAL_ERROR,
            body: RespBody::Fixed(FixedMsg::InternalError),
        },
    }
}

pub fn outcome_response(o: Outcome) -> (r: HttpResponse)
    ensures
        r == outcome_response_spec(o),
{
    match o {
        Outcome::Success(b) => HttpResponse { status: STATUS_OK, body: RespBody::Artifact(b) },
        Outcome::ToolchainFailure(d) => HttpResponse {
            status: STATUS_BAD_REQUEST,
            body: RespBody::Diagnostic(d),
        },
        Outcome::TimedOut => HttpResponse {
            status: STATUS_BAD_REQUEST,
            body: RespBody::Fixed(FixedMsg::BuildTimedOut),
        },
        Outcome::InternalFailure => HttpResponse {
            status: STATUS_INTERNAL_ERROR,
            body: RespBody::Fixed(FixedMsg::InternalError),
        },
        Outcome::Undecided => HttpResponse {
            status: STATUS_INTERNAL_ERROR,
            body: RespBody::Fixed(FixedMsg::InternalError),
        },
    }
}

impl Pipeline {
    /// Every reachable pipeline state satisfies this. In particular: a slot
    /// and a possibly-existing workspace are held exactly through the middle
    /// phases, an outcome is decided exactly when teardown is awaited, and a
    /// finished request holds no slot and no workspace.
    pub open spec fn wf(self) -> bool {
        match self.phase {
            Phase::AwaitingSlot => !self.staged && !self.slot_held && !self.torn_down
                && self.pending is Undecided,
            Phase::AwaitingStage => self.slot_held && self.staged && !self.torn_down
                && self.pending is Undecided,
            Phase::AwaitingBuild => self.slot_held && self.staged && !self.torn_down
                && self.pending is Undecided,
            Phase::AwaitingArtifact => self.slot_held && self.staged && !self.torn_down
                && self.pending is Undecided,
            Phase::AwaitingTeardown => self.slot_held && self.staged && !self.torn_down
                && !(self.pending is Undecided),
            Phase::Done => !self.slot_held && (self.staged ==> self.torn_down),
        }
    }
}

/// Which events can answer which phase's outstanding action.
pub open spec fn phase_accepts(phase: Phase, ev: BuildEvent) -> bool {
    match phase {
        Phase::AwaitingSlot => ev is SlotGranted || ev is SlotUnavailable,
        Phase::AwaitingStage => ev is StageSucceeded || ev is StageFailed,
        Phase::AwaitingBuild => ev is BuildExited || ev is BuildTimedOut
            || ev is BuildLaunchFailed,
        Phase::AwaitingArtifact => ev is ArtifactRead || ev is ArtifactMissing
            || ev is ArtifactReadFailed,
        Phase::AwaitingTeardown => ev is TeardownComplete,
        Phase::Done => false,
    }
}

/// What `start` promises, whatever the decoded payload was: a request with
/// no JSON content type is answered `415` at once; an undecodable body
/// `400`; a rejected payload its rejection's response — all without staging
/// or a slot. Only a validated manifest proceeds, handed back beside a
/// pipeline waiting for a slot.
pub open spec fn start_post(
    limits: BuildLimits,
    has_json_ct: bool,
    payload: Option<Payload>,
    p: Pipeline,
    a: BuildAction,
    m: Option<Manifest>,
) -> bool {
    &&& p.wf()
    &&& p.limits == limits
    &&& !p.torn_down
    &&& if !has_json_ct {
        &&& p.phase is Done
        &&& !p.staged
        &&& a == BuildAction::Respond(unsupported_media_response_spec())
        &&& m is None
    } else {
        match payload {
            None => {
                &&& p.phase is Done
                &&& !p.staged
                &&& a == BuildAction::Respond(parse_error_response_spec())
                &&& m is None
            },
            Some(pl) => match rejection_of(pl) {
                Some(rej) => {
                    &&& p.phase is Done
                    &&& !p.staged
                    &&& a == BuildAction::Respond(rejection_response_spec(rej))
                    &&& m is None
                },
                None => {
                    &&& p.phase is AwaitingSlot
                    &&& a is AcquireSlot
                    &&& (m matches Some(man) && pl matches Payload::Object(es)
                        && staged_files_match(man.files@, es@))
                },
            },
        }
    }
}

/// Begins a request from the screened inputs: the content-type verdict and
/// the decoded body, if it decoded. Performs the single validation pass.
pub fn start(limits: BuildLimits, has_json_ct: bool, payload: Option<Payload>) -> (r: (
    Pipeline,
    BuildAction,
    Option<Manifest>,
))
    ensures
        start_post(limits, has_json_ct, payload, r.0, r.1, r.2),
{
    if !has_json_ct {
        let p = Pipeline {
            phase: Phase::Done,
            staged: false,
            torn_down: false,
            slot_held: false,
            pending: Outcome::Undecided,
            limits,
        };
        let resp = HttpResponse {
            status: STATUS_UNSUPPORTED_MEDIA_TYPE,
            body: RespBody::Fixed(FixedMsg::NeedJsonContentType),
        };
        return (p, BuildAction::Respond(resp), None);
    }
    match payload {
        None => {
            let p = Pipeline {
                phase: Phase::Done,
                staged: false,
                torn_down: false,
                slot_held: false,
                pending: Outcome::Undecided,
                limits,
            };
            let resp = HttpResponse {
                status: STATUS_BAD_REQUEST,
                body: RespBody::Fixed(FixedMsg::JsonParseError),
            };
            (p, BuildAction::Respond(resp), None)
        },
        Some(pl) => match validate(pl) {
            Err(rej) => {
                let p = Pipeline {
                    phase: Phase::Done,
                    staged: false,
                    torn_down: false,
                    slot_held: false,
                    pending: Outcome::Undecided,
                    limits,
                };
                (p, BuildAction::Respond(rejection_response(rej)), None)
            },
            Ok(man) => {
                let p = Pipeline {
                    phase: Phase::AwaitingSlot,
                    staged: false,
                    torn_down: false,
                    slot_held: false,
                    pending: Outcome::Undecided,
                    limits,
                };
                (p, BuildAction::AcquireSlot, Some(man))
            },
        },
    }
}

/// Begins a request straight from the body bytes: exactly `start` applied
/// to what the decoder yields on them. When the content-type gate failed,
/// the `415` answer is owed whatever the body holds, so the body is never
/// decoded.
pub fn start_from_bytes(limits: BuildLimits, has_json_ct: bool, body: &Vec<u8>) -> (r: (
    Pipeline,
    BuildAction,
    Option<Manifest>,
))
    ensures
        start_post(limits, has_json_ct, crate::manifest::decoded_of(body@), r.0, r.1, r.2),
{
    if !has_json_ct {
        let r = start(limits, has_json_ct, None);
        proof {
            assert(start_post(
                limits,
                has_json_ct,
                crate::manifest::decoded_of(body@),
                r.0,
                r.1,
                r.2,
            ));
        }
        r
    } else {
        let payload = crate::manifest::decode_json(body);
        start(limits, has_json_ct, payload)
    }
}

impl Pipeline {
    /// Advances the machine by one observed event and returns the next
    /// action. The ensures clauses below are the transition relation: one
    /// clause per event, each pinning the next phase, the bookkeeping, and
    /// the action handed back.
    pub fn on_event(&mut self, ev: BuildEvent) -> (a: BuildAction)
        requires
            old(self).wf(),
            phase_accepts(old(self).phase, ev),
        ensures
            final(self).wf(),
            final(self).limits == old(self).limits,
            (old(self).staged ==> final(self).staged),
            (ev is SlotGranted ==> final(self).phase is AwaitingStage && final(self).staged
                && final(self).slot_held && a is StageWorkspace),
            (ev is SlotUnavailable ==> final(self).phase is Done && !final(self).staged
                && a == BuildAction::Respond(busy_response_spec())),
            (ev is StageSucceeded ==> final(self).phase is AwaitingBuild && a is RunBuild),
            (ev is StageFailed ==> final(self).phase is AwaitingTeardown
                && final(self).pending is InternalFailure && a is TearDown),
            (ev matches BuildEvent::BuildExited { exit_ok, stderr } ==> (if exit_ok {
                final(self).phase is AwaitingArtifact && a is ReadArtifact
            } else {
                final(self).phase is AwaitingTeardown && a is TearDown
                    && (final(self).pending matches Outcome::ToolchainFailure(d)
                        && d@ == clip(stderr@, old(self).limits.max_output_bytes as int))
            })),
            (ev is BuildTimedOut ==> final(self).phase is AwaitingTeardown
                && final(self).pending is TimedOut && a is TearDown),
            (ev is BuildLaunchFailed ==> final(self).phase is AwaitingTeardown
                && final(self).pending is InternalFailure && a is TearDown),
            (ev matches BuildEvent::ArtifactRead { bytes } ==> final(self).phase
                is AwaitingTeardown && a is TearDown
                && (if bytes@.len() <= old(self).limits.max_artifact_bytes {
                final(self).pending matches Outcome::Success(b) && b@ == bytes@
            } else {
                final(self).pending is InternalFailure
            })),
            (ev is ArtifactMissing ==> final(self).phase is AwaitingTeardown
                && final(self).pending is InternalFailure && a is TearDown),
            (ev is ArtifactReadFailed ==> final(self).phase is AwaitingTeardown
                && final(self).pending is InternalFailure && a is TearDown),
            (ev is TeardownComplete ==> final(self).phase is Done && final(self).torn_down
                && !final(self).slot_held
                && a == BuildAction::Respond(outcome_response_spec(old(self).pending))),
    {
        match ev {
            BuildEvent::SlotGranted => {
                self.phase = Phase::AwaitingStage;
                self.slot_held = true;
                self.staged = true;
                BuildAction::StageWorkspace
            },
            BuildEvent::SlotUnavailable => {
                self.phase = Phase::Done;
                BuildAction::Respond(HttpResponse {
                    status: STATUS_SERVICE_BUSY,
                    body: RespBody::Fixed(FixedMsg::Busy),
                })
            },
            BuildEvent::StageSucceeded => {
                self.phase = Phase::AwaitingBuild;
                BuildAction::RunBuild
            },
            BuildEvent::StageFailed => {
                self.phase = Phase::AwaitingTeardown;
                self.pending = Outcome::InternalFailure;
                BuildAction::TearDown
            },
            BuildEvent::BuildExited { exit_ok, stderr } => {
                if exit_ok {
                    self.phase = Phase::AwaitingArtifact;
                    BuildAction::ReadArtifact
                } else {
                    let cap = self.limits.max_output_bytes;
                    self.phase = Phase::AwaitingTeardown;
                    self.pending = Outcome::ToolchainFailure(truncate_output(stderr, cap));
                    BuildAction::TearDown
                }
            },
            BuildEvent::BuildTimedOut => {
                self.phase = Phase::AwaitingTeardown;
                self.pending = Outcome::TimedOut;
                BuildAction::TearDown
            },
            BuildEvent::BuildLaunchFailed => {
                self.phase = Phase::AwaitingTeardown;
                self.pending = Outcome::InternalFailure;
                BuildAction::TearDown
            },
            BuildEvent::ArtifactRead { bytes } => {
                self.phase = Phase::AwaitingTeardown;
                if bytes.len() <= self.limits.max_artifact_bytes {
                    self.pending = Outcome::Success(bytes);
                } else {
                    self.pending = Outcome::InternalFailure;
                }
                BuildAction::TearDown
            },
            BuildEvent::ArtifactMissing => {
                self.phase = Phase::AwaitingTeardown;
                self.pending = Outcome::InternalFailure;
                BuildAction::TearDown
            },
            BuildEvent::ArtifactReadFailed => {
                self.phase = Phase::AwaitingTeardown;
                self.pending = Outcome::InternalFailure;
                BuildAction::TearDown
            },
            BuildEvent::TeardownComplete => {
                self.phase = Phase::Done;
                self.torn_down = true;
                self.slot_held = false;
                let mut out = Outcome::Undecided;
                core::mem::swap(&mut self.pending, &mut out);
                BuildAction::Respond(outcome_response(out))
            },
        }
    }
}

/// Teardown invariant: once a request has produced its response, its
/// workspace — if one was ever staged — has been torn down, and no build
/// slot is still held.
pub proof fn lemma_done_implies_torn_down(p: Pipeline)
    requires
        p.wf(),
        p.phase is Done,
    ensures
        p.staged ==> p.torn_down,
        !p.slot_held,
{
}

/// A manifest holding a key with a parent-directory traversal or an
/// absolute path is answered `403` at once, with no workspace staged and
/// no slot taken.
pub proof fn lemma_traversal_request_rejected(
    limits: BuildLimits,
    payload: Payload,
    i: int,
    p: Pipeline,
    a: BuildAction,
    m: Option<Manifest>,
)
    requires
        start_post(limits, true, Some(payload), p, a, m),
        payload matches Payload::Object(es) && 0 <= i < es@.len()
            && (crate::bytescan::contains_seq(es@[i].0@, crate::manifest::dot_dot())
                || (es@[i].0@.len() > 0 && es@[i].0@[0] == crate::manifest::SLASH_BYTE)),
    ensures
        p.phase is Done,
        !p.staged,
        !p.slot_held,
        a == BuildAction::Respond(rejection_response_spec(Rejection::RejectedFilename)),
{
    crate::manifest::lemma_traversal_or_absolute_rejected(payload, i);
}

/// A manifest holding a key without the required source suffix is answered
/// `403` at once, with no workspace staged and no slot taken.
pub proof fn lemma_missing_suffix_request_rejected(
    limits: BuildLimits,
    payload: Payload,
    i: int,
    p: Pipeline,
    a: BuildAction,
    m: Option<Manifest>,
)
    requires
        start_post(limits, true, Some(payload), p, a, m),
        payload matches Payload::Object(es) && 0 <= i < es@.len()
            && !crate::bytescan::ends_with(es@[i].0@, crate::manifest::source_suffix()),
    ensures
        p.phase is Done,
        !p.staged,
        !p.slot_held,
        a == BuildAction::Respond(rejection_response_spec(Rejection::RejectedFilename)),
{
    crate::manifest::lemma_missing_suffix_rejected(payload, i);
}

} // verus!
