//! The registrar: the decisions of one registration run.
//!
//! A run is driven by the caller, who owns the environment and the
//! filesystem. The caller first asks for a plan; `None` means that no
//! registration was requested and nothing may be touched. With a plan in
//! hand, the caller creates the marker file and reports the outcome to
//! [`marker_step_outcome`]; on success it copies the manifest and reports to
//! [`copy_step_verdict`]; and when that verdict demands it, it removes the
//! marker again and reports to [`cleanup_step_outcome`]. Each step function
//! pins down exactly which verdict or error every outcome produces, and the
//! spec-level run model at the end of this module states the laws that the
//! resulting runs obey.

use vstd::prelude::*;
use vstd::string::StringExecFns;

use crate::paths::manifest_dest_spec;
use crate::paths::manifest_dir_spec;
use crate::paths::manifest_src_spec;
use crate::paths::marker_dir_spec;
use crate::paths::marker_path_spec;
use crate::paths::manifest_dest_path;
use crate::paths::manifest_dir;
use crate::paths::manifest_source_path;
use crate::paths::marker_dir;
use crate::paths::marker_path;

verus! {

/// Why a registration run failed. Every failure is fatal to the run; the
/// variants are distinguishable so that a clean failure, with nothing left
/// behind, can be told apart from an inconsistent one.
#[derive(Debug, Clone)]
pub enum RegistrationError {
    /// The marker file could not be created. Nothing was registered and no
    /// cleanup was needed.
    MarkerCreationFailed { path: String, cause: String },
    /// The manifest could not be copied, and the marker created just before
    /// was removed again: nothing is left behind.
    ManifestCopyFailed { src: String, dest: String, cause: String },
    /// The manifest could not be copied and the marker could not be removed
    /// either: a marker is left behind without a manifest, an inconsistent
    /// state that the caller must not paper over.
    CleanupFailed { path: String, cause: String },
}

impl RegistrationError {
    /// The human-readable description of a failure: it names the failed
    /// path(s) and the underlying cause.
    pub open spec fn message_spec(&self) -> Seq<char> {
        match self {
            RegistrationError::MarkerCreationFailed { path, cause } => "could not create marker file at "@
                + path@ + ": "@ + cause@,
            RegistrationError::ManifestCopyFailed { src, dest, cause } => "could not copy manifest "@
                + src@ + " to "@ + dest@ + ": "@ + cause@,
            RegistrationError::CleanupFailed { path, cause } => "could not remove marker file at "@
                + path@ + " after a failed manifest copy: "@ + cause@,
        }
    }

    /// Renders the failure for an operator, naming the failed path(s) and the
    /// underlying cause.
    pub fn message(&self) -> (r: String)
        ensures
            r@ == self.message_spec(),
    {
        match self {
            RegistrationError::MarkerCreationFailed { path, cause } => {
                let mut s: String = "could not create marker file at ".to_owned();
                s.append(path.as_str());
                s.append(": ");
                s.append(cause.as_str());
                s
            },
            RegistrationError::ManifestCopyFailed { src, dest, cause } => {
                let mut s: String = "could not copy manifest ".to_owned();
                s.append(src.as_str());
                s.append(" to ");
                s.append(dest.as_str());
                s.append(": ");
                s.append(cause.as_str());
                s
            },
            RegistrationError::CleanupFailed { path, cause } => {
                let mut s: String = "could not remove marker file at ".to_owned();
                s.append(path.as_str());
                s.append(" after a failed manifest copy: ");
                s.append(cause.as_str());
                s
            },
        }
    }
}

/// The paths of one registration run, all derived from the workspace root,
/// the install base, the package name and the package's source directory.
pub struct RegistrationPlan {
    /// The directory that holds the marker files of every registered package.
    pub marker_dir: String,
    /// The marker file to create: an empty file named after the package.
    pub marker_path: String,
    /// The manifest to copy, inside the package's source directory.
    pub manifest_src: String,
    /// The directory that receives the manifest copy.
    pub manifest_dest_dir: String,
    /// The destination of the manifest copy.
    pub manifest_dest: String,
}

/// A plan is for the given inputs when every path in it is the one computed
/// from them.
pub open spec fn plan_for(
    plan: RegistrationPlan,
    ws_root: Seq<char>,
    install_base: Seq<char>,
    pkg_name: Seq<char>,
    pkg_source_dir: Seq<char>,
) -> bool {
    &&& plan.marker_dir@ == marker_dir_spec(ws_root, install_base)
    &&& plan.marker_path@ == marker_path_spec(ws_root, install_base, pkg_name)
    &&& plan.manifest_src@ == manifest_src_spec(pkg_source_dir)
    &&& plan.manifest_dest_dir@ == manifest_dir_spec(ws_root, install_base, pkg_name)
    &&& plan.manifest_dest@ == manifest_dest_spec(ws_root, install_base, pkg_name)
}

/// A registration is requested exactly when both environment values — the
/// workspace root and the install base — are present and non-empty.
pub open spec fn registration_requested(
    ws_root: Option<Seq<char>>,
    install_base: Option<Seq<char>>,
) -> bool {
    &&& ws_root matches Some(w) && w.len() > 0
    &&& install_base matches Some(b) && b.len() > 0
}

/// Decides whether the two environment values request a registration, and if
/// so, computes every path the run will touch. `None` is the expected
/// no-registration case, not a failure: the caller must then do nothing.
pub fn plan_registration(
    ws_root: Option<&str>,
    install_base: Option<&str>,
    pkg_name: &str,
    pkg_source_dir: &str,
) -> (r: Option<RegistrationPlan>)
    ensures
        r is Some <==> registration_requested(ws_root.deep_view(), install_base.deep_view()),
        r matches Some(plan) ==> (ws_root matches Some(ws) && install_base matches Some(base)
            && plan_for(plan, ws@, base@, pkg_name@, pkg_source_dir@)),
{
    match (ws_root, install_base) {
        (Some(ws), Some(base)) => {
            if !ws.is_empty() && !base.is_empty() {
                Some(
                    RegistrationPlan {
                        marker_dir: marker_dir(ws, base),
                        marker_path: marker_path(ws, base, pkg_name),
                        manifest_src: manifest_source_path(pkg_source_dir),
                        manifest_dest_dir: manifest_dir(ws, base, pkg_name),
                        manifest_dest: manifest_dest_path(ws, base, pkg_name),
                    },
                )
            } else {
                None
            }
        },
        _ => None,
    }
}

/// Decides how the run goes on after the marker-creation step: on success the
/// run proceeds to the manifest copy; on failure it aborts at once — nothing
/// was created, so nothing needs cleaning up.
pub fn marker_step_outcome(plan: &RegistrationPlan, marker_result: Result<(), String>) -> (r:
    Result<(), RegistrationError>)
    ensures
        r is Ok <==> marker_result is Ok,
        marker_result matches Err(why) ==> (r matches Err(
            RegistrationError::MarkerCreationFailed { path, cause },
        ) && path@ == plan.marker_path@ && cause@ == why@),
{
    match marker_result {
        Ok(()) => Ok(()),
        Err(why) => Err(
            RegistrationError::MarkerCreationFailed {
                path: plan.marker_path.clone(),
                cause: why,
            },
        ),
    }
}

/// What the registrar demands after the manifest-copy step.
pub enum CopyVerdict {
    /// The copy succeeded: both artifacts exist and the run is complete.
    Complete,
    /// The copy failed: the marker created just before must be removed, so
    /// that no marker outlives a failed manifest copy. The caller removes it
    /// and reports the outcome to [`cleanup_step_outcome`].
    RemoveMarker { cause: String },
}

/// Decides how the run goes on after the manifest-copy step: on success the
/// run is complete; on failure the marker must be removed again.
pub fn copy_step_verdict(copy_result: Result<(), String>) -> (r: CopyVerdict)
    ensures
        r is Complete <==> copy_result is Ok,
        copy_result matches Err(why) ==> (r matches CopyVerdict::RemoveMarker { cause } && cause@
            == why@),
{
    match copy_result {
        Ok(()) => CopyVerdict::Complete,
        Err(why) => CopyVerdict::RemoveMarker { cause: why },
    }
}

/// Decides the final error of a run whose manifest copy failed, from the
/// outcome of removing the marker again: a successful removal is the clean
/// failure, a failed removal the inconsistent one.
pub fn cleanup_step_outcome(
    plan: &RegistrationPlan,
    copy_cause: String,
    cleanup_result: Result<(), String>,
) -> (r: RegistrationError)
    ensures
        r is CleanupFailed <==> cleanup_result is Err,
        cleanup_result is Ok ==> (r matches RegistrationError::ManifestCopyFailed {
            src,
            dest,
            cause,
        } && src@ == plan.manifest_src@ && dest@ == plan.manifest_dest@ && cause@ == copy_cause@),
        cleanup_result matches Err(why) ==> (r matches RegistrationError::CleanupFailed {
            path,
            cause,
        } && path@ == plan.marker_path@ && cause@ == why@),
{
    match cleanup_result {
        Ok(()) => RegistrationError::ManifestCopyFailed {
            src: plan.manifest_src.clone(),
            dest: plan.manifest_dest.clone(),
            cause: copy_cause,
        },
        Err(why) => RegistrationError::CleanupFailed {
            path: plan.marker_path.clone(),
            cause: why,
        },
    }
}

/// The terminal state of one registration run.
#[derive(Debug, Clone, Copy, PartialEq, Eq, Structural)]
pub enum RunState {
    /// No registration was requested; nothing was touched.
    NotRequested,
    /// Both artifacts — the marker and the manifest copy — were created.
    Registered,
    /// The marker could not be created; nothing was created.
    MarkerFailed,
    /// The manifest copy failed and the marker was removed again; no marker
    /// is left behind.
    RolledBack,
    /// The manifest copy failed and the marker could not be removed: a marker
    /// is left behind without a manifest.
    Inconsistent,
}

/// How a run ends, given whether a registration was requested and how each
/// filesystem step went. The steps happen in the order the step functions
/// demand: the manifest copy runs only after the marker step succeeded, and
/// the marker removal only after the copy failed, so the later outcome
/// arguments matter only on those branches.
pub open spec fn run_state(
    requested: bool,
    marker_ok: bool,
    copy_ok: bool,
    cleanup_ok: bool,
) -> RunState {
    if !requested {
        RunState::NotRequested
    } else if !marker_ok {
        RunState::MarkerFailed
    } else if copy_ok {
        RunState::Registered
    } else if cleanup_ok {
        RunState::RolledBack
    } else {
        RunState::Inconsistent
    }
}

/// Whether the marker file exists once the run has ended.
pub open spec fn marker_exists(s: RunState) -> bool {
    s is Registered || s is Inconsistent
}

/// Whether the manifest copy was installed completely once the run has ended.
/// A failed copy may leave a partial file at the destination; only a
/// completed run guarantees the copy.
pub open spec fn manifest_installed(s: RunState) -> bool {
    s is Registered
}

/// Whether the run counts as a success: either nothing was requested or both
/// artifacts were installed.
pub open spec fn run_succeeded(s: RunState) -> bool {
    s is NotRequested || s is Registered
}

/// Law: when either environment value is absent or empty, no registration is
/// requested, so every run ends untouched and successful, whatever the
/// filesystem would have answered.
pub proof fn lemma_noop_when_unconfigured(
    ws_root: Option<Seq<char>>,
    install_base: Option<Seq<char>>,
    marker_ok: bool,
    copy_ok: bool,
    cleanup_ok: bool,
)
    requires
        !registration_requested(ws_root, install_base),
    ensures
        run_state(registration_requested(ws_root, install_base), marker_ok, copy_ok, cleanup_ok)
            == RunState::NotRequested,
        !marker_exists(
            run_state(
                registration_requested(ws_root, install_base),
                marker_ok,
                copy_ok,
                cleanup_ok,
            ),
        ),
        !manifest_installed(
            run_state(
                registration_requested(ws_root, install_base),
                marker_ok,
                copy_ok,
                cleanup_ok,
            ),
        ),
        run_succeeded(
            run_state(
                registration_requested(ws_root, install_base),
                marker_ok,
                copy_ok,
                cleanup_ok,
            ),
        ),
{
}

/// Law: a requested run succeeds only when both the marker step and the
/// manifest copy succeeded, and then both artifacts exist. (A run that was
/// never requested also counts as a success, while creating nothing.)
pub proof fn lemma_success_invariant(marker_ok: bool, copy_ok: bool, cleanup_ok: bool)
    requires
        run_succeeded(run_state(true, marker_ok, copy_ok, cleanup_ok)),
    ensures
        marker_exists(run_state(true, marker_ok, copy_ok, cleanup_ok)),
        manifest_installed(run_state(true, marker_ok, copy_ok, cleanup_ok)),
        marker_ok && copy_ok,
{
}

/// Law: when the manifest copy fails and the marker removal succeeds, the run
/// ends rolled back — the marker does not exist afterwards.
pub proof fn lemma_rollback_invariant(requested: bool, marker_ok: bool)
    ensures
        !marker_exists(run_state(requested, marker_ok, false, true)),
        run_state(requested, marker_ok, false, true) !is Registered,
{
}

/// Law: at the end of any run, a marker without an installed manifest exists
/// only in the one state in which the cleanup itself failed.
pub proof fn lemma_marker_implies_manifest(
    requested: bool,
    marker_ok: bool,
    copy_ok: bool,
    cleanup_ok: bool,
)
    ensures
        marker_exists(run_state(requested, marker_ok, copy_ok, cleanup_ok)) && !manifest_installed(
            run_state(requested, marker_ok, copy_ok, cleanup_ok),
        ) ==> run_state(requested, marker_ok, copy_ok, cleanup_ok) is Inconsistent,
{
}

} // verus!
