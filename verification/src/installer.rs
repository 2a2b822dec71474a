//! The order of the silent installation: each outcome that the application
//! reports (an event) moves the installation to its next stage and names the
//! next thing to do (an action). The application performs the actions; the
//! decisions are made here.

use vstd::prelude::*;
use crate::install::{install_script, mount_point_spec, parse_hdiutil_mount_point, script_spec, utf8_lossy};
use crate::paths::{
    AppPath, bundle_len, lemma_bundle_len, containing_dir, containing_dir_spec, find_app_bundle, join, render,
    render_spec, staging_path,
};

verus! {

/// Why an installation stopped.
#[derive(Debug)]
pub enum InstallError {
    /// The downloaded disk image is not there.
    MissingImage { path: String },
    /// The path of the running executable could not be read.
    NoExecutablePath,
    /// The disk image could not be handed to Finder.
    FinderOpenFailed,
    /// `hdiutil` could not be run.
    AttachNotRun,
    /// `hdiutil attach` reported failure, with what it wrote to standard error.
    AttachFailed { stderr: String },
    /// The output of `hdiutil attach` names no mount point.
    NoMountPoint,
    /// The mounted volume holds no `.app` bundle.
    NoAppInImage,
    /// `cp` could not be run.
    CopyNotRun,
    /// `cp -R` reported failure.
    CopyFailed,
    /// The replacement script could not be written.
    ScriptNotWritten,
    /// `chmod` could not be run on the script.
    PermissionNotSet,
    /// The replacement script could not be started.
    LaunchFailed,
}

/// The paths an installation works with once the running bundle is known.
#[derive(Debug)]
pub struct InstallPlan {
    /// The disk image, as given.
    pub dmg_path: String,
    /// The running application bundle.
    pub bundle: AppPath,
    /// Where the new bundle is copied before it takes the old one's place.
    pub staging: AppPath,
    /// The directory of the disk image (or `/tmp`), removed at the end.
    pub work_dir: AppPath,
    /// The replacement script, inside the work directory.
    pub script: AppPath,
}

/// Where an installation stands: which outcome it waits for.
#[derive(Debug)]
pub enum InstallStage {
    AwaitingImageCheck { dmg_path: String, dmg: AppPath },
    AwaitingExecutable { dmg_path: String, dmg: AppPath },
    AwaitingFinder,
    AwaitingMount { plan: InstallPlan },
    AwaitingNewApp { plan: InstallPlan, mount_point: String },
    AwaitingCopy { plan: InstallPlan, mount_point: String },
    AwaitingScriptWrite { plan: InstallPlan },
    AwaitingPermission { plan: InstallPlan },
    AwaitingLaunch,
    Exited,
    Failed,
}

/// An outcome that the application reports.
#[derive(Debug)]
pub enum InstallEvent {
    /// Whether the disk image exists.
    ImageExists(bool),
    /// The path of the running executable, if it could be read.
    Executable(Option<AppPath>),
    /// Whether a process (`open` or the script) was started.
    Launched(bool),
    /// The result of `hdiutil attach -nobrowse -readonly -plist`: whether it
    /// ran, whether it succeeded, and its output.
    Attached { ran: bool, success: bool, stdout: Vec<u8>, stderr: String },
    /// The first `.app` found in the mounted volume, as text.
    NewApp(Option<String>),
    /// The result of `cp -R`: whether it ran and whether it succeeded.
    Copied { ran: bool, success: bool },
    /// Whether the script was written.
    ScriptWritten(bool),
    /// Whether `chmod +x` could be run on the script.
    PermissionSet(bool),
}

/// The next thing the application does.
#[derive(Debug)]
pub enum InstallAction {
    /// Check that the file exists.
    CheckImage { path: String },
    /// Read the path of the running executable.
    LocateExecutable,
    /// Start `open <path>` (installation by hand, outside a bundle), then exit.
    OpenInFinder { path: String },
    /// Run `hdiutil attach -nobrowse -readonly -plist <path>`.
    Attach { path: String },
    /// Look for the first `*.app` entry of the directory.
    FindApp { dir: String },
    /// Run `cp -R <from> <to>`.
    Copy { from: String, to: String },
    /// Write the script.
    WriteScript { path: String, contents: String },
    /// Run `chmod +x <path>`.
    SetExecutable { path: String },
    /// Start `bash <path>` and do not wait for it, then exit.
    LaunchScript { path: String },
    /// Exit the application with status 0.
    Exit,
    /// Stop with the error.
    Fail { error: InstallError },
}

/// Whether `event` is the outcome that `stage` waits for.
pub open spec fn fits_spec(stage: InstallStage, event: InstallEvent) -> bool {
    match stage {
        InstallStage::AwaitingImageCheck { .. } => event is ImageExists,
        InstallStage::AwaitingExecutable { .. } => event is Executable,
        InstallStage::AwaitingFinder => event is Launched,
        InstallStage::AwaitingMount { .. } => event is Attached,
        InstallStage::AwaitingNewApp { .. } => event is NewApp,
        InstallStage::AwaitingCopy { .. } => event is Copied,
        InstallStage::AwaitingScriptWrite { .. } => event is ScriptWritten,
        InstallStage::AwaitingPermission { .. } => event is PermissionSet,
        InstallStage::AwaitingLaunch => event is Launched,
        InstallStage::Exited => false,
        InstallStage::Failed => false,
    }
}

/// The plan for replacing the bundle of `exe` (its first `k` components),
/// with the disk image at `dmg_path` (`dmg` as components).
pub open spec fn plan_spec(
    plan: InstallPlan,
    dmg_path: String,
    dmg: AppPath,
    exe: AppPath,
    k: nat,
) -> bool {
    let bundle = exe.names().take(k as int);
    let dir = containing_dir_spec(dmg.has_root, dmg.names());
    &&& plan.dmg_path == dmg_path
    &&& plan.bundle.has_root == exe.has_root && plan.bundle.names() == bundle
    &&& plan.staging.has_root == exe.has_root && plan.staging.names() == bundle.drop_last().push(
        bundle.last() + ".new"@,
    )
    &&& (plan.work_dir.has_root, plan.work_dir.names()) == dir
    &&& plan.script.has_root == dir.0 && plan.script.names() == dir.1.push("install.sh"@)
}

/// The stage is `Failed` and the action stops with an error satisfying `which`.
pub open spec fn fails(next: InstallStage, action: InstallAction, which: spec_fn(InstallError) -> bool) -> bool {
    next is Failed && (action matches InstallAction::Fail { error } && which(error))
}

/// The displayed form of a path.
pub open spec fn shown(p: AppPath) -> Seq<char> {
    render_spec(p.has_root, p.names())
}

/// What one step of the installation does with an outcome.
pub open spec fn step_spec(
    stage: InstallStage,
    event: InstallEvent,
    next: InstallStage,
    action: InstallAction,
) -> bool {
    match stage {
        InstallStage::AwaitingImageCheck { dmg_path, dmg } => match event {
            InstallEvent::ImageExists(true) => next == (InstallStage::AwaitingExecutable {
                dmg_path,
                dmg,
            }) && action is LocateExecutable,
            _ => fails(next, action, |e: InstallError| e matches InstallError::MissingImage { path } && path == dmg_path),
        },
        InstallStage::AwaitingExecutable { dmg_path, dmg } => match event {
            InstallEvent::Executable(Some(exe)) => match bundle_len(exe.names()) {
                None => next is AwaitingFinder && action == (InstallAction::OpenInFinder {
                    path: dmg_path,
                }),
                Some(k) => next matches InstallStage::AwaitingMount { plan } && plan_spec(
                    plan,
                    dmg_path,
                    dmg,
                    exe,
                    k,
                ) && action == (InstallAction::Attach { path: dmg_path }),
            },
            _ => fails(next, action, |e: InstallError| e is NoExecutablePath),
        },
        InstallStage::AwaitingFinder => match event {
            InstallEvent::Launched(true) => next is Exited && action is Exit,
            _ => fails(next, action, |e: InstallError| e is FinderOpenFailed),
        },
        InstallStage::AwaitingMount { plan } => match event {
            InstallEvent::Attached { ran, success, stdout, stderr } => if !ran {
                fails(next, action, |e: InstallError| e is AttachNotRun)
            } else if !success {
                fails(next, action, |e: InstallError| e matches InstallError::AttachFailed { stderr: s } && s == stderr)
            } else {
                match mount_point_spec(utf8_lossy(stdout@)) {
                    None => fails(next, action, |e: InstallError| e is NoMountPoint),
                    Some(m) => {
                        &&& next matches InstallStage::AwaitingNewApp { plan: p, mount_point } && p
                            == plan && mount_point@ == m
                        &&& action matches InstallAction::FindApp { dir } && dir@ == m
                    },
                }
            },
            _ => false,
        },
        InstallStage::AwaitingNewApp { plan, mount_point } => match event {
            InstallEvent::NewApp(Some(app)) => {
                &&& next == (InstallStage::AwaitingCopy { plan, mount_point })
                &&& action matches InstallAction::Copy { from, to } && from == app && to@ == shown(
                    plan.staging,
                )
            },
            _ => fails(next, action, |e: InstallError| e is NoAppInImage),
        },
        InstallStage::AwaitingCopy { plan, mount_point } => match event {
            InstallEvent::Copied { ran, success } => if !ran {
                fails(next, action, |e: InstallError| e is CopyNotRun)
            } else if !success {
                fails(next, action, |e: InstallError| e is CopyFailed)
            } else {
                &&& next == (InstallStage::AwaitingScriptWrite { plan })
                &&& action matches InstallAction::WriteScript { path, contents } && path@ == shown(
                    plan.script,
                ) && contents@ == script_spec(
                    shown(plan.bundle),
                    shown(plan.staging),
                    plan.dmg_path@,
                    mount_point@,
                    shown(plan.work_dir),
                )
            },
            _ => false,
        },
        InstallStage::AwaitingScriptWrite { plan } => match event {
            InstallEvent::ScriptWritten(true) => {
                &&& next == (InstallStage::AwaitingPermission { plan })
                &&& action matches InstallAction::SetExecutable { path } && path@ == shown(plan.script)
            },
            _ => fails(next, action, |e: InstallError| e is ScriptNotWritten),
        },
        InstallStage::AwaitingPermission { plan } => match event {
            InstallEvent::PermissionSet(true) => {
                &&& next is AwaitingLaunch
                &&& action matches InstallAction::LaunchScript { path } && path@ == shown(plan.script)
            },
            _ => fails(next, action, |e: InstallError| e is PermissionNotSet),
        },
        InstallStage::AwaitingLaunch => match event {
            InstallEvent::Launched(true) => next is Exited && action is Exit,
            _ => fails(next, action, |e: InstallError| e is LaunchFailed),
        },
        InstallStage::Exited => false,
        InstallStage::Failed => false,
    }
}

/// Starts the installation of the disk image at `dmg_path` (`dmg` being the
/// same path as components): first check that it exists.
pub fn begin_install(dmg_path: String, dmg: AppPath) -> (r: (InstallStage, InstallAction))
    ensures
        r.1 matches InstallAction::CheckImage { path } && path == dmg_path,
        r.0 == (InstallStage::AwaitingImageCheck { dmg_path, dmg }),
{
    let path = dmg_path.clone();
    (InstallStage::AwaitingImageCheck { dmg_path, dmg }, InstallAction::CheckImage { path })
}

/// Whether `event` is the outcome that `stage` waits for.
pub fn fits(stage: &InstallStage, event: &InstallEvent) -> (r: bool)
    ensures
        r == fits_spec(*stage, *event),
{
    match stage {
        InstallStage::AwaitingImageCheck { .. } => matches!(event, InstallEvent::ImageExists(_)),
        InstallStage::AwaitingExecutable { .. } => matches!(event, InstallEvent::Executable(_)),
        InstallStage::AwaitingFinder => matches!(event, InstallEvent::Launched(_)),
        InstallStage::AwaitingMount { .. } => matches!(event, InstallEvent::Attached { .. }),
        InstallStage::AwaitingNewApp { .. } => matches!(event, InstallEvent::NewApp(_)),
        InstallStage::AwaitingCopy { .. } => matches!(event, InstallEvent::Copied { .. }),
        InstallStage::AwaitingScriptWrite { .. } => matches!(event, InstallEvent::ScriptWritten(_)),
        InstallStage::AwaitingPermission { .. } => matches!(event, InstallEvent::PermissionSet(_)),
        InstallStage::AwaitingLaunch => matches!(event, InstallEvent::Launched(_)),
        InstallStage::Exited => false,
        InstallStage::Failed => false,
    }
}

/// Works out the paths for replacing `bundle` with the disk image at `dmg_path`.
fn make_plan(dmg_path: String, dmg: &AppPath, bundle: AppPath) -> (plan: InstallPlan)
    requires
        bundle.parts.len() > 0,
    ensures
        plan.dmg_path == dmg_path,
        plan.bundle == bundle,
        plan.staging.has_root == bundle.has_root,
        plan.staging.names() == bundle.names().drop_last().push(bundle.names().last() + ".new"@),
        (plan.work_dir.has_root, plan.work_dir.names()) == containing_dir_spec(dmg.has_root, dmg.names()),
        plan.script.has_root == plan.work_dir.has_root,
        plan.script.names() == plan.work_dir.names().push("install.sh"@),
{
    let staging = staging_path(&bundle);
    let work_dir = containing_dir(dmg);
    let script = join(&work_dir, "install.sh");
    InstallPlan { dmg_path, bundle, staging, work_dir, script }
}

/// Moves the installation on by one outcome.
pub fn step(stage: InstallStage, event: InstallEvent) -> (r: (InstallStage, InstallAction))
    requires
        fits_spec(stage, event),
    ensures
        step_spec(stage, event, r.0, r.1),
{
    match stage {
        InstallStage::AwaitingImageCheck { dmg_path, dmg } => match event {
            InstallEvent::ImageExists(true) => (
                InstallStage::AwaitingExecutable { dmg_path, dmg },
                InstallAction::LocateExecutable,
            ),
            _ => (
                InstallStage::Failed,
                InstallAction::Fail { error: InstallError::MissingImage { path: dmg_path } },
            ),
        },
        InstallStage::AwaitingExecutable { dmg_path, dmg } => match event {
            InstallEvent::Executable(Some(exe)) => {
                match find_app_bundle(&exe) {
                    None => (InstallStage::AwaitingFinder, InstallAction::OpenInFinder { path: dmg_path }),
                    Some(bundle) => {
                        let path = dmg_path.clone();
                        proof {
                            lemma_bundle_len(exe.names());
                            assert(bundle.names().len() > 0);
                        }
                        let plan = make_plan(dmg_path, &dmg, bundle);
                        (InstallStage::AwaitingMount { plan }, InstallAction::Attach { path })
                    },
                }
            },
            _ => (InstallStage::Failed, InstallAction::Fail { error: InstallError::NoExecutablePath }),
        },
        InstallStage::AwaitingFinder => match event {
            InstallEvent::Launched(true) => (InstallStage::Exited, InstallAction::Exit),
            _ => (InstallStage::Failed, InstallAction::Fail { error: InstallError::FinderOpenFailed }),
        },
        InstallStage::AwaitingMount { plan } => match event {
            InstallEvent::Attached { ran, success, stdout, stderr } => {
                if !ran {
                    (InstallStage::Failed, InstallAction::Fail { error: InstallError::AttachNotRun })
                } else if !success {
                    (InstallStage::Failed, InstallAction::Fail { error: InstallError::AttachFailed { stderr } })
                } else {
                    match parse_hdiutil_mount_point(stdout.as_slice()) {
                        None => (InstallStage::Failed, InstallAction::Fail { error: InstallError::NoMountPoint }),
                        Some(mount_point) => {
                            let dir = mount_point.clone();
                            (
                                InstallStage::AwaitingNewApp { plan, mount_point },
                                InstallAction::FindApp { dir },
                            )
                        },
                    }
                }
            },
            _ => (InstallStage::Failed, InstallAction::Exit),
        },
        InstallStage::AwaitingNewApp { plan, mount_point } => match event {
            InstallEvent::NewApp(Some(app)) => {
                let to = render(&plan.staging);
                (InstallStage::AwaitingCopy { plan, mount_point }, InstallAction::Copy { from: app, to })
            },
            _ => (InstallStage::Failed, InstallAction::Fail { error: InstallError::NoAppInImage }),
        },
        InstallStage::AwaitingCopy { plan, mount_point } => match event {
            InstallEvent::Copied { ran, success } => {
                if !ran {
                    (InstallStage::Failed, InstallAction::Fail { error: InstallError::CopyNotRun })
                } else if !success {
                    (InstallStage::Failed, InstallAction::Fail { error: InstallError::CopyFailed })
                } else {
                    let bundle = render(&plan.bundle);
                    let staged = render(&plan.staging);
                    let work_dir = render(&plan.work_dir);
                    let contents = install_script(
                        bundle.as_str(),
                        staged.as_str(),
                        plan.dmg_path.as_str(),
                        mount_point.as_str(),
                        work_dir.as_str(),
                    );
                    let path = render(&plan.script);
                    (InstallStage::AwaitingScriptWrite { plan }, InstallAction::WriteScript { path, contents })
                }
            },
            _ => (InstallStage::Failed, InstallAction::Exit),
        },
        InstallStage::AwaitingScriptWrite { plan } => match event {
            InstallEvent::ScriptWritten(true) => {
                let path = render(&plan.script);
                (InstallStage::AwaitingPermission { plan }, InstallAction::SetExecutable { path })
            },
            _ => (InstallStage::Failed, InstallAction::Fail { error: InstallError::ScriptNotWritten }),
        },
        InstallStage::AwaitingPermission { plan } => match event {
            InstallEvent::PermissionSet(true) => {
                let path = render(&plan.script);
                (InstallStage::AwaitingLaunch, InstallAction::LaunchScript { path })
            },
            _ => (InstallStage::Failed, InstallAction::Fail { error: InstallError::PermissionNotSet }),
        },
        InstallStage::AwaitingLaunch => match event {
            InstallEvent::Launched(true) => (InstallStage::Exited, InstallAction::Exit),
            _ => (InstallStage::Failed, InstallAction::Fail { error: InstallError::LaunchFailed }),
        },
        InstallStage::Exited => (InstallStage::Exited, InstallAction::Exit),
        InstallStage::Failed => (InstallStage::Failed, InstallAction::Exit),
    }
}

/// Whether an outcome reports that something went wrong.
pub open spec fn outcome_failed(event: InstallEvent) -> bool {
    match event {
        InstallEvent::ImageExists(found) => !found,
        InstallEvent::Executable(path) => path is None,
        InstallEvent::Launched(started) => !started,
        InstallEvent::Attached { ran, success, .. } => !ran || !success,
        InstallEvent::NewApp(app) => app is None,
        InstallEvent::Copied { ran, success } => !ran || !success,
        InstallEvent::ScriptWritten(written) => !written,
        InstallEvent::PermissionSet(set) => !set,
    }
}

/// Every reported failure stops the installation with an error, whatever the
/// stage.
pub proof fn law_failure_stops_installation(
    stage: InstallStage,
    event: InstallEvent,
    next: InstallStage,
    action: InstallAction,
)
    requires
        fits_spec(stage, event),
        step_spec(stage, event, next, action),
        outcome_failed(event),
    ensures
        next is Failed,
        action is Fail,
{
}

/// A stopped installation, or one that has handed over and exited, waits for
/// no further outcome.
pub proof fn law_finished_installation_takes_no_outcome(event: InstallEvent)
    ensures
        !fits_spec(InstallStage::Failed, event),
        !fits_spec(InstallStage::Exited, event),
{
}

/// The stage before each stage of the replacement path, and the outcome that
/// led from it.
pub proof fn lemma_predecessor(
    stage: InstallStage,
    event: InstallEvent,
    next: InstallStage,
    action: InstallAction,
)
    requires
        fits_spec(stage, event),
        step_spec(stage, event, next, action),
    ensures
        action is LaunchScript ==> stage is AwaitingPermission && event == InstallEvent::PermissionSet(true),
        next is AwaitingPermission ==> stage is AwaitingScriptWrite && event == InstallEvent::ScriptWritten(true),
        next is AwaitingScriptWrite ==> stage is AwaitingCopy && event == (InstallEvent::Copied {
            ran: true,
            success: true,
        }),
        next is AwaitingCopy ==> stage is AwaitingNewApp && event matches InstallEvent::NewApp(Some(_)),
        next is AwaitingNewApp ==> stage is AwaitingMount && event matches InstallEvent::Attached {
            ran: true,
            success: true,
            ..
        },
        next is AwaitingMount ==> stage is AwaitingExecutable && event matches InstallEvent::Executable(Some(_)),
        next is AwaitingExecutable ==> stage is AwaitingImageCheck && event == InstallEvent::ImageExists(true),
        !(next is AwaitingImageCheck),
{
}

/// A sequence of stages, outcomes and actions that `step` produces one after
/// another.
pub open spec fn is_run(
    stages: Seq<InstallStage>,
    events: Seq<InstallEvent>,
    actions: Seq<InstallAction>,
) -> bool {
    &&& stages.len() == events.len() + 1
    &&& actions.len() == events.len()
    &&& forall|i: int|
        0 <= i < events.len() ==> fits_spec(#[trigger] stages[i], events[i]) && step_spec(
            stages[i],
            events[i],
            stages[i + 1],
            actions[i],
        )
}

/// The replacement script is started only as the seventh step of an
/// installation, after the image was found, the running bundle located, the
/// image mounted, a new application found in it, copied beside the old one,
/// and the script written and made executable.
pub proof fn law_script_runs_only_after_full_preparation(
    stages: Seq<InstallStage>,
    events: Seq<InstallEvent>,
    actions: Seq<InstallAction>,
    i: int,
)
    requires
        is_run(stages, events, actions),
        stages[0] is AwaitingImageCheck,
        0 <= i < actions.len(),
        actions[i] is LaunchScript,
    ensures
        i == 6,
        events[0] == InstallEvent::ImageExists(true),
        events[1] matches InstallEvent::Executable(Some(_)),
        events[2] matches InstallEvent::Attached { ran: true, success: true, .. },
        events[3] matches InstallEvent::NewApp(Some(_)),
        events[4] == (InstallEvent::Copied { ran: true, success: true }),
        events[5] == InstallEvent::ScriptWritten(true),
        events[6] == InstallEvent::PermissionSet(true),
{
    lemma_predecessor(stages[i], events[i], stages[i + 1], actions[i]);
    assert(i >= 1);
    lemma_predecessor(stages[i - 1], events[i - 1], stages[i], actions[i - 1]);
    assert(i >= 2);
    lemma_predecessor(stages[i - 2], events[i - 2], stages[i - 1], actions[i - 2]);
    assert(i >= 3);
    lemma_predecessor(stages[i - 3], events[i - 3], stages[i - 2], actions[i - 3]);
    assert(i >= 4);
    lemma_predecessor(stages[i - 4], events[i - 4], stages[i - 3], actions[i - 4]);
    assert(i >= 5);
    lemma_predecessor(stages[i - 5], events[i - 5], stages[i - 4], actions[i - 5]);
    assert(i >= 6);
    lemma_predecessor(stages[i - 6], events[i - 6], stages[i - 5], actions[i - 6]);
    if i > 6 {
        lemma_predecessor(stages[i - 7], events[i - 7], stages[i - 6], actions[i - 7]);
    }
}

} // verus!
