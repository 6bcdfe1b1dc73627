//! The decisions of the fetch → verify → install → launch pipeline that
//! every `securexe://run` link, Browse-tab install and "Update" action
//! goes through.
use vstd::prelude::*;
use vstd::string::*;

use crate::error::{spec_message, LauncherError, SpecError};
use crate::install::{artifact_path, checksum_matches, is_cached, spec_artifact_path, spec_eq_ignore_ascii_case};
use crate::library::LibraryEntry;
use crate::orchestrator::{artifact_index, Manifest};
use crate::repo::{is_safe_commit, spec_is_safe_commit};

verus! {

/// Progress reported to the webview while a link is handled.
pub enum StatusEvent {
    Resolving { repo: String },
    Downloading { repo: String },
    Verifying { repo: String },
    Launching { repo: String },
    Done { repo: String },
    Linked { user: String },
    Error { message: String },
}

impl StatusEvent {
    /// The event reporting a failed link: the error's user-facing text.
    pub fn from_error(e: &LauncherError) -> (res: StatusEvent)
        ensures
            res matches StatusEvent::Error { message } && message@ == spec_message(e@),
    {
        StatusEvent::Error { message: e.message() }
    }
}

/// What installing a manifest's build amounts to: which commit, which
/// file, the checksum it must have, and where it goes on disk.
pub struct InstallPlan {
    pub commit: String,
    pub file: String,
    pub expected_sha256: String,
    pub dest: String,
}

/// The commit to install: the manifest's own, else the one requested —
/// and only if it is a valid commit (it becomes a path segment).
pub open spec fn resolved_commit(source_commit: Option<Seq<char>>, requested: Option<Seq<char>>) -> Option<Seq<char>> {
    let c = match source_commit {
        Some(c) => Some(c),
        None => requested,
    };
    match c {
        Some(c) => if spec_is_safe_commit(c) {
            Some(c)
        } else {
            None
        },
        None => None,
    }
}

/// The plan for installing `manifest`'s build for `target`, in the order
/// the checks are made: a resolvable commit, an artifact for the target,
/// its file name and its checksum.
pub open spec fn spec_plan(
    source_commit: Option<Seq<char>>,
    artifacts: Seq<crate::orchestrator::ArtifactView>,
    target: Seq<char>,
    repo_path: Seq<char>,
    home: Seq<char>,
    slug: Seq<char>,
    requested: Option<Seq<char>>,
) -> Result<(Seq<char>, Seq<char>, Seq<char>, Seq<char>), SpecError> {
    match resolved_commit(source_commit, requested) {
        None => Err(SpecError::NotFound("no resolvable commit for "@ + repo_path)),
        Some(commit) => match artifact_index(artifacts, target) {
            None => Err(SpecError::NotFound("no build for "@ + repo_path + " ("@ + target + ")"@)),
            Some(i) => match artifacts[i].file {
                None => Err(SpecError::NotFound("manifest missing file for "@ + target)),
                Some(file) => match artifacts[i].sha256 {
                    None => Err(SpecError::NotFound("manifest missing checksum for "@ + target)),
                    Some(sha) => Ok((commit, file, sha, spec_artifact_path(home, slug, commit, file))),
                },
            },
        },
    }
}

/// The view of a plan result.
pub open spec fn plan_view(r: Result<InstallPlan, LauncherError>) -> Result<(Seq<char>, Seq<char>, Seq<char>, Seq<char>), SpecError> {
    match r {
        Ok(p) => Ok((p.commit@, p.file@, p.expected_sha256@, p.dest@)),
        Err(e) => Err(e@),
    }
}

/// The manifest's source commit as a view.
pub open spec fn source_commit(m: &Manifest) -> Option<Seq<char>> {
    match m.source {
        Some(s) => Some(s.commit@),
        None => None,
    }
}

fn not_found(prefix: &str, detail: &str) -> (res: LauncherError)
    ensures
        res@ == SpecError::NotFound(prefix@ + detail@),
{
    let mut m = prefix.to_owned();
    m.append(detail);
    LauncherError::NotFound(m)
}

/// Works out what installing `manifest`'s build of `repo_path` (slug
/// `slug`) for `target` means under `home`.
pub fn plan_install(
    manifest: &Manifest,
    target: &str,
    repo_path: &str,
    home: &str,
    slug: &str,
    requested_commit: Option<&str>,
) -> (res: Result<InstallPlan, LauncherError>)
    ensures
        plan_view(res) == spec_plan(
            source_commit(manifest),
            manifest.artifacts.deep_view(),
            target@,
            repo_path@,
            home@,
            slug@,
            match requested_commit {
                Some(c) => Some(c@),
                None => None,
            },
        ),
{
    let candidate: Option<&str> = match &manifest.source {
        Some(s) => Some(s.commit.as_str()),
        None => requested_commit,
    };
    let commit: &str = match candidate {
        Some(c) => {
            if is_safe_commit(c) {
                c
            } else {
                return Err(not_found("no resolvable commit for ", repo_path));
            }
        },
        None => return Err(not_found("no resolvable commit for ", repo_path)),
    };
    let artifact = match manifest.artifact_for(target) {
        Some(a) => a,
        None => {
            let mut m = "no build for ".to_owned();
            m.append(repo_path);
            m.append(" (");
            m.append(target);
            m.append(")");
            return Err(LauncherError::NotFound(m));
        },
    };
    let file = match &artifact.file {
        Some(f) => f.clone(),
        None => return Err(not_found("manifest missing file for ", target)),
    };
    let expected_sha256 = match &artifact.sha256 {
        Some(s) => s.clone(),
        None => return Err(not_found("manifest missing checksum for ", target)),
    };
    let dest = artifact_path(home, slug, commit, file.as_str());
    Ok(InstallPlan { commit: commit.to_owned(), file, expected_sha256, dest })
}

/// Judges a fresh download: its digest must match the manifest's checksum
/// (up to case), otherwise the file must not be run.
pub fn verify_download(actual_sha256: &str, expected_sha256: &str) -> (res: Result<(), LauncherError>)
    ensures
        res is Ok <==> spec_eq_ignore_ascii_case(actual_sha256@, expected_sha256@),
        res matches Err(e) ==> e@ == SpecError::ChecksumMismatch,
{
    if checksum_matches(actual_sha256, expected_sha256) {
        Ok(())
    } else {
        Err(LauncherError::ChecksumMismatch)
    }
}

/// Whether recording this install is news worth reporting to the worker:
/// a first install, or a different commit than the one recorded.
/// Re-launching an unchanged app reports nothing.
pub fn install_changed(existing: &Option<LibraryEntry>, commit: &str) -> (res: bool)
    ensures
        res == match existing {
            Some(e) => e.commit@ != commit@,
            None => true,
        },
{
    match existing {
        Some(e) => !crate::text::str_eq(e.commit.as_str(), commit),
        None => true,
    }
}


/// Whatever the manifest says, an install only ever goes to
/// `<home>/.securexe/apps/<slug>/<commit>/<file>` with a valid (hex)
/// commit, and only with a checksum to verify against.
pub proof fn law_plan_uses_safe_commit(
    source_commit: Option<Seq<char>>,
    artifacts: Seq<crate::orchestrator::ArtifactView>,
    target: Seq<char>,
    repo_path: Seq<char>,
    home: Seq<char>,
    slug: Seq<char>,
    requested: Option<Seq<char>>,
)
    ensures
        spec_plan(source_commit, artifacts, target, repo_path, home, slug, requested) matches Ok(p)
            ==> {
            &&& spec_is_safe_commit(p.0)
            &&& p.3 == spec_artifact_path(home, slug, p.0, p.1)
            &&& artifact_index(artifacts, target) matches Some(i) && artifacts[i].sha256 == Some(p.2)
        },
{
}

/// Where an install (or a relaunch) stands between two pieces of outside
/// work.
#[derive(Clone, Copy, Debug, PartialEq, Eq, Structural)]
pub enum Stage {
    /// The plan is made; the file at its destination has been looked at.
    CheckingCache,
    /// The artifact is being downloaded.
    Downloading,
    /// The fresh download's digest is being computed.
    Verifying,
    /// A verified file is being resolved, recorded in the library and
    /// given its sandbox.
    Installing,
    /// A GUI app is being offered a hosted window.
    Hosting,
    /// The app is being spawned plainly.
    Spawning,
    /// Nothing is left to do.
    Finished,
}

/// What the outside work of a stage reported back.
pub enum Event {
    /// The SHA-256 (hex) of the file already at the destination, `None`
    /// when there is none or it cannot be read.
    CacheChecked { digest: Option<String> },
    /// The download was written to the destination.
    Downloaded,
    /// The SHA-256 (hex) of the fresh download.
    Digested { digest: String },
    /// The install is recorded; whether the executable opens its own window.
    Installed { is_gui: bool },
    /// Whether the hosted window came up.
    HostedLaunched { ok: bool },
    /// The plain spawn succeeded.
    Spawned,
}

/// The outside work to do next.
#[derive(Clone, Copy, Debug, PartialEq, Eq, Structural)]
pub enum Action {
    /// Download the artifact to the destination.
    Download,
    /// Compute the digest of the fresh download.
    Verify,
    /// Delete the download and fail with [`LauncherError::ChecksumMismatch`]:
    /// the file must never run.
    DiscardDownload,
    /// Resolve, record and prepare the verified file.
    Install,
    /// Try a hosted window for the GUI app.
    LaunchHosted,
    /// Spawn the app plainly.
    LaunchPlain,
    /// Report success; the pipeline is over.
    Finish,
    /// The event does not belong to the stage; nothing is done.
    OutOfOrder,
}

/// One step of the pipeline: from the stage and what its work reported,
/// the next stage and the work to do. `expected_sha256` is the manifest's
/// checksum; `launch` says whether the app is to be run once installed.
/// - A cached file is used only if its digest matches; otherwise it is
///   downloaded, and a download is installed only if its digest matches,
///   else discarded.
/// - Once installed, nothing more happens unless `launch`; a GUI app is
///   first offered a hosted window and spawned plainly if that fails;
///   anything else is spawned plainly.
pub open spec fn spec_step(stage: Stage, event: Event, expected_sha256: Seq<char>, launch: bool) -> (Stage, Action) {
    match (stage, event) {
        (Stage::CheckingCache, Event::CacheChecked { digest }) => {
            let hit = match digest {
                Some(d) => spec_eq_ignore_ascii_case(d@, expected_sha256),
                None => false,
            };
            if hit {
                (Stage::Installing, Action::Install)
            } else {
                (Stage::Downloading, Action::Download)
            }
        },
        (Stage::Downloading, Event::Downloaded) => (Stage::Verifying, Action::Verify),
        (Stage::Verifying, Event::Digested { digest }) => if spec_eq_ignore_ascii_case(
            digest@,
            expected_sha256,
        ) {
            (Stage::Installing, Action::Install)
        } else {
            (Stage::Finished, Action::DiscardDownload)
        },
        (Stage::Installing, Event::Installed { is_gui }) => if !launch {
            (Stage::Finished, Action::Finish)
        } else if is_gui {
            (Stage::Hosting, Action::LaunchHosted)
        } else {
            (Stage::Spawning, Action::LaunchPlain)
        },
        (Stage::Hosting, Event::HostedLaunched { ok }) => if ok {
            (Stage::Finished, Action::Finish)
        } else {
            (Stage::Spawning, Action::LaunchPlain)
        },
        (Stage::Spawning, Event::Spawned) => (Stage::Finished, Action::Finish),
        _ => (stage, Action::OutOfOrder),
    }
}

/// Decides the next stage and action of the install pipeline.
pub fn step(stage: Stage, event: &Event, expected_sha256: &str, launch: bool) -> (res: (Stage, Action))
    ensures
        res == spec_step(stage, *event, expected_sha256@, launch),
{
    match (stage, event) {
        (Stage::CheckingCache, Event::CacheChecked { digest }) => {
            let found: Option<&str> = match digest {
                Some(d) => Some(d.as_str()),
                None => None,
            };
            if is_cached(found, expected_sha256) {
                (Stage::Installing, Action::Install)
            } else {
                (Stage::Downloading, Action::Download)
            }
        },
        (Stage::Downloading, Event::Downloaded) => (Stage::Verifying, Action::Verify),
        (Stage::Verifying, Event::Digested { digest }) => {
            if checksum_matches(digest.as_str(), expected_sha256) {
                (Stage::Installing, Action::Install)
            } else {
                (Stage::Finished, Action::DiscardDownload)
            }
        },
        (Stage::Installing, Event::Installed { is_gui }) => {
            if !launch {
                (Stage::Finished, Action::Finish)
            } else if *is_gui {
                (Stage::Hosting, Action::LaunchHosted)
            } else {
                (Stage::Spawning, Action::LaunchPlain)
            }
        },
        (Stage::Hosting, Event::HostedLaunched { ok }) => {
            if *ok {
                (Stage::Finished, Action::Finish)
            } else {
                (Stage::Spawning, Action::LaunchPlain)
            }
        },
        (Stage::Spawning, Event::Spawned) => (Stage::Finished, Action::Finish),
        _ => (stage, Action::OutOfOrder),
    }
}

/// Nothing unverified is installed or run: the pipeline moves to
/// installing only on a digest that matches the manifest's checksum (of
/// the cached file or of the fresh download), and a download whose digest
/// does not match is discarded.
pub proof fn law_only_verified_files_install(stage: Stage, event: Event, expected_sha256: Seq<char>, launch: bool)
    ensures
        spec_step(stage, event, expected_sha256, launch).1 == Action::Install ==> {
            ||| event matches Event::CacheChecked { digest } && digest matches Some(d)
                && spec_eq_ignore_ascii_case(d@, expected_sha256)
            ||| event matches Event::Digested { digest } && spec_eq_ignore_ascii_case(
                digest@,
                expected_sha256,
            )
        },
        stage == Stage::Verifying ==> (event matches Event::Digested { digest }
            && !spec_eq_ignore_ascii_case(digest@, expected_sha256) ==> spec_step(
            stage,
            event,
            expected_sha256,
            launch,
        ) == (Stage::Finished, Action::DiscardDownload)),
{
}

/// Only an install that asked to launch runs anything, and only a GUI app
/// is offered a hosted window; a failed hosted window falls back to a
/// plain spawn. A finished pipeline stays finished.
pub proof fn law_launch_rules(stage: Stage, event: Event, expected_sha256: Seq<char>, launch: bool)
    ensures
        spec_step(stage, event, expected_sha256, launch).1 == Action::LaunchHosted ==> (launch && (
        event matches Event::Installed { is_gui } && is_gui)),
        spec_step(stage, event, expected_sha256, launch).1 == Action::LaunchPlain ==> launch
            || stage == Stage::Hosting,
        stage == Stage::Hosting ==> (event matches Event::HostedLaunched { ok } && !ok ==> spec_step(
            stage,
            event,
            expected_sha256,
            launch,
        ).1 == Action::LaunchPlain),
        stage == Stage::Finished ==> spec_step(stage, event, expected_sha256, launch) == (
            Stage::Finished,
            Action::OutOfOrder,
        ),
{
}

/// An install that is not to launch ("update all") ends as soon as the
/// verified build is recorded, successfully, whatever kind of app it is.
pub proof fn law_install_without_launch_finishes(is_gui: bool, expected_sha256: Seq<char>)
    ensures
        spec_step(Stage::Installing, Event::Installed { is_gui }, expected_sha256, false) == (
            Stage::Finished,
            Action::Finish,
        ),
{
}

/// Two hex digests written alike up to ASCII case, in plain terms: same
/// length, and at each position the same character, or an upper-case
/// letter and its lower-case form.
pub open spec fn same_ignoring_case(a: Seq<char>, b: Seq<char>) -> bool {
    a.len() == b.len() && forall|i: int|
        #![trigger a[i], b[i]]
        0 <= i < a.len() ==> (a[i] == b[i] || (('A' <= a[i] && a[i] <= 'Z') && a[i] as int + 32
            == b[i] as int) || (('A' <= b[i] && b[i] <= 'Z') && b[i] as int + 32 == a[i] as int))
}

proof fn lemma_same_ignoring_case(a: Seq<char>, b: Seq<char>)
    ensures
        spec_eq_ignore_ascii_case(a, b) <==> same_ignoring_case(a, b),
{
    if same_ignoring_case(a, b) {
        assert forall|i: int| 0 <= i < a.len() implies crate::install::ascii_lower(#[trigger] a[i])
            == crate::install::ascii_lower(b[i]) by {
            assert(a[i] == b[i] || (('A' <= a[i] && a[i] <= 'Z') && a[i] as int + 32 == b[i] as int)
                || (('A' <= b[i] && b[i] <= 'Z') && b[i] as int + 32 == a[i] as int));
        }
    }
    if spec_eq_ignore_ascii_case(a, b) {
        assert forall|i: int| 0 <= i < a.len() implies (#[trigger] a[i] == #[trigger] b[i] || (('A'
            <= a[i] && a[i] <= 'Z') && a[i] as int + 32 == b[i] as int) || (('A' <= b[i] && b[i]
            <= 'Z') && b[i] as int + 32 == a[i] as int)) by {
            assert(crate::install::ascii_lower(a[i]) == crate::install::ascii_lower(b[i]));
        }
    }
}

/// A digest decides a download's fate: the fresh download being verified
/// is installed exactly when its digest matches the manifest's checksum
/// up to ASCII case and discarded otherwise, a cached file is reused
/// exactly when its digest matches and downloaded again otherwise, and
/// nothing else is ever discarded.
pub proof fn law_digest_decides(stage: Stage, event: Event, expected_sha256: Seq<char>, launch: bool)
    ensures
        spec_step(stage, event, expected_sha256, launch).1 == Action::DiscardDownload ==> (stage
            == Stage::Verifying && (event matches Event::Digested { digest } && !same_ignoring_case(
            digest@,
            expected_sha256,
        ))),
        stage == Stage::Verifying ==> (event matches Event::Digested { digest } ==> spec_step(
            stage,
            event,
            expected_sha256,
            launch,
        ) == if same_ignoring_case(digest@, expected_sha256) {
            (Stage::Installing, Action::Install)
        } else {
            (Stage::Finished, Action::DiscardDownload)
        }),
        stage == Stage::CheckingCache ==> (event matches Event::CacheChecked { digest } ==> spec_step(
            stage,
            event,
            expected_sha256,
            launch,
        ) == if digest matches Some(d) && same_ignoring_case(d@, expected_sha256) {
            (Stage::Installing, Action::Install)
        } else {
            (Stage::Downloading, Action::Download)
        }),
{
    match event {
        Event::Digested { digest } => lemma_same_ignoring_case(digest@, expected_sha256),
        Event::CacheChecked { digest } => {
            if let Some(d) = digest {
                lemma_same_ignoring_case(d@, expected_sha256);
            }
        },
        _ => {},
    }
}

/// A plan installs the manifest's own commit when it names one, and the
/// requested one only when it does not; the file and checksum are those
/// of the first successful build for the target; and a plan is made
/// whenever that commit is valid and that build names a file and a
/// checksum.
pub proof fn law_plan_choices(
    source_commit: Option<Seq<char>>,
    artifacts: Seq<crate::orchestrator::ArtifactView>,
    target: Seq<char>,
    repo_path: Seq<char>,
    home: Seq<char>,
    slug: Seq<char>,
    requested: Option<Seq<char>>,
)
    ensures
        spec_plan(source_commit, artifacts, target, repo_path, home, slug, requested) matches Ok(p) ==> {
            &&& p.0 == match source_commit {
                Some(c) => c,
                None => requested->0,
            }
            &&& exists|i: int|
                #![trigger artifacts[i]]
                0 <= i < artifacts.len() && artifacts[i].success && artifacts[i].os + "-"@
                    + artifacts[i].arch == target && artifacts[i].file == Some(p.1)
                    && artifacts[i].sha256 == Some(p.2)
        },
        ({
            let c = match source_commit {
                Some(c) => Some(c),
                None => requested,
            };
            &&& c is Some
            &&& spec_is_safe_commit(c->0)
            &&& artifact_index(artifacts, target) is Some
            &&& artifacts[artifact_index(artifacts, target)->0].file is Some
            &&& artifacts[artifact_index(artifacts, target)->0].sha256 is Some
        }) ==> spec_plan(source_commit, artifacts, target, repo_path, home, slug, requested) is Ok,
{
    crate::orchestrator::law_artifact_index_first_serving(artifacts, target);
}

} // verus!
