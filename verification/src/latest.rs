//! The latest-flag maintainer. After every ingestion the newest known
//! version or commit of the crate's family is resolved upstream, and the
//! stored scenes of that family are re-flagged so that exactly the scenes
//! of the newest identity carry the latest flag — among the scenes already
//! stored; nothing is fetched or ingested here.

use vstd::prelude::*;
use crate::docs::{same_scene_fields, SceneDoc};
use crate::ids::{CrateId, CrateIdV};
use crate::strutil::str_eq;
use crate::version::{SemVer, SemVerV};

verus! {

/// Whether a stored scene belongs to the registry family of a crate name.
pub open spec fn in_crates_io_family(s: &SceneDoc, name: Seq<char>) -> bool {
    match s.scene_id@.crate_id {
        CrateIdV::CratesIo(c) => c.crate_name == name,
        CrateIdV::Github(_) => false,
    }
}

/// Whether a registry scene carries exactly this version.
pub open spec fn scene_version_is(s: &SceneDoc, v: SemVerV) -> bool {
    match s.scene_id@.crate_id {
        CrateIdV::CratesIo(c) => c.version == v,
        CrateIdV::Github(_) => false,
    }
}

/// Whether a stored scene belongs to the git family of one manifest inside
/// one repository.
pub open spec fn in_github_family(
    s: &SceneDoc,
    owner: Seq<char>,
    repo: Seq<char>,
    manifest_dir: Seq<char>,
) -> bool {
    match s.scene_id@.crate_id {
        CrateIdV::CratesIo(_) => false,
        CrateIdV::Github(g) => g.owner == owner && g.repo == repo && g.manifest_dir
            == manifest_dir,
    }
}

/// Whether a git scene carries exactly this commit hash.
pub open spec fn scene_commit_is(s: &SceneDoc, commit: Seq<char>) -> bool {
    match s.scene_id@.crate_id {
        CrateIdV::CratesIo(_) => false,
        CrateIdV::Github(g) => g.commit_hash == commit,
    }
}

/// The recomputation relation for a registry family: every scene keeps its
/// fields; a scene of the family is flagged latest exactly when it carries
/// the newest version; every other scene keeps its flag.
pub open spec fn crates_io_recompute_rel(
    before: Seq<SceneDoc>,
    after: Seq<SceneDoc>,
    name: Seq<char>,
    latest: SemVerV,
) -> bool {
    &&& after.len() == before.len()
    &&& forall|i: int| 0 <= i < before.len() ==> same_scene_fields(&#[trigger] after[i], &before[i])
    &&& forall|i: int| 0 <= i < before.len() ==> (#[trigger] after[i]).is_latest == (
    if in_crates_io_family(&before[i], name) {
        scene_version_is(&before[i], latest)
    } else {
        before[i].is_latest
    })
}

/// The recomputation relation for a git family, over the repository's
/// resolved head commit.
pub open spec fn github_recompute_rel(
    before: Seq<SceneDoc>,
    after: Seq<SceneDoc>,
    owner: Seq<char>,
    repo: Seq<char>,
    manifest_dir: Seq<char>,
    head_commit: Seq<char>,
) -> bool {
    &&& after.len() == before.len()
    &&& forall|i: int| 0 <= i < before.len() ==> same_scene_fields(&#[trigger] after[i], &before[i])
    &&& forall|i: int| 0 <= i < before.len() ==> (#[trigger] after[i]).is_latest == (
    if in_github_family(&before[i], owner, repo, manifest_dir) {
        scene_commit_is(&before[i], head_commit)
    } else {
        before[i].is_latest
    })
}

/// The newest upstream state of a crate family, resolved just before
/// recomputation: the registry's highest version, or the repository's
/// default-branch head commit.
pub enum NewestUpstream {
    RegistryVersion(SemVer),
    RepoHeadCommit(String),
}

/// Recomputes which stored scenes carry the latest flag.
pub struct SetLatestScenesInDb;

impl SetLatestScenesInDb {
    /// Re-flags the stored scenes of a registry crate family: scenes of
    /// the family at any other version lose the flag, scenes at the newest
    /// version gain it, everything else stays untouched.
    pub fn set_latest_scenes_in_db_crates_io(
        scenes: &mut Vec<SceneDoc>,
        crate_name: &str,
        latest_version: &SemVer,
    )
        ensures
            crates_io_recompute_rel(old(scenes)@, final(scenes)@, crate_name@, latest_version@),
    {
        let mut i: usize = 0;
        while i < scenes.len()
            invariant
                i <= scenes@.len(),
                scenes@.len() == old(scenes)@.len(),
                forall|j: int| i <= j < scenes@.len() ==> #[trigger] scenes@[j] == old(scenes)@[j],
                forall|j: int| 0 <= j < i ==> same_scene_fields(
                    &#[trigger] scenes@[j],
                    &old(scenes)@[j],
                ),
                forall|j: int| 0 <= j < i ==> (#[trigger] scenes@[j]).is_latest == (
                if in_crates_io_family(&old(scenes)@[j], crate_name@) {
                    scene_version_is(&old(scenes)@[j], latest_version@)
                } else {
                    old(scenes)@[j].is_latest
                }),
            decreases scenes@.len() - i,
        {
            let in_family = match &scenes[i].scene_id.crate_id {
                CrateId::CratesIo(c) => str_eq(c.crate_name.as_str(), crate_name),
                CrateId::Github(_) => false,
            };
            if in_family {
                let flag = match &scenes[i].scene_id.crate_id {
                    CrateId::CratesIo(c) => c.version == *latest_version,
                    CrateId::Github(_) => false,
                };
                scenes[i].is_latest = flag;
            }
            i = i + 1;
        }
    }

    /// Re-flags the stored scenes of a git crate family: scenes of the
    /// family at any other commit lose the flag, scenes at the head commit
    /// gain it, everything else stays untouched.
    pub fn set_latest_scenes_in_db_github(
        scenes: &mut Vec<SceneDoc>,
        owner: &str,
        repo: &str,
        manifest_dir: &str,
        head_commit: &str,
    )
        ensures
            github_recompute_rel(
                old(scenes)@,
                final(scenes)@,
                owner@,
                repo@,
                manifest_dir@,
                head_commit@,
            ),
    {
        let mut i: usize = 0;
        while i < scenes.len()
            invariant
                i <= scenes@.len(),
                scenes@.len() == old(scenes)@.len(),
                forall|j: int| i <= j < scenes@.len() ==> #[trigger] scenes@[j] == old(scenes)@[j],
                forall|j: int| 0 <= j < i ==> same_scene_fields(
                    &#[trigger] scenes@[j],
                    &old(scenes)@[j],
                ),
                forall|j: int| 0 <= j < i ==> (#[trigger] scenes@[j]).is_latest == (
                if in_github_family(&old(scenes)@[j], owner@, repo@, manifest_dir@) {
                    scene_commit_is(&old(scenes)@[j], head_commit@)
                } else {
                    old(scenes)@[j].is_latest
                }),
            decreases scenes@.len() - i,
        {
            let in_family = match &scenes[i].scene_id.crate_id {
                CrateId::CratesIo(_) => false,
                CrateId::Github(g) => str_eq(g.owner.as_str(), owner) && str_eq(
                    g.repo.as_str(),
                    repo,
                ) && str_eq(g.manifest_dir.as_str(), manifest_dir),
            };
            if in_family {
                let flag = match &scenes[i].scene_id.crate_id {
                    CrateId::CratesIo(_) => false,
                    CrateId::Github(g) => str_eq(g.commit_hash.as_str(), head_commit),
                };
                scenes[i].is_latest = flag;
            }
            i = i + 1;
        }
    }

    /// Dispatches the recomputation by the crate's origin, over the newest
    /// upstream state its family was just resolved to.
    pub fn set_latest_scenes_in_db(
        scenes: &mut Vec<SceneDoc>,
        crate_id: &CrateId,
        newest: &NewestUpstream,
    )
        requires
            (crate_id matches CrateId::CratesIo(_)) == (newest
                matches NewestUpstream::RegistryVersion(_)),
        ensures
            match (crate_id, newest) {
                (CrateId::CratesIo(c), NewestUpstream::RegistryVersion(v)) => crates_io_recompute_rel(
                    old(scenes)@,
                    final(scenes)@,
                    c.crate_name@,
                    v@,
                ),
                (CrateId::Github(g), NewestUpstream::RepoHeadCommit(h)) => github_recompute_rel(
                    old(scenes)@,
                    final(scenes)@,
                    g.owner@,
                    g.repo@,
                    g.manifest_dir@,
                    h@,
                ),
                _ => false,
            },
    {
        match (crate_id, newest) {
            (CrateId::CratesIo(c), NewestUpstream::RegistryVersion(v)) => {
                Self::set_latest_scenes_in_db_crates_io(scenes, c.crate_name.as_str(), v);
            },
            (CrateId::Github(g), NewestUpstream::RepoHeadCommit(h)) => {
                Self::set_latest_scenes_in_db_github(
                    scenes,
                    g.owner.as_str(),
                    g.repo.as_str(),
                    g.manifest_dir.as_str(),
                    h.as_str(),
                );
            },
            _ => {
                proof {
                    assert(false);
                }
            },
        }
    }
}

/// A store is converged for a registry family when exactly its scenes at
/// the newest version carry the flag.
pub open spec fn crates_io_converged(s: Seq<SceneDoc>, name: Seq<char>, latest: SemVerV) -> bool {
    forall|i: int| 0 <= i < s.len() ==> (in_crates_io_family(&#[trigger] s[i], name)
        ==> s[i].is_latest == scene_version_is(&s[i], latest))
}

/// After a recomputation, exactly the family's scenes at the newest
/// version are flagged latest, and no others of the family.
pub proof fn lemma_recompute_converges(
    before: Seq<SceneDoc>,
    after: Seq<SceneDoc>,
    name: Seq<char>,
    latest: SemVerV,
)
    requires
        crates_io_recompute_rel(before, after, name, latest),
    ensures
        crates_io_converged(after, name, latest),
{
    assert forall|i: int|
        0 <= i < after.len() && in_crates_io_family(&after[i], name) implies after[i].is_latest
        == scene_version_is(&after[i], latest) by {
        assert(same_scene_fields(&after[i], &before[i]));
        assert(after[i].scene_id@ == before[i].scene_id@);
    }
}

/// A store is converged for a git family when exactly its scenes at the
/// head commit carry the flag.
pub open spec fn github_converged(
    s: Seq<SceneDoc>,
    owner: Seq<char>,
    repo: Seq<char>,
    manifest_dir: Seq<char>,
    head_commit: Seq<char>,
) -> bool {
    forall|i: int| 0 <= i < s.len() ==> (in_github_family(&#[trigger] s[i], owner, repo, manifest_dir)
        ==> s[i].is_latest == scene_commit_is(&s[i], head_commit))
}

/// The git analogue of the convergence law: after a recomputation exactly
/// the family's scenes at the head commit are flagged latest.
pub proof fn lemma_github_recompute_converges(
    before: Seq<SceneDoc>,
    after: Seq<SceneDoc>,
    owner: Seq<char>,
    repo: Seq<char>,
    manifest_dir: Seq<char>,
    head_commit: Seq<char>,
)
    requires
        github_recompute_rel(before, after, owner, repo, manifest_dir, head_commit),
    ensures
        github_converged(after, owner, repo, manifest_dir, head_commit),
{
    assert forall|i: int|
        0 <= i < after.len() && in_github_family(&after[i], owner, repo, manifest_dir) implies after[i].is_latest
        == scene_commit_is(&after[i], head_commit) by {
        assert(same_scene_fields(&after[i], &before[i]));
        assert(after[i].scene_id@ == before[i].scene_id@);
    }
}

/// The git analogue of the idempotence law: a second recomputation with
/// no upstream change flips no flag.
pub proof fn lemma_github_recompute_idempotent(
    mid: Seq<SceneDoc>,
    after: Seq<SceneDoc>,
    owner: Seq<char>,
    repo: Seq<char>,
    manifest_dir: Seq<char>,
    head_commit: Seq<char>,
)
    requires
        github_converged(mid, owner, repo, manifest_dir, head_commit),
        github_recompute_rel(mid, after, owner, repo, manifest_dir, head_commit),
    ensures
        after.len() == mid.len(),
        forall|i: int| 0 <= i < mid.len() ==> same_scene_fields(&#[trigger] after[i], &mid[i]),
        forall|i: int| 0 <= i < mid.len() ==> (#[trigger] after[i]).is_latest == mid[i].is_latest,
{
}

/// Running the recomputation again with no upstream change flips no flag:
/// the recomputation is idempotent.
pub proof fn lemma_recompute_idempotent(
    mid: Seq<SceneDoc>,
    after: Seq<SceneDoc>,
    name: Seq<char>,
    latest: SemVerV,
)
    requires
        crates_io_converged(mid, name, latest),
        crates_io_recompute_rel(mid, after, name, latest),
    ensures
        after.len() == mid.len(),
        forall|i: int| 0 <= i < mid.len() ==> same_scene_fields(&#[trigger] after[i], &mid[i]),
        forall|i: int| 0 <= i < mid.len() ==> (#[trigger] after[i]).is_latest == mid[i].is_latest,
{
}

} // verus!
