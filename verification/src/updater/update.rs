//! Staging an update, applying it, and taking it back.

use vstd::prelude::*;

use crate::install::bundle;
use crate::json;
use crate::json::{Json, JsonView};
use crate::model;
use crate::paths;
use crate::text;

verus! {

/// An artifact that a catalog offers.
#[derive(Debug)]
pub struct CatalogArtifact {
    pub id: String,
    /// full, or the name of a part of the product.
    pub kind: String,
    /// Where its payload is.
    pub path: String,
    pub size: u64,
    pub sha256: String,
    /// The components it brings and their builds, in the order of their names.
    pub targets: Vec<(String, String)>,
}

/// An artifact that was fetched and checked.
#[derive(Debug)]
pub struct StagedArtifact {
    pub id: String,
    pub kind: String,
    pub path: String,
    pub size: u64,
    pub sha256: String,
}

/// The model of a `StagedArtifact`.
#[verifier::ext_equal]
pub struct StagedView {
    pub id: Seq<char>,
    pub kind: Seq<char>,
    pub path: Seq<char>,
    pub size: u64,
    pub sha256: Seq<char>,
}

impl View for StagedArtifact {
    type V = StagedView;

    open spec fn view(&self) -> StagedView {
        StagedView {
            id: self.id@,
            kind: self.kind@,
            path: self.path@,
            size: self.size,
            sha256: self.sha256@,
        }
    }
}

/// Names with their builds.
pub open spec fn pairs(list: Seq<(String, String)>) -> Seq<(Seq<char>, Seq<char>)> {
    Seq::new(list.len(), |i: int| (list[i].0@, list[i].1@))
}

/// The identifiers of staged artifacts.
pub open spec fn ids_of(staged: Seq<StagedView>) -> Seq<Seq<char>> {
    Seq::new(staged.len(), |i: int| staged[i].id)
}

/// Where the first artifact named `id` stands in a catalog.
pub open spec fn place_in(catalog: Seq<CatalogArtifact>, id: Seq<char>) -> Option<int>
    decreases catalog.len(),
{
    if catalog.len() == 0 {
        None
    } else {
        match place_in(catalog.drop_last(), id) {
            Some(i) => Some(i),
            None => if catalog.last().id@ == id {
                Some(catalog.len() - 1)
            } else {
                None
            },
        }
    }
}

/// An artifact that was found bears the name that was looked for.
proof fn place_is_named(catalog: Seq<CatalogArtifact>, id: Seq<char>)
    ensures
        place_in(catalog, id) matches Some(i) ==> 0 <= i < catalog.len() && catalog[i].id@ == id,
    decreases catalog.len(),
{
    if catalog.len() > 0 {
        let front = catalog.drop_last();
        place_is_named(front, id);
        if let Some(i) = place_in(front, id) {
            assert(front[i] == catalog[i]);
        }
    }
}

/// A place among the first artifacts is the place.
proof fn place_in_prefix(catalog: Seq<CatalogArtifact>, n: int, id: Seq<char>)
    requires
        0 <= n <= catalog.len(),
        place_in(catalog.take(n), id) is Some,
    ensures
        place_in(catalog, id) == place_in(catalog.take(n), id),
    decreases catalog.len(),
{
    if n < catalog.len() {
        let front = catalog.drop_last();
        assert(front.take(n) =~= catalog.take(n));
        place_in_prefix(front, n, id);
    } else {
        assert(catalog.take(n) =~= catalog);
    }
}

/// `place_in`, executable.
fn find_artifact(catalog: &Vec<CatalogArtifact>, id: &str) -> (r: Option<usize>)
    ensures
        match (r, place_in(catalog@, id@)) {
            (Some(i), Some(j)) => i == j && i < catalog@.len() && catalog@[i as int].id@ == id@,
            (None, None) => true,
            _ => false,
        },
{
    let mut i: usize = 0;
    assert(catalog@.take(0).len() == 0);
    while i < catalog.len()
        invariant
            i <= catalog@.len(),
            place_in(catalog@.take(i as int), id@) is None,
        decreases catalog@.len() - i,
    {
        let ghost longer = catalog@.take(i + 1);
        assert(longer.drop_last() =~= catalog@.take(i as int));
        assert(longer.last() == catalog@[i as int]);
        if text::same(catalog[i].id.as_str(), id) {
            proof {
                place_in_prefix(catalog@, i + 1, id@);
            }
            return Some(i);
        }
        i = i + 1;
    }
    assert(catalog@.take(catalog@.len() as int) =~= catalog@);
    None
}

// ---------------------------------------------------------------------------
// Staging
// ---------------------------------------------------------------------------

/// An update that is being staged.
#[derive(Debug)]
pub struct Staging {
    /// The artifacts that the update consists of, in the order in which they are
    /// applied.
    pub planned: Vec<String>,
    pub catalog: Vec<CatalogArtifact>,
    /// Those that were fetched and checked.
    pub staged: Vec<StagedArtifact>,
}

/// Whether a staged artifact is entry `j` of a catalog: of the same name and
/// kind, with the size and the digest that the catalog announced.
pub open spec fn is_entry(catalog: Seq<CatalogArtifact>, j: int, staged: StagedView) -> bool {
    &&& 0 <= j < catalog.len()
    &&& catalog[j].id@ == staged.id
    &&& catalog[j].kind@ == staged.kind
    &&& bundle::payload_matches(catalog[j].size, catalog[j].sha256@, staged.size, staged.sha256)
}

/// Whether a staged artifact is one that a catalog announced.
pub open spec fn is_announced(catalog: Seq<CatalogArtifact>, staged: StagedView) -> bool {
    exists|j: int| is_entry(catalog, j, staged)
}

impl Staging {
    /// What was staged is the beginning of what was planned, and is what the
    /// catalog announced.
    pub open spec fn wf(&self) -> bool {
        &&& self.staged@.len() <= self.planned@.len()
        &&& ids_of(model::views(self.staged@)) == model::views(self.planned@).take(
            self.staged@.len() as int,
        )
        &&& forall|i: int|
            0 <= i < self.staged@.len() ==> is_announced(
                self.catalog@,
                (#[trigger] self.staged@[i])@,
            )
    }
}

/// What is said of a payload that is not what was announced.
pub open spec fn payload_message(
    artifact: CatalogArtifact,
    size: u64,
    sha256: Seq<char>,
) -> Seq<char> {
    "artifact verification failed for "@ + artifact.id@ + ": expected "@ + text::decimal(
        artifact.size as nat,
    ) + " bytes/"@ + artifact.sha256@ + ", got "@ + text::decimal(size as nat) + " bytes/"@ + sha256
}

/// Checks what was fetched of an artifact.
pub fn check_payload(artifact: &CatalogArtifact, size: u64, sha256: &str) -> (r: Result<
    (),
    String,
>)
    ensures
        r is Ok <==> bundle::payload_matches(artifact.size, artifact.sha256@, size, sha256@),
        r matches Err(message) ==> message@ == payload_message(*artifact, size, sha256@),
{
    if size == artifact.size && text::same_ignoring_case(sha256, artifact.sha256.as_str()) {
        return Ok(());
    }
    let a = text::join3("artifact verification failed for ", artifact.id.as_str(), ": expected ");
    let b = text::join3(a.as_str(), text::decimal_of(artifact.size).as_str(), " bytes/");
    let c = text::join3(b.as_str(), artifact.sha256.as_str(), ", got ");
    let d = text::join3(c.as_str(), text::decimal_of(size).as_str(), " bytes/");
    Err(text::join2(d.as_str(), sha256))
}

/// Whether two lists of components are the same.
fn same_components(a: &Vec<(String, String)>, b: &Vec<(String, String)>) -> (r: bool)
    ensures
        r == (pairs(a@) == pairs(b@)),
{
    if a.len() != b.len() {
        assert(pairs(a@).len() != pairs(b@).len());
        return false;
    }
    let mut i: usize = 0;
    while i < a.len()
        invariant
            i <= a@.len(),
            a@.len() == b@.len(),
            forall|k: int| 0 <= k < i ==> #[trigger] pairs(a@)[k] == pairs(b@)[k],
        decreases a@.len() - i,
    {
        assert(pairs(a@)[i as int] == (a@[i as int].0@, a@[i as int].1@));
        assert(pairs(b@)[i as int] == (b@[i as int].0@, b@[i as int].1@));
        if !text::same(a[i].0.as_str(), b[i].0.as_str()) || !text::same(
            a[i].1.as_str(),
            b[i].1.as_str(),
        ) {
            return false;
        }
        i = i + 1;
    }
    assert(pairs(a@) =~= pairs(b@));
    true
}

/// Checks that a bundle is what its catalog says: of the same kind, and with the
/// same components.
pub fn check_bundle(
    artifact: &CatalogArtifact,
    kind: &str,
    components: &Vec<(String, String)>,
) -> (r: Result<(), String>)
    ensures
        r is Ok <==> kind@ == artifact.kind@ && pairs(components@) == pairs(artifact.targets@),
        r matches Err(message) ==> message@ == (if kind@ != artifact.kind@ {
            "artifact "@ + artifact.id@ + " kind mismatch: catalog="@ + artifact.kind@
                + ", bundle="@ + kind@
        } else {
            "artifact "@ + artifact.id@ + " component targets do not match bundle.json"@
        }),
{
    if !text::same(kind, artifact.kind.as_str()) {
        let a = text::join3("artifact ", artifact.id.as_str(), " kind mismatch: catalog=");
        return Err(text::join2(
            text::join3(a.as_str(), artifact.kind.as_str(), ", bundle=").as_str(),
            kind,
        ));
    }
    if !same_components(components, &artifact.targets) {
        return Err(
            text::join3(
                "artifact ",
                artifact.id.as_str(),
                " component targets do not match bundle.json",
            ),
        );
    }
    Ok(())
}

impl Staging {
    /// Begins to stage an update.
    pub fn new(planned: Vec<String>, catalog: Vec<CatalogArtifact>) -> (r: Staging)
        ensures
            r.wf(),
            r.planned == planned,
            r.catalog == catalog,
            r.staged@.len() == 0,
    {
        let staged: Vec<StagedArtifact> = Vec::new();
        let r = Staging { planned, catalog, staged };
        assert(ids_of(model::views(r.staged@)) =~= model::views(r.planned@).take(0));
        r
    }

    /// Where the artifact to fetch next stands in the catalog; none if all are
    /// there.
    pub fn next(&self) -> (r: Result<Option<usize>, String>)
        requires
            self.wf(),
        ensures
            self.staged@.len() == self.planned@.len() ==> r == Ok::<Option<usize>, String>(None),
            self.staged@.len() < self.planned@.len() ==> ({
                let id = self.planned@[self.staged@.len() as int]@;
                match place_in(self.catalog@, id) {
                    Some(i) => r matches Ok(Some(at)) && at == i && at < self.catalog@.len()
                        && self.catalog@[at as int].id@ == id,
                    None => r matches Err(message) && message@
                        == "planned artifact is missing from catalog: "@ + id,
                }
            }),
    {
        let done: usize = self.staged.len();
        if done >= self.planned.len() {
            return Ok(None);
        }
        let id = self.planned[done].as_str();
        match find_artifact(&self.catalog, id) {
            Some(at) => Ok(Some(at)),
            None => Err(text::join2("planned artifact is missing from catalog: ", id)),
        }
    }

    /// Takes over the artifact that `next` named, once it was fetched to `path`
    /// and checked.
    pub fn accept(&mut self, at: usize, path: String, size: u64, sha256: String)
        requires
            old(self).wf(),
            old(self).staged@.len() < old(self).planned@.len(),
            at < old(self).catalog@.len(),
            old(self).catalog@[at as int].id@ == old(self).planned@[old(
                self,
            ).staged@.len() as int]@,
            bundle::payload_matches(
                old(self).catalog@[at as int].size,
                old(self).catalog@[at as int].sha256@,
                size,
                sha256@,
            ),
        ensures
            final(self).wf(),
            final(self).planned == old(self).planned,
            final(self).catalog == old(self).catalog,
            model::views(final(self).staged@) == model::views(old(self).staged@).push(
                StagedView {
                    id: old(self).catalog@[at as int].id@,
                    kind: old(self).catalog@[at as int].kind@,
                    path: path@,
                    size,
                    sha256: sha256@,
                },
            ),
    {
        let ghost before = model::views(self.staged@);
        let ghost plan = model::views(self.planned@);
        let ghost listed = self.staged@;
        let artifact = StagedArtifact {
            id: self.catalog[at].id.clone(),
            kind: self.catalog[at].kind.clone(),
            path,
            size,
            sha256,
        };
        self.staged.push(artifact);
        let ghost after = model::views(self.staged@);
        proof {
            assert(after =~= before.push(artifact@));
            assert(is_entry(self.catalog@, at as int, artifact@));
            assert forall|i: int| 0 <= i < self.staged@.len() implies is_announced(
                self.catalog@,
                (#[trigger] self.staged@[i])@,
            ) by {
                if i < listed.len() {
                    assert(self.staged@[i] == listed[i]);
                    assert(is_announced(self.catalog@, listed[i]@));
                }
            }
            assert(plan[before.len() as int] == artifact@.id);
            assert(ids_of(after) =~= plan.take(after.len() as int)) by {
                assert forall|i: int| 0 <= i < after.len() implies ids_of(after)[i] == plan.take(
                    after.len() as int,
                )[i] by {
                    if i < before.len() {
                        assert(ids_of(before)[i] == plan.take(before.len() as int)[i]);
                    }
                }
            }
        }
    }
}

/// The directory of an operation below the installation.
pub fn staging_folder(operation_id: &str) -> (r: String)
    ensures
        r@ == ".deepx-update/staging/"@ + operation_id@,
{
    text::join2(".deepx-update/staging/", operation_id)
}

// ---------------------------------------------------------------------------
// Applying
// ---------------------------------------------------------------------------

/// Whether what was staged is what was planned, in the same order.
pub open spec fn plan_is_kept(planned: Seq<Seq<char>>, staged: Seq<StagedView>) -> bool {
    ids_of(staged) == planned
}

/// An update that was staged to its end passes the check that precedes its
/// application.
pub proof fn staged_updates_keep_their_plan(staging: Staging)
    requires
        staging.wf(),
        staging.staged@.len() == staging.planned@.len(),
    ensures
        plan_is_kept(model::views(staging.planned@), model::views(staging.staged@)),
{
    let plan = model::views(staging.planned@);
    assert(plan.take(plan.len() as int) =~= plan);
}

/// Checks that what was staged is what was planned.
pub fn check_plan(planned: &Vec<String>, staged: &Vec<StagedArtifact>) -> (r: Result<(), String>)
    ensures
        r is Ok <==> plan_is_kept(model::views(planned@), model::views(staged@)),
        r matches Err(message) ==> message@
            == "staged artifacts do not match the recorded update plan"@,
{
    let ghost plan = model::views(planned@);
    let ghost ids = ids_of(model::views(staged@));
    let mut same = planned.len() == staged.len();
    if same {
        let mut i: usize = 0;
        while i < planned.len() && same
            invariant
                i <= planned@.len(),
                planned@.len() == staged@.len(),
                plan == model::views(planned@),
                ids == ids_of(model::views(staged@)),
                same ==> forall|k: int| 0 <= k < i ==> #[trigger] plan[k] == ids[k],
                !same ==> plan != ids,
            decreases planned@.len() - i,
        {
            assert(plan[i as int] == planned@[i as int]@);
            assert(ids[i as int] == staged@[i as int].id@);
            if !text::same(planned[i].as_str(), staged[i].id.as_str()) {
                same = false;
            }
            i = i + 1;
        }
        assert(same ==> plan =~= ids);
    } else {
        assert(plan.len() != ids.len());
    }
    if same {
        Ok(())
    } else {
        Err("staged artifacts do not match the recorded update plan".to_owned())
    }
}

/// Checks a staged artifact right before it is applied.
pub fn check_staged(artifact: &StagedArtifact, size: u64, sha256: &str) -> (r: Result<(), String>)
    ensures
        r is Ok <==> bundle::payload_matches(artifact.size, artifact.sha256@, size, sha256@),
        r matches Err(message) ==> message@ == "staged artifact verification failed: "@
            + artifact.id@,
{
    if size == artifact.size && text::same_ignoring_case(sha256, artifact.sha256.as_str()) {
        Ok(())
    } else {
        Err(text::join2("staged artifact verification failed: ", artifact.id.as_str()))
    }
}

/// The order in which the first `count` artifacts are taken back: the last one
/// first.
pub open spec fn rollback_order_of(count: nat) -> Seq<int> {
    Seq::new(count, |i: int| count - 1 - i)
}

/// `rollback_order_of`, executable. If artifact `i` could not be applied, the
/// first `i + 1` of them are taken back.
pub fn rollback_order(count: usize) -> (r: Vec<usize>)
    ensures
        r@.len() == count,
        forall|i: int| 0 <= i < count ==> #[trigger] r@[i] == rollback_order_of(count as nat)[i],
{
    let mut out: Vec<usize> = Vec::new();
    let mut i: usize = 0;
    while i < count
        invariant
            i <= count,
            out@.len() == i,
            forall|k: int| 0 <= k < i ==> #[trigger] out@[k] == count - 1 - k,
        decreases count - i,
    {
        out.push(count - 1 - i);
        i = i + 1;
    }
    out
}

/// What is left applied when artifacts are taken back in this order; none if one
/// is taken back on top of which another one still lies.
pub open spec fn left_applied(applied: Seq<int>, order: Seq<int>) -> Option<Seq<int>>
    decreases order.len(),
{
    if order.len() == 0 {
        Some(applied)
    } else if applied.len() > 0 && applied.last() == order[0] {
        left_applied(applied.drop_last(), order.skip(1))
    } else {
        None
    }
}

/// Taking artifacts back in this order takes each back before those that it was
/// applied on top of, and leaves none applied.
pub proof fn rollback_takes_everything_back(count: nat)
    ensures
        left_applied(Seq::new(count, |i: int| i), rollback_order_of(count)) == Some(
            Seq::<int>::empty(),
        ),
    decreases count,
{
    let applied = Seq::new(count, |i: int| i);
    let order = rollback_order_of(count);
    if count > 0 {
        let less = (count - 1) as nat;
        rollback_takes_everything_back(less);
        assert(applied.drop_last() =~= Seq::new(less, |i: int| i));
        assert(order.skip(1) =~= rollback_order_of(less));
    } else {
        assert(applied =~= Seq::empty());
    }
}

/// What an installation says of its last update.
#[derive(Debug)]
pub struct InstalledMark {
    pub release_id: String,
    pub last_committed_operation: Option<String>,
}

/// What an installation says after an operation was applied.
pub fn committed(release_id: &str, operation_id: &str) -> (r: InstalledMark)
    ensures
        r.release_id@ == release_id@,
        r.last_committed_operation matches Some(last) && last@ == operation_id@,
{
    InstalledMark {
        release_id: release_id.to_owned(),
        last_committed_operation: Some(operation_id.to_owned()),
    }
}

/// The operation that an installation says was last when an update was taken
/// back.
pub fn rollback_operation(operation_id: &str) -> (r: String)
    ensures
        r@ == "rollback-"@ + operation_id@,
{
    text::join2("rollback-", operation_id)
}

/// What follows an attempt to apply an artifact.
#[derive(Debug)]
pub enum ApplyStep {
    /// The artifact `index` is next.
    Apply { index: usize },
    /// Something failed: these artifacts are taken back in this order, and what was
    /// known of the installation before is written again if `restore` says so.
    Undo { order: Vec<usize>, restore: bool },
    /// Everything is applied.
    Commit,
}

/// Whether a step takes the first `count` artifacts back, the last one first, and
/// writes again what was known before, if anything was.
pub open spec fn undoes(step: ApplyStep, count: nat, had_state: bool) -> bool {
    match step {
        ApplyStep::Undo { order, restore } => {
            &&& restore == had_state
            &&& order@.len() == count
            &&& forall|i: int|
                0 <= i < count ==> #[trigger] order@[i] == rollback_order_of(count)[i]
        },
        _ => false,
    }
}

/// What follows a staged artifact `index` that cannot be applied as it is: those
/// before it are taken back. `had_state` says whether anything was known of the
/// installation before.
pub fn give_up_before(index: usize, had_state: bool) -> (r: ApplyStep)
    ensures
        undoes(r, index as nat, had_state),
{
    ApplyStep::Undo { order: rollback_order(index), restore: had_state }
}

/// What comes of one staged artifact.
#[derive(Debug, Clone, Copy, PartialEq, Eq, Structural)]
pub enum ArtifactOutcome {
    Applied,
    /// It is not what was staged.
    CheckFailed,
    /// It could not be applied, and may be applied in part.
    ApplyFailed,
}

/// Whether `step` is what follows when this comes of the artifact `index` of
/// `count`. `had_state` says whether anything was known of the installation before.
pub open spec fn follows(
    step: ApplyStep,
    outcome: ArtifactOutcome,
    index: nat,
    count: nat,
    had_state: bool,
) -> bool {
    match outcome {
        ArtifactOutcome::Applied => if index + 1 < count {
            step matches ApplyStep::Apply { index: next } && next == index + 1
        } else {
            step is Commit
        },
        ArtifactOutcome::CheckFailed => undoes(step, index, had_state),
        ArtifactOutcome::ApplyFailed => undoes(step, index + 1, had_state),
    }
}

/// What follows the check of the staged artifact `index` of `count`, of which
/// `size` and `sha256` are what lies there now: nothing if it is what was staged,
/// else those before it are taken back.
pub fn verify_staged(
    index: usize,
    count: usize,
    artifact: &StagedArtifact,
    size: u64,
    sha256: &str,
    had_state: bool,
) -> (r: Option<ApplyStep>)
    requires
        index < count,
    ensures
        r is None <==> bundle::payload_matches(artifact.size, artifact.sha256@, size, sha256@),
        r matches Some(step) ==> follows(
            step,
            ArtifactOutcome::CheckFailed,
            index as nat,
            count as nat,
            had_state,
        ),
{
    match check_staged(artifact, size, sha256) {
        Ok(()) => None,
        Err(_) => Some(give_up_before(index, had_state)),
    }
}

/// What follows an attempt to apply the artifact `index` of `count`. A failed one
/// may be applied in part, so it is taken back too. `had_state` says whether
/// anything was known of the installation before.
pub fn apply_staged(index: usize, count: usize, applied: bool, had_state: bool) -> (r: ApplyStep)
    requires
        index < count,
    ensures
        follows(
            r,
            if applied {
                ArtifactOutcome::Applied
            } else {
                ArtifactOutcome::ApplyFailed
            },
            index as nat,
            count as nat,
            had_state,
        ),
{
    if !applied {
        return ApplyStep::Undo { order: rollback_order(index + 1), restore: had_state };
    }
    if index + 1 < count {
        ApplyStep::Apply { index: index + 1 }
    } else {
        ApplyStep::Commit
    }
}

/// The artifacts that are left applied when these are, and then this step is
/// taken; none if one is taken back on top of which another one still lies.
pub open spec fn left_after(applied: Seq<int>, step: ApplyStep) -> Option<Seq<int>> {
    match step {
        ApplyStep::Undo { order, .. } => left_applied(
            applied,
            Seq::new(order@.len(), |i: int| order@[i] as int),
        ),
        _ => Some(applied),
    }
}

/// A step that takes the first artifacts back leaves none of them applied.
pub proof fn undoing_leaves_nothing(step: ApplyStep, count: nat, had_state: bool)
    requires
        undoes(step, count, had_state),
    ensures
        left_after(Seq::new(count, |i: int| i), step) == Some(Seq::<int>::empty()),
{
    rollback_takes_everything_back(count);
    if let ApplyStep::Undo { order, .. } = step {
        assert(Seq::new(order@.len(), |i: int| order@[i] as int) =~= rollback_order_of(count));
    }
}

/// Whether `steps` are those of an update from its beginning to its end, where
/// `outcomes` says what comes of each artifact: each step follows what comes of
/// its artifact, and the last one alone does not go on to the next artifact.
pub open spec fn is_run(
    outcomes: Seq<ArtifactOutcome>,
    steps: Seq<ApplyStep>,
    had_state: bool,
) -> bool {
    &&& 0 < steps.len() <= outcomes.len()
    &&& forall|i: int|
        0 <= i < steps.len() ==> follows(
            #[trigger] steps[i],
            outcomes[i],
            i as nat,
            outcomes.len(),
            had_state,
        )
    &&& forall|i: int| 0 <= i < steps.len() - 1 ==> (#[trigger] steps[i]) is Apply
    &&& !(steps.last() is Apply)
}

/// The artifacts that are applied, at least in part, when the last step of an
/// update is taken: all that were tried, but for one that is not what was staged.
pub open spec fn tried(outcomes: Seq<ArtifactOutcome>, steps: Seq<ApplyStep>) -> Seq<int> {
    let last = steps.len() - 1;
    if outcomes[last] == ArtifactOutcome::CheckFailed {
        Seq::new(last as nat, |i: int| i)
    } else {
        Seq::new(steps.len(), |i: int| i)
    }
}

/// An update is applied as a whole or not at all. If every artifact passes its
/// check and is applied, the update is committed and all stay. Otherwise none
/// does, and what was known of the installation before is written again, if
/// anything was.
pub proof fn updates_are_applied_as_a_whole(
    outcomes: Seq<ArtifactOutcome>,
    steps: Seq<ApplyStep>,
    had_state: bool,
)
    requires
        is_run(outcomes, steps, had_state),
    ensures
        (forall|i: int|
            0 <= i < outcomes.len() ==> #[trigger] outcomes[i] == ArtifactOutcome::Applied) ==> {
            &&& steps.last() is Commit
            &&& left_after(tried(outcomes, steps), steps.last()) == Some(
                Seq::new(outcomes.len(), |i: int| i),
            )
        },
        (exists|i: int|
            0 <= i < outcomes.len() && #[trigger] outcomes[i] != ArtifactOutcome::Applied) ==> {
            &&& steps.last() matches ApplyStep::Undo { restore, .. } && restore == had_state
            &&& left_after(tried(outcomes, steps), steps.last()) == Some(Seq::<int>::empty())
        },
{
    let last = steps.len() - 1;
    let step = steps[last];
    assert(follows(step, outcomes[last], last as nat, outcomes.len(), had_state));
    match outcomes[last] {
        ArtifactOutcome::Applied => {
            assert forall|i: int| 0 <= i < outcomes.len() implies #[trigger] outcomes[i]
                == ArtifactOutcome::Applied by {
                if i < last {
                    assert(steps[i] is Apply);
                    assert(follows(steps[i], outcomes[i], i as nat, outcomes.len(), had_state));
                }
            }
        },
        ArtifactOutcome::CheckFailed => {
            undoing_leaves_nothing(step, last as nat, had_state);
        },
        ArtifactOutcome::ApplyFailed => {
            undoing_leaves_nothing(step, steps.len(), had_state);
        },
    }
}

/// The record of a staged update, by which the application learns of it. `mode`
/// and `actions` are those of its plan.
pub open spec fn pending_of(
    operation_path: Seq<char>,
    operation_id: Seq<char>,
    release_id: Seq<char>,
    mode: JsonView,
    artifacts: Seq<Seq<char>>,
    actions: JsonView,
) -> JsonView {
    JsonView::Object(
        seq![
            ("formatVersion"@, JsonView::Number(Some(1))),
            ("operationPath"@, JsonView::Text(operation_path)),
            ("operationId"@, JsonView::Text(operation_id)),
            ("releaseId"@, JsonView::Text(release_id)),
            ("mode"@, mode),
            (
                "artifacts"@,
                JsonView::List(Seq::new(artifacts.len(), |i: int| JsonView::Text(artifacts[i]))),
            ),
            ("actions"@, actions),
        ],
    )
}

/// A list of texts.
fn text_list(texts: &Vec<String>) -> (r: Json)
    ensures
        r@ == JsonView::List(
            Seq::new(texts@.len(), |i: int| JsonView::Text(model::views(texts@)[i])),
        ),
{
    let mut items: Vec<Json> = Vec::new();
    let mut i: usize = 0;
    while i < texts.len()
        invariant
            i <= texts@.len(),
            items@.len() == i,
            forall|k: int| 0 <= k < i ==> #[trigger] items@[k] == Json::Text(texts@[k]),
        decreases texts@.len() - i,
    {
        items.push(Json::Text(texts[i].clone()));
        assert(items@[i as int]@ == JsonView::Text(texts@[i as int]@));
        i = i + 1;
    }
    let list = Json::List(items);
    proof {
        reveal_with_fuel(Json::view, 2);
        assert(list@->List_0 =~= Seq::new(
            texts@.len(),
            |i: int| JsonView::Text(model::views(texts@)[i]),
        ));
    }
    list
}

/// `pending_of`, executable.
pub fn pending_record(
    operation_path: &str,
    operation_id: &str,
    release_id: &str,
    mode: Json,
    artifacts: &Vec<String>,
    actions: Json,
) -> (r: Json)
    ensures
        r@ == pending_of(
            operation_path@,
            operation_id@,
            release_id@,
            mode@,
            model::views(artifacts@),
            actions@,
        ),
{
    let mut fields: Vec<(String, Json)> = Vec::new();
    fields.push(("formatVersion".to_owned(), Json::Number(Some(1))));
    fields.push(("operationPath".to_owned(), Json::Text(operation_path.to_owned())));
    fields.push(("operationId".to_owned(), Json::Text(operation_id.to_owned())));
    fields.push(("releaseId".to_owned(), Json::Text(release_id.to_owned())));
    fields.push(("mode".to_owned(), mode));
    fields.push(("artifacts".to_owned(), text_list(artifacts)));
    fields.push(("actions".to_owned(), actions));
    let r = Json::Object(fields);
    proof {
        reveal_with_fuel(Json::view, 2);
        assert(r@->Object_0 =~= pending_of(
            operation_path@,
            operation_id@,
            release_id@,
            mode@,
            model::views(artifacts@),
            actions@,
        )->Object_0);
    }
    r
}

/// The record of an update names the update, so that it goes once that update was
/// applied, and only then.
pub proof fn pending_names_its_operation(
    operation_path: Seq<char>,
    operation_id: Seq<char>,
    release_id: Seq<char>,
    mode: JsonView,
    artifacts: Seq<Seq<char>>,
    actions: JsonView,
)
    ensures
        pending_of(
            operation_path,
            operation_id,
            release_id,
            mode,
            artifacts,
            actions,
        ).text_field("operationId"@) == Some(operation_id),
{
    reveal_strlit("formatVersion");
    reveal_strlit("operationPath");
    reveal_strlit("operationId");
    let fields = pending_of(
        operation_path,
        operation_id,
        release_id,
        mode,
        artifacts,
        actions,
    )->Object_0;
    assert("formatVersion"@[0] == 'f');
    assert("operationPath"@.len() == 13);
    assert("operationId"@.len() == 11);
    assert("operationId"@[0] == 'o');
    assert(fields[0].0 != "operationId"@);
    let second = fields.subrange(1, fields.len() as int);
    assert(second[0].0 != "operationId"@);
    let third = second.subrange(1, second.len() as int);
    assert(third[0] == fields[2]);
    reveal_with_fuel(json::lookup, 3);
}

/// The record of a staged update says where the update lies, which release it
/// brings, how and with which artifacts.
pub proof fn pending_says_what_was_staged(
    operation_path: Seq<char>,
    operation_id: Seq<char>,
    release_id: Seq<char>,
    mode: JsonView,
    artifacts: Seq<Seq<char>>,
    actions: JsonView,
)
    ensures
        ({
            let record = pending_of(
                operation_path,
                operation_id,
                release_id,
                mode,
                artifacts,
                actions,
            );
            &&& record.count("formatVersion"@) == 1
            &&& record.text_field("operationPath"@) == Some(operation_path)
            &&& record.text_field("releaseId"@) == Some(release_id)
            &&& record.field("mode"@) == Some(mode)
            &&& record.field("actions"@) == Some(actions)
            &&& record.items("artifacts"@).len() == artifacts.len()
            &&& forall|i: int|
                0 <= i < artifacts.len() ==> #[trigger] record.items("artifacts"@)[i]
                    == JsonView::Text(artifacts[i])
        }),
{
    reveal_strlit("formatVersion");
    reveal_strlit("operationPath");
    reveal_strlit("operationId");
    reveal_strlit("releaseId");
    reveal_strlit("mode");
    reveal_strlit("artifacts");
    reveal_strlit("actions");
    let fields = pending_of(
        operation_path,
        operation_id,
        release_id,
        mode,
        artifacts,
        actions,
    )->Object_0;
    assert("formatVersion"@.len() == 13 && "formatVersion"@[0] == 'f');
    assert("operationPath"@.len() == 13 && "operationPath"@[0] == 'o');
    assert("operationId"@.len() == 11);
    assert("releaseId"@.len() == 9 && "releaseId"@[0] == 'r');
    assert("mode"@.len() == 4);
    assert("artifacts"@.len() == 9 && "artifacts"@[0] == 'a');
    assert("actions"@.len() == 7);
    let f1 = fields.subrange(1, fields.len() as int);
    let f2 = f1.subrange(1, f1.len() as int);
    let f3 = f2.subrange(1, f2.len() as int);
    let f4 = f3.subrange(1, f3.len() as int);
    let f5 = f4.subrange(1, f4.len() as int);
    let f6 = f5.subrange(1, f5.len() as int);
    assert(f1[0] == fields[1]);
    assert(f2[0] == fields[2]);
    assert(f3[0] == fields[3]);
    assert(f4[0] == fields[4]);
    assert(f5[0] == fields[5]);
    assert(f6[0] == fields[6]);
    reveal_with_fuel(json::lookup, 8);
}

/// Whether the record of a pending update is that of the operation that was just
/// applied, so that it goes.
pub fn pending_is_done(pending: &Json, operation_id: &str) -> (r: bool)
    ensures
        r == (pending@.text_field("operationId"@) == Some(operation_id@)),
{
    match pending.text_field("operationId") {
        Some(id) => text::same(id.as_str(), operation_id),
        None => false,
    }
}

/// The program to start after an update; `-` means none.
pub fn relaunch_target(relaunch: Option<&str>) -> (r: Option<String>)
    ensures
        model::opt_view(r) == (match relaunch {
            Some(program) => if program@ == "-"@ {
                None
            } else {
                Some(program@)
            },
            None => None,
        }),
{
    match relaunch {
        Some(program) => if text::same(program, "-") {
            None
        } else {
            Some(program.to_owned())
        },
        None => None,
    }
}

/// How long the restarted program may take to confirm an update.
pub const HEALTH_TIMEOUT_MS: u64 = 30_000;

/// What follows a look at the restarted program.
#[derive(Debug, Clone, Copy, PartialEq, Eq, Structural)]
pub enum HealthStep {
    /// It confirmed the update.
    Confirmed,
    /// Look again after a fifth of a second.
    Again,
    /// It ended, or took too long.
    Failed,
}

/// What follows a look at the restarted program after `waited_ms`.
pub open spec fn health_step(confirmed: bool, exited: bool, waited_ms: u64) -> HealthStep {
    if waited_ms >= HEALTH_TIMEOUT_MS {
        HealthStep::Failed
    } else if confirmed {
        HealthStep::Confirmed
    } else if exited {
        HealthStep::Failed
    } else {
        HealthStep::Again
    }
}

/// `health_step`, executable.
pub fn relaunch_and_verify(confirmed: bool, exited: bool, waited_ms: u64) -> (r: HealthStep)
    ensures
        r == health_step(confirmed, exited, waited_ms),
{
    if waited_ms >= HEALTH_TIMEOUT_MS {
        HealthStep::Failed
    } else if confirmed {
        HealthStep::Confirmed
    } else if exited {
        HealthStep::Failed
    } else {
        HealthStep::Again
    }
}

/// An update stays exactly if the restarted program confirmed it in time. A
/// program that ended without that makes it fail, and so does one that takes too
/// long; any other is looked at again.
pub proof fn only_a_timely_confirmation_keeps_the_update(
    confirmed: bool,
    exited: bool,
    waited_ms: u64,
)
    ensures
        health_step(confirmed, exited, waited_ms) == HealthStep::Confirmed <==> confirmed
            && waited_ms < 30_000,
        !confirmed && exited ==> health_step(confirmed, exited, waited_ms) == HealthStep::Failed,
        waited_ms >= 30_000 ==> health_step(confirmed, exited, waited_ms) == HealthStep::Failed,
        health_step(confirmed, exited, waited_ms) == HealthStep::Again <==> !confirmed && !exited
            && waited_ms < 30_000,
{
}

/// A program that ends after it confirmed the update does not make it fail.
pub proof fn confirmation_outlives_the_program(exited: bool, waited_ms: u64)
    requires
        waited_ms < HEALTH_TIMEOUT_MS,
    ensures
        health_step(true, exited, waited_ms) == HealthStep::Confirmed,
{
}

/// What is said of a program that did not confirm an update.
pub fn health_message(operation_id: &str) -> (r: String)
    ensures
        r@ == "restarted application did not confirm update health within 30 seconds: "@
            + operation_id@,
{
    text::join2(
        "restarted application did not confirm update health within 30 seconds: ",
        operation_id,
    )
}

/// Whether an update can be taken back: no artifact brought the whole product.
pub open spec fn can_roll_back(staged: Seq<StagedView>) -> bool {
    forall|i: int| 0 <= i < staged.len() ==> !bundle::is_full((#[trigger] staged[i]).kind)
}

/// One artifact that brought the whole product is enough that an update cannot be
/// taken back, wherever it stands among the others; without one it can.
pub proof fn whole_products_are_not_taken_back(staged: Seq<StagedArtifact>)
    ensures
        can_roll_back(model::views(staged)) <==> forall|i: int|
            0 <= i < staged.len() ==> (#[trigger] staged[i]).kind@ != "full"@,
{
    let all = model::views(staged);
    assert forall|i: int| 0 <= i < staged.len() implies #[trigger] all[i] == staged[i]@ by {}
    if can_roll_back(all) {
        assert forall|i: int| 0 <= i < staged.len() implies (#[trigger] staged[i]).kind@
            != "full"@ by {
            assert(!bundle::is_full(all[i].kind));
        }
    }
    if forall|i: int| 0 <= i < staged.len() ==> (#[trigger] staged[i]).kind@ != "full"@ {
        assert forall|i: int| 0 <= i < all.len() implies !bundle::is_full(
            (#[trigger] all[i]).kind,
        ) by {
            assert(staged[i].kind@ != "full"@);
        }
    }
}

/// `can_roll_back`, executable.
pub fn rollback_supported(staged: &Vec<StagedArtifact>) -> (r: bool)
    ensures
        r == can_roll_back(model::views(staged@)),
{
    let ghost all = model::views(staged@);
    let mut i: usize = 0;
    while i < staged.len()
        invariant
            i <= staged@.len(),
            all == model::views(staged@),
            forall|k: int| 0 <= k < i ==> !bundle::is_full((#[trigger] all[k]).kind),
        decreases staged@.len() - i,
    {
        assert(all[i as int] == staged@[i as int]@);
        if text::same(staged[i].kind.as_str(), "full") {
            return false;
        }
        i = i + 1;
    }
    true
}

/// The name of the file by which the restarted program confirms an operation.
pub fn health_file(operation_id: &str) -> (r: String)
    ensures
        r@ == operation_id@ + ".ok"@,
{
    text::join2(operation_id, ".ok")
}

/// Checks that the record of a staged operation is named as one and lies below
/// the directory for them. Both paths are canonical; `file_name` is the last
/// component of `operation`.
pub fn verify_staged_operation_path(
    operation: &str,
    file_name: Option<&str>,
    staging: &str,
    windows: bool,
) -> (r: Result<(), String>)
    ensures
        ({
            let named = match file_name {
                Some(name) => name@ == "operation.json"@,
                None => false,
            };
            let below = paths::is_inside(operation@, staging@, windows);
            &&& r is Ok <==> named && below
            &&& r matches Err(message) ==> message@ == (if !named {
                "staged operation must be named operation.json"@
            } else {
                "staged operation is outside the verified installation: "@ + operation@
            })
        }),
{
    let named = match file_name {
        Some(name) => text::same(name, "operation.json"),
        None => false,
    };
    if !named {
        return Err("staged operation must be named operation.json".to_owned());
    }
    if !paths::path_is_inside(operation, staging, windows) {
        return Err(
            text::join2("staged operation is outside the verified installation: ", operation),
        );
    }
    Ok(())
}

/// The first artifact of a name in a catalog is the one found; without one of that name
/// there is none.
pub proof fn first_artifact_of_a_name_is_found(
    catalog: Seq<CatalogArtifact>,
    id: Seq<char>,
    i: int,
)
    ensures
        0 <= i < catalog.len() && catalog[i].id@ == id && (forall|j: int|
            0 <= j < i ==> (#[trigger] catalog[j]).id@ != id) ==> place_in(catalog, id) == Some(i),
        (forall|j: int| 0 <= j < catalog.len() ==> (#[trigger] catalog[j]).id@ != id) ==> place_in(
            catalog,
            id,
        ) is None,
    decreases catalog.len(),
{
    if catalog.len() > 0 {
        let front = catalog.drop_last();
        let last = catalog.len() - 1;
        first_artifact_of_a_name_is_found(front, id, i);
        assert(catalog.last() == catalog[last]);
        assert forall|j: int| 0 <= j < last implies front[j] == catalog[j] by {}
        if forall|j: int| 0 <= j < catalog.len() ==> (#[trigger] catalog[j]).id@ != id {
            assert forall|j: int| 0 <= j < front.len() implies (#[trigger] front[j]).id@ != id by {
                assert(catalog[j].id@ != id);
            }
        }
        if 0 <= i < catalog.len() && catalog[i].id@ == id && (forall|j: int|
            0 <= j < i ==> (#[trigger] catalog[j]).id@ != id) {
            assert forall|j: int| 0 <= j < i && j < front.len() implies (#[trigger] front[j]).id@
                != id by {
                assert(catalog[j].id@ != id);
            }
            if i < last {
                assert(front[i].id@ == id);
            }
        }
    }
}

} // verus!
