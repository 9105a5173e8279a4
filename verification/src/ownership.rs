//! Owning the runtime resources: the locks that one daemon takes, the socket it binds, and the files
//! it trusts.

use crate::output_device::opt_text;
use crate::state::text_models;
use crate::paths::{
    join_path, path_before, path_before_irreflexive, path_before_total, path_before_transitive,
    path_comes_before, path_in,
};
use crate::text::{join2, join3, same_text};
use vstd::prelude::*;

verus! {

/// A runtime resource: the canonical directory that holds it, and its file name.
#[derive(Debug)]
pub struct RuntimeResource {
    pub parent: String,
    pub file_name: String,
}

/// The path of the lock that stands for a resource.
pub open spec fn lock_path(r: RuntimeResource) -> Seq<char> {
    path_in(r.parent@, r.file_name@ + ".owner.lock"@)
}

fn lock_path_of(resource: &RuntimeResource) -> (r: String)
    ensures
        r@ == lock_path(*resource),
{
    let name = join2(resource.file_name.as_str(), ".owner.lock");
    join_path(resource.parent.as_str(), name.as_str())
}

/// Whether paths stand in order, none of them twice.
pub open spec fn ascends(texts: Seq<Seq<char>>) -> bool {
    forall|i: int, j: int|
        0 <= i < j < texts.len() ==> path_before(#[trigger] texts[i], #[trigger] texts[j])
}

fn place_text(list: &mut Vec<String>, text: String)
    requires
        ascends(text_models(old(list)@)),
    ensures
        ascends(text_models(final(list)@)),
        text_models(final(list)@).to_set() == text_models(old(list)@).to_set().insert(text@),
{
    let ghost before = text_models(list@);
    let mut at: usize = 0;
    while at < list.len() && path_comes_before(list[at].as_str(), text.as_str())
        invariant
            at <= list@.len(),
            text_models(list@) == before,
            forall|k: int| 0 <= k < at ==> path_before(#[trigger] before[k], text@),
        decreases list@.len() - at,
    {
        at = at + 1;
    }
    if at < list.len() && same_text(list[at].as_str(), text.as_str()) {
        proof {
            assert(before[at as int] == text@);
            assert(before.to_set() =~= before.to_set().insert(text@));
        }
    } else {
        let ghost p = at as int;
        let ghost model = text@;
        proof {
            if p < before.len() {
                path_before_total(before[p], model);
            }
            assert forall|k: int| p <= k < before.len() implies path_before(model, #[trigger] before[k]) by {
                if k > p {
                    path_before_transitive(model, before[p], before[k]);
                }
            }
            let after = before.insert(p, model);
            assert forall|i: int, j: int| 0 <= i < j < after.len() implies path_before(
                #[trigger] after[i],
                #[trigger] after[j],
            ) by {
                let pi = if i < p { i } else { i - 1 };
                let pj = if j < p { j } else { j - 1 };
                if i != p {
                    assert(after[i] == before[pi]);
                }
                if j != p {
                    assert(after[j] == before[pj]);
                }
            }
            assert(after.to_set() =~= before.to_set().insert(model)) by {
                assert forall|x: Seq<char>| after.to_set().contains(x) == before.to_set().insert(model).contains(x) by {
                    if after.contains(x) {
                        let i = choose|i: int| 0 <= i < after.len() && after[i] == x;
                        if i != p {
                            let pi = if i < p { i } else { i - 1 };
                            assert(before[pi] == x);
                        }
                    }
                    if before.contains(x) {
                        let i = choose|i: int| 0 <= i < before.len() && before[i] == x;
                        let ni = if i < p { i } else { i + 1 };
                        assert(after[ni] == x);
                    }
                    assert(after[p] == model);
                }
            }
        }
        let ghost prior = list@;
        list.insert(at, text);
        proof {
            assert(text_models(list@) =~= before.insert(p, model));
        }
    }
}

/// The paths of the locks of some resources.
pub open spec fn lock_set(resources: Seq<RuntimeResource>) -> Set<Seq<char>> {
    resources.map_values(|r: RuntimeResource| lock_path(r)).to_set()
}

/// The locks to take for some resources, in the order in which every daemon takes them, none of
/// them twice. Ownership of nothing is refused.
pub fn ownership_lock_paths(resources: &Vec<RuntimeResource>) -> (r: Result<Vec<String>, String>)
    ensures
        match r {
            Ok(paths) => resources@.len() > 0 && ascends(text_models(paths@)) && text_models(
                paths@,
            ).to_set() == lock_set(resources@),
            Err(e) => resources@.len() == 0 && e@
                == "daemon ownership requires at least one runtime resource"@,
        },
{
    if resources.len() == 0 {
        return Err("daemon ownership requires at least one runtime resource".to_owned());
    }
    let ghost paths = resources@.map_values(|r: RuntimeResource| lock_path(r));
    let mut out: Vec<String> = Vec::new();
    let mut i: usize = 0;
    proof {
        assert(text_models(out@) =~= Seq::<Seq<char>>::empty());
        assert(paths.take(0) =~= Seq::<Seq<char>>::empty());
    }
    while i < resources.len()
        invariant
            i <= resources.len(),
            paths == resources@.map_values(|r: RuntimeResource| lock_path(r)),
            ascends(text_models(out@)),
            text_models(out@).to_set() == paths.take(i as int).to_set(),
        decreases resources.len() - i,
    {
        let path = lock_path_of(&resources[i]);
        proof {
            let front = paths.take(i as int);
            assert(paths.take(i + 1) =~= front.push(paths[i as int]));
            assert(front.push(paths[i as int]).to_set() =~= front.to_set().insert(paths[i as int])) by {
                assert forall|x: Seq<char>| front.push(paths[i as int]).to_set().contains(x)
                    == front.to_set().insert(paths[i as int]).contains(x) by {
                    let grown = front.push(paths[i as int]);
                    if grown.contains(x) {
                        let k = choose|k: int| 0 <= k < grown.len() && grown[k] == x;
                        if k < front.len() {
                            assert(front[k] == x);
                        }
                    }
                    if front.contains(x) {
                        let k = choose|k: int| 0 <= k < front.len() && front[k] == x;
                        assert(grown[k] == x);
                    }
                    assert(grown[front.len() as int] == paths[i as int]);
                }
            }
        }
        place_text(&mut out, path);
        i = i + 1;
    }
    proof {
        assert(paths.take(i as int) =~= paths);
    }
    Ok(out)
}

/// Two daemons take the locks that they share in the same order, so neither can hold one that the
/// other waits for while it waits for one that the other holds.
pub proof fn shared_locks_are_taken_in_one_order(
    mine: Seq<Seq<char>>,
    yours: Seq<Seq<char>>,
    i: int,
    j: int,
    p: int,
    q: int,
)
    requires
        ascends(mine),
        ascends(yours),
        0 <= i < j < mine.len(),
        0 <= p < yours.len(),
        0 <= q < yours.len(),
        mine[i] == yours[p],
        mine[j] == yours[q],
    ensures
        p < q,
{
    assert(path_before(mine[i], mine[j]));
    if p == q {
        path_before_irreflexive(mine[i]);
    } else if q < p {
        assert(path_before(yours[q], yours[p]));
        path_before_transitive(mine[i], mine[j], mine[i]);
        path_before_irreflexive(mine[i]);
    }
}

/// Whether two resources are the same file.
pub open spec fn same_resource(a: RuntimeResource, b: RuntimeResource) -> bool {
    a.parent@ == b.parent@ && a.file_name@ == b.file_name@
}

/// Two sets of resources that share one also share a lock.
pub proof fn shared_resources_share_a_lock(
    mine: Seq<RuntimeResource>,
    yours: Seq<RuntimeResource>,
    i: int,
    j: int,
)
    requires
        0 <= i < mine.len(),
        0 <= j < yours.len(),
        same_resource(mine[i], yours[j]),
    ensures
        lock_set(mine).contains(lock_path(mine[i])),
        lock_set(yours).contains(lock_path(mine[i])),
        !lock_set(mine).disjoint(lock_set(yours)),
{
    let p = lock_path(mine[i]);
    let a = mine.map_values(|r: RuntimeResource| lock_path(r));
    let b = yours.map_values(|r: RuntimeResource| lock_path(r));
    assert(a[i] == p);
    assert(b[j] == p);
    assert(a.to_set().contains(p));
    assert(b.to_set().contains(p));
}

/// How taking one lock came out.
#[derive(Debug)]
pub enum LockReply {
    /// The lock is held now.
    Taken,
    /// The lock file could not be opened, which a link in its place also causes.
    NotOpened(String),
    /// What was opened is not a regular file.
    NotRegular,
    /// Another owner holds the lock.
    Held(String),
    /// Something else went wrong.
    Failed(String),
}

/// Why ownership is refused.
#[derive(Debug, Clone, Copy, PartialEq, Eq, Structural)]
pub enum ClaimFault {
    /// A lock file cannot be used.
    Unusable,
    /// What stands in place of a lock file is something else.
    Denied,
    /// Another owner holds a lock.
    InUse,
}

/// What a claim asks of its surroundings.
#[derive(Debug)]
pub enum ClaimAction {
    /// Open the lock file, without following a link, and lock it.
    Take(String),
    /// All resources are owned as long as the locks are held.
    Own,
    /// Give back every lock that was taken: ownership is refused.
    Refuse(ClaimFault, String),
}

/// What a `ClaimAction` stands for.
pub enum ClaimAct {
    Take(Seq<char>),
    Own,
    Refuse(ClaimFault, Seq<char>),
}

impl View for ClaimAction {
    type V = ClaimAct;

    open spec fn view(&self) -> ClaimAct {
        match *self {
            ClaimAction::Take(path) => ClaimAct::Take(path@),
            ClaimAction::Own => ClaimAct::Own,
            ClaimAction::Refuse(fault, text) => ClaimAct::Refuse(fault, text@),
        }
    }
}

/// A claim to runtime resources under way: the locks, in their order, and how many of them it holds.
#[derive(Debug)]
pub struct OwnershipClaim {
    pub paths: Vec<String>,
    pub taken: usize,
}

/// What an `OwnershipClaim` stands for.
#[verifier::ext_equal]
pub struct ClaimModel {
    pub paths: Seq<Seq<char>>,
    pub taken: int,
}

impl View for OwnershipClaim {
    type V = ClaimModel;

    open spec fn view(&self) -> ClaimModel {
        ClaimModel { paths: text_models(self.paths@), taken: self.taken as int }
    }
}

/// Why a lock was not taken, in words.
pub open spec fn lock_refusal(path: Seq<char>, reply: LockReply) -> (ClaimFault, Seq<char>) {
    match reply {
        LockReply::NotOpened(e) => (
            ClaimFault::Unusable,
            "failed to open ownership lock "@ + path + ": "@ + e@,
        ),
        LockReply::NotRegular => (
            ClaimFault::Denied,
            "ownership lock "@ + path + " is not a regular file"@,
        ),
        LockReply::Held(e) => (
            ClaimFault::InUse,
            "another sotf-daemon instance owns runtime resource lock "@ + path + ": "@ + e@,
        ),
        LockReply::Failed(e) => (ClaimFault::Unusable, e@),
        LockReply::Taken => (ClaimFault::Unusable, Seq::empty()),
    }
}

/// What a reply leads to: the next lock, ownership after the last one, or a refusal that holds no
/// lock.
pub open spec fn claim_step(c: ClaimModel, reply: LockReply) -> (ClaimModel, ClaimAct) {
    if reply is Taken {
        let next = ClaimModel { taken: c.taken + 1, ..c };
        if next.taken < c.paths.len() {
            (next, ClaimAct::Take(c.paths[next.taken]))
        } else {
            (next, ClaimAct::Own)
        }
    } else {
        let (fault, text) = lock_refusal(c.paths[c.taken], reply);
        (ClaimModel { taken: 0, ..c }, ClaimAct::Refuse(fault, text))
    }
}

impl OwnershipClaim {
    /// Begins to claim some resources. A claim to nothing is refused.
    pub fn begin(resources: &Vec<RuntimeResource>) -> (r: Result<(OwnershipClaim, ClaimAction), String>)
        ensures
            match r {
                Ok((claim, action)) => resources@.len() > 0 && ascends(claim@.paths)
                    && claim@.paths.to_set() == lock_set(resources@) && claim@.paths.len() > 0
                    && claim@.taken == 0 && action@ == ClaimAct::Take(claim@.paths[0]),
                Err(e) => resources@.len() == 0 && e@
                    == "daemon ownership requires at least one runtime resource"@,
            },
    {
        match ownership_lock_paths(resources) {
            Err(error) => Err(error),
            Ok(paths) => {
                proof {
                    let all = resources@.map_values(|r: RuntimeResource| lock_path(r));
                    assert(all[0] == lock_path(resources@[0]));
                    assert(all.to_set().contains(all[0]));
                    assert(text_models(paths@).to_set().contains(all[0]));
                    assert(text_models(paths@).len() == paths@.len());
                }
                let first = paths[0].clone();
                Ok((OwnershipClaim { paths, taken: 0 }, ClaimAction::Take(first)))
            },
        }
    }

    /// Takes in how taking the lock came out.
    pub fn step(&mut self, reply: LockReply) -> (r: ClaimAction)
        requires
            old(self)@.taken < old(self)@.paths.len(),
        ensures
            (final(self)@, r@) == claim_step(old(self)@, reply),
    {
        let count: usize = self.paths.len();
        let path = self.paths[self.taken].clone();
        match reply {
            LockReply::Taken => {
                self.taken = self.taken + 1;
                if self.taken < count {
                    ClaimAction::Take(self.paths[self.taken].clone())
                } else {
                    ClaimAction::Own
                }
            },
            LockReply::NotOpened(error) => {
                self.taken = 0;
                let lead = join3("failed to open ownership lock ", path.as_str(), ": ");
                ClaimAction::Refuse(ClaimFault::Unusable, join2(lead.as_str(), error.as_str()))
            },
            LockReply::NotRegular => {
                self.taken = 0;
                ClaimAction::Refuse(
                    ClaimFault::Denied,
                    join3("ownership lock ", path.as_str(), " is not a regular file"),
                )
            },
            LockReply::Held(error) => {
                self.taken = 0;
                let lead = join3(
                    "another sotf-daemon instance owns runtime resource lock ",
                    path.as_str(),
                    ": ",
                );
                ClaimAction::Refuse(ClaimFault::InUse, join2(lead.as_str(), error.as_str()))
            },
            LockReply::Failed(error) => {
                self.taken = 0;
                ClaimAction::Refuse(ClaimFault::Unusable, error)
            },
        }
    }
}

/// A claim after some replies, and what it asked for or said last.
pub open spec fn after_locks(c: ClaimModel, action: ClaimAct, replies: Seq<LockReply>) -> (
    ClaimModel,
    ClaimAct,
)
    decreases replies.len(),
{
    if replies.len() == 0 || !(action is Take) {
        (c, action)
    } else {
        let next = claim_step(c, replies[0]);
        after_locks(next.0, next.1, replies.drop_first())
    }
}

/// Whether locks exclude each other: none of those that others hold is taken. The replies are those
/// to the locks from `from` on.
pub open spec fn locks_exclude(
    paths: Seq<Seq<char>>,
    others: Set<Seq<char>>,
    from: int,
    replies: Seq<LockReply>,
) -> bool {
    forall|i: int|
        0 <= i < replies.len() && from + i < paths.len() && (#[trigger] replies[i]) is Taken
            ==> !others.contains(paths[from + i])
}

proof fn lemma_held_lock_blocks(
    c: ClaimModel,
    action: ClaimAct,
    others: Set<Seq<char>>,
    at: int,
    replies: Seq<LockReply>,
)
    requires
        0 <= c.taken <= at < c.paths.len(),
        others.contains(c.paths[at]),
        action is Take,
        locks_exclude(c.paths, others, c.taken, replies),
    ensures
        ({
            let last = after_locks(c, action, replies);
            &&& !(last.1 is Own)
            &&& last.1 is Refuse ==> last.0.taken == 0
            &&& last.0.taken <= at
        }),
    decreases replies.len(),
{
    reveal_with_fuel(after_locks, 2);
    if replies.len() > 0 {
        let next = claim_step(c, replies[0]);
        if replies[0] is Taken {
            assert(c.taken != at) by {
                assert(c.paths[c.taken + 0] == c.paths[c.taken]);
            }
            let rest = replies.drop_first();
            assert(locks_exclude(c.paths, others, c.taken + 1, rest)) by {
                assert forall|i: int|
                    0 <= i < rest.len() && c.taken + 1 + i < c.paths.len() && (#[trigger] rest[i]) is Taken
                    implies !others.contains(c.paths[c.taken + 1 + i]) by {
                    assert(rest[i] == replies[i + 1]);
                    assert(c.paths[c.taken + (i + 1)] == c.paths[c.taken + 1 + i]);
                }
            }
            lemma_held_lock_blocks(next.0, next.1, others, at, rest);
        }
    }
}

/// While an owner holds its locks, a claim to resources of which it owns one never succeeds, however
/// its other locks come out, and a refused claim holds no lock.
pub proof fn overlapping_owners_exclude_each_other(
    mine: Seq<RuntimeResource>,
    yours: Seq<RuntimeResource>,
    i: int,
    j: int,
    paths: Seq<Seq<char>>,
    replies: Seq<LockReply>,
)
    requires
        0 <= i < mine.len(),
        0 <= j < yours.len(),
        same_resource(mine[i], yours[j]),
        paths.to_set() == lock_set(yours),
        locks_exclude(paths, lock_set(mine), 0, replies),
    ensures
        ({
            let last = after_locks(
                ClaimModel { paths, taken: 0 },
                ClaimAct::Take(paths[0]),
                replies,
            );
            &&& !(last.1 is Own)
            &&& last.1 is Refuse ==> last.0.taken == 0
        }),
{
    shared_resources_share_a_lock(mine, yours, i, j);
    let p = lock_path(mine[i]);
    assert(paths.to_set().contains(p));
    let at = choose|at: int| 0 <= at < paths.len() && paths[at] == p;
    lemma_held_lock_blocks(
        ClaimModel { paths, taken: 0 },
        ClaimAct::Take(paths[0]),
        lock_set(mine),
        at,
        replies,
    );
}

proof fn lemma_ascending_is_distinct(paths: Seq<Seq<char>>)
    requires
        ascends(paths),
    ensures
        paths.no_duplicates(),
{
    assert forall|i: int, j: int| 0 <= i < paths.len() && 0 <= j < paths.len() && i != j implies paths[i]
        != paths[j] by {
        path_before_irreflexive(paths[i]);
        if i < j {
            assert(path_before(paths[i], paths[j]));
        } else {
            assert(path_before(paths[j], paths[i]));
        }
    }
}

proof fn lemma_free_locks_are_owned(c: ClaimModel, action: ClaimAct, replies: Seq<LockReply>)
    requires
        0 <= c.taken < c.paths.len(),
        action is Take,
        replies.len() == c.paths.len() - c.taken,
        forall|i: int| 0 <= i < replies.len() ==> (#[trigger] replies[i]) is Taken,
    ensures
        after_locks(c, action, replies).1 is Own,
        after_locks(c, action, replies).0.taken == c.paths.len(),
    decreases replies.len(),
{
    reveal_with_fuel(after_locks, 2);
    let next = claim_step(c, replies[0]);
    if replies.len() > 1 {
        let rest = replies.drop_first();
        assert forall|i: int| 0 <= i < rest.len() implies (#[trigger] rest[i]) is Taken by {
            assert(rest[i] == replies[i + 1]);
        }
        lemma_free_locks_are_owned(next.0, next.1, rest);
    }
}

/// A claim whose locks are all free succeeds, and takes none of them twice, however often a resource
/// was named.
pub proof fn free_resources_can_be_owned(paths: Seq<Seq<char>>, replies: Seq<LockReply>)
    requires
        paths.len() > 0,
        ascends(paths),
        replies.len() == paths.len(),
        forall|i: int| 0 <= i < replies.len() ==> (#[trigger] replies[i]) is Taken,
    ensures
        after_locks(ClaimModel { paths, taken: 0 }, ClaimAct::Take(paths[0]), replies).1 is Own,
        paths.no_duplicates(),
{
    lemma_free_locks_are_owned(ClaimModel { paths, taken: 0 }, ClaimAct::Take(paths[0]), replies);
    lemma_ascending_is_distinct(paths);
}

/// The locks that a claim holds.
pub open spec fn locks_held(c: ClaimModel) -> Set<Seq<char>> {
    c.paths.take(c.taken).to_set()
}

/// Whether a claim takes its locks in a file system where other owners hold some locks and links
/// stand in place of some lock files: a link is not opened, a lock that is held is not taken, and
/// any other one is. The replies are those to the locks from `from` on.
pub open spec fn file_system_answers(
    paths: Seq<Seq<char>>,
    held: Set<Seq<char>>,
    links: Set<Seq<char>>,
    from: int,
    replies: Seq<LockReply>,
) -> bool {
    forall|i: int|
        0 <= i < replies.len() && from + i < paths.len() ==> {
            let reply = #[trigger] replies[i];
            if links.contains(paths[from + i]) {
                reply is NotOpened
            } else if held.contains(paths[from + i]) {
                reply is Held
            } else {
                reply is Taken
            }
        }
}

/// The claim to some locks after some replies, and what it asked for or said last.
pub open spec fn claimed(paths: Seq<Seq<char>>, replies: Seq<LockReply>) -> (ClaimModel, ClaimAct) {
    after_locks(ClaimModel { paths, taken: 0 }, ClaimAct::Take(paths[0]), replies)
}

/// Whether a claim is answered in such a file system: by ownership or by a refusal.
pub open spec fn claim_is_answered(
    paths: Seq<Seq<char>>,
    held: Set<Seq<char>>,
    links: Set<Seq<char>>,
    replies: Seq<LockReply>,
) -> bool {
    file_system_answers(paths, held, links, 0, replies) && !(claimed(paths, replies).1 is Take)
}

proof fn lemma_claim_answers(
    c: ClaimModel,
    action: ClaimAct,
    held: Set<Seq<char>>,
    links: Set<Seq<char>>,
    replies: Seq<LockReply>,
)
    requires
        0 <= c.taken < c.paths.len(),
        action is Take,
        file_system_answers(c.paths, held, links, c.taken, replies),
        forall|i: int|
            0 <= i < c.taken ==> !held.contains(#[trigger] c.paths[i]) && !links.contains(c.paths[i]),
    ensures
        ({
            let last = after_locks(c, action, replies);
            &&& last.0.paths == c.paths
            &&& last.1 is Own ==> last.0.taken == c.paths.len() && forall|i: int|
                0 <= i < c.paths.len() ==> !held.contains(#[trigger] c.paths[i]) && !links.contains(
                    c.paths[i],
                )
            &&& last.1 is Refuse ==> last.0.taken == 0 && exists|i: int|
                0 <= i < c.paths.len() && (held.contains(#[trigger] c.paths[i]) || links.contains(
                    c.paths[i],
                ))
            &&& last.1 is Refuse && links.is_empty() ==> last.1->Refuse_0 == ClaimFault::InUse
        }),
    decreases replies.len(),
{
    reveal_with_fuel(after_locks, 2);
    if replies.len() > 0 {
        let next = claim_step(c, replies[0]);
        let here = c.paths[c.taken];
        assert(c.paths[c.taken + 0] == here);
        if replies[0] is Taken {
            let rest = replies.drop_first();
            assert(file_system_answers(c.paths, held, links, c.taken + 1, rest)) by {
                assert forall|i: int|
                    0 <= i < rest.len() && c.taken + 1 + i < c.paths.len() implies ({
                    let reply = #[trigger] rest[i];
                    if links.contains(c.paths[c.taken + 1 + i]) {
                        reply is NotOpened
                    } else if held.contains(c.paths[c.taken + 1 + i]) {
                        reply is Held
                    } else {
                        reply is Taken
                    }
                }) by {
                    assert(rest[i] == replies[i + 1]);
                    assert(c.paths[c.taken + (i + 1)] == c.paths[c.taken + 1 + i]);
                }
            }
            if next.1 is Take {
                lemma_claim_answers(next.0, next.1, held, links, rest);
            }
        }
    }
}

proof fn lemma_claim_answer(
    paths: Seq<Seq<char>>,
    held: Set<Seq<char>>,
    links: Set<Seq<char>>,
    replies: Seq<LockReply>,
)
    requires
        paths.len() > 0,
        claim_is_answered(paths, held, links, replies),
    ensures
        ({
            let last = claimed(paths, replies);
            &&& last.1 is Own <==> paths.to_set().disjoint(held) && paths.to_set().disjoint(links)
            &&& last.1 is Own ==> locks_held(last.0) == paths.to_set()
            &&& last.1 is Refuse <==> !(last.1 is Own)
            &&& last.1 is Refuse ==> locks_held(last.0).is_empty()
            &&& last.1 is Refuse && links.is_empty() ==> last.1->Refuse_0 == ClaimFault::InUse
        }),
{
    let last = claimed(paths, replies);
    lemma_claim_answers(
        ClaimModel { paths, taken: 0 },
        ClaimAct::Take(paths[0]),
        held,
        links,
        replies,
    );
    if last.1 is Own {
        assert(last.0.paths.take(last.0.taken) =~= paths);
        assert forall|p: Seq<char>| paths.to_set().contains(p) implies !held.contains(p)
            && !links.contains(p) by {
            let i = choose|i: int| 0 <= i < paths.len() && paths[i] == p;
            assert(paths[i] == p);
        }
    } else {
        let i = choose|i: int|
            0 <= i < paths.len() && (held.contains(#[trigger] paths[i]) || links.contains(paths[i]));
        assert(paths.to_set().contains(paths[i]));
        assert(last.0.paths.take(0) =~= Seq::<Seq<char>>::empty());
        assert(locks_held(last.0) =~= Set::<Seq<char>>::empty());
    }
}

/// Ownership is exclusive until it is given up. Where one owner holds `mine`, which shares a
/// resource with `yours`:
///
/// - a claim to `yours` is refused as in use while the first owner lives, and keeps no lock;
/// - once the first owner gave its locks up, such a claim is granted, and holds the locks of `yours`,
///   each once, however often a resource is named;
/// - where a link stands in place of one of its lock files, a claim is refused and keeps no lock.
pub proof fn ownership_is_exclusive_until_released(
    mine: Seq<RuntimeResource>,
    yours: Seq<RuntimeResource>,
    i: int,
    j: int,
    my_paths: Seq<Seq<char>>,
    your_paths: Seq<Seq<char>>,
    granted: Seq<LockReply>,
    while_held: Seq<LockReply>,
    once_released: Seq<LockReply>,
    links: Set<Seq<char>>,
    with_links: Seq<LockReply>,
)
    requires
        0 <= i < mine.len(),
        0 <= j < yours.len(),
        same_resource(mine[i], yours[j]),
        ascends(my_paths) && my_paths.to_set() == lock_set(mine) && my_paths.len() > 0,
        ascends(your_paths) && your_paths.to_set() == lock_set(yours) && your_paths.len() > 0,
        claim_is_answered(my_paths, Set::empty(), Set::empty(), granted),
        claim_is_answered(
            your_paths,
            locks_held(claimed(my_paths, granted).0),
            Set::empty(),
            while_held,
        ),
        claim_is_answered(your_paths, Set::empty(), Set::empty(), once_released),
        !links.disjoint(lock_set(yours)),
        claim_is_answered(your_paths, Set::empty(), links, with_links),
    ensures
        claimed(my_paths, granted).1 is Own,
        locks_held(claimed(my_paths, granted).0) == lock_set(mine),
        claimed(your_paths, while_held).1 is Refuse,
        claimed(your_paths, while_held).1->Refuse_0 == ClaimFault::InUse,
        locks_held(claimed(your_paths, while_held).0).is_empty(),
        claimed(your_paths, once_released).1 is Own,
        locks_held(claimed(your_paths, once_released).0) == lock_set(yours),
        your_paths.no_duplicates(),
        claimed(your_paths, with_links).1 is Refuse,
        locks_held(claimed(your_paths, with_links).0).is_empty(),
{
    let none = Set::<Seq<char>>::empty();
    shared_resources_share_a_lock(mine, yours, i, j);
    lemma_claim_answer(my_paths, none, none, granted);
    lemma_claim_answer(your_paths, locks_held(claimed(my_paths, granted).0), none, while_held);
    lemma_claim_answer(your_paths, none, none, once_released);
    lemma_claim_answer(your_paths, none, links, with_links);
    let p = lock_path(mine[i]);
    assert(your_paths.to_set().contains(p) && lock_set(mine).contains(p));
    let q = choose|q: Seq<char>| links.contains(q) && lock_set(yours).contains(q);
    assert(your_paths.to_set().contains(q));
    lemma_ascending_is_distinct(your_paths);
}

/// Where binding the socket stands.
#[derive(Debug, Clone, Copy, PartialEq, Eq, Structural)]
pub enum BindPhase {
    Binding,
    Probing,
    Inspecting,
    Removing,
    Rebinding,
    Finished,
}

/// What binding the socket asks of its surroundings.
#[derive(Debug)]
pub enum BindAction {
    /// Bind the socket.
    Bind,
    /// Try to connect to whatever is there.
    Probe,
    /// Say whether what is there is a socket, without following links.
    Inspect,
    /// Remove what is there.
    Remove,
    /// The socket is bound.
    Bound,
    /// The path is in use, for this reason.
    InUse(String),
    /// Report the error that the last action gave.
    Fail,
}

/// What came of it.
#[derive(Debug, Clone, Copy, PartialEq, Eq, Structural)]
pub enum BindReply {
    /// It worked: bound, connected, a socket, removed.
    Yes,
    /// It did not: not connected, not a socket.
    No,
    /// The path is in use.
    AddrInUse,
    /// Another error.
    Error,
}

/// What a reply leads to.
pub open spec fn bind_step(phase: BindPhase, reply: BindReply) -> (BindPhase, BindAction) {
    match (phase, reply) {
        (BindPhase::Binding, BindReply::Yes) => (BindPhase::Finished, BindAction::Bound),
        (BindPhase::Binding, BindReply::AddrInUse) => (BindPhase::Probing, BindAction::Probe),
        (BindPhase::Probing, BindReply::Yes) => (BindPhase::Finished, BindAction::Fail),
        (BindPhase::Probing, _) => (BindPhase::Inspecting, BindAction::Inspect),
        (BindPhase::Inspecting, BindReply::Yes) => (BindPhase::Removing, BindAction::Remove),
        (BindPhase::Removing, BindReply::Yes) => (BindPhase::Rebinding, BindAction::Bind),
        (BindPhase::Rebinding, BindReply::Yes) => (BindPhase::Finished, BindAction::Bound),
        _ => (BindPhase::Finished, BindAction::Fail),
    }
}

/// Why the path is in use, where the socket is not bound for that reason.
pub open spec fn in_use_text(phase: BindPhase, reply: BindReply, shown: Seq<char>) -> Option<Seq<char>> {
    match (phase, reply) {
        (BindPhase::Probing, BindReply::Yes) => Some("Another daemon instance is already running"@),
        (BindPhase::Inspecting, BindReply::No) => Some(
            shown + " exists and is not a Unix socket; refusing to remove"@,
        ),
        _ => None,
    }
}

/// Takes what came of the last action and says what to do next. A socket that nobody answers on is
/// removed and bound once more. Anything that is not a socket is left alone.
pub fn bind_next(phase: BindPhase, reply: BindReply, shown_path: &str) -> (r: (BindPhase, BindAction))
    ensures
        r.0 == bind_step(phase, reply).0,
        match in_use_text(phase, reply, shown_path@) {
            Some(text) => r.1 matches BindAction::InUse(why) && why@ == text,
            None => r.1 == bind_step(phase, reply).1,
        },
{
    match (phase, reply) {
        (BindPhase::Binding, BindReply::Yes) => (BindPhase::Finished, BindAction::Bound),
        (BindPhase::Binding, BindReply::AddrInUse) => (BindPhase::Probing, BindAction::Probe),
        (BindPhase::Probing, BindReply::Yes) => (
            BindPhase::Finished,
            BindAction::InUse("Another daemon instance is already running".to_owned()),
        ),
        (BindPhase::Probing, _) => (BindPhase::Inspecting, BindAction::Inspect),
        (BindPhase::Inspecting, BindReply::Yes) => (BindPhase::Removing, BindAction::Remove),
        (BindPhase::Inspecting, BindReply::No) => (
            BindPhase::Finished,
            BindAction::InUse(
                join2(shown_path, " exists and is not a Unix socket; refusing to remove"),
            ),
        ),
        (BindPhase::Removing, BindReply::Yes) => (BindPhase::Rebinding, BindAction::Bind),
        (BindPhase::Rebinding, BindReply::Yes) => (BindPhase::Finished, BindAction::Bound),
        _ => (BindPhase::Finished, BindAction::Fail),
    }
}

/// What stands at the path is removed only after binding found it in use, nobody answered on it, and
/// it was seen to be a socket; and binding is tried at most twice.
pub proof fn only_stale_sockets_are_removed(first: BindReply, second: BindReply, third: BindReply, fourth: BindReply)
    ensures
        ({
            let a = bind_step(BindPhase::Binding, first);
            let b = bind_step(a.0, second);
            let c = bind_step(b.0, third);
            let d = bind_step(c.0, fourth);
            &&& !(a.1 is Remove) && !(b.1 is Remove)
            &&& c.1 is Remove ==> first == BindReply::AddrInUse && second != BindReply::Yes && third
                == BindReply::Yes
            &&& d.1 is Bind ==> c.1 is Remove
            &&& forall|last: BindReply| (#[trigger] bind_step(BindPhase::Rebinding, last)).0
                == BindPhase::Finished
        }),
{
}

/// What the file system says of an entry, without following links.
#[derive(Debug, Clone, Copy, PartialEq, Eq, Structural)]
pub struct EntryFacts {
    pub is_symlink: bool,
    pub is_dir: bool,
    pub is_file: bool,
    pub uid: u32,
    pub mode: u32,
}

/// Why a runtime directory is not trusted, or that it is.
pub open spec fn directory_refusal(facts: EntryFacts, expected_uid: u32, shown: Seq<char>) -> Option<Seq<char>> {
    if facts.is_symlink || !facts.is_dir {
        Some("runtime path "@ + shown + " is not a directory"@)
    } else if facts.uid != expected_uid {
        Some("runtime directory "@ + shown + " is owned by another user"@)
    } else {
        None
    }
}

/// Why a runtime directory is not trusted.
pub fn refuse_runtime_directory(facts: &EntryFacts, expected_uid: u32, shown_path: &str) -> (r: Option<String>)
    ensures
        opt_text(r) == directory_refusal(*facts, expected_uid, shown_path@),
{
    if facts.is_symlink || !facts.is_dir {
        return Some(join3("runtime path ", shown_path, " is not a directory"));
    }
    if facts.uid != expected_uid {
        return Some(join3("runtime directory ", shown_path, " is owned by another user"));
    }
    None
}

/// Why a key file is not read, or that it is.
pub open spec fn key_refusal(facts: EntryFacts, expected_uid: u32, shown: Seq<char>) -> Option<Seq<char>> {
    if facts.is_symlink || facts.uid != expected_uid {
        Some("encryption key "@ + shown + " is not owned by this user"@)
    } else {
        None
    }
}

/// Why a key file is not read.
pub fn refuse_key_file(facts: &EntryFacts, expected_uid: u32, shown_path: &str) -> (r: Option<String>)
    ensures
        opt_text(r) == key_refusal(*facts, expected_uid, shown_path@),
{
    if facts.is_symlink || facts.uid != expected_uid {
        Some(join3("encryption key ", shown_path, " is not owned by this user"))
    } else {
        None
    }
}

/// Whether a published key is what it should be: a regular file of the user's that nobody else can
/// read.
pub fn published_key_is_sound(facts: &EntryFacts, expected_uid: u32) -> (r: bool)
    ensures
        r == (!facts.is_symlink && facts.is_file && facts.uid == expected_uid && facts.mode % 512
            == 384),
{
    !facts.is_symlink && facts.is_file && facts.uid == expected_uid && facts.mode % 512 == 384
}

/// The largest audio file that is loaded.
pub const MAX_USER_AUDIO_FILE_BYTES: u64 = 68719476736;

/// Whether an audio file may be loaded: a regular file of the user's at an absolute path, not
/// empty, and within the size limit.
pub fn audio_file_is_loadable(is_absolute: bool, facts: &EntryFacts, expected_uid: u32, len: u64) -> (r: bool)
    ensures
        r == (is_absolute && !facts.is_symlink && facts.is_file && facts.uid == expected_uid && 1 <= len
            <= MAX_USER_AUDIO_FILE_BYTES),
{
    is_absolute && !facts.is_symlink && facts.is_file && facts.uid == expected_uid && 1 <= len && len
        <= MAX_USER_AUDIO_FILE_BYTES
}

/// Access rights that the audio server gets on the key and its directory.
#[derive(Debug)]
pub struct AclTarget {
    pub path: String,
    pub acl: String,
}

/// The access rights that the audio server needs to read a key: to find it in its directory, and to
/// read it.
pub fn coreaudiod_acl_targets(parent: &Option<String>, key_path: &str) -> (r: Vec<AclTarget>)
    ensures
        r@.len() == if parent is Some { 2int } else { 1int },
        parent is Some ==> r@[0].path@ == parent->0@ && r@[0].acl@
            == "_coreaudiod allow search,readattr"@,
        r@.last().path@ == key_path@,
        r@.last().acl@ == "_coreaudiod allow read,readattr"@,
{
    let mut out: Vec<AclTarget> = Vec::new();
    if let Some(directory) = parent {
        out.push(
            AclTarget {
                path: directory.clone(),
                acl: "_coreaudiod allow search,readattr".to_owned(),
            },
        );
    }
    out.push(
        AclTarget {
            path: key_path.to_owned(),
            acl: "_coreaudiod allow read,readattr".to_owned(),
        },
    );
    out
}

/// Only a directory of the daemon's own user, and no link to one, is used for its files. A key is used
/// only where it is no link and belongs to that user.
pub proof fn only_own_files_are_used(facts: EntryFacts, expected_uid: u32, shown: Seq<char>)
    ensures
        directory_refusal(facts, expected_uid, shown) is None <==> facts.is_dir && !facts.is_symlink
            && facts.uid == expected_uid,
        key_refusal(facts, expected_uid, shown) is None <==> !facts.is_symlink && facts.uid
            == expected_uid,
        facts.is_symlink || !facts.is_dir ==> directory_refusal(facts, expected_uid, shown) == Some(
            "runtime path "@ + shown + " is not a directory"@,
        ),
        !facts.is_symlink && facts.is_dir && facts.uid != expected_uid ==> directory_refusal(
            facts,
            expected_uid,
            shown,
        ) == Some("runtime directory "@ + shown + " is owned by another user"@),
{
}

/// A free path is bound at once. One in use is probed, and bound again only after what is there turned
/// out to be a dead socket and was removed; anything else ends without a socket.
pub proof fn sockets_are_bound_step_by_step(reply: BindReply, shown: Seq<char>)
    ensures
        bind_step(BindPhase::Binding, BindReply::Yes) == (BindPhase::Finished, BindAction::Bound),
        bind_step(BindPhase::Binding, BindReply::AddrInUse) == (BindPhase::Probing, BindAction::Probe),
        bind_step(BindPhase::Probing, BindReply::Yes).1 is Fail,
        reply != BindReply::Yes ==> bind_step(BindPhase::Probing, reply) == (
            BindPhase::Inspecting,
            BindAction::Inspect,
        ),
        bind_step(BindPhase::Inspecting, BindReply::Yes) == (BindPhase::Removing, BindAction::Remove),
        reply != BindReply::Yes ==> bind_step(BindPhase::Inspecting, reply).1 is Fail,
        bind_step(BindPhase::Removing, BindReply::Yes) == (BindPhase::Rebinding, BindAction::Bind),
        reply != BindReply::Yes ==> bind_step(BindPhase::Removing, reply).1 is Fail,
        bind_step(BindPhase::Rebinding, BindReply::Yes) == (BindPhase::Finished, BindAction::Bound),
        reply != BindReply::Yes ==> bind_step(BindPhase::Rebinding, reply).1 is Fail,
        in_use_text(BindPhase::Probing, BindReply::Yes, shown) == Some(
            "Another daemon instance is already running"@,
        ),
        in_use_text(BindPhase::Inspecting, BindReply::No, shown) == Some(
            shown + " exists and is not a Unix socket; refusing to remove"@,
        ),
        in_use_text(BindPhase::Binding, reply, shown) is None,
        in_use_text(BindPhase::Removing, reply, shown) is None,
        in_use_text(BindPhase::Rebinding, reply, shown) is None,
{
}

/// A lock stands beside its resource, and a refusal names the lock and gives back every lock that was
/// taken.
pub proof fn refusals_name_the_lock(c: ClaimModel, reply: LockReply, r: RuntimeResource)
    requires
        0 <= c.taken < c.paths.len(),
    ensures
        lock_path(r) == path_in(r.parent@, r.file_name@ + ".owner.lock"@),
        ({
            let (next, act) = claim_step(c, reply);
            let path = c.paths[c.taken];
            &&& next.paths == c.paths
            &&& reply is Taken ==> next.taken == c.taken + 1
            &&& !(reply is Taken) ==> next.taken == 0 && act is Refuse
            &&& reply is Taken && c.taken + 1 < c.paths.len() ==> act == ClaimAct::Take(
                c.paths[c.taken + 1],
            )
            &&& reply is Taken && c.taken + 1 == c.paths.len() ==> act is Own
            &&& reply matches LockReply::NotOpened(e) ==> act == ClaimAct::Refuse(
                ClaimFault::Unusable,
                "failed to open ownership lock "@ + path + ": "@ + e@,
            )
            &&& reply is NotRegular ==> act == ClaimAct::Refuse(
                ClaimFault::Denied,
                "ownership lock "@ + path + " is not a regular file"@,
            )
            &&& reply matches LockReply::Held(e) ==> act == ClaimAct::Refuse(
                ClaimFault::InUse,
                "another sotf-daemon instance owns runtime resource lock "@ + path + ": "@ + e@,
            )
            &&& reply matches LockReply::Failed(e) ==> act == ClaimAct::Refuse(
                ClaimFault::Unusable,
                e@,
            )
        }),
{
}

/// The audio server may look into the directory of the key and read the key, and nothing more.
pub proof fn the_audio_server_may_read_the_key(parent: Option<String>, key_path: &str, targets: Vec<AclTarget>)
    requires
        call_ensures(coreaudiod_acl_targets, (&parent, key_path), targets),
    ensures
        parent is None ==> targets@.len() == 1,
        parent matches Some(dir) ==> targets@.len() == 2 && targets@[0].path@ == dir@ && targets@[0].acl@
            == "_coreaudiod allow search,readattr"@,
        targets@[targets@.len() - 1].path@ == key_path@,
        targets@[targets@.len() - 1].acl@ == "_coreaudiod allow read,readattr"@,
{
}

} // verus!
