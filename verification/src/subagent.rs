//! The subagent model policy in force, and when a changed file replaces it.
use vstd::prelude::*;

use crate::bytes::{copy_bytes, same_bytes};
use crate::error::{Error, ErrorView};
use crate::policy::{ModelTarget, Policy, PolicySnapshot};
use crate::text::{join, same_text};
use crate::text_map::TextMap;

verus! {

/// The policy in force.
#[derive(Debug)]
pub struct SubagentModels {
    current: PolicySnapshot,
}

/// The value of a [`SubagentModels`].
pub struct ModelsView {
    pub version: u64,
    pub policy: crate::policy::PolicyView,
}

impl View for SubagentModels {
    type V = ModelsView;

    closed spec fn view(&self) -> ModelsView {
        ModelsView { version: self.current.version, policy: self.current.policy@ }
    }
}

/// What startup found at the place of the policy file.
#[derive(Debug)]
pub enum PolicyFile {
    /// There is no file.
    Missing,
    /// The policy that the file holds, or why it holds none.
    Read(Result<Policy, Error>),
}

/// Whether two optional texts are the same.
fn same_optional_text(a: &Option<String>, b: &Option<String>) -> (r: bool)
    ensures
        r == (crate::policy::optional_text(*a) == crate::policy::optional_text(*b)),
{
    match (a, b) {
        (None, None) => true,
        (Some(a), Some(b)) => same_text(a.as_str(), b.as_str()),
        _ => false,
    }
}

/// Whether two targets are the same.
fn same_target(a: &ModelTarget, b: &ModelTarget) -> (r: bool)
    ensures
        r == (a@ == b@),
{
    same_text(a.model.as_str(), b.model.as_str()) && same_optional_text(&a.effort, &b.effort)
        && a.fast == b.fast
}

/// Whether two maps have the same targets under the same keys.
fn same_targets(a: &TextMap<ModelTarget>, b: &TextMap<ModelTarget>) -> (r: bool)
    ensures
        r == (a@ == b@),
{
    let len: usize = a.len();
    if len != b.len() {
        return false;
    }
    let ghost left = crate::text_map::sorted_texts(a@.dom());
    let ghost right = crate::text_map::sorted_texts(b@.dom());
    let mut i: usize = 0;
    while i < len
        invariant
            i <= len == left.len() == right.len(),
            left == crate::text_map::sorted_texts(a@.dom()),
            right == crate::text_map::sorted_texts(b@.dom()),
            forall|j: int|
                0 <= j < i ==> #[trigger] left[j] == right[j] && a@[left[j]] == b@[left[j]],
        decreases len - i,
    {
        let (a_key, a_target) = a.entry(i);
        let (b_key, b_target) = b.entry(i);
        if !same_text(a_key, b_key) || !same_target(a_target, b_target) {
            return false;
        }
        i += 1;
    }
    proof {
        assert(left =~= right);
        assert forall|key: Seq<char>| a@.dom().contains(key) implies a@[key] == b@[key] by {
            assert(left.to_set().contains(key));
            let j = choose|j: int| 0 <= j < left.len() && left[j] == key;
            assert(left[j] == right[j]);
        }
        assert(a@ =~= b@);
    }
    true
}

/// Whether two policies have the same rules.
pub fn same_policy(a: &Policy, b: &Policy) -> (r: bool)
    ensures
        r == (a@ == b@),
{
    let fallback: bool = match (&a.fallback, &b.fallback) {
        (None, None) => true,
        (Some(a), Some(b)) => same_target(a, b),
        _ => false,
    };
    fallback && same_targets(&a.types, &b.types) && same_targets(&a.mapping, &b.mapping)
}

impl SubagentModels {
    /// A policy without rules, for a runtime without a policy file.
    pub fn empty() -> (r: Self)
        ensures
            r@ == (ModelsView { version: 1, policy: crate::policy::PolicyView::empty() }),
            r@.is_valid(),
    {
        proof {
            crate::policy_file::lemma_empty_policy_is_valid();
        }
        SubagentModels { current: PolicySnapshot { version: 1, policy: Policy::default() } }
    }

    /// The policy at startup. A missing file means a policy without rules; a file that holds
    /// no policy is an error, which names the file.
    pub fn load(path: &str, file: PolicyFile) -> (r: Result<Self, Error>)
        ensures
            match file {
                PolicyFile::Missing => r matches Ok(models) && models@ == (ModelsView {
                    version: 1,
                    policy: crate::policy::PolicyView::empty(),
                }),
                PolicyFile::Read(Ok(policy)) => r matches Ok(models) && models@ == (ModelsView {
                    version: 1,
                    policy: policy@,
                }),
                PolicyFile::Read(Err(error)) => r matches Err(e) && e@ == ErrorView::Config(
                    path@ + ": "@ + error@.text(),
                ),
            },
            r is Ok && (file matches PolicyFile::Read(Ok(policy)) ==> policy@.is_valid())
                ==> r->Ok_0@.is_valid(),
    {
        match file {
            PolicyFile::Missing => Ok(SubagentModels::empty()),
            PolicyFile::Read(Ok(policy)) => Ok(
                SubagentModels { current: PolicySnapshot { version: 1, policy } },
            ),
            PolicyFile::Read(Err(error)) => Err(Error::Config(join(path, ": ", error.message()))),
        }
    }

    /// The policy in force.
    pub fn snapshot(&self) -> (r: &PolicySnapshot)
        ensures
            r.version == self@.version,
            r.policy@ == self@.policy,
    {
        &self.current
    }

    /// Puts a policy in force where it differs from the one that is. A file that holds none
    /// leaves everything as it is.
    pub fn publish(&mut self, parsed: Result<Policy, Error>) -> (r: Result<(), Error>)
        requires
            parsed is Ok && parsed->Ok_0@ != old(self)@.policy ==> old(self)@.version < u64::MAX,
        ensures
            match parsed {
                Ok(policy) => r is Ok && final(self)@ == old(self)@.published(policy@),
                Err(error) => r == Err::<(), Error>(error) && *final(self) == *old(self),
            },
            parsed is Ok && parsed->Ok_0@ == old(self)@.policy ==> *final(self) == *old(self),
            old(self)@.is_valid() && (parsed is Ok ==> parsed->Ok_0@.is_valid())
                ==> final(self)@.is_valid(),
    {
        match parsed {
            Err(error) => Err(error),
            Ok(policy) => {
                if !same_policy(&self.current.policy, &policy) {
                    let version: u64 = self.current.version + 1;
                    self.current = PolicySnapshot { version, policy };
                }
                Ok(())
            },
        }
    }
}

impl ModelsView {
    /// Whether the policy in force is one that may be.
    pub open spec fn is_valid(self) -> bool {
        self.policy.is_valid()
    }

    /// The state after a policy came to be in force: a different one counts the version up.
    pub open spec fn published(self, policy: crate::policy::PolicyView) -> ModelsView {
        if self.policy == policy {
            self
        } else {
            ModelsView { version: (self.version + 1) as u64, policy }
        }
    }
}

/// The version grows exactly when the policy changes: publishing the policy in force again
/// changes nothing, and publishing any other one makes it the one in force.
pub proof fn law_version_counts_changes(models: ModelsView, policy: crate::policy::PolicyView)
    requires
        models.version < u64::MAX,
    ensures
        models.published(policy).policy == policy,
        models.published(policy).version > models.version <==> models.policy != policy,
        models.published(policy).version >= models.version,
        models.published(policy).published(policy) == models.published(policy),
{
}

/// Only a policy whose rules were accepted is ever in force: one is at the start, whether or not
/// there is a file, and one still is after another one that was accepted was published.
pub proof fn law_only_valid_policies_are_in_force(
    models: ModelsView,
    policy: crate::policy::PolicyView,
)
    requires
        policy.is_valid(),
    ensures
        (ModelsView { version: 1, policy: crate::policy::PolicyView::empty() }).is_valid(),
        (ModelsView { version: 1, policy }).is_valid(),
        models.is_valid() ==> models.published(policy).is_valid(),
{
    crate::policy_file::lemma_empty_policy_is_valid();
}

/// What the polling of the policy file remembers from one reading to the next.
#[derive(Debug)]
pub struct ReloadState {
    observed: Option<Vec<u8>>,
    attempted: Option<Vec<u8>>,
    last_error: Option<String>,
}

/// The value of a [`ReloadState`].
pub struct ReloadView {
    /// The bytes that were read last.
    pub observed: Option<Seq<u8>>,
    /// The bytes that were handed on last.
    pub attempted: Option<Seq<u8>>,
    /// The error of the last reading.
    pub last_error: Option<Seq<char>>,
}

/// The value of optional bytes.
pub open spec fn optional_bytes(bytes: Option<Vec<u8>>) -> Option<Seq<u8>> {
    match bytes {
        Some(bytes) => Some(bytes@),
        None => None,
    }
}

impl View for ReloadState {
    type V = ReloadView;

    closed spec fn view(&self) -> ReloadView {
        ReloadView {
            observed: optional_bytes(self.observed),
            attempted: optional_bytes(self.attempted),
            last_error: crate::policy::optional_text(self.last_error),
        }
    }
}

/// Whether optional bytes are the given ones.
fn is_bytes(held: &Option<Vec<u8>>, bytes: &[u8]) -> (r: bool)
    ensures
        r == (optional_bytes(*held) == Some(bytes@)),
{
    match held {
        Some(held) => same_bytes(held.as_slice(), bytes),
        None => false,
    }
}

impl ReloadView {
    /// Whether bytes that were just read are to be published: they are those of the reading
    /// before, so no save is in progress, and were not tried yet.
    pub open spec fn publishes(self, bytes: Seq<u8>) -> bool {
        self.observed == Some(bytes) && self.attempted != Some(bytes)
    }

    /// The state after a reading.
    pub open spec fn after_reading(self, bytes: Seq<u8>) -> ReloadView {
        ReloadView {
            observed: Some(bytes),
            attempted: if self.publishes(bytes) {
                Some(bytes)
            } else {
                self.attempted
            },
            last_error: self.last_error,
        }
    }

    /// The state after the outcome of a reading: its error, if it had one.
    pub open spec fn after_outcome(self, error: Option<Seq<char>>) -> ReloadView {
        ReloadView { last_error: error, ..self }
    }
}

impl ReloadState {
    /// The state before the first reading.
    pub fn new() -> (r: Self)
        ensures
            r@ == (ReloadView { observed: None, attempted: None, last_error: None }),
    {
        ReloadState { observed: None, attempted: None, last_error: None }
    }

    /// Takes note of the bytes of a reading, and says whether they are to be published.
    pub fn observe(&mut self, bytes: &[u8]) -> (r: bool)
        ensures
            r == old(self)@.publishes(bytes@),
            final(self)@ == old(self)@.after_reading(bytes@),
    {
        if !is_bytes(&self.observed, bytes) {
            self.observed = Some(copy_bytes(bytes));
            return false;
        }
        if is_bytes(&self.attempted, bytes) {
            return false;
        }
        self.attempted = Some(copy_bytes(bytes));
        true
    }

    /// Takes note of the outcome of a reading, and says whether its error is to be reported:
    /// the same error is reported once as long as it lasts.
    pub fn record(&mut self, error: Option<String>) -> (r: bool)
        ensures
            r == (error is Some && old(self)@.last_error != crate::policy::optional_text(error)),
            final(self)@ == old(self)@.after_outcome(crate::policy::optional_text(error)),
    {
        let report: bool = error.is_some() && !same_optional_text(&self.last_error, &error);
        self.last_error = error;
        report
    }
}

/// Bytes are published at the second reading in a row that finds them, and not a third time;
/// a reading that finds other bytes in between starts over.
pub proof fn law_stable_bytes_are_published_once(
    state: ReloadView,
    bytes: Seq<u8>,
    first: Option<Seq<char>>,
    second: Option<Seq<char>>,
)
    requires
        state.observed != Some(bytes),
        state.attempted != Some(bytes),
    ensures
        !state.publishes(bytes),
        ({
            let once = state.after_reading(bytes).after_outcome(first);
            let twice = once.after_reading(bytes).after_outcome(second);
            &&& once.publishes(bytes)
            &&& !twice.publishes(bytes)
        }),
        forall|other: Seq<u8>|
            other != bytes ==> !(#[trigger] state.after_reading(bytes).after_reading(
                other,
            )).publishes(bytes),
{
}

/// A policy that differs from the one in force takes its place and counts the version up by one;
/// the one in force changes nothing.
pub proof fn law_each_change_counts_once(models: ModelsView, policy: crate::policy::PolicyView)
    requires
        models.version < u64::MAX,
    ensures
        policy != models.policy ==> models.published(policy).version == models.version + 1
            && models.published(policy).policy == policy,
        policy == models.policy ==> models.published(policy) == models,
{
}

/// A reading is remembered, and its bytes are published exactly where the reading before found the
/// same and they were not published last. The outcome of a reading is its error, or none, and
/// touches nothing else.
pub proof fn law_readings_are_remembered(
    state: ReloadView,
    bytes: Seq<u8>,
    error: Option<Seq<char>>,
)
    ensures
        state.publishes(bytes) <==> state.observed == Some(bytes) && state.attempted != Some(bytes),
        state.after_reading(bytes).observed == Some(bytes),
        state.observed == Some(bytes) ==> state.after_reading(bytes).attempted == Some(bytes),
        state.observed != Some(bytes) ==> state.after_reading(bytes).attempted == state.attempted,
        state.after_reading(bytes).last_error == state.last_error,
        state.after_outcome(error).observed == state.observed,
        state.after_outcome(error).attempted == state.attempted,
        state.after_outcome(error).last_error == error,
{
}

} // verus!
