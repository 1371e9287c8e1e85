//! The last account reply of the official service, kept on disk for each account.
use vstd::prelude::*;

use crate::http::{is_success, proto_response, Reply};
use crate::text::hex;
use crate::text_map::TextMap;

verus! {

/// The accounts whose reply is being fetched anew.
#[derive(Debug)]
pub struct RefreshGate {
    inflight: TextMap<()>,
}

impl View for RefreshGate {
    type V = Set<Seq<u8>>;

    closed spec fn view(&self) -> Set<Seq<u8>> {
        Set::new(|token: Seq<u8>| self.inflight@.contains_key(crate::text::hex_text(token)))
    }
}

impl RefreshGate {
    /// No account.
    pub fn new() -> (r: Self)
        ensures
            r@ == Set::<Seq<u8>>::empty(),
    {
        let r = RefreshGate { inflight: TextMap::new() };
        proof {
            assert(r@ =~= Set::<Seq<u8>>::empty());
        }
        r
    }

    /// Notes that the reply of an account is being fetched, and returns whether that begins with
    /// this.
    pub fn begin_refresh(&mut self, token: &[u8; 32]) -> (r: bool)
        ensures
            r == !old(self)@.contains(token@),
            final(self)@ == old(self)@.insert(token@),
    {
        let key: String = hex(vstd::array::array_as_slice(token));
        let fresh: bool = !self.inflight.contains_key(key.as_str());
        self.inflight.insert(key, ());
        proof {
            lemma_insert_token(old(self).inflight@, self.inflight@, token@, old(self)@, self@);
        }
        fresh
    }

    /// Notes that the reply of an account is no longer being fetched.
    pub fn finish_refresh(&mut self, token: &[u8; 32])
        ensures
            final(self)@ == old(self)@.remove(token@),
    {
        let key: String = hex(vstd::array::array_as_slice(token));
        self.inflight.remove(key.as_str());
        proof {
            assert forall|other: Seq<u8>|
                self@.contains(other) == old(self)@.remove(token@).contains(other) by {
                crate::text::law_hex_is_injective(other, token@);
            }
            assert(self@ =~= old(self)@.remove(token@));
        }
    }
}

proof fn lemma_insert_token(
    before: Map<Seq<char>, ()>,
    after: Map<Seq<char>, ()>,
    token: Seq<u8>,
    held: Set<Seq<u8>>,
    holds: Set<Seq<u8>>,
)
    requires
        after == before.insert(crate::text::hex_text(token), ()),
        held == Set::new(|token: Seq<u8>| before.contains_key(crate::text::hex_text(token))),
        holds == Set::new(|token: Seq<u8>| after.contains_key(crate::text::hex_text(token))),
    ensures
        holds == held.insert(token),
{
    assert forall|other: Seq<u8>| holds.contains(other) == held.insert(token).contains(other) by {
        crate::text::law_hex_is_injective(other, token);
    }
    assert(holds =~= held.insert(token));
}

/// Where the reply of an account is kept, as steps from the directory of the data.
pub open spec fn cache_path(token: Seq<u8>) -> Seq<Seq<char>> {
    seq!["cache"@, "get_me"@, crate::text::hex_text(token)]
}

/// Where the reply of an account is kept, as steps from the directory of the data. The name of
/// the file is the hash of the token, not the token.
pub fn cache_file(token: &[u8; 32]) -> (r: Vec<String>)
    ensures
        crate::policy_context::text_views(r@) == cache_path(token@),
{
    let mut steps: Vec<String> = Vec::new();
    steps.push("cache".to_owned());
    steps.push("get_me".to_owned());
    steps.push(hex(vstd::array::array_as_slice(token)));
    proof {
        assert(crate::policy_context::text_views(steps@) =~= cache_path(token@));
    }
    steps
}

/// What is to be done with an account request.
#[derive(Debug)]
pub enum GetMeStep {
    /// It speaks for no account: it goes to the official service, and nothing is kept.
    Forward,
    /// It is served from what was kept. Where `refresh` holds, the reply is then fetched anew.
    Reply { reply: Reply, refresh: bool },
    /// Nothing was kept: it goes to the official service, and a reply that succeeds is kept.
    Fetch,
}

/// The value of a [`GetMeStep`].
pub enum StepView {
    Forward,
    Reply { reply: crate::http::ReplyView, refresh: bool },
    Fetch,
}

impl View for GetMeStep {
    type V = StepView;

    open spec fn view(&self) -> StepView {
        match self {
            GetMeStep::Forward => StepView::Forward,
            GetMeStep::Reply { reply, refresh } => StepView::Reply {
                reply: reply@,
                refresh: *refresh,
            },
            GetMeStep::Fetch => StepView::Fetch,
        }
    }
}

/// What was kept, where it can be used: an empty file holds no reply.
pub open spec fn usable(read: Option<Seq<u8>>) -> Option<Seq<u8>> {
    if read is Some && read->0.len() > 0 {
        read
    } else {
        None
    }
}

/// What is to be done with an account request, by the account that it speaks for, what was kept
/// for the account, and the accounts whose reply is being fetched.
pub open spec fn get_me_step(
    inflight: Set<Seq<u8>>,
    token: Option<Seq<u8>>,
    read: Option<Seq<u8>>,
) -> StepView {
    match token {
        None => StepView::Forward,
        Some(token) => match usable(read) {
            Some(body) => StepView::Reply {
                reply: crate::http::ReplyView::sized_proto(body),
                refresh: !inflight.contains(token),
            },
            None => StepView::Fetch,
        },
    }
}

/// Decides what is to be done with an account request. `read` is what was read of the file of
/// the account, where it could be read.
pub fn serve(gate: &mut RefreshGate, token: Option<[u8; 32]>, read: Option<Vec<u8>>) -> (r: GetMeStep)
    ensures
        r@ == get_me_step(
            old(gate)@,
            crate::token::optional_hash(token),
            crate::http::optional_value(read),
        ),
        final(gate)@ == if r is Reply {
            old(gate)@.insert(token->0@)
        } else {
            old(gate)@
        },
{
    let token: [u8; 32] = match token {
        Some(token) => token,
        None => {
            return GetMeStep::Forward;
        },
    };
    match read {
        Some(body) => {
            if body.len() == 0 {
                return GetMeStep::Fetch;
            }
            let refresh: bool = gate.begin_refresh(&token);
            GetMeStep::Reply { reply: proto_response(body), refresh }
        },
        None => GetMeStep::Fetch,
    }
}

/// What came of a reply that was fetched anew.
#[derive(Clone, Copy, Debug, PartialEq, Eq, Structural)]
pub enum RefreshOutcome {
    /// It succeeded and is kept.
    Kept,
    /// The official service refused.
    Rejected,
    /// It did not come.
    Failed,
}

/// What came of a reply that was fetched anew, by its status.
pub open spec fn outcome_of(status: Option<u16>) -> RefreshOutcome {
    match status {
        Some(status) => if crate::http::succeeds(status) {
            RefreshOutcome::Kept
        } else {
            RefreshOutcome::Rejected
        },
        None => RefreshOutcome::Failed,
    }
}

/// What came of a reply that was fetched anew, by its status; `None` where none came.
pub fn refresh_outcome(status: Option<u16>) -> (r: RefreshOutcome)
    ensures
        r == outcome_of(status),
{
    match status {
        Some(status) => {
            if is_success(status) {
                RefreshOutcome::Kept
            } else {
                RefreshOutcome::Rejected
            }
        },
        None => RefreshOutcome::Failed,
    }
}

/// Each account has a file of its own.
pub proof fn law_accounts_have_their_own_files(a: Seq<u8>, b: Seq<u8>)
    ensures
        cache_path(a) == cache_path(b) ==> a == b,
{
    crate::text::law_hex_is_injective(a, b);
    if cache_path(a) == cache_path(b) {
        assert(cache_path(a)[2] == cache_path(b)[2]);
    }
}

/// The reply of an account is fetched anew once at a time: while it is being fetched, a request
/// that is served from what was kept fetches nothing. When it is done, the next one does.
pub proof fn law_one_refresh_at_a_time(inflight: Set<Seq<u8>>, token: Seq<u8>, body: Seq<u8>)
    requires
        body.len() > 0,
    ensures
        get_me_step(inflight.insert(token), Some(token), Some(body)) == (StepView::Reply {
            reply: crate::http::ReplyView::sized_proto(body),
            refresh: false,
        }),
        get_me_step(inflight.remove(token), Some(token), Some(body)) == (StepView::Reply {
            reply: crate::http::ReplyView::sized_proto(body),
            refresh: true,
        }),
        forall|other: Seq<u8>|
            other != token ==> #[trigger] get_me_step(
                inflight.insert(token),
                Some(other),
                Some(body),
            ) == get_me_step(inflight, Some(other), Some(body)),
{
}

/// The reply of an account is kept in a file that is named by the hash of its token.
pub proof fn law_replies_are_kept_under_the_hash(token: Seq<u8>)
    ensures
        cache_path(token).len() == 3,
        cache_path(token)[0] == "cache"@,
        cache_path(token)[1] == "get_me"@,
        cache_path(token)[2] == crate::text::hex_text(token),
{
}

/// A request that speaks for no account is passed on. One that speaks for an account is served with
/// what was kept, byte for byte, where anything was, and fetched anew where it is not being fetched;
/// where nothing was kept it is fetched.
pub proof fn law_accounts_are_served_what_was_kept(
    inflight: Set<Seq<u8>>,
    token: Seq<u8>,
    read: Option<Seq<u8>>,
)
    ensures
        get_me_step(inflight, None, read) is Forward,
        read is None || read->0.len() == 0 ==> get_me_step(inflight, Some(token), read) is Fetch,
        read is Some && read->0.len() > 0 ==> (get_me_step(inflight, Some(token), read)
            matches StepView::Reply { reply, refresh } && reply.status == 200 && reply.body
            == read->0 && reply == crate::http::ReplyView::sized_proto(read->0) && (refresh
            <==> !inflight.contains(token))),
{
}

/// A reply that was fetched anew is kept exactly where its status is one of the two hundreds.
pub proof fn law_only_successful_replies_are_kept(status: u16)
    ensures
        outcome_of(None) is Failed,
        status / 100 == 2 ==> outcome_of(Some(status)) is Kept,
        status / 100 != 2 ==> outcome_of(Some(status)) is Rejected,
{
}

} // verus!
