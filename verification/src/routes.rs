//! Which endpoint serves which path.
use vstd::prelude::*;

use crate::text::same_text;

verus! {

/// What serves a request. Everything that is not listed goes to the official service.
#[derive(Clone, Copy, Debug, PartialEq, Eq, Structural)]
pub enum Endpoint {
    /// Says that the server is up.
    Health,
    /// Streams what a run sends.
    RunSse,
    /// Appends a message to a run.
    BidiAppend,
    AvailableDocs,
    EffectiveUserPlugins,
    UserPrivacyMode,
    UpdateConversationMetadata,
    ServerConfig,
    AvailableModels,
    UsableModels,
    WriteGitCommitMessage,
    IsConnected,
    DefaultModelForCli,
    DefaultModel,
    DefaultModelNudge,
    GetEmail,
    GetUserMeta,
    GetMe,
    GetTeams,
    GetUserProfile,
    CurrentPeriodUsage,
    UsageLimitStatus,
    KnowledgeAdd,
    KnowledgeList,
    KnowledgeUpdate,
    KnowledgeRemove,
    BootstrapStatsig,
    StripeProfile,
}

/// The method that a route takes.
#[derive(Clone, Copy, Debug, PartialEq, Eq, Structural)]
pub enum RouteMethod {
    Get,
    Post,
}

/// The method of a request.
#[derive(Clone, Copy, Debug, PartialEq, Eq, Structural)]
pub enum RequestMethod {
    Get,
    Head,
    Post,
    /// Any other one.
    Other,
}

impl RouteMethod {
    /// Whether a route takes a request: one that takes a `GET` also takes a `HEAD`.
    pub open spec fn takes(self, method: RequestMethod) -> bool {
        match self {
            RouteMethod::Get => method == RequestMethod::Get || method == RequestMethod::Head,
            RouteMethod::Post => method == RequestMethod::Post,
        }
    }

    /// Whether a route takes a request: one that takes a `GET` also takes a `HEAD`.
    fn accepts(self, method: RequestMethod) -> (r: bool)
        ensures
            r == self.takes(method),
    {
        match self {
            RouteMethod::Get => method == RequestMethod::Get || method == RequestMethod::Head,
            RouteMethod::Post => method == RequestMethod::Post,
        }
    }
}

/// One route.
#[derive(Debug, PartialEq, Eq)]
pub struct Route {
    pub path: String,
    pub method: RouteMethod,
    pub endpoint: Endpoint,
}

/// The value of a [`Route`].
pub struct RouteEntry {
    pub path: Seq<char>,
    pub method: RouteMethod,
    pub endpoint: Endpoint,
}

impl View for Route {
    type V = RouteEntry;

    open spec fn view(&self) -> RouteEntry {
        RouteEntry { path: self.path@, method: self.method, endpoint: self.endpoint }
    }
}

/// The route that takes a `POST`.
pub open spec fn posted(path: Seq<char>, endpoint: Endpoint) -> RouteEntry {
    RouteEntry { path, method: RouteMethod::Post, endpoint }
}

/// The route that takes a `GET`.
pub open spec fn gotten(path: Seq<char>, endpoint: Endpoint) -> RouteEntry {
    RouteEntry { path, method: RouteMethod::Get, endpoint }
}

/// All routes. The path of the feature bootstrap is the analytics service's own.
pub open spec fn route_table(statsig_path: Seq<char>) -> Seq<RouteEntry> {
    seq![
        gotten("/__byok-api__/healthz"@, Endpoint::Health),
        posted("/agent.v1.AgentService/RunSSE"@, Endpoint::RunSse),
        posted("/aiserver.v1.BidiService/BidiAppend"@, Endpoint::BidiAppend),
        posted("/aiserver.v1.AiService/AvailableDocs"@, Endpoint::AvailableDocs),
        posted(
            "/aiserver.v1.DashboardService/GetEffectiveUserPlugins"@,
            Endpoint::EffectiveUserPlugins,
        ),
        posted("/aiserver.v1.DashboardService/GetUserPrivacyMode"@, Endpoint::UserPrivacyMode),
        posted(
            "/agent.v1.AgentService/UpdateConversationMetadata"@,
            Endpoint::UpdateConversationMetadata,
        ),
        posted("/aiserver.v1.AiService/GetServerConfig"@, Endpoint::ServerConfig),
        posted("/aiserver.v1.ServerConfigService/GetServerConfig"@, Endpoint::ServerConfig),
        posted("/aiserver.v1.AiService/AvailableModels"@, Endpoint::AvailableModels),
        posted("/agent.v1.AgentService/GetUsableModels"@, Endpoint::UsableModels),
        posted("/aiserver.v1.AiService/GetUsableModels"@, Endpoint::UsableModels),
        posted("/aiserver.v1.AiService/WriteGitCommitMessage"@, Endpoint::WriteGitCommitMessage),
        posted("/aiserver.v1.NetworkService/IsConnected"@, Endpoint::IsConnected),
        posted("/agent.v1.AgentService/GetDefaultModelForCli"@, Endpoint::DefaultModelForCli),
        posted("/aiserver.v1.AiService/GetDefaultModelForCli"@, Endpoint::DefaultModelForCli),
        posted("/aiserver.v1.AiService/GetDefaultModel"@, Endpoint::DefaultModel),
        posted("/aiserver.v1.AiService/GetDefaultModelNudgeData"@, Endpoint::DefaultModelNudge),
        posted("/aiserver.v1.AuthService/GetEmail"@, Endpoint::GetEmail),
        posted("/aiserver.v1.AuthService/GetUserMeta"@, Endpoint::GetUserMeta),
        posted("/aiserver.v1.DashboardService/GetMe"@, Endpoint::GetMe),
        posted("/aiserver.v1.DashboardService/GetTeams"@, Endpoint::GetTeams),
        posted("/aiserver.v1.DashboardService/GetUserProfile"@, Endpoint::GetUserProfile),
        posted(
            "/aiserver.v1.DashboardService/GetCurrentPeriodUsage"@,
            Endpoint::CurrentPeriodUsage,
        ),
        posted(
            "/aiserver.v1.DashboardService/GetUsageLimitStatusAndActiveGrants"@,
            Endpoint::UsageLimitStatus,
        ),
        posted("/aiserver.v1.AiService/KnowledgeBaseAdd"@, Endpoint::KnowledgeAdd),
        posted("/aiserver.v1.AiService/KnowledgeBaseList"@, Endpoint::KnowledgeList),
        posted("/aiserver.v1.AiService/KnowledgeBaseUpdate"@, Endpoint::KnowledgeUpdate),
        posted("/aiserver.v1.AiService/KnowledgeBaseRemove"@, Endpoint::KnowledgeRemove),
        posted(statsig_path, Endpoint::BootstrapStatsig),
        gotten("/auth/full_stripe_profile"@, Endpoint::StripeProfile),
        gotten("/auth/stripe_profile"@, Endpoint::StripeProfile),
    ]
}

/// The values of routes.
pub open spec fn route_entries(routes: Seq<Route>) -> Seq<RouteEntry> {
    routes.map_values(|route: Route| route@)
}

/// Adds a route that takes a `POST`.
fn post(routes: &mut Vec<Route>, path: &str, endpoint: Endpoint)
    ensures
        route_entries(final(routes)@) == route_entries(old(routes)@).push(posted(path@, endpoint)),
{
    routes.push(Route { path: path.to_owned(), method: RouteMethod::Post, endpoint });
    proof {
        assert(route_entries(routes@) =~= route_entries(old(routes)@).push(posted(path@, endpoint)));
    }
}

/// Adds a route that takes a `GET`.
fn get(routes: &mut Vec<Route>, path: &str, endpoint: Endpoint)
    ensures
        route_entries(final(routes)@) == route_entries(old(routes)@).push(gotten(path@, endpoint)),
{
    routes.push(Route { path: path.to_owned(), method: RouteMethod::Get, endpoint });
    proof {
        assert(route_entries(routes@) =~= route_entries(old(routes)@).push(gotten(path@, endpoint)));
    }
}

/// All routes. The path of the feature bootstrap is the analytics service's own.
pub fn routes(statsig_path: &str) -> (r: Vec<Route>)
    ensures
        route_entries(r@) == route_table(statsig_path@),
{
    let mut r: Vec<Route> = Vec::new();
    get(&mut r, "/__byok-api__/healthz", Endpoint::Health);
    post(&mut r, "/agent.v1.AgentService/RunSSE", Endpoint::RunSse);
    post(&mut r, "/aiserver.v1.BidiService/BidiAppend", Endpoint::BidiAppend);
    post(&mut r, "/aiserver.v1.AiService/AvailableDocs", Endpoint::AvailableDocs);
    post(
        &mut r,
        "/aiserver.v1.DashboardService/GetEffectiveUserPlugins",
        Endpoint::EffectiveUserPlugins,
    );
    post(&mut r, "/aiserver.v1.DashboardService/GetUserPrivacyMode", Endpoint::UserPrivacyMode);
    post(
        &mut r,
        "/agent.v1.AgentService/UpdateConversationMetadata",
        Endpoint::UpdateConversationMetadata,
    );
    post(&mut r, "/aiserver.v1.AiService/GetServerConfig", Endpoint::ServerConfig);
    post(&mut r, "/aiserver.v1.ServerConfigService/GetServerConfig", Endpoint::ServerConfig);
    post(&mut r, "/aiserver.v1.AiService/AvailableModels", Endpoint::AvailableModels);
    post(&mut r, "/agent.v1.AgentService/GetUsableModels", Endpoint::UsableModels);
    post(&mut r, "/aiserver.v1.AiService/GetUsableModels", Endpoint::UsableModels);
    post(&mut r, "/aiserver.v1.AiService/WriteGitCommitMessage", Endpoint::WriteGitCommitMessage);
    post(&mut r, "/aiserver.v1.NetworkService/IsConnected", Endpoint::IsConnected);
    post(&mut r, "/agent.v1.AgentService/GetDefaultModelForCli", Endpoint::DefaultModelForCli);
    post(&mut r, "/aiserver.v1.AiService/GetDefaultModelForCli", Endpoint::DefaultModelForCli);
    post(&mut r, "/aiserver.v1.AiService/GetDefaultModel", Endpoint::DefaultModel);
    post(&mut r, "/aiserver.v1.AiService/GetDefaultModelNudgeData", Endpoint::DefaultModelNudge);
    post(&mut r, "/aiserver.v1.AuthService/GetEmail", Endpoint::GetEmail);
    post(&mut r, "/aiserver.v1.AuthService/GetUserMeta", Endpoint::GetUserMeta);
    post(&mut r, "/aiserver.v1.DashboardService/GetMe", Endpoint::GetMe);
    post(&mut r, "/aiserver.v1.DashboardService/GetTeams", Endpoint::GetTeams);
    post(&mut r, "/aiserver.v1.DashboardService/GetUserProfile", Endpoint::GetUserProfile);
    post(
        &mut r,
        "/aiserver.v1.DashboardService/GetCurrentPeriodUsage",
        Endpoint::CurrentPeriodUsage,
    );
    post(
        &mut r,
        "/aiserver.v1.DashboardService/GetUsageLimitStatusAndActiveGrants",
        Endpoint::UsageLimitStatus,
    );
    post(&mut r, "/aiserver.v1.AiService/KnowledgeBaseAdd", Endpoint::KnowledgeAdd);
    post(&mut r, "/aiserver.v1.AiService/KnowledgeBaseList", Endpoint::KnowledgeList);
    post(&mut r, "/aiserver.v1.AiService/KnowledgeBaseUpdate", Endpoint::KnowledgeUpdate);
    post(&mut r, "/aiserver.v1.AiService/KnowledgeBaseRemove", Endpoint::KnowledgeRemove);
    post(&mut r, statsig_path, Endpoint::BootstrapStatsig);
    get(&mut r, "/auth/full_stripe_profile", Endpoint::StripeProfile);
    get(&mut r, "/auth/stripe_profile", Endpoint::StripeProfile);
    proof {
        assert(route_entries(r@) =~= route_table(statsig_path@));
    }
    r
}

impl RouteEntry {
    /// Whether the route serves a request.
    pub open spec fn serves(self, method: RequestMethod, path: Seq<char>) -> bool {
        self.path == path && self.method.takes(method)
    }
}

/// The endpoint of the first route that serves a request. Where none does, the request goes to
/// the official service.
pub open spec fn endpoint_for(
    table: Seq<RouteEntry>,
    method: RequestMethod,
    path: Seq<char>,
) -> Option<Endpoint>
    decreases table.len(),
{
    if table.len() == 0 {
        None
    } else if table[0].serves(method, path) {
        Some(table[0].endpoint)
    } else {
        endpoint_for(table.drop_first(), method, path)
    }
}

/// The endpoint that serves a request; `None` sends it to the official service.
pub open spec fn dispatched(
    method: RequestMethod,
    path: Seq<char>,
    statsig_path: Seq<char>,
) -> Option<Endpoint> {
    endpoint_for(route_table(statsig_path), method, path)
}

/// The endpoint that serves a request; `None` sends it to the official service.
pub fn dispatch(method: RequestMethod, path: &str, statsig_path: &str) -> (r: Option<Endpoint>)
    ensures
        r == dispatched(method, path@, statsig_path@),
        r == endpoint_for(route_table(statsig_path@), method, path@),
{
    let table: Vec<Route> = routes(statsig_path);
    let ghost entries = route_table(statsig_path@);
    let mut i: usize = 0;
    proof {
        assert(entries.skip(0) =~= entries);
    }
    while i < table.len()
        invariant
            i <= table.len(),
            entries == route_entries(table@),
            entries == route_table(statsig_path@),
            endpoint_for(entries, method, path@) == endpoint_for(
                entries.skip(i as int),
                method,
                path@,
            ),
        decreases table.len() - i,
    {
        proof {
            assert(entries.skip(i as int)[0] == table@[i as int]@);
            assert(entries.skip(i as int).drop_first() =~= entries.skip(i + 1));
        }
        if same_text(table[i].path.as_str(), path) && table[i].method.accepts(method) {
            return Some(table[i].endpoint);
        }
        i += 1;
    }
    None
}

/// A request is served here exactly where some route takes its method and has its path, and then
/// by the endpoint of such a route. Every other request goes to the official service.
pub proof fn law_only_routes_are_served_here(
    table: Seq<RouteEntry>,
    method: RequestMethod,
    path: Seq<char>,
)
    ensures
        endpoint_for(table, method, path) is None <==> forall|i: int|
            0 <= i < table.len() ==> !(#[trigger] table[i]).serves(method, path),
        endpoint_for(table, method, path) is Some ==> exists|i: int|
            0 <= i < table.len() && (#[trigger] table[i]).serves(method, path) && table[i].endpoint
                == endpoint_for(table, method, path)->0,
    decreases table.len(),
{
    if table.len() > 0 {
        let rest = table.drop_first();
        law_only_routes_are_served_here(rest, method, path);
        assert forall|i: int| 0 <= i < rest.len() implies rest[i] == #[trigger] table[i + 1] by {}
        if endpoint_for(rest, method, path) is Some {
            let i = choose|i: int|
                0 <= i < rest.len() && (#[trigger] rest[i]).serves(method, path)
                    && rest[i].endpoint == endpoint_for(rest, method, path)->0;
            assert(table[i + 1].serves(method, path));
        }
        if forall|i: int| 0 <= i < table.len() ==> !(#[trigger] table[i]).serves(method, path) {
            assert forall|i: int| 0 <= i < rest.len() implies !(#[trigger] rest[i]).serves(
                method,
                path,
            ) by {
                assert(!table[i + 1].serves(method, path));
            }
        }
        if !table[0].serves(method, path) && endpoint_for(rest, method, path) is None {
            assert forall|i: int| 0 <= i < table.len() implies !(#[trigger] table[i]).serves(
                method,
                path,
            ) by {
                if i > 0 {
                    assert(!rest[i - 1].serves(method, path));
                }
            }
        }
    }
}

/// A number that tells the paths of the routes apart: their length and three of their
/// characters.
spec fn mark(path: Seq<char>) -> int {
    ((path.len() * 128 + path[2] as int) * 128 + path[path.len() - 3] as int) * 128
        + path[path.len() - 11] as int
}

proof fn lemma_marks(statsig_path: Seq<char>, i: int)
    requires
        0 <= i < route_table(statsig_path).len(),
    ensures
        ({
            let table = route_table(statsig_path);
            let marks = seq![
                45611625int,
                62515702int,
                75133615int,
                77232097int,
                112882901int,
                102397904int,
                104460521int,
                81425253int,
                102396773int,
                81425132int,
                81392371int,
                81425139int,
                94007533int,
                83524169int,
                93970893int,
                94003661int,
                81424997int,
                100298981int,
                70938851int,
                77230791int,
                75135602int,
                81424611int,
                94008533int,
                108687568int,
                135952227int,
                83517669int,
                85619940int,
                89813221int,
                89815013int,
                0int,
                54359273int,
                43873513int,
            ];
            &&& table.len() == marks.len()
            &&& i != 29 ==> mark(table[i].path) == marks[i]
            &&& i == 29 <==> table[i].endpoint == Endpoint::BootstrapStatsig
            &&& i == 29 ==> table[i].path == statsig_path
        }),
{
    reveal_strlit("/__byok-api__/healthz");
    reveal_strlit("/agent.v1.AgentService/RunSSE");
    reveal_strlit("/aiserver.v1.BidiService/BidiAppend");
    reveal_strlit("/aiserver.v1.AiService/AvailableDocs");
    reveal_strlit("/aiserver.v1.DashboardService/GetEffectiveUserPlugins");
    reveal_strlit("/aiserver.v1.DashboardService/GetUserPrivacyMode");
    reveal_strlit("/agent.v1.AgentService/UpdateConversationMetadata");
    reveal_strlit("/aiserver.v1.AiService/GetServerConfig");
    reveal_strlit("/aiserver.v1.ServerConfigService/GetServerConfig");
    reveal_strlit("/aiserver.v1.AiService/AvailableModels");
    reveal_strlit("/agent.v1.AgentService/GetUsableModels");
    reveal_strlit("/aiserver.v1.AiService/GetUsableModels");
    reveal_strlit("/aiserver.v1.AiService/WriteGitCommitMessage");
    reveal_strlit("/aiserver.v1.NetworkService/IsConnected");
    reveal_strlit("/agent.v1.AgentService/GetDefaultModelForCli");
    reveal_strlit("/aiserver.v1.AiService/GetDefaultModelForCli");
    reveal_strlit("/aiserver.v1.AiService/GetDefaultModel");
    reveal_strlit("/aiserver.v1.AiService/GetDefaultModelNudgeData");
    reveal_strlit("/aiserver.v1.AuthService/GetEmail");
    reveal_strlit("/aiserver.v1.AuthService/GetUserMeta");
    reveal_strlit("/aiserver.v1.DashboardService/GetMe");
    reveal_strlit("/aiserver.v1.DashboardService/GetTeams");
    reveal_strlit("/aiserver.v1.DashboardService/GetUserProfile");
    reveal_strlit("/aiserver.v1.DashboardService/GetCurrentPeriodUsage");
    reveal_strlit("/aiserver.v1.DashboardService/GetUsageLimitStatusAndActiveGrants");
    reveal_strlit("/aiserver.v1.AiService/KnowledgeBaseAdd");
    reveal_strlit("/aiserver.v1.AiService/KnowledgeBaseList");
    reveal_strlit("/aiserver.v1.AiService/KnowledgeBaseUpdate");
    reveal_strlit("/aiserver.v1.AiService/KnowledgeBaseRemove");
    reveal_strlit("/auth/full_stripe_profile");
    reveal_strlit("/auth/stripe_profile");
}

/// No two routes have the same path, as long as the analytics service does not take one of the
/// others.
pub proof fn law_paths_are_distinct(statsig_path: Seq<char>, i: int, j: int)
    requires
        0 <= i < j < route_table(statsig_path).len(),
        forall|k: int|
            0 <= k < route_table(statsig_path).len() && route_table(statsig_path)[k].endpoint
                != Endpoint::BootstrapStatsig ==> (#[trigger] route_table(statsig_path)[k]).path
                != statsig_path,
    ensures
        route_table(statsig_path)[i].path != route_table(statsig_path)[j].path,
{
    lemma_marks(statsig_path, i);
    lemma_marks(statsig_path, j);
}

/// Every route serves the requests that it takes, as long as the analytics service does not take
/// the path of another one.
pub proof fn law_every_route_serves(statsig_path: Seq<char>, method: RequestMethod, i: int)
    requires
        0 <= i < route_table(statsig_path).len(),
        route_table(statsig_path)[i].method.takes(method),
        forall|k: int|
            0 <= k < route_table(statsig_path).len() && route_table(statsig_path)[k].endpoint
                != Endpoint::BootstrapStatsig ==> (#[trigger] route_table(statsig_path)[k]).path
                != statsig_path,
    ensures
        endpoint_for(
            route_table(statsig_path),
            method,
            route_table(statsig_path)[i].path,
        ) == Some(route_table(statsig_path)[i].endpoint),
{
    let table = route_table(statsig_path);
    law_only_routes_are_served_here(table, method, table[i].path);
    assert(table[i].serves(method, table[i].path));
    let j = choose|j: int|
        0 <= j < table.len() && (#[trigger] table[j]).serves(method, table[i].path)
            && table[j].endpoint == endpoint_for(table, method, table[i].path)->0;
    if j < i {
        law_paths_are_distinct(statsig_path, j, i);
    } else if i < j {
        law_paths_are_distinct(statsig_path, i, j);
    }
}

proof fn lemma_first_match(
    table: Seq<RouteEntry>,
    method: RequestMethod,
    path: Seq<char>,
    i: int,
)
    requires
        0 <= i < table.len(),
        table[i].serves(method, path),
        forall|j: int| 0 <= j < i ==> !(#[trigger] table[j]).serves(method, path),
    ensures
        endpoint_for(table, method, path) == Some(table[i].endpoint),
    decreases i,
{
    if i > 0 {
        assert(!table[0].serves(method, path));
        let rest = table.drop_first();
        assert forall|j: int| 0 <= j < i - 1 implies !(#[trigger] rest[j]).serves(
            method,
            path,
        ) by {
            assert(rest[j] == table[j + 1]);
        }
        lemma_first_match(rest, method, path, i - 1);
    }
}

/// A route with a path of its own serves it, whatever the path of the analytics service is: no
/// other route has the path, and that service's own comes behind those that take a `POST`.
proof fn lemma_literal_route(statsig_path: Seq<char>, method: RequestMethod, i: int)
    requires
        0 <= i < 32,
        i != 29,
        route_table(statsig_path)[i].method.takes(method),
    ensures
        dispatched(method, route_table(statsig_path)[i].path, statsig_path) == Some(
            route_table(statsig_path)[i].endpoint,
        ),
{
    let table = route_table(statsig_path);
    assert(table.len() == 32);
    lemma_marks(statsig_path, i);
    assert forall|j: int| 0 <= j < i implies !(#[trigger] table[j]).serves(
        method,
        table[i].path,
    ) by {
        lemma_marks(statsig_path, j);
        if j == 29 {
            assert(i == 30 || i == 31);
            assert(table[29].method == RouteMethod::Post);
            assert(table[30].method == RouteMethod::Get);
            assert(table[31].method == RouteMethod::Get);
        }
    }
    lemma_first_match(table, method, table[i].path, i);
}

/// Each path is served by its endpoint, whatever the path of the analytics service is. What is
/// fetched by a `GET` is also looked at by a `HEAD`.
pub proof fn law_each_path_has_its_endpoint(statsig_path: Seq<char>)
    ensures
        dispatched(
            RequestMethod::Get,
            "/__byok-api__/healthz"@,
            statsig_path,
        ) == Some(Endpoint::Health),
        dispatched(
            RequestMethod::Head,
            "/__byok-api__/healthz"@,
            statsig_path,
        ) == Some(Endpoint::Health),
        dispatched(
            RequestMethod::Post,
            "/agent.v1.AgentService/RunSSE"@,
            statsig_path,
        ) == Some(Endpoint::RunSse),
        dispatched(
            RequestMethod::Post,
            "/aiserver.v1.BidiService/BidiAppend"@,
            statsig_path,
        ) == Some(Endpoint::BidiAppend),
        dispatched(
            RequestMethod::Post,
            "/aiserver.v1.AiService/AvailableDocs"@,
            statsig_path,
        ) == Some(Endpoint::AvailableDocs),
        dispatched(
            RequestMethod::Post,
            "/aiserver.v1.DashboardService/GetEffectiveUserPlugins"@,
            statsig_path,
        ) == Some(Endpoint::EffectiveUserPlugins),
        dispatched(
            RequestMethod::Post,
            "/aiserver.v1.DashboardService/GetUserPrivacyMode"@,
            statsig_path,
        ) == Some(Endpoint::UserPrivacyMode),
        dispatched(
            RequestMethod::Post,
            "/agent.v1.AgentService/UpdateConversationMetadata"@,
            statsig_path,
        ) == Some(Endpoint::UpdateConversationMetadata),
        dispatched(
            RequestMethod::Post,
            "/aiserver.v1.AiService/GetServerConfig"@,
            statsig_path,
        ) == Some(Endpoint::ServerConfig),
        dispatched(
            RequestMethod::Post,
            "/aiserver.v1.ServerConfigService/GetServerConfig"@,
            statsig_path,
        ) == Some(Endpoint::ServerConfig),
        dispatched(
            RequestMethod::Post,
            "/aiserver.v1.AiService/AvailableModels"@,
            statsig_path,
        ) == Some(Endpoint::AvailableModels),
        dispatched(
            RequestMethod::Post,
            "/agent.v1.AgentService/GetUsableModels"@,
            statsig_path,
        ) == Some(Endpoint::UsableModels),
        dispatched(
            RequestMethod::Post,
            "/aiserver.v1.AiService/GetUsableModels"@,
            statsig_path,
        ) == Some(Endpoint::UsableModels),
        dispatched(
            RequestMethod::Post,
            "/aiserver.v1.AiService/WriteGitCommitMessage"@,
            statsig_path,
        ) == Some(Endpoint::WriteGitCommitMessage),
        dispatched(
            RequestMethod::Post,
            "/aiserver.v1.NetworkService/IsConnected"@,
            statsig_path,
        ) == Some(Endpoint::IsConnected),
        dispatched(
            RequestMethod::Post,
            "/agent.v1.AgentService/GetDefaultModelForCli"@,
            statsig_path,
        ) == Some(Endpoint::DefaultModelForCli),
        dispatched(
            RequestMethod::Post,
            "/aiserver.v1.AiService/GetDefaultModelForCli"@,
            statsig_path,
        ) == Some(Endpoint::DefaultModelForCli),
        dispatched(
            RequestMethod::Post,
            "/aiserver.v1.AiService/GetDefaultModel"@,
            statsig_path,
        ) == Some(Endpoint::DefaultModel),
        dispatched(
            RequestMethod::Post,
            "/aiserver.v1.AiService/GetDefaultModelNudgeData"@,
            statsig_path,
        ) == Some(Endpoint::DefaultModelNudge),
        dispatched(
            RequestMethod::Post,
            "/aiserver.v1.AuthService/GetEmail"@,
            statsig_path,
        ) == Some(Endpoint::GetEmail),
        dispatched(
            RequestMethod::Post,
            "/aiserver.v1.AuthService/GetUserMeta"@,
            statsig_path,
        ) == Some(Endpoint::GetUserMeta),
        dispatched(
            RequestMethod::Post,
            "/aiserver.v1.DashboardService/GetMe"@,
            statsig_path,
        ) == Some(Endpoint::GetMe),
        dispatched(
            RequestMethod::Post,
            "/aiserver.v1.DashboardService/GetTeams"@,
            statsig_path,
        ) == Some(Endpoint::GetTeams),
        dispatched(
            RequestMethod::Post,
            "/aiserver.v1.DashboardService/GetUserProfile"@,
            statsig_path,
        ) == Some(Endpoint::GetUserProfile),
        dispatched(
            RequestMethod::Post,
            "/aiserver.v1.DashboardService/GetCurrentPeriodUsage"@,
            statsig_path,
        ) == Some(Endpoint::CurrentPeriodUsage),
        dispatched(
            RequestMethod::Post,
            "/aiserver.v1.DashboardService/GetUsageLimitStatusAndActiveGrants"@,
            statsig_path,
        ) == Some(Endpoint::UsageLimitStatus),
        dispatched(
            RequestMethod::Post,
            "/aiserver.v1.AiService/KnowledgeBaseAdd"@,
            statsig_path,
        ) == Some(Endpoint::KnowledgeAdd),
        dispatched(
            RequestMethod::Post,
            "/aiserver.v1.AiService/KnowledgeBaseList"@,
            statsig_path,
        ) == Some(Endpoint::KnowledgeList),
        dispatched(
            RequestMethod::Post,
            "/aiserver.v1.AiService/KnowledgeBaseUpdate"@,
            statsig_path,
        ) == Some(Endpoint::KnowledgeUpdate),
        dispatched(
            RequestMethod::Post,
            "/aiserver.v1.AiService/KnowledgeBaseRemove"@,
            statsig_path,
        ) == Some(Endpoint::KnowledgeRemove),
        dispatched(
            RequestMethod::Get,
            "/auth/full_stripe_profile"@,
            statsig_path,
        ) == Some(Endpoint::StripeProfile),
        dispatched(
            RequestMethod::Head,
            "/auth/full_stripe_profile"@,
            statsig_path,
        ) == Some(Endpoint::StripeProfile),
        dispatched(
            RequestMethod::Get,
            "/auth/stripe_profile"@,
            statsig_path,
        ) == Some(Endpoint::StripeProfile),
        dispatched(
            RequestMethod::Head,
            "/auth/stripe_profile"@,
            statsig_path,
        ) == Some(Endpoint::StripeProfile),
{
    lemma_literal_route(statsig_path, RequestMethod::Get, 0);
    lemma_literal_route(statsig_path, RequestMethod::Head, 0);
    lemma_literal_route(statsig_path, RequestMethod::Post, 1);
    lemma_literal_route(statsig_path, RequestMethod::Post, 2);
    lemma_literal_route(statsig_path, RequestMethod::Post, 3);
    lemma_literal_route(statsig_path, RequestMethod::Post, 4);
    lemma_literal_route(statsig_path, RequestMethod::Post, 5);
    lemma_literal_route(statsig_path, RequestMethod::Post, 6);
    lemma_literal_route(statsig_path, RequestMethod::Post, 7);
    lemma_literal_route(statsig_path, RequestMethod::Post, 8);
    lemma_literal_route(statsig_path, RequestMethod::Post, 9);
    lemma_literal_route(statsig_path, RequestMethod::Post, 10);
    lemma_literal_route(statsig_path, RequestMethod::Post, 11);
    lemma_literal_route(statsig_path, RequestMethod::Post, 12);
    lemma_literal_route(statsig_path, RequestMethod::Post, 13);
    lemma_literal_route(statsig_path, RequestMethod::Post, 14);
    lemma_literal_route(statsig_path, RequestMethod::Post, 15);
    lemma_literal_route(statsig_path, RequestMethod::Post, 16);
    lemma_literal_route(statsig_path, RequestMethod::Post, 17);
    lemma_literal_route(statsig_path, RequestMethod::Post, 18);
    lemma_literal_route(statsig_path, RequestMethod::Post, 19);
    lemma_literal_route(statsig_path, RequestMethod::Post, 20);
    lemma_literal_route(statsig_path, RequestMethod::Post, 21);
    lemma_literal_route(statsig_path, RequestMethod::Post, 22);
    lemma_literal_route(statsig_path, RequestMethod::Post, 23);
    lemma_literal_route(statsig_path, RequestMethod::Post, 24);
    lemma_literal_route(statsig_path, RequestMethod::Post, 25);
    lemma_literal_route(statsig_path, RequestMethod::Post, 26);
    lemma_literal_route(statsig_path, RequestMethod::Post, 27);
    lemma_literal_route(statsig_path, RequestMethod::Post, 28);
    lemma_literal_route(statsig_path, RequestMethod::Get, 30);
    lemma_literal_route(statsig_path, RequestMethod::Head, 30);
    lemma_literal_route(statsig_path, RequestMethod::Get, 31);
    lemma_literal_route(statsig_path, RequestMethod::Head, 31);
}

/// The feature bootstrap is served at the path of the analytics service, unless that is the path of
/// something else that takes a `POST`.
pub proof fn law_analytics_path_has_its_endpoint(statsig_path: Seq<char>)
    requires
        statsig_path != "/agent.v1.AgentService/RunSSE"@,
        statsig_path != "/aiserver.v1.BidiService/BidiAppend"@,
        statsig_path != "/aiserver.v1.AiService/AvailableDocs"@,
        statsig_path != "/aiserver.v1.DashboardService/GetEffectiveUserPlugins"@,
        statsig_path != "/aiserver.v1.DashboardService/GetUserPrivacyMode"@,
        statsig_path != "/agent.v1.AgentService/UpdateConversationMetadata"@,
        statsig_path != "/aiserver.v1.AiService/GetServerConfig"@,
        statsig_path != "/aiserver.v1.ServerConfigService/GetServerConfig"@,
        statsig_path != "/aiserver.v1.AiService/AvailableModels"@,
        statsig_path != "/agent.v1.AgentService/GetUsableModels"@,
        statsig_path != "/aiserver.v1.AiService/GetUsableModels"@,
        statsig_path != "/aiserver.v1.AiService/WriteGitCommitMessage"@,
        statsig_path != "/aiserver.v1.NetworkService/IsConnected"@,
        statsig_path != "/agent.v1.AgentService/GetDefaultModelForCli"@,
        statsig_path != "/aiserver.v1.AiService/GetDefaultModelForCli"@,
        statsig_path != "/aiserver.v1.AiService/GetDefaultModel"@,
        statsig_path != "/aiserver.v1.AiService/GetDefaultModelNudgeData"@,
        statsig_path != "/aiserver.v1.AuthService/GetEmail"@,
        statsig_path != "/aiserver.v1.AuthService/GetUserMeta"@,
        statsig_path != "/aiserver.v1.DashboardService/GetMe"@,
        statsig_path != "/aiserver.v1.DashboardService/GetTeams"@,
        statsig_path != "/aiserver.v1.DashboardService/GetUserProfile"@,
        statsig_path != "/aiserver.v1.DashboardService/GetCurrentPeriodUsage"@,
        statsig_path != "/aiserver.v1.DashboardService/GetUsageLimitStatusAndActiveGrants"@,
        statsig_path != "/aiserver.v1.AiService/KnowledgeBaseAdd"@,
        statsig_path != "/aiserver.v1.AiService/KnowledgeBaseList"@,
        statsig_path != "/aiserver.v1.AiService/KnowledgeBaseUpdate"@,
        statsig_path != "/aiserver.v1.AiService/KnowledgeBaseRemove"@,
    ensures
        dispatched(RequestMethod::Post, statsig_path, statsig_path) == Some(
            Endpoint::BootstrapStatsig,
        ),
{
    let table = route_table(statsig_path);
    assert(table.len() == 32);
    assert(table[29].path == statsig_path);
    assert forall|j: int| 0 <= j < 29 implies !(#[trigger] table[j]).serves(
        RequestMethod::Post,
        statsig_path,
    ) by {
        lemma_entry_is_listed(statsig_path, j);
    }
    lemma_first_match(table, RequestMethod::Post, statsig_path, 29);
}

proof fn lemma_entry_is_listed(statsig_path: Seq<char>, j: int)
    requires
        0 <= j < 32,
    ensures
        ({
            let entry = route_table(statsig_path)[j];
            ||| entry.method == RouteMethod::Get && (entry.path == "/__byok-api__/healthz"@
                || entry.path == "/auth/full_stripe_profile"@
                || entry.path == "/auth/stripe_profile"@)
            ||| entry.method == RouteMethod::Post && j == 29
            ||| entry.method == RouteMethod::Post && (entry.path == "/agent.v1.AgentService/RunSSE"@
                || entry.path == "/aiserver.v1.BidiService/BidiAppend"@
                || entry.path == "/aiserver.v1.AiService/AvailableDocs"@
                || entry.path == "/aiserver.v1.DashboardService/GetEffectiveUserPlugins"@
                || entry.path == "/aiserver.v1.DashboardService/GetUserPrivacyMode"@
                || entry.path == "/agent.v1.AgentService/UpdateConversationMetadata"@
                || entry.path == "/aiserver.v1.AiService/GetServerConfig"@
                || entry.path == "/aiserver.v1.ServerConfigService/GetServerConfig"@
                || entry.path == "/aiserver.v1.AiService/AvailableModels"@
                || entry.path == "/agent.v1.AgentService/GetUsableModels"@
                || entry.path == "/aiserver.v1.AiService/GetUsableModels"@
                || entry.path == "/aiserver.v1.AiService/WriteGitCommitMessage"@
                || entry.path == "/aiserver.v1.NetworkService/IsConnected"@
                || entry.path == "/agent.v1.AgentService/GetDefaultModelForCli"@
                || entry.path == "/aiserver.v1.AiService/GetDefaultModelForCli"@
                || entry.path == "/aiserver.v1.AiService/GetDefaultModel"@
                || entry.path == "/aiserver.v1.AiService/GetDefaultModelNudgeData"@
                || entry.path == "/aiserver.v1.AuthService/GetEmail"@
                || entry.path == "/aiserver.v1.AuthService/GetUserMeta"@
                || entry.path == "/aiserver.v1.DashboardService/GetMe"@
                || entry.path == "/aiserver.v1.DashboardService/GetTeams"@
                || entry.path == "/aiserver.v1.DashboardService/GetUserProfile"@
                || entry.path == "/aiserver.v1.DashboardService/GetCurrentPeriodUsage"@
                || entry.path == "/aiserver.v1.DashboardService/GetUsageLimitStatusAndActiveGrants"@
                || entry.path == "/aiserver.v1.AiService/KnowledgeBaseAdd"@
                || entry.path == "/aiserver.v1.AiService/KnowledgeBaseList"@
                || entry.path == "/aiserver.v1.AiService/KnowledgeBaseUpdate"@
                || entry.path == "/aiserver.v1.AiService/KnowledgeBaseRemove"@)
        }),
        j == 29 ==> route_table(statsig_path)[j].path == statsig_path,
{
}

/// Nothing else is served here: every request with another path, or with another method than the
/// path is for, goes to the official service.
pub proof fn law_other_paths_go_to_the_official_service(
    method: RequestMethod,
    path: Seq<char>,
    statsig_path: Seq<char>,
)
    ensures
        dispatched(method, path, statsig_path) is Some ==> ((method == RequestMethod::Get || method
            == RequestMethod::Head) && (path == "/__byok-api__/healthz"@
            || path == "/auth/full_stripe_profile"@
            || path == "/auth/stripe_profile"@)) || (method == RequestMethod::Post
            && (path == statsig_path || path == "/agent.v1.AgentService/RunSSE"@
            || path == "/aiserver.v1.BidiService/BidiAppend"@
            || path == "/aiserver.v1.AiService/AvailableDocs"@
            || path == "/aiserver.v1.DashboardService/GetEffectiveUserPlugins"@
            || path == "/aiserver.v1.DashboardService/GetUserPrivacyMode"@
            || path == "/agent.v1.AgentService/UpdateConversationMetadata"@
            || path == "/aiserver.v1.AiService/GetServerConfig"@
            || path == "/aiserver.v1.ServerConfigService/GetServerConfig"@
            || path == "/aiserver.v1.AiService/AvailableModels"@
            || path == "/agent.v1.AgentService/GetUsableModels"@
            || path == "/aiserver.v1.AiService/GetUsableModels"@
            || path == "/aiserver.v1.AiService/WriteGitCommitMessage"@
            || path == "/aiserver.v1.NetworkService/IsConnected"@
            || path == "/agent.v1.AgentService/GetDefaultModelForCli"@
            || path == "/aiserver.v1.AiService/GetDefaultModelForCli"@
            || path == "/aiserver.v1.AiService/GetDefaultModel"@
            || path == "/aiserver.v1.AiService/GetDefaultModelNudgeData"@
            || path == "/aiserver.v1.AuthService/GetEmail"@
            || path == "/aiserver.v1.AuthService/GetUserMeta"@
            || path == "/aiserver.v1.DashboardService/GetMe"@
            || path == "/aiserver.v1.DashboardService/GetTeams"@
            || path == "/aiserver.v1.DashboardService/GetUserProfile"@
            || path == "/aiserver.v1.DashboardService/GetCurrentPeriodUsage"@
            || path == "/aiserver.v1.DashboardService/GetUsageLimitStatusAndActiveGrants"@
            || path == "/aiserver.v1.AiService/KnowledgeBaseAdd"@
            || path == "/aiserver.v1.AiService/KnowledgeBaseList"@
            || path == "/aiserver.v1.AiService/KnowledgeBaseUpdate"@
            || path == "/aiserver.v1.AiService/KnowledgeBaseRemove"@)),
{
    let table = route_table(statsig_path);
    assert(table.len() == 32);
    law_only_routes_are_served_here(table, method, path);
    if dispatched(method, path, statsig_path) is Some {
        let j = choose|j: int|
            0 <= j < table.len() && (#[trigger] table[j]).serves(method, path) && table[j].endpoint
                == endpoint_for(table, method, path)->0;
        lemma_entry_is_listed(statsig_path, j);
    }
}

} // verus!
