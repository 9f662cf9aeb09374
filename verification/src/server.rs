//! Starting and serving a mediator: which steps a configuration calls for, and in which order.

use crate::accounts::AccountType;
use crate::authority::{compute_self_authorities_from, SelfAuthorities};
use crate::buckets::Buckets;
use crate::did_rate_limiter::DidRateLimiter;
use crate::error::config_error;
use crate::identity::did_hash;
use crate::net::{parse_socket, IpAddress, IpNet, SocketAddress};
use crate::rate_limiter::RateLimiterState;
use crate::settings::{Config, MediatorACLSet};
use crate::startup::{Plan, PlanView, Step, Task};
use crate::text::{appended, same_text};
use vstd::prelude::*;

verus! {

/// What this build of the mediator can do.
#[derive(Clone, Copy, Debug)]
pub struct Features {
    pub redis: bool,
    pub fjall: bool,
    pub tsp: bool,
}

/// How a mediator is started.
#[derive(Clone, Copy, Debug)]
pub struct StartOpts {
    /// Whether requests come over TLS.
    pub tls: bool,
    /// Whether to install the tracing subscriber.
    pub install_tracing: bool,
    /// Whether to end when the process is told to.
    pub install_signal_handlers: bool,
}

/// The options of a mediator that runs as a program: it has installed tracing when it loaded its
/// configuration, and it owns the signals of the process.
pub fn program_options(config: &Config) -> (opts: StartOpts)
    ensures
        opts.tls == config.security.use_ssl,
        !opts.install_tracing,
        opts.install_signal_handlers,
{
    StartOpts {
        tls: config.security.use_ssl,
        install_tracing: false,
        install_signal_handlers: true,
    }
}

/// The steps that set up TLS.
pub open spec fn tls_part(config: Config) -> PlanView {
    if !config.security.use_ssl {
        crate::startup::plan_of(seq![])
    } else {
        crate::startup::followed_by(
            crate::startup::plan_of(seq![Step::InstallCryptoProvider]),
            if config.security.ssl_certificate_file is None {
                crate::startup::plan_refused(
                    crate::error::config_view(
                        "SSL Certificate file must be specified in the config"@,
                    ),
                )
            } else if config.security.ssl_key_file is None {
                crate::startup::plan_refused(
                    crate::error::config_view(
                        "SSL Certificate key file must be specified in the config"@,
                    ),
                )
            } else {
                crate::startup::plan_of(seq![Step::LoadTls])
            },
        )
    }
}

/// The steps that set up TLS.
fn plan_tls(config: &Config) -> (plan: Plan)
    ensures
        plan@ == tls_part(*config),
{
    if !config.security.use_ssl {
        return Plan::empty();
    }
    let rest = if config.security.ssl_certificate_file.is_none() {
        Plan::refused(
            config_error("SSL Certificate file must be specified in the config".to_owned()),
        )
    } else if config.security.ssl_key_file.is_none() {
        Plan::refused(
            config_error("SSL Certificate key file must be specified in the config".to_owned()),
        )
    } else {
        Plan::one(Step::LoadTls)
    };
    Plan::one(Step::InstallCryptoProvider).followed(rest)
}

/// The text for a storage backend that does not exist.
pub open spec fn unsupported_backend(backend: Seq<char>) -> Seq<char> {
    "[storage] backend = \""@ + backend
        + "\" is not supported. Use \"redis\" or \"fjall\"."@
}

/// The steps that open the storage which the operator chose.
pub open spec fn storage_part(config: Config, features: Features) -> PlanView {
    match config.storage {
        None => crate::startup::plan_of(seq![]),
        Some(storage) => if storage.backend@ == "fjall"@ {
            if !features.fjall {
                crate::startup::plan_refused(
                    crate::error::config_view(
                        "[storage] backend = \"fjall\" but the `fjall-backend` feature is not compiled in. Rebuild the mediator with --features fjall-backend or switch to backend = \"redis\""@,
                    ),
                )
            } else if storage.data_dir is None {
                crate::startup::plan_refused(
                    crate::error::config_view(
                        "[storage] backend = \"fjall\" requires `data_dir`"@,
                    ),
                )
            } else {
                crate::startup::plan_of(seq![Step::OpenFjall])
            }
        } else if storage.backend@ == "redis"@ {
            crate::startup::plan_of(seq![])
        } else {
            crate::startup::plan_refused(
                crate::error::config_view(unsupported_backend(storage.backend@)),
            )
        },
    }
}

/// The steps that open the storage which the operator chose.
fn plan_storage(config: &Config, features: Features) -> (plan: Plan)
    ensures
        plan@ == storage_part(*config, features),
{
    match &config.storage {
        None => Plan::empty(),
        Some(storage) => if same_text(storage.backend.as_str(), "fjall") {
            if !features.fjall {
                Plan::refused(
                    config_error(
                        "[storage] backend = \"fjall\" but the `fjall-backend` feature is not compiled in. Rebuild the mediator with --features fjall-backend or switch to backend = \"redis\"".to_owned(),
                    ),
                )
            } else if storage.data_dir.is_none() {
                Plan::refused(
                    config_error("[storage] backend = \"fjall\" requires `data_dir`".to_owned()),
                )
            } else {
                Plan::one(Step::OpenFjall)
            }
        } else if same_text(storage.backend.as_str(), "redis") {
            Plan::empty()
        } else {
            let mut text = appended("[storage] backend = \"", storage.backend.as_str());
            text.append("\" is not supported. Use \"redis\" or \"fjall\".");
            Plan::refused(config_error(text))
        },
    }
}

/// The plan by which a program starts a mediator, once its configuration is loaded.
pub open spec fn start_plan(config: Config, features: Features) -> PlanView {
    crate::startup::followed_by(
        tls_part(config),
        crate::startup::followed_by(
            storage_part(config, features),
            crate::startup::plan_of(seq![Step::Serve, Step::Join]),
        ),
    )
}

/// The plan by which a program starts a mediator, once its configuration is loaded: set up TLS
/// where it is asked for, open the storage where it is embedded, serve, and wait for the end.
pub fn start(config: &Config, features: Features) -> (plan: Plan)
    ensures
        plan@ == start_plan(*config, features),
{
    let last = Plan::one(Step::Serve).followed(Plan::one(Step::Join));
    assert(last@.steps =~= seq![Step::Serve, Step::Join]);
    plan_tls(config).followed(plan_storage(config, features).followed(last))
}

/// The steps that make the store ready.
pub open spec fn store_part(config: Config, features: Features, prebuilt: bool) -> PlanView {
    if prebuilt {
        crate::startup::plan_of(seq![Step::InitializeStore])
    } else if features.redis {
        crate::startup::followed_by(
            crate::startup::plan_of(seq![Step::OpenDatabase, Step::InitializeDatabase]),
            if config.database.functions_file is Some {
                crate::startup::plan_of(seq![Step::LoadScripts])
            } else {
                crate::startup::plan_refused(
                    crate::error::config_view(
                        "LUA scripts file is required but not specified in the configuration"@,
                    ),
                )
            },
        )
    } else {
        crate::startup::plan_refused(
            crate::error::config_view(
                "no pre-built store supplied and `redis-backend` feature is disabled — either enable `redis-backend` or pass MediatorBuilder::store(...)"@,
            ),
        )
    }
}

/// The steps that make the store ready.
fn plan_store(config: &Config, features: Features, prebuilt: bool) -> (plan: Plan)
    ensures
        plan@ == store_part(*config, features, prebuilt),
{
    if prebuilt {
        Plan::one(Step::InitializeStore)
    } else if features.redis {
        let opened = Plan::one(Step::OpenDatabase).followed(Plan::one(Step::InitializeDatabase));
        assert(opened@.steps =~= seq![Step::OpenDatabase, Step::InitializeDatabase]);
        let rest = if config.database.functions_file.is_some() {
            Plan::one(Step::LoadScripts)
        } else {
            Plan::refused(
                config_error(
                    "LUA scripts file is required but not specified in the configuration".to_owned(),
                ),
            )
        };
        opened.followed(rest)
    } else {
        Plan::refused(
            config_error(
                "no pre-built store supplied and `redis-backend` feature is disabled — either enable `redis-backend` or pass MediatorBuilder::store(...)".to_owned(),
            ),
        )
    }
}

/// Whether the forwarding processor runs.
pub open spec fn forwards(config: Config) -> bool {
    config.processors.forwarding.enabled && config.processors.forwarding.external_forwarding
}

/// The steps that start the background tasks over the store, and live delivery.
pub open spec fn tasks_part(config: Config) -> PlanView {
    crate::startup::followed_by(
        crate::startup::plan_of(seq![Step::Spawn(Task::Statistics)]),
        crate::startup::followed_by(
            crate::startup::plan_when(forwards(config), Step::Spawn(Task::ForwardingProcessor)),
            crate::startup::followed_by(
                crate::startup::plan_when(
                    config.processors.message_expiry_cleanup.enabled,
                    Step::Spawn(Task::MessageExpirySweep),
                ),
                crate::startup::followed_by(
                    crate::startup::plan_when(
                        config.processors.session_expiry_cleanup.enabled,
                        Step::Spawn(Task::SessionExpirySweep),
                    ),
                    crate::startup::followed_by(
                        crate::startup::plan_when(config.vta_linked, Step::Spawn(Task::VtaRefresh)),
                        crate::startup::plan_when(config.streaming_enabled, Step::StartStreaming),
                    ),
                ),
            ),
        ),
    )
}

/// The steps that start the background tasks over the store, and live delivery.
fn plan_tasks(config: &Config) -> (plan: Plan)
    ensures
        plan@ == tasks_part(*config),
{
    let forwarding = config.processors.forwarding.enabled
        && config.processors.forwarding.external_forwarding;
    Plan::one(Step::Spawn(Task::Statistics)).followed(
        Plan::when(forwarding, Step::Spawn(Task::ForwardingProcessor)).followed(
            Plan::when(
                config.processors.message_expiry_cleanup.enabled,
                Step::Spawn(Task::MessageExpirySweep),
            ).followed(
                Plan::when(
                    config.processors.session_expiry_cleanup.enabled,
                    Step::Spawn(Task::SessionExpirySweep),
                ).followed(
                    Plan::when(config.vta_linked, Step::Spawn(Task::VtaRefresh)).followed(
                        Plan::when(config.streaming_enabled, Step::StartStreaming),
                    ),
                ),
            ),
        ),
    )
}

/// The steps that teach the resolver the mediator's own DID document: the parsed one where there
/// is one, else the one that is served.
pub open spec fn document_part(config: Config) -> PlanView {
    if config.has_did_document {
        crate::startup::plan_of(seq![Step::PreloadDocument])
    } else {
        crate::startup::plan_when(config.mediator_did_doc is Some, Step::PreloadServedDocument)
    }
}

/// The steps that set up the resolver, and then the service with its limiters.
pub open spec fn service_part(config: Config, features: Features) -> PlanView {
    crate::startup::followed_by(
        crate::startup::plan_of(seq![Step::CreateResolver]),
        crate::startup::followed_by(
            crate::startup::plan_when(features.tsp, Step::AdvertiseTsp),
            crate::startup::followed_by(
                document_part(config),
                crate::startup::followed_by(
                    crate::startup::plan_of(seq![Step::BuildService]),
                    crate::startup::plan_when(
                        config.limits.did_rate_limit_per_second > 0,
                        Step::Spawn(Task::DidRateLimitSweep),
                    ),
                ),
            ),
        ),
    )
}

/// The steps that set up the resolver, and then the service with its limiters.
fn plan_service(config: &Config, features: Features) -> (plan: Plan)
    ensures
        plan@ == service_part(*config, features),
{
    let document = if config.has_did_document {
        Plan::one(Step::PreloadDocument)
    } else {
        Plan::when(config.mediator_did_doc.is_some(), Step::PreloadServedDocument)
    };
    Plan::one(Step::CreateResolver).followed(
        Plan::when(features.tsp, Step::AdvertiseTsp).followed(
            document.followed(
                Plan::one(Step::BuildService).followed(
                    Plan::when(
                        config.limits.did_rate_limit_per_second > 0,
                        Step::Spawn(Task::DidRateLimitSweep),
                    ),
                ),
            ),
        ),
    )
}

/// The text for a listen address that is not an address.
pub open spec fn invalid_listen_address(address: Seq<char>, error: Seq<char>) -> Seq<char> {
    "Invalid listen_address '"@ + address + "': "@ + error
}

/// The steps that bind the listener and serve from it.
pub open spec fn listen_part(
    address: Seq<char>,
    listen: Result<SocketAddress, Seq<char>>,
    tls: bool,
) -> PlanView {
    match listen {
        Ok(addr) => crate::startup::plan_of(
            seq![
                Step::Bind(addr),
                Step::SetNonblocking,
                Step::ReadBoundAddress,
                Step::DrainOnShutdown,
                Step::ServeListener { tls },
                Step::PublishEndpoints,
            ],
        ),
        Err(error) => crate::startup::plan_refused(
            crate::error::config_view(invalid_listen_address(address, error)),
        ),
    }
}

/// The steps that bind the listener and serve from it.
fn plan_listen(address: &str, listen: &Result<SocketAddress, String>, tls: bool) -> (plan: Plan)
    ensures
        plan@ == listen_part(address@, crate::net::socket_view(*listen), tls),
{
    match listen {
        Ok(addr) => {
            let mut steps: Vec<Step> = Vec::new();
            steps.push(Step::Bind(*addr));
            steps.push(Step::SetNonblocking);
            steps.push(Step::ReadBoundAddress);
            steps.push(Step::DrainOnShutdown);
            steps.push(Step::ServeListener { tls });
            steps.push(Step::PublishEndpoints);
            let plan = Plan { steps, refusal: None };
            assert(plan@.steps =~= seq![
                Step::Bind(*addr),
                Step::SetNonblocking,
                Step::ReadBoundAddress,
                Step::DrainOnShutdown,
                Step::ServeListener { tls },
                Step::PublishEndpoints,
            ]);
            plan
        },
        Err(error) => {
            let mut text = appended("Invalid listen_address '", address);
            text.append("': ");
            text.append(error.as_str());
            Plan::refused(config_error(text))
        },
    }
}

/// The plan by which a mediator comes to serve, where its listen address reads as `listen`.
pub open spec fn serve_plan(
    config: Config,
    opts: StartOpts,
    features: Features,
    prebuilt: bool,
    listen: Result<SocketAddress, Seq<char>>,
) -> PlanView {
    crate::startup::followed_by(
        crate::startup::plan_when(opts.install_tracing, Step::InstallTracing),
        crate::startup::followed_by(
            store_part(config, features, prebuilt),
            crate::startup::followed_by(
                crate::startup::plan_when(config.admin_did@.len() > 0, Step::SetupAdmin),
                crate::startup::followed_by(
                    crate::startup::plan_when(opts.install_signal_handlers, Step::HandleSignals),
                    crate::startup::followed_by(
                        crate::startup::plan_of(seq![Step::InitMetrics]),
                        crate::startup::followed_by(
                            tasks_part(config),
                            crate::startup::followed_by(
                                service_part(config, features),
                                listen_part(config.listen_address@, listen, opts.tls),
                            ),
                        ),
                    ),
                ),
            ),
        ),
    )
}

/// The plan by which a mediator comes to serve, where its listen address reads as `listen`.
pub fn plan_serve(
    config: &Config,
    opts: StartOpts,
    features: Features,
    prebuilt: bool,
    listen: &Result<SocketAddress, String>,
) -> (plan: Plan)
    ensures
        plan@ == serve_plan(*config, opts, features, prebuilt, crate::net::socket_view(*listen)),
{
    Plan::when(opts.install_tracing, Step::InstallTracing).followed(
        plan_store(config, features, prebuilt).followed(
            Plan::when(!config.admin_did.as_str().is_empty(), Step::SetupAdmin).followed(
                Plan::when(opts.install_signal_handlers, Step::HandleSignals).followed(
                    Plan::one(Step::InitMetrics).followed(
                        plan_tasks(config).followed(
                            plan_service(config, features).followed(
                                plan_listen(config.listen_address.as_str(), listen, opts.tls),
                            ),
                        ),
                    ),
                ),
            ),
        ),
    )
}

/// The plan by which a mediator comes to serve. A store that is `prebuilt` is only initialised;
/// otherwise the database is opened.
pub fn serve_internal(config: &Config, opts: StartOpts, features: Features, prebuilt: bool) -> (plan:
    Plan)
    ensures
        plan@ == serve_plan(
            *config,
            opts,
            features,
            prebuilt,
            crate::net::parsed_socket(config.listen_address@),
        ),
{
    let listen = parse_socket(config.listen_address.as_str());
    plan_serve(config, opts, features, prebuilt, &listen)
}

/// The account that the configured administrator is given.
pub struct AdminAccount {
    pub did_hash: String,
    pub account_type: AccountType,
    pub acls: MediatorACLSet,
}

/// The account that the configured administrator is given: a root administrator with the default
/// permissions, under the hash of the DID. Nothing else promotes a DID.
pub fn admin_account(config: &Config) -> (account: Option<AdminAccount>)
    ensures
        match account {
            Some(a) => {
                &&& config.admin_did@.len() > 0
                &&& a.did_hash@ == crate::identity::sha256_hex(config.admin_did@)
                &&& a.account_type is RootAdmin
                &&& a.acls == config.security.global_acl_default
            },
            None => config.admin_did@.len() == 0,
        },
{
    if config.admin_did.as_str().is_empty() {
        return None;
    }
    Some(
        AdminAccount {
            did_hash: did_hash(config.admin_did.as_str()),
            account_type: AccountType::RootAdmin,
            acls: config.security.global_acl_default,
        },
    )
}

/// The authorities that this mediator treats as its own.
pub fn compute_self_authorities(config: &Config) -> (set: SelfAuthorities)
    ensures
        set.wf(),
        set@ == crate::authority::self_authorities(
            config.listen_address@,
            crate::text::views(config.local_endpoints@),
        ),
{
    compute_self_authorities_from(config.listen_address.as_str(), &config.local_endpoints)
}

/// The limiters of the served routes: the one by client address, which honours `X-Forwarded-For`
/// from the configured proxies, and the one by DID.
pub fn limiters(config: &Config) -> (pair: (RateLimiterState, DidRateLimiter))
    ensures
        pair.0.trusted() == crate::net::net_views(config.limits.trusted_proxies@),
        pair.0.enabled() <==> config.limits.rate_limit_per_ip > 0,
        pair.0.enabled() ==> pair.0.buckets() == configured_buckets::<IpAddress>(
            config.limits.rate_limit_per_ip,
            config.limits.rate_limit_burst,
        ),
        pair.1.enabled() <==> config.limits.did_rate_limit_per_second > 0,
        pair.1.enabled() ==> pair.1.buckets() == configured_buckets::<Seq<char>>(
            config.limits.did_rate_limit_per_second,
            config.limits.did_rate_limit_burst,
        ),
{
    let mut trusted: Vec<IpNet> = Vec::new();
    let mut i: usize = 0;
    while i < config.limits.trusted_proxies.len()
        invariant
            i <= config.limits.trusted_proxies@.len(),
            trusted@ == config.limits.trusted_proxies@.take(i as int),
        decreases config.limits.trusted_proxies.len() - i,
    {
        trusted.push(config.limits.trusted_proxies[i]);
        assert(trusted@ =~= config.limits.trusted_proxies@.take(i as int + 1));
        i += 1;
    }
    assert(trusted@ =~= config.limits.trusted_proxies@);
    (
        RateLimiterState::new(
            config.limits.rate_limit_per_ip,
            config.limits.rate_limit_burst,
            trusted,
        ),
        DidRateLimiter::new(
            config.limits.did_rate_limit_per_second,
            config.limits.did_rate_limit_burst,
        ),
    )
}

/// The buckets of a limiter that is configured with a rate and a burst. A burst of zero counts as
/// one.
pub open spec fn configured_buckets<K>(per_second: u32, burst: u32) -> Buckets<K> {
    crate::buckets::fresh(
        if burst == 0 {
            1
        } else {
            burst as nat
        },
        crate::buckets::replenish_nanos(per_second as nat),
    )
}

/// The time that a sweep goes by, in seconds since the epoch; before the epoch it is 0.
pub fn sweep_time(timestamp: i64) -> (now_secs: u64)
    ensures
        timestamp < 0 ==> now_secs == 0,
        timestamp >= 0 ==> now_secs == timestamp,
{
    if timestamp < 0 {
        0
    } else {
        timestamp as u64
    }
}

/// The protocols that the mediator discloses.
pub open spec fn protocols() -> Seq<Seq<char>> {
    seq![
        "https://didcomm.org/discover-features/2.0"@,
        "https://didcomm.org/routing/2.0"@,
        "https://didcomm.org/trust-ping/2.0"@,
        "https://didcomm.org/out-of-band/2.0"@,
        "https://didcomm.org/messagepickup/3.0"@,
        "https://affinidi.com/atm/1.0/authenticate"@,
        "https://didcomm.org/mediator/1.0/admin-management"@,
        "https://didcomm.org/mediator/1.0/account-management"@,
        "https://didcomm.org/mediator/1.0/acl-management"@,
        "https://didcomm.org/report-problem/2.0"@,
    ]
}

/// The protocols that the mediator discloses.
pub fn discover_protocols() -> (out: Vec<String>)
    ensures
        crate::text::views(out@) == protocols(),
{
    let mut out: Vec<String> = Vec::new();
    out.push("https://didcomm.org/discover-features/2.0".to_owned());
    out.push("https://didcomm.org/routing/2.0".to_owned());
    out.push("https://didcomm.org/trust-ping/2.0".to_owned());
    out.push("https://didcomm.org/out-of-band/2.0".to_owned());
    out.push("https://didcomm.org/messagepickup/3.0".to_owned());
    out.push("https://affinidi.com/atm/1.0/authenticate".to_owned());
    out.push("https://didcomm.org/mediator/1.0/admin-management".to_owned());
    out.push("https://didcomm.org/mediator/1.0/account-management".to_owned());
    out.push("https://didcomm.org/mediator/1.0/acl-management".to_owned());
    out.push("https://didcomm.org/report-problem/2.0".to_owned());
    assert(crate::text::views(out@) =~= protocols());
    out
}

/// The place of a step in the order of starting.
pub open spec fn rank(step: Step) -> nat {
    match step {
        Step::InstallTracing => 0,
        Step::InitializeStore | Step::OpenDatabase => 1,
        Step::InitializeDatabase => 2,
        Step::LoadScripts => 3,
        Step::SetupAdmin => 4,
        Step::HandleSignals => 5,
        Step::InitMetrics => 6,
        Step::Spawn(Task::Statistics) => 7,
        Step::Spawn(Task::ForwardingProcessor) => 8,
        Step::Spawn(Task::MessageExpirySweep) => 9,
        Step::Spawn(Task::SessionExpirySweep) => 10,
        Step::Spawn(Task::VtaRefresh) => 11,
        Step::StartStreaming => 12,
        Step::CreateResolver => 13,
        Step::AdvertiseTsp => 14,
        Step::PreloadDocument | Step::PreloadServedDocument => 15,
        Step::BuildService => 16,
        Step::Spawn(Task::DidRateLimitSweep) => 17,
        Step::Bind(_) => 18,
        Step::SetNonblocking => 19,
        Step::ReadBoundAddress => 20,
        Step::DrainOnShutdown => 21,
        Step::ServeListener { .. } => 22,
        Step::PublishEndpoints => 23,
        Step::InstallCryptoProvider => 24,
        Step::LoadTls => 25,
        Step::OpenFjall => 26,
        Step::Serve => 27,
        Step::Join => 28,
    }
}

/// Whether the steps stand in the order of starting, none of them twice.
pub open spec fn in_order(steps: Seq<Step>) -> bool {
    forall|i: int, j: int|
        0 <= i < j < steps.len() ==> rank(#[trigger] steps[i]) < rank(#[trigger] steps[j])
}

/// Whether all the steps have a place from `lo` up to `hi`.
spec fn within(steps: Seq<Step>, lo: nat, hi: nat) -> bool {
    forall|i: int| 0 <= i < steps.len() ==> lo <= rank(#[trigger] steps[i]) < hi
}

/// Plans in order that do not overlap make a plan in order.
proof fn lemma_followed_in_order(first: PlanView, second: PlanView, lo: nat, mid: nat, hi: nat)
    requires
        in_order(first.steps),
        within(first.steps, lo, mid),
        in_order(second.steps),
        within(second.steps, mid, hi),
        lo <= mid <= hi,
    ensures
        in_order(crate::startup::followed_by(first, second).steps),
        within(crate::startup::followed_by(first, second).steps, lo, hi),
{
    let both = first.steps + second.steps;
    assert forall|i: int| 0 <= i < both.len() implies lo <= rank(#[trigger] both[i]) < hi by {
        if i >= first.steps.len() {
            assert(both[i] == second.steps[i - first.steps.len()]);
        }
    }
    assert forall|i: int, j: int| 0 <= i < j < both.len() implies rank(#[trigger] both[i]) < rank(
        #[trigger] both[j],
    ) by {
        if j >= first.steps.len() {
            assert(both[j] == second.steps[j - first.steps.len()]);
            if i >= first.steps.len() {
                assert(both[i] == second.steps[i - first.steps.len()]);
            } else {
                assert(both[i] == first.steps[i]);
            }
        }
    }
}

/// The steps over the background tasks stand in order.
proof fn lemma_tasks_in_order(config: Config)
    ensures
        in_order(tasks_part(config).steps),
        within(tasks_part(config).steps, 7, 13),
        tasks_part(config).refusal is None,
{
    let streaming = crate::startup::plan_when(config.streaming_enabled, Step::StartStreaming);
    let vta = crate::startup::plan_when(config.vta_linked, Step::Spawn(Task::VtaRefresh));
    let sessions = crate::startup::plan_when(
        config.processors.session_expiry_cleanup.enabled,
        Step::Spawn(Task::SessionExpirySweep),
    );
    let messages = crate::startup::plan_when(
        config.processors.message_expiry_cleanup.enabled,
        Step::Spawn(Task::MessageExpirySweep),
    );
    let forwarding = crate::startup::plan_when(
        forwards(config),
        Step::Spawn(Task::ForwardingProcessor),
    );
    let statistics = crate::startup::plan_of(seq![Step::Spawn(Task::Statistics)]);
    let p5 = crate::startup::followed_by(vta, streaming);
    let p4 = crate::startup::followed_by(sessions, p5);
    let p3 = crate::startup::followed_by(messages, p4);
    let p2 = crate::startup::followed_by(forwarding, p3);
    lemma_followed_in_order(vta, streaming, 11, 12, 13);
    lemma_followed_in_order(sessions, p5, 10, 11, 13);
    lemma_followed_in_order(messages, p4, 9, 10, 13);
    lemma_followed_in_order(forwarding, p3, 8, 9, 13);
    lemma_followed_in_order(statistics, p2, 7, 8, 13);
}

/// The steps over the service stand in order.
proof fn lemma_service_in_order(config: Config, features: Features)
    ensures
        in_order(service_part(config, features).steps),
        within(service_part(config, features).steps, 13, 18),
        service_part(config, features).refusal is None,
{
    let sweep = crate::startup::plan_when(
        config.limits.did_rate_limit_per_second > 0,
        Step::Spawn(Task::DidRateLimitSweep),
    );
    let service = crate::startup::plan_of(seq![Step::BuildService]);
    let tsp = crate::startup::plan_when(features.tsp, Step::AdvertiseTsp);
    let resolver = crate::startup::plan_of(seq![Step::CreateResolver]);
    let p3 = crate::startup::followed_by(service, sweep);
    let p2 = crate::startup::followed_by(document_part(config), p3);
    let p1 = crate::startup::followed_by(tsp, p2);
    lemma_followed_in_order(service, sweep, 16, 17, 18);
    lemma_followed_in_order(document_part(config), p3, 15, 16, 18);
    lemma_followed_in_order(tsp, p2, 14, 15, 18);
    lemma_followed_in_order(resolver, p1, 13, 14, 18);
}

/// The steps over the store stand in order, and a store that is ready is the last of them.
proof fn lemma_store_in_order(config: Config, features: Features, prebuilt: bool)
    ensures
        in_order(store_part(config, features, prebuilt).steps),
        within(store_part(config, features, prebuilt).steps, 1, 4),
        store_part(config, features, prebuilt).refusal is None ==> store_part(
            config,
            features,
            prebuilt,
        ).steps.len() > 0 && store_ready(store_part(config, features, prebuilt).steps.last()),
{
}

/// Whether the store is ready once this step is done.
pub open spec fn store_ready(step: Step) -> bool {
    step is InitializeStore || step is LoadScripts
}

/// What follows the store in the plan to serve.
spec fn after_store(
    config: Config,
    opts: StartOpts,
    features: Features,
    listen: Result<SocketAddress, Seq<char>>,
) -> PlanView {
    crate::startup::followed_by(
        crate::startup::plan_when(config.admin_did@.len() > 0, Step::SetupAdmin),
        crate::startup::followed_by(
            crate::startup::plan_when(opts.install_signal_handlers, Step::HandleSignals),
            crate::startup::followed_by(
                crate::startup::plan_of(seq![Step::InitMetrics]),
                crate::startup::followed_by(
                    tasks_part(config),
                    crate::startup::followed_by(
                        service_part(config, features),
                        listen_part(config.listen_address@, listen, opts.tls),
                    ),
                ),
            ),
        ),
    )
}

/// What follows the store stands in order.
proof fn lemma_after_store_in_order(
    config: Config,
    opts: StartOpts,
    features: Features,
    listen: Result<SocketAddress, Seq<char>>,
)
    ensures
        in_order(after_store(config, opts, features, listen).steps),
        within(after_store(config, opts, features, listen).steps, 4, 24),
        after_store(config, opts, features, listen).refusal is None <==> listen is Ok,
{
    let listening = listen_part(config.listen_address@, listen, opts.tls);
    let metrics = crate::startup::plan_of(seq![Step::InitMetrics]);
    let signals = crate::startup::plan_when(opts.install_signal_handlers, Step::HandleSignals);
    let admin = crate::startup::plan_when(config.admin_did@.len() > 0, Step::SetupAdmin);
    let p4 = crate::startup::followed_by(service_part(config, features), listening);
    let p3 = crate::startup::followed_by(tasks_part(config), p4);
    let p2 = crate::startup::followed_by(metrics, p3);
    let p1 = crate::startup::followed_by(signals, p2);
    lemma_tasks_in_order(config);
    lemma_service_in_order(config, features);
    lemma_followed_in_order(service_part(config, features), listening, 13, 18, 24);
    lemma_followed_in_order(tasks_part(config), p4, 7, 13, 24);
    lemma_followed_in_order(metrics, p3, 6, 7, 24);
    lemma_followed_in_order(signals, p2, 5, 6, 24);
    lemma_followed_in_order(admin, p1, 4, 5, 24);
}

/// A mediator takes the steps to serve in one order, none of them twice: the store, then the
/// administrator, then the tasks, then the service, and the listener last.
pub proof fn law_serve_steps_in_order(
    config: Config,
    opts: StartOpts,
    features: Features,
    prebuilt: bool,
    listen: Result<SocketAddress, Seq<char>>,
)
    ensures
        in_order(serve_plan(config, opts, features, prebuilt, listen).steps),
        serve_plan(config, opts, features, prebuilt, listen).steps.no_duplicates(),
{
    let tracing = crate::startup::plan_when(opts.install_tracing, Step::InstallTracing);
    let store = store_part(config, features, prebuilt);
    let rest = after_store(config, opts, features, listen);
    lemma_store_in_order(config, features, prebuilt);
    lemma_after_store_in_order(config, opts, features, listen);
    lemma_followed_in_order(store, rest, 1, 4, 24);
    lemma_followed_in_order(tracing, crate::startup::followed_by(store, rest), 0, 1, 24);
    let steps = serve_plan(config, opts, features, prebuilt, listen).steps;
    assert forall|i: int, j: int| 0 <= i < steps.len() && 0 <= j < steps.len() && i != j implies steps[i]
        != steps[j] by {
        assert(rank(steps[i]) != rank(steps[j]));
    }
}

/// A program takes the steps to start in one order, none of them twice.
pub proof fn law_start_steps_in_order(config: Config, features: Features)
    ensures
        in_order(start_plan(config, features).steps),
{
    let last = crate::startup::plan_of(seq![Step::Serve, Step::Join]);
    lemma_followed_in_order(storage_part(config, features), last, 26, 27, 29);
    lemma_followed_in_order(
        tls_part(config),
        crate::startup::followed_by(storage_part(config, features), last),
        24,
        26,
        29,
    );
}

/// Nothing that uses the store is done before the store is ready: no administrator is set up, no
/// task is started, and no listener is bound.
pub proof fn law_store_is_ready_first(
    config: Config,
    opts: StartOpts,
    features: Features,
    prebuilt: bool,
    listen: Result<SocketAddress, Seq<char>>,
    i: int,
)
    requires
        0 <= i < serve_plan(config, opts, features, prebuilt, listen).steps.len(),
        ({
            let step = serve_plan(config, opts, features, prebuilt, listen).steps[i];
            step is SetupAdmin || step is Spawn || step is StartStreaming || step is BuildService
                || step is Bind
        }),
    ensures
        exists|j: int|
            0 <= j < i && store_ready(
                #[trigger] serve_plan(config, opts, features, prebuilt, listen).steps[j],
            ),
{
    let tracing = crate::startup::plan_when(opts.install_tracing, Step::InstallTracing);
    let store = store_part(config, features, prebuilt);
    let rest = after_store(config, opts, features, listen);
    let steps = serve_plan(config, opts, features, prebuilt, listen).steps;
    law_serve_steps_in_order(config, opts, features, prebuilt, listen);
    lemma_store_in_order(config, features, prebuilt);
    let inner = crate::startup::followed_by(store, rest);
    assert(steps == tracing.steps + inner.steps);
    if store.refusal is Some {
        if i >= tracing.steps.len() {
            assert(steps[i] == store.steps[i - tracing.steps.len()]);
        }
        assert(rank(steps[i]) < 4);
    } else {
        let j = tracing.steps.len() + store.steps.len() - 1;
        assert(inner.steps == store.steps + rest.steps);
        assert(steps[j] == inner.steps[store.steps.len() - 1]);
        assert(steps[j] == store.steps.last());
        assert(rank(steps[j]) < rank(steps[i]));
        assert(j < i);
    }
}

/// What a plan holds that does one plan after another.
pub(crate) proof fn lemma_followed_holds(first: PlanView, second: PlanView, step: Step)
    ensures
        crate::startup::followed_by(first, second).steps.contains(step) <==> (
        first.steps.contains(step) || (first.refusal is None && second.steps.contains(step))),
{
    let both = first.steps + second.steps;
    if first.steps.contains(step) {
        let i = choose|i: int| 0 <= i < first.steps.len() && first.steps[i] == step;
        assert(both[i] == step);
    }
    if second.steps.contains(step) {
        let i = choose|i: int| 0 <= i < second.steps.len() && second.steps[i] == step;
        assert(both[first.steps.len() + i] == step);
    }
    if both.contains(step) {
        let i = choose|i: int| 0 <= i < both.len() && both[i] == step;
        if i >= first.steps.len() {
            assert(second.steps[i - first.steps.len()] == step);
        } else {
            assert(first.steps[i] == step);
        }
    }
}

/// What a plan of one step, if it is wanted, holds.
pub(crate) proof fn lemma_when_holds(wanted: bool, only: Step, step: Step)
    ensures
        crate::startup::plan_when(wanted, only).steps.contains(step) <==> wanted && step == only,
{
    if wanted {
        assert(seq![only][0] == only);
    }
}

/// Whether the store can be made ready with this configuration.
pub open spec fn has_store(config: Config, features: Features, prebuilt: bool) -> bool {
    prebuilt || (features.redis && config.database.functions_file is Some)
}

/// Neither tracing nor signal handlers are installed unless the caller asks for them.
pub proof fn law_process_wide_state_is_opt_in(
    config: Config,
    opts: StartOpts,
    features: Features,
    prebuilt: bool,
    listen: Result<SocketAddress, Seq<char>>,
)
    ensures
        serve_plan(config, opts, features, prebuilt, listen).steps.contains(Step::InstallTracing)
            <==> opts.install_tracing,
        serve_plan(config, opts, features, prebuilt, listen).steps.contains(Step::HandleSignals)
            <==> opts.install_signal_handlers && has_store(config, features, prebuilt),
{
    lemma_serve_holds(config, opts, features, prebuilt, listen, Step::InstallTracing);
    lemma_serve_holds(config, opts, features, prebuilt, listen, Step::HandleSignals);
}

/// The configured administrator is always set up, whatever the store; where none is configured,
/// none is.
pub proof fn law_admin_is_always_set_up(
    config: Config,
    opts: StartOpts,
    features: Features,
    prebuilt: bool,
    listen: Result<SocketAddress, Seq<char>>,
)
    requires
        has_store(config, features, prebuilt),
    ensures
        serve_plan(config, opts, features, prebuilt, listen).steps.contains(Step::SetupAdmin)
            <==> config.admin_did@.len() > 0,
{
    lemma_serve_holds(config, opts, features, prebuilt, listen, Step::SetupAdmin);
}

/// With a store that was handed in, the database is left alone.
pub proof fn law_prebuilt_store_skips_the_database(
    config: Config,
    opts: StartOpts,
    features: Features,
    listen: Result<SocketAddress, Seq<char>>,
    step: Step,
)
    requires
        step is OpenDatabase || step is InitializeDatabase || step is LoadScripts,
    ensures
        !serve_plan(config, opts, features, true, listen).steps.contains(step),
{
    lemma_serve_holds(config, opts, features, true, listen, step);
}

/// A task runs exactly where its configuration asks for it.
pub proof fn law_tasks_follow_the_configuration(
    config: Config,
    opts: StartOpts,
    features: Features,
    prebuilt: bool,
    listen: Result<SocketAddress, Seq<char>>,
    task: Task,
)
    requires
        has_store(config, features, prebuilt),
    ensures
        serve_plan(config, opts, features, prebuilt, listen).steps.contains(Step::Spawn(task))
            <==> wants_task(config, task),
{
    lemma_serve_holds(config, opts, features, prebuilt, listen, Step::Spawn(task));
}

/// That messages may be forwarded to other mediators has no effect unless forwarding is enabled.
pub proof fn law_external_forwarding_needs_forwarding(
    config: Config,
    opts: StartOpts,
    features: Features,
    prebuilt: bool,
    listen: Result<SocketAddress, Seq<char>>,
)
    requires
        !config.processors.forwarding.enabled,
    ensures
        !serve_plan(config, opts, features, prebuilt, listen).steps.contains(
            Step::Spawn(Task::ForwardingProcessor),
        ),
{
    lemma_serve_holds(
        config,
        opts,
        features,
        prebuilt,
        listen,
        Step::Spawn(Task::ForwardingProcessor),
    );
}

/// Whether a task runs with this configuration.
pub open spec fn wants_task(config: Config, task: Task) -> bool {
    match task {
        Task::Statistics => true,
        Task::ForwardingProcessor => forwards(config),
        Task::MessageExpirySweep => config.processors.message_expiry_cleanup.enabled,
        Task::SessionExpirySweep => config.processors.session_expiry_cleanup.enabled,
        Task::VtaRefresh => config.vta_linked,
        Task::DidRateLimitSweep => config.limits.did_rate_limit_per_second > 0,
    }
}

/// A start that is not refused binds the listen address and ends with the endpoints; one that is
/// refused never binds.
pub proof fn law_start_binds_or_is_refused(
    config: Config,
    opts: StartOpts,
    features: Features,
    prebuilt: bool,
    listen: Result<SocketAddress, Seq<char>>,
    addr: SocketAddress,
)
    ensures
        serve_plan(config, opts, features, prebuilt, listen).refusal is None <==> has_store(
            config,
            features,
            prebuilt,
        ) && listen is Ok,
        serve_plan(config, opts, features, prebuilt, listen).steps.contains(Step::Bind(addr))
            <==> has_store(config, features, prebuilt) && listen == Ok::<
            SocketAddress,
            Seq<char>,
        >(addr),
{
    lemma_serve_holds(config, opts, features, prebuilt, listen, Step::Bind(addr));
    lemma_after_store_in_order(config, opts, features, listen);
}

/// What the steps over the background tasks hold.
pub(crate) proof fn lemma_tasks_hold(config: Config, step: Step)
    ensures
        tasks_part(config).steps.contains(step) <==> {
            ||| step == Step::Spawn(Task::Statistics)
            ||| forwards(config) && step == Step::Spawn(Task::ForwardingProcessor)
            ||| config.processors.message_expiry_cleanup.enabled && step == Step::Spawn(
                Task::MessageExpirySweep,
            )
            ||| config.processors.session_expiry_cleanup.enabled && step == Step::Spawn(
                Task::SessionExpirySweep,
            )
            ||| config.vta_linked && step == Step::Spawn(Task::VtaRefresh)
            ||| config.streaming_enabled && step == Step::StartStreaming
        },
{
    let streaming = crate::startup::plan_when(config.streaming_enabled, Step::StartStreaming);
    let vta = crate::startup::plan_when(config.vta_linked, Step::Spawn(Task::VtaRefresh));
    let sessions = crate::startup::plan_when(
        config.processors.session_expiry_cleanup.enabled,
        Step::Spawn(Task::SessionExpirySweep),
    );
    let messages = crate::startup::plan_when(
        config.processors.message_expiry_cleanup.enabled,
        Step::Spawn(Task::MessageExpirySweep),
    );
    let forwarding = crate::startup::plan_when(
        forwards(config),
        Step::Spawn(Task::ForwardingProcessor),
    );
    let statistics = crate::startup::plan_of(seq![Step::Spawn(Task::Statistics)]);
    let p5 = crate::startup::followed_by(vta, streaming);
    let p4 = crate::startup::followed_by(sessions, p5);
    let p3 = crate::startup::followed_by(messages, p4);
    let p2 = crate::startup::followed_by(forwarding, p3);
    lemma_followed_holds(vta, streaming, step);
    lemma_followed_holds(sessions, p5, step);
    lemma_followed_holds(messages, p4, step);
    lemma_followed_holds(forwarding, p3, step);
    lemma_followed_holds(statistics, p2, step);
    lemma_when_holds(true, Step::Spawn(Task::Statistics), step);
    lemma_when_holds(forwards(config), Step::Spawn(Task::ForwardingProcessor), step);
    lemma_when_holds(
        config.processors.message_expiry_cleanup.enabled,
        Step::Spawn(Task::MessageExpirySweep),
        step,
    );
    lemma_when_holds(
        config.processors.session_expiry_cleanup.enabled,
        Step::Spawn(Task::SessionExpirySweep),
        step,
    );
    lemma_when_holds(config.vta_linked, Step::Spawn(Task::VtaRefresh), step);
    lemma_when_holds(config.streaming_enabled, Step::StartStreaming, step);
}

/// What the steps over the service hold.
pub(crate) proof fn lemma_service_holds(config: Config, features: Features, step: Step)
    ensures
        service_part(config, features).steps.contains(step) <==> {
            ||| step == Step::CreateResolver
            ||| features.tsp && step == Step::AdvertiseTsp
            ||| config.has_did_document && step == Step::PreloadDocument
            ||| !config.has_did_document && config.mediator_did_doc is Some && step
                == Step::PreloadServedDocument
            ||| step == Step::BuildService
            ||| config.limits.did_rate_limit_per_second > 0 && step == Step::Spawn(
                Task::DidRateLimitSweep,
            )
        },
{
    let sweep = crate::startup::plan_when(
        config.limits.did_rate_limit_per_second > 0,
        Step::Spawn(Task::DidRateLimitSweep),
    );
    let service = crate::startup::plan_of(seq![Step::BuildService]);
    let tsp = crate::startup::plan_when(features.tsp, Step::AdvertiseTsp);
    let resolver = crate::startup::plan_of(seq![Step::CreateResolver]);
    let p3 = crate::startup::followed_by(service, sweep);
    let p2 = crate::startup::followed_by(document_part(config), p3);
    let p1 = crate::startup::followed_by(tsp, p2);
    lemma_followed_holds(service, sweep, step);
    lemma_followed_holds(document_part(config), p3, step);
    lemma_followed_holds(tsp, p2, step);
    lemma_followed_holds(resolver, p1, step);
    lemma_when_holds(
        config.limits.did_rate_limit_per_second > 0,
        Step::Spawn(Task::DidRateLimitSweep),
        step,
    );
    lemma_when_holds(true, Step::BuildService, step);
    lemma_when_holds(true, Step::PreloadDocument, step);
    lemma_when_holds(config.mediator_did_doc is Some, Step::PreloadServedDocument, step);
    lemma_when_holds(features.tsp, Step::AdvertiseTsp, step);
    lemma_when_holds(true, Step::CreateResolver, step);
}

/// What the plan to serve holds.
pub(crate) proof fn lemma_serve_holds(
    config: Config,
    opts: StartOpts,
    features: Features,
    prebuilt: bool,
    listen: Result<SocketAddress, Seq<char>>,
    step: Step,
)
    ensures
        serve_plan(config, opts, features, prebuilt, listen).steps.contains(step) <==> {
            ||| opts.install_tracing && step == Step::InstallTracing
            ||| store_part(config, features, prebuilt).steps.contains(step)
            ||| has_store(config, features, prebuilt) && {
                ||| config.admin_did@.len() > 0 && step == Step::SetupAdmin
                ||| opts.install_signal_handlers && step == Step::HandleSignals
                ||| step == Step::InitMetrics
                ||| tasks_part(config).steps.contains(step)
                ||| service_part(config, features).steps.contains(step)
                ||| listen_part(config.listen_address@, listen, opts.tls).steps.contains(step)
            }
        },
        store_part(config, features, prebuilt).refusal is None <==> has_store(
            config,
            features,
            prebuilt,
        ),
        store_part(config, features, prebuilt).steps.contains(step) ==> 1 <= rank(step) < 4 && (
        prebuilt ==> step is InitializeStore),
        tasks_part(config).steps.contains(step) ==> 7 <= rank(step) < 13,
        service_part(config, features).steps.contains(step) ==> 13 <= rank(step) < 18,
        listen_part(config.listen_address@, listen, opts.tls).steps.contains(step) ==> 18 <= rank(
            step,
        ),
        step matches Step::Bind(a) ==> (listen_part(
            config.listen_address@,
            listen,
            opts.tls,
        ).steps.contains(step) <==> listen == Ok::<SocketAddress, Seq<char>>(a)),
        step matches Step::Spawn(task) ==> (wants_task(config, task) <==> tasks_part(
            config,
        ).steps.contains(step) || service_part(config, features).steps.contains(step)),
{
    let tracing = crate::startup::plan_when(opts.install_tracing, Step::InstallTracing);
    let store = store_part(config, features, prebuilt);
    let admin = crate::startup::plan_when(config.admin_did@.len() > 0, Step::SetupAdmin);
    let signals = crate::startup::plan_when(opts.install_signal_handlers, Step::HandleSignals);
    let metrics = crate::startup::plan_of(seq![Step::InitMetrics]);
    let tasks = tasks_part(config);
    let service = service_part(config, features);
    let listening = listen_part(config.listen_address@, listen, opts.tls);
    let p4 = crate::startup::followed_by(service, listening);
    let p3 = crate::startup::followed_by(tasks, p4);
    let p2 = crate::startup::followed_by(metrics, p3);
    let p1 = crate::startup::followed_by(signals, p2);
    let rest = crate::startup::followed_by(admin, p1);
    lemma_store_in_order(config, features, prebuilt);
    lemma_tasks_in_order(config);
    lemma_service_in_order(config, features);
    lemma_followed_holds(service, listening, step);
    lemma_followed_holds(tasks, p4, step);
    lemma_followed_holds(metrics, p3, step);
    lemma_followed_holds(signals, p2, step);
    lemma_followed_holds(admin, p1, step);
    lemma_followed_holds(store, rest, step);
    lemma_followed_holds(tracing, crate::startup::followed_by(store, rest), step);
    lemma_when_holds(opts.install_tracing, Step::InstallTracing, step);
    lemma_when_holds(config.admin_did@.len() > 0, Step::SetupAdmin, step);
    lemma_when_holds(opts.install_signal_handlers, Step::HandleSignals, step);
    lemma_when_holds(true, Step::InitMetrics, step);
    lemma_tasks_hold(config, step);
    lemma_service_holds(config, features, step);
    if let Ok(addr) = listen {
        assert(listening.steps[0] == Step::Bind(addr));
    }
}

} // verus!
