//! What a mediator does when it starts and when it comes to serve.

use crate::error::ErrorView;
use crate::net::SocketAddress;
use crate::server::{
    admin_account, discover_protocols, plan_serve, program_options, serve_internal, start,
    sweep_time, AdminAccount, Features, StartOpts,
};
use crate::settings::Config;
use crate::startup::{Plan, Step, Task};
use vstd::prelude::*;

verus! {

/// A start installs a cryptography provider where TLS is asked for, and loads the certificate and
/// key where both are configured. Whatever TLS comes to, unless it is refused, the embedded store
/// is opened exactly where the operator chose it, it is built in, and a directory is set. A start
/// that is not refused serves and waits for the end, and nothing else is ever done.
pub proof fn law_start_opens_what_the_operator_chose(config: Config, features: Features, plan: Plan)
    requires
        call_ensures(start, (&config, features), plan),
    ensures
        plan.steps@.contains(Step::InstallCryptoProvider) <==> config.security.use_ssl,
        plan.steps@.contains(Step::LoadTls) <==> config.security.use_ssl
            && config.security.ssl_certificate_file is Some && config.security.ssl_key_file is Some,
        !config.security.use_ssl || (config.security.ssl_certificate_file is Some
            && config.security.ssl_key_file is Some) ==> (plan.steps@.contains(Step::OpenFjall)
            <==> config.storage is Some && config.storage->0.backend@ == "fjall"@ && features.fjall
            && config.storage->0.data_dir is Some),
        plan.steps@.contains(Step::Serve) <==> plan.refusal is None,
        plan.steps@.contains(Step::Join) <==> plan.refusal is None,
        plan.refusal is Some ==> !plan.steps@.contains(Step::OpenFjall),
        forall|step: Step| #[trigger]
            plan.steps@.contains(step) ==> step is InstallCryptoProvider || step is LoadTls
                || step is OpenFjall || step is Serve || step is Join,
{
    let tls = crate::server::tls_part(config);
    let storage = crate::server::storage_part(config, features);
    let last = crate::startup::plan_of(seq![Step::Serve, Step::Join]);
    let load = crate::startup::plan_of(seq![Step::LoadTls]);
    let install = crate::startup::plan_of(seq![Step::InstallCryptoProvider]);
    assert forall|step: Step| last.steps.contains(step) <==> step is Serve || step is Join by {
        assert(last.steps[0] == Step::Serve);
        assert(last.steps[1] == Step::Join);
    }
    assert forall|step: Step| #[trigger]
        plan.steps@.contains(step) implies step is InstallCryptoProvider || step is LoadTls
        || step is OpenFjall || step is Serve || step is Join by {
        crate::server::lemma_followed_holds(
            tls,
            crate::startup::followed_by(storage, last),
            step,
        );
        crate::server::lemma_followed_holds(storage, last, step);
        crate::server::lemma_followed_holds(install, load, step);
    }
    let steps = seq![
        Step::InstallCryptoProvider,
        Step::LoadTls,
        Step::OpenFjall,
        Step::Serve,
        Step::Join,
    ];
    assert forall|k: int| 0 <= k < 5 implies {
        let step = #[trigger] steps[k];
        &&& plan.steps@.contains(step) <==> tls.steps.contains(step) || (tls.refusal is None && (
        storage.steps.contains(step) || (storage.refusal is None && last.steps.contains(step))))
        &&& tls.steps.contains(step) <==> config.security.use_ssl && (step is InstallCryptoProvider
            || (step is LoadTls && config.security.ssl_certificate_file is Some
            && config.security.ssl_key_file is Some))
        &&& storage.steps.contains(step) ==> step is OpenFjall
    } by {
        let step = steps[k];
        crate::server::lemma_followed_holds(
            tls,
            crate::startup::followed_by(storage, last),
            step,
        );
        crate::server::lemma_followed_holds(storage, last, step);
        crate::server::lemma_followed_holds(install, load, step);
        crate::server::lemma_when_holds(true, Step::InstallCryptoProvider, step);
        crate::server::lemma_when_holds(true, Step::LoadTls, step);
    }
    assert(steps[0] is InstallCryptoProvider && steps[1] is LoadTls && steps[2] is OpenFjall
        && steps[3] is Serve && steps[4] is Join);
    crate::server::lemma_when_holds(true, Step::OpenFjall, Step::OpenFjall);
}

/// A start is refused for TLS without a certificate or a key, and otherwise, with or without TLS,
/// for an embedded store that is not built in or has no directory and for a backend that does not
/// exist. It is refused for nothing else.
pub proof fn law_start_is_refused_for_what_is_missing(
    config: Config,
    features: Features,
    plan: Plan,
)
    requires
        call_ensures(start, (&config, features), plan),
    ensures
        config.security.use_ssl && config.security.ssl_certificate_file is None
            ==> plan@.refusal == Some(
            ErrorView::ConfigError(
                12,
                "NA"@,
                "SSL Certificate file must be specified in the config"@,
            ),
        ),
        config.security.use_ssl && config.security.ssl_certificate_file is Some
            && config.security.ssl_key_file is None ==> plan@.refusal == Some(
            ErrorView::ConfigError(
                12,
                "NA"@,
                "SSL Certificate key file must be specified in the config"@,
            ),
        ),
        !config.security.use_ssl || (config.security.ssl_certificate_file is Some
            && config.security.ssl_key_file is Some) ==> {
            &&& config.storage is None ==> plan@.refusal is None
            &&& config.storage matches Some(storage) ==> {
                &&& storage.backend@ == "redis"@ ==> plan@.refusal is None
                &&& storage.backend@ == "fjall"@ ==> (plan@.refusal is None <==> features.fjall
                    && storage.data_dir is Some)
                &&& storage.backend@ == "fjall"@ && !features.fjall ==> plan@.refusal == Some(
                    ErrorView::ConfigError(
                        12,
                        "NA"@,
                        "[storage] backend = \"fjall\" but the `fjall-backend` feature is not compiled in. Rebuild the mediator with --features fjall-backend or switch to backend = \"redis\""@,
                    ),
                )
                &&& storage.backend@ == "fjall"@ && features.fjall && storage.data_dir is None
                    ==> plan@.refusal == Some(
                    ErrorView::ConfigError(
                        12,
                        "NA"@,
                        "[storage] backend = \"fjall\" requires `data_dir`"@,
                    ),
                )
                &&& storage.backend@ != "fjall"@ && storage.backend@ != "redis"@
                    ==> plan@.refusal == Some(
                    ErrorView::ConfigError(
                        12,
                        "NA"@,
                        "[storage] backend = \""@ + storage.backend@
                            + "\" is not supported. Use \"redis\" or \"fjall\"."@,
                    ),
                )
            }
        },
{
    reveal_strlit("redis");
    reveal_strlit("fjall");
    assert("redis"@[0] != "fjall"@[0]);
}

/// A start goes in one order: the cryptography provider, then the certificate, then the embedded
/// store, then serving, and the wait for the end last.
pub proof fn law_start_goes_in_order(config: Config, features: Features, plan: Plan, i: int, j: int)
    requires
        call_ensures(start, (&config, features), plan),
        0 <= i < j < plan.steps@.len(),
    ensures
        ({
            let place = |step: Step|
                match step {
                    Step::InstallCryptoProvider => 0int,
                    Step::LoadTls => 1,
                    Step::OpenFjall => 2,
                    Step::Serve => 3,
                    Step::Join => 4,
                    _ => 5,
                };
            place(plan.steps@[i]) < place(plan.steps@[j])
        }),
{
    crate::server::law_start_steps_in_order(config, features);
    law_start_opens_what_the_operator_chose(config, features, plan);
    assert(plan.steps@.contains(plan.steps@[i]));
    assert(plan.steps@.contains(plan.steps@[j]));
    assert(crate::server::rank(plan.steps@[i]) < crate::server::rank(plan.steps@[j]));
}

/// The steps that make the store ready, one by one.
proof fn lemma_store_holds(config: Config, features: Features, prebuilt: bool, step: Step)
    ensures
        crate::server::store_part(config, features, prebuilt).steps.contains(step) <==> match step {
            Step::InitializeStore => prebuilt,
            Step::OpenDatabase => !prebuilt && features.redis,
            Step::InitializeDatabase => !prebuilt && features.redis,
            Step::LoadScripts => !prebuilt && features.redis
                && config.database.functions_file is Some,
            _ => false,
        },
{
    let opened = crate::startup::plan_of(seq![Step::OpenDatabase, Step::InitializeDatabase]);
    let load = crate::startup::plan_of(seq![Step::LoadScripts]);
    assert(opened.steps[0] == Step::OpenDatabase);
    assert(opened.steps[1] == Step::InitializeDatabase);
    crate::server::lemma_when_holds(true, Step::LoadScripts, step);
    crate::server::lemma_when_holds(true, Step::InitializeStore, step);
    if !prebuilt && features.redis {
        let rest = if config.database.functions_file is Some {
            load
        } else {
            crate::startup::plan_refused(
                crate::error::config_view(
                    "LUA scripts file is required but not specified in the configuration"@,
                ),
            )
        };
        crate::server::lemma_followed_holds(opened, rest, step);
    }
}

/// The steps that bind the listener and serve from it, one by one.
proof fn lemma_listen_holds(
    address: Seq<char>,
    listen: Result<SocketAddress, Seq<char>>,
    tls: bool,
    step: Step,
)
    ensures
        crate::server::listen_part(address, listen, tls).steps.contains(step) <==> listen is Ok
            && match step {
            Step::Bind(addr) => listen->Ok_0 == addr,
            Step::SetNonblocking => true,
            Step::ReadBoundAddress => true,
            Step::DrainOnShutdown => true,
            Step::ServeListener { tls: over } => over == tls,
            Step::PublishEndpoints => true,
            _ => false,
        },
{
    if let Ok(addr) = listen {
        let steps = crate::server::listen_part(address, listen, tls).steps;
        assert(steps.len() == 6);
        assert(steps[0] == Step::Bind(addr));
        assert(steps[1] == Step::SetNonblocking);
        assert(steps[2] == Step::ReadBoundAddress);
        assert(steps[3] == Step::DrainOnShutdown);
        assert(steps[4] == (Step::ServeListener { tls }));
        assert(steps[5] == Step::PublishEndpoints);
    }
}

/// Each step to serve is taken exactly where its own setting asks for it. All but the tracing
/// subscriber and the store itself wait for a store that can be made ready: one that was handed
/// in, or the database with its scripts.
pub proof fn law_each_serve_step_follows_its_setting(
    config: Config,
    opts: StartOpts,
    features: Features,
    prebuilt: bool,
    listen: Result<SocketAddress, String>,
    plan: Plan,
    step: Step,
)
    requires
        call_ensures(plan_serve, (&config, opts, features, prebuilt, &listen), plan),
    ensures
        ({
            let ready = prebuilt || (features.redis && config.database.functions_file is Some);
            plan.steps@.contains(step) <==> match step {
                Step::InstallTracing => opts.install_tracing,
                Step::InitializeStore => prebuilt,
                Step::OpenDatabase => !prebuilt && features.redis,
                Step::InitializeDatabase => !prebuilt && features.redis,
                Step::LoadScripts => !prebuilt && features.redis
                    && config.database.functions_file is Some,
                Step::SetupAdmin => ready && config.admin_did@.len() > 0,
                Step::HandleSignals => ready && opts.install_signal_handlers,
                Step::InitMetrics => ready,
                Step::Spawn(Task::Statistics) => ready,
                Step::Spawn(Task::ForwardingProcessor) => ready
                    && config.processors.forwarding.enabled
                    && config.processors.forwarding.external_forwarding,
                Step::Spawn(Task::MessageExpirySweep) => ready
                    && config.processors.message_expiry_cleanup.enabled,
                Step::Spawn(Task::SessionExpirySweep) => ready
                    && config.processors.session_expiry_cleanup.enabled,
                Step::Spawn(Task::VtaRefresh) => ready && config.vta_linked,
                Step::Spawn(Task::DidRateLimitSweep) => ready
                    && config.limits.did_rate_limit_per_second > 0,
                Step::StartStreaming => ready && config.streaming_enabled,
                Step::CreateResolver => ready,
                Step::AdvertiseTsp => ready && features.tsp,
                Step::PreloadDocument => ready && config.has_did_document,
                Step::PreloadServedDocument => ready && !config.has_did_document
                    && config.mediator_did_doc is Some,
                Step::BuildService => ready,
                Step::Bind(addr) => ready && (listen matches Ok(a) && a == addr),
                Step::SetNonblocking => ready && listen is Ok,
                Step::ReadBoundAddress => ready && listen is Ok,
                Step::DrainOnShutdown => ready && listen is Ok,
                Step::ServeListener { tls } => ready && listen is Ok && tls == opts.tls,
                Step::PublishEndpoints => ready && listen is Ok,
                Step::InstallCryptoProvider => false,
                Step::LoadTls => false,
                Step::OpenFjall => false,
                Step::Serve => false,
                Step::Join => false,
            }
        }),
{
    let heard = crate::net::socket_view(listen);
    crate::server::lemma_serve_holds(config, opts, features, prebuilt, heard, step);
    crate::server::lemma_tasks_hold(config, step);
    crate::server::lemma_service_holds(config, features, step);
    lemma_store_holds(config, features, prebuilt, step);
    lemma_listen_holds(config.listen_address@, heard, opts.tls, step);
}

/// A mediator comes to serve in one order, and takes no step twice: tracing, the store, the
/// administrator, the signals, the metrics, the tasks and live delivery over the store, the
/// resolver with the mediator's own document, the service with its limiters, the listener, and
/// the endpoints last.
pub proof fn law_serve_goes_in_order(
    config: Config,
    opts: StartOpts,
    features: Features,
    prebuilt: bool,
    listen: Result<SocketAddress, String>,
    plan: Plan,
    i: int,
    j: int,
)
    requires
        call_ensures(plan_serve, (&config, opts, features, prebuilt, &listen), plan),
        0 <= i < j < plan.steps@.len(),
    ensures
        ({
            let place = |step: Step|
                match step {
                    Step::InstallTracing => 0int,
                    Step::InitializeStore => 1,
                    Step::OpenDatabase => 1,
                    Step::InitializeDatabase => 2,
                    Step::LoadScripts => 3,
                    Step::SetupAdmin => 4,
                    Step::HandleSignals => 5,
                    Step::InitMetrics => 6,
                    Step::Spawn(Task::Statistics) => 7,
                    Step::Spawn(Task::ForwardingProcessor) => 8,
                    Step::Spawn(Task::MessageExpirySweep) => 9,
                    Step::Spawn(Task::SessionExpirySweep) => 10,
                    Step::Spawn(Task::VtaRefresh) => 11,
                    Step::StartStreaming => 12,
                    Step::CreateResolver => 13,
                    Step::AdvertiseTsp => 14,
                    Step::PreloadDocument => 15,
                    Step::PreloadServedDocument => 15,
                    Step::BuildService => 16,
                    Step::Spawn(Task::DidRateLimitSweep) => 17,
                    Step::Bind(_) => 18,
                    Step::SetNonblocking => 19,
                    Step::ReadBoundAddress => 20,
                    Step::DrainOnShutdown => 21,
                    Step::ServeListener { .. } => 22,
                    Step::PublishEndpoints => 23,
                    _ => 24,
                };
            place(plan.steps@[i]) < place(plan.steps@[j])
        }),
{
    let heard = crate::net::socket_view(listen);
    crate::server::law_serve_steps_in_order(config, opts, features, prebuilt, heard);
    let first = plan.steps@[i];
    let second = plan.steps@[j];
    assert(crate::server::rank(first) < crate::server::rank(second));
    assert(crate::server::rank(second) < 24) by {
        assert(plan.steps@.contains(second));
        law_each_serve_step_follows_its_setting(
            config,
            opts,
            features,
            prebuilt,
            listen,
            plan,
            second,
        );
    }
}

/// Serving is refused where no store was handed in and the database is not built in or has no
/// scripts, and otherwise where the listen address is not an address. It is refused for nothing
/// else.
pub proof fn law_serve_is_refused_for_what_is_missing(
    config: Config,
    opts: StartOpts,
    features: Features,
    prebuilt: bool,
    listen: Result<SocketAddress, String>,
    plan: Plan,
)
    requires
        call_ensures(plan_serve, (&config, opts, features, prebuilt, &listen), plan),
    ensures
        !prebuilt && !features.redis ==> plan@.refusal == Some(
            ErrorView::ConfigError(
                12,
                "NA"@,
                "no pre-built store supplied and `redis-backend` feature is disabled — either enable `redis-backend` or pass MediatorBuilder::store(...)"@,
            ),
        ),
        !prebuilt && features.redis && config.database.functions_file is None ==> plan@.refusal
            == Some(
            ErrorView::ConfigError(
                12,
                "NA"@,
                "LUA scripts file is required but not specified in the configuration"@,
            ),
        ),
        prebuilt || (features.redis && config.database.functions_file is Some) ==> {
            &&& listen is Ok ==> plan@.refusal is None
            &&& listen matches Err(text) ==> plan@.refusal == Some(
                ErrorView::ConfigError(
                    12,
                    "NA"@,
                    "Invalid listen_address '"@ + config.listen_address@ + "': "@ + text@,
                ),
            )
        },
{
}

/// Serving goes by the configured listen address.
pub proof fn law_serve_reads_the_listen_address(
    config: Config,
    opts: StartOpts,
    features: Features,
    prebuilt: bool,
    listen: Result<SocketAddress, String>,
    plan: Plan,
    other: Plan,
)
    requires
        match listen {
            Ok(addr) => crate::net::parsed_socket(config.listen_address@) == Ok::<
                SocketAddress,
                Seq<char>,
            >(addr),
            Err(text) => crate::net::parsed_socket(config.listen_address@) == Err::<
                SocketAddress,
                Seq<char>,
            >(text@),
        },
        call_ensures(serve_internal, (&config, opts, features, prebuilt), plan),
        call_ensures(plan_serve, (&config, opts, features, prebuilt, &listen), other),
    ensures
        plan.steps@ == other.steps@,
        plan@.refusal == other@.refusal,
{
}

/// A program asks for TLS as it is configured; it has installed tracing already, and it owns the
/// signals of the process.
pub proof fn law_program_owns_its_process(config: Config, opts: StartOpts)
    requires
        call_ensures(program_options, (&config,), opts),
    ensures
        opts.tls == config.security.use_ssl,
        !opts.install_tracing,
        opts.install_signal_handlers,
{
}

/// Only the configured administrator is promoted: to a root administrator, with the default
/// permissions.
pub proof fn law_configured_administrator_is_root(config: Config, account: Option<AdminAccount>)
    requires
        call_ensures(admin_account, (&config,), account),
    ensures
        account is Some <==> config.admin_did@.len() > 0,
        account matches Some(a) ==> a.account_type is RootAdmin && a.did_hash@
            == crate::identity::sha256_hex(config.admin_did@) && a.acls
            == config.security.global_acl_default,
{
}

/// A sweep goes by the time since the epoch, and by 0 before it.
pub proof fn law_sweep_time_is_never_before_the_epoch(timestamp: i64, now: u64)
    requires
        call_ensures(sweep_time, (timestamp,), now),
    ensures
        timestamp >= 0 ==> now == timestamp,
        timestamp < 0 ==> now == 0,
{
}

/// The protocols that the mediator discloses.
pub proof fn law_protocols_are_disclosed(out: Vec<String>)
    requires
        call_ensures(discover_protocols, (), out),
    ensures
        out@.len() == 10,
        out@[0]@ == "https://didcomm.org/discover-features/2.0"@,
        out@[1]@ == "https://didcomm.org/routing/2.0"@,
        out@[2]@ == "https://didcomm.org/trust-ping/2.0"@,
        out@[3]@ == "https://didcomm.org/out-of-band/2.0"@,
        out@[4]@ == "https://didcomm.org/messagepickup/3.0"@,
        out@[5]@ == "https://affinidi.com/atm/1.0/authenticate"@,
        out@[6]@ == "https://didcomm.org/mediator/1.0/admin-management"@,
        out@[7]@ == "https://didcomm.org/mediator/1.0/account-management"@,
        out@[8]@ == "https://didcomm.org/mediator/1.0/acl-management"@,
        out@[9]@ == "https://didcomm.org/report-problem/2.0"@,
{
    let texts = crate::text::views(out@);
    assert(texts.len() == out@.len());
    assert forall|i: int| 0 <= i < texts.len() implies texts[i] == #[trigger] out@[i]@ by {}
}

} // verus!
