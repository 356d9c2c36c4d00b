//! Which engine serves which provider, and what a host puts in where nothing
//! was given to it.

use crate::local_asr::{native_provider_types, native_types};
use crate::types::{BackendError, Platform};
use vstd::prelude::*;

verus! {

/// The engines that recognise speech.
#[derive(Clone, Copy, PartialEq, Eq, Structural, Debug)]
pub enum EngineKind {
    /// Over the network.
    Cloud,
    /// On this machine.
    Local,
}

/// A provider and the engine behind it.
#[derive(Debug)]
pub struct Route {
    pub provider: String,
    pub engine: EngineKind,
}

/// `routes` leads from the providers `cloud`, then from `local`, each in its
/// order, to their engines.
pub open spec fn leads(routes: Seq<Route>, cloud: Seq<String>, local: Seq<&'static str>) -> bool {
    &&& routes.len() == cloud.len() + local.len()
    &&& forall|i: int|
        0 <= i < cloud.len() ==> (#[trigger] routes[i]).provider@ == cloud[i]@ && routes[i].engine
            == EngineKind::Cloud
    &&& forall|i: int|
        cloud.len() <= i < routes.len() ==> (#[trigger] routes[i]).provider@ == local[i
            - cloud.len()]@ && routes[i].engine == EngineKind::Local
}

/// The routes of the speech recognisers: those of the cloud first, then those
/// of this machine, in the order given.
pub fn transcription_routes(cloud: &Vec<String>, local: &Vec<&'static str>) -> (r: Vec<Route>)
    ensures
        leads(r@, cloud@, local@),
{
    let mut routes: Vec<Route> = Vec::new();
    let mut i: usize = 0;
    while i < cloud.len()
        invariant
            i <= cloud.len(),
            routes@.len() == i,
            forall|k: int|
                0 <= k < i ==> (#[trigger] routes@[k]).provider@ == cloud@[k]@ && routes@[k].engine
                    == EngineKind::Cloud,
        decreases cloud.len() - i,
    {
        routes.push(Route { provider: cloud[i].clone(), engine: EngineKind::Cloud });
        i = i + 1;
    }
    let mut j: usize = 0;
    while j < local.len()
        invariant
            j <= local.len(),
            routes@.len() == cloud@.len() + j,
            forall|k: int|
                0 <= k < cloud@.len() ==> (#[trigger] routes@[k]).provider@ == cloud@[k]@
                    && routes@[k].engine == EngineKind::Cloud,
            forall|k: int|
                cloud@.len() <= k < routes@.len() ==> (#[trigger] routes@[k]).provider@ == local@[k
                    - cloud@.len()]@ && routes@[k].engine == EngineKind::Local,
        decreases local.len() - j,
    {
        routes.push(Route { provider: local[j].to_owned(), engine: EngineKind::Local });
        j = j + 1;
    }
    routes
}

/// The server for remote input as it starts out.
#[derive(Debug)]
pub struct RemoteInputDefaults {
    pub port: u16,
    pub locale: &'static str,
}

/// What a windowed host is put together from.
#[derive(Debug)]
pub struct HostWiring {
    pub transcription: Vec<Route>,
    pub polisher: Vec<Route>,
    /// The providers that hear and write in one go.
    pub omni: Vec<Route>,
    pub model_store: bool,
    pub remote_input: Option<RemoteInputDefaults>,
    pub selection: bool,
    pub qa: bool,
}

/// The providers that the backend knows of everywhere.
#[derive(Debug)]
pub struct SharedProviderTypes {
    pub asr: Vec<String>,
    pub llm: Vec<String>,
    pub omni: Vec<String>,
}

/// What this machine recognises itself. A mobile device recognises nothing.
pub open spec fn local_types(platform: Platform, mobile: bool) -> Seq<&'static str> {
    if mobile {
        Seq::empty()
    } else {
        native_types(platform)
    }
}

/// What the windowed host is put together from. A mobile device recognises
/// nothing itself, has no server and cannot reach a selection; models need a
/// place to live.
pub fn backend_dependencies(
    platform: Platform,
    mobile: bool,
    models_root_usable: bool,
    shared: &SharedProviderTypes,
) -> (r: HostWiring)
    ensures
        leads(r.transcription@, shared.asr@, local_types(platform, mobile)),
        leads(r.polisher@, shared.llm@, Seq::empty()),
        leads(r.omni@, shared.omni@, Seq::empty()),
        r.model_store == models_root_usable,
        match r.remote_input {
            Some(d) => !mobile && d.port == 8443 && d.locale@ == "zh-CN"@,
            None => mobile,
        },
        r.selection == !mobile,
        r.qa,
{
    let local: Vec<&'static str> = if mobile {
        Vec::new()
    } else {
        native_provider_types(platform)
    };
    let nothing: Vec<&'static str> = Vec::new();
    proof {
        assert(nothing@ =~= Seq::<&'static str>::empty());
        assert(local@ =~= local_types(platform, mobile));
    }
    let transcription: Vec<Route> = transcription_routes(&shared.asr, &local);
    let polisher: Vec<Route> = transcription_routes(&shared.llm, &nothing);
    let omni: Vec<Route> = transcription_routes(&shared.omni, &nothing);
    HostWiring {
        transcription,
        polisher,
        omni,
        model_store: models_root_usable,
        remote_input: if mobile {
            None
        } else {
            Some(RemoteInputDefaults { port: 8443, locale: "zh-CN" })
        },
        selection: !mobile,
        qa: true,
    }
}

/// The routes of the speech recognisers of the Linux host.
pub fn linux_transcription_routes(cloud: &Vec<String>) -> (r: Vec<Route>)
    ensures
        leads(r@, cloud@, seq!["local-qwen3", "local-qwen3-c"]),
{
    let local: Vec<&'static str> = vec!["local-qwen3", "local-qwen3-c"];
    proof {
        assert(local@ =~= seq!["local-qwen3", "local-qwen3-c"]);
    }
    transcription_routes(cloud, &local)
}

/// What happens to a text whose polishing failed.
#[derive(Clone, Copy, PartialEq, Eq, Structural, Debug)]
pub enum PolishFailurePolicy {
    UseRawText,
    Fail,
}

/// A part of the host: one that was given to it, by its number, or its own.
#[derive(Clone, Copy, PartialEq, Eq, Structural, Debug)]
pub enum Part {
    Given(u64),
    Own,
}

/// How settings take effect on Linux.
#[derive(Clone, Copy, PartialEq, Eq, Structural, Debug)]
pub enum SettingsPart {
    Given(u64),
    /// Keys and the active provider.
    WithCredentials,
    /// Keys alone, because the credentials are somebody else's.
    HotkeysOnly,
}

/// The parts of the Linux host, before it is put together.
#[derive(Clone, Copy, PartialEq, Eq, Structural, Debug)]
pub struct LinuxBackendBuilder {
    pub transcription: u64,
    pub polisher: u64,
    pub auxiliary_polisher: Option<u64>,
    pub recorder: Option<u64>,
    pub text_inserter: Option<u64>,
    pub credential_store: Option<u64>,
    pub services: Option<u64>,
    pub host_actions: Option<u64>,
    pub settings_runtime: Option<u64>,
    pub local_asr_runtime: Option<u64>,
    pub marketplace_config: Option<u64>,
    pub polish_failure_policy: PolishFailurePolicy,
}

/// The parts of the Linux host.
#[derive(Clone, Copy, PartialEq, Eq, Structural, Debug)]
pub struct LinuxBackendParts {
    pub transcription: u64,
    pub polisher: u64,
    pub auxiliary_polisher: u64,
    pub recorder: Part,
    pub text_inserter: Part,
    pub credential_store: Part,
    pub services: Part,
    pub host_actions: Part,
    pub settings_runtime: SettingsPart,
    pub local_asr_runtime: Part,
    /// Without one there is no marketplace.
    pub marketplace_config: Option<u64>,
    pub polish_failure_policy: PolishFailurePolicy,
}

/// The given part, or the host's own.
pub open spec fn part_of(given: Option<u64>) -> Part {
    match given {
        Some(id) => Part::Given(id),
        None => Part::Own,
    }
}

fn part(given: Option<u64>) -> (r: Part)
    ensures
        r == part_of(given),
{
    match given {
        Some(id) => Part::Given(id),
        None => Part::Own,
    }
}

/// The parts that the host is put together from.
pub open spec fn parts_of(b: LinuxBackendBuilder) -> LinuxBackendParts {
    LinuxBackendParts {
        transcription: b.transcription,
        polisher: b.polisher,
        auxiliary_polisher: match b.auxiliary_polisher {
            Some(p) => p,
            None => b.polisher,
        },
        recorder: part_of(b.recorder),
        text_inserter: part_of(b.text_inserter),
        credential_store: part_of(b.credential_store),
        services: part_of(b.services),
        host_actions: part_of(b.host_actions),
        settings_runtime: match b.settings_runtime {
            Some(s) => SettingsPart::Given(s),
            None => if b.credential_store is Some {
                SettingsPart::HotkeysOnly
            } else {
                SettingsPart::WithCredentials
            },
        },
        local_asr_runtime: part_of(b.local_asr_runtime),
        marketplace_config: b.marketplace_config,
        polish_failure_policy: b.polish_failure_policy,
    }
}

/// What the host has made from the shared providers, by its numbers for it.
#[derive(Clone, Copy, PartialEq, Eq, Structural, Debug)]
pub struct SharedParts {
    pub transcription: u64,
    pub polisher: u64,
    pub auxiliary_polisher: u64,
    pub services: u64,
    pub local_asr_runtime: u64,
    pub marketplace_config: u64,
    pub settings_runtime: u64,
}

impl LinuxBackendBuilder {
    /// The host that users get: with the shared providers, once its store of
    /// credentials is open and every provider has its route.
    pub fn from_shared_providers(
        store: Result<u64, BackendError>,
        registered: Result<(), BackendError>,
        made: SharedParts,
    ) -> (r: Result<Self, BackendError>)
        ensures
            match (store, registered) {
                (Err(e), _) => r == Err::<Self, BackendError>(e),
                (Ok(_), Err(e)) => r == Err::<Self, BackendError>(e),
                (Ok(store), Ok(())) => r == Ok::<Self, BackendError>(
                    LinuxBackendBuilder {
                        transcription: made.transcription,
                        polisher: made.polisher,
                        auxiliary_polisher: Some(made.auxiliary_polisher),
                        recorder: None,
                        text_inserter: None,
                        credential_store: Some(store),
                        services: Some(made.services),
                        host_actions: None,
                        settings_runtime: Some(made.settings_runtime),
                        local_asr_runtime: Some(made.local_asr_runtime),
                        marketplace_config: Some(made.marketplace_config),
                        polish_failure_policy: PolishFailurePolicy::UseRawText,
                    },
                ),
            },
    {
        let store: u64 = match store {
            Ok(s) => s,
            Err(e) => return Err(e),
        };
        if let Err(e) = registered {
            return Err(e);
        }
        Ok(
            LinuxBackendBuilder::new(made.transcription, made.polisher).with_auxiliary_polisher(
                made.auxiliary_polisher,
            ).with_credential_store(store).with_services(made.services).with_local_asr_runtime(
                made.local_asr_runtime,
            ).with_marketplace_config(made.marketplace_config).with_settings_runtime(
                made.settings_runtime,
            ),
        )
    }

    fn with_marketplace_config(self, config: u64) -> (r: Self)
        ensures
            r == (LinuxBackendBuilder { marketplace_config: Some(config), ..self }),
    {
        LinuxBackendBuilder { marketplace_config: Some(config), ..self }
    }

    /// A host with nothing given to it but its engines.
    pub fn new(transcription: u64, polisher: u64) -> (r: Self)
        ensures
            r == (LinuxBackendBuilder {
                transcription,
                polisher,
                auxiliary_polisher: None,
                recorder: None,
                text_inserter: None,
                credential_store: None,
                services: None,
                host_actions: None,
                settings_runtime: None,
                local_asr_runtime: None,
                marketplace_config: None,
                polish_failure_policy: PolishFailurePolicy::UseRawText,
            }),
    {
        LinuxBackendBuilder {
            transcription,
            polisher,
            auxiliary_polisher: None,
            recorder: None,
            text_inserter: None,
            credential_store: None,
            services: None,
            host_actions: None,
            settings_runtime: None,
            local_asr_runtime: None,
            marketplace_config: None,
            polish_failure_policy: PolishFailurePolicy::UseRawText,
        }
    }

    pub fn with_recorder(self, recorder: u64) -> (r: Self)
        ensures
            r == (LinuxBackendBuilder { recorder: Some(recorder), ..self }),
    {
        LinuxBackendBuilder { recorder: Some(recorder), ..self }
    }

    pub fn with_auxiliary_polisher(self, polisher: u64) -> (r: Self)
        ensures
            r == (LinuxBackendBuilder { auxiliary_polisher: Some(polisher), ..self }),
    {
        LinuxBackendBuilder { auxiliary_polisher: Some(polisher), ..self }
    }

    pub fn with_text_inserter(self, inserter: u64) -> (r: Self)
        ensures
            r == (LinuxBackendBuilder { text_inserter: Some(inserter), ..self }),
    {
        LinuxBackendBuilder { text_inserter: Some(inserter), ..self }
    }

    pub fn with_credential_store(self, store: u64) -> (r: Self)
        ensures
            r == (LinuxBackendBuilder { credential_store: Some(store), ..self }),
    {
        LinuxBackendBuilder { credential_store: Some(store), ..self }
    }

    pub fn with_services(self, services: u64) -> (r: Self)
        ensures
            r == (LinuxBackendBuilder { services: Some(services), ..self }),
    {
        LinuxBackendBuilder { services: Some(services), ..self }
    }

    pub fn with_host_actions(self, actions: u64) -> (r: Self)
        ensures
            r == (LinuxBackendBuilder { host_actions: Some(actions), ..self }),
    {
        LinuxBackendBuilder { host_actions: Some(actions), ..self }
    }

    pub fn with_settings_runtime(self, runtime: u64) -> (r: Self)
        ensures
            r == (LinuxBackendBuilder { settings_runtime: Some(runtime), ..self }),
    {
        LinuxBackendBuilder { settings_runtime: Some(runtime), ..self }
    }

    pub fn with_local_asr_runtime(self, runtime: u64) -> (r: Self)
        ensures
            r == (LinuxBackendBuilder { local_asr_runtime: Some(runtime), ..self }),
    {
        LinuxBackendBuilder { local_asr_runtime: Some(runtime), ..self }
    }

    pub fn with_polish_failure_policy(self, policy: PolishFailurePolicy) -> (r: Self)
        ensures
            r == (LinuxBackendBuilder { polish_failure_policy: policy, ..self }),
    {
        LinuxBackendBuilder { polish_failure_policy: policy, ..self }
    }

    /// Puts the host together, once its data can be read. Its own store of
    /// credentials is opened only where none was given, and only then can
    /// that fail.
    pub fn build(
        self,
        repositories: Result<(), BackendError>,
        own_credentials: Result<(), BackendError>,
    ) -> (r: Result<LinuxBackendParts, BackendError>)
        ensures
            match repositories {
                Err(e) => r == Err::<LinuxBackendParts, BackendError>(e),
                Ok(()) => if self.credential_store is None && own_credentials is Err {
                    r == Err::<LinuxBackendParts, BackendError>(own_credentials->Err_0)
                } else {
                    r == Ok::<LinuxBackendParts, BackendError>(parts_of(self))
                },
            },
    {
        if let Err(e) = repositories {
            return Err(e);
        }
        let settings_runtime: SettingsPart = match self.settings_runtime {
            Some(s) => SettingsPart::Given(s),
            None => if self.credential_store.is_some() {
                SettingsPart::HotkeysOnly
            } else {
                SettingsPart::WithCredentials
            },
        };
        if self.credential_store.is_none() {
            if let Err(e) = own_credentials {
                return Err(e);
            }
        }
        Ok(
            LinuxBackendParts {
                transcription: self.transcription,
                polisher: self.polisher,
                auxiliary_polisher: match self.auxiliary_polisher {
                    Some(p) => p,
                    None => self.polisher,
                },
                recorder: part(self.recorder),
                text_inserter: part(self.text_inserter),
                credential_store: part(self.credential_store),
                services: part(self.services),
                host_actions: part(self.host_actions),
                settings_runtime,
                local_asr_runtime: part(self.local_asr_runtime),
                marketplace_config: self.marketplace_config,
                polish_failure_policy: self.polish_failure_policy,
            },
        )
    }
}

/// What was given to the host is what it is put together from, whatever else
/// was given.
pub proof fn law_given_parts_are_kept(b: LinuxBackendBuilder, id: u64)
    ensures
        parts_of((LinuxBackendBuilder { recorder: Some(id), ..b })).recorder == Part::Given(id),
        parts_of((LinuxBackendBuilder { text_inserter: Some(id), ..b })).text_inserter
            == Part::Given(id),
        parts_of((LinuxBackendBuilder { credential_store: Some(id), ..b })).credential_store
            == Part::Given(id),
        parts_of((LinuxBackendBuilder { services: Some(id), ..b })).services == Part::Given(id),
        parts_of((LinuxBackendBuilder { host_actions: Some(id), ..b })).host_actions
            == Part::Given(id),
        parts_of((LinuxBackendBuilder { settings_runtime: Some(id), ..b })).settings_runtime
            == SettingsPart::Given(id),
        parts_of((LinuxBackendBuilder { local_asr_runtime: Some(id), ..b })).local_asr_runtime
            == Part::Given(id),
        parts_of((LinuxBackendBuilder { auxiliary_polisher: Some(id), ..b })).auxiliary_polisher
            == id,
{
}

/// Every provider has its engine: those of the cloud the one over the network, and
/// the others that of this machine, in their order and without a further one.
pub proof fn law_every_provider_has_a_route(
    cloud: &Vec<String>,
    local: &Vec<&'static str>,
    r: Vec<Route>,
    i: int,
    j: int,
)
    requires
        call_ensures(transcription_routes, (cloud, local), r),
        0 <= i < cloud@.len(),
        0 <= j < local@.len(),
    ensures
        r@.len() == cloud@.len() + local@.len(),
        r@[i].provider@ == cloud@[i]@ && r@[i].engine == EngineKind::Cloud,
        r@[cloud@.len() + j].provider@ == local@[j]@ && r@[cloud@.len() + j].engine
            == EngineKind::Local,
{
    let k = cloud@.len() + j;
    assert(r@[k].provider@ == local@[k - cloud@.len()]@);
}

/// A windowed host reaches every shared provider over the network, and what this
/// machine recognises itself on the machine. A mobile device recognises nothing
/// itself, has no server and reaches no selection; everything else is the same.
pub proof fn law_mobile_host_has_less(
    platform: Platform,
    usable: bool,
    shared: &SharedProviderTypes,
    own: Vec<&'static str>,
    desk: HostWiring,
    mobile: HostWiring,
    i: int,
)
    requires
        call_ensures(native_provider_types, (platform,), own),
        call_ensures(backend_dependencies, (platform, false, usable, shared), desk),
        call_ensures(backend_dependencies, (platform, true, usable, shared), mobile),
    ensures
        mobile.transcription@.len() == shared.asr@.len(),
        desk.transcription@.len() == shared.asr@.len() + own@.len(),
        mobile.polisher@.len() == shared.llm@.len() && desk.polisher@.len() == shared.llm@.len(),
        mobile.omni@.len() == shared.omni@.len() && desk.omni@.len() == shared.omni@.len(),
        0 <= i < shared.asr@.len() ==> desk.transcription@[i].provider@ == shared.asr@[i]@
            && desk.transcription@[i].engine == EngineKind::Cloud
            && mobile.transcription@[i].provider@ == shared.asr@[i]@
            && mobile.transcription@[i].engine == EngineKind::Cloud,
        0 <= i < shared.llm@.len() ==> desk.polisher@[i].provider@ == shared.llm@[i]@
            && desk.polisher@[i].engine == EngineKind::Cloud && mobile.polisher@[i].provider@
            == shared.llm@[i]@ && mobile.polisher@[i].engine == EngineKind::Cloud,
        0 <= i < shared.omni@.len() ==> desk.omni@[i].provider@ == shared.omni@[i]@
            && desk.omni@[i].engine == EngineKind::Cloud && mobile.omni@[i].provider@
            == shared.omni@[i]@ && mobile.omni@[i].engine == EngineKind::Cloud,
        0 <= i < own@.len() ==> desk.transcription@[shared.asr@.len() + i].provider@ == own@[i]@
            && desk.transcription@[shared.asr@.len() + i].engine == EngineKind::Local,
        desk.remote_input is Some && mobile.remote_input is None,
        desk.selection && !mobile.selection,
        desk.qa && mobile.qa,
        desk.model_store == usable && mobile.model_store == usable,
        desk.remote_input->0.port == 8443 && desk.remote_input->0.locale@ == "zh-CN"@,
{
    if 0 <= i < own@.len() {
        let k = shared.asr@.len() + i;
        assert(desk.transcription@[k].engine == EngineKind::Local);
    }
}

/// The Linux host recognises with the two local Qwen providers beside those of the
/// cloud.
pub proof fn law_linux_host_recognises_with_qwen(cloud: &Vec<String>, r: Vec<Route>, i: int)
    requires
        call_ensures(linux_transcription_routes, (cloud,), r),
    ensures
        r@.len() == cloud@.len() + 2,
        0 <= i < cloud@.len() ==> r@[i].provider@ == cloud@[i]@ && r@[i].engine
            == EngineKind::Cloud,
        r@[r@.len() - 2].provider@ == "local-qwen3"@ && r@[r@.len() - 2].engine
            == EngineKind::Local,
        r@.last().provider@ == "local-qwen3-c"@ && r@.last().engine == EngineKind::Local,
{
    let n = r@.len() as int;
    assert(r@[n - 2].provider@ == seq!["local-qwen3", "local-qwen3-c"][(n - 2) - cloud@.len()]@);
    assert(r@[n - 1].provider@ == seq!["local-qwen3", "local-qwen3-c"][(n - 1) - cloud@.len()]@);
}

/// The host is put together from what was given to it, and from its own where nothing
/// was. Its engines are always those that were given.
pub proof fn law_host_is_built_from_what_was_given(
    b: LinuxBackendBuilder,
    repositories: Result<(), BackendError>,
    own: Result<(), BackendError>,
    r: Result<LinuxBackendParts, BackendError>,
)
    requires
        call_ensures(LinuxBackendBuilder::build, (b, repositories, own), r),
    ensures
        r is Ok <==> repositories is Ok && (b.credential_store is Some || own is Ok),
        repositories is Err ==> r->Err_0 == repositories->Err_0,
        repositories is Ok && r is Err ==> r->Err_0 == own->Err_0,
        r is Ok ==> {
            let p = r->Ok_0;
            &&& p.transcription == b.transcription && p.polisher == b.polisher
            &&& p.polish_failure_policy == b.polish_failure_policy
            &&& p.marketplace_config == b.marketplace_config
            &&& (b.auxiliary_polisher matches Some(id) ==> p.auxiliary_polisher == id)
            &&& b.auxiliary_polisher is None ==> p.auxiliary_polisher == b.polisher
            &&& (b.recorder matches Some(id) ==> p.recorder == Part::Given(id))
            &&& b.recorder is None ==> p.recorder == Part::Own
            &&& (b.text_inserter matches Some(id) ==> p.text_inserter == Part::Given(id))
            &&& b.text_inserter is None ==> p.text_inserter == Part::Own
            &&& (b.credential_store matches Some(id) ==> p.credential_store == Part::Given(id))
            &&& b.credential_store is None ==> p.credential_store == Part::Own
            &&& (b.services matches Some(id) ==> p.services == Part::Given(id))
            &&& b.services is None ==> p.services == Part::Own
            &&& (b.host_actions matches Some(id) ==> p.host_actions == Part::Given(id))
            &&& b.host_actions is None ==> p.host_actions == Part::Own
            &&& (b.local_asr_runtime matches Some(id) ==> p.local_asr_runtime == Part::Given(id))
            &&& b.local_asr_runtime is None ==> p.local_asr_runtime == Part::Own
            &&& (b.settings_runtime matches Some(id) ==> p.settings_runtime == SettingsPart::Given(
                id,
            ))
            &&& b.settings_runtime is None ==> (p.settings_runtime is WithCredentials
                <==> p.credential_store == Part::Own)
            &&& b.settings_runtime is None ==> (p.settings_runtime is HotkeysOnly
                <==> p.credential_store != Part::Own)
        },
{
}

/// Each call of the builder gives the host one part, and the last one counts.
pub proof fn law_builder_gives_one_part(
    b: LinuxBackendBuilder,
    id: u64,
    policy: PolishFailurePolicy,
    recorder: LinuxBackendBuilder,
    polisher: LinuxBackendBuilder,
    inserter: LinuxBackendBuilder,
    store: LinuxBackendBuilder,
    services: LinuxBackendBuilder,
    actions: LinuxBackendBuilder,
    settings: LinuxBackendBuilder,
    local: LinuxBackendBuilder,
    failing: LinuxBackendBuilder,
)
    requires
        call_ensures(LinuxBackendBuilder::with_recorder, (b, id), recorder),
        call_ensures(LinuxBackendBuilder::with_auxiliary_polisher, (b, id), polisher),
        call_ensures(LinuxBackendBuilder::with_text_inserter, (b, id), inserter),
        call_ensures(LinuxBackendBuilder::with_credential_store, (b, id), store),
        call_ensures(LinuxBackendBuilder::with_services, (b, id), services),
        call_ensures(LinuxBackendBuilder::with_host_actions, (b, id), actions),
        call_ensures(LinuxBackendBuilder::with_settings_runtime, (b, id), settings),
        call_ensures(LinuxBackendBuilder::with_local_asr_runtime, (b, id), local),
        call_ensures(LinuxBackendBuilder::with_polish_failure_policy, (b, policy), failing),
    ensures
        recorder == (LinuxBackendBuilder { recorder: Some(id), ..b }),
        polisher == (LinuxBackendBuilder { auxiliary_polisher: Some(id), ..b }),
        inserter == (LinuxBackendBuilder { text_inserter: Some(id), ..b }),
        store == (LinuxBackendBuilder { credential_store: Some(id), ..b }),
        services == (LinuxBackendBuilder { services: Some(id), ..b }),
        actions == (LinuxBackendBuilder { host_actions: Some(id), ..b }),
        settings == (LinuxBackendBuilder { settings_runtime: Some(id), ..b }),
        local == (LinuxBackendBuilder { local_asr_runtime: Some(id), ..b }),
        failing == (LinuxBackendBuilder { polish_failure_policy: policy, ..b }),
{
}

/// The host that users get has the shared engines, a store of credentials that is
/// open, and keeps a text whose polishing failed. Built, it opens no store of its own.
pub proof fn law_shared_host_is_complete(
    store: Result<u64, BackendError>,
    registered: Result<(), BackendError>,
    made: SharedParts,
    own: Result<(), BackendError>,
    r: Result<LinuxBackendBuilder, BackendError>,
    built: Result<LinuxBackendParts, BackendError>,
)
    requires
        call_ensures(LinuxBackendBuilder::from_shared_providers, (store, registered, made), r),
        r is Ok ==> call_ensures(
            LinuxBackendBuilder::build,
            (r->Ok_0, Ok::<(), BackendError>(()), own),
            built,
        ),
    ensures
        r is Ok <==> store is Ok && registered is Ok,
        store is Err ==> r->Err_0 == store->Err_0,
        store is Ok && registered is Err ==> r->Err_0 == registered->Err_0,
        r is Ok ==> {
            let p = built->Ok_0;
            &&& built is Ok
            &&& p.transcription == made.transcription && p.polisher == made.polisher
            &&& p.auxiliary_polisher == made.auxiliary_polisher
            &&& p.services == Part::Given(made.services)
            &&& p.local_asr_runtime == Part::Given(made.local_asr_runtime)
            &&& p.settings_runtime == SettingsPart::Given(made.settings_runtime)
            &&& p.marketplace_config == Some(made.marketplace_config)
            &&& p.credential_store == Part::Given(store->Ok_0)
            &&& p.polish_failure_policy == PolishFailurePolicy::UseRawText
            &&& p.recorder == Part::Own && p.text_inserter == Part::Own && p.host_actions
                == Part::Own
        },
{
}

/// A host with nothing but its engines uses its own of everything else.
pub proof fn law_bare_host_uses_its_own(
    transcription: u64,
    polisher: u64,
    b: LinuxBackendBuilder,
    built: Result<LinuxBackendParts, BackendError>,
)
    requires
        call_ensures(LinuxBackendBuilder::new, (transcription, polisher), b),
        call_ensures(
            LinuxBackendBuilder::build,
            (b, Ok::<(), BackendError>(()), Ok::<(), BackendError>(())),
            built,
        ),
    ensures
        built is Ok,
        built->Ok_0.transcription == transcription && built->Ok_0.polisher == polisher
            && built->Ok_0.auxiliary_polisher == polisher,
        built->Ok_0.recorder == Part::Own && built->Ok_0.text_inserter == Part::Own
            && built->Ok_0.credential_store == Part::Own && built->Ok_0.services == Part::Own
            && built->Ok_0.host_actions == Part::Own && built->Ok_0.local_asr_runtime == Part::Own,
        built->Ok_0.settings_runtime == SettingsPart::WithCredentials,
        built->Ok_0.marketplace_config is None,
        built->Ok_0.polish_failure_policy == PolishFailurePolicy::UseRawText,
{
}

} // verus!
