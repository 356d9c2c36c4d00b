//! What is remembered about credentials on Linux: which provider is active
//! and which secrets exist. The secrets themselves live in the keyring and
//! never pass through here on their way to a file.

use crate::paths::{below, path_below};
use crate::text::{blank, decimal, decimal_text, is_blank, join3, str_eq, trim, trimmed};
use crate::types::{opt_text, BackendError, BackendErrorCode, Platform};
use vstd::prelude::*;

verus! {

/// The newest form of the remembered data that this program reads.
pub const METADATA_VERSION: u32 = 1;

#[derive(Clone, Copy, PartialEq, Eq, Structural, Debug)]
pub enum CredentialNamespace {
    Asr,
    Llm,
    Omni,
}

#[derive(Clone, Copy, PartialEq, Eq, Structural, Debug)]
pub enum ProviderSlot {
    Asr,
    Llm,
}

/// Where a secret belongs.
#[derive(Debug)]
pub struct CredentialKey {
    pub namespace: CredentialNamespace,
    /// Nothing where the secret serves every provider of its namespace.
    pub provider_id: Option<String>,
    pub account: String,
}

/// Two keys name the same secret.
pub open spec fn same_key(a: CredentialKey, b: CredentialKey) -> bool {
    &&& a.namespace == b.namespace
    &&& opt_text(a.provider_id) == opt_text(b.provider_id)
    &&& a.account@ == b.account@
}

fn keys_match(a: &CredentialKey, b: &CredentialKey) -> (r: bool)
    ensures
        r == same_key(*a, *b),
{
    if a.namespace != b.namespace || !str_eq(a.account.as_str(), b.account.as_str()) {
        return false;
    }
    match (&a.provider_id, &b.provider_id) {
        (Some(x), Some(y)) => str_eq(x.as_str(), y.as_str()),
        (None, None) => true,
        _ => false,
    }
}

fn copy_key(key: &CredentialKey) -> (r: CredentialKey)
    ensures
        r == *key,
{
    CredentialKey {
        namespace: key.namespace,
        provider_id: match &key.provider_id {
            Some(p) => Some(p.clone()),
            None => None,
        },
        account: key.account.clone(),
    }
}

fn copy_keys(keys: &Vec<CredentialKey>) -> (r: Vec<CredentialKey>)
    ensures
        r@ == keys@,
{
    let mut out: Vec<CredentialKey> = Vec::new();
    let mut i: usize = 0;
    while i < keys.len()
        invariant
            i <= keys.len(),
            out@ == keys@.take(i as int),
        decreases keys.len() - i,
    {
        out.push(copy_key(&keys[i]));
        proof {
            assert(out@ =~= keys@.take(i + 1));
        }
        i = i + 1;
    }
    proof {
        assert(keys@.take(keys@.len() as int) =~= keys@);
    }
    out
}

/// What a channel is for.
#[derive(Clone, Copy, PartialEq, Eq, Structural, Debug)]
pub enum ChannelKind {
    Asr,
    Llm,
}

/// A provider as the user has set it up. The backend makes and changes
/// channels; here they are only kept.
#[derive(Debug)]
pub struct ChannelSummary {
    pub kind: ChannelKind,
    pub id: String,
    pub provider_type: String,
    pub name: String,
}

fn copy_channel(channel: &ChannelSummary) -> (r: ChannelSummary)
    ensures
        r == *channel,
{
    ChannelSummary {
        kind: channel.kind,
        id: channel.id.clone(),
        provider_type: channel.provider_type.clone(),
        name: channel.name.clone(),
    }
}

fn copy_channels(channels: &Vec<ChannelSummary>) -> (r: Vec<ChannelSummary>)
    ensures
        r@ == channels@,
{
    let mut out: Vec<ChannelSummary> = Vec::new();
    let mut i: usize = 0;
    while i < channels.len()
        invariant
            i <= channels.len(),
            out@ == channels@.take(i as int),
        decreases channels.len() - i,
    {
        out.push(copy_channel(&channels[i]));
        proof {
            assert(out@ =~= channels@.take(i + 1));
        }
        i = i + 1;
    }
    proof {
        assert(channels@.take(channels@.len() as int) =~= channels@);
    }
    out
}

/// The channels of one kind, in the order of the record.
pub open spec fn of_kind(channels: Seq<ChannelSummary>, kind: ChannelKind) -> Seq<ChannelSummary>
    decreases channels.len(),
{
    if channels.len() == 0 {
        channels
    } else if channels.last().kind == kind {
        of_kind(channels.drop_last(), kind).push(channels.last())
    } else {
        of_kind(channels.drop_last(), kind)
    }
}

/// What is remembered. No secret is part of it.
#[derive(Debug)]
pub struct PersistedCredentialMetadata {
    pub version: u32,
    pub active_asr_provider: String,
    pub active_llm_provider: String,
    pub channels: Vec<ChannelSummary>,
    pub keys: Vec<CredentialKey>,
}

/// Two records say the same.
pub open spec fn same_record(
    a: PersistedCredentialMetadata,
    b: PersistedCredentialMetadata,
) -> bool {
    &&& a.version == b.version
    &&& a.active_asr_provider@ == b.active_asr_provider@
    &&& a.active_llm_provider@ == b.active_llm_provider@
    &&& a.channels@ == b.channels@
    &&& a.keys@ == b.keys@
}

/// `next` is `state` with another active provider.
pub open spec fn has_provider_set(
    next: PersistedCredentialMetadata,
    state: PersistedCredentialMetadata,
    slot: ProviderSlot,
    provider_id: Seq<char>,
) -> bool {
    &&& next.version == state.version
    &&& next.channels@ == state.channels@
    &&& next.keys@ == state.keys@
    &&& remembered_provider(next, slot) == trimmed(provider_id)
    &&& forall|other: ProviderSlot|
        other != slot ==> #[trigger] remembered_provider(next, other) == remembered_provider(
            state,
            other,
        )
}

/// `next` is `state` with other channels.
pub open spec fn has_channels_set(
    next: PersistedCredentialMetadata,
    state: PersistedCredentialMetadata,
    channels: Seq<ChannelSummary>,
) -> bool {
    &&& next.version == state.version
    &&& next.active_asr_provider@ == state.active_asr_provider@
    &&& next.active_llm_provider@ == state.active_llm_provider@
    &&& next.channels@ == channels
    &&& next.keys@ == state.keys@
}

/// The active provider as it is remembered.
pub open spec fn remembered_provider(
    s: PersistedCredentialMetadata,
    slot: ProviderSlot,
) -> Seq<char> {
    match slot {
        ProviderSlot::Asr => s.active_asr_provider@,
        ProviderSlot::Llm => s.active_llm_provider@,
    }
}

/// One of the keys names this secret.
pub open spec fn knows(keys: Seq<CredentialKey>, key: CredentialKey) -> bool {
    exists|i: int| 0 <= i < keys.len() && same_key(#[trigger] keys[i], key)
}

/// The keys without those that name this secret.
pub open spec fn forgotten(keys: Seq<CredentialKey>, key: CredentialKey) -> Seq<CredentialKey>
    decreases keys.len(),
{
    if keys.len() == 0 {
        keys
    } else if same_key(keys.last(), key) {
        forgotten(keys.drop_last(), key)
    } else {
        forgotten(keys.drop_last(), key).push(keys.last())
    }
}

/// The keys with this secret among them, once.
pub open spec fn remembered(keys: Seq<CredentialKey>, key: CredentialKey) -> Seq<CredentialKey> {
    if knows(keys, key) {
        keys
    } else {
        keys.push(key)
    }
}

/// A secret for `provider` exists.
pub open spec fn configured(
    keys: Seq<CredentialKey>,
    namespace: CredentialNamespace,
    provider: Seq<char>,
) -> bool {
    exists|i: int|
        0 <= i < keys.len() && (#[trigger] keys[i]).namespace == namespace && (match keys[i].provider_id {
            Some(p) => p@ == provider,
            None => true,
        })
}

fn has_key_for(
    keys: &Vec<CredentialKey>,
    namespace: CredentialNamespace,
    provider: &str,
) -> (r: bool)
    ensures
        r == configured(keys@, namespace, provider@),
{
    let mut i: usize = 0;
    while i < keys.len()
        invariant
            i <= keys.len(),
            forall|k: int|
                0 <= k < i ==> !((#[trigger] keys@[k]).namespace == namespace && (
                match keys@[k].provider_id {
                    Some(p) => p@ == provider@,
                    None => true,
                })),
        decreases keys.len() - i,
    {
        let serves: bool = match &keys[i].provider_id {
            Some(p) => str_eq(p.as_str(), provider),
            None => true,
        };
        if keys[i].namespace == namespace && serves {
            assert(keys@[i as int].namespace == namespace);
            return true;
        }
        i = i + 1;
    }
    false
}

/// A secret of this namespace exists.
pub open spec fn any_of(keys: Seq<CredentialKey>, namespace: CredentialNamespace) -> bool {
    exists|i: int| 0 <= i < keys.len() && (#[trigger] keys[i]).namespace == namespace
}

fn has_namespace(keys: &Vec<CredentialKey>, namespace: CredentialNamespace) -> (r: bool)
    ensures
        r == any_of(keys@, namespace),
{
    let mut i: usize = 0;
    while i < keys.len()
        invariant
            i <= keys.len(),
            forall|k: int| 0 <= k < i ==> (#[trigger] keys@[k]).namespace != namespace,
        decreases keys.len() - i,
    {
        if keys[i].namespace == namespace {
            assert(keys@[i as int].namespace == namespace);
            return true;
        }
        i = i + 1;
    }
    false
}

/// A value with more than white space in it.
pub fn non_empty(value: String) -> (r: Option<String>)
    ensures
        r == (if blank(value@) {
            None
        } else {
            Some(value)
        }),
{
    if is_blank(value.as_str()) {
        None
    } else {
        Some(value)
    }
}

/// The text, or the other one if it is blank.
pub open spec fn nonblank_or(text: Seq<char>, other: Seq<char>) -> Seq<char> {
    if blank(text) {
        other
    } else {
        text
    }
}

/// What the settings page shows.
#[derive(Debug)]
pub struct CredentialsStatus {
    pub active_asr_provider: String,
    pub active_llm_provider: String,
    /// The preferences ask for one model that hears and answers.
    pub multimodal: bool,
    pub asr_configured: bool,
    pub llm_configured: bool,
    pub omni_configured: bool,
    pub volcengine_configured: bool,
    pub ark_configured: bool,
}

/// What was found where the record is kept.
#[derive(Debug)]
pub enum MetadataRead {
    Parsed(PersistedCredentialMetadata),
    Invalid(String),
    Missing,
    Failed(String),
}

/// What is wrong with the record.
pub open spec fn metadata_fault(read: MetadataRead) -> Option<Seq<char>> {
    match read {
        MetadataRead::Parsed(s) => if s.version > METADATA_VERSION {
            Some("Linux credential metadata is newer than this application"@)
        } else {
            None
        },
        MetadataRead::Invalid(why) => Some("invalid Linux credential metadata: "@ + why@),
        MetadataRead::Missing => None,
        MetadataRead::Failed(why) => Some("failed to read Linux credential metadata: "@ + why@),
    }
}

/// `s` is the record to work with.
pub open spec fn is_record_of(s: PersistedCredentialMetadata, read: MetadataRead) -> bool {
    match read {
        MetadataRead::Parsed(p) => s == (PersistedCredentialMetadata {
            version: METADATA_VERSION,
            ..p
        }),
        _ => {
            &&& s.version == METADATA_VERSION
            &&& s.active_asr_provider@ == ""@
            &&& s.active_llm_provider@ == ""@
            &&& s.channels@.len() == 0
            &&& s.keys@.len() == 0
        },
    }
}

/// The record to work with. A record of a later program is not touched.
pub fn read_metadata(read: MetadataRead) -> (r: Result<PersistedCredentialMetadata, BackendError>)
    ensures
        match r {
            Ok(s) => metadata_fault(read) is None && is_record_of(s, read),
            Err(e) => metadata_fault(read) is Some && e.is(
                BackendErrorCode::Persistence,
                metadata_fault(read)->0,
            ),
        },
{
    match read {
        MetadataRead::Parsed(s) => {
            if s.version > METADATA_VERSION {
                return Err(
                    BackendError::new(
                        BackendErrorCode::Persistence,
                        "Linux credential metadata is newer than this application",
                    ),
                );
            }
            Ok(
                PersistedCredentialMetadata {
                    version: METADATA_VERSION,
                    active_asr_provider: s.active_asr_provider,
                    active_llm_provider: s.active_llm_provider,
                    channels: s.channels,
                    keys: s.keys,
                },
            )
        },
        MetadataRead::Invalid(why) => Err(
            BackendError::detailed(
                BackendErrorCode::Persistence,
                "invalid Linux credential metadata: ",
                why.as_str(),
            ),
        ),
        MetadataRead::Missing => Ok(
            PersistedCredentialMetadata {
                version: METADATA_VERSION,
                active_asr_provider: "".to_owned(),
                active_llm_provider: "".to_owned(),
                channels: Vec::new(),
                keys: Vec::new(),
            },
        ),
        MetadataRead::Failed(why) => Err(
            BackendError::detailed(
                BackendErrorCode::Persistence,
                "failed to read Linux credential metadata: ",
                why.as_str(),
            ),
        ),
    }
}

/// The steps of writing the record.
#[derive(Clone, Copy, PartialEq, Eq, Structural, Debug)]
pub enum PersistStep {
    FindParent,
    CreateDirectory,
    Serialize,
    Stage,
    Commit,
}

/// What is said of a step that failed. Without a parent there is no more to
/// say.
pub open spec fn persist_text(step: PersistStep, error: Seq<char>) -> Seq<char> {
    match step {
        PersistStep::FindParent => "Linux credential metadata has no parent directory"@,
        PersistStep::CreateDirectory => "failed to create Linux credential directory: "@ + error,
        PersistStep::Serialize => "failed to serialize Linux credential metadata: "@ + error,
        PersistStep::Stage => "failed to stage Linux credential metadata: "@ + error,
        PersistStep::Commit => "failed to commit Linux credential metadata: "@ + error,
    }
}

pub fn persist_error(step: PersistStep, error: &str) -> (r: BackendError)
    ensures
        r.is(BackendErrorCode::Persistence, persist_text(step, error@)),
{
    let code: BackendErrorCode = BackendErrorCode::Persistence;
    match step {
        PersistStep::FindParent => BackendError::new(
            code,
            "Linux credential metadata has no parent directory",
        ),
        PersistStep::CreateDirectory => BackendError::detailed(
            code,
            "failed to create Linux credential directory: ",
            error,
        ),
        PersistStep::Serialize => BackendError::detailed(
            code,
            "failed to serialize Linux credential metadata: ",
            error,
        ),
        PersistStep::Stage => BackendError::detailed(
            code,
            "failed to stage Linux credential metadata: ",
            error,
        ),
        PersistStep::Commit => BackendError::detailed(
            code,
            "failed to commit Linux credential metadata: ",
            error,
        ),
    }
}

/// What the keyring answers.
#[derive(Debug)]
pub enum KeyringReply<T> {
    Done(T),
    NoEntry,
    Failed(String),
}

/// Only Linux has this keyring.
pub fn check_keyring(platform: Platform) -> (r: Result<(), BackendError>)
    ensures
        match r {
            Ok(()) => platform == Platform::Linux,
            Err(e) => platform != Platform::Linux && e.is(
                BackendErrorCode::Unsupported,
                "Linux Secret Service credential adapter is unavailable on this target"@,
            ),
        },
{
    if platform == Platform::Linux {
        return Ok(());
    }
    Err(
        BackendError::new(
            BackendErrorCode::Unsupported,
            "Linux Secret Service credential adapter is unavailable on this target",
        ),
    )
}

/// The keyring's failure as it is reported.
pub fn keyring_error(error: &str) -> (r: BackendError)
    ensures
        r.is(
            BackendErrorCode::Persistence,
            "Linux credential vault operation failed: "@ + error@,
        ),
{
    BackendError::detailed(
        BackendErrorCode::Persistence,
        "Linux credential vault operation failed: ",
        error,
    )
}

/// A secret that was asked for. That there is none is no failure.
pub fn read_secret(reply: KeyringReply<String>) -> (r: Result<Option<String>, BackendError>)
    ensures
        match reply {
            KeyringReply::Done(s) => r == Ok::<Option<String>, BackendError>(Some(s)),
            KeyringReply::NoEntry => r == Ok::<Option<String>, BackendError>(None),
            KeyringReply::Failed(why) => r matches Err(e) && e.is(
                BackendErrorCode::Persistence,
                "Linux credential vault operation failed: "@ + why@,
            ),
        },
{
    match reply {
        KeyringReply::Done(s) => Ok(Some(s)),
        KeyringReply::NoEntry => Ok(None),
        KeyringReply::Failed(why) => Err(keyring_error(why.as_str())),
    }
}

/// A secret that was to be removed. That there is none is no failure.
pub fn remove_secret(reply: KeyringReply<()>) -> (r: Result<(), BackendError>)
    ensures
        match reply {
            KeyringReply::Failed(why) => r matches Err(e) && e.is(
                BackendErrorCode::Persistence,
                "Linux credential vault operation failed: "@ + why@,
            ),
            _ => r is Ok,
        },
{
    match reply {
        KeyringReply::Failed(why) => Err(keyring_error(why.as_str())),
        _ => Ok(()),
    }
}

/// The remembered data of a running program.
#[derive(Debug)]
pub struct LinuxCredentialStore {
    pub metadata_path: String,
    pub state: PersistedCredentialMetadata,
}

impl LinuxCredentialStore {
    /// Opens the record below `data_dir`.
    pub fn open(data_dir: &str, read: MetadataRead) -> (r: Result<Self, BackendError>)
        ensures
            data_dir@.len() == 0 ==> (r matches Err(e) && e.is(
                BackendErrorCode::InvalidArgument,
                "Linux credential metadata directory must not be empty"@,
            )),
            data_dir@.len() > 0 ==> match r {
                Ok(s) => {
                    &&& metadata_fault(read) is None
                    &&& is_record_of(s.state, read)
                    &&& s.metadata_path@ == below(data_dir@, "credential-metadata.json"@)
                },
                Err(e) => metadata_fault(read) is Some && e.is(
                    BackendErrorCode::Persistence,
                    metadata_fault(read)->0,
                ),
            },
    {
        if data_dir.is_empty() {
            return Err(
                BackendError::new(
                    BackendErrorCode::InvalidArgument,
                    "Linux credential metadata directory must not be empty",
                ),
            );
        }
        match read_metadata(read) {
            Ok(state) => Ok(
                LinuxCredentialStore {
                    metadata_path: path_below(data_dir, "credential-metadata.json"),
                    state,
                },
            ),
            Err(e) => Err(e),
        }
    }

    /// Where process `pid` writes a record before it takes the place of the old
    /// one: beside it, so that a write that fails leaves the old one alone.
    pub fn staging_path(&self, pid: u32) -> (r: String)
        ensures
            r@ == self.metadata_path@ + "."@ + decimal(pid as nat) + ".tmp"@,
    {
        let number: String = decimal_text(pid as u64);
        join3(self.metadata_path.as_str(), ".", number.as_str()).concat(".tmp")
    }

    /// Takes a changed record over, if the change was accepted and the record
    /// reached the disk. Otherwise everything stays as it was.
    pub fn update_metadata(
        &mut self,
        next: Result<PersistedCredentialMetadata, BackendError>,
        persisted: Result<(), BackendError>,
    ) -> (r: Result<(), BackendError>)
        ensures
            match next {
                Err(e) => r == Err::<(), BackendError>(e) && *final(self) == *old(self),
                Ok(n) => match persisted {
                    Err(e) => r == Err::<(), BackendError>(e) && *final(self) == *old(self),
                    Ok(()) => r is Ok && *final(self) == (LinuxCredentialStore {
                        state: n,
                        ..*old(self)
                    }),
                },
            },
    {
        let n: PersistedCredentialMetadata = match next {
            Ok(n) => n,
            Err(e) => return Err(e),
        };
        match persisted {
            Ok(()) => {
                self.state = n;
                Ok(())
            },
            Err(e) => Err(e),
        }
    }

    fn copy_state(&self) -> (r: PersistedCredentialMetadata)
        ensures
            same_record(r, self.state),
    {
        PersistedCredentialMetadata {
            version: self.state.version,
            active_asr_provider: self.state.active_asr_provider.clone(),
            active_llm_provider: self.state.active_llm_provider.clone(),
            channels: copy_channels(&self.state.channels),
            keys: copy_keys(&self.state.keys),
        }
    }

    /// The record with another active provider.
    pub fn set_active_provider_immediate(&self, slot: ProviderSlot, provider_id: &str) -> (r: Result<
        PersistedCredentialMetadata,
        BackendError,
    >)
        ensures
            match r {
                Ok(n) => !blank(provider_id@) && has_provider_set(
                    n,
                    self.state,
                    slot,
                    provider_id@,
                ),
                Err(e) => blank(provider_id@) && e.is(
                    BackendErrorCode::InvalidArgument,
                    "active provider id must not be blank"@,
                ),
            },
    {
        if is_blank(provider_id) {
            return Err(
                BackendError::new(
                    BackendErrorCode::InvalidArgument,
                    "active provider id must not be blank",
                ),
            );
        }
        let mut next: PersistedCredentialMetadata = self.copy_state();
        match slot {
            ProviderSlot::Asr => {
                next.active_asr_provider = trim(provider_id);
            },
            ProviderSlot::Llm => {
                next.active_llm_provider = trim(provider_id);
            },
        }
        Ok(next)
    }

    /// The channels of one kind.
    pub fn list_channels(&self, kind: ChannelKind) -> (r: Vec<ChannelSummary>)
        ensures
            r@ == of_kind(self.state.channels@, kind),
    {
        let mut out: Vec<ChannelSummary> = Vec::new();
        let mut i: usize = 0;
        while i < self.state.channels.len()
            invariant
                i <= self.state.channels.len(),
                out@ == of_kind(self.state.channels@.take(i as int), kind),
            decreases self.state.channels.len() - i,
        {
            proof {
                let upto = self.state.channels@.take(i + 1);
                assert(upto.drop_last() =~= self.state.channels@.take(i as int));
                assert(upto.last() == self.state.channels@[i as int]);
            }
            if self.state.channels[i].kind == kind {
                out.push(copy_channel(&self.state.channels[i]));
            }
            i = i + 1;
        }
        proof {
            assert(self.state.channels@.take(self.state.channels@.len() as int)
                =~= self.state.channels@);
        }
        out
    }

    /// The record with the channels that the backend has made of a change, or
    /// the reason why it refused the change.
    pub fn mutate_channel(&self, changed: Result<Vec<ChannelSummary>, BackendError>) -> (r: Result<
        PersistedCredentialMetadata,
        BackendError,
    >)
        ensures
            match changed {
                Ok(channels) => r matches Ok(n) && has_channels_set(n, self.state, channels@),
                Err(e) => r == Err::<PersistedCredentialMetadata, BackendError>(e),
            },
    {
        match changed {
            Ok(channels) => {
                let mut next: PersistedCredentialMetadata = self.copy_state();
                next.channels = channels;
                Ok(next)
            },
            Err(e) => Err(e),
        }
    }

    /// The record once a secret was written.
    pub fn write(&self, key: CredentialKey) -> (r: PersistedCredentialMetadata)
        ensures
            same_record(
                r,
                (PersistedCredentialMetadata { keys: r.keys, ..self.state }),
            ),
            r.keys@ == remembered(self.state.keys@, key),
    {
        let mut next: PersistedCredentialMetadata = self.copy_state();
        let mut found: bool = false;
        let mut i: usize = 0;
        while i < next.keys.len() && !found
            invariant
                i <= next.keys.len(),
                found ==> knows(next.keys@, key),
                !found ==> forall|k: int| 0 <= k < i ==> !same_key(#[trigger] next.keys@[k], key),
            decreases next.keys.len() - i,
        {
            if keys_match(&next.keys[i], &key) {
                assert(same_key(next.keys@[i as int], key));
                found = true;
            }
            i = i + 1;
        }
        if !found {
            next.keys.push(key);
        }
        next
    }

    /// The record once a secret was removed.
    pub fn remove(&self, key: &CredentialKey) -> (r: PersistedCredentialMetadata)
        ensures
            same_record(
                r,
                (PersistedCredentialMetadata { keys: r.keys, ..self.state }),
            ),
            r.keys@ == forgotten(self.state.keys@, *key),
    {
        let mut next: PersistedCredentialMetadata = self.copy_state();
        let mut kept: Vec<CredentialKey> = Vec::new();
        let mut i: usize = 0;
        while i < self.state.keys.len()
            invariant
                i <= self.state.keys.len(),
                kept@ == forgotten(self.state.keys@.take(i as int), *key),
            decreases self.state.keys.len() - i,
        {
            proof {
                let upto = self.state.keys@.take(i + 1);
                assert(upto.drop_last() =~= self.state.keys@.take(i as int));
                assert(upto.last() == self.state.keys@[i as int]);
            }
            if !keys_match(&self.state.keys[i], key) {
                kept.push(copy_key(&self.state.keys[i]));
            }
            i = i + 1;
        }
        proof {
            assert(self.state.keys@.take(self.state.keys@.len() as int) =~= self.state.keys@);
        }
        next.keys = kept;
        next
    }

    /// The active provider, as it is remembered.
    pub fn active_provider(&self, slot: ProviderSlot) -> (r: String)
        ensures
            r@ == remembered_provider(self.state, slot),
    {
        match slot {
            ProviderSlot::Asr => self.state.active_asr_provider.clone(),
            ProviderSlot::Llm => self.state.active_llm_provider.clone(),
        }
    }

    /// What the settings page shows. Where no provider is remembered, the
    /// preferences name it.
    pub fn status(&self, preferred_asr: String, preferred_llm: String, multimodal: bool) -> (r:
        CredentialsStatus)
        ensures
            r.multimodal == multimodal,
            r.active_asr_provider@ == nonblank_or(
                self.state.active_asr_provider@,
                preferred_asr@,
            ),
            r.active_llm_provider@ == nonblank_or(
                self.state.active_llm_provider@,
                preferred_llm@,
            ),
            r.asr_configured == configured(
                self.state.keys@,
                CredentialNamespace::Asr,
                r.active_asr_provider@,
            ),
            r.llm_configured == configured(
                self.state.keys@,
                CredentialNamespace::Llm,
                r.active_llm_provider@,
            ),
            r.omni_configured == any_of(self.state.keys@, CredentialNamespace::Omni),
            r.volcengine_configured == configured(
                self.state.keys@,
                CredentialNamespace::Asr,
                "volcengine"@,
            ),
            r.ark_configured == configured(self.state.keys@, CredentialNamespace::Llm, "ark"@),
    {
        let active_asr_provider: String = match non_empty(self.state.active_asr_provider.clone()) {
            Some(p) => p,
            None => preferred_asr,
        };
        let active_llm_provider: String = match non_empty(self.state.active_llm_provider.clone()) {
            Some(p) => p,
            None => preferred_llm,
        };
        let keys: &Vec<CredentialKey> = &self.state.keys;
        let asr_configured: bool = has_key_for(
            keys,
            CredentialNamespace::Asr,
            active_asr_provider.as_str(),
        );
        let llm_configured: bool = has_key_for(
            keys,
            CredentialNamespace::Llm,
            active_llm_provider.as_str(),
        );
        CredentialsStatus {
            active_asr_provider,
            active_llm_provider,
            multimodal,
            asr_configured,
            llm_configured,
            omni_configured: has_namespace(keys, CredentialNamespace::Omni),
            volcengine_configured: has_key_for(keys, CredentialNamespace::Asr, "volcengine"),
            ark_configured: has_key_for(keys, CredentialNamespace::Llm, "ark"),
        }
    }

    /// Whether a channel has a secret of its own.
    pub fn channel_has_key(&self, id: &str) -> (r: bool)
        ensures
            r == exists|i: int|
                0 <= i < self.state.keys@.len() && opt_text(
                    (#[trigger] self.state.keys@[i]).provider_id,
                ) == Some(id@),
    {
        let mut i: usize = 0;
        while i < self.state.keys.len()
            invariant
                i <= self.state.keys.len(),
                forall|k: int|
                    0 <= k < i ==> opt_text((#[trigger] self.state.keys@[k]).provider_id) != Some(
                        id@,
                    ),
            decreases self.state.keys.len() - i,
        {
            let own: bool = match &self.state.keys[i].provider_id {
                Some(p) => str_eq(p.as_str(), id),
                None => false,
            };
            if own {
                assert(opt_text(self.state.keys@[i as int].provider_id) == Some(id@));
                return true;
            }
            i = i + 1;
        }
        false
    }
}

/// A record in which a provider was made the active one and the channels were
/// changed, and which was written and opened again, gives both back. Nothing is
/// wrong with it, and the secrets it knows of are the same.
pub proof fn law_reopened_record_gives_back_what_was_set(
    state: PersistedCredentialMetadata,
    chosen: PersistedCredentialMetadata,
    written: PersistedCredentialMetadata,
    reopened: PersistedCredentialMetadata,
    slot: ProviderSlot,
    provider_id: Seq<char>,
    channels: Seq<ChannelSummary>,
)
    requires
        state.version <= METADATA_VERSION,
        has_provider_set(chosen, state, slot, provider_id),
        has_channels_set(written, chosen, channels),
        is_record_of(reopened, MetadataRead::Parsed(written)),
    ensures
        metadata_fault(MetadataRead::Parsed(written)) is None,
        remembered_provider(reopened, slot) == trimmed(provider_id),
        forall|other: ProviderSlot|
            other != slot ==> #[trigger] remembered_provider(reopened, other)
                == remembered_provider(state, other),
        forall|kind: ChannelKind| #[trigger]
            of_kind(reopened.channels@, kind) == of_kind(channels, kind),
        reopened.keys@ == state.keys@,
        reopened.version == METADATA_VERSION,
{
    assert forall|other: ProviderSlot| other != slot implies #[trigger] remembered_provider(
        reopened,
        other,
    ) == remembered_provider(state, other) by {
        assert(remembered_provider(chosen, other) == remembered_provider(state, other));
    }
    assert(remembered_provider(reopened, slot) == remembered_provider(chosen, slot));
}

/// A secret that was removed is not known any more, and no other is lost.
pub proof fn law_removed_secret_is_forgotten(
    keys: Seq<CredentialKey>,
    key: CredentialKey,
    other: CredentialKey,
)
    ensures
        !knows(forgotten(keys, key), key),
        !same_key(other, key) ==> (knows(forgotten(keys, key), other) == knows(keys, other)),
    decreases keys.len(),
{
    if keys.len() > 0 {
        let rest = keys.drop_last();
        let kept = forgotten(rest, key);
        law_removed_secret_is_forgotten(rest, key, other);
        let now = forgotten(keys, key);
        if !same_key(keys.last(), key) {
            assert(now == kept.push(keys.last()));
            if knows(now, key) {
                let i = choose|i: int| 0 <= i < now.len() && same_key(#[trigger] now[i], key);
                if i < kept.len() {
                    assert(same_key(kept[i], key));
                }
            }
        }
        if !same_key(other, key) {
            if knows(keys, other) {
                let i = choose|i: int| 0 <= i < keys.len() && same_key(#[trigger] keys[i], other);
                if i < rest.len() {
                    assert(same_key(rest[i], other));
                    let j = choose|j: int|
                        0 <= j < kept.len() && same_key(#[trigger] kept[j], other);
                    assert(now[j] == kept[j]);
                } else {
                    assert(now[now.len() - 1] == keys.last());
                }
            }
            if knows(now, other) {
                let j = choose|j: int| 0 <= j < now.len() && same_key(#[trigger] now[j], other);
                if j < kept.len() {
                    assert(same_key(kept[j], other));
                    let i = choose|i: int|
                        0 <= i < rest.len() && same_key(#[trigger] rest[i], other);
                    assert(keys[i] == rest[i]);
                } else {
                    assert(keys[keys.len() - 1] == now[j]);
                }
            }
        }
    }
}

/// A secret that was written is known, and writing it again changes nothing.
pub proof fn law_written_secret_is_known(keys: Seq<CredentialKey>, key: CredentialKey)
    ensures
        knows(remembered(keys, key), key),
        remembered(remembered(keys, key), key) == remembered(keys, key),
{
    if !knows(keys, key) {
        let now = keys.push(key);
        assert(same_key(now[now.len() - 1], key));
    }
}

/// A secret that was written is known, once, and everything else of the record is as
/// it was; a secret that is removed then is not known any more.
pub proof fn law_written_secret_is_known_until_removed(
    store: &LinuxCredentialStore,
    after: &LinuxCredentialStore,
    key: CredentialKey,
    other: CredentialKey,
    written: PersistedCredentialMetadata,
    removed: PersistedCredentialMetadata,
)
    requires
        call_ensures(LinuxCredentialStore::write, (store, key), written),
        after.state == written,
        call_ensures(LinuxCredentialStore::remove, (after, &key), removed),
        !same_key(other, key),
    ensures
        knows(written.keys@, key),
        !knows(removed.keys@, key),
        knows(written.keys@, other) <==> knows(store.state.keys@, other),
        knows(removed.keys@, other) <==> knows(store.state.keys@, other),
        written.keys@.len() <= store.state.keys@.len() + 1,
        written.active_asr_provider@ == store.state.active_asr_provider@,
        written.active_llm_provider@ == store.state.active_llm_provider@,
        written.channels@ == store.state.channels@,
        removed.active_asr_provider@ == store.state.active_asr_provider@,
        removed.active_llm_provider@ == store.state.active_llm_provider@,
        removed.channels@ == store.state.channels@,
{
    law_written_secret_is_known(store.state.keys@, key);
    law_removed_secret_is_forgotten(written.keys@, key, other);
    let keys = store.state.keys@;
    if !knows(keys, key) {
        let now = keys.push(key);
        if knows(now, other) {
            let i = choose|i: int| 0 <= i < now.len() && same_key(#[trigger] now[i], other);
            assert(i < keys.len());
            assert(same_key(keys[i], other));
        }
        if knows(keys, other) {
            let i = choose|i: int| 0 <= i < keys.len() && same_key(#[trigger] keys[i], other);
            assert(same_key(now[i], other));
        }
    }
}

/// Two keys name the same secret exactly if everything of them is the same: where it
/// belongs, whose it is and what it is called.
pub proof fn law_what_names_a_secret(a: CredentialKey, b: CredentialKey, c: CredentialKey)
    ensures
        same_key(a, a),
        same_key(a, b) ==> same_key(b, a),
        same_key(a, b) && same_key(b, c) ==> same_key(a, c),
        a.namespace != b.namespace ==> !same_key(a, b),
        a.account@ != b.account@ ==> !same_key(a, b),
        a.provider_id is Some && b.provider_id is None ==> !same_key(a, b),
        a.provider_id is Some && b.provider_id is Some && a.provider_id->0@ != b.provider_id->0@
            ==> !same_key(a, b),
        a.namespace == b.namespace && a.account@ == b.account@ && a.provider_id is None
            && b.provider_id is None ==> same_key(a, b),
{
}

/// The provider that is made the active one of its kind is the active one then,
/// without the whitespace around its name, and the other kind keeps its own. A blank
/// name is refused.
pub proof fn law_set_provider_is_active(
    store: &LinuxCredentialStore,
    after: &LinuxCredentialStore,
    slot: ProviderSlot,
    other: ProviderSlot,
    id: &str,
    cut: String,
    before: String,
    r: Result<PersistedCredentialMetadata, BackendError>,
    own: String,
    foreign: String,
)
    requires
        call_ensures(trim, (id,), cut),
        call_ensures(LinuxCredentialStore::active_provider, (store, other), before),
        call_ensures(LinuxCredentialStore::set_active_provider_immediate, (store, slot, id), r),
        r is Ok ==> after.state == r->Ok_0,
        call_ensures(LinuxCredentialStore::active_provider, (after, slot), own),
        call_ensures(LinuxCredentialStore::active_provider, (after, other), foreign),
        other != slot,
    ensures
        r is Ok <==> cut@.len() > 0,
        r is Ok ==> own@ == cut@ && foreign@ == before@ && after.state.keys@ == store.state.keys@
            && after.state.channels@ == store.state.channels@,
        r is Err ==> r->Err_0.code == BackendErrorCode::InvalidArgument,
{
    crate::text::lemma_blank_iff_trimmed_empty(id@);
    if r is Ok {
        assert(remembered_provider(r->Ok_0, other) == remembered_provider(store.state, other));
    }
}

proof fn lemma_of_kind_concat(
    a: Seq<ChannelSummary>,
    b: Seq<ChannelSummary>,
    kind: ChannelKind,
)
    ensures
        of_kind(a + b, kind) == of_kind(a, kind) + of_kind(b, kind),
    decreases b.len(),
{
    if b.len() == 0 {
        assert(a + b =~= a);
        assert(of_kind(a, kind) + of_kind(b, kind) =~= of_kind(a, kind));
    } else {
        assert((a + b).drop_last() =~= a + b.drop_last());
        assert((a + b).last() == b.last());
        lemma_of_kind_concat(a, b.drop_last(), kind);
        assert(of_kind(a + b, kind) =~= of_kind(a, kind) + of_kind(b, kind));
    }
}

/// Every channel of a kind is listed, none of the other kind is, and they keep their
/// order: what is listed of two parts of the record is listed of the whole.
pub proof fn law_channels_of_a_kind_are_listed(
    front: &LinuxCredentialStore,
    back: &LinuxCredentialStore,
    whole: &LinuxCredentialStore,
    single: &LinuxCredentialStore,
    kind: ChannelKind,
    of_front: Vec<ChannelSummary>,
    of_back: Vec<ChannelSummary>,
    of_whole: Vec<ChannelSummary>,
    of_single: Vec<ChannelSummary>,
)
    requires
        whole.state.channels@ == front.state.channels@ + back.state.channels@,
        single.state.channels@.len() == 1,
        call_ensures(LinuxCredentialStore::list_channels, (front, kind), of_front),
        call_ensures(LinuxCredentialStore::list_channels, (back, kind), of_back),
        call_ensures(LinuxCredentialStore::list_channels, (whole, kind), of_whole),
        call_ensures(LinuxCredentialStore::list_channels, (single, kind), of_single),
    ensures
        of_whole@ == of_front@ + of_back@,
        of_single@.len() == 1 <==> single.state.channels@[0].kind == kind,
        of_single@.len() <= 1,
        of_single@.len() == 1 ==> of_single@[0] == single.state.channels@[0],
{
    lemma_of_kind_concat(front.state.channels@, back.state.channels@, kind);
    let one = single.state.channels@;
    assert(one.last() == one[0]);
    assert(one.drop_last() =~= Seq::<ChannelSummary>::empty());
    assert(of_kind(one.drop_last(), kind) =~= Seq::<ChannelSummary>::empty());
}

/// The channels are those that the backend made of a change, and nothing else
/// changes; a change that it refused is refused.
pub proof fn law_changed_channels_are_kept(
    store: &LinuxCredentialStore,
    changed: Result<Vec<ChannelSummary>, BackendError>,
    r: Result<PersistedCredentialMetadata, BackendError>,
)
    requires
        call_ensures(LinuxCredentialStore::mutate_channel, (store, changed), r),
    ensures
        r is Ok <==> changed is Ok,
        r is Err ==> r->Err_0 == changed->Err_0,
        r matches Ok(n) ==> n.channels@ == changed->Ok_0@ && n.keys@ == store.state.keys@
            && n.active_asr_provider@ == store.state.active_asr_provider@ && n.active_llm_provider@
            == store.state.active_llm_provider@ && n.version == store.state.version,
{
}

/// A change counts only once it was accepted and has reached the disk; otherwise
/// everything stays as it was.
pub proof fn law_change_counts_once_it_is_kept(
    store: &mut LinuxCredentialStore,
    next: Result<PersistedCredentialMetadata, BackendError>,
    persisted: Result<(), BackendError>,
    r: Result<(), BackendError>,
)
    requires
        call_ensures(LinuxCredentialStore::update_metadata, (store, next, persisted), r),
    ensures
        r is Ok <==> next is Ok && persisted is Ok,
        r is Ok ==> final(store).state == next->Ok_0 && final(store).metadata_path
            == old(store).metadata_path,
        r is Err ==> *final(store) == *old(store),
        next is Err ==> r->Err_0 == next->Err_0,
        next is Ok && persisted is Err ==> r->Err_0 == persisted->Err_0,
{
}

/// A record that can be read is worked with as it is, one that is missing is empty,
/// and one that is broken, cannot be read or comes from a later program is an error.
pub proof fn law_record_is_read_as_it_is(
    dir: &str,
    path: String,
    read: MetadataRead,
    r: Result<PersistedCredentialMetadata, BackendError>,
    opened: Result<LinuxCredentialStore, BackendError>,
)
    requires
        call_ensures(path_below, (dir, "credential-metadata.json"), path),
        call_ensures(read_metadata, (read,), r),
        call_ensures(LinuxCredentialStore::open, (dir, read), opened),
    ensures
        r is Ok <==> read is Missing || (read is Parsed && read->Parsed_0.version <= 1),
        r is Err ==> r->Err_0.code == BackendErrorCode::Persistence,
        r is Ok && read is Parsed ==> r->Ok_0.active_asr_provider
            == read->Parsed_0.active_asr_provider && r->Ok_0.active_llm_provider
            == read->Parsed_0.active_llm_provider && r->Ok_0.channels == read->Parsed_0.channels
            && r->Ok_0.keys == read->Parsed_0.keys && r->Ok_0.version == 1,
        r is Ok && read is Missing ==> r->Ok_0.channels@.len() == 0 && r->Ok_0.keys@.len() == 0
            && r->Ok_0.active_asr_provider@.len() == 0 && r->Ok_0.active_llm_provider@.len() == 0,
        opened is Ok <==> dir@.len() > 0 && r is Ok,
        dir@.len() == 0 ==> opened->Err_0.code == BackendErrorCode::InvalidArgument,
        opened is Ok ==> opened->Ok_0.metadata_path@ == path@ && opened->Ok_0.state.keys@
            == r->Ok_0.keys@ && opened->Ok_0.state.channels@ == r->Ok_0.channels@,
{
    reveal_strlit("");
}

/// A record is written beside the old one, and different processes write at
/// different places.
pub proof fn law_records_are_staged_apart(
    store: &LinuxCredentialStore,
    p: u32,
    q: u32,
    at_p: String,
    at_q: String,
)
    requires
        call_ensures(LinuxCredentialStore::staging_path, (store, p), at_p),
        call_ensures(LinuxCredentialStore::staging_path, (store, q), at_q),
    ensures
        at_p@ == at_q@ ==> p == q,
        at_p@.len() > store.metadata_path@.len(),
        at_p@.take(store.metadata_path@.len() as int) == store.metadata_path@,
{
    reveal_strlit(".");
    reveal_strlit(".tmp");
    let n = store.metadata_path@.len() as int;
    crate::text::lemma_decimal(p as nat);
    crate::text::lemma_decimal(q as nat);
    assert(at_p@.take(n) =~= store.metadata_path@);
    assert(at_p@.subrange(n + 1, at_p@.len() - 4) =~= decimal(p as nat));
    assert(at_q@.subrange(n + 1, at_q@.len() - 4) =~= decimal(q as nat));
}

/// The page shows the provider that is remembered, and that of the preferences where
/// none is; and a provider as configured exactly if there is a secret for it, its own
/// or one for all of its kind.
pub proof fn law_status_tells_what_is_configured(
    store: &LinuxCredentialStore,
    asr: String,
    llm: String,
    multimodal: bool,
    r: CredentialsStatus,
    k: int,
)
    requires
        call_ensures(LinuxCredentialStore::status, (store, asr, llm, multimodal), r),
    ensures
        r.multimodal == multimodal,
        !blank(store.state.active_asr_provider@) ==> r.active_asr_provider@
            == store.state.active_asr_provider@,
        blank(store.state.active_asr_provider@) ==> r.active_asr_provider@ == asr@,
        !blank(store.state.active_llm_provider@) ==> r.active_llm_provider@
            == store.state.active_llm_provider@,
        blank(store.state.active_llm_provider@) ==> r.active_llm_provider@ == llm@,
        0 <= k < store.state.keys@.len() ==> {
            let key = store.state.keys@[k];
            &&& key.namespace == CredentialNamespace::Asr && key.provider_id is None
                ==> r.asr_configured && r.volcengine_configured
            &&& key.namespace == CredentialNamespace::Asr && key.provider_id is Some
                && key.provider_id->0@ == r.active_asr_provider@ ==> r.asr_configured
            &&& key.namespace == CredentialNamespace::Asr && key.provider_id is Some
                && key.provider_id->0@ == "volcengine"@ ==> r.volcengine_configured
            &&& key.namespace == CredentialNamespace::Llm && key.provider_id is None
                ==> r.llm_configured && r.ark_configured
            &&& key.namespace == CredentialNamespace::Llm && key.provider_id is Some
                && key.provider_id->0@ == r.active_llm_provider@ ==> r.llm_configured
            &&& key.namespace == CredentialNamespace::Llm && key.provider_id is Some
                && key.provider_id->0@ == "ark"@ ==> r.ark_configured
            &&& key.namespace == CredentialNamespace::Omni ==> r.omni_configured
        },
        r.omni_configured ==> exists|i: int|
            0 <= i < store.state.keys@.len() && (#[trigger] store.state.keys@[i]).namespace
                == CredentialNamespace::Omni,
        r.asr_configured ==> exists|i: int|
            0 <= i < store.state.keys@.len() && (#[trigger] store.state.keys@[i]).namespace
                == CredentialNamespace::Asr && (store.state.keys@[i].provider_id matches Some(p)
                ==> p@ == r.active_asr_provider@),
        r.llm_configured ==> exists|i: int|
            0 <= i < store.state.keys@.len() && (#[trigger] store.state.keys@[i]).namespace
                == CredentialNamespace::Llm && (store.state.keys@[i].provider_id matches Some(p)
                ==> p@ == r.active_llm_provider@),
{
    if 0 <= k < store.state.keys@.len() {
        let key = store.state.keys@[k];
        assert(key.namespace == CredentialNamespace::Asr || key.namespace
            == CredentialNamespace::Llm || key.namespace == CredentialNamespace::Omni);
    }
}

/// A channel has a secret of its own exactly if one of the keys names it.
pub proof fn law_channel_knows_its_own_key(store: &LinuxCredentialStore, id: &str, r: bool, k: int)
    requires
        call_ensures(LinuxCredentialStore::channel_has_key, (store, id), r),
    ensures
        0 <= k < store.state.keys@.len() && (store.state.keys@[k].provider_id matches Some(p) && p@
            == id@) ==> r,
        r ==> exists|i: int|
            0 <= i < store.state.keys@.len() && ((#[trigger] store.state.keys@[i]).provider_id
                matches Some(p) && p@ == id@),
        store.state.keys@.len() == 0 ==> !r,
{
    if 0 <= k < store.state.keys@.len() {
        assert(opt_text(store.state.keys@[k].provider_id) == Some(id@) ==> r);
    }
    if r {
        let i = choose|i: int|
            0 <= i < store.state.keys@.len() && opt_text(
                (#[trigger] store.state.keys@[i]).provider_id,
            ) == Some(id@);
        assert(store.state.keys@[i].provider_id is Some);
    }
}

/// That a secret is not there is no failure, neither when it is read nor when it is
/// removed; a failure of the keyring is told in its own words. Only Linux has it.
pub proof fn law_missing_secret_is_no_failure(
    reply: KeyringReply<String>,
    gone: KeyringReply<()>,
    platform: Platform,
    r: Result<Option<String>, BackendError>,
    q: Result<(), BackendError>,
    there: Result<(), BackendError>,
)
    requires
        call_ensures(read_secret, (reply,), r),
        call_ensures(remove_secret, (gone,), q),
        call_ensures(check_keyring, (platform,), there),
    ensures
        r is Err <==> reply is Failed,
        reply is Done ==> r == Ok::<Option<String>, BackendError>(Some(reply->Done_0)),
        reply is NoEntry ==> r == Ok::<Option<String>, BackendError>(None),
        q is Err <==> gone is Failed,
        r is Err ==> r->Err_0.code == BackendErrorCode::Persistence,
        there is Ok <==> platform == Platform::Linux,
        there is Err ==> there->Err_0.code == BackendErrorCode::Unsupported,
{
}

/// A value counts if it is not blank, and then it is taken as it is. A step of writing
/// that failed is told in its own words.
pub proof fn law_blank_value_is_none(
    value: String,
    step: PersistStep,
    error: &str,
    r: Option<String>,
    e: BackendError,
    k: BackendError,
)
    requires
        call_ensures(non_empty, (value,), r),
        call_ensures(persist_error, (step, error), e),
        call_ensures(keyring_error, (error,), k),
    ensures
        r is Some <==> !blank(value@),
        r is Some ==> r->0 == value,
        e.code == BackendErrorCode::Persistence,
        step != PersistStep::FindParent ==> crate::text::ends_with(e.message@, error@),
        k.code == BackendErrorCode::Persistence && crate::text::ends_with(k.message@, error@),
{
    let all = k.message@;
    assert(all.subrange(all.len() - error@.len(), all.len() as int) =~= error@);
    if step != PersistStep::FindParent {
        let told = e.message@;
        assert(told.subrange(told.len() - error@.len(), told.len() as int) =~= error@);
    }
}

} // verus!
