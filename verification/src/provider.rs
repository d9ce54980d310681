//! The gateway-provider registry: which hosts serve the indexer requests of
//! the secondary-asset path, and which provider answers for which chain.

use vstd::prelude::*;
use vstd::string::StringExecFns;

use crate::bytes::{
    append_bytes, lemma_u64_be_bytes_injective, spec_u64_be_bytes, u64_be_bytes, u64_from_be_bytes,
};

verus! {

/// Hostname of the default gateway provider.
pub const TYRON_MAINNET_HOSTNAME: &'static str = "main.tyron.io/";

/// Credential path of the default gateway provider.
pub const TYRON_CREDENTIAL_PATH: &'static str = "api/";

/// One HTTP header of a provider's API.
#[derive(Clone, Debug, PartialEq, Eq)]
pub struct HttpHeaderKV {
    pub name: String,
    pub value: String,
}

/// Mathematical image of a [`HttpHeaderKV`].
#[verifier::ext_equal]
pub struct HttpHeaderKVV {
    pub name: Seq<char>,
    pub value: Seq<char>,
}

impl View for HttpHeaderKV {
    type V = HttpHeaderKVV;

    open spec fn view(&self) -> HttpHeaderKVV {
        HttpHeaderKVV { name: self.name@, value: self.value@ }
    }
}

/// The sequence of views of a header list.
pub open spec fn header_views(s: Seq<HttpHeaderKV>) -> Seq<HttpHeaderKVV> {
    s.map_values(|h: HttpHeaderKV| h@)
}

/// Copies a header list; the result denotes the same headers.
pub fn duplicate_headers(headers: &Vec<HttpHeaderKV>) -> (r: Vec<HttpHeaderKV>)
    ensures
        header_views(r@) == header_views(headers@),
{
    let mut r: Vec<HttpHeaderKV> = Vec::new();
    let mut i: usize = 0;
    while i < headers.len()
        invariant
            i <= headers@.len(),
            r@.len() == i,
            forall|j: int| 0 <= j < i ==> r@[j]@ == #[trigger] headers@[j]@,
        decreases headers@.len() - i,
    {
        r.push(HttpHeaderKV { name: headers[i].name.clone(), value: headers[i].value.clone() });
        i = i + 1;
    }
    proof {
        assert(header_views(r@) =~= header_views(headers@));
    }
    r
}

/// Registry bookkeeping: the next fresh provider id and whether open access
/// is granted.
#[derive(Clone, Debug, PartialEq, Eq)]
pub struct Metadata {
    pub next_provider_id: u64,
    pub open_rpc_access: bool,
}

impl Default for Metadata {
    /// A fresh registry starts at id zero with open access.
    fn default() -> (r: Metadata)
        ensures
            r.next_provider_id == 0,
            r.open_rpc_access == true,
    {
        Metadata { next_provider_id: 0, open_rpc_access: true }
    }
}

/// A registered gateway provider.
#[derive(Clone, Debug, PartialEq, Eq)]
pub struct Provider {
    pub provider_id: u64,
    /// Binary identity of the registering principal.
    pub owner: Vec<u8>,
    pub chain_id: u64,
    pub hostname: String,
    pub credential_path: String,
    pub credential_headers: Vec<HttpHeaderKV>,
    pub cycles_per_call: u64,
    pub cycles_per_message_byte: u64,
    pub cycles_owed: u128,
    pub primary: bool,
}

/// Mathematical image of a [`Provider`].
#[verifier::ext_equal]
pub struct ProviderV {
    pub provider_id: u64,
    pub owner: Seq<u8>,
    pub chain_id: u64,
    pub hostname: Seq<char>,
    pub credential_path: Seq<char>,
    pub credential_headers: Seq<HttpHeaderKVV>,
    pub cycles_per_call: u64,
    pub cycles_per_message_byte: u64,
    pub cycles_owed: u128,
    pub primary: bool,
}

impl View for Provider {
    type V = ProviderV;

    open spec fn view(&self) -> ProviderV {
        ProviderV {
            provider_id: self.provider_id,
            owner: self.owner@,
            chain_id: self.chain_id,
            hostname: self.hostname@,
            credential_path: self.credential_path@,
            credential_headers: header_views(self.credential_headers@),
            cycles_per_call: self.cycles_per_call,
            cycles_per_message_byte: self.cycles_per_message_byte,
            cycles_owed: self.cycles_owed,
            primary: self.primary,
        }
    }
}

/// The API surface of a provider: its URL and credential headers, if any.
#[derive(Clone, Debug, PartialEq, Eq)]
pub struct ProviderApi {
    pub url: String,
    pub headers: Option<Vec<HttpHeaderKV>>,
}

impl Provider {
    /// Structural copy; the result denotes the same provider.
    pub fn duplicate(&self) -> (r: Provider)
        ensures
            r@ == self@,
    {
        Provider {
            provider_id: self.provider_id,
            owner: self.owner.clone(),
            chain_id: self.chain_id,
            hostname: self.hostname.clone(),
            credential_path: self.credential_path.clone(),
            credential_headers: duplicate_headers(&self.credential_headers),
            cycles_per_call: self.cycles_per_call,
            cycles_per_message_byte: self.cycles_per_message_byte,
            cycles_owed: self.cycles_owed,
            primary: self.primary,
        }
    }

    /// The provider's API: URL built from its hostname and credential path,
    /// and its credential headers when it has any.
    pub fn api(&self) -> (r: ProviderApi)
        ensures
            r.url@ == "https://"@ + self@.hostname + self@.credential_path,
            match r.headers {
                Some(h) => self@.credential_headers.len() > 0 && header_views(h@)
                    == self@.credential_headers,
                None => self@.credential_headers.len() == 0,
            },
    {
        ProviderApi {
            url: String::from_str("https://").concat(self.hostname.as_str()).concat(
                self.credential_path.as_str(),
            ),
            headers: if self.credential_headers.len() == 0 {
                None
            } else {
                Some(duplicate_headers(&self.credential_headers))
            },
        }
    }
}

/// The argument of a provider registration.
#[derive(Clone, Debug, PartialEq, Eq)]
pub struct RegisterProviderArgs {
    pub chain_id: u64,
    pub hostname: String,
    pub credential_path: String,
    pub credential_headers: Option<Vec<HttpHeaderKV>>,
    pub cycles_per_call: u64,
    pub cycles_per_message_byte: u64,
}

/// A service a request can name: a chain, or one specific provider.
#[derive(Clone, Copy, Debug, PartialEq, Eq, Structural)]
pub enum ServiceProvider {
    Chain(u64),
    Provider(u64),
}

/// The chain id a service is known to run on, when it names one.
pub fn get_known_chain_id(service: &ServiceProvider) -> (r: Option<u64>)
    ensures
        r == match *service {
            ServiceProvider::Chain(chain_id) => Some(chain_id),
            ServiceProvider::Provider(_) => None::<u64>,
        },
{
    match service {
        ServiceProvider::Chain(chain_id) => Some(*chain_id),
        ServiceProvider::Provider(_) => None,
    }
}

/// The byte encoding under which a service is stored: a variant tag followed
/// by the big-endian id, so distinct services never share an encoding.
pub open spec fn spec_sp_encode(s: ServiceProvider) -> Seq<u8> {
    match s {
        ServiceProvider::Chain(id) => seq![0u8] + spec_u64_be_bytes(id),
        ServiceProvider::Provider(id) => seq![1u8] + spec_u64_be_bytes(id),
    }
}

/// Law: the stored encoding of a service is injective — two services with the
/// same stored bytes are the same service, so stored mappings can never mix
/// services up.
pub proof fn lemma_sp_encode_injective(s1: ServiceProvider, s2: ServiceProvider)
    requires
        spec_sp_encode(s1) == spec_sp_encode(s2),
    ensures
        s1 == s2,
{
    let b1 = spec_sp_encode(s1);
    let b2 = spec_sp_encode(s2);
    assert(b1[0] == b2[0]);
    match (s1, s2) {
        (ServiceProvider::Chain(id1), ServiceProvider::Chain(id2)) => {
            assert(spec_u64_be_bytes(id1) =~= b1.subrange(1, 9));
            assert(spec_u64_be_bytes(id2) =~= b2.subrange(1, 9));
            lemma_u64_be_bytes_injective(id1, id2);
        },
        (ServiceProvider::Provider(id1), ServiceProvider::Provider(id2)) => {
            assert(spec_u64_be_bytes(id1) =~= b1.subrange(1, 9));
            assert(spec_u64_be_bytes(id2) =~= b2.subrange(1, 9));
            lemma_u64_be_bytes_injective(id1, id2);
        },
        _ => {},
    }
}

/// A service in its stored byte form.
#[derive(Clone, Debug, PartialEq, Eq)]
pub struct StorableServiceProvider(Vec<u8>);

impl StorableServiceProvider {
    /// The stored bytes.
    pub closed spec fn spec_bytes(&self) -> Seq<u8> {
        self.0@
    }

    /// Encodes a service into its stored byte form.
    pub fn new(service: &ServiceProvider) -> (r: StorableServiceProvider)
        ensures
            r.spec_bytes() == spec_sp_encode(*service),
    {
        let mut bytes: Vec<u8> = Vec::new();
        match service {
            ServiceProvider::Chain(id) => {
                bytes.push(0u8);
                let be = u64_be_bytes(*id);
                append_bytes(&mut bytes, &be);
            },
            ServiceProvider::Provider(id) => {
                bytes.push(1u8);
                let be = u64_be_bytes(*id);
                append_bytes(&mut bytes, &be);
            },
        }
        proof {
            assert(bytes@ =~= spec_sp_encode(*service));
        }
        StorableServiceProvider(bytes)
    }
}

impl ServiceProvider {
    /// Decodes a stored service. Succeeds exactly on the encodings that
    /// `StorableServiceProvider::new` produces, and round-trips them.
    pub fn try_from(value: StorableServiceProvider) -> (r: Result<
        ServiceProvider,
        crate::service::ValidationError,
    >)
        ensures
            match r {
                Ok(s) => value.spec_bytes() == spec_sp_encode(s),
                Err(_) => forall|s: ServiceProvider| value.spec_bytes() != spec_sp_encode(s),
            },
    {
        let bytes = value.0;
        if bytes.len() != 9 {
            proof {
                assert forall|s: ServiceProvider| bytes@ != spec_sp_encode(s) by {
                    assert(spec_sp_encode(s).len() == 9);
                }
            }
            return Err(
                crate::service::ValidationError::Custom(
                    String::from_str("stored service provider has an invalid length"),
                ),
            );
        }
        let tag = bytes[0];
        if tag != 0 && tag != 1 {
            proof {
                assert forall|s: ServiceProvider| bytes@ != spec_sp_encode(s) by {
                    assert(spec_sp_encode(s)[0] == 0 || spec_sp_encode(s)[0] == 1);
                }
            }
            return Err(
                crate::service::ValidationError::Custom(
                    String::from_str("stored service provider has an invalid tag"),
                ),
            );
        }
        let id = u64_from_be_bytes(&bytes, 1);
        let s = if tag == 0 {
            ServiceProvider::Chain(id)
        } else {
            ServiceProvider::Provider(id)
        };
        proof {
            assert(bytes@ =~= spec_sp_encode(s));
        }
        Ok(s)
    }
}

/// A service resolved to the provider that will serve it.
pub enum ResolvedServiceProvider {
    Provider(Provider),
}

impl ResolvedServiceProvider {
    /// The API of the resolved provider.
    pub fn api(&self) -> (r: ProviderApi)
        ensures
            match self {
                ResolvedServiceProvider::Provider(p) => {
                    &&& r.url@ == "https://"@ + p@.hostname + p@.credential_path
                    &&& match r.headers {
                        Some(h) => p@.credential_headers.len() > 0 && header_views(h@)
                            == p@.credential_headers,
                        None => p@.credential_headers.len() == 0,
                    }
                },
            },
    {
        match self {
            ResolvedServiceProvider::Provider(provider) => provider.api(),
        }
    }
}

/// Whether a provider serves the given chain under the given hostname.
pub open spec fn spec_matches(p: ProviderV, chain_id: u64, hostname: Seq<char>) -> bool {
    p.chain_id == chain_id && p.hostname == hostname
}

/// Whether a provider is the one a service names: it runs the service's
/// chain, or it is registered under the named id.
pub open spec fn spec_serves(p: ProviderV, service: ServiceProvider) -> bool {
    match service {
        ServiceProvider::Chain(id) => p.chain_id == id,
        ServiceProvider::Provider(id) => p.provider_id == id,
    }
}

/// The sequence of views of a provider list.
pub open spec fn provider_views(s: Seq<Provider>) -> Seq<ProviderV> {
    s.map_values(|p: Provider| p@)
}

/// The provider registry: the registered providers and the service-to-
/// provider mapping, with the registration bookkeeping.
pub struct ProviderRegistry {
    metadata: Metadata,
    providers: Vec<Provider>,
    service_map: Vec<(ServiceProvider, u64)>,
}

impl ProviderRegistry {
    /// The registered providers, in registration order.
    pub closed spec fn spec_providers(&self) -> Seq<ProviderV> {
        provider_views(self.providers@)
    }

    /// The next fresh provider id.
    pub closed spec fn spec_next_id(&self) -> u64 {
        self.metadata.next_provider_id
    }

    /// Whether the service map binds `s` to provider `id`.
    pub closed spec fn spec_mapped(&self, s: ServiceProvider, id: u64) -> bool {
        exists|i: int|
            0 <= i < self.service_map@.len() && self.service_map@[i] == (s, id)
    }

    /// Registered ids are distinct and below the next fresh id; mapped
    /// services are bound at most once.
    pub closed spec fn wf(&self) -> bool {
        &&& forall|i: int|
            0 <= i < self.providers@.len() ==> (#[trigger] self.providers@[i]@.provider_id)
                < self.metadata.next_provider_id
        &&& forall|i: int, j: int|
            0 <= i < j < self.providers@.len() ==> self.providers@[i]@.provider_id
                != self.providers@[j]@.provider_id
        &&& forall|i: int, j: int|
            0 <= i < j < self.service_map@.len() ==> self.service_map@[i].0
                != self.service_map@[j].0
    }

    /// Creates an empty registry.
    pub fn new() -> (r: ProviderRegistry)
        ensures
            r.wf(),
            r.spec_providers() == Seq::<ProviderV>::empty(),
            r.spec_next_id() == 0,
            forall|s: ServiceProvider, id: u64| !r.spec_mapped(s, id),
    {
        let r = ProviderRegistry {
            metadata: Metadata { next_provider_id: 0, open_rpc_access: true },
            providers: Vec::new(),
            service_map: Vec::new(),
        };
        proof {
            assert(r.spec_providers() =~= Seq::<ProviderV>::empty());
        }
        r
    }

    /// Registers a provider under the next fresh id, owned by `caller`.
    /// The header list defaults to empty; the provider starts non-primary
    /// with no cycles owed.
    pub fn register_provider(&mut self, args: RegisterProviderArgs, caller: Vec<u8>) -> (id: u64)
        requires
            old(self).wf(),
            old(self).spec_next_id() < u64::MAX,
        ensures
            final(self).wf(),
            id == old(self).spec_next_id(),
            final(self).spec_next_id() == old(self).spec_next_id() + 1,
            final(self).spec_providers() == old(self).spec_providers().push(
                (ProviderV {
                    provider_id: id,
                    owner: caller@,
                    chain_id: args.chain_id,
                    hostname: args.hostname@,
                    credential_path: args.credential_path@,
                    credential_headers: match args.credential_headers {
                        Some(h) => header_views(h@),
                        None => Seq::<HttpHeaderKVV>::empty(),
                    },
                    cycles_per_call: args.cycles_per_call,
                    cycles_per_message_byte: args.cycles_per_message_byte,
                    cycles_owed: 0u128,
                    primary: false,
                }),
            ),
            forall|s: ServiceProvider, pid: u64|
                final(self).spec_mapped(s, pid) == old(self).spec_mapped(s, pid),
    {
        let provider_id = self.metadata.next_provider_id;
        self.metadata.next_provider_id = provider_id + 1;
        let RegisterProviderArgs {
            chain_id,
            hostname,
            credential_path,
            credential_headers,
            cycles_per_call,
            cycles_per_message_byte,
        } = args;
        let headers: Vec<HttpHeaderKV> = match credential_headers {
            Some(h) => h,
            None => Vec::new(),
        };
        proof {
            assert(header_views(Seq::<HttpHeaderKV>::empty()) =~= Seq::<HttpHeaderKVV>::empty());
        }
        self.providers.push(
            Provider {
                provider_id,
                owner: caller,
                chain_id,
                hostname,
                credential_path,
                credential_headers: headers,
                cycles_per_call,
                cycles_per_message_byte,
                cycles_owed: 0,
                primary: false,
            },
        );
        proof {
            assert(self.spec_providers() =~= old(self).spec_providers().push(
                self.providers@.last()@,
            ));
            assert forall|s: ServiceProvider, pid: u64|
                self.spec_mapped(s, pid) == old(self).spec_mapped(s, pid) by {
                if self.spec_mapped(s, pid) {
                    let j = choose|j: int|
                        0 <= j < self.service_map@.len() && self.service_map@[j] == (s, pid);
                    assert(old(self).service_map@[j] == (s, pid));
                }
                if old(self).spec_mapped(s, pid) {
                    let j = choose|j: int|
                        0 <= j < old(self).service_map@.len() && old(self).service_map@[j] == (
                        s,
                        pid,
                        );
                    assert(self.service_map@[j] == (s, pid));
                }
            }
        }
        provider_id
    }

    /// Finds a provider serving `chain_id` under `hostname`, preferring
    /// primary providers: a non-primary result means no primary provider
    /// matches, and no result means no provider matches at all.
    pub fn find_provider(&self, chain_id: u64, hostname: &String) -> (r: Option<Provider>)
        ensures
            match r {
                Some(p) => {
                    &&& exists|i: int|
                        0 <= i < self.spec_providers().len() && #[trigger] self.spec_providers()[i]
                            == p@
                    &&& spec_matches(p@, chain_id, hostname@)
                    &&& (!p@.primary ==> forall|j: int|
                        0 <= j < self.spec_providers().len() ==> !((
                        #[trigger] self.spec_providers()[j]).primary && spec_matches(
                            self.spec_providers()[j],
                            chain_id,
                            hostname@,
                        )))
                },
                None => forall|j: int|
                    0 <= j < self.spec_providers().len() ==> !spec_matches(
                        #[trigger] self.spec_providers()[j],
                        chain_id,
                        hostname@,
                    ),
            },
    {
        let mut i: usize = 0;
        while i < self.providers.len()
            invariant
                i <= self.providers@.len(),
                forall|j: int|
                    0 <= j < i ==> !((#[trigger] self.spec_providers()[j]).primary && spec_matches(
                        self.spec_providers()[j],
                        chain_id,
                        hostname@,
                    )),
            decreases self.providers@.len() - i,
        {
            let p = &self.providers[i];
            let name_match = p.hostname == *hostname;
            proof {
                if name_match {
                    assert(p.hostname@ =~= hostname@);
                } else if p.hostname@ == hostname@ {
                    assert(p.hostname@ =~= hostname@);
                }
            }
            if p.primary && p.chain_id == chain_id && name_match {
                let r = p.duplicate();
                proof {
                    assert(self.spec_providers()[i as int] == r@);
                }
                return Some(r);
            }
            i = i + 1;
        }
        let mut k: usize = 0;
        while k < self.providers.len()
            invariant
                k <= self.providers@.len(),
                forall|j: int|
                    0 <= j < self.providers@.len() ==> !((
                    #[trigger] self.spec_providers()[j]).primary && spec_matches(
                        self.spec_providers()[j],
                        chain_id,
                        hostname@,
                    )),
                forall|j: int|
                    0 <= j < k ==> !spec_matches(
                        #[trigger] self.spec_providers()[j],
                        chain_id,
                        hostname@,
                    ),
            decreases self.providers@.len() - k,
        {
            let p = &self.providers[k];
            let name_match = p.hostname == *hostname;
            proof {
                if name_match {
                    assert(p.hostname@ =~= hostname@);
                } else if p.hostname@ == hostname@ {
                    assert(p.hostname@ =~= hostname@);
                }
            }
            if p.chain_id == chain_id && name_match {
                let r = p.duplicate();
                proof {
                    assert(self.spec_providers()[k as int] == r@);
                }
                return Some(r);
            }
            k = k + 1;
        }
        None
    }

    /// Binds `service` to `provider`, replacing any earlier binding. The
    /// provider must serve the service's known chain; a mismatch is a fatal
    /// configuration error, so callers establish the match first.
    pub fn set_service_provider(&mut self, service: &ServiceProvider, provider: &Provider)
        requires
            old(self).wf(),
            match *service {
                ServiceProvider::Chain(chain_id) => chain_id == provider@.chain_id,
                ServiceProvider::Provider(_) => true,
            },
        ensures
            final(self).wf(),
            final(self).spec_providers() == old(self).spec_providers(),
            final(self).spec_next_id() == old(self).spec_next_id(),
            final(self).spec_mapped(*service, provider@.provider_id),
            forall|s: ServiceProvider, id: u64|
                s != *service ==> final(self).spec_mapped(s, id) == old(self).spec_mapped(s, id),
            forall|id: u64|
                id != provider@.provider_id ==> !final(self).spec_mapped(*service, id),
    {
        let mut i: usize = 0;
        while i < self.service_map.len()
            invariant
                old(self).wf(),
                i <= self.service_map@.len(),
                self.service_map@ == old(self).service_map@,
                self.providers@ == old(self).providers@,
                self.metadata == old(self).metadata,
                forall|j: int| 0 <= j < i ==> self.service_map@[j].0 != *service,
            decreases self.service_map@.len() - i,
        {
            if self.service_map[i].0 == *service {
                let ghost pre = self.service_map@;
                self.service_map[i] = (*service, provider.provider_id);
                proof {
                    assert forall|s: ServiceProvider, id: u64|
                        s != *service implies self.spec_mapped(s, id) == old(self).spec_mapped(
                        s,
                        id,
                    ) by {
                        if self.spec_mapped(s, id) {
                            let j = choose|j: int|
                                0 <= j < self.service_map@.len() && self.service_map@[j] == (s, id);
                            assert(old(self).service_map@[j] == (s, id));
                        }
                        if old(self).spec_mapped(s, id) {
                            let j = choose|j: int|
                                0 <= j < old(self).service_map@.len() && old(self).service_map@[j]
                                    == (s, id);
                            assert(j != i);
                            assert(self.service_map@[j] == (s, id));
                        }
                    }
                    assert(self.service_map@[i as int] == (*service, provider.provider_id));
                    assert forall|id: u64|
                        id != provider@.provider_id implies !self.spec_mapped(*service, id) by {
                        if self.spec_mapped(*service, id) {
                            let j = choose|j: int|
                                0 <= j < self.service_map@.len() && self.service_map@[j] == (
                                *service,
                                id,
                                );
                            assert(j != i);
                            assert(old(self).service_map@[j].0 == *service);
                            assert(old(self).service_map@[i as int].0 == *service);
                        }
                    }
                }
                return ;
            }
            i = i + 1;
        }
        let ghost pre = self.service_map@;
        self.service_map.push((*service, provider.provider_id));
        proof {
            assert(self.service_map@[pre.len() as int] == (*service, provider.provider_id));
            assert forall|s: ServiceProvider, id: u64|
                s != *service implies self.spec_mapped(s, id) == old(self).spec_mapped(s, id) by {
                if self.spec_mapped(s, id) {
                    let j = choose|j: int|
                        0 <= j < self.service_map@.len() && self.service_map@[j] == (s, id);
                    assert(j < pre.len());
                    assert(old(self).service_map@[j] == (s, id));
                }
                if old(self).spec_mapped(s, id) {
                    let j = choose|j: int|
                        0 <= j < old(self).service_map@.len() && old(self).service_map@[j] == (
                        s,
                        id,
                        );
                    assert(self.service_map@[j] == (s, id));
                }
            }
            assert forall|id: u64|
                id != provider@.provider_id implies !self.spec_mapped(*service, id) by {
                if self.spec_mapped(*service, id) {
                    let j = choose|j: int|
                        0 <= j < self.service_map@.len() && self.service_map@[j] == (*service, id);
                    assert(j < pre.len());
                    assert(pre[j].0 != *service);
                }
            }
        }
    }

    /// Resolves the provider that serves `service`: for a chain, a provider
    /// of that chain with primary providers preferred; for a named provider,
    /// the provider registered under that id. Fails with `ProviderNotFound`
    /// exactly when no provider qualifies.
    pub fn resolve_service_provider(&self, service: ServiceProvider) -> (r: Result<
        ResolvedServiceProvider,
        crate::service::ProviderError,
    >)
        ensures
            match r {
                Ok(res) => {
                    let p = res->Provider_0;
                    &&& exists|i: int|
                        0 <= i < self.spec_providers().len() && #[trigger] self.spec_providers()[i]
                            == p@
                    &&& spec_serves(p@, service)
                    &&& (service is Chain && !p@.primary ==> forall|j: int|
                        0 <= j < self.spec_providers().len() ==> !((
                        #[trigger] self.spec_providers()[j]).primary && spec_serves(
                            self.spec_providers()[j],
                            service,
                        )))
                },
                Err(e) => {
                    &&& e == crate::service::ProviderError::ProviderNotFound
                    &&& forall|j: int|
                        0 <= j < self.spec_providers().len() ==> !spec_serves(
                            #[trigger] self.spec_providers()[j],
                            service,
                        )
                },
            },
    {
        match service {
            ServiceProvider::Chain(id) => {
                let mut i: usize = 0;
                while i < self.providers.len()
                    invariant
                        service == ServiceProvider::Chain(id),
                        i <= self.providers@.len(),
                        forall|j: int|
                            0 <= j < i ==> !((#[trigger] self.spec_providers()[j]).primary
                                && spec_serves(self.spec_providers()[j], service)),
                    decreases self.providers@.len() - i,
                {
                    let p = &self.providers[i];
                    if p.primary && p.chain_id == id {
                        let r = p.duplicate();
                        proof {
                            assert(self.spec_providers()[i as int] == r@);
                        }
                        return Ok(ResolvedServiceProvider::Provider(r));
                    }
                    i = i + 1;
                }
                let mut k: usize = 0;
                while k < self.providers.len()
                    invariant
                        service == ServiceProvider::Chain(id),
                        k <= self.providers@.len(),
                        forall|j: int|
                            0 <= j < self.providers@.len() ==> !((
                            #[trigger] self.spec_providers()[j]).primary && spec_serves(
                                self.spec_providers()[j],
                                service,
                            )),
                        forall|j: int|
                            0 <= j < k ==> !spec_serves(#[trigger] self.spec_providers()[j], service),
                    decreases self.providers@.len() - k,
                {
                    let p = &self.providers[k];
                    if p.chain_id == id {
                        let r = p.duplicate();
                        proof {
                            assert(self.spec_providers()[k as int] == r@);
                        }
                        return Ok(ResolvedServiceProvider::Provider(r));
                    }
                    k = k + 1;
                }
                Err(crate::service::ProviderError::ProviderNotFound)
            },
            ServiceProvider::Provider(id) => {
                let mut i: usize = 0;
                while i < self.providers.len()
                    invariant
                        service == ServiceProvider::Provider(id),
                        i <= self.providers@.len(),
                        forall|j: int|
                            0 <= j < i ==> !spec_serves(#[trigger] self.spec_providers()[j], service),
                    decreases self.providers@.len() - i,
                {
                    let p = &self.providers[i];
                    if p.provider_id == id {
                        let r = p.duplicate();
                        proof {
                            assert(self.spec_providers()[i as int] == r@);
                        }
                        return Ok(ResolvedServiceProvider::Provider(r));
                    }
                    i = i + 1;
                }
                Err(crate::service::ProviderError::ProviderNotFound)
            },
        }
    }

    /// Registers the default providers and binds the default service for each
    /// default hostname. The defaults are consistent — the provider just
    /// registered matches the hostname it is looked up under — so, unlike a
    /// hand-edited configuration, initialization cannot hit the missing-
    /// provider failure.
    pub fn init_service_provider(&mut self, caller: Vec<u8>)
        requires
            old(self).wf(),
            old(self).spec_next_id() < u64::MAX,
        ensures
            final(self).wf(),
            exists|id: u64| final(self).spec_mapped(ServiceProvider::Chain(0), id),
    {
        let defaults = get_default_providers();
        let mut i: usize = 0;
        while i < defaults.len()
            invariant
                self.wf(),
                self.spec_next_id() <= u64::MAX - defaults@.len() + i <= u64::MAX,
                i <= defaults@.len(),
                defaults@.len() == 1,
                defaults@[0].chain_id == 0,
                defaults@[0].hostname@ == TYRON_MAINNET_HOSTNAME@,
                i == 1 ==> exists|j: int|
                    0 <= j < self.spec_providers().len() && spec_matches(
                        #[trigger] self.spec_providers()[j],
                        0,
                        TYRON_MAINNET_HOSTNAME@,
                    ),
            decreases defaults@.len() - i,
        {
            let args = RegisterProviderArgs {
                chain_id: defaults[i].chain_id,
                hostname: defaults[i].hostname.clone(),
                credential_path: defaults[i].credential_path.clone(),
                credential_headers: None,
                cycles_per_call: defaults[i].cycles_per_call,
                cycles_per_message_byte: defaults[i].cycles_per_message_byte,
            };
            let ghost pre = self.spec_providers();
            self.register_provider(args, caller.clone());
            proof {
                assert(self.spec_providers()[pre.len() as int].chain_id == defaults@[i as int].chain_id);
                assert(self.spec_providers()[pre.len() as int].hostname =~= defaults@[
                i as int].hostname@);
            }
            i = i + 1;
        }
        let hostnames = get_default_service_provider_hostnames();
        let mut k: usize = 0;
        while k < hostnames.len()
            invariant
                self.wf(),
                k <= hostnames@.len(),
                hostnames@.len() == 1,
                hostnames@[0].0 == ServiceProvider::Chain(0),
                hostnames@[0].1@ == TYRON_MAINNET_HOSTNAME@,
                exists|j: int|
                    0 <= j < self.spec_providers().len() && spec_matches(
                        #[trigger] self.spec_providers()[j],
                        0,
                        TYRON_MAINNET_HOSTNAME@,
                    ),
                k == 1 ==> exists|id: u64| self.spec_mapped(ServiceProvider::Chain(0), id),
            decreases hostnames@.len() - k,
        {
            let service = hostnames[k].0;
            let chain_id = match get_known_chain_id(&service) {
                Some(c) => c,
                None => 0,
            };
            match self.find_provider(chain_id, &hostnames[k].1) {
                Some(provider) => {
                    self.set_service_provider(&service, &provider);
                    proof {
                        assert(self.spec_mapped(ServiceProvider::Chain(0), provider@.provider_id));
                    }
                },
                None => {
                    proof {
                        let j = choose|j: int|
                            0 <= j < self.spec_providers().len() && spec_matches(
                                #[trigger] self.spec_providers()[j],
                                0,
                                TYRON_MAINNET_HOSTNAME@,
                            );
                        assert(!spec_matches(self.spec_providers()[j], chain_id, hostnames@[
                        k as int].1@));
                        assert(false);
                    }
                },
            }
            k = k + 1;
        }
    }
}

/// The default gateway providers registered at bootstrap.
pub fn get_default_providers() -> (r: Vec<RegisterProviderArgs>)
    ensures
        r@.len() == 1,
        r@[0].chain_id == 0,
        r@[0].hostname@ == TYRON_MAINNET_HOSTNAME@,
        r@[0].credential_path@ == TYRON_CREDENTIAL_PATH@,
        r@[0].credential_headers is None,
        r@[0].cycles_per_call == 0,
        r@[0].cycles_per_message_byte == 0,
{
    let mut r: Vec<RegisterProviderArgs> = Vec::new();
    r.push(
        RegisterProviderArgs {
            chain_id: 0,
            hostname: String::from_str(TYRON_MAINNET_HOSTNAME),
            credential_path: String::from_str(TYRON_CREDENTIAL_PATH),
            credential_headers: None,
            cycles_per_call: 0,
            cycles_per_message_byte: 0,
        },
    );
    r
}

/// The default service binding: the reference chain served by the default
/// gateway hostname.
pub fn get_default_service_provider_hostnames() -> (r: Vec<(ServiceProvider, String)>)
    ensures
        r@.len() == 1,
        r@[0].0 == ServiceProvider::Chain(0),
        r@[0].1@ == TYRON_MAINNET_HOSTNAME@,
{
    let mut r: Vec<(ServiceProvider, String)> = Vec::new();
    r.push((ServiceProvider::Chain(0), String::from_str(TYRON_MAINNET_HOSTNAME)));
    r
}

} // verus!
