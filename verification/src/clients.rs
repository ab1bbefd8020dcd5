//! One HTTP client per proxy configuration.
use vstd::prelude::*;

verus! {

/// After how many seconds a client gives a request up.
pub const REQUEST_TIMEOUT_SECONDS: u64 = 720;

/// The TLS implementation that clients use.
#[derive(Debug, Clone, Copy, PartialEq, Eq, Structural)]
pub enum TlsBackend {
    Rustls,
    NativeTls,
}

/// A proxy that requests go through.
#[derive(Debug)]
pub struct ProxyConfig {
    pub url: String,
    pub username: Option<String>,
    pub password: Option<String>,
}

/// What a [`ProxyConfig`] says.
#[verifier::ext_equal]
pub struct ProxyConfigView {
    pub url: Seq<char>,
    pub username: Option<Seq<char>>,
    pub password: Option<Seq<char>>,
}

/// The characters of an optional string.
pub open spec fn optional_text(text: Option<String>) -> Option<Seq<char>> {
    match text {
        Some(s) => Some(s@),
        None => None,
    }
}

impl View for ProxyConfig {
    type V = ProxyConfigView;

    open spec fn view(&self) -> ProxyConfigView {
        ProxyConfigView {
            url: self.url@,
            username: optional_text(self.username),
            password: optional_text(self.password),
        }
    }
}

impl Clone for ProxyConfig {
    fn clone(&self) -> (copy: Self)
        ensures
            copy@ == self@,
    {
        ProxyConfig {
            url: self.url.clone(),
            username: self.username.clone(),
            password: self.password.clone(),
        }
    }
}

/// What an optional proxy configuration says.
pub open spec fn optional_proxy(proxy: Option<ProxyConfig>) -> Option<ProxyConfigView> {
    match proxy {
        Some(p) => Some(p@),
        None => None,
    }
}

fn same_text(a: &Option<String>, b: &Option<String>) -> (same: bool)
    ensures
        same == (optional_text(*a) == optional_text(*b)),
{
    match (a, b) {
        (Some(x), Some(y)) => *x == *y,
        (None, None) => true,
        _ => false,
    }
}

/// Whether two optional proxy configurations say the same.
pub fn same_proxy(a: &Option<ProxyConfig>, b: &Option<ProxyConfig>) -> (same: bool)
    ensures
        same == (optional_proxy(*a) == optional_proxy(*b)),
{
    match (a, b) {
        (Some(x), Some(y)) => x.url == y.url && same_text(&x.username, &y.username)
            && same_text(&x.password, &y.password),
        (None, None) => true,
        _ => false,
    }
}

/// The clients made so far, by the proxy configuration they use. Credentials with the same
/// configuration share a client.
pub struct ClientCache<C> {
    entries: Vec<(Option<ProxyConfig>, C)>,
}

impl<C> View for ClientCache<C> {
    type V = Map<Option<ProxyConfigView>, C>;

    closed spec fn view(&self) -> Map<Option<ProxyConfigView>, C> {
        Map::new(
            |proxy: Option<ProxyConfigView>|
                exists|i: int|
                    0 <= i < self.entries@.len() && optional_proxy(
                        #[trigger] self.entries@[i].0,
                    ) == proxy,
            |proxy: Option<ProxyConfigView>|
                {
                    let i = choose|i: int|
                        0 <= i < self.entries@.len() && optional_proxy(
                            #[trigger] self.entries@[i].0,
                        ) == proxy;
                    self.entries@[i].1
                },
        )
    }
}

impl<C> ClientCache<C> {
    #[verifier::type_invariant]
    spec fn one_client_per_proxy(self) -> bool {
        forall|i: int, j: int|
            0 <= i < j < self.entries@.len() ==> optional_proxy(#[trigger] self.entries@[i].0)
                != optional_proxy(#[trigger] self.entries@[j].0)
    }

    proof fn entry_is_found(self, i: int)
        requires
            self.one_client_per_proxy(),
            0 <= i < self.entries@.len(),
        ensures
            self@.contains_key(optional_proxy(self.entries@[i].0)),
            self@[optional_proxy(self.entries@[i].0)] == self.entries@[i].1,
    {
        let key = optional_proxy(self.entries@[i].0);
        let j = choose|j: int|
            0 <= j < self.entries@.len() && optional_proxy(#[trigger] self.entries@[j].0) == key;
        if i < j {
            assert(optional_proxy(self.entries@[i].0) != optional_proxy(self.entries@[j].0));
        } else if j < i {
            assert(optional_proxy(self.entries@[j].0) != optional_proxy(self.entries@[i].0));
        }
    }

    /// A cache that holds the client of one configuration.
    pub fn with_client(proxy: Option<ProxyConfig>, client: C) -> (cache: Self)
        ensures
            cache@ == Map::<Option<ProxyConfigView>, C>::empty().insert(
                optional_proxy(proxy),
                client,
            ),
    {
        let mut entries: Vec<(Option<ProxyConfig>, C)> = Vec::new();
        entries.push((proxy, client));
        let cache = ClientCache { entries };
        proof {
            cache.entry_is_found(0);
        }
        assert(cache@ =~= Map::<Option<ProxyConfigView>, C>::empty().insert(
            optional_proxy(proxy),
            client,
        ));
        cache
    }

    /// The client of the given configuration, if one was made.
    pub fn get(&self, proxy: &Option<ProxyConfig>) -> (client: Option<&C>)
        ensures
            client == (if self@.contains_key(optional_proxy(*proxy)) {
                Some(&self@[optional_proxy(*proxy)])
            } else {
                None
            }),
    {
        proof {
            use_type_invariant(self);
        }
        let mut i: usize = 0;
        while i < self.entries.len()
            invariant
                i <= self.entries@.len(),
                self.one_client_per_proxy(),
                forall|j: int|
                    0 <= j < i ==> optional_proxy(#[trigger] self.entries@[j].0) != optional_proxy(
                        *proxy,
                    ),
            decreases self.entries@.len() - i,
        {
            if same_proxy(&self.entries[i].0, proxy) {
                assert(self@.contains_key(optional_proxy(*proxy)));
                return Some(&self.entries[i].1);
            }
            i += 1;
        }
        None
    }

    /// Keeps a client for a configuration, in place of one that was there.
    pub fn insert(&mut self, proxy: Option<ProxyConfig>, client: C)
        ensures
            final(self)@ == old(self)@.insert(optional_proxy(proxy), client),
    {
        proof {
            use_type_invariant(&*self);
        }
        let ghost before = *self;
        let ghost key = optional_proxy(proxy);
        let mut entries: Vec<(Option<ProxyConfig>, C)> = Vec::new();
        std::mem::swap(&mut entries, &mut self.entries);
        let mut i: usize = 0;
        while i < entries.len()
            invariant
                i <= entries@.len(),
                entries@ == before.entries@,
                before.one_client_per_proxy(),
                key == optional_proxy(proxy),
                forall|j: int| 0 <= j < i ==> optional_proxy(#[trigger] entries@[j].0) != key,
            ensures
                i <= entries@.len(),
                forall|j: int| 0 <= j < i ==> optional_proxy(#[trigger] entries@[j].0) != key,
                i < entries@.len() ==> optional_proxy(entries@[i as int].0) == key,
            decreases entries@.len() - i,
        {
            if same_proxy(&entries[i].0, &proxy) {
                break;
            }
            i += 1;
        }
        if i < entries.len() {
            entries.set(i, (proxy, client));
        } else {
            entries.push((proxy, client));
        }
        self.entries = entries;
        proof {
            self.entry_is_found(i as int);
            assert forall|k: Option<ProxyConfigView>| k != key implies {
                &&& #[trigger] self@.dom().contains(k) == before@.dom().contains(k)
                &&& self@.dom().contains(k) ==> self@[k] == before@[k]
            } by {
                if before@.contains_key(k) {
                    let j = choose|j: int|
                        0 <= j < before.entries@.len() && optional_proxy(
                            #[trigger] before.entries@[j].0,
                        ) == k;
                    assert(self.entries@[j] == before.entries@[j]);
                    before.entry_is_found(j);
                    self.entry_is_found(j);
                }
                if self@.contains_key(k) {
                    let j = choose|j: int|
                        0 <= j < self.entries@.len() && optional_proxy(
                            #[trigger] self.entries@[j].0,
                        ) == k;
                    assert(self.entries@[j] == before.entries@[j]);
                    before.entry_is_found(j);
                }
            }
            assert(self@ =~= before@.insert(key, client));
        }
    }

    /// The client of the given configuration: the one that was made for it before, else one that
    /// `build` makes now, for the configuration, the time limit and the TLS backend, and that is
    /// kept. Where `build` fails, nothing is kept.
    pub fn client_for<E, F: FnOnce(&Option<ProxyConfig>, u64, TlsBackend) -> Result<C, E>>(
        &mut self,
        proxy: Option<ProxyConfig>,
        tls_backend: TlsBackend,
        build: F,
    ) -> (result: Result<C, E>) where C: Clone
        requires
            !old(self)@.contains_key(optional_proxy(proxy)) ==> build.requires(
                (&proxy, REQUEST_TIMEOUT_SECONDS, tls_backend),
            ),
        ensures
            old(self)@.contains_key(optional_proxy(proxy)) ==> {
                &&& final(self)@ == old(self)@
                &&& result is Ok
                &&& cloned(old(self)@[optional_proxy(proxy)], result->Ok_0)
            },
            !old(self)@.contains_key(optional_proxy(proxy)) ==> exists|built: Result<C, E>|
                {
                    &&& #[trigger] build.ensures(
                        (&proxy, REQUEST_TIMEOUT_SECONDS, tls_backend),
                        built,
                    )
                    &&& match built {
                        Ok(client) => {
                            &&& final(self)@ == old(self)@.insert(optional_proxy(proxy), client)
                            &&& result is Ok
                            &&& cloned(client, result->Ok_0)
                        },
                        Err(error) => final(self)@ == old(self)@ && result == Err::<C, E>(error),
                    }
                },
    {
        if let Some(client) = self.get(&proxy) {
            return Ok(client.clone());
        }
        match build(&proxy, REQUEST_TIMEOUT_SECONDS, tls_backend) {
            Ok(client) => {
                let copy = client.clone();
                self.insert(proxy, client);
                Ok(copy)
            },
            Err(error) => Err(error),
        }
    }
}

/// Clients give a request up after twelve minutes.
pub proof fn requests_have_twelve_minutes()
    ensures
        REQUEST_TIMEOUT_SECONDS == 12 * 60,
{
}

/// An optional text is there if the string is, and then has the same characters.
pub proof fn optional_texts_are_kept(text: Option<String>)
    ensures
        text is None <==> optional_text(text) is None,
        text matches Some(s) ==> optional_text(text) == Some(s@),
{
}

/// Two credentials share a client exactly if both have no proxy, or have proxies with the same
/// address, the same user name and the same password. None of the three may be left out.
pub proof fn proxies_differ_in_each_part(a: ProxyConfig, b: ProxyConfig)
    ensures
        optional_proxy(None) != optional_proxy(Some(a)),
        optional_proxy(Some(a)) == optional_proxy(Some(b)) <==> {
            &&& a.url@ == b.url@
            &&& a.username is Some <==> b.username is Some
            &&& a.username is Some ==> a.username->0@ == b.username->0@
            &&& a.password is Some <==> b.password is Some
            &&& a.password is Some ==> a.password->0@ == b.password->0@
        },
{
    let (x, y) = (optional_proxy(Some(a))->0, optional_proxy(Some(b))->0);
    if x == y {
        assert(x.url == y.url && x.username == y.username && x.password == y.password);
    }
}

/// A proxy is described by its own address, user name and password.
pub proof fn proxies_are_described_by_their_parts(proxy: ProxyConfig)
    ensures
        proxy@.url == proxy.url@,
        proxy@.username is Some <==> proxy.username is Some,
        proxy@.password is Some <==> proxy.password is Some,
        proxy.username is Some ==> proxy@.username->0 == proxy.username->0@,
        proxy.password is Some ==> proxy@.password->0 == proxy.password->0@,
        optional_proxy(Some(proxy)) == Some(proxy@),
        optional_proxy(None) is None,
{
}

} // verus!
