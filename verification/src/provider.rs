//! The provider: its rate limit settings, its endpoints and the rules that follow from them.
use crate::backoff::{backoff, delay_ms, jitter_limit};
use crate::clients::{
    optional_proxy, ClientCache, ProxyConfig, ProxyConfigView, TlsBackend, REQUEST_TIMEOUT_SECONDS,
};
use crate::error::{CallError, CallErrorView};
use crate::json::{model_from_request, model_of_request};
use crate::rate_limit::{
    classify_body, kind_of_body, RateLimitError, RateLimitErrorView, UpstreamRateLimitKind,
};
use vstd::prelude::*;

verus! {

/// How often a request is sent again with the same credential at most.
pub const MAX_RETRIES_PER_CREDENTIAL: usize = 3;

/// How often a request is sent again at most, whatever the credentials and the settings.
pub const MAX_TOTAL_RETRIES: usize = 9;

/// What the configuration says on upstream rate limits.
#[derive(Debug, Clone, Copy)]
pub struct RateLimitSettings {
    pub rate_limit_retries_per_credential: u64,
    pub rate_limit_cooldown_seconds: u64,
    pub suspicious_rate_limit_retries_per_credential: u64,
    pub suspicious_rate_limit_cooldown_seconds: u64,
    pub rate_limit_max_cooled_credentials_per_request: u64,
}

/// `value` as a `usize`, or `fallback` where it does not fit.
pub open spec fn usize_or(value: u64, fallback: usize) -> usize {
    if value <= usize::MAX {
        value as usize
    } else {
        fallback
    }
}

/// `value`, but at least 1.
pub open spec fn at_least_one(value: u64) -> u64 {
    if value < 1 {
        1
    } else {
        value
    }
}

impl RateLimitSettings {
    /// How often a request is sent again with the same credential after a limit of this kind.
    pub open spec fn retries(self, kind: UpstreamRateLimitKind) -> usize {
        match kind {
            UpstreamRateLimitKind::Normal => usize_or(self.rate_limit_retries_per_credential, 2),
            UpstreamRateLimitKind::Suspicious => usize_or(
                self.suspicious_rate_limit_retries_per_credential,
                0,
            ),
        }
    }

    /// How often a request is sent again with the same credential, whatever the limits.
    pub open spec fn most_retries(self) -> usize {
        if self.retries(UpstreamRateLimitKind::Normal) < self.retries(
            UpstreamRateLimitKind::Suspicious,
        ) {
            self.retries(UpstreamRateLimitKind::Suspicious)
        } else {
            self.retries(UpstreamRateLimitKind::Normal)
        }
    }

    /// For how many seconds a credential is set aside after a limit of this kind.
    pub open spec fn cooldown(self, kind: UpstreamRateLimitKind) -> u64 {
        match kind {
            UpstreamRateLimitKind::Normal => at_least_one(self.rate_limit_cooldown_seconds),
            UpstreamRateLimitKind::Suspicious => at_least_one(
                self.suspicious_rate_limit_cooldown_seconds,
            ),
        }
    }

    /// How many credentials one call may set aside before it gives up.
    pub open spec fn most_cooled(self) -> usize {
        usize_or(at_least_one(self.rate_limit_max_cooled_credentials_per_request), 2)
    }
}

/// The message where every credential is rate limited.
pub open spec fn all_limited_message() -> Seq<char> {
    "All available upstream credentials are currently rate limited."@
}

/// The message where one call has run into too many limits.
pub open spec fn call_limited_message() -> Seq<char> {
    "Upstream rate limit protection is active for this request. Please retry later."@
}

/// The rate limit error with the given message: it tells callers to wait for as long as the
/// credentials say (`retry_after`), or else for `fallback`.
pub open spec fn limited(
    message: Seq<char>,
    retry_after: Option<u64>,
    fallback: Option<u64>,
) -> RateLimitErrorView {
    RateLimitErrorView {
        message,
        retry_after_seconds: match retry_after {
            Some(seconds) => Some(seconds),
            None => fallback,
        },
    }
}

/// The characters of each string.
pub open spec fn texts(strings: Seq<String>) -> Seq<Seq<char>> {
    strings.map_values(|s: String| s@)
}

/// What a [`KiroProvider`] is made of.
pub struct ProviderView {
    pub settings: RateLimitSettings,
    pub tls_backend: TlsBackend,
    pub global_proxy: Option<ProxyConfigView>,
    pub endpoints: Seq<Seq<char>>,
    pub default_endpoint: Seq<char>,
}

impl ProviderView {
    /// No endpoint is registered twice, and the default endpoint is registered.
    pub open spec fn wf(self) -> bool {
        &&& self.endpoints.no_duplicates()
        &&& self.endpoints.contains(self.default_endpoint)
    }

    /// The name of the endpoint for a credential that asks for `requested`.
    pub open spec fn endpoint_name(self, requested: Option<Seq<char>>) -> Seq<char> {
        match requested {
            Some(name) => name,
            None => self.default_endpoint,
        }
    }

    /// The number of the endpoint for a credential that asks for `requested`, if it is
    /// registered.
    pub open spec fn endpoint(self, requested: Option<Seq<char>>) -> Option<int> {
        self.endpoints.index_of_first(self.endpoint_name(requested))
    }
}

/// The rules by which calls to the Kiro API are made.
#[derive(Debug)]
pub struct KiroProvider {
    settings: RateLimitSettings,
    tls_backend: TlsBackend,
    global_proxy: Option<ProxyConfig>,
    endpoints: Vec<String>,
    default_endpoint: String,
}

impl View for KiroProvider {
    type V = ProviderView;

    closed spec fn view(&self) -> ProviderView {
        ProviderView {
            settings: self.settings,
            tls_backend: self.tls_backend,
            global_proxy: optional_proxy(self.global_proxy),
            endpoints: texts(self.endpoints@),
            default_endpoint: self.default_endpoint@,
        }
    }
}

impl KiroProvider {
    /// No endpoint is registered twice, and the default endpoint is registered.
    #[verifier::type_invariant]
    pub open spec fn endpoints_are_registered(self) -> bool {
        self@.wf()
    }

    /// A provider with the given settings, TLS backend, proxy and endpoint names, and a cache
    /// that holds the client of that proxy, which `build` makes. Credentials that ask for no
    /// endpoint use `default_endpoint`. Where `build` fails, so does this.
    pub fn with_proxy<
        C,
        E,
        F: FnOnce(&Option<ProxyConfig>, u64, TlsBackend) -> Result<C, E>,
    >(
        settings: RateLimitSettings,
        tls_backend: TlsBackend,
        proxy: Option<ProxyConfig>,
        endpoints: Vec<String>,
        default_endpoint: String,
        build: F,
    ) -> (made: Result<(Self, ClientCache<C>), E>)
        requires
            texts(endpoints@).no_duplicates(),
            texts(endpoints@).contains(default_endpoint@),
            build.requires((&proxy, REQUEST_TIMEOUT_SECONDS, tls_backend)),
        ensures
            exists|built: Result<C, E>|
                {
                    &&& #[trigger] build.ensures(
                        (&proxy, REQUEST_TIMEOUT_SECONDS, tls_backend),
                        built,
                    )
                    &&& match built {
                        Ok(client) => {
                            &&& made is Ok
                            &&& made->Ok_0.0@ == (ProviderView {
                                settings,
                                tls_backend,
                                global_proxy: optional_proxy(proxy),
                                endpoints: texts(endpoints@),
                                default_endpoint: default_endpoint@,
                            })
                            &&& made->Ok_0.0@.wf()
                            &&& made->Ok_0.1@ == Map::<Option<ProxyConfigView>, C>::empty().insert(
                                optional_proxy(proxy),
                                client,
                            )
                        },
                        Err(error) => made == Err::<(Self, ClientCache<C>), E>(error),
                    }
                },
    {
        match build(&proxy, REQUEST_TIMEOUT_SECONDS, tls_backend) {
            Ok(client) => {
                let clients = ClientCache::with_client(proxy.clone(), client);
                let provider = KiroProvider {
                    settings,
                    tls_backend,
                    global_proxy: proxy,
                    endpoints,
                    default_endpoint,
                };
                Ok((provider, clients))
            },
            Err(error) => Err(error),
        }
    }

    /// The client for a credential that uses the given proxy: the one that is kept for the proxy,
    /// else one that `build` makes now and that is kept. Where `build` fails, nothing is kept.
    pub fn client_for<
        C: Clone,
        E,
        F: FnOnce(&Option<ProxyConfig>, u64, TlsBackend) -> Result<C, E>,
    >(&self, clients: &mut ClientCache<C>, proxy: Option<ProxyConfig>, build: F) -> (result: Result<
        C,
        E,
    >)
        requires
            !old(clients)@.contains_key(optional_proxy(proxy)) ==> build.requires(
                (&proxy, REQUEST_TIMEOUT_SECONDS, self@.tls_backend),
            ),
        ensures
            old(clients)@.contains_key(optional_proxy(proxy)) ==> {
                &&& final(clients)@ == old(clients)@
                &&& result is Ok
                &&& cloned(old(clients)@[optional_proxy(proxy)], result->Ok_0)
            },
            !old(clients)@.contains_key(optional_proxy(proxy)) ==> exists|built: Result<C, E>|
                {
                    &&& #[trigger] build.ensures(
                        (&proxy, REQUEST_TIMEOUT_SECONDS, self@.tls_backend),
                        built,
                    )
                    &&& match built {
                        Ok(client) => {
                            &&& final(clients)@ == old(clients)@.insert(
                                optional_proxy(proxy),
                                client,
                            )
                            &&& result is Ok
                            &&& cloned(client, result->Ok_0)
                        },
                        Err(error) => final(clients)@ == old(clients)@ && result == Err::<C, E>(
                            error,
                        ),
                    }
                },
    {
        clients.client_for(proxy, self.tls_backend, build)
    }

    /// The proxy for credentials that have none of their own.
    pub fn global_proxy(&self) -> (proxy: &Option<ProxyConfig>)
        ensures
            optional_proxy(*proxy) == self@.global_proxy,
    {
        &self.global_proxy
    }

    /// The number of the endpoint for a credential that asks for `requested`, or the error that
    /// no such endpoint is registered.
    pub fn endpoint_for<E>(&self, requested: Option<&str>) -> (endpoint: Result<usize, CallError<E>>)
        ensures
            ({
                let asked = match requested {
                    Some(name) => Some(name@),
                    None => None,
                };
                match endpoint {
                    Ok(i) => self@.endpoint(asked) == Some(i as int) && i < self@.endpoints.len(),
                    Err(error) => self@.endpoint(asked) is None && error@ == (
                    CallErrorView::<E>::UnknownEndpoint { name: self@.endpoint_name(asked) }),
                }
            }),
    {
        let name: &str = match requested {
            Some(name) => name,
            None => self.default_endpoint.as_str(),
        };
        let wanted = name.to_owned();
        let mut i: usize = 0;
        while i < self.endpoints.len()
            invariant
                name@ == self@.endpoint_name(
                    match requested {
                        Some(asked) => Some(asked@),
                        None => None,
                    },
                ),
                i <= self.endpoints@.len(),
                wanted@ == name@,
                forall|j: int| 0 <= j < i ==> #[trigger] self@.endpoints[j] != name@,
            decreases self.endpoints@.len() - i,
        {
            if self.endpoints[i] == wanted {
                proof {
                    assert(self@.endpoints[i as int] == name@);
                    self@.endpoints.index_of_first_ensures(name@);
                }
                return Ok(i);
            }
            assert(self@.endpoints[i as int] != name@);
            i += 1;
        }
        proof {
            self@.endpoints.index_of_first_ensures(name@);
        }
        Err(CallError::UnknownEndpoint { name: wanted })
    }

    /// How often a request is sent again with the same credential after an ordinary limit.
    pub fn rate_limit_retries_per_credential(&self) -> (retries: usize)
        ensures
            retries == self@.settings.retries(UpstreamRateLimitKind::Normal),
    {
        match usize::try_from(self.settings.rate_limit_retries_per_credential) {
            Ok(retries) => retries,
            Err(_) => 2,
        }
    }

    /// For how many seconds a credential is set aside after an ordinary limit.
    pub fn rate_limit_cooldown(&self) -> (seconds: u64)
        ensures
            seconds == self@.settings.cooldown(UpstreamRateLimitKind::Normal),
    {
        self.settings.rate_limit_cooldown_seconds.max(1)
    }

    /// How often a request is sent again with the same credential after a limit for suspicious
    /// activity.
    pub fn suspicious_rate_limit_retries_per_credential(&self) -> (retries: usize)
        ensures
            retries == self@.settings.retries(UpstreamRateLimitKind::Suspicious),
    {
        match usize::try_from(self.settings.suspicious_rate_limit_retries_per_credential) {
            Ok(retries) => retries,
            Err(_) => 0,
        }
    }

    /// For how many seconds a credential is set aside after a limit for suspicious activity.
    pub fn suspicious_rate_limit_cooldown(&self) -> (seconds: u64)
        ensures
            seconds == self@.settings.cooldown(UpstreamRateLimitKind::Suspicious),
    {
        self.settings.suspicious_rate_limit_cooldown_seconds.max(1)
    }

    /// How many credentials one call may set aside before it gives up.
    pub fn rate_limit_max_cooled_credentials_per_request(&self) -> (most: usize)
        ensures
            most == self@.settings.most_cooled(),
            most >= 1,
    {
        match usize::try_from(self.settings.rate_limit_max_cooled_credentials_per_request.max(1)) {
            Ok(most) => most,
            Err(_) => 2,
        }
    }

    /// How often a request is sent again with the same credential after a limit of this kind.
    pub fn retries_for_rate_limit_kind(&self, kind: UpstreamRateLimitKind) -> (retries: usize)
        ensures
            retries == self@.settings.retries(kind),
    {
        match kind {
            UpstreamRateLimitKind::Normal => self.rate_limit_retries_per_credential(),
            UpstreamRateLimitKind::Suspicious => {
                self.suspicious_rate_limit_retries_per_credential()
            },
        }
    }

    /// For how many seconds a credential is set aside after a limit of this kind.
    pub fn cooldown_for_rate_limit_kind(&self, kind: UpstreamRateLimitKind) -> (seconds: u64)
        ensures
            seconds == self@.settings.cooldown(kind),
            seconds >= 1,
    {
        match kind {
            UpstreamRateLimitKind::Normal => self.rate_limit_cooldown(),
            UpstreamRateLimitKind::Suspicious => self.suspicious_rate_limit_cooldown(),
        }
    }

    /// Tells from the body of a rate limit refusal which kind of limit it is.
    pub fn classify_rate_limit_body(body: &str) -> (kind: UpstreamRateLimitKind)
        ensures
            kind == kind_of_body(body@),
    {
        classify_body(body)
    }

    fn rate_limit_error(
        retry_after: Option<u64>,
        fallback_retry_after_seconds: Option<u64>,
        message: &'static str,
    ) -> (error: RateLimitError)
        ensures
            error@ == limited(message@, retry_after, fallback_retry_after_seconds),
    {
        let seconds: Option<u64> = match retry_after {
            Some(seconds) => Some(seconds),
            None => fallback_retry_after_seconds,
        };
        RateLimitError::new(message, seconds)
    }

    /// The error where every credential is rate limited. `retry_after` is how long the
    /// credentials say to wait.
    pub fn all_credentials_rate_limit_error(
        retry_after: Option<u64>,
        fallback_retry_after_seconds: Option<u64>,
    ) -> (error: RateLimitError)
        ensures
            error@ == limited(all_limited_message(), retry_after, fallback_retry_after_seconds),
    {
        Self::rate_limit_error(
            retry_after,
            fallback_retry_after_seconds,
            "All available upstream credentials are currently rate limited.",
        )
    }

    /// The error where one call has run into too many limits. `retry_after` is how long the
    /// credentials say to wait.
    pub fn per_request_rate_limit_error(
        retry_after: Option<u64>,
        fallback_retry_after_seconds: Option<u64>,
    ) -> (error: RateLimitError)
        ensures
            error@ == limited(call_limited_message(), retry_after, fallback_retry_after_seconds),
    {
        Self::rate_limit_error(
            retry_after,
            fallback_retry_after_seconds,
            "Upstream rate limit protection is active for this request. Please retry later.",
        )
    }

    /// The model that a request names, if it is a JSON document that names one.
    pub fn extract_model_from_request(request_body: &str) -> (model: Option<String>)
        ensures
            model_of_request(request_body@) == (match model {
                Some(m) => Some(m@),
                None => None,
            }),
    {
        model_from_request(request_body)
    }

    /// How many milliseconds to wait after try number `attempt` (counted from 0): exponential
    /// backoff with random jitter.
    pub fn retry_delay(attempt: usize) -> (ms: u64)
        ensures
            backoff(attempt as nat) <= ms <= backoff(attempt as nat) + jitter_limit(attempt as nat),
    {
        delay_ms(attempt)
    }
}

/// A credential that asks for no endpoint always gets one.
pub proof fn default_endpoint_is_found(provider: ProviderView)
    requires
        provider.wf(),
    ensures
        provider.endpoint(None) is Some,
{
    provider.endpoints.index_of_first_ensures(provider.default_endpoint);
}

/// A request is sent again at most three times with one credential and nine times in all.
pub proof fn retries_have_fixed_limits()
    ensures
        MAX_RETRIES_PER_CREDENTIAL == 3,
        MAX_TOTAL_RETRIES == 9,
{
}

/// Retries with the same credential are as many as the setting for the kind of limit says. Where
/// the machine cannot hold that number they are two for an ordinary limit, and none for a
/// suspicious one.
pub proof fn retries_follow_the_setting_of_their_kind(settings: RateLimitSettings)
    ensures
        settings.rate_limit_retries_per_credential <= usize::MAX ==> settings.retries(
            UpstreamRateLimitKind::Normal,
        ) == settings.rate_limit_retries_per_credential,
        settings.rate_limit_retries_per_credential > usize::MAX ==> settings.retries(
            UpstreamRateLimitKind::Normal,
        ) == 2,
        settings.suspicious_rate_limit_retries_per_credential <= usize::MAX ==> settings.retries(
            UpstreamRateLimitKind::Suspicious,
        ) == settings.suspicious_rate_limit_retries_per_credential,
        settings.suspicious_rate_limit_retries_per_credential > usize::MAX ==> settings.retries(
            UpstreamRateLimitKind::Suspicious,
        ) == 0,
{
}

/// No kind of limit allows more retries than `most_retries`, and one kind allows as many.
pub proof fn most_retries_are_those_of_a_kind(
    settings: RateLimitSettings,
    kind: UpstreamRateLimitKind,
)
    ensures
        settings.retries(kind) <= settings.most_retries(),
        settings.most_retries() == settings.retries(UpstreamRateLimitKind::Normal)
            || settings.most_retries() == settings.retries(UpstreamRateLimitKind::Suspicious),
{
}

/// A credential is set aside for as long as the setting for the kind of limit says, but for a
/// second at least.
pub proof fn cooldowns_follow_the_setting_of_their_kind(settings: RateLimitSettings)
    ensures
        settings.rate_limit_cooldown_seconds > 0 ==> settings.cooldown(
            UpstreamRateLimitKind::Normal,
        ) == settings.rate_limit_cooldown_seconds,
        settings.suspicious_rate_limit_cooldown_seconds > 0 ==> settings.cooldown(
            UpstreamRateLimitKind::Suspicious,
        ) == settings.suspicious_rate_limit_cooldown_seconds,
        settings.rate_limit_cooldown_seconds == 0 ==> settings.cooldown(
            UpstreamRateLimitKind::Normal,
        ) == 1,
        settings.suspicious_rate_limit_cooldown_seconds == 0 ==> settings.cooldown(
            UpstreamRateLimitKind::Suspicious,
        ) == 1,
{
}

/// A call may set aside as many credentials as the setting says, but one at least; two where
/// the machine cannot hold that number.
pub proof fn cooled_credentials_follow_their_setting(settings: RateLimitSettings)
    ensures
        0 < settings.rate_limit_max_cooled_credentials_per_request <= usize::MAX
            ==> settings.most_cooled() == settings.rate_limit_max_cooled_credentials_per_request,
        settings.rate_limit_max_cooled_credentials_per_request == 0 ==> settings.most_cooled()
            == 1,
        settings.rate_limit_max_cooled_credentials_per_request > usize::MAX
            ==> settings.most_cooled() == 2,
{
}

/// A rate limit error has the message that it is given. Where the credentials say how long to
/// wait, callers are told just that, however long it is; else they are told the fallback.
pub proof fn credentials_say_how_long_to_wait(
    message: Seq<char>,
    seconds: u64,
    fallback: Option<u64>,
)
    ensures
        limited(message, Some(seconds), fallback).retry_after_seconds == Some(seconds),
        limited(message, None, fallback).retry_after_seconds == fallback,
        limited(message, Some(seconds), fallback).message == message,
        limited(message, None, fallback).message == message,
{
}

/// The fallback has no bearing where the credentials say how long to wait.
pub proof fn fallbacks_give_way(
    message: Seq<char>,
    seconds: u64,
    one: Option<u64>,
    other: Option<u64>,
)
    ensures
        limited(message, Some(seconds), one) == limited(message, Some(seconds), other),
{
}

/// The two rate limit errors have these messages.
pub proof fn rate_limits_are_told()
    ensures
        all_limited_message()
            == "All available upstream credentials are currently rate limited."@,
        call_limited_message()
            == "Upstream rate limit protection is active for this request. Please retry later."@,
{
}

/// A credential gets the endpoint with the name that it asks for, and the default endpoint where
/// it asks for none.
pub proof fn endpoints_have_the_requested_name(
    provider: ProviderView,
    requested: Option<Seq<char>>,
    i: int,
)
    requires
        provider.endpoint(requested) == Some(i),
    ensures
        0 <= i < provider.endpoints.len(),
        requested matches Some(name) ==> provider.endpoints[i] == name,
        requested is None ==> provider.endpoints[i] == provider.default_endpoint,
{
    provider.endpoints.index_of_first_ensures(provider.endpoint_name(requested));
}

/// An endpoint that is registered is found under its name, by its own number; it is found too by
/// a credential that asks for none if it is the default endpoint.
pub proof fn registered_endpoints_are_found(provider: ProviderView, i: int)
    requires
        provider.endpoints.no_duplicates(),
        0 <= i < provider.endpoints.len(),
    ensures
        provider.endpoint(Some(provider.endpoints[i])) == Some(i),
        provider.endpoints[i] == provider.default_endpoint ==> provider.endpoint(None) == Some(i),
{
    provider.endpoints.index_of_first_ensures(provider.endpoints[i]);
}

/// No endpoint is found under a name that is not registered, and the error tells that name.
pub proof fn unregistered_endpoints_are_not_found(provider: ProviderView, name: Seq<char>)
    requires
        !provider.endpoints.contains(name),
    ensures
        provider.endpoint(Some(name)) is None,
        provider.endpoint_name(Some(name)) == name,
        provider.endpoint_name(None) == provider.default_endpoint,
{
    provider.endpoints.index_of_first_ensures(name);
}

/// A provider is sound exactly if no two of its endpoints have the same name and one of them is
/// the default endpoint.
pub proof fn sound_providers_have_their_default_endpoint_once(provider: ProviderView)
    ensures
        provider.wf() <==> {
            &&& forall|i: int, j: int|
                0 <= i < j < provider.endpoints.len() ==> #[trigger] provider.endpoints[i]
                    != #[trigger] provider.endpoints[j]
            &&& exists|i: int|
                0 <= i < provider.endpoints.len() && provider.endpoints[i]
                    == provider.default_endpoint
        },
{
}

/// Texts are those of the strings, one for one.
pub proof fn texts_are_kept(strings: Seq<String>)
    ensures
        texts(strings).len() == strings.len(),
        forall|i: int| 0 <= i < strings.len() ==> #[trigger] texts(strings)[i] == strings[i]@,
{
}

} // verus!
