//! Fetching a domain's cookies: served from the store while fresh, else
//! refreshed from the browser extension and stored.
use vstd::prelude::*;

use crate::cookie_gateway::error::CookieGatewayError;
use crate::cookie_gateway::store::{CachedCookies, CookieData, CookieStore};
use crate::cookie_gateway::store::DomainCookiesView;
use crate::primitives::now_ms;
use crate::text::owned;

verus! {

/// Where fetched cookies came from.
#[derive(Debug, Clone, Copy, PartialEq, Eq, Structural)]
pub enum CookieFetchSource {
    Cache,
    Refresh,
}

/// The answer to a fetch: the cookies of a domain, their source, their age
/// and fetch time, and how many there are.
#[derive(Debug, PartialEq, Eq)]
pub struct CookieFetchOutput {
    pub domain: String,
    pub source: CookieFetchSource,
    pub age_ms: u64,
    pub fetched_at_unix_ms: u64,
    pub count: usize,
    pub cookies: Vec<CookieData>,
}

/// The age at `now_ms` of cookies fetched at `fetched_at_ms`; none for a
/// fetch time in the future.
pub open spec fn age_of(fetched_at_ms: u64, now_ms: u64) -> u64 {
    if now_ms >= fetched_at_ms {
        (now_ms - fetched_at_ms) as u64
    } else {
        0
    }
}

/// Whether cookies fetched at `fetched_at_ms` are still fresh at `now_ms`:
/// never with a zero refresh interval, else while no older than it.
pub open spec fn fresh(fetched_at_ms: u64, refresh_after_ms: u64, now_ms: u64) -> bool {
    refresh_after_ms != 0 && age_of(fetched_at_ms, now_ms) <= refresh_after_ms
}

/// The age at `now_ms` of cookies fetched at `fetched_at_ms`.
pub fn age_ms(fetched_at_ms: u64, now_ms: u64) -> (r: u64)
    ensures
        r == age_of(fetched_at_ms, now_ms),
{
    if now_ms >= fetched_at_ms {
        now_ms - fetched_at_ms
    } else {
        0
    }
}

/// Whether cached cookies are still fresh at `now_ms`.
pub fn is_fresh(cached: &CachedCookies, refresh_after_ms: u64, now_ms: u64) -> (r: bool)
    ensures
        r == fresh(cached.fetched_at_ms, refresh_after_ms, now_ms),
{
    if refresh_after_ms == 0 {
        return false;
    }
    age_ms(cached.fetched_at_ms, now_ms) <= refresh_after_ms
}

/// The answer built from cached cookies at `now_ms`.
pub fn build_output(domain: &str, cached: CachedCookies, source: CookieFetchSource, now_ms: u64) -> (r:
    CookieFetchOutput)
    ensures
        r.domain@ == domain@,
        r.source == source,
        r.age_ms == age_of(cached.fetched_at_ms, now_ms),
        r.fetched_at_unix_ms == cached.fetched_at_ms,
        r.count == cached.cookies@.len(),
        r.cookies@ == cached.cookies@,
{
    CookieFetchOutput {
        domain: owned(domain),
        source,
        age_ms: age_ms(cached.fetched_at_ms, now_ms),
        fetched_at_unix_ms: cached.fetched_at_ms,
        count: cached.cookies.len(),
        cookies: cached.cookies,
    }
}

/// The answer from the store when its cookies for the domain are fresh at
/// `now_ms`; `None` where they must be refreshed.
pub fn cached_output(store: &CookieStore, domain: &str, refresh_after_ms: u64, now_ms: u64) -> (r: Option<
    CookieFetchOutput,
>)
    ensures
        r is Some <==> store.contents().contains_key(domain@) && fresh(
            store.contents()[domain@].fetched_at_ms,
            refresh_after_ms,
            now_ms,
        ),
        r matches Some(out) ==> {
            let e = store.contents()[domain@];
            &&& out.domain@ == domain@
            &&& out.source == CookieFetchSource::Cache
            &&& out.cookies@ == e.cookies
            &&& out.count == e.cookies.len()
            &&& out.fetched_at_unix_ms == e.fetched_at_ms
            &&& out.age_ms == age_of(e.fetched_at_ms, now_ms)
        },
{
    match store.get_cached(domain) {
        Some(cached) => if is_fresh(&cached, refresh_after_ms, now_ms) {
            Some(build_output(domain, cached, CookieFetchSource::Cache, now_ms))
        } else {
            None
        },
        None => None,
    }
}

/// Stores cookies just fetched for a domain at `now_ms` and answers with
/// them: refreshed, of age zero.
pub fn refreshed_output(store: &mut CookieStore, domain: &str, cookies: Vec<CookieData>, now_ms: u64) -> (r: Result<
    CookieFetchOutput,
    CookieGatewayError,
>)
    ensures
        final(store).contents() == old(store).contents().insert(
            domain@,
            crate::cookie_gateway::store::DomainCookiesView {
                domain: domain@,
                cookies: cookies@,
                fetched_at_ms: now_ms,
            },
        ),
        final(store).opted_in() == old(store).opted_in(),
        r matches Ok(out) && out.domain@ == domain@ && out.source == CookieFetchSource::Refresh
            && out.cookies@ == cookies@ && out.count == cookies@.len() && out.age_ms == 0
            && out.fetched_at_unix_ms == now_ms,
{
    store.store_cookies_with_fetched_at(domain, cookies, now_ms);
    match store.get_cached(domain) {
        Some(refreshed) => Ok(build_output(domain, refreshed, CookieFetchSource::Refresh, now_ms)),
        None => Err(CookieGatewayError::NoCookiesFound { domain: owned(domain) }),
    }
}


/// Cookies fetched at `fetched_at_ms` are served from the store by every
/// fetch with a non-zero refresh interval whose clock reads no later than
/// that interval after the fetch: once a domain is refreshed, the fetches
/// that follow within the interval do not ask the extension again.
pub proof fn lemma_refreshed_cookies_stay_fresh(fetched_at_ms: u64, refresh_after_ms: u64, now_ms: u64)
    requires
        refresh_after_ms > 0,
        now_ms <= fetched_at_ms + refresh_after_ms,
    ensures
        fresh(fetched_at_ms, refresh_after_ms, now_ms),
{
}

/// Where a fetch asks the browser extension for a domain's cookies, waiting
/// at most `timeout_ms`.
pub trait CookieCommandClient {
    /// Whether `r` is an answer this client may give when asked for the
    /// cookies of `domain` with `timeout_ms`. A client that says nothing of
    /// its answers admits every one.
    open spec fn answered(
        &self,
        domain: Seq<char>,
        timeout_ms: u64,
        r: Result<Vec<CookieData>, CookieGatewayError>,
    ) -> bool {
        true
    }

    fn request_cookies(&self, domain: &str, timeout_ms: u64) -> (r: Result<
        Vec<CookieData>,
        CookieGatewayError,
    >)
        ensures
            self.answered(domain@, timeout_ms, r),
    ;
}

/// Fetches cookies for the agent: from a store while fresh, else from the
/// extension through `command_client`, storing what it answers. The store
/// is handed to each fetch, so that it can be shared with the endpoints.
pub struct CookieFetchTool<C: CookieCommandClient> {
    command_client: C,
    command_timeout_ms: u64,
}

impl<C: CookieCommandClient> CookieFetchTool<C> {
    /// The client the tool asks.
    pub closed spec fn client(&self) -> C {
        self.command_client
    }

    /// How long a request to the extension may take.
    pub closed spec fn timeout_ms(&self) -> u64 {
        self.command_timeout_ms
    }

    /// A tool that asks `command_client`, waiting at most
    /// `command_timeout_ms` for each answer.
    pub fn new(command_client: C, command_timeout_ms: u64) -> (r: CookieFetchTool<C>)
        ensures
            r.client() == command_client,
            r.timeout_ms() == command_timeout_ms,
    {
        CookieFetchTool { command_client, command_timeout_ms }
    }

    /// The cookies of `domain`: the stored ones while they are younger than
    /// `refresh_after_ms` by the machine's clock (never with a zero
    /// interval), else those the extension answers, which are stored and
    /// served as a refresh of age zero: the client is asked for `domain` with
    /// the tool's timeout. An error of the extension is passed on, leaving the
    /// store as it was. Stored cookies of the domain are
    /// always served with the largest interval, whatever the clock reads.
    pub fn fetch(&self, store: &mut CookieStore, domain: &str, refresh_after_ms: u64) -> (r: Result<
        CookieFetchOutput,
        CookieGatewayError,
    >)
        ensures
            final(store).opted_in() == old(store).opted_in(),
            r is Err ==> final(store).contents() == old(store).contents(),
            r matches Err(e) ==> self.client().answered(
                domain@,
                self.timeout_ms(),
                Err::<Vec<CookieData>, CookieGatewayError>(e),
            ),
            old(store).contents().contains_key(domain@) && refresh_after_ms == u64::MAX ==> (r matches Ok(
                out,
            ) && out.source == CookieFetchSource::Cache),
            r matches Ok(out) ==> out.domain@ == domain@ && out.count == out.cookies@.len(),
            r matches Ok(out) ==> (out.source == CookieFetchSource::Cache ==> {
                &&& refresh_after_ms != 0
                &&& old(store).contents().contains_key(domain@)
                &&& out.cookies@ == old(store).contents()[domain@].cookies
                &&& out.fetched_at_unix_ms == old(store).contents()[domain@].fetched_at_ms
                &&& out.age_ms <= refresh_after_ms
                &&& final(store).contents() == old(store).contents()
            }),
            r matches Ok(out) ==> (out.source == CookieFetchSource::Refresh ==> {
                &&& exists|a: Vec<CookieData>|
                    #[trigger] self.client().answered(domain@, self.timeout_ms(), Ok(a))
                        && a@ == out.cookies@
                &&& out.age_ms == 0
                &&& final(store).contents() == old(store).contents().insert(
                    domain@,
                    DomainCookiesView {
                        domain: domain@,
                        cookies: out.cookies@,
                        fetched_at_ms: out.fetched_at_unix_ms,
                    },
                )
            }),
    {
        let now = now_ms();
        match cached_output(store, domain, refresh_after_ms, now) {
            Some(out) => {
                return Ok(out);
            },
            None => {},
        }
        let cookies = match self.command_client.request_cookies(domain, self.command_timeout_ms) {
            Ok(c) => c,
            Err(e) => {
                return Err(e);
            },
        };
        let ghost answer = cookies;
        assert(self.client().answered(domain@, self.timeout_ms(), Ok(answer)));
        let stored_at = now_ms();
        refreshed_output(store, domain, cookies, stored_at)
    }
}

} // verus!
