//! The checks of the gateway's cookie endpoints: a domain must be
//! whitelisted, and storing or fetching needs the user's opt-in.
use vstd::prelude::*;

use crate::cookie_gateway::error::CookieGatewayError;
use crate::cookie_gateway::store::{whitelisted, CookieData, CookieStore, DomainCookiesView};
use crate::text::{owned, trim, trim_str};

verus! {

/// Cookies uploaded by the extension for a domain.
#[derive(Debug)]
pub struct UploadCookiesRequest {
    pub domain: String,
    pub cookies: Vec<CookieData>,
}

/// The domain whose cookies are asked for.
#[derive(Debug, Clone, PartialEq, Eq)]
pub struct GetCookiesQuery {
    pub domain: String,
}

/// A fetch of a domain's cookies, refreshed once older than
/// `refresh_after_ms`.
#[derive(Debug, Clone, PartialEq, Eq)]
pub struct FetchCookiesRequest {
    pub domain: String,
    pub refresh_after_ms: u64,
}

/// The cookies answered for a domain.
#[derive(Debug)]
pub struct GetCookiesResponse {
    pub cookies: Vec<CookieData>,
}

/// Stores uploaded cookies at `now_ms` for a whitelisted domain once the
/// user opted in; answers with the domain and the number of cookies.
pub fn upload_cookies(store: &mut CookieStore, payload: UploadCookiesRequest, now_ms: u64) -> (r: Result<
    (String, usize),
    CookieGatewayError,
>)
    ensures
        final(store).opted_in() == old(store).opted_in(),
        !whitelisted(payload.domain@) ==> (r matches Err(CookieGatewayError::DomainNotWhitelisted { domain })
            && domain == payload.domain),
        whitelisted(payload.domain@) && !old(store).opted_in() ==> r == Err::<(String, usize), CookieGatewayError>(
            CookieGatewayError::UserNotOptedIn),
        r is Err ==> final(store).contents() == old(store).contents(),
        whitelisted(payload.domain@) && old(store).opted_in() ==> {
            &&& r matches Ok(p) && p.0 == payload.domain && p.1 == payload.cookies@.len()
            &&& final(store).contents() == old(store).contents().insert(
                payload.domain@,
                DomainCookiesView {
                    domain: payload.domain@,
                    cookies: payload.cookies@,
                    fetched_at_ms: now_ms,
                },
            )
        },
{
    if !store.is_whitelisted(payload.domain.as_str()) {
        return Err(CookieGatewayError::DomainNotWhitelisted { domain: payload.domain });
    }
    if !store.is_opted_in() {
        return Err(CookieGatewayError::UserNotOptedIn);
    }
    let count = payload.cookies.len();
    store.store_cookies_with_fetched_at(payload.domain.as_str(), payload.cookies, now_ms);
    Ok((payload.domain, count))
}

/// The cookies stored for a whitelisted domain; none stored gives an empty
/// list.
pub fn get_cookies(store: &CookieStore, query: &GetCookiesQuery) -> (r: Result<GetCookiesResponse, CookieGatewayError>)
    ensures
        !whitelisted(query.domain@) ==> (r matches Err(CookieGatewayError::DomainNotWhitelisted { domain })
            && domain == query.domain),
        whitelisted(query.domain@) ==> (r matches Ok(resp) && resp.cookies@ == if store.contents().contains_key(
            query.domain@,
        ) {
            store.contents()[query.domain@].cookies
        } else {
            Seq::empty()
        }),
{
    if !store.is_whitelisted(query.domain.as_str()) {
        return Err(CookieGatewayError::DomainNotWhitelisted { domain: query.domain.clone() });
    }
    let cookies = match store.get_cookies(query.domain.as_str()) {
        Some(c) => c,
        None => Vec::new(),
    };
    Ok(GetCookiesResponse { cookies })
}

/// The domain a fetch is for: the trimmed domain, which must not be blank;
/// fetching needs the user's opt-in. Unlike an upload, a fetch is not
/// limited to whitelisted domains.
pub fn fetch_cookies_domain(store: &CookieStore, payload: &FetchCookiesRequest) -> (r: Result<
    String,
    CookieGatewayError,
>)
    ensures
        trim(payload.domain@).len() == 0 ==> (r matches Err(CookieGatewayError::InvalidDomain { domain })
            && domain == payload.domain),
        trim(payload.domain@).len() > 0 && !store.opted_in() ==> r == Err::<String, CookieGatewayError>(
            CookieGatewayError::UserNotOptedIn,
        ),
        trim(payload.domain@).len() > 0 && store.opted_in() ==> (r matches Ok(d) && d@ == trim(
            payload.domain@,
        )),
{
    let domain = trim_str(payload.domain.as_str());
    if domain.as_str().is_empty() {
        return Err(CookieGatewayError::InvalidDomain { domain: payload.domain.clone() });
    }
    if !store.is_opted_in() {
        return Err(CookieGatewayError::UserNotOptedIn);
    }
    Ok(domain)
}

} // verus!
