//! The checks of the gateway's proxy endpoint, and the cookie header it
//! sends.
use vstd::prelude::*;

use crate::cookie_gateway::store::{whitelisted, CookieData, CookieStore};
use crate::primitives::{parse_url, url_parse};
use crate::text::{owned, push_str};

verus! {

/// A request to fetch a URL with the cookies of its host.
#[derive(Debug, Clone, PartialEq, Eq)]
pub struct ProxyRequest {
    pub url: String,
}

/// The status and body text of a proxied response.
#[derive(Debug, Clone, PartialEq, Eq)]
pub struct ProxyResponse {
    pub status: u16,
    pub body: String,
}

/// The `Cookie` header of a list of cookies: `name=value` pairs joined by
/// `; `.
pub open spec fn cookie_header_of(cookies: Seq<CookieData>) -> Seq<char>
    decreases cookies.len(),
{
    if cookies.len() == 0 {
        Seq::empty()
    } else if cookies.len() == 1 {
        cookies[0].name@ + "="@ + cookies[0].value@
    } else {
        cookie_header_of(cookies.drop_last()) + "; "@ + cookies.last().name@ + "="@
            + cookies.last().value@
    }
}

/// The `Cookie` header of a list of cookies.
pub fn cookie_header(cookies: &Vec<CookieData>) -> (r: String)
    ensures
        r@ == cookie_header_of(cookies@),
{
    let mut out = String::new();
    let mut i: usize = 0;
    assert(cookies@.subrange(0, 0) =~= Seq::<CookieData>::empty());
    while i < cookies.len()
        invariant
            i <= cookies@.len(),
            out@ == cookie_header_of(cookies@.subrange(0, i as int)),
        decreases cookies@.len() - i,
    {
        let c = &cookies[i];
        assert(cookies@.subrange(0, i + 1).drop_last() =~= cookies@.subrange(0, i as int));
        if i > 0 {
            push_str(&mut out, "; ");
        }
        push_str(&mut out, c.name.as_str());
        push_str(&mut out, "=");
        push_str(&mut out, c.value.as_str());
        proof {
            if i == 0 {
                assert(out@ =~= c.name@ + "="@ + c.value@);
            }
        }
        i = i + 1;
    }
    assert(cookies@.subrange(0, cookies@.len() as int) =~= cookies@);
    out
}

/// What a proxy request may go ahead with: the URL as given and the cookie
/// header for its host, where cookies are stored. Refused, with a status and a message:
/// an unparsable URL (400), a URL without host (400), a host that is not
/// whitelisted (403), a user who has not opted in (403).
pub fn proxy_target(store: &CookieStore, req: &ProxyRequest) -> (r: Result<
    (String, Option<String>),
    (u16, String),
>)
    ensures
        url_parse(req.url@) is Err ==> (r matches Err(e) && e.0 == 400 && e.1@ == "Invalid URL: "@
            + url_parse(req.url@)->Err_0),
        url_parse(req.url@) is Ok ==> {
            let host = url_parse(req.url@)->Ok_0.1;
            &&& host is None ==> (r matches Err(e) && e.0 == 400 && e.1@ == "URL must have a host"@)
            &&& host is Some && !whitelisted(host->0) ==> (r matches Err(e) && e.0 == 403 && e.1@
                == "Domain "@ + host->0 + " is not whitelisted"@)
            &&& host is Some && whitelisted(host->0) && !store.opted_in() ==> (r matches Err(e)
                && e.0 == 403 && e.1@ == "User has not opted in to cookie capture"@)
            &&& host is Some && whitelisted(host->0) && store.opted_in() ==> (r matches Ok(p) && p.0@
                == req.url@ && (if store.contents().contains_key(host->0) {
                p.1 matches Some(hdr) && hdr@ == cookie_header_of(store.contents()[host->0].cookies)
            } else {
                p.1 is None
            }))
        },
{
    let parsed = match parse_url(req.url.as_str()) {
        Ok(p) => p,
        Err(e) => {
            let mut m = owned("Invalid URL: ");
            push_str(&mut m, e.as_str());
            return Err((400, m));
        },
    };
    let domain = match parsed.host_name() {
        Some(h) => owned(h),
        None => {
            return Err((400, owned("URL must have a host")));
        },
    };
    if !store.is_whitelisted(domain.as_str()) {
        let mut m = owned("Domain ");
        push_str(&mut m, domain.as_str());
        push_str(&mut m, " is not whitelisted");
        return Err((403, m));
    }
    if !store.is_opted_in() {
        return Err((403, owned("User has not opted in to cookie capture")));
    }
    let header = match store.get_cookies(domain.as_str()) {
        Some(cookies) => Some(cookie_header(&cookies)),
        None => None,
    };
    Ok((owned(req.url.as_str()), header))
}

} // verus!
