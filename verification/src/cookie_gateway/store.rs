//! The cookie store: cookies per whitelisted domain with the time they were
//! fetched, and whether the user opted in to their capture.
use vstd::prelude::*;

use crate::primitives::now_ms;
use crate::catalog::{Catalog, Keyed};
use crate::text::{ends_with, str_ends_with, str_eq, owned};

verus! {

/// A browser cookie. Its expiration date, a floating-point number of
/// seconds, is held as the bits of that number.
#[derive(Debug, PartialEq, Eq)]
pub struct CookieData {
    pub name: String,
    pub value: String,
    pub domain: String,
    pub path: String,
    pub secure: bool,
    pub http_only: bool,
    pub expiration_date_bits: Option<u64>,
}

impl CookieData {
    /// A copy of this cookie.
    pub fn duplicate(&self) -> (r: CookieData)
        ensures
            r == *self,
    {
        CookieData {
            name: self.name.clone(),
            value: self.value.clone(),
            domain: self.domain.clone(),
            path: self.path.clone(),
            secure: self.secure,
            http_only: self.http_only,
            expiration_date_bits: self.expiration_date_bits,
        }
    }
}

impl Clone for CookieData {
    fn clone(&self) -> (r: CookieData)
        ensures
            r == *self,
    {
        self.duplicate()
    }
}

/// A copy of a list of cookies.
pub fn copy_cookies(cookies: &Vec<CookieData>) -> (r: Vec<CookieData>)
    ensures
        r@ == cookies@,
{
    let mut r: Vec<CookieData> = Vec::new();
    let mut i: usize = 0;
    while i < cookies.len()
        invariant
            i <= cookies@.len(),
            r@ == cookies@.subrange(0, i as int),
        decreases cookies@.len() - i,
    {
        r.push(cookies[i].duplicate());
        i = i + 1;
        assert(r@ =~= cookies@.subrange(0, i as int));
    }
    assert(cookies@.subrange(0, cookies@.len() as int) =~= cookies@);
    r
}

/// Cookies as cached: the cookies and when they were fetched, in
/// milliseconds since the Unix epoch.
#[derive(Debug, PartialEq, Eq)]
pub struct CachedCookies {
    pub cookies: Vec<CookieData>,
    pub fetched_at_ms: u64,
}

/// The cached cookies of one domain.
#[derive(Debug, PartialEq, Eq)]
pub struct DomainCookies {
    pub domain: String,
    pub cookies: Vec<CookieData>,
    pub fetched_at_ms: u64,
}

/// The content of a domain's cache entry.
pub struct DomainCookiesView {
    pub domain: Seq<char>,
    pub cookies: Seq<CookieData>,
    pub fetched_at_ms: u64,
}

impl View for DomainCookies {
    type V = DomainCookiesView;

    open spec fn view(&self) -> DomainCookiesView {
        DomainCookiesView {
            domain: self.domain@,
            cookies: self.cookies@,
            fetched_at_ms: self.fetched_at_ms,
        }
    }
}

impl Keyed for DomainCookies {
    open spec fn key_of(v: DomainCookiesView) -> Seq<char> {
        v.domain
    }

    open spec fn stamp_of(v: DomainCookiesView) -> u64 {
        v.fetched_at_ms
    }

    fn key(&self) -> (r: &str) {
        self.domain.as_str()
    }

    fn stamp(&self) -> (r: u64) {
        self.fetched_at_ms
    }

    fn duplicate(&self) -> (r: DomainCookies) {
        DomainCookies {
            domain: self.domain.clone(),
            cookies: copy_cookies(&self.cookies),
            fetched_at_ms: self.fetched_at_ms,
        }
    }
}

/// The domains cookies may be stored for; an entry that starts with a dot
/// also admits every subdomain and the domain itself.
pub open spec fn whitelist() -> Seq<Seq<char>> {
    seq![".company.com"@, "api.company.com"@, "internal.company.net"@]
}

/// Whether a domain is whitelisted: it is an entry, or an entry starting
/// with a dot is a suffix of it or it is that entry without the dot.
pub open spec fn whitelisted(domain: Seq<char>) -> bool {
    whitelist().contains(domain) || exists|i: int|
        0 <= i < 3 && whitelist()[i].len() > 0 && whitelist()[i][0] == '.' && (ends_with(
            domain,
            whitelist()[i],
        ) || domain == whitelist()[i].subrange(1, whitelist()[i].len() as int))
}

/// Cookies per whitelisted domain and the user's opt-in.
pub struct CookieStore {
    storage: Catalog<DomainCookies>,
    opt_in: bool,
}

impl CookieStore {
    /// The cached cookies, keyed by domain.
    pub closed spec fn contents(&self) -> Map<Seq<char>, DomainCookiesView> {
        self.storage.contents()
    }

    /// Whether the user opted in to cookie capture.
    pub closed spec fn opted_in(&self) -> bool {
        self.opt_in
    }

    /// An empty store, not opted in.
    pub fn new() -> (r: CookieStore)
        ensures
            r.contents() == Map::<Seq<char>, DomainCookiesView>::empty(),
            !r.opted_in(),
    {
        CookieStore { storage: Catalog::new(), opt_in: false }
    }

    /// Whether cookies may be stored for a domain.
    pub fn is_whitelisted(&self, domain: &str) -> (r: bool)
        ensures
            r == whitelisted(domain@),
    {
        let entries: [&str; 3] = [".company.com", "api.company.com", "internal.company.net"];
        proof {
            reveal_strlit(".company.com");
            reveal_strlit("api.company.com");
            reveal_strlit("internal.company.net");
            reveal_strlit("company.com");
            assert(entries@[0]@ == whitelist()[0]);
            assert(entries@[1]@ == whitelist()[1]);
            assert(entries@[2]@ == whitelist()[2]);
            assert(".company.com"@.subrange(1, 12) =~= "company.com"@);
        }
        if str_eq(domain, ".company.com") || str_eq(domain, "api.company.com") || str_eq(
            domain,
            "internal.company.net",
        ) {
            assert(whitelist()[0] == ".company.com"@);
            return true;
        }
        assert(!whitelist().contains(domain@)) by {
            if whitelist().contains(domain@) {
                let k = choose|k: int| 0 <= k < 3 && whitelist()[k] == domain@;
                assert(k == 0 || k == 1 || k == 2);
            }
        }
        if str_ends_with(domain, ".company.com") || str_eq(domain, "company.com") {
            assert(whitelist()[0][0] == '.');
            return true;
        }
        proof {
            assert("api.company.com"@[0] == 'a');
            assert("internal.company.net"@[0] == 'i');
            assert forall|i: int|
                0 <= i < 3 && whitelist()[i].len() > 0 && whitelist()[i][0] == '.' implies !(
                ends_with(domain@, whitelist()[i]) || domain@ == whitelist()[i].subrange(
                    1,
                    whitelist()[i].len() as int,
                )) by {
                assert(i == 0);
            }
        }
        false
    }

    /// Stores cookies for a domain, fetched now by the machine's clock,
    /// replacing what was stored for it.
    pub fn store_cookies(&mut self, domain: &str, cookies: Vec<CookieData>)
        ensures
            final(self).contents() == old(self).contents().insert(domain@, final(self).contents()[domain@]),
            final(self).contents()[domain@].domain == domain@,
            final(self).contents()[domain@].cookies == cookies@,
            final(self).opted_in() == old(self).opted_in(),
    {
        let now = now_ms();
        self.store_cookies_with_fetched_at(domain, cookies, now);
        assert(self.contents() == old(self).contents().insert(
            domain@,
            DomainCookiesView { domain: domain@, cookies: cookies@, fetched_at_ms: now },
        ));
    }

    /// Stores cookies for a domain, fetched at `fetched_at_ms`, replacing
    /// what was stored for it.
    pub fn store_cookies_with_fetched_at(&mut self, domain: &str, cookies: Vec<CookieData>, fetched_at_ms: u64)
        ensures
            final(self).contents() == old(self).contents().insert(
                domain@,
                DomainCookiesView { domain: domain@, cookies: cookies@, fetched_at_ms },
            ),
            final(self).opted_in() == old(self).opted_in(),
    {
        self.storage.save(DomainCookies { domain: owned(domain), cookies, fetched_at_ms });
    }

    /// The cookies stored for a domain, if any.
    pub fn get_cookies(&self, domain: &str) -> (r: Option<Vec<CookieData>>)
        ensures
            r is Some <==> self.contents().contains_key(domain@),
            r matches Some(c) ==> c@ == self.contents()[domain@].cookies,
    {
        match self.storage.load(domain) {
            Some(entry) => Some(entry.cookies),
            None => None,
        }
    }

    /// The cookies stored for a domain with the time they were fetched.
    pub fn get_cached(&self, domain: &str) -> (r: Option<CachedCookies>)
        ensures
            r is Some <==> self.contents().contains_key(domain@),
            r matches Some(c) ==> c.cookies@ == self.contents()[domain@].cookies
                && c.fetched_at_ms == self.contents()[domain@].fetched_at_ms,
    {
        match self.storage.load(domain) {
            Some(entry) => Some(CachedCookies { cookies: entry.cookies, fetched_at_ms: entry.fetched_at_ms }),
            None => None,
        }
    }

    /// Whether the user opted in to cookie capture.
    pub fn is_opted_in(&self) -> (r: bool)
        ensures
            r == self.opted_in(),
    {
        self.opt_in
    }

    /// Records whether the user opts in.
    pub fn set_opt_in(&mut self, enabled: bool)
        ensures
            final(self).opted_in() == enabled,
            final(self).contents() == old(self).contents(),
    {
        self.opt_in = enabled;
    }
}

impl Default for CookieStore {
    fn default() -> (r: CookieStore)
        ensures
            r.contents() == Map::<Seq<char>, DomainCookiesView>::empty(),
            !r.opted_in(),
    {
        CookieStore::new()
    }
}

/// What is stored for a domain is read back as stored, until the domain is
/// stored again.
pub proof fn lemma_store_then_read(m: Map<Seq<char>, DomainCookiesView>, domain: Seq<char>, v: DomainCookiesView, other: Seq<char>)
    ensures
        m.insert(domain, v).contains_key(domain),
        m.insert(domain, v)[domain] == v,
        other != domain ==> m.insert(domain, v).contains_key(other) == m.contains_key(other),
        other != domain && m.contains_key(other) ==> m.insert(domain, v)[other] == m[other],
{
}

} // verus!
