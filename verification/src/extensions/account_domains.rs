//! Account domains: the record, and the search for the domains of an
//! institution.

use vstd::prelude::*;
use crate::canvas_client::{CanvasClient, CanvasClientView};
use crate::request::{present_pairs, Method, Request, RequestView};

verus! {

/// A domain that an institution's Canvas is reached under.
#[derive(Debug)]
pub struct AccountDomain {
    /// The name of the domain.
    name: String,
    /// The domain.
    domain: String,
    /// Which authentication_provider param to pass to the oauth flow.
    authentication_provider: Option<String>,
}

/// What an [`AccountDomain`] holds.
pub struct AccountDomainView {
    pub name: Seq<char>,
    pub domain: Seq<char>,
    pub authentication_provider: Option<Seq<char>>,
}

impl View for AccountDomain {
    type V = AccountDomainView;

    closed spec fn view(&self) -> AccountDomainView {
        AccountDomainView {
            name: self.name@,
            domain: self.domain@,
            authentication_provider: self.authentication_provider.deep_view(),
        }
    }
}

impl AccountDomain {
    /// A domain record with the given fields.
    pub fn new(
        name: String,
        domain: String,
        authentication_provider: Option<String>,
    ) -> (record: AccountDomain)
        ensures
            record@ == (AccountDomainView {
                name: name@,
                domain: domain@,
                authentication_provider: authentication_provider.deep_view(),
            }),
    {
        AccountDomain { name, domain, authentication_provider }
    }

    /// The name of the domain.
    pub fn name(&self) -> (name: &str)
        ensures
            name@ == self@.name,
    {
        self.name.as_str()
    }

    /// The domain.
    pub fn domain(&self) -> (domain: &str)
        ensures
            domain@ == self@.domain,
    {
        self.domain.as_str()
    }

    /// Which authentication_provider param to pass to the oauth flow.
    pub fn authentication_provider(&self) -> (provider: Option<&String>)
        ensures
            provider.deep_view() == self@.authentication_provider,
    {
        self.authentication_provider.as_ref()
    }
}

/// A search for account domains that is being set up: the client it will be
/// sent through, and the two filters, each of which may be left out.
pub struct AccountDomainSearch<'a> {
    client: &'a CanvasClient,
    name: Option<String>,
    domain: Option<String>,
}

/// What an [`AccountDomainSearch`] holds.
pub struct AccountDomainSearchView {
    /// The configuration of the client.
    pub client: CanvasClientView,
    /// The name to search for, if any.
    pub name: Option<Seq<char>>,
    /// The domain to search for, if any.
    pub domain: Option<Seq<char>>,
}

/// Path of the search for account domains.
pub open spec fn search_path() -> Seq<char> {
    "v1/accounts/search"@
}

impl AccountDomainSearchView {
    /// The request of this search: the domain filter, then the name filter,
    /// each with the value it was given or with none.
    pub open spec fn request(self) -> RequestView {
        self.client.request(Method::Get, search_path()).with_param("domain"@, self.domain).with_param(
            "name"@,
            self.name,
        )
    }
}

impl<'a> View for AccountDomainSearch<'a> {
    type V = AccountDomainSearchView;

    closed spec fn view(&self) -> AccountDomainSearchView {
        AccountDomainSearchView {
            client: self.client@,
            name: self.name.deep_view(),
            domain: self.domain.deep_view(),
        }
    }
}

impl<'a> AccountDomainSearch<'a> {
    /// The client that the search will be sent through.
    pub fn client(&self) -> (client: &'a CanvasClient)
        ensures
            client@ == self@.client,
    {
        self.client
    }

    /// Sets or clears the name to search for.
    pub fn set_name(&mut self, name: Option<String>)
        ensures
            final(self)@ == (AccountDomainSearchView { name: name.deep_view(), ..old(self)@ }),
    {
        self.name = name;
    }

    /// Sets or clears the domain to search for.
    pub fn set_domain(&mut self, domain: Option<String>)
        ensures
            final(self)@ == (AccountDomainSearchView { domain: domain.deep_view(), ..old(self)@ }),
    {
        self.domain = domain;
    }

    /// Composes the request of the search. A filter that was not set is not
    /// part of the query string. The server asks for filters of a certain
    /// length; whatever was set is sent as it is.
    ///
    /// The answer is a list of [`AccountDomain`].
    pub fn search(self) -> (request: Request)
        ensures
            request@ == self@.request(),
    {
        self.client.make_query("v1/accounts/search").query("domain", self.domain).query(
            "name",
            self.name,
        )
    }
}

/// The query string of a search holds the filters that were set, the
/// domain before the name, and nothing for a filter that was not set.
pub proof fn lemma_search_sends_the_set_filters(search: AccountDomainSearchView)
    ensures
        search.request().query_pairs() == match (search.domain, search.name) {
            (Some(domain), Some(name)) => seq![("domain"@, domain), ("name"@, name)],
            (Some(domain), None) => seq![("domain"@, domain)],
            (None, Some(name)) => seq![("name"@, name)],
            (None, None) => seq![],
        },
{
    let none: Seq<(Seq<char>, Option<Seq<char>>)> = seq![];
    let one = none.push(("domain"@, search.domain));
    let two = one.push(("name"@, search.name));
    assert(one.drop_last() =~= none);
    assert(two.drop_last() =~= one);
    assert(present_pairs(none) =~= seq![]);
    assert(present_pairs(one) =~= match search.domain {
        Some(domain) => seq![("domain"@, domain)],
        None => seq![],
    });
    assert(present_pairs(two) =~= match (search.domain, search.name) {
        (Some(domain), Some(name)) => seq![("domain"@, domain), ("name"@, name)],
        (Some(domain), None) => seq![("domain"@, domain)],
        (None, Some(name)) => seq![("name"@, name)],
        (None, None) => seq![],
    });
}

/// The requests of the account domains API.
pub trait AccountDomainsExt: View<V = CanvasClientView> {
    /// Starts a search for account domains, of which the server returns up
    /// to 5. No filter is set yet: see [`AccountDomainSearch::set_name`] and
    /// [`AccountDomainSearch::set_domain`].
    fn search_account_domains(&self) -> (search: AccountDomainSearch<'_>)
        ensures
            search@ == (AccountDomainSearchView { client: self@, name: None, domain: None }),
    ;
}

impl AccountDomainsExt for CanvasClient {
    fn search_account_domains(&self) -> (search: AccountDomainSearch<'_>) {
        AccountDomainSearch { client: self, domain: None, name: None }
    }
}

} // verus!
