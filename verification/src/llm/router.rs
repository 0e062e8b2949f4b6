//! The provider router: dispatches completion requests to the adapter
//! registered under the requested (or default) provider name.

use vstd::prelude::*;

use crate::llm::types::{CompletionRequest, LLMResponse, ProviderAdapter, ProviderError};
use crate::strutil::str_eq;

verus! {

/// Owns a name-to-adapter mapping plus a default provider name.
pub struct LLMRouter<A: ProviderAdapter> {
    default_provider: String,
    providers: Vec<(String, A)>,
}

impl<A: ProviderAdapter> LLMRouter<A> {
    /// The configured default provider name.
    pub closed spec fn spec_default(self) -> Seq<char> {
        self.default_provider@
    }

    /// The registered providers, in registration order.
    pub closed spec fn spec_providers(self) -> Seq<(String, A)> {
        self.providers@
    }

    /// A provider of this name is registered.
    pub open spec fn spec_has_provider(self, name: Seq<char>) -> bool {
        exists|i: int|
            0 <= i < self.spec_providers().len() && self.spec_providers()[i].0@ == name
    }

    /// Provider names are unique within the router.
    pub open spec fn well_formed(self) -> bool {
        forall|i: int, j: int|
            0 <= i < j < self.spec_providers().len() ==> self.spec_providers()[i].0@
                != self.spec_providers()[j].0@
    }

    /// The provider name a request resolves to: the request's own if
    /// present, else the router's default. The choice is made fresh per
    /// request.
    pub open spec fn spec_resolved(self, request: CompletionRequest) -> Seq<char> {
        match request.provider {
            Some(p) => p@,
            None => self.spec_default(),
        }
    }

    pub fn new(default_provider: &str) -> (r: LLMRouter<A>)
        ensures
            r.well_formed(),
            r.spec_default() == default_provider@,
            r.spec_providers() == Seq::<(String, A)>::empty(),
    {
        let r = LLMRouter { default_provider: default_provider.to_owned(), providers: Vec::new() };
        proof {
            assert(r.spec_providers() =~= Seq::<(String, A)>::empty());
        }
        r
    }

    fn index_of(&self, name: &str) -> (r: Option<usize>)
        ensures
            match r {
                Some(i) => {
                    &&& i < self.spec_providers().len()
                    &&& self.spec_providers()[i as int].0@ == name@
                },
                None => !self.spec_has_provider(name@),
            },
    {
        let mut i: usize = 0;
        while i < self.providers.len()
            invariant
                i <= self.spec_providers().len(),
                forall|k: int| 0 <= k < i ==> self.spec_providers()[k].0@ != name@,
            decreases self.spec_providers().len() - i,
        {
            if str_eq(self.providers[i].0.as_str(), name) {
                return Some(i);
            }
            i = i + 1;
        }
        None
    }

    /// Registers (or replaces) the adapter for a provider name.
    pub fn register_provider(&mut self, name: &str, adapter: A)
        requires
            old(self).well_formed(),
        ensures
            final(self).well_formed(),
            final(self).spec_default() == old(self).spec_default(),
            final(self).spec_has_provider(name@),
            !old(self).spec_has_provider(name@) ==> {
                &&& final(self).spec_providers().len() == old(self).spec_providers().len() + 1
                &&& final(self).spec_providers().subrange(
                    0,
                    old(self).spec_providers().len() as int,
                ) =~= old(self).spec_providers()
                &&& final(self).spec_providers().last().0@ == name@
                &&& final(self).spec_providers().last().1 == adapter
            },
            old(self).spec_has_provider(name@) ==> {
                &&& final(self).spec_providers().len() == old(self).spec_providers().len()
                &&& exists|i: int|
                    {
                        &&& 0 <= i < old(self).spec_providers().len()
                        &&& old(self).spec_providers()[i].0@ == name@
                        &&& final(self).spec_providers() =~= old(self).spec_providers().update(
                            i,
                            (old(self).spec_providers()[i].0, adapter),
                        )
                    }
            },
    {
        match self.index_of(name) {
            Some(i) => {
                self.providers[i].1 = adapter;
                proof {
                    assert(final(self).spec_providers() =~= old(self).spec_providers().update(
                        i as int,
                        (old(self).spec_providers()[i as int].0, adapter),
                    ));
                    assert(final(self).spec_providers()[i as int].0@ == name@);
                }
            },
            None => {
                self.providers.push((name.to_owned(), adapter));
                proof {
                    assert(final(self).spec_providers().subrange(
                        0,
                        old(self).spec_providers().len() as int,
                    ) =~= old(self).spec_providers());
                    assert(final(self).spec_providers()[old(self).spec_providers().len() as int].0@
                        == name@);
                }
            },
        }
    }

    /// Dispatches a completion request to the adapter registered under the
    /// resolved provider name; fails with a non-retryable
    /// `provider_missing` error when no adapter is registered under it.
    pub fn complete(&mut self, request: CompletionRequest) -> (r: Result<
        LLMResponse,
        ProviderError,
    >)
        requires
            old(self).well_formed(),
        ensures
            final(self).well_formed(),
            final(self).spec_default() == old(self).spec_default(),
            final(self).spec_providers().len() == old(self).spec_providers().len(),
            forall|i: int|
                0 <= i < old(self).spec_providers().len() ==> final(self).spec_providers()[i].0
                    == old(self).spec_providers()[i].0,
            !old(self).spec_has_provider(old(self).spec_resolved(request)) ==> {
                &&& r matches Err(e)
                &&& e.code@ == "provider_missing"@
                &&& e.message@ == "provider not registered: "@ + old(self).spec_resolved(request)
                &&& e.retryable == false
                &&& *final(self) == *old(self)
            },
    {
        let name: String = match &request.provider {
            Some(p) => p.clone(),
            None => self.default_provider.clone(),
        };
        match self.index_of(name.as_str()) {
            None => {
                let mut msg = String::from_str("provider not registered: ");
                msg.append(name.as_str());
                Err(ProviderError { code: String::from_str("provider_missing"), message: msg, retryable: false })
            },
            Some(i) => {
                let adapter = &mut self.providers[i].1;
                let out = adapter.complete(request);
                proof {
                    let post = final(self).spec_providers();
                    let pre = old(self).spec_providers();
                    assert(forall|k: int| 0 <= k < pre.len() ==> post[k].0 == pre[k].0);
                }
                out
            },
        }
    }
}

} // verus!
