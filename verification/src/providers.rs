//! Direct inference providers: AI API endpoints the client calls directly.
//!
//! Each provider is an OpenAI-compatible endpoint. Models are discovered via
//! `GET {base_url}/v1/models` and presented in the UI as `{name}/{model_id}`.

use vstd::prelude::*;

use crate::ids::{is_uuid_v4_text, new_uuid_text};
use crate::net::{parse_url_host, plan_http_call, spec_http_call, url_host, HttpCall};
use crate::text::{
    concat2, concat3, sort_texts, spec_trim_end_char, text_eq, texts_sorted, trim_end_char,
};

verus! {

/// Secure storage key for the full list of `DirectProvider` (including keys).
pub const DIRECT_PROVIDERS_STORAGE_KEY: &'static str = "DirectProviders";

// ── Data types ──────────────────────────────────────────────────────────────

/// A single model offered by a `DirectProvider`.
#[derive(Debug, PartialEq, Eq)]
pub struct DirectProviderModel {
    /// Raw model ID returned by `/v1/models`, e.g. `"llama3.2"`.
    pub id: String,
    /// Stable UUID used as the `ModelConfig.base` key for routing.
    pub config_key: String,
}

/// Mathematical value of a model: its id and its config key.
pub struct SpecDirectProviderModel {
    pub id: Seq<char>,
    pub config_key: Seq<char>,
}

impl DeepView for DirectProviderModel {
    type V = SpecDirectProviderModel;

    open spec fn deep_view(&self) -> SpecDirectProviderModel {
        SpecDirectProviderModel { id: self.id@, config_key: self.config_key@ }
    }
}

impl Clone for DirectProviderModel {
    fn clone(&self) -> (r: Self)
        ensures
            r.deep_view() == self.deep_view(),
    {
        DirectProviderModel { id: self.id.clone(), config_key: self.config_key.clone() }
    }
}

/// A user-configured AI provider that the client calls directly via the
/// OpenAI chat completions API.
#[derive(Debug, PartialEq, Eq)]
pub struct DirectProvider {
    /// Stable UUID used for routing and as a storage key.
    pub id: String,
    /// Human-readable name shown in the UI, e.g. "ollama" or "my-openai".
    pub name: String,
    /// Base URL **without** a trailing path, e.g. `http://localhost:11434`.
    pub base_url: String,
    /// API key — kept in secure storage; never written to settings files or logs.
    pub api_key: String,
    /// Extra HTTP headers to attach to every request.
    pub default_headers: Vec<(String, String)>,
    /// Models fetched from `GET {base_url}/v1/models` or entered manually.
    pub models: Vec<DirectProviderModel>,
}

pub struct SpecDirectProvider {
    pub id: Seq<char>,
    pub name: Seq<char>,
    pub base_url: Seq<char>,
    pub api_key: Seq<char>,
    pub default_headers: Seq<(Seq<char>, Seq<char>)>,
    pub models: Seq<SpecDirectProviderModel>,
}

impl DeepView for DirectProvider {
    type V = SpecDirectProvider;

    open spec fn deep_view(&self) -> SpecDirectProvider {
        SpecDirectProvider {
            id: self.id@,
            name: self.name@,
            base_url: self.base_url@,
            api_key: self.api_key@,
            default_headers: self.default_headers.deep_view(),
            models: self.models.deep_view(),
        }
    }
}

fn clone_headers(h: &Vec<(String, String)>) -> (r: Vec<(String, String)>)
    ensures
        r.deep_view() == h.deep_view(),
{
    let mut r: Vec<(String, String)> = Vec::new();
    let mut i: usize = 0;
    while i < h.len()
        invariant
            i <= h@.len(),
            r@.len() == i,
            r.deep_view() =~= h.deep_view().take(i as int),
        decreases h@.len() - i,
    {
        assert(h.deep_view()[i as int] == h@[i as int].deep_view());
        r.push((h[i].0.clone(), h[i].1.clone()));
        assert(r.deep_view() =~= h.deep_view().take(i + 1));
        i = i + 1;
    }
    assert(h.deep_view().take(h@.len() as int) =~= h.deep_view());
    r
}

fn clone_models(m: &Vec<DirectProviderModel>) -> (r: Vec<DirectProviderModel>)
    ensures
        r.deep_view() == m.deep_view(),
{
    let mut r: Vec<DirectProviderModel> = Vec::new();
    let mut i: usize = 0;
    while i < m.len()
        invariant
            i <= m@.len(),
            r@.len() == i,
            r.deep_view() =~= m.deep_view().take(i as int),
        decreases m@.len() - i,
    {
        assert(m.deep_view()[i as int] == m@[i as int].deep_view());
        r.push(m[i].clone());
        assert(r.deep_view() =~= m.deep_view().take(i + 1));
        i = i + 1;
    }
    assert(m.deep_view().take(m@.len() as int) =~= m.deep_view());
    r
}

impl Clone for DirectProvider {
    fn clone(&self) -> (r: Self)
        ensures
            r.deep_view() == self.deep_view(),
    {
        DirectProvider {
            id: self.id.clone(),
            name: self.name.clone(),
            base_url: self.base_url.clone(),
            api_key: self.api_key.clone(),
            default_headers: clone_headers(&self.default_headers),
            models: clone_models(&self.models),
        }
    }
}

impl Default for DirectProvider {
    /// An empty provider with a fresh id.
    fn default() -> (r: Self)
        ensures
            is_uuid_v4_text(r.id@),
            r.name@.len() == 0,
            r.base_url@.len() == 0,
            r.api_key@.len() == 0,
            r.default_headers@.len() == 0,
            r.models@.len() == 0,
    {
        DirectProvider {
            id: new_uuid_text(),
            name: String::new(),
            base_url: String::new(),
            api_key: String::new(),
            default_headers: Vec::new(),
            models: Vec::new(),
        }
    }
}

/// The endpoint URL for `path` under a base URL whose trailing slashes are dropped.
pub open spec fn spec_endpoint_url(base_url: Seq<char>, path: Seq<char>) -> Seq<char> {
    spec_trim_end_char(base_url, '/') + path
}

impl DirectProvider {
    /// A provider with this name and base URL, a fresh id, no API key, no
    /// extra headers and no models.
    pub fn new(name: String, base_url: String) -> (r: Self)
        ensures
            is_uuid_v4_text(r.id@),
            r.name == name,
            r.base_url == base_url,
            r.api_key@.len() == 0,
            r.default_headers@.len() == 0,
            r.models@.len() == 0,
    {
        DirectProvider {
            id: new_uuid_text(),
            name,
            base_url,
            api_key: String::new(),
            default_headers: Vec::new(),
            models: Vec::new(),
        }
    }

    /// `{base_url}/v1/chat/completions`, without doubled slashes.
    pub fn chat_completions_url(&self) -> (r: String)
        ensures
            r@ == spec_endpoint_url(self.base_url@, "/v1/chat/completions"@),
    {
        let base = trim_end_char(self.base_url.as_str(), '/');
        concat2(base.as_str(), "/v1/chat/completions")
    }

    /// `{base_url}/v1/models`, without doubled slashes.
    pub fn models_url(&self) -> (r: String)
        ensures
            r@ == spec_endpoint_url(self.base_url@, "/v1/models"@),
    {
        let base = trim_end_char(self.base_url.as_str(), '/');
        concat2(base.as_str(), "/v1/models")
    }
}

impl DirectProviderModel {
    /// A model with this id and a fresh config key.
    pub fn new(id: String) -> (r: Self)
        ensures
            r.id == id,
            is_uuid_v4_text(r.config_key@),
    {
        DirectProviderModel { id, config_key: new_uuid_text() }
    }

    /// Returns the picker label: `"{provider_name}/{model_id}"`.
    pub fn display_id(&self, provider_name: &str) -> (r: String)
        ensures
            r@ == provider_name@ + "/"@ + self.id@,
    {
        concat3(provider_name, "/", self.id.as_str())
    }
}

/// The host that must be allowed through the egress allowlist for a
/// provider: the host of its base URL, when the URL parses and has one.
pub fn egress_host(provider: &DirectProvider) -> (r: Option<String>)
    ensures
        r.deep_view() == url_host(provider.base_url@),
{
    parse_url_host(provider.base_url.as_str())
}

// ── Provider list ───────────────────────────────────────────────────────────

/// The position of the first key equal to `key`.
pub open spec fn first_index_of(keys: Seq<Seq<char>>, key: Seq<char>) -> Option<int>
    decreases keys.len(),
{
    if keys.len() == 0 {
        None
    } else if keys[0] == key {
        Some(0)
    } else {
        match first_index_of(keys.drop_first(), key) {
            Some(i) => Some(i + 1),
            None => None,
        }
    }
}

/// The position of the last key equal to `key`.
pub open spec fn last_index_of(keys: Seq<Seq<char>>, key: Seq<char>) -> Option<int>
    decreases keys.len(),
{
    if keys.len() == 0 {
        None
    } else if keys.last() == key {
        Some(keys.len() - 1)
    } else {
        last_index_of(keys.drop_last(), key)
    }
}

/// The first index of a key is the first position that holds it.
pub proof fn lemma_first_index_of(keys: Seq<Seq<char>>, key: Seq<char>, i: int)
    requires
        0 <= i <= keys.len(),
        forall|k: int| 0 <= k < i ==> keys[k] != key,
    ensures
        i < keys.len() && keys[i] == key ==> first_index_of(keys, key) == Some(i),
        i == keys.len() ==> first_index_of(keys, key) is None,
    decreases i,
{
    if i > 0 {
        lemma_first_index_of(keys.drop_first(), key, i - 1);
    } else if keys.len() > 0 && keys[0] != key {
    }
}

/// The first index of a key, when there is one, holds the key and no
/// earlier position does; when there is none, no position holds it.
pub proof fn lemma_first_index_of_bounds(keys: Seq<Seq<char>>, key: Seq<char>)
    ensures
        match first_index_of(keys, key) {
            Some(i) => 0 <= i < keys.len() && keys[i] == key && forall|k: int|
                0 <= k < i ==> keys[k] != key,
            None => forall|k: int| 0 <= k < keys.len() ==> keys[k] != key,
        },
    decreases keys.len(),
{
    if keys.len() > 0 {
        lemma_first_index_of_bounds(keys.drop_first(), key);
        if keys[0] != key {
            assert forall|k: int| 0 < k < keys.len() implies keys[k] == keys.drop_first()[k - 1] by {}
        }
    }
}

/// The last index of a key, when there is one, holds the key and no later
/// position does; when there is none, no position holds it.
pub proof fn lemma_last_index_of_bounds(keys: Seq<Seq<char>>, key: Seq<char>)
    ensures
        match last_index_of(keys, key) {
            Some(i) => 0 <= i < keys.len() && keys[i] == key && forall|k: int|
                i < k < keys.len() ==> keys[k] != key,
            None => forall|k: int| 0 <= k < keys.len() ==> keys[k] != key,
        },
    decreases keys.len(),
{
    if keys.len() > 0 {
        lemma_last_index_of_bounds(keys.drop_last(), key);
        if keys.last() != key {
            assert forall|k: int| 0 <= k < keys.len() - 1 implies keys[k] == keys.drop_last()[k] by {}
        }
    }
}

/// The ids of the providers, in order.
pub open spec fn provider_ids(ps: Seq<SpecDirectProvider>) -> Seq<Seq<char>> {
    ps.map_values(|p: SpecDirectProvider| p.id)
}

/// The config keys of the models, in order.
pub open spec fn model_keys(ms: Seq<SpecDirectProviderModel>) -> Seq<Seq<char>> {
    ms.map_values(|m: SpecDirectProviderModel| m.config_key)
}

/// The ids of the models, in order.
pub open spec fn model_ids(ms: Seq<SpecDirectProviderModel>) -> Seq<Seq<char>> {
    ms.map_values(|m: SpecDirectProviderModel| m.id)
}

/// The providers after an upsert: the first provider with the same id is
/// replaced, or the provider is appended when none has that id.
pub open spec fn spec_upsert(ps: Seq<SpecDirectProvider>, p: SpecDirectProvider) -> Seq<SpecDirectProvider> {
    match first_index_of(provider_ids(ps), p.id) {
        Some(i) => ps.update(i, p),
        None => ps.push(p),
    }
}

/// The providers without those whose id is `id`, in order.
pub open spec fn spec_remove(ps: Seq<SpecDirectProvider>, id: Seq<char>) -> Seq<SpecDirectProvider> {
    ps.filter_map(
        |p: SpecDirectProvider|
            if p.id == id {
                None
            } else {
                Some(p)
            },
    )
}

/// The location (provider index, model index) of the first model, in
/// provider order then model order, whose config key is `key`.
pub open spec fn spec_find_by_config_key(ps: Seq<SpecDirectProvider>, key: Seq<char>) -> Option<
    (int, int),
>
    decreases ps.len(),
{
    if ps.len() == 0 {
        None
    } else {
        match first_index_of(model_keys(ps[0].models), key) {
            Some(j) => Some((0, j)),
            None => match spec_find_by_config_key(ps.drop_first(), key) {
                Some((i, j)) => Some((i + 1, j)),
                None => None,
            },
        }
    }
}

/// The config key a refreshed model list gives to model `id`: the key of the
/// last known model with that id, if any.
pub open spec fn spec_known_config_key(old_models: Seq<SpecDirectProviderModel>, id: Seq<char>) -> Option<Seq<char>> {
    match last_index_of(model_ids(old_models), id) {
        Some(k) => Some(old_models[k].config_key),
        None => None,
    }
}

/// Whether `new_models` is a valid refresh of `old_models` to the ids
/// `ids`: one model per id, in order, each keeping the config key of a
/// known model with that id or getting a fresh random key otherwise.
pub open spec fn refreshed_models(
    old_models: Seq<SpecDirectProviderModel>,
    ids: Seq<Seq<char>>,
    new_models: Seq<SpecDirectProviderModel>,
) -> bool {
    &&& new_models.len() == ids.len()
    &&& forall|k: int|
        0 <= k < ids.len() ==> {
            &&& (#[trigger] new_models[k]).id == ids[k]
            &&& match spec_known_config_key(old_models, ids[k]) {
                Some(key) => new_models[k].config_key == key,
                None => is_uuid_v4_text(new_models[k].config_key),
            }
        }
}

/// Singleton that manages the list of `DirectProvider`s for the current user.
pub struct DirectProviderManager {
    providers: Vec<DirectProvider>,
}

/// Events emitted when the provider list changes.
#[derive(Clone, Debug, PartialEq)]
pub enum DirectProviderManagerEvent {
    ProvidersUpdated,
}

impl DirectProviderManager {
    /// The providers, in order.
    pub closed spec fn spec_providers(&self) -> Seq<SpecDirectProvider> {
        self.providers.deep_view()
    }

    /// A manager holding the providers loaded from storage.
    pub fn new(providers: Vec<DirectProvider>) -> (r: Self)
        ensures
            r.spec_providers() == providers.deep_view(),
    {
        DirectProviderManager { providers }
    }

    /// The providers, in order.
    pub fn providers(&self) -> (r: &[DirectProvider])
        ensures
            r.deep_view() == self.spec_providers(),
    {
        self.providers.as_slice()
    }

    /// The first provider whose id is `id`.
    pub fn find_by_id(&self, id: &str) -> (r: Option<&DirectProvider>)
        ensures
            match first_index_of(provider_ids(self.spec_providers()), id@) {
                Some(i) => r is Some && r->Some_0.deep_view() == self.spec_providers()[i],
                None => r is None,
            },
    {
        let ghost ps = self.spec_providers();
        let ghost ids = provider_ids(ps);
        let mut i: usize = 0;
        while i < self.providers.len()
            invariant
                i <= self.providers@.len(),
                ps == self.spec_providers(),
                ids == provider_ids(ps),
                ids.len() == self.providers@.len(),
                forall|k: int| 0 <= k < i ==> ids[k] != id@,
            decreases self.providers@.len() - i,
        {
            assert(ids[i as int] == self.providers@[i as int].id@);
            if text_eq(self.providers[i].id.as_str(), id) {
                proof {
                    lemma_first_index_of(ids, id@, i as int);
                }
                return Some(&self.providers[i]);
            }
            i = i + 1;
        }
        proof {
            lemma_first_index_of(ids, id@, i as int);
        }
        None
    }

    /// The provider and model whose config key is `config_key`: the first
    /// match, in provider order then model order.
    pub fn find_by_config_key(&self, config_key: &str) -> (r: Option<
        (&DirectProvider, &DirectProviderModel),
    >)
        ensures
            match r {
                Some((p, m)) => match spec_find_by_config_key(self.spec_providers(), config_key@) {
                    Some((i, j)) => 0 <= i < self.spec_providers().len() && p.deep_view()
                        == self.spec_providers()[i] && 0 <= j < p.models@.len() && m.deep_view()
                        == p.deep_view().models[j],
                    None => false,
                },
                None => spec_find_by_config_key(self.spec_providers(), config_key@) is None,
            },
    {
        let ghost ps = self.spec_providers();
        let mut i: usize = 0;
        assert(ps.skip(0) =~= ps);
        while i < self.providers.len()
            invariant
                i <= self.providers@.len(),
                ps == self.spec_providers(),
                ps.len() == self.providers@.len(),
                spec_find_by_config_key(ps, config_key@) == match spec_find_by_config_key(
                    ps.skip(i as int),
                    config_key@,
                ) {
                    Some((a, b)) => Some((a + i, b)),
                    None => None,
                },
            decreases self.providers@.len() - i,
        {
            let provider = &self.providers[i];
            assert(ps[i as int] == provider.deep_view());
            let ghost keys = model_keys(provider.models.deep_view());
            let mut j: usize = 0;
            while j < provider.models.len()
                invariant
                    i < self.providers@.len(),
                    ps == self.spec_providers(),
                    ps.len() == self.providers@.len(),
                    ps[i as int] == provider.deep_view(),
                    spec_find_by_config_key(ps, config_key@) == match spec_find_by_config_key(
                        ps.skip(i as int),
                        config_key@,
                    ) {
                        Some((a, b)) => Some((a + i, b)),
                        None => None,
                    },
                    j <= provider.models@.len(),
                    keys == model_keys(provider.models.deep_view()),
                    keys.len() == provider.models@.len(),
                    forall|k: int| 0 <= k < j ==> keys[k] != config_key@,
                decreases provider.models@.len() - j,
            {
                assert(keys[j as int] == provider.models@[j as int].config_key@);
                if text_eq(provider.models[j].config_key.as_str(), config_key) {
                    proof {
                        lemma_first_index_of(keys, config_key@, j as int);
                        assert(ps.skip(i as int)[0] == ps[i as int]);
                        assert(spec_find_by_config_key(ps.skip(i as int), config_key@) == Some(
                            (0int, j as int),
                        ));
                        assert(provider.models@[j as int].deep_view()
                            == provider.deep_view().models[j as int]);
                    }
                    return Some((provider, &provider.models[j]));
                }
                j = j + 1;
            }
            proof {
                lemma_first_index_of(keys, config_key@, j as int);
                assert(ps.skip(i as int)[0] == ps[i as int]);
                assert(ps.skip(i as int).drop_first() =~= ps.skip(i + 1));
            }
            i = i + 1;
        }
        None
    }

    /// Insert `provider`, replacing the first provider with the same id.
    pub fn upsert_provider(&mut self, provider: DirectProvider)
        ensures
            final(self).spec_providers() == spec_upsert(
                old(self).spec_providers(),
                provider.deep_view(),
            ),
    {
        let ghost ps = self.spec_providers();
        let ghost ids = provider_ids(ps);
        let mut i: usize = 0;
        while i < self.providers.len()
            invariant
                i <= self.providers@.len(),
                ps == self.spec_providers(),
                ps == old(self).spec_providers(),
                ids == provider_ids(ps),
                ids.len() == self.providers@.len(),
                forall|k: int| 0 <= k < i ==> ids[k] != provider.id@,
            decreases self.providers@.len() - i,
        {
            assert(ids[i as int] == self.providers@[i as int].id@);
            if text_eq(self.providers[i].id.as_str(), provider.id.as_str()) {
                proof {
                    lemma_first_index_of(ids, provider.id@, i as int);
                }
                let ghost pv = provider.deep_view();
                assert(pv.id == provider.id@);
                assert(spec_upsert(ps, pv) == ps.update(i as int, pv));
                self.providers.set(i, provider);
                assert(self.spec_providers() =~= ps.update(i as int, pv));
                return;
            }
            i = i + 1;
        }
        proof {
            lemma_first_index_of(ids, provider.id@, i as int);
        }
        let ghost pv = provider.deep_view();
        self.providers.push(provider);
        assert(self.spec_providers() =~= ps.push(pv));
    }

    /// Remove every provider whose id is `id`, keeping the order of the others.
    pub fn remove_provider(&mut self, id: &str)
        ensures
            final(self).spec_providers() == spec_remove(old(self).spec_providers(), id@),
    {
        let ghost ps = self.spec_providers();
        let mut old_list: Vec<DirectProvider> = Vec::new();
        std::mem::swap(&mut old_list, &mut self.providers);
        let n = old_list.len();
        assert forall|k: int| 0 <= k < old_list@.len() implies (#[trigger] old_list@[k]).deep_view() == ps[k] by {}
        // Take the providers out in reverse, then keep the others in order.
        let mut rev: Vec<DirectProvider> = Vec::new();
        while old_list.len() > 0
            invariant
                old_list@.len() + rev@.len() == ps.len(),
                forall|k: int| 0 <= k < old_list@.len() ==> (#[trigger] old_list@[k]).deep_view() == ps[k],
                forall|k: int|
                    0 <= k < rev@.len() ==> (#[trigger] rev@[k]).deep_view() == ps[ps.len() - 1 - k],
            decreases old_list@.len(),
        {
            let p = old_list.pop().unwrap();
            rev.push(p);
        }
        let mut kept: Vec<DirectProvider> = Vec::new();
        let mut i: usize = 0;
        while rev.len() > 0
            invariant
                i + rev@.len() == ps.len(),
                ps.len() == n,
                forall|k: int|
                    0 <= k < rev@.len() ==> (#[trigger] rev@[k]).deep_view() == ps[ps.len() - 1 - k],
                kept.deep_view() =~= spec_remove(ps.take(i as int), id@),
            decreases rev@.len(),
        {
            let p = rev.pop().unwrap();
            assert(p.deep_view() == ps[i as int]);
            assert(ps.take(i + 1).drop_last() =~= ps.take(i as int));
            if !text_eq(p.id.as_str(), id) {
                kept.push(p);
            }
            assert(kept.deep_view() =~= spec_remove(ps.take(i + 1), id@));
            i = i + 1;
        }
        assert(ps.take(ps.len() as int) =~= ps);
        self.providers = kept;
    }

    /// Replace the model list of the provider `provider_id` (the first with
    /// that id) by one model per id of `model_ids`, keeping the config keys
    /// of models that are already known so that stored model selections stay
    /// valid. Returns whether such a provider exists; when none does,
    /// nothing changes.
    pub fn set_models(&mut self, provider_id: &str, model_ids: Vec<String>) -> (found: bool)
        ensures
            match first_index_of(provider_ids(old(self).spec_providers()), provider_id@) {
                Some(i) => {
                    &&& found
                    &&& final(self).spec_providers().len() == old(self).spec_providers().len()
                    &&& forall|k: int|
                        0 <= k < old(self).spec_providers().len() && k != i ==> (
                        #[trigger] final(self).spec_providers()[k]) == old(
                        self,
                    ).spec_providers()[k]
                    &&& final(self).spec_providers()[i].id == old(self).spec_providers()[i].id
                    &&& final(self).spec_providers()[i].name == old(self).spec_providers()[i].name
                    &&& final(self).spec_providers()[i].base_url == old(
                        self,
                    ).spec_providers()[i].base_url
                    &&& final(self).spec_providers()[i].api_key == old(
                        self,
                    ).spec_providers()[i].api_key
                    &&& final(self).spec_providers()[i].default_headers == old(
                        self,
                    ).spec_providers()[i].default_headers
                    &&& refreshed_models(
                        old(self).spec_providers()[i].models,
                        model_ids.deep_view(),
                        final(self).spec_providers()[i].models,
                    )
                },
                None => !found && final(self).spec_providers() == old(self).spec_providers(),
            },
    {
        let ghost ps = self.spec_providers();
        let ghost ids = provider_ids(ps);
        let mut i: usize = 0;
        while i < self.providers.len()
            invariant
                i <= self.providers@.len(),
                ps == self.spec_providers(),
                ps == old(self).spec_providers(),
                ids == provider_ids(ps),
                ids.len() == self.providers@.len(),
                forall|k: int| 0 <= k < i ==> ids[k] != provider_id@,
            decreases self.providers@.len() - i,
        {
            assert(ids[i as int] == self.providers@[i as int].id@);
            if text_eq(self.providers[i].id.as_str(), provider_id) {
                proof {
                    lemma_first_index_of(ids, provider_id@, i as int);
                }
                let new_models = refresh_models(&self.providers[i].models, &model_ids);
                assert(ps[i as int] == self.providers@[i as int].deep_view());
                let mut p = self.providers[i].clone();
                p.models = new_models;
                let ghost pv = p.deep_view();
                assert(pv.id == ps[i as int].id);
                assert(pv.default_headers == ps[i as int].default_headers);
                self.providers.set(i, p);
                assert(self.spec_providers() =~= ps.update(i as int, pv));
                return true;
            }
            i = i + 1;
        }
        proof {
            lemma_first_index_of(ids, provider_id@, i as int);
        }
        false
    }
}

/// The config key of the last model of `models` whose id is `id`.
fn known_config_key(models: &Vec<DirectProviderModel>, id: &str) -> (r: Option<String>)
    ensures
        r.deep_view() == spec_known_config_key(models.deep_view(), id@),
{
    let ghost ms = models.deep_view();
    let mut i: usize = models.len();
    assert(ms.take(i as int) =~= ms);
    while i > 0
        invariant
            i <= models@.len(),
            ms == models.deep_view(),
            ms.len() == models@.len(),
            last_index_of(model_ids(ms), id@) == last_index_of(model_ids(ms.take(i as int)), id@),
        decreases i,
    {
        let ghost pre = model_ids(ms.take(i as int));
        assert(pre.drop_last() =~= model_ids(ms.take(i - 1)));
        assert(pre.last() == models@[i - 1].id@);
        if text_eq(models[i - 1].id.as_str(), id) {
            return Some(models[i - 1].config_key.clone());
        }
        i = i - 1;
    }
    None
}

/// One model per id, in order, keeping known config keys.
fn refresh_models(old_models: &Vec<DirectProviderModel>, ids: &Vec<String>) -> (r: Vec<
    DirectProviderModel,
>)
    ensures
        refreshed_models(old_models.deep_view(), ids.deep_view(), r.deep_view()),
{
    let mut r: Vec<DirectProviderModel> = Vec::new();
    let mut k: usize = 0;
    while k < ids.len()
        invariant
            k <= ids@.len(),
            r@.len() == k,
            forall|q: int|
                0 <= q < k ==> {
                    &&& (#[trigger] r.deep_view()[q]).id == ids.deep_view()[q]
                    &&& match spec_known_config_key(old_models.deep_view(), ids.deep_view()[q]) {
                        Some(key) => r.deep_view()[q].config_key == key,
                        None => is_uuid_v4_text(r.deep_view()[q].config_key),
                    }
                },
        decreases ids@.len() - k,
    {
        let config_key = match known_config_key(old_models, ids[k].as_str()) {
            Some(key) => key,
            None => new_uuid_text(),
        };
        let ghost before = r.deep_view();
        let m = DirectProviderModel { id: ids[k].clone(), config_key };
        assert(ids.deep_view()[k as int] == ids@[k as int]@);
        let ghost mv = m.deep_view();
        r.push(m);
        assert(r.deep_view() =~= before.push(mv));
        k = k + 1;
    }
    r
}

// ── Calls to a provider ─────────────────────────────────────────────────────

/// The provider endpoint and model a turn is sent to.
#[derive(Clone, Debug, PartialEq)]
pub struct DirectProviderConfig {
    pub model_id: String,
    pub base_url: String,
    pub api_key: String,
    pub extra_headers: Vec<(String, String)>,
}

/// The call that lists a provider's models: `GET {base_url}/v1/models` with
/// the bearer token (when the key is not empty) and the valid extra headers.
pub fn models_request(base_url: &str, api_key: &str, extra_headers: &Vec<(String, String)>) -> (r:
    HttpCall)
    ensures
        r.deep_view() == spec_http_call(
            spec_endpoint_url(base_url@, "/v1/models"@),
            api_key@,
            extra_headers.deep_view(),
        ),
{
    let base = trim_end_char(base_url, '/');
    let url = concat2(base.as_str(), "/v1/models");
    plan_http_call(url, api_key, extra_headers)
}

/// The call that runs a chat completion for `config`:
/// `POST {base_url}/v1/chat/completions`.
pub fn chat_completions_request(config: &DirectProviderConfig) -> (r: HttpCall)
    ensures
        r.deep_view() == spec_http_call(
            spec_endpoint_url(config.base_url@, "/v1/chat/completions"@),
            config.api_key@,
            config.extra_headers.deep_view(),
        ),
{
    let base = trim_end_char(config.base_url.as_str(), '/');
    let url = concat2(base.as_str(), "/v1/chat/completions");
    plan_http_call(url, config.api_key.as_str(), &config.extra_headers)
}

/// The model ids of a `/v1/models` listing, sorted alphabetically.
pub fn sorted_model_ids(ids: Vec<String>) -> (r: Vec<String>)
    ensures
        texts_sorted(r@),
        r@.to_multiset() == ids@.to_multiset(),
{
    sort_texts(ids)
}

} // verus!
