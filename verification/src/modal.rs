//! The add/edit dialog for a direct provider: which provider the form edits,
//! what it shows, and what its buttons produce.

use vstd::prelude::*;

use crate::ids::{is_uuid_v4_text, new_uuid_text};
use crate::providers::{
    first_index_of, provider_ids, DirectProvider, DirectProviderManager, SpecDirectProvider,
};
use crate::text::{spec_trim, trim_whitespace};

verus! {

/// What the dialog asks of its owner.
#[derive(Clone, Debug, PartialEq)]
pub enum DirectProviderModalEvent {
    Close,
    Save { provider: DirectProvider },
    Remove { provider_id: String },
}

pub enum SpecDirectProviderModalEvent {
    Close,
    Save { provider: SpecDirectProvider },
    Remove { provider_id: Seq<char> },
}

impl DeepView for DirectProviderModalEvent {
    type V = SpecDirectProviderModalEvent;

    open spec fn deep_view(&self) -> SpecDirectProviderModalEvent {
        match self {
            DirectProviderModalEvent::Close => SpecDirectProviderModalEvent::Close,
            DirectProviderModalEvent::Save { provider } => SpecDirectProviderModalEvent::Save {
                provider: provider.deep_view(),
            },
            DirectProviderModalEvent::Remove { provider_id } =>
                SpecDirectProviderModalEvent::Remove { provider_id: provider_id@ },
        }
    }
}

/// The buttons of the dialog.
#[derive(Clone, Copy, PartialEq, Eq, Structural, Debug)]
pub enum DirectProviderModalAction {
    Cancel,
    Save,
    Remove,
}

/// The texts of the dialog's three fields.
#[derive(Clone, Debug, PartialEq)]
pub struct ProviderFormText {
    pub name: String,
    pub base_url: String,
    pub api_key: String,
}

pub struct SpecProviderFormText {
    pub name: Seq<char>,
    pub base_url: Seq<char>,
    pub api_key: Seq<char>,
}

impl DeepView for ProviderFormText {
    type V = SpecProviderFormText;

    open spec fn deep_view(&self) -> SpecProviderFormText {
        SpecProviderFormText {
            name: self.name@,
            base_url: self.base_url@,
            api_key: self.api_key@,
        }
    }
}

/// Whether `r` is the provider the form describes: the trimmed field texts,
/// and, when the form edits a provider that still exists, that provider's
/// id, headers and models; otherwise a fresh id and no headers or models.
pub open spec fn form_provider(
    editing_id: Option<Seq<char>>,
    texts: SpecProviderFormText,
    ps: Seq<SpecDirectProvider>,
    r: SpecDirectProvider,
) -> bool {
    let fresh = is_uuid_v4_text(r.id) && r.default_headers.len() == 0 && r.models.len() == 0;
    &&& r.name == spec_trim(texts.name)
    &&& r.base_url == spec_trim(texts.base_url)
    &&& r.api_key == spec_trim(texts.api_key)
    &&& match editing_id {
        Some(id) => match first_index_of(provider_ids(ps), id) {
            Some(i) => r.id == ps[i].id && r.default_headers == ps[i].default_headers && r.models
                == ps[i].models,
            None => fresh,
        },
        None => fresh,
    }
}

/// The state of the dialog: the id of the provider being edited, `None`
/// when adding a new one.
#[derive(Debug, PartialEq, Eq)]
pub struct DirectProviderModal {
    editing_id: Option<String>,
}

impl DirectProviderModal {
    /// The id of the provider being edited.
    pub closed spec fn spec_editing_id(&self) -> Option<Seq<char>> {
        self.editing_id.deep_view()
    }

    /// A dialog for a new provider.
    pub fn new() -> (r: Self)
        ensures
            r.spec_editing_id() is None,
    {
        DirectProviderModal { editing_id: None }
    }

    /// Prepare the dialog for a new provider: all fields empty.
    pub fn prefill_new(&mut self) -> (r: ProviderFormText)
        ensures
            final(self).spec_editing_id() is None,
            r.name@.len() == 0,
            r.base_url@.len() == 0,
            r.api_key@.len() == 0,
    {
        self.editing_id = None;
        ProviderFormText { name: String::new(), base_url: String::new(), api_key: String::new() }
    }

    /// Prepare the dialog for editing `provider`: its name, URL and key.
    pub fn prefill_edit(&mut self, provider: &DirectProvider) -> (r: ProviderFormText)
        ensures
            final(self).spec_editing_id() == Some(provider.id@),
            r.name == provider.name,
            r.base_url == provider.base_url,
            r.api_key == provider.api_key,
    {
        self.editing_id = Some(provider.id.clone());
        ProviderFormText {
            name: provider.name.clone(),
            base_url: provider.base_url.clone(),
            api_key: provider.api_key.clone(),
        }
    }

    /// Whether the dialog shows its Remove button (only when editing).
    pub fn shows_remove_button(&self) -> (r: bool)
        ensures
            r == self.spec_editing_id() is Some,
    {
        self.editing_id.is_some()
    }

    /// The provider the form describes.
    pub fn read_provider(&self, texts: &ProviderFormText, manager: &DirectProviderManager) -> (r:
        DirectProvider)
        ensures
            form_provider(
                self.spec_editing_id(),
                texts.deep_view(),
                manager.spec_providers(),
                r.deep_view(),
            ),
    {
        let name = trim_whitespace(texts.name.as_str());
        let base_url = trim_whitespace(texts.base_url.as_str());
        let api_key = trim_whitespace(texts.api_key.as_str());

        if let Some(id) = &self.editing_id {
            if let Some(existing) = manager.find_by_id(id.as_str()) {
                let existing = existing.clone();
                return DirectProvider {
                    id: existing.id,
                    name,
                    base_url,
                    api_key,
                    default_headers: existing.default_headers,
                    models: existing.models,
                };
            }
        }
        let r = DirectProvider {
            id: new_uuid_text(),
            name,
            base_url,
            api_key,
            default_headers: Vec::new(),
            models: Vec::new(),
        };
        assert(r.default_headers.deep_view().len() == 0);
        assert(r.models.deep_view().len() == 0);
        r
    }

    /// What a button press asks of the owner: Cancel closes, Save hands over
    /// the provider the form describes, Remove (only when editing) asks to
    /// remove the edited provider.
    pub fn handle_action(
        &self,
        action: DirectProviderModalAction,
        texts: &ProviderFormText,
        manager: &DirectProviderManager,
    ) -> (r: Option<DirectProviderModalEvent>)
        ensures
            match action {
                DirectProviderModalAction::Cancel => r matches Some(
                    DirectProviderModalEvent::Close,
                ),
                DirectProviderModalAction::Save => match r {
                    Some(DirectProviderModalEvent::Save { provider }) => form_provider(
                        self.spec_editing_id(),
                        texts.deep_view(),
                        manager.spec_providers(),
                        provider.deep_view(),
                    ),
                    _ => false,
                },
                DirectProviderModalAction::Remove => match self.spec_editing_id() {
                    Some(id) => match r {
                        Some(DirectProviderModalEvent::Remove { provider_id }) => provider_id@
                            == id,
                        _ => false,
                    },
                    None => r is None,
                },
            },
    {
        match action {
            DirectProviderModalAction::Cancel => Some(DirectProviderModalEvent::Close),
            DirectProviderModalAction::Save => {
                let provider = self.read_provider(texts, manager);
                Some(DirectProviderModalEvent::Save { provider })
            },
            DirectProviderModalAction::Remove => match &self.editing_id {
                Some(id) => Some(DirectProviderModalEvent::Remove { provider_id: id.clone() }),
                None => None,
            },
        }
    }
}

} // verus!
