use direct_inference::modal::{
    DirectProviderModal, DirectProviderModalAction, DirectProviderModalEvent, ProviderFormText,
};
use direct_inference::providers::{DirectProvider, DirectProviderManager, DirectProviderModel};

fn texts(name: &str, url: &str, key: &str) -> ProviderFormText {
    ProviderFormText { name: name.to_string(), base_url: url.to_string(), api_key: key.to_string() }
}

fn stored() -> DirectProvider {
    let mut p = DirectProvider::new("ollama".to_string(), "http://localhost:11434".to_string());
    p.id = "p1".to_string();
    p.api_key = "old".to_string();
    p.default_headers = vec![("X-A".to_string(), "1".to_string())];
    p.models = vec![DirectProviderModel { id: "llama".to_string(), config_key: "k".to_string() }];
    p
}

#[test]
fn new_dialog_has_no_remove_button() {
    let modal = DirectProviderModal::new();
    assert!(!modal.shows_remove_button());
}

#[test]
fn prefill_new_clears_fields() {
    let mut modal = DirectProviderModal::new();
    modal.prefill_edit(&stored());
    let form = modal.prefill_new();
    assert_eq!(form, texts("", "", ""));
    assert!(!modal.shows_remove_button());
}

#[test]
fn prefill_edit_shows_provider() {
    let mut modal = DirectProviderModal::new();
    let form = modal.prefill_edit(&stored());
    assert_eq!(form, texts("ollama", "http://localhost:11434", "old"));
    assert!(modal.shows_remove_button());
}

#[test]
fn cancel_closes() {
    let modal = DirectProviderModal::new();
    let mgr = DirectProviderManager::new(vec![]);
    assert_eq!(
        modal.handle_action(DirectProviderModalAction::Cancel, &texts("a", "b", "c"), &mgr),
        Some(DirectProviderModalEvent::Close)
    );
}

#[test]
fn save_new_provider_trims_fields() {
    let modal = DirectProviderModal::new();
    let mgr = DirectProviderManager::new(vec![stored()]);
    let ev = modal.handle_action(
        DirectProviderModalAction::Save,
        &texts("  mine \n", "\thttp://h:1/ ", " sk "),
        &mgr,
    );
    match ev {
        Some(DirectProviderModalEvent::Save { provider }) => {
            assert_eq!(provider.name, "mine");
            assert_eq!(provider.base_url, "http://h:1/");
            assert_eq!(provider.api_key, "sk");
            assert_eq!(provider.id.len(), 36);
            assert_ne!(provider.id, "p1");
            assert!(provider.models.is_empty());
            assert!(provider.default_headers.is_empty());
        }
        other => panic!("unexpected {:?}", other),
    }
}

#[test]
fn save_edited_provider_keeps_id_headers_and_models() {
    let mut modal = DirectProviderModal::new();
    let mgr = DirectProviderManager::new(vec![stored()]);
    modal.prefill_edit(&stored());
    let ev = modal.handle_action(DirectProviderModalAction::Save, &texts("renamed", "http://new", ""), &mgr);
    let mut expected = stored();
    expected.name = "renamed".to_string();
    expected.base_url = "http://new".to_string();
    expected.api_key = "".to_string();
    assert_eq!(ev, Some(DirectProviderModalEvent::Save { provider: expected }));
}

#[test]
fn save_edit_of_vanished_provider_makes_new_one() {
    let mut modal = DirectProviderModal::new();
    modal.prefill_edit(&stored());
    let mgr = DirectProviderManager::new(vec![]);
    match modal.handle_action(DirectProviderModalAction::Save, &texts("x", "y", "z"), &mgr) {
        Some(DirectProviderModalEvent::Save { provider }) => {
            assert_ne!(provider.id, "p1");
            assert!(provider.models.is_empty());
        }
        other => panic!("unexpected {:?}", other),
    }
}

#[test]
fn remove_only_when_editing() {
    let mut modal = DirectProviderModal::new();
    let mgr = DirectProviderManager::new(vec![stored()]);
    assert_eq!(modal.handle_action(DirectProviderModalAction::Remove, &texts("", "", ""), &mgr), None);
    modal.prefill_edit(&stored());
    assert_eq!(
        modal.handle_action(DirectProviderModalAction::Remove, &texts("", "", ""), &mgr),
        Some(DirectProviderModalEvent::Remove { provider_id: "p1".to_string() })
    );
}
