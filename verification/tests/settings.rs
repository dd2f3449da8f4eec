use claustre::store::ProviderKind;
use claustre::settings::{
    ClaudeConfig, Config, GitHubAppConfig, KeymapConfig, NotificationRules, NotificationsConfig,
    ReviewLoopConfig, RuntimeConfig, SettingsEditTarget, SettingsError, UiConfig,
};

/// A model name: the agent's identifier and the model's own name.
fn model(name: &str) -> String {
    format!("{}-{name}", format!("{:?}", ProviderKind::Claude).to_lowercase())
}

fn default_config() -> Config {
    Config {
        claude: ClaudeConfig { model: model("opus-4-6"), effort: "medium".to_string() },
        ui: UiConfig {
            keymap: KeymapConfig { preset: "default".to_string(), leader: "space".to_string() },
        },
        notifications: NotificationsConfig {
            enabled: false,
            system: false,
            command: "say".to_string(),
            template: "done".to_string(),
            rules: NotificationRules {
                ask_user: true,
                approval_required: true,
                run_complete: true,
                review_requested: true,
                ci_failed: true,
            },
        },
        review_loop: ReviewLoopConfig { poll_interval_secs: 30, prompt: None },
        runtime: RuntimeConfig { default_profile: None, sandbox_path: None, attachments_dir: None },
        github_app: GitHubAppConfig {
            client_id: None,
            app_slug: None,
            install_url: None,
            relay_url: None,
            default_installation_id: None,
            default_project_id: None,
        },
        remote_enabled: false,
        auto_update: false,
        sync_auto_push: false,
        rtk_enabled: false,
    }
}

#[test]
fn settings_edit_target_updates_ai_provider_fields() {
    let mut config = default_config();
    SettingsEditTarget::ClaudeModel.apply(&mut config, &model("sonnet-4")).unwrap();
    SettingsEditTarget::ClaudeEffort.apply(&mut config, "high").unwrap();
    assert_eq!(config.claude.model, model("sonnet-4"));
    assert_eq!(config.claude.effort, "high");
}

#[test]
fn settings_edit_target_validates_review_loop_interval() {
    let mut config = default_config();
    assert!(SettingsEditTarget::ReviewLoopInterval.apply(&mut config, "abc").is_err());
    SettingsEditTarget::ReviewLoopInterval.apply(&mut config, "45").unwrap();
    assert_eq!(config.review_loop.poll_interval_secs, 45);
    SettingsEditTarget::ReviewLoopInterval.apply(&mut config, " +007 ").unwrap();
    assert_eq!(SettingsEditTarget::ReviewLoopInterval.current_value(&config), "7");
}

#[test]
fn every_settings_error_has_an_input() {
    let mut config = default_config();
    let cases = [
        (SettingsEditTarget::ClaudeModel, " ", SettingsError::EmptyClaudeModel, "Agent model cannot be empty"),
        (SettingsEditTarget::ClaudeEffort, "", SettingsError::EmptyClaudeEffort, "Agent effort cannot be empty"),
        (SettingsEditTarget::KeymapPreset, "\t", SettingsError::EmptyKeymapPreset, "Keymap preset cannot be empty"),
        (SettingsEditTarget::KeymapLeader, "", SettingsError::EmptyLeaderKey, "Leader key cannot be empty"),
        (SettingsEditTarget::NotificationCommand, "", SettingsError::EmptyNotificationCommand, "Notification command cannot be empty"),
        (SettingsEditTarget::NotificationTemplate, "", SettingsError::EmptyNotificationTemplate, "Notification template cannot be empty"),
        (SettingsEditTarget::ReviewLoopInterval, "-1", SettingsError::IntervalNotInteger, "Review loop interval must be an integer"),
        (SettingsEditTarget::ReviewLoopInterval, "18446744073709551616", SettingsError::IntervalNotInteger, "Review loop interval must be an integer"),
        (SettingsEditTarget::ReviewLoopInterval, "0", SettingsError::IntervalZero, "Review loop interval must be greater than zero"),
    ];
    for (target, value, error, message) in cases {
        assert_eq!(target.apply(&mut config, value), Err(error));
        assert_eq!(error.message("Agent"), message);
    }
    assert_eq!(config.review_loop.poll_interval_secs, 30);
    assert_eq!(config.claude.model, model("opus-4-6"));
}

#[test]
fn settings_read_back_trimmed() {
    let mut config = default_config();
    SettingsEditTarget::RelayUrl.apply(&mut config, "  https://relay \n").unwrap();
    assert_eq!(config.github_app.relay_url.as_deref(), Some("https://relay"));
    assert_eq!(SettingsEditTarget::RelayUrl.current_value(&config), "https://relay");
    SettingsEditTarget::RelayUrl.apply(&mut config, "   ").unwrap();
    assert_eq!(config.github_app.relay_url, None);
    assert_eq!(SettingsEditTarget::RelayUrl.current_value(&config), "");
    SettingsEditTarget::ReviewLoopInterval.apply(&mut config, " +0045 ").unwrap();
    assert_eq!(SettingsEditTarget::ReviewLoopInterval.current_value(&config), "45");
    SettingsEditTarget::WorkflowName.apply(&mut config, "renamed").unwrap();
    assert_eq!(SettingsEditTarget::WorkflowName.current_value(&config), "");
    assert_eq!(SettingsEditTarget::InstallationId.label("Agent"), "Default Installation");
}
