//! The configuration that the settings view edits.

use vstd::prelude::*;
use vstd::string::*;

use crate::text::{
    decimal, format_number, is_blank, lemma_decimal_reads_back, parse_u64, parsed_u64, trim,
    trimmed,
};

verus! {

pub struct ClaudeConfig {
    pub model: String,
    pub effort: String,
}

pub struct KeymapConfig {
    pub preset: String,
    pub leader: String,
}

pub struct UiConfig {
    pub keymap: KeymapConfig,
}

/// Which events send a notification.
#[derive(Clone, Copy, Debug, PartialEq, Eq, Structural)]
pub struct NotificationRules {
    pub ask_user: bool,
    pub approval_required: bool,
    pub run_complete: bool,
    pub review_requested: bool,
    pub ci_failed: bool,
}

pub struct NotificationsConfig {
    pub enabled: bool,
    pub system: bool,
    pub command: String,
    pub template: String,
    pub rules: NotificationRules,
}

pub struct ReviewLoopConfig {
    pub poll_interval_secs: u64,
    pub prompt: Option<String>,
}

pub struct RuntimeConfig {
    pub default_profile: Option<String>,
    pub sandbox_path: Option<String>,
    pub attachments_dir: Option<String>,
}

pub struct GitHubAppConfig {
    pub client_id: Option<String>,
    pub app_slug: Option<String>,
    pub install_url: Option<String>,
    pub relay_url: Option<String>,
    pub default_installation_id: Option<String>,
    pub default_project_id: Option<String>,
}

pub struct Config {
    pub claude: ClaudeConfig,
    pub ui: UiConfig,
    pub notifications: NotificationsConfig,
    pub review_loop: ReviewLoopConfig,
    pub runtime: RuntimeConfig,
    pub github_app: GitHubAppConfig,
    pub remote_enabled: bool,
    pub auto_update: bool,
    pub sync_auto_push: bool,
    pub rtk_enabled: bool,
}

/// The characters of a text that may be absent.
pub open spec fn text_option(o: Option<String>) -> Option<Seq<char>> {
    match o {
        Some(s) => Some(s@),
        None => None,
    }
}

/// An absent text counts as empty.
pub open spec fn text_or_empty(o: Option<String>) -> Seq<char> {
    match o {
        Some(s) => s@,
        None => seq![],
    }
}

/// Copy of a text that may be absent.
pub fn clone_text(o: &Option<String>) -> (r: Option<String>)
    ensures
        r == *o,
{
    match o {
        Some(s) => Some(s.clone()),
        None => None,
    }
}

pub fn unwrap_text(o: &Option<String>) -> (r: String)
    ensures
        r@ == text_or_empty(*o),
{
    match o {
        Some(s) => s.clone(),
        None => String::new(),
    }
}

/// Absent where the text is blank, else the trimmed text.
pub open spec fn present_text(value: Seq<char>) -> Option<Seq<char>> {
    if is_blank(value) {
        None
    } else {
        Some(trimmed(value))
    }
}

/// Why a settings value was refused.
#[derive(Clone, Copy, Debug, PartialEq, Eq, Structural)]
pub enum SettingsError {
    EmptyClaudeModel,
    EmptyClaudeEffort,
    EmptyKeymapPreset,
    EmptyLeaderKey,
    EmptyNotificationCommand,
    EmptyNotificationTemplate,
    IntervalNotInteger,
    IntervalZero,
}

/// The message of an error, for an agent of the given name.
pub open spec fn settings_error_message(e: SettingsError, agent: Seq<char>) -> Seq<char> {
    match e {
        SettingsError::EmptyClaudeModel => agent + " model cannot be empty"@,
        SettingsError::EmptyClaudeEffort => agent + " effort cannot be empty"@,
        SettingsError::EmptyKeymapPreset => "Keymap preset cannot be empty"@,
        SettingsError::EmptyLeaderKey => "Leader key cannot be empty"@,
        SettingsError::EmptyNotificationCommand => "Notification command cannot be empty"@,
        SettingsError::EmptyNotificationTemplate => "Notification template cannot be empty"@,
        SettingsError::IntervalNotInteger => "Review loop interval must be an integer"@,
        SettingsError::IntervalZero => "Review loop interval must be greater than zero"@,
    }
}

impl SettingsError {
    pub fn message(self, agent: &str) -> (r: String)
        ensures
            r@ == settings_error_message(self, agent@),
    {
        match self {
            SettingsError::EmptyClaudeModel => agent.to_owned().concat(" model cannot be empty"),
            SettingsError::EmptyClaudeEffort => agent.to_owned().concat(" effort cannot be empty"),
            SettingsError::EmptyKeymapPreset => "Keymap preset cannot be empty".to_owned(),
            SettingsError::EmptyLeaderKey => "Leader key cannot be empty".to_owned(),
            SettingsError::EmptyNotificationCommand => "Notification command cannot be empty".to_owned(),
            SettingsError::EmptyNotificationTemplate => "Notification template cannot be empty".to_owned(),
            SettingsError::IntervalNotInteger => "Review loop interval must be an integer".to_owned(),
            SettingsError::IntervalZero => "Review loop interval must be greater than zero".to_owned(),
        }
    }
}

/// The setting that an edit changes.
#[derive(Clone, Copy, Debug, PartialEq, Eq, Structural)]
pub enum SettingsEditTarget {
    ClaudeModel,
    ClaudeEffort,
    KeymapPreset,
    KeymapLeader,
    NotificationCommand,
    NotificationTemplate,
    ReviewLoopInterval,
    ReviewLoopPrompt,
    RuntimeDefaultProfile,
    RuntimeSandboxPath,
    RuntimeAttachmentsDir,
    WorkflowName,
    ClientId,
    AppSlug,
    InstallUrl,
    RelayUrl,
    InstallationId,
}

/// The label of a setting, for an agent of the given name.
pub open spec fn settings_edit_target_label(t: SettingsEditTarget, agent: Seq<char>) -> Seq<char> {
    match t {
        SettingsEditTarget::ClaudeModel => agent + " Model"@,
        SettingsEditTarget::ClaudeEffort => agent + " Effort"@,
        SettingsEditTarget::KeymapPreset => "Keymap Preset"@,
        SettingsEditTarget::KeymapLeader => "Leader Key"@,
        SettingsEditTarget::NotificationCommand => "Notification Command"@,
        SettingsEditTarget::NotificationTemplate => "Notification Template"@,
        SettingsEditTarget::ReviewLoopInterval => "Review Loop Poll Interval"@,
        SettingsEditTarget::ReviewLoopPrompt => "Review Loop Prompt"@,
        SettingsEditTarget::RuntimeDefaultProfile => "Default Runtime Profile"@,
        SettingsEditTarget::RuntimeSandboxPath => "Sandbox Path"@,
        SettingsEditTarget::RuntimeAttachmentsDir => "Attachments Directory"@,
        SettingsEditTarget::WorkflowName => "Workflow Name"@,
        SettingsEditTarget::ClientId => "GitHub Client ID"@,
        SettingsEditTarget::AppSlug => "GitHub App Slug"@,
        SettingsEditTarget::InstallUrl => "GitHub Install URL"@,
        SettingsEditTarget::RelayUrl => "GitHub Relay URL"@,
        SettingsEditTarget::InstallationId => "Default Installation"@,
    }
}

/// What the configuration holds for a setting; `None` where it holds nothing. The
/// name of a workflow is not part of the configuration.
pub open spec fn setting(config: Config, target: SettingsEditTarget) -> Option<Seq<char>> {
    match target {
        SettingsEditTarget::ClaudeModel => Some(config.claude.model@),
        SettingsEditTarget::ClaudeEffort => Some(config.claude.effort@),
        SettingsEditTarget::KeymapPreset => Some(config.ui.keymap.preset@),
        SettingsEditTarget::KeymapLeader => Some(config.ui.keymap.leader@),
        SettingsEditTarget::NotificationCommand => Some(config.notifications.command@),
        SettingsEditTarget::NotificationTemplate => Some(config.notifications.template@),
        SettingsEditTarget::ReviewLoopInterval => Some(decimal(config.review_loop.poll_interval_secs as nat)),
        SettingsEditTarget::ReviewLoopPrompt => text_option(config.review_loop.prompt),
        SettingsEditTarget::RuntimeDefaultProfile => text_option(config.runtime.default_profile),
        SettingsEditTarget::RuntimeSandboxPath => text_option(config.runtime.sandbox_path),
        SettingsEditTarget::RuntimeAttachmentsDir => text_option(config.runtime.attachments_dir),
        SettingsEditTarget::WorkflowName => None,
        SettingsEditTarget::ClientId => text_option(config.github_app.client_id),
        SettingsEditTarget::AppSlug => text_option(config.github_app.app_slug),
        SettingsEditTarget::InstallUrl => text_option(config.github_app.install_url),
        SettingsEditTarget::RelayUrl => text_option(config.github_app.relay_url),
        SettingsEditTarget::InstallationId => text_option(config.github_app.default_installation_id),
    }
}

/// Nothing but the setting differs between two configurations.
pub open spec fn only_setting_changed(
    pre: Config,
    post: Config,
    target: SettingsEditTarget,
) -> bool {
    match target {
        SettingsEditTarget::ClaudeModel => post == (Config { claude: ClaudeConfig { model: post.claude.model, ..pre.claude }, ..pre }),
        SettingsEditTarget::ClaudeEffort => post == (Config { claude: ClaudeConfig { effort: post.claude.effort, ..pre.claude }, ..pre }),
        SettingsEditTarget::KeymapPreset => post == (Config { ui: UiConfig { keymap: KeymapConfig { preset: post.ui.keymap.preset, ..pre.ui.keymap } }, ..pre }),
        SettingsEditTarget::KeymapLeader => post == (Config { ui: UiConfig { keymap: KeymapConfig { leader: post.ui.keymap.leader, ..pre.ui.keymap } }, ..pre }),
        SettingsEditTarget::NotificationCommand => post == (Config { notifications: NotificationsConfig { command: post.notifications.command, ..pre.notifications }, ..pre }),
        SettingsEditTarget::NotificationTemplate => post == (Config { notifications: NotificationsConfig { template: post.notifications.template, ..pre.notifications }, ..pre }),
        SettingsEditTarget::ReviewLoopInterval => post == (Config { review_loop: ReviewLoopConfig { poll_interval_secs: post.review_loop.poll_interval_secs, ..pre.review_loop }, ..pre }),
        SettingsEditTarget::ReviewLoopPrompt => post == (Config { review_loop: ReviewLoopConfig { prompt: post.review_loop.prompt, ..pre.review_loop }, ..pre }),
        SettingsEditTarget::RuntimeDefaultProfile => post == (Config { runtime: RuntimeConfig { default_profile: post.runtime.default_profile, ..pre.runtime }, ..pre }),
        SettingsEditTarget::RuntimeSandboxPath => post == (Config { runtime: RuntimeConfig { sandbox_path: post.runtime.sandbox_path, ..pre.runtime }, ..pre }),
        SettingsEditTarget::RuntimeAttachmentsDir => post == (Config { runtime: RuntimeConfig { attachments_dir: post.runtime.attachments_dir, ..pre.runtime }, ..pre }),
        SettingsEditTarget::WorkflowName => post == pre,
        SettingsEditTarget::ClientId => post == (Config { github_app: GitHubAppConfig { client_id: post.github_app.client_id, ..pre.github_app }, ..pre }),
        SettingsEditTarget::AppSlug => post == (Config { github_app: GitHubAppConfig { app_slug: post.github_app.app_slug, ..pre.github_app }, ..pre }),
        SettingsEditTarget::InstallUrl => post == (Config { github_app: GitHubAppConfig { install_url: post.github_app.install_url, ..pre.github_app }, ..pre }),
        SettingsEditTarget::RelayUrl => post == (Config { github_app: GitHubAppConfig { relay_url: post.github_app.relay_url, ..pre.github_app }, ..pre }),
        SettingsEditTarget::InstallationId => post == (Config { github_app: GitHubAppConfig { default_installation_id: post.github_app.default_installation_id, ..pre.github_app }, ..pre }),
    }
}

/// The error that a value meets, if any.
pub open spec fn settings_error(target: SettingsEditTarget, value: Seq<char>) -> Option<
    SettingsError,
> {
    match target {
        SettingsEditTarget::ClaudeModel => if is_blank(value) {
            Some(SettingsError::EmptyClaudeModel)
        } else {
            None
        },
        SettingsEditTarget::ClaudeEffort => if is_blank(value) {
            Some(SettingsError::EmptyClaudeEffort)
        } else {
            None
        },
        SettingsEditTarget::KeymapPreset => if is_blank(value) {
            Some(SettingsError::EmptyKeymapPreset)
        } else {
            None
        },
        SettingsEditTarget::KeymapLeader => if is_blank(value) {
            Some(SettingsError::EmptyLeaderKey)
        } else {
            None
        },
        SettingsEditTarget::NotificationCommand => if is_blank(value) {
            Some(SettingsError::EmptyNotificationCommand)
        } else {
            None
        },
        SettingsEditTarget::NotificationTemplate => if is_blank(value) {
            Some(SettingsError::EmptyNotificationTemplate)
        } else {
            None
        },
        SettingsEditTarget::ReviewLoopInterval => match parsed_u64(trimmed(value)) {
            None => Some(SettingsError::IntervalNotInteger),
            Some(n) => if n == 0 {
                Some(SettingsError::IntervalZero)
            } else {
                None
            },
        },
        _ => None,
    }
}

/// What an accepted value is stored as.
pub open spec fn accepted_setting(target: SettingsEditTarget, value: Seq<char>) -> Option<
    Seq<char>,
> {
    match target {
        SettingsEditTarget::ReviewLoopInterval => match parsed_u64(trimmed(value)) {
            Some(n) => Some(decimal(n as nat)),
            None => None,
        },
        SettingsEditTarget::WorkflowName => None,
        _ => present_text(value),
    }
}

fn non_empty(value: String) -> (r: Option<String>)
    ensures
        text_option(r) == if value@.len() == 0 {
            None
        } else {
            Some(value@)
        },
{
    if value.as_str().is_empty() {
        None
    } else {
        Some(value)
    }
}

impl SettingsEditTarget {
    pub fn label(self, agent: &str) -> (r: String)
        ensures
            r@ == settings_edit_target_label(self, agent@),
    {
        match self {
            SettingsEditTarget::ClaudeModel => agent.to_owned().concat(" Model"),
            SettingsEditTarget::ClaudeEffort => agent.to_owned().concat(" Effort"),
            SettingsEditTarget::KeymapPreset => "Keymap Preset".to_owned(),
            SettingsEditTarget::KeymapLeader => "Leader Key".to_owned(),
            SettingsEditTarget::NotificationCommand => "Notification Command".to_owned(),
            SettingsEditTarget::NotificationTemplate => "Notification Template".to_owned(),
            SettingsEditTarget::ReviewLoopInterval => "Review Loop Poll Interval".to_owned(),
            SettingsEditTarget::ReviewLoopPrompt => "Review Loop Prompt".to_owned(),
            SettingsEditTarget::RuntimeDefaultProfile => "Default Runtime Profile".to_owned(),
            SettingsEditTarget::RuntimeSandboxPath => "Sandbox Path".to_owned(),
            SettingsEditTarget::RuntimeAttachmentsDir => "Attachments Directory".to_owned(),
            SettingsEditTarget::WorkflowName => "Workflow Name".to_owned(),
            SettingsEditTarget::ClientId => "GitHub Client ID".to_owned(),
            SettingsEditTarget::AppSlug => "GitHub App Slug".to_owned(),
            SettingsEditTarget::InstallUrl => "GitHub Install URL".to_owned(),
            SettingsEditTarget::RelayUrl => "GitHub Relay URL".to_owned(),
            SettingsEditTarget::InstallationId => "Default Installation".to_owned(),
        }
    }

    /// The text that an edit of this setting starts from.
    pub fn current_value(self, config: &Config) -> (r: String)
        ensures
            r@ == match setting(*config, self) {
                Some(s) => s,
                None => seq![],
            },
    {
        match self {
            SettingsEditTarget::ClaudeModel => config.claude.model.clone(),
            SettingsEditTarget::ClaudeEffort => config.claude.effort.clone(),
            SettingsEditTarget::KeymapPreset => config.ui.keymap.preset.clone(),
            SettingsEditTarget::KeymapLeader => config.ui.keymap.leader.clone(),
            SettingsEditTarget::NotificationCommand => config.notifications.command.clone(),
            SettingsEditTarget::NotificationTemplate => config.notifications.template.clone(),
            SettingsEditTarget::ReviewLoopInterval => format_number(config.review_loop.poll_interval_secs),
            SettingsEditTarget::ReviewLoopPrompt => unwrap_text(&config.review_loop.prompt),
            SettingsEditTarget::RuntimeDefaultProfile => unwrap_text(&config.runtime.default_profile),
            SettingsEditTarget::RuntimeSandboxPath => unwrap_text(&config.runtime.sandbox_path),
            SettingsEditTarget::RuntimeAttachmentsDir => unwrap_text(&config.runtime.attachments_dir),
            SettingsEditTarget::WorkflowName => String::new(),
            SettingsEditTarget::ClientId => unwrap_text(&config.github_app.client_id),
            SettingsEditTarget::AppSlug => unwrap_text(&config.github_app.app_slug),
            SettingsEditTarget::InstallUrl => unwrap_text(&config.github_app.install_url),
            SettingsEditTarget::RelayUrl => unwrap_text(&config.github_app.relay_url),
            SettingsEditTarget::InstallationId => unwrap_text(&config.github_app.default_installation_id),
        }
    }

    /// Store a new value. A required text must not be blank and the interval must be
    /// a positive number; an optional text that is blank is removed. The
    /// configuration is left alone where the value is refused.
    pub fn apply(self, config: &mut Config, value: &str) -> (r: Result<(), SettingsError>)
        ensures
            r is Err <==> settings_error(self, value@) is Some,
            r matches Err(e) ==> e == settings_error(self, value@)->0 && *final(config) == *old(
                config,
            ),
            r is Ok ==> only_setting_changed(*old(config), *final(config), self) && setting(
                *final(config),
                self,
            ) == accepted_setting(self, value@),
    {
        let value = trim(value);
        match self {
            SettingsEditTarget::ClaudeModel => {
                if value.as_str().is_empty() {
                    return Err(SettingsError::EmptyClaudeModel);
                }
                config.claude.model = value;
            },
            SettingsEditTarget::ClaudeEffort => {
                if value.as_str().is_empty() {
                    return Err(SettingsError::EmptyClaudeEffort);
                }
                config.claude.effort = value;
            },
            SettingsEditTarget::KeymapPreset => {
                if value.as_str().is_empty() {
                    return Err(SettingsError::EmptyKeymapPreset);
                }
                config.ui.keymap.preset = value;
            },
            SettingsEditTarget::KeymapLeader => {
                if value.as_str().is_empty() {
                    return Err(SettingsError::EmptyLeaderKey);
                }
                config.ui.keymap.leader = value;
            },
            SettingsEditTarget::NotificationCommand => {
                if value.as_str().is_empty() {
                    return Err(SettingsError::EmptyNotificationCommand);
                }
                config.notifications.command = value;
            },
            SettingsEditTarget::NotificationTemplate => {
                if value.as_str().is_empty() {
                    return Err(SettingsError::EmptyNotificationTemplate);
                }
                config.notifications.template = value;
            },
            SettingsEditTarget::ReviewLoopInterval => {
                let parsed: u64 = match parse_u64(value.as_str()) {
                    Some(n) => n,
                    None => return Err(SettingsError::IntervalNotInteger),
                };
                if parsed == 0 {
                    return Err(SettingsError::IntervalZero);
                }
                config.review_loop.poll_interval_secs = parsed;
            },
            SettingsEditTarget::ReviewLoopPrompt => {
                config.review_loop.prompt = non_empty(value);
            },
            SettingsEditTarget::RuntimeDefaultProfile => {
                config.runtime.default_profile = non_empty(value);
            },
            SettingsEditTarget::RuntimeSandboxPath => {
                config.runtime.sandbox_path = non_empty(value);
            },
            SettingsEditTarget::RuntimeAttachmentsDir => {
                config.runtime.attachments_dir = non_empty(value);
            },
            SettingsEditTarget::WorkflowName => {},
            SettingsEditTarget::ClientId => {
                config.github_app.client_id = non_empty(value);
            },
            SettingsEditTarget::AppSlug => {
                config.github_app.app_slug = non_empty(value);
            },
            SettingsEditTarget::InstallUrl => {
                config.github_app.install_url = non_empty(value);
            },
            SettingsEditTarget::RelayUrl => {
                config.github_app.relay_url = non_empty(value);
            },
            SettingsEditTarget::InstallationId => {
                config.github_app.default_installation_id = non_empty(value);
            },
        }
        Ok(())
    }
}

/// Editing a setting and reading it back gives the trimmed text; of the interval, a text
/// that is the same number.
pub proof fn law_setting_reads_back(
    pre: Config,
    post: Config,
    target: SettingsEditTarget,
    value: Seq<char>,
)
    requires
        target != SettingsEditTarget::WorkflowName,
        settings_error(target, value) is None,
        setting(post, target) == accepted_setting(target, value),
    ensures
        ({
            let read = match setting(post, target) {
                Some(s) => s,
                None => seq![],
            };
            if target == SettingsEditTarget::ReviewLoopInterval {
                parsed_u64(read) is Some && parsed_u64(read) == parsed_u64(trimmed(value))
            } else {
                read == trimmed(value)
            }
        }),
{
    assert(is_blank(value) ==> trimmed(value) =~= Seq::<char>::empty());
    if let Some(n) = parsed_u64(trimmed(value)) {
        lemma_decimal_reads_back(n);
    }
}

/// Editing one setting leaves what every other setting holds unchanged.
pub proof fn law_other_settings_kept(
    pre: Config,
    post: Config,
    target: SettingsEditTarget,
    other: SettingsEditTarget,
)
    requires
        only_setting_changed(pre, post, target),
        other != target,
    ensures
        setting(post, other) == setting(pre, other),
{
}

/// A setting that must not be empty refuses a blank text with its own error, and takes any
/// other.
pub proof fn law_blank_settings_are_refused(value: Seq<char>)
    ensures
        is_blank(value) ==> {
            &&& settings_error(SettingsEditTarget::ClaudeModel, value) == Some(
                SettingsError::EmptyClaudeModel,
            )
            &&& settings_error(SettingsEditTarget::ClaudeEffort, value) == Some(
                SettingsError::EmptyClaudeEffort,
            )
            &&& settings_error(SettingsEditTarget::KeymapPreset, value) == Some(
                SettingsError::EmptyKeymapPreset,
            )
            &&& settings_error(SettingsEditTarget::KeymapLeader, value) == Some(
                SettingsError::EmptyLeaderKey,
            )
            &&& settings_error(SettingsEditTarget::NotificationCommand, value) == Some(
                SettingsError::EmptyNotificationCommand,
            )
            &&& settings_error(SettingsEditTarget::NotificationTemplate, value) == Some(
                SettingsError::EmptyNotificationTemplate,
            )
        },
        !is_blank(value) ==> {
            &&& settings_error(SettingsEditTarget::ClaudeModel, value) is None
            &&& settings_error(SettingsEditTarget::ClaudeEffort, value) is None
            &&& settings_error(SettingsEditTarget::KeymapPreset, value) is None
            &&& settings_error(SettingsEditTarget::KeymapLeader, value) is None
            &&& settings_error(SettingsEditTarget::NotificationCommand, value) is None
            &&& settings_error(SettingsEditTarget::NotificationTemplate, value) is None
        },
        settings_error(SettingsEditTarget::ReviewLoopPrompt, value) is None,
        settings_error(SettingsEditTarget::RuntimeDefaultProfile, value) is None,
        settings_error(SettingsEditTarget::RuntimeSandboxPath, value) is None,
        settings_error(SettingsEditTarget::RuntimeAttachmentsDir, value) is None,
        settings_error(SettingsEditTarget::ClientId, value) is None,
        settings_error(SettingsEditTarget::AppSlug, value) is None,
        settings_error(SettingsEditTarget::InstallUrl, value) is None,
        settings_error(SettingsEditTarget::RelayUrl, value) is None,
        settings_error(SettingsEditTarget::InstallationId, value) is None,
{
}

/// The interval is a number of seconds above zero: every such number is taken, a zero and
/// a text that is no number are refused.
pub proof fn law_intervals_are_whole_seconds(n: u64, value: Seq<char>)
    ensures
        n > 0 ==> settings_error(SettingsEditTarget::ReviewLoopInterval, decimal(n as nat)) is None
            && accepted_setting(SettingsEditTarget::ReviewLoopInterval, decimal(n as nat)) == Some(
            decimal(n as nat),
        ),
        settings_error(SettingsEditTarget::ReviewLoopInterval, decimal(0)) == Some(
            SettingsError::IntervalZero,
        ),
        parsed_u64(trimmed(value)) is None ==> settings_error(
            SettingsEditTarget::ReviewLoopInterval,
            value,
        ) == Some(SettingsError::IntervalNotInteger),
{
    lemma_digits_need_no_trimming(n);
    lemma_digits_need_no_trimming(0);
    crate::text::law_numbers_read_back(0, n);
    crate::text::law_numbers_read_back(0, 0);
}

proof fn lemma_digits_need_no_trimming(n: u64)
    ensures
        trimmed(decimal(n as nat)) == decimal(n as nat),
{
    let d = decimal(n as nat);
    let none = Seq::<char>::empty();
    crate::text::lemma_decimal_value(n as nat);
    assert(crate::text::is_digit(d[0]));
    assert(crate::text::is_digit(d[d.len() - 1]));
    crate::text::law_trimming_undoes_spacing(none, d, none);
    assert(none + d + none =~= d);
}

/// What is taken of a text is the text without the space around it; a blank text clears
/// the setting.
pub proof fn law_settings_are_trimmed(target: SettingsEditTarget, value: Seq<char>)
    requires
        target != SettingsEditTarget::ReviewLoopInterval,
        target != SettingsEditTarget::WorkflowName,
    ensures
        is_blank(value) ==> accepted_setting(target, value) is None,
        !is_blank(value) ==> accepted_setting(target, value) == Some(trimmed(value)),
{
}

/// Every refusal names what was refused.
pub proof fn law_refusals_name_the_setting(agent: Seq<char>)
    ensures
        settings_error_message(SettingsError::EmptyClaudeModel, agent) == agent
            + " model cannot be empty"@,
        settings_error_message(SettingsError::EmptyClaudeEffort, agent) == agent
            + " effort cannot be empty"@,
        settings_error_message(SettingsError::EmptyKeymapPreset, agent)
            == "Keymap preset cannot be empty"@,
        settings_error_message(SettingsError::EmptyLeaderKey, agent)
            == "Leader key cannot be empty"@,
        settings_error_message(SettingsError::EmptyNotificationCommand, agent)
            == "Notification command cannot be empty"@,
        settings_error_message(SettingsError::EmptyNotificationTemplate, agent)
            == "Notification template cannot be empty"@,
        settings_error_message(SettingsError::IntervalNotInteger, agent)
            == "Review loop interval must be an integer"@,
        settings_error_message(SettingsError::IntervalZero, agent)
            == "Review loop interval must be greater than zero"@,
{
}

/// Where the settings hold each value.
pub proof fn law_where_settings_are_held(c: Config)
    ensures
        setting(c, SettingsEditTarget::ClaudeModel) == Some(c.claude.model@),
        setting(c, SettingsEditTarget::ClaudeEffort) == Some(c.claude.effort@),
        setting(c, SettingsEditTarget::KeymapPreset) == Some(c.ui.keymap.preset@),
        setting(c, SettingsEditTarget::KeymapLeader) == Some(c.ui.keymap.leader@),
        setting(c, SettingsEditTarget::NotificationCommand) == Some(c.notifications.command@),
        setting(c, SettingsEditTarget::NotificationTemplate) == Some(c.notifications.template@),
        setting(c, SettingsEditTarget::ReviewLoopInterval) == Some(
            decimal(c.review_loop.poll_interval_secs as nat),
        ),
        c.review_loop.prompt matches Some(t) ==> setting(c, SettingsEditTarget::ReviewLoopPrompt)
            == Some(t@),
        c.runtime.default_profile matches Some(t) ==> setting(
            c,
            SettingsEditTarget::RuntimeDefaultProfile,
        ) == Some(t@),
        c.runtime.sandbox_path matches Some(t) ==> setting(
            c,
            SettingsEditTarget::RuntimeSandboxPath,
        ) == Some(t@),
        c.runtime.attachments_dir matches Some(t) ==> setting(
            c,
            SettingsEditTarget::RuntimeAttachmentsDir,
        ) == Some(t@),
        c.github_app.client_id matches Some(t) ==> setting(c, SettingsEditTarget::ClientId) == Some(
            t@,
        ),
        c.github_app.app_slug matches Some(t) ==> setting(c, SettingsEditTarget::AppSlug) == Some(
            t@,
        ),
        c.github_app.install_url matches Some(t) ==> setting(c, SettingsEditTarget::InstallUrl)
            == Some(t@),
        c.github_app.relay_url matches Some(t) ==> setting(c, SettingsEditTarget::RelayUrl) == Some(
            t@,
        ),
        c.github_app.default_installation_id matches Some(t) ==> setting(
            c,
            SettingsEditTarget::InstallationId,
        ) == Some(t@),
        c.github_app.relay_url is None ==> setting(c, SettingsEditTarget::RelayUrl) is None,
{
}

} // verus!
