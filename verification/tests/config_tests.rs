//! Tests of the configuration model, validation and dotted-key access.

use vkt::config::{
    default_branch, detect_provider, Config, ConfigArgs, ConfigCommand, ConfigPlan, ProviderType,
    RemoteConfig, RepoConfig, TemplateConfig, UserConfig,
};

fn create_valid_config() -> Config {
    Config {
        user: UserConfig {
            name: "Test".to_string(),
            email: "test@example.com".to_string(),
            auto_signoff: true,
        },
        remote: RemoteConfig {
            provider: "Gitcode".to_string(),
            api_url: "https://api.example.com".to_string(),
            token: "token123".to_string(),
        },
        repo: RepoConfig {
            project_id: "owner/repo".to_string(),
            default_branch: "main".to_string(),
        },
        template: TemplateConfig { pr_prefix: String::new() },
    }
}

#[test]
fn test_config_validate_success() {
    let config = create_valid_config();
    assert!(config.validate().is_ok());
}

#[test]
fn test_config_validate_empty_name() {
    let mut config = create_valid_config();
    config.user.name = "".to_string();
    assert!(config.validate().is_err());
}

#[test]
fn test_config_validate_invalid_email() {
    let mut config = create_valid_config();
    config.user.email = "invalid-email".to_string();
    assert!(config.validate().is_err());
}

#[test]
fn test_config_validate_invalid_url() {
    let mut config = create_valid_config();
    config.remote.api_url = "not-a-url".to_string();
    assert!(config.validate().is_err());
}

#[test]
fn test_config_validate_invalid_project_id() {
    let mut config = create_valid_config();
    config.repo.project_id = "invalid".to_string();
    assert!(config.validate().is_err());
}

#[test]
fn test_email_validation() {
    assert!(Config::is_valid_email("test@example.com"));
    assert!(Config::is_valid_email("user.name@domain.co"));
    assert!(!Config::is_valid_email("invalid"));
    assert!(!Config::is_valid_email("@example.com"));
    assert!(!Config::is_valid_email("test@"));
    assert!(!Config::is_valid_email("test"));
}

#[test]
fn test_url_validation() {
    assert!(Config::is_valid_url("https://api.example.com"));
    assert!(Config::is_valid_url("http://localhost:8080"));
    assert!(!Config::is_valid_url("not-a-url"));
    assert!(!Config::is_valid_url("ftp://example.com"));
}

#[test]
fn test_example_generation() {
    let example = Config::example();
    assert!(example.contains("[user]"));
    assert!(example.contains("[remote]"));
    assert!(example.contains("[repo]"));
    assert!(example.contains("[template]"));
}

#[test]
fn test_provider_type_parse() {
    assert_eq!(ProviderType::parse("Gitcode"), ProviderType::GitCode);
    assert_eq!(ProviderType::parse("gitcode"), ProviderType::GitCode);
    assert_eq!(ProviderType::parse("GITCODE"), ProviderType::GitCode);
    assert_eq!(ProviderType::parse("GitLab"), ProviderType::GitLab);
    assert_eq!(ProviderType::parse("gitlab"), ProviderType::GitLab);
    assert_eq!(ProviderType::parse("GitHub"), ProviderType::GitHub);
    assert_eq!(ProviderType::parse("github"), ProviderType::GitHub);
    assert_eq!(
        ProviderType::parse("Unknown"),
        ProviderType::Unknown("unknown".to_string())
    );
}

#[test]
fn test_provider_type_as_str() {
    assert_eq!(ProviderType::GitCode.as_str(), "gitcode");
    assert_eq!(ProviderType::GitLab.as_str(), "gitlab");
    assert_eq!(ProviderType::GitHub.as_str(), "github");
    assert_eq!(ProviderType::Unknown("custom".to_string()).as_str(), "custom");
}

#[test]
fn test_detect_provider() {
    assert_eq!(detect_provider("https://gitcode.com/api/v5"), ProviderType::GitCode);
    assert_eq!(detect_provider("https://gitlab.example.com/api/v4"), ProviderType::GitLab);
    assert_eq!(detect_provider("https://github.com/api/v3"), ProviderType::GitHub);
    assert_eq!(
        detect_provider("https://unknown.example.com/api"),
        ProviderType::Unknown("unknown".to_string())
    );
}

#[test]
fn test_remote_config_provider_type() {
    let remote = RemoteConfig {
        provider: "Gitcode".to_string(),
        api_url: "https://api.gitcode.com".to_string(),
        token: "test-token".to_string(),
    };
    assert_eq!(remote.provider_type(), ProviderType::GitCode);
}

#[test]
fn test_provider_type_default_api_url() {
    assert_eq!(
        ProviderType::GitCode.default_api_url(),
        Some("https://api.gitcode.com/api/v5")
    );
    assert_eq!(ProviderType::GitLab.default_api_url(), Some("https://gitlab.com/api/v4"));
    assert_eq!(ProviderType::GitHub.default_api_url(), Some("https://api.github.com"));
    assert_eq!(ProviderType::Unknown("custom".to_string()).default_api_url(), None);
}

#[test]
fn test_parse_key_valid() {
    let (section, field) = Config::parse_key("user.name").unwrap();
    assert_eq!(section, "user");
    assert_eq!(field, "name");

    let (section, field) = Config::parse_key("remote.token").unwrap();
    assert_eq!(section, "remote");
    assert_eq!(field, "token");
}

#[test]
fn test_parse_key_invalid() {
    assert!(Config::parse_key("name").is_err());
    assert!(Config::parse_key("user.name.extra").is_err());
    assert!(Config::parse_key("").is_err());
}

#[test]
fn test_get_value() {
    let config = create_valid_config();
    assert_eq!(config.get_value("user.name").unwrap(), "Test");
    assert_eq!(config.get_value("user.email").unwrap(), "test@example.com");
    assert_eq!(config.get_value("user.auto_signoff").unwrap(), "true");
    assert_eq!(config.get_value("remote.provider").unwrap(), "Gitcode");
    assert_eq!(config.get_value("remote.api_url").unwrap(), "https://api.example.com");
    // Token is masked
    assert_eq!(config.get_value("remote.token").unwrap(), "********");
    assert_eq!(config.get_value("repo.project_id").unwrap(), "owner/repo");
    assert_eq!(config.get_value("repo.default_branch").unwrap(), "main");
    assert_eq!(config.get_value("template.pr_prefix").unwrap(), "");
}

#[test]
fn test_get_value_unknown_key() {
    let config = create_valid_config();
    assert!(config.get_value("unknown.key").is_err());
    assert!(config.get_value("user.unknown").is_err());
}

#[test]
fn test_set_value_user_name() {
    let mut config = create_valid_config();
    config.set_value("user.name", "New Name").unwrap();
    assert_eq!(config.user.name, "New Name");
}

#[test]
fn test_set_value_user_email() {
    let mut config = create_valid_config();
    config.set_value("user.email", "new@example.com").unwrap();
    assert_eq!(config.user.email, "new@example.com");
}

#[test]
fn test_set_value_user_email_invalid() {
    let mut config = create_valid_config();
    assert!(config.set_value("user.email", "invalid-email").is_err());
}

#[test]
fn test_set_value_user_auto_signoff() {
    let mut config = create_valid_config();
    config.set_value("user.auto_signoff", "false").unwrap();
    assert!(!config.user.auto_signoff);
    config.set_value("user.auto_signoff", "true").unwrap();
    assert!(config.user.auto_signoff);
}

#[test]
fn test_set_value_remote_api_url() {
    let mut config = create_valid_config();
    config.set_value("remote.api_url", "https://new.example.com").unwrap();
    assert_eq!(config.remote.api_url, "https://new.example.com");
}

#[test]
fn test_set_value_remote_api_url_invalid() {
    let mut config = create_valid_config();
    assert!(config.set_value("remote.api_url", "not-a-url").is_err());
}

#[test]
fn test_set_value_repo_project_id() {
    let mut config = create_valid_config();
    config.set_value("repo.project_id", "newowner/newrepo").unwrap();
    assert_eq!(config.repo.project_id, "newowner/newrepo");
}

#[test]
fn test_set_value_repo_project_id_invalid() {
    let mut config = create_valid_config();
    assert!(config.set_value("repo.project_id", "invalid").is_err());
}

#[test]
fn test_set_value_unknown_key() {
    let mut config = create_valid_config();
    assert!(config.set_value("unknown.key", "value").is_err());
}

#[test]
fn test_config_command_list_all() {
    let args = ConfigArgs { key: None, value: None, list: false, setup: false };
    let cmd = ConfigCommand::new(args);
    let config = create_valid_config();

    let listing = cmd.list_all(&config);
    assert!(listing.contains("[user]"));
    assert!(listing.contains("token = ********"));
    assert!(listing.contains("project_id = owner/repo"));
}

#[test]
fn test_config_command_show_value() {
    let args = ConfigArgs {
        key: Some("user.name".to_string()),
        value: None,
        list: false,
        setup: false,
    };
    let cmd = ConfigCommand::new(args);
    let config = create_valid_config();

    assert!(cmd.show_value(&config, "user.name").is_ok());
}

#[test]
fn test_config_command_show_value_unknown_key() {
    let args = ConfigArgs {
        key: Some("unknown.key".to_string()),
        value: None,
        list: false,
        setup: false,
    };
    let cmd = ConfigCommand::new(args);
    let config = create_valid_config();

    assert!(cmd.show_value(&config, "unknown.key").is_err());
}

#[test]
fn test_config_command_plan_modes() {
    let list_cmd = ConfigCommand::new(ConfigArgs { key: None, value: None, list: false, setup: false });
    assert!(matches!(list_cmd.plan().unwrap(), ConfigPlan::ListAll));

    let setup_cmd = ConfigCommand::new(ConfigArgs { key: None, value: None, list: false, setup: true });
    assert!(matches!(setup_cmd.plan().unwrap(), ConfigPlan::Setup));

    let show_cmd = ConfigCommand::new(ConfigArgs {
        key: Some("user.name".to_string()),
        value: None,
        list: false,
        setup: false,
    });
    match show_cmd.plan().unwrap() {
        ConfigPlan::ShowValue(k) => assert_eq!(k, "user.name"),
        other => panic!("unexpected plan: {:?}", other),
    }

    let set_cmd = ConfigCommand::new(ConfigArgs {
        key: Some("user.name".to_string()),
        value: Some("X".to_string()),
        list: false,
        setup: false,
    });
    match set_cmd.plan().unwrap() {
        ConfigPlan::SetValue(k, v) => {
            assert_eq!(k, "user.name");
            assert_eq!(v, "X");
        }
        other => panic!("unexpected plan: {:?}", other),
    }

    let missing_key = ConfigCommand::new(ConfigArgs {
        key: None,
        value: Some("X".to_string()),
        list: false,
        setup: false,
    });
    assert!(missing_key.plan().is_err());
}

#[test]
fn test_default_branch_value() {
    assert_eq!(default_branch(), "main");
}

#[test]
fn test_set_value_rejected_leaves_config_unchanged() {
    let mut config = create_valid_config();
    assert!(config.set_value("user.name", "").is_err());
    assert_eq!(config.user.name, "Test");
    assert!(config.set_value("remote.token", "").is_err());
    assert_eq!(config.remote.token, "token123");
}
