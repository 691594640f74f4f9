use mwbot_setup::auth::{resolve_auth, AuthConfigError, AuthMethod};
use mwbot_setup::destination::{resolve_destination, BOT_CONFIG_FILE_NAME};
use mwbot_setup::error::SetupError;
use mwbot_setup::fill::{fill, template_has_format_spec, ProvisioningRequest, TemplateFillError};
use mwbot_setup::permissions::{hardening_mode, PermissionModel, GROUP_OTHER_BITS, OWNER_ONLY_MODE};
use mwbot_setup::setup::{
    conclude, confirmation, mode_to_apply, plan_setup, plan_setup_in, SetupArgs, SetupPlan, CONFIG_TEMPLATE_PATH,
};

fn password_request() -> ProvisioningRequest {
    ProvisioningRequest::new(
        "bot1".to_string(),
        AuthMethod::Password("s3cr3t".to_string()),
        "https://x/api".to_string(),
        "https://x/rest".to_string(),
    )
}

fn args(password: Option<&str>, token: Option<&str>) -> SetupArgs {
    SetupArgs {
        username: "bot1".to_string(),
        botpassword: password.map(|s| s.to_string()),
        oauth2_token: token.map(|s| s.to_string()),
        api_url: "https://x/api".to_string(),
        rest_url: "https://x/rest".to_string(),
    }
}

const TOML_TEMPLATE: &str = "[general]\napi_url = \"{api_url}\"\nrest_url = \"{rest_url}\"\n\n[auth]\nusername = \"{username}\"\npassword = \"{password}\"\noauth2_token = \"{oauth2_token}\"\n";

#[test]
fn resolve_auth_password_only() {
    match resolve_auth(Some("p".to_string()), None) {
        Ok(AuthMethod::Password(p)) => assert_eq!(p, "p"),
        other => panic!("unexpected {:?}", other),
    }
}

#[test]
fn resolve_auth_token_only() {
    match resolve_auth(None, Some("t".to_string())) {
        Ok(AuthMethod::Token(t)) => assert_eq!(t, "t"),
        other => panic!("unexpected {:?}", other),
    }
}

#[test]
fn resolve_auth_neither_fails() {
    assert!(matches!(resolve_auth(None, None), Err(AuthConfigError::MissingCredential)));
}

#[test]
fn resolve_auth_both_fail() {
    let r = resolve_auth(Some("p".to_string()), Some("t".to_string()));
    assert!(matches!(r, Err(AuthConfigError::ConflictingCredentials)));
}

#[test]
fn slot_texts_of_each_method() {
    let pw = AuthMethod::Password("s".to_string());
    let tok = AuthMethod::Token("t".to_string());
    assert_eq!(pw.password_text(), "s");
    assert_eq!(pw.token_text(), "");
    assert_eq!(tok.password_text(), "");
    assert_eq!(tok.token_text(), "t");
    assert!(pw.is_password());
    assert!(!tok.is_password());
}

#[test]
fn fill_named_example() {
    let text = fill("url={api_url} user={username} pass={password}", &password_request());
    assert_eq!(text, Ok("url=https://x/api user=bot1 pass=s3cr3t".to_string()));
}

#[test]
fn fill_positional_in_fixed_order() {
    let req = ProvisioningRequest::new(
        "bot2".to_string(),
        AuthMethod::Token("tok".to_string()),
        "a".to_string(),
        "r".to_string(),
    );
    assert_eq!(fill("{}|{}|{}|{}|{}", &req), Ok("a|r|bot2||tok".to_string()));
    assert_eq!(fill("{4}{0}", &req), Ok("toka".to_string()));
}

#[test]
fn fill_toml_round_trip() {
    let text = fill(TOML_TEMPLATE, &password_request()).unwrap();
    let lines: Vec<&str> = text.lines().collect();
    assert_eq!(lines[1], "api_url = \"https://x/api\"");
    assert_eq!(lines[2], "rest_url = \"https://x/rest\"");
    assert_eq!(lines[5], "username = \"bot1\"");
    assert_eq!(lines[6], "password = \"s3cr3t\"");
    assert_eq!(lines[7], "oauth2_token = \"\"");
}

#[test]
fn fill_unknown_placeholder_is_mismatch() {
    let r = fill("user={user_name}", &password_request());
    assert_eq!(r, Err(TemplateFillError::PlaceholderMismatch));
}

#[test]
fn fill_malformed_template_is_mismatch() {
    let r = fill("user={username", &password_request());
    assert_eq!(r, Err(TemplateFillError::PlaceholderMismatch));
    let r = fill("{}{}{}{}{}{}", &password_request());
    assert_eq!(r, Err(TemplateFillError::PlaceholderMismatch));
}

#[test]
fn fill_without_placeholders_keeps_text() {
    assert_eq!(fill("plain", &password_request()), Ok("plain".to_string()));
    assert_eq!(fill("", &password_request()), Ok(String::new()));
}

#[test]
fn destination_in_config_dir() {
    let p = resolve_destination(Some("/home/a/.config".to_string())).unwrap();
    assert_eq!(p.dir, "/home/a/.config");
    assert_eq!(p.file_name, "mwbot.toml");
    assert_eq!(BOT_CONFIG_FILE_NAME, "mwbot.toml");
}

#[test]
fn destination_without_config_dir_fails() {
    assert!(matches!(resolve_destination(None), Err(SetupError::DestinationUnresolvable)));
}

#[test]
fn hardening_is_owner_only() {
    assert_eq!(hardening_mode(PermissionModel::PosixModeBits), Some(0o600));
    assert_eq!(hardening_mode(PermissionModel::NoModeBits), None);
    assert_eq!(OWNER_ONLY_MODE & GROUP_OTHER_BITS, 0);
}

#[test]
fn setup_plans_filled_file() {
    let plan = plan_setup_in(
        Some(TOML_TEMPLATE.to_string()),
        args(None, Some("tok")),
        Some("/cfg".to_string()),
        PermissionModel::PosixModeBits,
    )
    .unwrap();
    assert_eq!(plan.destination.dir, "/cfg");
    assert_eq!(plan.destination.file_name, "mwbot.toml");
    assert!(plan.contents.contains("password = \"\"\n"));
    assert!(plan.contents.contains("oauth2_token = \"tok\"\n"));
    assert_eq!(plan.mode, Some(0o600));
}

#[test]
fn setup_twice_is_identical() {
    let run = || {
        plan_setup_in(
            Some(TOML_TEMPLATE.to_string()),
            args(Some("s3cr3t"), None),
            Some("/cfg".to_string()),
            PermissionModel::PosixModeBits,
        )
        .unwrap()
    };
    let (a, b) = (run(), run());
    assert_eq!(a.contents, b.contents);
    assert_eq!(a.destination.dir, b.destination.dir);
    assert_eq!(a.mode, b.mode);
}

#[test]
fn setup_without_template_plans_nothing() {
    let r = plan_setup_in(None, args(Some("p"), None), Some("/cfg".to_string()), PermissionModel::PosixModeBits);
    match r {
        Err(SetupError::TemplateNotFound(p)) => assert_eq!(p, CONFIG_TEMPLATE_PATH),
        other => panic!("unexpected {:?}", other),
    }
    let r = plan_setup(None, args(Some("p"), None), PermissionModel::NoModeBits);
    assert!(matches!(r, Err(SetupError::TemplateNotFound(_))));
}

#[test]
fn setup_reports_first_failure() {
    let t = Some("x={username}".to_string());
    let r = plan_setup_in(t.clone(), args(None, None), None, PermissionModel::PosixModeBits);
    assert!(matches!(r, Err(SetupError::Auth(AuthConfigError::MissingCredential))));
    let r = plan_setup_in(t.clone(), args(Some("p"), Some("t")), None, PermissionModel::PosixModeBits);
    assert!(matches!(r, Err(SetupError::Auth(AuthConfigError::ConflictingCredentials))));
    let r = plan_setup_in(Some("{nope}".to_string()), args(Some("p"), None), None, PermissionModel::PosixModeBits);
    assert!(matches!(r, Err(SetupError::Fill(TemplateFillError::PlaceholderMismatch))));
    let r = plan_setup_in(t, args(Some("p"), None), None, PermissionModel::PosixModeBits);
    assert!(matches!(r, Err(SetupError::DestinationUnresolvable)));
}

#[test]
fn setup_without_mode_bits_plans_no_mode() {
    let plan = plan_setup_in(
        Some("u={username}".to_string()),
        args(Some("p"), None),
        Some("C:\\cfg".to_string()),
        PermissionModel::NoModeBits,
    )
    .unwrap();
    assert_eq!(plan.contents, "u=bot1");
    assert_eq!(plan.mode, None);
}

fn sample_plan(mode: Option<u32>) -> SetupPlan {
    let mut plan = plan_setup_in(
        Some("u={username}".to_string()),
        args(Some("p"), None),
        Some("/cfg".to_string()),
        PermissionModel::PosixModeBits,
    )
    .unwrap();
    plan.mode = mode;
    plan
}

#[test]
fn conclude_outcomes() {
    let posix = sample_plan(Some(0o600));
    assert_eq!(conclude(&posix, true, true), Ok(()));
    assert_eq!(conclude(&posix, false, false), Err(SetupError::WriteFailed));
    assert_eq!(conclude(&posix, true, false), Err(SetupError::WrittenUnhardened));
    let plain = sample_plan(None);
    assert_eq!(conclude(&plain, true, false), Ok(()));
    assert_eq!(conclude(&plain, false, true), Err(SetupError::WriteFailed));
}

#[test]
fn messages_name_their_subject() {
    let e = SetupError::TemplateNotFound("mwbot_template.toml".to_string());
    assert_eq!(
        e.message(),
        "Unable to find mwbot_template.toml; did you execute the script from the same directory?"
    );
    assert!(SetupError::WrittenUnhardened.message().contains("permissions could not be restricted"));
    assert_eq!(confirmation("/cfg/mwbot.toml"), "Successfully set up /cfg/mwbot.toml.");
}

#[test]
fn bot_config_path_names_the_config_file() {
    match mwbot_setup::destination::get_bot_config_path() {
        Ok(p) => {
            assert_eq!(p.file_name, "mwbot.toml");
            assert!(!p.dir.is_empty());
        }
        Err(e) => assert_eq!(e, SetupError::DestinationUnresolvable),
    }
}

#[test]
fn fill_rejects_format_specs() {
    for t in ["{api_url:70000}", "{username:.70000}", "{api_url:username$}", "{:>5}", "{0:?}"] {
        assert_eq!(fill(t, &password_request()), Err(TemplateFillError::PlaceholderMismatch));
    }
}

#[test]
fn format_spec_scan() {
    assert!(!template_has_format_spec("url = \"https://x\" {api_url}"));
    assert!(!template_has_format_spec("a: {b} c: {}"));
    assert!(template_has_format_spec("{api_url:70000}"));
    assert!(template_has_format_spec("x {0:5} y"));
    assert!(!template_has_format_spec(""));
}

#[test]
fn mode_applied_only_after_write() {
    let posix = sample_plan(Some(0o600));
    assert_eq!(mode_to_apply(&posix, true), Some(0o600));
    assert_eq!(mode_to_apply(&posix, false), None);
    assert_eq!(mode_to_apply(&sample_plan(None), true), None);
}

#[test]
fn fill_escaped_braces_around_colon() {
    let r = fill("{{k:{api_url}}}", &password_request());
    assert_eq!(r, Ok("{k:https://x/api}".to_string()));
    let r = fill("json = \"{{\\\"k\\\": \\\"{username}\\\"}}\"", &password_request());
    assert_eq!(r, Ok("json = \"{\\\"k\\\": \\\"bot1\\\"}\"".to_string()));
    assert!(!template_has_format_spec("{{a:b}} {{:}}"));
    assert!(template_has_format_spec("{{a}} {x:3}"));
}
