use ai_account_tool::api_channels::{
    add_api_channel, clear_current_api_channel, delete_api_channel, get_api_channel,
    mark_api_channel_used, update_api_channel, AddApiChannelParams, ApiChannel, ApiChannelStore,
    ApiChannelView, UpdateApiChannelParams,
};
use ai_account_tool::codex::{
    account_id_for_api_key, account_id_for_oauth, api_key_label, build_auth_json,
    build_launch_command, build_launch_script, cli_location, cli_version, codex_terminal_launch,
    default_instance, extract_oauth_profile, find_account, instance_view, normalize_base_url,
    npm_codex_path, parse_auth_file, read_api_base_url_from_config, resolve_launch_instance,
    slugify, upsert_account, write_api_provider_to_config, CodexAuthFile, CodexAuthTokens,
};
use ai_account_tool::commands::{
    account_by_id, add_api_key_account, add_token_account, create_instance, delete_account,
    add_instance, delete_instance, get_instance_launch_command, instance_name, make_current, plan_instance, open_path, quota_refresh_targets,
    record_launch, record_quota_at, record_quota_result, stop_instance, switch_account,
    update_account_label, update_instance,
};
use ai_account_tool::models::{
    AddApiKeyParams, AddTokenParams, CodexAccount, CodexAccountView, CodexAuthMode, CodexInstance,
    CreateInstanceParams, Store, UpdateInstanceParams,
};
use ai_account_tool::quota::{
    parse_quota, quota_request, quota_result, quota_status_error, usage_in_range, usage_url,
    QuotaFetchResult, RateLimitInfo, UsageResponse, WindowInfo,
};
use ai_account_tool::storage::{
    default_codex_home, normalize_optional, normalize_optional_ref, sha256_short,
};
use ai_account_tool::text::nonblank_lines_of;
use base64::engine::general_purpose::URL_SAFE_NO_PAD;
use base64::Engine;

fn err<T>(r: Result<T, String>) -> String {
    match r {
        Ok(_) => panic!("expected an error"),
        Err(e) => e,
    }
}

fn ok<T>(r: Result<T, String>) -> T {
    match r {
        Ok(v) => v,
        Err(e) => panic!("unexpected error: {}", e),
    }
}

fn s(v: &str) -> String {
    v.to_string()
}

fn jwt(payload: &str) -> String {
    format!("eyJhbGciOiJub25lIn0.{}.sig", URL_SAFE_NO_PAD.encode(payload.as_bytes()))
}

fn api_params(key: &str, base: Option<&str>) -> AddApiKeyParams {
    AddApiKeyParams { label: None, email: None, api_key: s(key), api_base_url: base.map(s) }
}

fn instance(id: &str, bind: Option<&str>) -> CodexInstance {
    CodexInstance {
        id: s(id),
        name: s("Work"),
        codex_home: s("C:\\homes\\work"),
        working_dir: None,
        extra_args: String::new(),
        bind_account_id: bind.map(s),
        created_at: 7,
        last_launched_at: None,
        last_pid: Some(42),
    }
}

fn window(used: Option<i32>, seconds: Option<i64>, after: Option<i64>, at: Option<i64>) -> WindowInfo {
    WindowInfo { used_percent: used, limit_window_seconds: seconds, reset_after_seconds: after, reset_at: at }
}

fn store_with_account(key: &str) -> (Store, CodexAccount) {
    let mut store = Store::default();
    let account = ok(add_api_key_account(api_params(key, None)));
    let stored = make_current(&mut store, account);
    (store, stored)
}

// ---- storage ----

#[test]
fn normalize_optional_trims_and_drops_blank() {
    assert_eq!(normalize_optional(Some(s("  a b  "))), Some(s("a b")));
    assert_eq!(normalize_optional(Some(s(" \t\n "))), None);
    assert_eq!(normalize_optional(None), None);
    assert_eq!(normalize_optional_ref(Some("\u{3000}x\u{3000}")), Some(s("x")));
}

#[test]
fn normalize_is_stable() {
    let once = normalize_optional(Some(s("  value  "))).unwrap();
    assert_eq!(normalize_optional(Some(once.clone())), Some(once));
}

#[test]
fn sha256_short_gives_hex_prefix() {
    assert_eq!(sha256_short("abc", 8), "ba7816bf");
    assert_eq!(sha256_short("abc", 0), "");
}

#[test]
fn default_codex_home_prefers_cleaned_env() {
    assert_eq!(ok(default_codex_home(Some("  \"C:\\codex\"  "))), "C:\\codex");
    assert_eq!(ok(default_codex_home(Some("'D:\\x'"))), "D:\\x");
}

#[test]
fn default_codex_home_falls_back_to_user_home() {
    if let Ok(home) = default_codex_home(Some("  \"\"  ")) {
        assert!(home.ends_with(".codex"));
    }
    if let Ok(home) = default_codex_home(None) {
        assert!(home.ends_with(".codex"));
    }
}

// ---- text ----

#[test]
fn nonblank_lines_are_trimmed() {
    assert_eq!(nonblank_lines_of("C:\\a\\codex.cmd\r\n\r\n  C:\\b\\codex.cmd  \n"), vec![s("C:\\a\\codex.cmd"), s("C:\\b\\codex.cmd")]);
    assert!(nonblank_lines_of("").is_empty());
    assert_eq!(nonblank_lines_of("x"), vec![s("x")]);
}

// ---- codex ----

#[test]
fn slugify_examples() {
    assert_eq!(slugify("My Instance!"), "my-instance");
    assert_eq!(slugify("--a__b--c--"), "a__b-c");
    assert_eq!(slugify("工作"), "codex-instance");
    assert_eq!(slugify(""), "codex-instance");
    assert_eq!(slugify("Ünïcode 2"), "n-code-2");
}

#[test]
fn slugify_is_idempotent_and_well_formed() {
    for name in ["My Instance!", "  spaced  out ", "a--b", "___", "x/y\\z", "工作 1"] {
        let slug = slugify(name);
        assert_eq!(slugify(&slug), slug);
        assert!(!slug.is_empty());
        assert!(!slug.starts_with('-') && !slug.ends_with('-'));
        assert!(!slug.contains("--"));
        assert!(slug.chars().all(|c| c.is_ascii_lowercase() || c.is_ascii_digit() || c == '_' || c == '-'));
    }
}

#[test]
fn base_url_is_trimmed_without_trailing_slashes() {
    assert_eq!(normalize_base_url(Some(s("  https://relay.example/v1//  "))), Some(s("https://relay.example/v1")));
    assert_eq!(normalize_base_url(Some(s("   "))), None);
    assert_eq!(normalize_base_url(None), None);
}

#[test]
fn api_key_label_uses_last_four() {
    assert_eq!(api_key_label("sk-test-1234"), "API Key 1234");
    assert_eq!(api_key_label("ab"), "API Key ab");
}

#[test]
fn account_ids_hash_their_inputs() {
    assert_eq!(account_id_for_api_key("  sk-test-1234 ", None), "apikey_0244aa0d67935c90d0");
    assert_eq!(account_id_for_api_key("sk-test-1234", Some("https://relay.example/v1")), "apikey_7e187404a4617fafe0");
    assert_eq!(account_id_for_oauth("A@B.com", Some("acc-1"), None), "oauth_ea6d9b3b9d8659545d");
    assert_eq!(account_id_for_oauth("a@b.com", Some("acc-1"), Some("org-9")), "oauth_6b5317eab8fd9c8f4e");
}

#[test]
fn account_ids_have_a_fixed_shape() {
    for id in [account_id_for_oauth("x", None, None), account_id_for_oauth("A", Some(""), Some(""))] {
        assert_eq!(id.len(), 24);
        assert!(id.starts_with("oauth_"));
        assert!(id[6..].chars().all(|c| c.is_ascii_digit() || ('a'..='f').contains(&c)));
    }
    assert_eq!(account_id_for_oauth("A@B.COM", None, None), account_id_for_oauth("a@b.com", Some(""), Some("")));
    let key = account_id_for_api_key("k", None);
    assert_eq!(key.len(), 25);
    assert!(key.starts_with("apikey_"));
}

#[test]
fn planned_instances_are_added_when_bound_accounts_exist() {
    let (mut store, account) = store_with_account("sk-test-1234");
    let blank = CreateInstanceParams { name: s("  "), codex_home: None, working_dir: None, extra_args: None, bind_account_id: None };
    assert_eq!(err(plan_instance(blank)), "实例名称不能为空");
    let unknown = CreateInstanceParams { name: s("A"), codex_home: Some(s("D:\\a")), working_dir: None, extra_args: None, bind_account_id: Some(s("nobody")) };
    let planned = ok(plan_instance(unknown));
    assert_eq!(planned.codex_home, "D:\\a");
    assert_eq!(err(add_instance(&mut store, planned)), "账号不存在: nobody");
    assert!(store.instances.is_empty());
    let bound = CreateInstanceParams { name: s("B"), codex_home: None, working_dir: None, extra_args: None, bind_account_id: Some(account.id) };
    let planned = ok(plan_instance(bound));
    let id = planned.id.clone();
    ok(add_instance(&mut store, planned));
    assert_eq!(store.instances.len(), 1);
    assert_eq!(store.instances[0].id, id);
}

#[test]
fn broken_config_names_no_base_url() {
    assert_eq!(read_api_base_url_from_config(Some("openai_base_url = \"https://r\"\n[[x")), None);
}

#[test]
fn instance_names_are_required() {
    assert_eq!(ok(instance_name("  Box ")), "Box");
    assert_eq!(err(instance_name(" ")), "实例名称不能为空");
}

#[test]
fn oauth_profile_from_tokens() {
    let id_token = jwt(r#"{"email":" A@B.com ","https://api.openai.com/auth":{"chatgpt_plan_type":"plus","chatgpt_account_id":"acc-1"}}"#);
    let access_token = jwt(r#"{"https://api.openai.com/auth":{"org_id":"org-9"}}"#);
    let (email, plan, account, org) = extract_oauth_profile(&id_token, &access_token);
    assert_eq!(email, "A@B.com");
    assert_eq!(plan, Some(s("plus")));
    assert_eq!(account, Some(s("acc-1")));
    assert_eq!(org, Some(s("org-9")));
}

#[test]
fn oauth_profile_of_unreadable_tokens() {
    let (email, plan, account, org) = extract_oauth_profile("not-a-jwt", "a.%%%.c");
    assert_eq!(email, "unknown-codex-account");
    assert_eq!((plan, account, org), (None, None, None));
}

#[test]
fn upsert_keeps_creation_time() {
    let mut store = Store::default();
    let mut first = ok(add_api_key_account(api_params("sk-test-1234", None)));
    first.created_at = 5;
    upsert_account(&mut store, first);
    let mut second = ok(add_api_key_account(api_params("sk-test-1234", None)));
    second.label = s("renamed");
    let stored = upsert_account(&mut store, second);
    assert_eq!(store.accounts.len(), 1);
    assert_eq!(stored.created_at, 5);
    assert_eq!(store.accounts[0].label, "renamed");
    assert_eq!(find_account(&store.accounts, &stored.id), Some(0));
    assert_eq!(find_account(&store.accounts, "nobody"), None);
}

#[test]
fn launch_script_and_command() {
    assert_eq!(
        build_launch_script("C:\\h\"x", Some("  D:\\work  "), "  --model o3 ", "C:\\npm\\codex.cmd"),
        "cd /d \"D:\\work\" && set \"CODEX_HOME=C:\\hx\" && \"C:\\npm\\codex.cmd\" --model o3"
    );
    assert_eq!(
        build_launch_command("C:\\h", None, "", None),
        "cmd.exe /d /k set \"CODEX_HOME=C:\\h\" && \"%APPDATA%\\npm\\codex.cmd\""
    );
    assert_eq!(
        build_launch_command("C:\\h", Some("   "), " ", Some("C:\\c.cmd")),
        "cmd.exe /d /k set \"CODEX_HOME=C:\\h\" && \"C:\\c.cmd\""
    );
}

#[test]
fn terminal_launch_plans() {
    let inst = instance("inst_1", None);
    assert_eq!(err(codex_terminal_launch(&inst, None, true)), "未找到 Codex CLI，请先安装 npm 版 @openai/codex");
    let wt = ok(codex_terminal_launch(&inst, Some("C:\\c.cmd"), true));
    let script = "set \"CODEX_HOME=C:\\homes\\work\" && \"C:\\c.cmd\"";
    assert_eq!(wt.program, "wt.exe");
    assert_eq!(wt.args, vec![s("new-tab"), s("--title"), s("Codex - Work"), s("cmd.exe"), s("/d"), s("/k"), s(script)]);
    assert_eq!(wt.command, format!("wt.exe new-tab --title \"Codex - Work\" cmd.exe /d /k {}", script));
    assert!(!wt.new_console);
    let cmd = ok(codex_terminal_launch(&inst, Some("C:\\c.cmd"), false));
    assert_eq!(cmd.program, "cmd.exe");
    assert_eq!(cmd.args, vec![s("/d"), s("/k"), s(script)]);
    assert_eq!(cmd.command, format!("cmd.exe /d /k {}", script));
    assert!(cmd.new_console);
    assert_eq!(cmd.failure_prefix, "启动 cmd.exe 失败: ");
}

#[test]
fn instance_view_copies_and_describes() {
    let mut inst = instance("inst_1", Some("acc"));
    inst.last_pid = None;
    let view = instance_view(&inst, false, true, Some("C:\\c.cmd"));
    assert_eq!(view.id, "inst_1");
    assert_eq!(view.bind_account_id, Some(s("acc")));
    assert!(view.initialized && !view.is_default && !view.running);
    assert_eq!(view.launch_command, "cmd.exe /d /k set \"CODEX_HOME=C:\\homes\\work\" && \"C:\\c.cmd\"");
}

#[test]
fn default_instance_follows_current_account() {
    let (store, account) = store_with_account("sk-test-1234");
    let def = ok(default_instance(&store, Some("C:\\codex")));
    assert_eq!(def.id, "__default__");
    assert_eq!(def.name, "默认 Codex");
    assert_eq!(def.codex_home, "C:\\codex");
    assert_eq!(def.bind_account_id, Some(account.id));
    let resolved = ok(resolve_launch_instance(&store, "__default__", Some("C:\\codex")));
    assert_eq!(resolved.codex_home, "C:\\codex");
    assert_eq!(err(resolve_launch_instance(&store, "inst_x", None)), "实例不存在: inst_x");
}

#[test]
fn config_base_url_is_read() {
    assert_eq!(read_api_base_url_from_config(Some("openai_base_url = \" https://relay.example/v1/ \"\n")), Some(s("https://relay.example/v1")));
    let by_provider = "model_provider = \"relay\"\n[model_providers.relay]\nbase_url = \"https://p.example/api//\"\n";
    assert_eq!(read_api_base_url_from_config(Some(by_provider)), Some(s("https://p.example/api")));
    assert_eq!(read_api_base_url_from_config(Some("model = \"o3\"\n")), None);
    assert_eq!(read_api_base_url_from_config(Some("this is [not toml")), None);
    assert_eq!(read_api_base_url_from_config(None), None);
}

#[test]
fn provider_config_for_api_key_and_oauth() {
    let relay = ok(add_api_key_account(api_params("sk-test-1234", Some("https://relay.example/v1/"))));
    let existing = "model = \"o3\"\nmodel_provider = \"old\"\n";
    let text = ok(write_api_provider_to_config(existing, true, &relay)).unwrap();
    assert!(text.contains("model = \"o3\""));
    assert!(text.contains("model_provider = \"openai\""));
    assert!(!text.contains("\"old\""));
    assert_eq!(read_api_base_url_from_config(Some(&text)), Some(s("https://relay.example/v1")));

    let official = ok(add_api_key_account(api_params("sk-test-1234", Some("https://api.openai.com/v1"))));
    let text = ok(write_api_provider_to_config(existing, true, &official)).unwrap();
    assert!(text.contains("model_provider = \"openai\""));
    assert!(!text.contains("openai_base_url"));
    assert_eq!(read_api_base_url_from_config(Some(&text)), None);

    assert_eq!(ok(write_api_provider_to_config("  ", false, &official)), Some(s("model_provider = \"openai\"\n")));
    assert_eq!(ok(write_api_provider_to_config("", true, &official)), Some(s("model_provider = \"openai\"\n")));
    assert!(err(write_api_provider_to_config("a = [", true, &official)).starts_with("解析 config.toml 失败: "));

    let oauth = ok(add_token_account(AddTokenParams { label: None, id_token: s("x"), access_token: s("y"), refresh_token: None, account_id: None }));
    let text = ok(write_api_provider_to_config("openai_base_url = \"https://r\"\nmodel_provider = \"openai\"\nmodel = \"o3\"\n", true, &oauth)).unwrap();
    assert_eq!(text, "model = \"o3\"\n");
    assert_eq!(ok(write_api_provider_to_config("  ", false, &oauth)), None);
}

#[test]
fn relay_provider_table_is_read_when_no_custom_url() {
    let official = ok(add_api_key_account(api_params("sk-test-1234", None)));
    let existing = "[model_providers.openai]\nbase_url = \"https://proxy.example/v1/\"\n";
    let text = ok(write_api_provider_to_config(existing, true, &official)).unwrap();
    assert_eq!(read_api_base_url_from_config(Some(&text)), Some(s("https://proxy.example/v1")));
}

#[test]
fn auth_json_for_api_key() {
    let account = ok(add_api_key_account(api_params("  sk-test-1234  ", None)));
    assert_eq!(
        ok(build_auth_json(&account)),
        "{\n  \"OPENAI_API_KEY\": \"sk-test-1234\",\n  \"auth_mode\": \"apikey\"\n}"
    );
    let mut broken = account.clone();
    broken.openai_api_key = Some(s("  "));
    assert_eq!(err(build_auth_json(&broken)), "API Key 账号缺少 OPENAI_API_KEY");
}

#[test]
fn auth_json_for_oauth() {
    let params = AddTokenParams {
        label: None,
        id_token: jwt(r#"{"email":"a@b.com"}"#),
        access_token: s("access"),
        refresh_token: Some(s("refresh")),
        account_id: Some(s("acc-1")),
    };
    let account = ok(add_token_account(params));
    let text = ok(build_auth_json(&account));
    let value: serde_json::Value = serde_json::from_str(&text).unwrap();
    assert_eq!(value["OPENAI_API_KEY"], serde_json::Value::Null);
    assert_eq!(value["tokens"]["access_token"], "access");
    assert_eq!(value["tokens"]["refresh_token"], "refresh");
    assert_eq!(value["tokens"]["account_id"], "acc-1");
    let stamp = value["last_refresh"].as_str().unwrap();
    assert_eq!(stamp.len(), 27);
    assert!(stamp.ends_with('Z') && stamp.as_bytes()[10] == b'T' && stamp.as_bytes()[19] == b'.');
    assert!(stamp[..4].chars().all(|c| c.is_ascii_digit()));
    let mut broken = account.clone();
    broken.tokens = None;
    assert_eq!(err(build_auth_json(&broken)), "OAuth 账号缺少 tokens");
    let mut blank = account.clone();
    blank.tokens.as_mut().unwrap().access_token = s(" ");
    assert_eq!(err(build_auth_json(&blank)), "OAuth 账号缺少 id_token/access_token");
}

#[test]
fn api_key_account_round_trips_through_codex_home() {
    let account = ok(add_api_key_account(api_params("sk-test-1234", Some("https://relay.example/v1"))));
    let config = ok(write_api_provider_to_config("", true, &account)).unwrap();
    let file = CodexAuthFile { auth_mode: None, openai_api_key: Some(s("sk-test-1234")), base_url: None, tokens: None };
    let imported = ok(parse_auth_file(file, Some(&config), None));
    assert_eq!(imported.id, account.id);
    assert_eq!(imported.api_base_url, account.api_base_url);
    assert_eq!(imported.openai_api_key, account.openai_api_key);
}

#[test]
fn oauth_account_round_trips_through_codex_home() {
    let id_token = jwt(r#"{"email":"a@b.com","https://api.openai.com/auth":{"account_id":"acc-1"}}"#);
    let params = AddTokenParams { label: None, id_token: id_token.clone(), access_token: s("access"), refresh_token: None, account_id: None };
    let account = ok(add_token_account(params));
    let file = CodexAuthFile {
        auth_mode: None,
        openai_api_key: None,
        base_url: None,
        tokens: Some(CodexAuthTokens { id_token, access_token: s("access"), refresh_token: None, account_id: Some(s("acc-1")) }),
    };
    let imported = ok(parse_auth_file(file, None, Some(s("  Imported "))));
    assert_eq!(imported.id, account.id);
    assert_eq!(imported.id, "oauth_ea6d9b3b9d8659545d");
    assert_eq!(imported.label, "Imported");
    assert_eq!(imported.auth_mode, CodexAuthMode::OAuth);
}

#[test]
fn auth_file_without_key_or_tokens() {
    let file = CodexAuthFile { auth_mode: None, openai_api_key: Some(s("  ")), base_url: None, tokens: None };
    assert_eq!(err(parse_auth_file(file, None, None)), "auth.json 缺少 OPENAI_API_KEY 或 OAuth tokens");
}

#[test]
fn auth_file_base_url_wins_over_config() {
    let file = CodexAuthFile { auth_mode: Some(s(" APIKEY ")), openai_api_key: Some(s("sk-test-1234")), base_url: Some(s("https://relay.example/v1/")), tokens: None };
    let account = ok(parse_auth_file(file, Some("openai_base_url = \"https://other\""), None));
    assert_eq!(account.api_base_url, Some(s("https://relay.example/v1")));
    assert_eq!(account.id, "apikey_7e187404a4617fafe0");
    assert_eq!(account.label, "API Key 1234");
    assert_eq!(account.plan_type, Some(s("API_KEY")));
}

#[test]
fn cli_location_prefers_npm() {
    let (path, source) = cli_location(Some(s("C:\\npm\\codex.cmd")), Some(s("C:\\other\\codex.exe")));
    assert_eq!((path, source), (Some(s("C:\\npm\\codex.cmd")), s("npm-global")));
    let (path, source) = cli_location(None, Some(s("C:\\other\\codex.exe")));
    assert_eq!((path, source), (Some(s("C:\\other\\codex.exe")), s("path")));
    assert_eq!(cli_version("  codex-cli 0.40.0\r\n"), Some(s("codex-cli 0.40.0")));
    assert_eq!(cli_version(" \n"), None);
    let expected = std::path::Path::new("C:\\Users\\me\\AppData\\Roaming").join("npm").join("codex.cmd");
    assert_eq!(npm_codex_path("C:\\Users\\me\\AppData\\Roaming"), expected.to_string_lossy());
}

// ---- models ----

#[test]
fn account_view_hides_secrets() {
    let params = AddTokenParams {
        label: Some(s("Work")),
        id_token: jwt(r#"{"email":"a@b.com"}"#),
        access_token: s("access"),
        refresh_token: Some(s("refresh")),
        account_id: None,
    };
    let account = ok(add_token_account(params));
    let view = CodexAccountView::from(&account);
    assert_eq!(view.id, account.id);
    assert_eq!(view.label, "Work");
    assert!(view.has_refresh_token);
    assert!(!view.has_api_key);
    let key_account = ok(add_api_key_account(api_params("sk-test-1234", None)));
    let view = CodexAccountView::from(&key_account);
    assert!(view.has_api_key && !view.has_refresh_token);
}

#[test]
fn default_store_is_empty() {
    let store = Store::default();
    assert_eq!(store.version, "1.0");
    assert!(store.current_account_id.is_none() && store.accounts.is_empty() && store.instances.is_empty());
}

// ---- commands: accounts ----

#[test]
fn add_api_key_account_fields() {
    let params = AddApiKeyParams { label: Some(s("  ")), email: None, api_key: s("  sk-test-1234 "), api_base_url: Some(s("https://relay.example/v1/")) };
    let account = ok(add_api_key_account(params));
    assert_eq!(account.id, "apikey_7e187404a4617fafe0");
    assert_eq!(account.label, "API Key 1234");
    assert_eq!(account.email, "API Key 1234");
    assert_eq!(account.auth_mode, CodexAuthMode::Apikey);
    assert_eq!(account.openai_api_key, Some(s("sk-test-1234")));
    assert_eq!(account.api_base_url, Some(s("https://relay.example/v1")));
    assert_eq!(account.created_at, account.last_used);
    assert_eq!(err(add_api_key_account(api_params("   ", None))), "API Key 不能为空");
}

#[test]
fn same_key_gives_same_account() {
    let a = ok(add_api_key_account(api_params(" sk-test-1234", Some("https://relay.example/v1"))));
    let b = ok(add_api_key_account(AddApiKeyParams { label: Some(s("other")), email: Some(s("e")), api_key: s("sk-test-1234 "), api_base_url: Some(s("https://relay.example/v1///")) }));
    assert_eq!(a.id, b.id);
    let mut store = Store::default();
    make_current(&mut store, a);
    make_current(&mut store, b);
    assert_eq!(store.accounts.len(), 1);
}

#[test]
fn add_token_account_errors_and_fields() {
    let missing_id = AddTokenParams { label: None, id_token: s(" "), access_token: s("x"), refresh_token: None, account_id: None };
    assert_eq!(err(add_token_account(missing_id)), "id_token 不能为空");
    let missing_access = AddTokenParams { label: None, id_token: s("x"), access_token: s(" "), refresh_token: None, account_id: None };
    assert_eq!(err(add_token_account(missing_access)), "access_token 不能为空");
    let params = AddTokenParams {
        label: None,
        id_token: jwt(r#"{"email":"A@B.com","https://api.openai.com/auth":{"chatgpt_account_id":"from-token","chatgpt_plan_type":"pro"}}"#),
        access_token: s(" access "),
        refresh_token: Some(s("  ")),
        account_id: Some(s(" acc-1 ")),
    };
    let account = ok(add_token_account(params));
    assert_eq!(account.id, "oauth_ea6d9b3b9d8659545d");
    assert_eq!(account.email, "A@B.com");
    assert_eq!(account.label, "A@B.com");
    assert_eq!(account.account_id, Some(s("acc-1")));
    assert_eq!(account.plan_type, Some(s("pro")));
    let tokens = account.tokens.unwrap();
    assert_eq!(tokens.access_token, "access");
    assert_eq!(tokens.refresh_token, None);
    assert_eq!(tokens.account_id, Some(s("acc-1")));
}

#[test]
fn switch_account_marks_current() {
    let (mut store, first) = store_with_account("sk-test-1111");
    let second = make_current(&mut store, ok(add_api_key_account(api_params("sk-test-2222", None))));
    assert_eq!(store.current_account_id, Some(second.id.clone()));
    let switched = ok(switch_account(&mut store, &first.id));
    assert_eq!(switched.id, first.id);
    assert_eq!(store.current_account_id, Some(first.id.clone()));
    assert!(store.accounts[0].last_used >= first.last_used);
    assert_eq!(err(switch_account(&mut store, "nobody")), "账号不存在: nobody");
    assert_eq!(store.current_account_id, Some(first.id));
}

#[test]
fn account_lookup() {
    let (store, account) = store_with_account("sk-test-1234");
    assert_eq!(ok(account_by_id(&store, &account.id)).label, "API Key 1234");
    assert_eq!(err(account_by_id(&store, "x")), "账号不存在: x");
}

#[test]
fn delete_account_unbinds_everything() {
    let (mut store, account) = store_with_account("sk-test-1234");
    store.instances.push(instance("inst_1", Some(&account.id)));
    store.instances.push(instance("inst_2", Some("other")));
    delete_account(&mut store, &account.id);
    assert!(store.accounts.is_empty());
    assert_eq!(store.current_account_id, None);
    assert_eq!(store.instances[0].bind_account_id, None);
    assert_eq!(store.instances[1].bind_account_id, Some(s("other")));
}

#[test]
fn update_account_label_checks() {
    let (mut store, account) = store_with_account("sk-test-1234");
    assert_eq!(err(update_account_label(&mut store, &account.id, "  ")), "账号名称不能为空");
    assert_eq!(err(update_account_label(&mut store, "x", "Name")), "账号不存在: x");
    ok(update_account_label(&mut store, &account.id, "  Main "));
    assert_eq!(store.accounts[0].label, "Main");
}

// ---- commands: instances ----

#[test]
fn create_instance_checks_and_generates() {
    let (mut store, account) = store_with_account("sk-test-1234");
    let blank = CreateInstanceParams { name: s(" "), codex_home: None, working_dir: None, extra_args: None, bind_account_id: None };
    assert_eq!(err(create_instance(&mut store, blank)), "实例名称不能为空");
    let unknown = CreateInstanceParams { name: s("A"), codex_home: None, working_dir: None, extra_args: None, bind_account_id: Some(s("nobody")) };
    assert_eq!(err(create_instance(&mut store, unknown)), "账号不存在: nobody");
    assert!(store.instances.is_empty());

    let given = CreateInstanceParams {
        name: s("  Work Box "),
        codex_home: Some(s(" D:\\homes\\work ")),
        working_dir: Some(s("  ")),
        extra_args: Some(s(" --full-auto ")),
        bind_account_id: Some(account.id.clone()),
    };
    let inst = ok(create_instance(&mut store, given));
    assert!(inst.id.starts_with("inst_"));
    assert_eq!(inst.id.len(), 37);
    assert!(inst.id[5..].chars().all(|c| c.is_ascii_hexdigit() && !c.is_ascii_uppercase()));
    assert_eq!(inst.name, "Work Box");
    assert_eq!(inst.codex_home, "D:\\homes\\work");
    assert_eq!(inst.working_dir, None);
    assert_eq!(inst.extra_args, "--full-auto");
    assert_eq!(inst.bind_account_id, Some(account.id));
    assert_eq!(store.instances.len(), 1);

    let generated = CreateInstanceParams { name: s("Work Box"), codex_home: None, working_dir: None, extra_args: None, bind_account_id: None };
    let inst = ok(create_instance(&mut store, generated));
    let dir = format!("work-box-{}", &inst.id[5..13]);
    assert!(inst.codex_home.ends_with(&dir));
    assert_eq!(inst.extra_args, "");
    assert_eq!(store.instances.len(), 2);
}

#[test]
fn update_instance_checks_and_edits() {
    let (mut store, account) = store_with_account("sk-test-1234");
    store.instances.push(instance("inst_1", Some("old")));
    let params = |id: &str| UpdateInstanceParams { instance_id: s(id), name: None, codex_home: None, working_dir: None, extra_args: None, bind_account_id: None };
    assert_eq!(err(update_instance(&mut store, params("__default__"))), "默认实例暂不支持编辑，请直接切换账号或启动");
    let mut unknown = params("inst_1");
    unknown.bind_account_id = Some(Some(s("nobody")));
    assert_eq!(err(update_instance(&mut store, unknown)), "账号不存在: nobody");
    assert_eq!(err(update_instance(&mut store, params("inst_9"))), "实例不存在: inst_9");

    let edit = UpdateInstanceParams {
        instance_id: s("inst_1"),
        name: Some(s("  ")),
        codex_home: Some(s(" E:\\h ")),
        working_dir: Some(Some(s(" F:\\w "))),
        extra_args: Some(s("  -m o3  ")),
        bind_account_id: Some(Some(account.id.clone())),
    };
    let updated = ok(update_instance(&mut store, edit));
    assert_eq!(updated.name, "Work");
    assert_eq!(updated.codex_home, "E:\\h");
    assert_eq!(updated.working_dir, Some(s("F:\\w")));
    assert_eq!(updated.extra_args, "-m o3");
    assert_eq!(updated.bind_account_id, Some(account.id));
    assert_eq!(store.instances[0].codex_home, "E:\\h");

    let mut clear = params("inst_1");
    clear.working_dir = Some(None);
    clear.bind_account_id = Some(None);
    let cleared = ok(update_instance(&mut store, clear));
    assert_eq!(cleared.working_dir, None);
    assert_eq!(cleared.bind_account_id, None);
    assert_eq!(cleared.extra_args, "-m o3");
}

#[test]
fn delete_instance_keeps_default() {
    let mut store = Store::default();
    store.instances.push(instance("inst_1", None));
    store.instances.push(instance("inst_2", None));
    assert_eq!(err(delete_instance(&mut store, "__default__")), "默认实例不能删除");
    ok(delete_instance(&mut store, "inst_1"));
    assert_eq!(store.instances.len(), 1);
    assert_eq!(store.instances[0].id, "inst_2");
    ok(delete_instance(&mut store, "inst_1"));
    assert_eq!(store.instances.len(), 1);
}

#[test]
fn launches_are_recorded_except_default() {
    let mut store = Store::default();
    store.instances.push(instance("inst_1", None));
    assert!(!record_launch(&mut store, "__default__", Some(9)));
    assert!(record_launch(&mut store, "inst_1", Some(9)));
    assert_eq!(store.instances[0].last_pid, Some(9));
    assert!(store.instances[0].last_launched_at.is_some());
    assert!(record_launch(&mut store, "inst_x", Some(3)));
    assert_eq!(store.instances.len(), 1);
}

#[test]
fn stop_instance_returns_the_process() {
    let mut store = Store::default();
    store.instances.push(instance("inst_1", None));
    assert_eq!(err(stop_instance(&mut store, "__default__")), "默认实例没有可跟踪的进程，请在终端窗口中退出");
    assert_eq!(err(stop_instance(&mut store, "inst_2")), "实例不存在: inst_2");
    assert_eq!(ok(stop_instance(&mut store, "inst_1")), Some(42));
    assert_eq!(store.instances[0].last_pid, None);
    assert_eq!(ok(stop_instance(&mut store, "inst_1")), None);
}

#[test]
fn open_path_needs_a_path() {
    assert_eq!(ok(open_path("  C:\\x ")), "C:\\x");
    assert_eq!(err(open_path("  ")), "路径不能为空");
}

#[test]
fn launch_command_of_instances() {
    let mut store = Store::default();
    let mut inst = instance("inst_1", None);
    inst.working_dir = Some(s("D:\\w"));
    inst.extra_args = s("--x");
    store.instances.push(inst);
    assert_eq!(
        ok(get_instance_launch_command(&store, "inst_1", None, Some("C:\\c.cmd"))),
        "cmd.exe /d /k cd /d \"D:\\w\" && set \"CODEX_HOME=C:\\homes\\work\" && \"C:\\c.cmd\" --x"
    );
    assert_eq!(
        ok(get_instance_launch_command(&store, "__default__", Some("C:\\codex"), None)),
        "cmd.exe /d /k set \"CODEX_HOME=C:\\codex\" && \"%APPDATA%\\npm\\codex.cmd\""
    );
    assert_eq!(err(get_instance_launch_command(&store, "inst_2", None, None)), "实例不存在: inst_2");
}

// ---- quota ----

fn usage() -> UsageResponse {
    UsageResponse {
        plan_type: Some(s("plus")),
        rate_limit: Some(RateLimitInfo {
            primary_window: Some(window(Some(30), Some(18000), Some(600), None)),
            secondary_window: Some(window(Some(130), Some(61), None, Some(99))),
        }),
        code_review_rate_limit: Some(RateLimitInfo { primary_window: Some(window(Some(-5), Some(0), Some(-1), None)), secondary_window: None }),
    }
}

#[test]
fn quota_from_usage() {
    let u = usage();
    assert!(usage_in_range(&u, 1000));
    let q = parse_quota(&u, 1000);
    assert_eq!(q.hourly_percentage, 70);
    assert_eq!(q.hourly_reset_time, Some(1600));
    assert_eq!(q.hourly_window_minutes, Some(300));
    assert_eq!(q.hourly_window_present, Some(true));
    assert_eq!(q.weekly_percentage, 0);
    assert_eq!(q.weekly_reset_time, Some(99));
    assert_eq!(q.weekly_window_minutes, Some(2));
    assert_eq!(q.code_review_percentage, Some(100));
    assert_eq!(q.code_review_reset_time, None);
    assert_eq!(q.code_review_window_minutes, None);
    let r = quota_result(u, 1000);
    assert_eq!(r.plan_type, Some(s("plus")));
    assert_eq!(r.quota, q);
}

#[test]
fn quota_without_windows() {
    let u = UsageResponse { plan_type: None, rate_limit: None, code_review_rate_limit: None };
    let q = parse_quota(&u, 5);
    assert_eq!((q.hourly_percentage, q.weekly_percentage), (100, 100));
    assert_eq!((q.hourly_window_present, q.weekly_window_present), (Some(false), Some(false)));
    assert_eq!(q.code_review_percentage, None);
}

#[test]
fn usage_out_of_range_is_detected() {
    let u = UsageResponse {
        plan_type: None,
        rate_limit: Some(RateLimitInfo { primary_window: Some(window(None, None, Some(i64::MAX), None)), secondary_window: None }),
        code_review_rate_limit: None,
    };
    assert!(!usage_in_range(&u, 10));
    assert!(usage_in_range(&u, 0));
}

#[test]
fn quota_requests() {
    assert_eq!(usage_url(), "https://chatgpt.com/backend-api/wham/usage");
    let key = ok(add_api_key_account(api_params("sk-test-1234", None)));
    assert_eq!(err(quota_request(&key)), "API Key 账号不支持刷新 ChatGPT/Codex 网页额度");
    let params = AddTokenParams { label: None, id_token: jwt("{}"), access_token: s("tok"), refresh_token: None, account_id: Some(s("acc-1")) };
    let mut account = ok(add_token_account(params));
    let req = ok(quota_request(&account));
    assert_eq!(req.authorization, "Bearer tok");
    assert_eq!(req.account_id, Some(s("acc-1")));
    account.tokens.as_mut().unwrap().access_token = s("bad\ntoken");
    assert_eq!(err(quota_request(&account)), "构建 Authorization 头失败: failed to parse header value");
    account.tokens.as_mut().unwrap().access_token = s("tok");
    account.account_id = Some(s("a\u{7f}b"));
    assert_eq!(err(quota_request(&account)), "构建 ChatGPT-Account-Id 头失败: failed to parse header value");
    account.tokens = None;
    assert_eq!(err(quota_request(&account)), "OAuth 账号缺少 tokens");
}

#[test]
fn quota_status_errors_are_cut() {
    assert_eq!(quota_status_error("404 Not Found", "missing"), "额度接口返回 404 Not Found: missing");
    let long = "x".repeat(300);
    assert_eq!(quota_status_error("500", &long), format!("额度接口返回 500: {}", "x".repeat(240)));
}

#[test]
fn quota_outcomes_are_recorded() {
    let (mut store, account) = store_with_account("sk-test-1234");
    store.accounts[0].plan_type = Some(s("old"));
    let quota = parse_quota(&usage(), 1);
    record_quota_result(&mut store, &account.id, Ok(QuotaFetchResult { quota, plan_type: None }));
    assert_eq!(store.accounts[0].quota, Some(quota));
    assert_eq!(store.accounts[0].plan_type, Some(s("old")));
    assert!(store.accounts[0].usage_updated_at.is_some());
    record_quota_result(&mut store, &account.id, Err(s("boom")));
    assert_eq!(store.accounts[0].quota, Some(quota));
    assert_eq!(store.accounts[0].quota_error.as_ref().unwrap().message, "boom");
    record_quota_at(&mut store, 0, Ok(QuotaFetchResult { quota, plan_type: Some(s("pro")) }));
    assert!(store.accounts[0].quota_error.is_none());
    assert_eq!(store.accounts[0].plan_type, Some(s("pro")));
    record_quota_result(&mut store, "nobody", Err(s("ignored")));
    assert_eq!(store.accounts.len(), 1);
}

#[test]
fn quota_targets_skip_api_keys() {
    let (mut store, _) = store_with_account("sk-test-1234");
    let oauth = AddTokenParams { label: None, id_token: jwt("{}"), access_token: s("tok"), refresh_token: None, account_id: None };
    make_current(&mut store, ok(add_token_account(oauth)));
    make_current(&mut store, ok(add_api_key_account(api_params("sk-test-5678", None))));
    assert_eq!(quota_refresh_targets(&store), vec![1]);
}

// ---- API channels ----

fn channel_params(name: &str, base: &str, key: &str) -> AddApiChannelParams {
    AddApiChannelParams { name: s(name), base_url: s(base), api_key: s(key) }
}

#[test]
fn channels_are_added_and_found() {
    let mut store = ApiChannelStore::default();
    assert_eq!(store.version, "1.0");
    assert_eq!(err(add_api_channel(&mut store, channel_params(" ", "https://r", "k"))), "名称不能为空");
    assert_eq!(err(add_api_channel(&mut store, channel_params("R", " // ", "k"))), "Base URL 不能为空");
    assert_eq!(err(add_api_channel(&mut store, channel_params("R", "https://r", " "))), "API Key不能为空");
    assert!(store.channels.is_empty());
    let id = ok(add_api_channel(&mut store, channel_params(" Relay ", " https://relay.example/v1/ ", " sk-relay-123456 ")));
    assert!(id.starts_with("channel_") && id.len() == 40);
    let channel: ApiChannel = ok(get_api_channel(&store, &id));
    assert_eq!(channel.name, "Relay");
    assert_eq!(channel.base_url, "https://relay.example/v1");
    assert_eq!(channel.api_key, "sk-relay-123456");
    assert_eq!(channel.last_used, None);
    assert_eq!(err(get_api_channel(&store, "channel_x")), "API 中转不存在: channel_x");
}

#[test]
fn channels_are_updated_used_and_deleted() {
    let mut store = ApiChannelStore::default();
    let id = ok(add_api_channel(&mut store, channel_params("Relay", "https://r", "sk-relay-123456")));
    let update = |name: Option<&str>, base: Option<&str>, key: Option<&str>| UpdateApiChannelParams {
        channel_id: id.clone(),
        name: name.map(s),
        base_url: base.map(s),
        api_key: key.map(s),
    };
    assert_eq!(err(update_api_channel(&mut store, update(Some(" "), None, None))), "名称不能为空");
    assert_eq!(err(update_api_channel(&mut store, update(None, Some("/"), None))), "Base URL 不能为空");
    ok(update_api_channel(&mut store, update(Some("New"), Some("https://n/"), Some("  "))));
    let channel = ok(get_api_channel(&store, &id));
    assert_eq!((channel.name.as_str(), channel.base_url.as_str(), channel.api_key.as_str()), ("New", "https://n", "sk-relay-123456"));
    let missing = UpdateApiChannelParams { channel_id: s("channel_x"), name: None, base_url: None, api_key: None };
    assert_eq!(err(update_api_channel(&mut store, missing)), "API 中转不存在: channel_x");

    ok(mark_api_channel_used(&mut store, &id));
    assert_eq!(store.current_channel_id, Some(id.clone()));
    assert!(store.channels[0].last_used.is_some());
    assert_eq!(err(mark_api_channel_used(&mut store, "channel_x")), "API 中转不存在: channel_x");
    clear_current_api_channel(&mut store);
    assert_eq!(store.current_channel_id, None);

    ok(mark_api_channel_used(&mut store, &id));
    ok(delete_api_channel(&mut store, &id));
    assert!(store.channels.is_empty());
    assert_eq!(store.current_channel_id, None);
    assert_eq!(err(delete_api_channel(&mut store, &id)), format!("API 中转不存在: {}", id));
}

#[test]
fn channel_view_masks_the_key() {
    let channel = |key: &str| ApiChannel { id: s("c"), name: s("n"), base_url: s("b"), api_key: s(key), created_at: 1, updated_at: 2, last_used: None };
    let view = ApiChannelView::from(&channel("  sk-relay-123456 "));
    assert_eq!(view.key_preview, "sk-r****3456");
    assert!(view.has_api_key);
    assert_eq!(ApiChannelView::from(&channel("12345678")).key_preview, "****");
    let empty = ApiChannelView::from(&channel("  "));
    assert_eq!(empty.key_preview, "****");
    assert!(!empty.has_api_key);
}
