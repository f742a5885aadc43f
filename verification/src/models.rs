use vstd::prelude::*;
use vstd::string::StringExecFns;

use crate::api_channels::ApiChannelView;
use crate::text::{opt_view, trim};

verus! {

/// The identifier of the instance that stands for the default Codex home.
pub open spec fn default_instance_id() -> Seq<char> {
    "__default__"@
}

#[derive(Clone, Copy, Debug, PartialEq, Eq, Structural)]
pub enum CodexAuthMode {
    OAuth,
    Apikey,
}

pub struct CodexTokens {
    pub id_token: String,
    pub access_token: String,
    pub refresh_token: Option<String>,
    pub account_id: Option<String>,
}

#[derive(Clone, Copy, Debug, PartialEq, Eq, Structural)]
pub struct CodexQuota {
    pub hourly_percentage: i32,
    pub hourly_reset_time: Option<i64>,
    pub hourly_window_minutes: Option<i64>,
    pub hourly_window_present: Option<bool>,
    pub weekly_percentage: i32,
    pub weekly_reset_time: Option<i64>,
    pub weekly_window_minutes: Option<i64>,
    pub weekly_window_present: Option<bool>,
    pub code_review_percentage: Option<i32>,
    pub code_review_reset_time: Option<i64>,
    pub code_review_window_minutes: Option<i64>,
}

pub struct CodexQuotaErrorInfo {
    pub message: String,
    pub timestamp: i64,
}

pub struct CodexAccount {
    pub id: String,
    pub label: String,
    pub email: String,
    pub auth_mode: CodexAuthMode,
    pub openai_api_key: Option<String>,
    pub api_base_url: Option<String>,
    pub account_id: Option<String>,
    pub organization_id: Option<String>,
    pub plan_type: Option<String>,
    pub subscription_active_until: Option<i64>,
    pub tokens: Option<CodexTokens>,
    pub quota: Option<CodexQuota>,
    pub quota_error: Option<CodexQuotaErrorInfo>,
    pub usage_updated_at: Option<i64>,
    pub created_at: i64,
    pub last_used: i64,
}

/// What the interface shows of an account: no key and no token, only whether
/// they are there.
pub struct CodexAccountView {
    pub id: String,
    pub label: String,
    pub email: String,
    pub auth_mode: CodexAuthMode,
    pub api_base_url: Option<String>,
    pub account_id: Option<String>,
    pub organization_id: Option<String>,
    pub plan_type: Option<String>,
    pub subscription_active_until: Option<i64>,
    pub has_api_key: bool,
    pub has_refresh_token: bool,
    pub quota: Option<CodexQuota>,
    pub quota_error: Option<CodexQuotaErrorInfo>,
    pub usage_updated_at: Option<i64>,
    pub created_at: i64,
    pub last_used: i64,
}

pub struct CodexInstance {
    pub id: String,
    pub name: String,
    pub codex_home: String,
    pub working_dir: Option<String>,
    pub extra_args: String,
    pub bind_account_id: Option<String>,
    pub created_at: i64,
    pub last_launched_at: Option<i64>,
    pub last_pid: Option<u32>,
}

pub struct CodexInstanceView {
    pub id: String,
    pub name: String,
    pub codex_home: String,
    pub working_dir: Option<String>,
    pub extra_args: String,
    pub bind_account_id: Option<String>,
    pub created_at: i64,
    pub last_launched_at: Option<i64>,
    pub last_pid: Option<u32>,
    pub running: bool,
    pub initialized: bool,
    pub is_default: bool,
    pub launch_command: String,
}

pub struct Store {
    pub version: String,
    pub current_account_id: Option<String>,
    pub accounts: Vec<CodexAccount>,
    pub instances: Vec<CodexInstance>,
}

pub struct CodexCliStatus {
    pub path: Option<String>,
    pub version: Option<String>,
    pub source: String,
}

pub struct AppState {
    pub data_dir: String,
    pub default_codex_home: String,
    pub store_path: String,
    pub api_channels_path: String,
    pub current_account_id: Option<String>,
    pub current_api_channel_id: Option<String>,
    pub accounts: Vec<CodexAccountView>,
    pub api_channels: Vec<ApiChannelView>,
    pub instances: Vec<CodexInstanceView>,
    pub codex_cli: CodexCliStatus,
    pub windows_terminal_available: bool,
}

pub struct AddApiKeyParams {
    pub label: Option<String>,
    pub email: Option<String>,
    pub api_key: String,
    pub api_base_url: Option<String>,
}

pub struct AddTokenParams {
    pub label: Option<String>,
    pub id_token: String,
    pub access_token: String,
    pub refresh_token: Option<String>,
    pub account_id: Option<String>,
}

pub struct CreateInstanceParams {
    pub name: String,
    pub codex_home: Option<String>,
    pub working_dir: Option<String>,
    pub extra_args: Option<String>,
    pub bind_account_id: Option<String>,
}

pub struct UpdateInstanceParams {
    pub instance_id: String,
    pub name: Option<String>,
    pub codex_home: Option<String>,
    pub working_dir: Option<Option<String>>,
    pub extra_args: Option<String>,
    pub bind_account_id: Option<Option<String>>,
}

pub struct LaunchResult {
    pub instance_id: String,
    pub pid: Option<u32>,
    pub command: String,
}

/// A copy of an optional string.
pub fn clone_opt_string(o: &Option<String>) -> (r: Option<String>)
    ensures
        r == *o,
{
    match o {
        Some(s) => Some(s.clone()),
        None => None,
    }
}

impl Clone for CodexTokens {
    fn clone(&self) -> (r: Self)
        ensures
            r == *self,
    {
        CodexTokens {
            id_token: self.id_token.clone(),
            access_token: self.access_token.clone(),
            refresh_token: clone_opt_string(&self.refresh_token),
            account_id: clone_opt_string(&self.account_id),
        }
    }
}

impl Clone for CodexQuotaErrorInfo {
    fn clone(&self) -> (r: Self)
        ensures
            r == *self,
    {
        CodexQuotaErrorInfo { message: self.message.clone(), timestamp: self.timestamp }
    }
}

/// A copy of optional quota error details.
pub fn clone_opt_quota_error(o: &Option<CodexQuotaErrorInfo>) -> (r: Option<CodexQuotaErrorInfo>)
    ensures
        r == *o,
{
    match o {
        Some(e) => Some(e.clone()),
        None => None,
    }
}

impl Clone for CodexAccount {
    fn clone(&self) -> (r: Self)
        ensures
            r == *self,
    {
        CodexAccount {
            id: self.id.clone(),
            label: self.label.clone(),
            email: self.email.clone(),
            auth_mode: self.auth_mode,
            openai_api_key: clone_opt_string(&self.openai_api_key),
            api_base_url: clone_opt_string(&self.api_base_url),
            account_id: clone_opt_string(&self.account_id),
            organization_id: clone_opt_string(&self.organization_id),
            plan_type: clone_opt_string(&self.plan_type),
            subscription_active_until: self.subscription_active_until,
            tokens: match &self.tokens {
                Some(t) => Some(t.clone()),
                None => None,
            },
            quota: self.quota,
            quota_error: clone_opt_quota_error(&self.quota_error),
            usage_updated_at: self.usage_updated_at,
            created_at: self.created_at,
            last_used: self.last_used,
        }
    }
}

impl Clone for CodexInstance {
    fn clone(&self) -> (r: Self)
        ensures
            r == *self,
    {
        CodexInstance {
            id: self.id.clone(),
            name: self.name.clone(),
            codex_home: self.codex_home.clone(),
            working_dir: clone_opt_string(&self.working_dir),
            extra_args: self.extra_args.clone(),
            bind_account_id: clone_opt_string(&self.bind_account_id),
            created_at: self.created_at,
            last_launched_at: self.last_launched_at,
            last_pid: self.last_pid,
        }
    }
}

impl Default for Store {
    fn default() -> (r: Self)
        ensures
            r@ == Store::spec_empty(),
    {
        Store {
            version: String::from_str("1.0"),
            current_account_id: None,
            accounts: Vec::new(),
            instances: Vec::new(),
        }
    }
}

/// The abstract content of a store: its version text, current account, accounts
/// and instances.
pub struct StoreModel {
    pub version: Seq<char>,
    pub current_account_id: Option<Seq<char>>,
    pub accounts: Seq<CodexAccount>,
    pub instances: Seq<CodexInstance>,
}

impl View for Store {
    type V = StoreModel;

    open spec fn view(&self) -> StoreModel {
        StoreModel {
            version: self.version@,
            current_account_id: opt_view(self.current_account_id),
            accounts: self.accounts@,
            instances: self.instances@,
        }
    }
}

impl Store {
    /// The content of a new store: version `1.0`, no current account, no
    /// accounts and no instances.
    pub open spec fn spec_empty() -> StoreModel {
        StoreModel {
            version: "1.0"@,
            current_account_id: None,
            accounts: Seq::empty(),
            instances: Seq::empty(),
        }
    }
}

/// Whether an optional text holds something other than whitespace.
pub open spec fn non_blank(o: Option<Seq<char>>) -> bool {
    match o {
        Some(s) => trim(s).len() > 0,
        None => false,
    }
}

/// The refresh token of an account's tokens, if any.
pub open spec fn refresh_token_of(tokens: Option<CodexTokens>) -> Option<Seq<char>> {
    match tokens {
        Some(t) => opt_view(t.refresh_token),
        None => None,
    }
}

impl vstd::std_specs::convert::FromSpecImpl<&CodexAccount> for CodexAccountView {
    open spec fn obeys_from_spec() -> bool {
        true
    }

    open spec fn from_spec(account: &CodexAccount) -> CodexAccountView {
        CodexAccountView {
            id: account.id,
            label: account.label,
            email: account.email,
            auth_mode: account.auth_mode,
            api_base_url: account.api_base_url,
            account_id: account.account_id,
            organization_id: account.organization_id,
            plan_type: account.plan_type,
            subscription_active_until: account.subscription_active_until,
            has_api_key: non_blank(opt_view(account.openai_api_key)),
            has_refresh_token: non_blank(refresh_token_of(account.tokens)),
            quota: account.quota,
            quota_error: account.quota_error,
            usage_updated_at: account.usage_updated_at,
            created_at: account.created_at,
            last_used: account.last_used,
        }
    }
}

/// Whether an optional text holds something other than whitespace.
fn has_non_blank(o: &Option<String>) -> (b: bool)
    ensures
        b == non_blank(opt_view(*o)),
{
    match o {
        Some(s) => {
            let t = crate::text::trim_str(s.as_str());
            !crate::text::is_empty_str(t.as_str())
        },
        None => false,
    }
}

impl From<&CodexAccount> for CodexAccountView {
    fn from(account: &CodexAccount) -> (r: Self) {
        let has_refresh_token = match &account.tokens {
            Some(tokens) => has_non_blank(&tokens.refresh_token),
            None => false,
        };
        CodexAccountView {
            id: account.id.clone(),
            label: account.label.clone(),
            email: account.email.clone(),
            auth_mode: account.auth_mode,
            api_base_url: clone_opt_string(&account.api_base_url),
            account_id: clone_opt_string(&account.account_id),
            organization_id: clone_opt_string(&account.organization_id),
            plan_type: clone_opt_string(&account.plan_type),
            subscription_active_until: account.subscription_active_until,
            has_api_key: has_non_blank(&account.openai_api_key),
            has_refresh_token,
            quota: account.quota,
            quota_error: clone_opt_quota_error(&account.quota_error),
            usage_updated_at: account.usage_updated_at,
            created_at: account.created_at,
            last_used: account.last_used,
        }
    }
}

} // verus!
