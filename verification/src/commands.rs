use vstd::prelude::*;
use vstd::string::StrSliceExecFns;
use vstd::string::StringExecFns;

use crate::codex::{
    build_launch_command, resolve_launch_instance, slugify, spec_launch_command, spec_slugify,
    default_instance_id_str,
    account_id_for_api_key, account_id_for_oauth, api_key_label, extract_oauth_profile,
    find_account, find_instance, first_account, first_instance, first_of, has_account,
    has_instance, is_api_key_account, is_oauth_account, label_or, missing_instance,
    normalize_base_url, spec_account_base_url, spec_api_key_label, spec_oauth_profile,
    upsert_account,
};
use crate::models::{
    clone_opt_string, default_instance_id, CreateInstanceParams, UpdateInstanceParams, AddApiKeyParams, AddTokenParams, CodexAccount,
    CodexAuthMode, CodexInstance, CodexQuotaErrorInfo, CodexTokens, Store,
};
use crate::quota::QuotaFetchResult;
use crate::api_channels::new_uuid_simple;
use crate::storage::{
    default_home_outcome, default_instances_root, path_join, spec_data_dir, spec_in_data_dir,
    spec_path_join,
    normalize_optional, normalize_optional_ref, now_ts, spec_normalize, spec_normalize_opt,
};
use crate::text::{concat, is_empty_str, is_lower_hex, opt_str_view, opt_view, res_view, str_eq, trim, trim_str};

verus! {

/// The error for an account identifier that no account has.
pub open spec fn missing_account(id: Seq<char>) -> Seq<char> {
    "账号不存在: "@ + id
}

/// The first account with identifier `account_id`.
pub fn account_by_id<'a>(store: &'a Store, account_id: &str) -> (r: Result<&'a CodexAccount, String>)
    ensures
        r is Err <==> !has_account(store.accounts@, account_id@),
        r matches Err(e) ==> e@ == missing_account(account_id@),
        r matches Ok(a) ==> exists|i: int| first_account(store.accounts@, account_id@, i) && *a == store.accounts@[i],
{
    match find_account(&store.accounts, account_id) {
        Some(i) => Ok(&store.accounts[i]),
        None => Err(concat("账号不存在: ", account_id)),
    }
}

/// Stores `account` (replacing the one with its identifier, whose creation
/// time it keeps) and makes it the current account.
pub fn make_current(store: &mut Store, account: CodexAccount) -> (r: CodexAccount)
    ensures
        r.id == account.id,
        opt_view(final(store).current_account_id) == Some(account.id@),
        has_account(final(store).accounts@, account.id@),
        final(store).instances == old(store).instances,
        final(store).version == old(store).version,
        has_account(old(store).accounts@, account.id@) ==> exists|i: int| {
            &&& first_account(old(store).accounts@, account.id@, i)
            &&& r == CodexAccount { created_at: old(store).accounts@[i].created_at, ..account }
            &&& final(store).accounts@ == old(store).accounts@.update(i, r)
        },
        !has_account(old(store).accounts@, account.id@) ==> {
            &&& r == account
            &&& final(store).accounts@ == old(store).accounts@.push(account)
        },
{
    let ghost id = account.id@;
    let stored = upsert_account(store, account);
    store.current_account_id = Some(stored.id.clone());
    proof {
        if has_account(old(store).accounts@, id) {
            let i = choose|i: int| first_account(old(store).accounts@, id, i);
            assert(store.accounts@[i].id@ == id);
        } else {
            assert(store.accounts@[old(store).accounts@.len() as int].id@ == id);
        }
    }
    stored
}

/// The account that adding an API key makes: the key trimmed and required, the
/// base URL normalized, the label defaulting to `API Key` and the key's last
/// four characters, the email to the label.
pub fn add_api_key_account(params: AddApiKeyParams) -> (r: Result<CodexAccount, String>)
    ensures
        spec_normalize(params.api_key@) is None ==> (r matches Err(e) && e@ == "API Key 不能为空"@),
        spec_normalize(params.api_key@) matches Some(key) ==> (r matches Ok(a) && {
            let label = label_or(opt_view(params.label), spec_api_key_label(key));
            is_api_key_account(
                a,
                key,
                spec_account_base_url(opt_view(params.api_base_url)),
                label,
                label_or(opt_view(params.email), label),
            )
        }),
{
    let api_key = match normalize_optional_ref(Some(params.api_key.as_str())) {
        Some(k) => k,
        None => return Err(String::from_str("API Key 不能为空")),
    };
    let api_base_url = normalize_base_url(params.api_base_url);
    let label = match normalize_optional(params.label) {
        Some(l) => l,
        None => api_key_label(api_key.as_str()),
    };
    let email = match normalize_optional(params.email) {
        Some(e) => e,
        None => label.clone(),
    };
    let now = now_ts();
    let base = match &api_base_url {
        Some(u) => Some(u.as_str()),
        None => None,
    };
    let id = account_id_for_api_key(api_key.as_str(), base);
    Ok(CodexAccount {
        id,
        label,
        email,
        auth_mode: CodexAuthMode::Apikey,
        openai_api_key: Some(api_key),
        api_base_url,
        account_id: None,
        organization_id: None,
        plan_type: Some(String::from_str("API_KEY")),
        subscription_active_until: None,
        tokens: None,
        quota: None,
        quota_error: None,
        usage_updated_at: None,
        created_at: now,
        last_used: now,
    })
}

/// The account that adding OAuth tokens makes: both tokens trimmed and
/// required, the profile read from them, a given account identifier preferred
/// to the one the tokens carry.
pub fn add_token_account(params: AddTokenParams) -> (r: Result<CodexAccount, String>)
    ensures
        match (spec_normalize(params.id_token@), spec_normalize(params.access_token@)) {
            (None, _) => r matches Err(e) && e@ == "id_token 不能为空"@,
            (Some(_), None) => r matches Err(e) && e@ == "access_token 不能为空"@,
            (Some(id_token), Some(access_token)) => r matches Ok(a) && {
                let profile = spec_oauth_profile(id_token, access_token);
                let account_id = first_of(spec_normalize_opt(opt_view(params.account_id)), profile.2);
                is_oauth_account(
                    a,
                    profile.0,
                    profile.1,
                    account_id,
                    profile.3,
                    label_or(opt_view(params.label), profile.0),
                    id_token,
                    access_token,
                    spec_normalize_opt(opt_view(params.refresh_token)),
                    account_id,
                )
            },
        },
{
    let id_token = match normalize_optional_ref(Some(params.id_token.as_str())) {
        Some(t) => t,
        None => return Err(String::from_str("id_token 不能为空")),
    };
    let access_token = match normalize_optional_ref(Some(params.access_token.as_str())) {
        Some(t) => t,
        None => return Err(String::from_str("access_token 不能为空")),
    };
    let (email, plan_type, extracted_account_id, organization_id) = extract_oauth_profile(
        id_token.as_str(),
        access_token.as_str(),
    );
    let account_id = match normalize_optional(params.account_id) {
        Some(a) => Some(a),
        None => extracted_account_id,
    };
    let now = now_ts();
    let acc = match &account_id {
        Some(a) => Some(a.as_str()),
        None => None,
    };
    let org = match &organization_id {
        Some(o) => Some(o.as_str()),
        None => None,
    };
    let id = account_id_for_oauth(email.as_str(), acc, org);
    let label = match normalize_optional(params.label) {
        Some(l) => l,
        None => email.clone(),
    };
    Ok(CodexAccount {
        id,
        label,
        email,
        auth_mode: CodexAuthMode::OAuth,
        openai_api_key: None,
        api_base_url: None,
        account_id: clone_opt_string(&account_id),
        organization_id,
        plan_type,
        subscription_active_until: None,
        tokens: Some(CodexTokens {
            id_token,
            access_token,
            refresh_token: normalize_optional(params.refresh_token),
            account_id,
        }),
        quota: None,
        quota_error: None,
        usage_updated_at: None,
        created_at: now,
        last_used: now,
    })
}

/// Switches to an account: a copy of it (to be written into the Codex home) is
/// returned, it is marked as used now and made current.
pub fn switch_account(store: &mut Store, account_id: &str) -> (r: Result<CodexAccount, String>)
    ensures
        r is Err <==> !has_account(old(store).accounts@, account_id@),
        r matches Err(e) ==> e@ == missing_account(account_id@) && *final(store) == *old(store),
        r matches Ok(a) ==> exists|i: int, now: i64| {
            &&& first_account(old(store).accounts@, account_id@, i)
            &&& a == old(store).accounts@[i]
            &&& final(store).accounts@ == old(store).accounts@.update(i, CodexAccount { last_used: now, ..a })
            &&& opt_view(final(store).current_account_id) == Some(account_id@)
            &&& final(store).instances == old(store).instances
            &&& final(store).version == old(store).version
        },
{
    let i = match find_account(&store.accounts, account_id) {
        Some(i) => i,
        None => return Err(concat("账号不存在: ", account_id)),
    };
    let account = store.accounts[i].clone();
    let mut stored = account.clone();
    let now = now_ts();
    stored.last_used = now;
    store.accounts.set(i, stored);
    store.current_account_id = Some(String::from_str(account_id));
    proof {
        assert(first_account(old(store).accounts@, account_id@, i as int));
        assert(store.accounts@ =~= old(store).accounts@.update(i as int, CodexAccount { last_used: now, ..account }));
    }
    Ok(account)
}

/// Whether an optional identifier is `id`.
pub open spec fn is_id(o: Option<String>, id: Seq<char>) -> bool {
    opt_view(o) == Some(id)
}

fn opt_is(o: &Option<String>, id: &str) -> (b: bool)
    ensures
        b == is_id(*o, id@),
{
    match o {
        Some(s) => str_eq(s.as_str(), id),
        None => false,
    }
}

/// Deletes every account with identifier `account_id`, unbinds the instances
/// bound to it and forgets it as the current account.
pub fn delete_account(store: &mut Store, account_id: &str)
    ensures
        final(store).accounts@ == old(store).accounts@.filter(|a: CodexAccount| a.id@ != account_id@),
        !has_account(final(store).accounts@, account_id@),
        final(store).instances@.len() == old(store).instances@.len(),
        forall|k: int| 0 <= k < old(store).instances@.len() ==> {
            let before = #[trigger] old(store).instances@[k];
            final(store).instances@[k] == if is_id(before.bind_account_id, account_id@) {
                CodexInstance { bind_account_id: None, ..before }
            } else {
                before
            }
        },
        forall|k: int| 0 <= k < final(store).instances@.len()
            ==> !is_id(#[trigger] final(store).instances@[k].bind_account_id, account_id@),
        final(store).current_account_id == if is_id(old(store).current_account_id, account_id@) {
            None
        } else {
            old(store).current_account_id
        },
        final(store).version == old(store).version,
{
    let ghost pred = |a: CodexAccount| a.id@ != account_id@;
    let mut kept: Vec<CodexAccount> = Vec::new();
    let n = store.accounts.len();
    let mut i: usize = 0;
    while i < n
        invariant
            n == store.accounts@.len(),
            i <= n,
            pred == (|a: CodexAccount| a.id@ != account_id@),
            kept@ == store.accounts@.subrange(0, i as int).filter(pred),
        decreases n - i,
    {
        let a = store.accounts[i].clone();
        let same = str_eq(a.id.as_str(), account_id);
        proof {
            let s = store.accounts@.subrange(0, i + 1);
            assert(s.drop_last() =~= store.accounts@.subrange(0, i as int));
            reveal_with_fuel(Seq::<_>::filter, 1);
        }
        if !same {
            kept.push(a);
        }
        i = i + 1;
    }
    assert(store.accounts@.subrange(0, n as int) =~= store.accounts@);
    store.accounts = kept;
    proof {
        let f = old(store).accounts@.filter(pred);
        if has_account(f, account_id@) {
            let k = choose|k: int| 0 <= k < f.len() && (#[trigger] f[k]).id@ == account_id@;
            old(store).accounts@.lemma_filter_pred(pred, k);
        }
    }
    let m = store.instances.len();
    let mut j: usize = 0;
    while j < m
        invariant
            m == store.instances@.len() == old(store).instances@.len(),
            j <= m,
            store.accounts@ == old(store).accounts@.filter(pred),
            pred == (|a: CodexAccount| a.id@ != account_id@),
            !has_account(store.accounts@, account_id@),
            store.current_account_id == old(store).current_account_id,
            store.version == old(store).version,
            forall|k: int| j <= k < m ==> store.instances@[k] == old(store).instances@[k],
            forall|k: int| 0 <= k < j ==> {
                let before = #[trigger] old(store).instances@[k];
                store.instances@[k] == if is_id(before.bind_account_id, account_id@) {
                    CodexInstance { bind_account_id: None, ..before }
                } else {
                    before
                }
            },
        decreases m - j,
    {
        if opt_is(&store.instances[j].bind_account_id, account_id) {
            let mut instance = store.instances[j].clone();
            instance.bind_account_id = None;
            store.instances.set(j, instance);
        }
        j = j + 1;
    }
    if opt_is(&store.current_account_id, account_id) {
        store.current_account_id = None;
    }
    assert forall|k: int| 0 <= k < store.instances@.len()
        implies !is_id(#[trigger] store.instances@[k].bind_account_id, account_id@) by {
        assert(store.instances@[k] == if is_id(old(store).instances@[k].bind_account_id, account_id@) {
            CodexInstance { bind_account_id: None, ..old(store).instances@[k] }
        } else {
            old(store).instances@[k]
        });
    }
}

/// Renames the first account with identifier `account_id`; the label is trimmed
/// and must not be blank, which is checked first.
pub fn update_account_label(store: &mut Store, account_id: &str, label: &str) -> (r: Result<(), String>)
    ensures
        spec_normalize(label@) is None ==> (r matches Err(e) && e@ == "账号名称不能为空"@ && *final(store) == *old(store)),
        spec_normalize(label@) is Some && !has_account(old(store).accounts@, account_id@)
            ==> (r matches Err(e) && e@ == missing_account(account_id@) && *final(store) == *old(store)),
        spec_normalize(label@) is Some && has_account(old(store).accounts@, account_id@) ==> (r is Ok && exists|i: int| {
            &&& first_account(old(store).accounts@, account_id@, i)
            &&& final(store).accounts@ == old(store).accounts@.update(i, final(store).accounts@[i])
            &&& final(store).accounts@[i].label@ == trim(label@)
            &&& final(store).accounts@[i] == CodexAccount { label: final(store).accounts@[i].label, ..old(store).accounts@[i] }
            &&& final(store).instances == old(store).instances
            &&& final(store).current_account_id == old(store).current_account_id
            &&& final(store).version == old(store).version
        }),
{
    let label = match normalize_optional_ref(Some(label)) {
        Some(l) => l,
        None => return Err(String::from_str("账号名称不能为空")),
    };
    let i = match find_account(&store.accounts, account_id) {
        Some(i) => i,
        None => return Err(concat("账号不存在: ", account_id)),
    };
    let mut account = store.accounts[i].clone();
    account.label = label;
    store.accounts.set(i, account);
    proof {
        assert(first_account(old(store).accounts@, account_id@, i as int));
        assert(store.accounts@ =~= old(store).accounts@.update(i as int, store.accounts@[i as int]));
    }
    Ok(())
}

/// The home of a new instance when none is given: a directory named after the
/// slug of its name and the first eight digits of its UUID, under `root`.
pub open spec fn generated_home(root: Seq<char>, name: Seq<char>, uuid: Seq<char>) -> Seq<char> {
    spec_path_join(root, spec_slugify(name) + "-"@ + uuid.subrange(0, 8))
}

/// The directory under which instance homes are generated, for the local data
/// directory `local`: `codex-instances` in the data directory, or `.` when the
/// data directory cannot be found.
pub open spec fn instances_root(local: Option<Seq<char>>) -> Seq<char> {
    match spec_in_data_dir(spec_data_dir(local), "codex-instances"@) {
        Ok(root) => root,
        Err(_) => "."@,
    }
}

/// `i` is the new instance that `params` describe, with identifier `inst_`
/// followed by a UUID of 32 lowercase hexadecimal digits, its home either given
/// or generated under the instances root.
pub open spec fn new_instance(i: CodexInstance, params: CreateInstanceParams, name: Seq<char>) -> bool {
    &&& exists|uuid: Seq<char>| {
        &&& uuid.len() == 32
        &&& forall|k: int| 0 <= k < 32 ==> is_lower_hex(#[trigger] uuid[k])
        &&& i.id@ == "inst_"@ + uuid
        &&& match spec_normalize_opt(opt_view(params.codex_home)) {
            Some(home) => i.codex_home@ == home,
            None => exists|local: Option<Seq<char>>| i.codex_home@ == generated_home(instances_root(local), name, uuid),
        }
    }
    &&& i.name@ == name
    &&& opt_view(i.working_dir) == spec_normalize_opt(opt_view(params.working_dir))
    &&& i.extra_args@ == match spec_normalize_opt(opt_view(params.extra_args)) {
        Some(e) => e,
        None => Seq::empty(),
    }
    &&& i.bind_account_id == params.bind_account_id
    &&& i.last_launched_at.is_none()
    &&& i.last_pid.is_none()
}

/// A new instance takes what its parameters give: the name trimmed, a given
/// non-blank home trimmed, the working directory trimmed (none when none or a
/// blank one is given), the extra arguments trimmed (empty when none are
/// given), the binding as given; it has an `inst_` identifier of 37
/// characters and has never been launched.
pub open spec fn takes_params(i: CodexInstance, params: CreateInstanceParams) -> bool {
    &&& i.name@ == trim(params.name@)
    &&& i.name@.len() > 0
    &&& match params.codex_home {
        Some(h) => trim(h@).len() > 0 ==> i.codex_home@ == trim(h@),
        None => true,
    }
    &&& opt_view(i.working_dir) == match params.working_dir {
        Some(w) => if trim(w@).len() > 0 { Some(trim(w@)) } else { None },
        None => None,
    }
    &&& i.extra_args@ == match params.extra_args {
        Some(e) => trim(e@),
        None => Seq::empty(),
    }
    &&& i.bind_account_id == params.bind_account_id
    &&& i.id@.len() == 37
    &&& i.id@.subrange(0, 5) == "inst_"@
    &&& i.last_launched_at.is_none()
    &&& i.last_pid.is_none()
}

/// Every new instance takes what its parameters give, the working directory
/// and extra arguments among them.
pub proof fn lemma_new_instance_takes_params(i: CodexInstance, params: CreateInstanceParams, name: Seq<char>)
    requires
        spec_normalize(params.name@) == Some(name),
        new_instance(i, params, name),
    ensures
        takes_params(i, params),
{
    let uuid = choose|uuid: Seq<char>| {
        &&& uuid.len() == 32
        &&& forall|k: int| 0 <= k < 32 ==> is_lower_hex(#[trigger] uuid[k])
        &&& i.id@ == "inst_"@ + uuid
        &&& match spec_normalize_opt(opt_view(params.codex_home)) {
            Some(home) => i.codex_home@ == home,
            None => exists|local: Option<Seq<char>>| i.codex_home@ == generated_home(instances_root(local), name, uuid),
        }
    };
    reveal_strlit("inst_");
    assert(i.id@.subrange(0, 5) =~= "inst_"@);
    if let Some(e) = opt_view(params.extra_args) {
        if trim(e).len() == 0 {
            assert(trim(e) =~= Seq::<char>::empty());
        }
    }
}

/// Whether the account that `bind` names, if any, is in `accounts`.
pub open spec fn binding_known(accounts: Seq<CodexAccount>, bind: Option<String>) -> bool {
    match bind {
        Some(id) => has_account(accounts, id@),
        None => true,
    }
}

/// The name of a new instance: trimmed, and required.
pub fn instance_name(name: &str) -> (r: Result<String, String>)
    ensures
        match spec_normalize(name@) {
            Some(n) => r matches Ok(m) && m@ == n,
            None => r matches Err(e) && e@ == "实例名称不能为空"@,
        },
{
    match normalize_optional_ref(Some(name)) {
        Some(n) => Ok(n),
        None => Err(String::from_str("实例名称不能为空")),
    }
}

/// The instance that `params` describe, not yet stored: a name is required,
/// and a home is generated under the instances root (or `.`) when none is
/// given.
pub fn plan_instance(params: CreateInstanceParams) -> (r: Result<CodexInstance, String>)
    ensures
        match spec_normalize(params.name@) {
            Some(name) => r matches Ok(i) && new_instance(i, params, name),
            None => r matches Err(e) && e@ == "实例名称不能为空"@,
        },
        r matches Ok(i) ==> takes_params(i, params),
{
    let ghost params0 = params;
    let name = instance_name(params.name.as_str())?;
    let uuid = new_uuid_simple();
    let id = concat("inst_", uuid.as_str());
    let codex_home = match normalize_optional(params.codex_home) {
        Some(h) => h,
        None => {
            let root_result = default_instances_root();
            let ghost local = choose|local: Option<Seq<char>>| res_view(root_result) == spec_in_data_dir(spec_data_dir(local), "codex-instances"@);
            let root = match root_result {
                Ok(r) => r,
                Err(_) => String::from_str("."),
            };
            proof {
                reveal_strlit(".");
                assert(root@ == instances_root(local));
            }
            let slug = slugify(name.as_str());
            let short = uuid.as_str().substring_char(0, 8);
            let dir = concat(concat(slug.as_str(), "-").as_str(), short);
            let home = path_join(root.as_str(), dir.as_str());
            assert(home@ == generated_home(instances_root(local), name@, uuid@));
            home
        },
    };
    let working_dir = normalize_optional(params.working_dir);
    let extra_args = match normalize_optional(params.extra_args) {
        Some(e) => e,
        None => {
            proof {
                reveal_strlit("");
            }
            String::from_str("")
        },
    };
    let instance = CodexInstance {
        id,
        name,
        codex_home,
        working_dir,
        extra_args,
        bind_account_id: params.bind_account_id,
        created_at: now_ts(),
        last_launched_at: None,
        last_pid: None,
    };
    proof {
        reveal_strlit("inst_");
        assert(instance.id@ == "inst_"@ + uuid@);
        assert(instance.name@ == spec_normalize(params0.name@)->0);
        assert(opt_view(instance.working_dir) == spec_normalize_opt(opt_view(params0.working_dir)));
        assert(instance.bind_account_id == params0.bind_account_id);
        assert(instance.extra_args@ == match spec_normalize_opt(opt_view(params0.extra_args)) {
            Some(e) => e,
            None => Seq::empty(),
        });
        assert(match spec_normalize_opt(opt_view(params0.codex_home)) {
            Some(home) => instance.codex_home@ == home,
            None => exists|local: Option<Seq<char>>| instance.codex_home@ == generated_home(instances_root(local), instance.name@, uuid@),
        });
        assert(new_instance(instance, params0, instance.name@));
        lemma_new_instance_takes_params(instance, params0, instance.name@);
    }
    Ok(instance)
}

/// Appends a planned instance to the store; the account it is bound to, if
/// any, must exist, and nothing changes when it does not.
pub fn add_instance(store: &mut Store, instance: CodexInstance) -> (r: Result<(), String>)
    ensures
        !binding_known(old(store).accounts@, instance.bind_account_id) ==> {
            &&& r matches Err(e) && e@ == missing_account(instance.bind_account_id->0@)
            &&& *final(store) == *old(store)
        },
        binding_known(old(store).accounts@, instance.bind_account_id) ==> {
            &&& r is Ok
            &&& final(store).instances@ == old(store).instances@.push(instance)
            &&& has_instance(final(store).instances@, instance.id@)
            &&& final(store).accounts == old(store).accounts
            &&& final(store).current_account_id == old(store).current_account_id
            &&& final(store).version == old(store).version
        },
{
    if let Some(account_id) = &instance.bind_account_id {
        if account_by_id(store, account_id.as_str()).is_err() {
            return Err(concat("账号不存在: ", account_id.as_str()));
        }
    }
    let ghost added = instance;
    store.instances.push(instance);
    assert(store.instances@[store.instances@.len() - 1] == added);
    Ok(())
}

/// Creates an instance from `params` and appends it to the store: a name is
/// required, an account to bind must exist, and a home is generated under the
/// instances root (or `.`) when none is given.
pub fn create_instance(store: &mut Store, params: CreateInstanceParams) -> (r: Result<CodexInstance, String>)
    ensures
        spec_normalize(params.name@) is None ==> (r matches Err(e) && e@ == "实例名称不能为空"@),
        spec_normalize(params.name@) is Some && !binding_known(old(store).accounts@, params.bind_account_id)
            ==> (r matches Err(e) && e@ == missing_account(params.bind_account_id->0@)),
        r is Err ==> *final(store) == *old(store),
        match spec_normalize(params.name@) {
            Some(name) => binding_known(old(store).accounts@, params.bind_account_id) ==> (r matches Ok(i) && {
                &&& new_instance(i, params, name)
                &&& final(store).instances@ == old(store).instances@.push(i)
                &&& has_instance(final(store).instances@, i.id@)
                &&& final(store).accounts == old(store).accounts
                &&& final(store).current_account_id == old(store).current_account_id
                &&& final(store).version == old(store).version
            }),
            None => true,
        },
        r matches Ok(i) ==> takes_params(i, params),
{
    let instance = plan_instance(params)?;
    add_instance(store, instance.clone())?;
    Ok(instance)
}

/// The text that an optional update leaves: the trimmed new value when one is
/// given and not blank, else the current one.
pub open spec fn updated_text(update: Option<String>, current: Seq<char>) -> Seq<char> {
    match update {
        Some(v) => match spec_normalize(v@) {
            Some(t) => t,
            None => current,
        },
        None => current,
    }
}

/// `after` is `before` with the edits of `params` applied: name and home
/// replaced when a non-blank value is given, the working directory replaced
/// (trimmed, blank meaning none) and the extra arguments replaced (trimmed)
/// when given, the binding replaced when given.
pub open spec fn updated_instance(after: CodexInstance, before: CodexInstance, params: UpdateInstanceParams) -> bool {
    &&& after.id == before.id
    &&& after.name@ == updated_text(params.name, before.name@)
    &&& after.codex_home@ == updated_text(params.codex_home, before.codex_home@)
    &&& opt_view(after.working_dir) == match params.working_dir {
        Some(w) => spec_normalize_opt(opt_view(w)),
        None => opt_view(before.working_dir),
    }
    &&& after.extra_args@ == match params.extra_args {
        Some(e) => trim(e@),
        None => before.extra_args@,
    }
    &&& after.bind_account_id == match params.bind_account_id {
        Some(b) => b,
        None => before.bind_account_id,
    }
    &&& after.created_at == before.created_at
    &&& after.last_launched_at == before.last_launched_at
    &&& after.last_pid == before.last_pid
}

/// The edits that an update gives are in the edited instance: a non-blank name
/// or home, trimmed; a working directory, trimmed, blank or none clearing it;
/// extra arguments, trimmed, blank ones clearing them; a binding, none
/// unbinding.
pub open spec fn given_edits_applied(inst: CodexInstance, params: UpdateInstanceParams) -> bool {
    &&& match params.name {
        Some(n) => trim(n@).len() > 0 ==> inst.name@ == trim(n@),
        None => true,
    }
    &&& match params.codex_home {
        Some(h) => trim(h@).len() > 0 ==> inst.codex_home@ == trim(h@),
        None => true,
    }
    &&& match params.working_dir {
        Some(Some(w)) => opt_view(inst.working_dir) == (if trim(w@).len() > 0 { Some(trim(w@)) } else { None }),
        Some(None) => inst.working_dir.is_none(),
        None => true,
    }
    &&& match params.extra_args {
        Some(e) => inst.extra_args@ == trim(e@),
        None => true,
    }
    &&& match params.bind_account_id {
        Some(b) => inst.bind_account_id == b,
        None => true,
    }
}

/// What an update leaves alone stays as it was: the identifier, the times and
/// process, and every field the update does not give (or gives blank, for the
/// name and home).
pub open spec fn untouched_kept(after: CodexInstance, before: CodexInstance, params: UpdateInstanceParams) -> bool {
    &&& after.id == before.id
    &&& after.created_at == before.created_at
    &&& after.last_launched_at == before.last_launched_at
    &&& after.last_pid == before.last_pid
    &&& match params.name {
        Some(n) => trim(n@).len() == 0 ==> after.name@ == before.name@,
        None => after.name@ == before.name@,
    }
    &&& match params.codex_home {
        Some(h) => trim(h@).len() == 0 ==> after.codex_home@ == before.codex_home@,
        None => after.codex_home@ == before.codex_home@,
    }
    &&& (params.working_dir is Some || opt_view(after.working_dir) == opt_view(before.working_dir))
    &&& (params.extra_args is Some || after.extra_args@ == before.extra_args@)
    &&& (params.bind_account_id is Some || after.bind_account_id == before.bind_account_id)
}

/// An instance edited by an update holds every edit the update gives, and
/// keeps everything else; in particular, blank extra arguments clear them.
pub proof fn lemma_update_applies_edits(after: CodexInstance, before: CodexInstance, params: UpdateInstanceParams)
    requires
        updated_instance(after, before, params),
    ensures
        given_edits_applied(after, params),
        untouched_kept(after, before, params),
{
}

/// Whether an update names an account to bind that `accounts` does not have.
pub open spec fn binds_unknown(accounts: Seq<CodexAccount>, bind: Option<Option<String>>) -> bool {
    match bind {
        Some(Some(id)) => !has_account(accounts, id@),
        _ => false,
    }
}

/// Edits the first instance with the identifier of `params` and returns it as
/// edited. The default instance cannot be edited, and an account to bind must
/// exist; both are checked, in that order, before the instance is looked up.
pub fn update_instance(store: &mut Store, params: UpdateInstanceParams) -> (r: Result<CodexInstance, String>)
    ensures
        params.instance_id@ == default_instance_id()
            ==> (r matches Err(e) && e@ == "默认实例暂不支持编辑，请直接切换账号或启动"@),
        params.instance_id@ != default_instance_id() && binds_unknown(old(store).accounts@, params.bind_account_id)
            ==> (r matches Err(e) && e@ == missing_account(params.bind_account_id->0->0@)),
        params.instance_id@ != default_instance_id() && !binds_unknown(old(store).accounts@, params.bind_account_id)
            && !has_instance(old(store).instances@, params.instance_id@)
            ==> (r matches Err(e) && e@ == missing_instance(params.instance_id@)),
        r is Err ==> *final(store) == *old(store),
        params.instance_id@ != default_instance_id() && !binds_unknown(old(store).accounts@, params.bind_account_id)
            && has_instance(old(store).instances@, params.instance_id@) ==> (r matches Ok(inst) && exists|i: int| {
                &&& first_instance(old(store).instances@, params.instance_id@, i)
                &&& updated_instance(inst, old(store).instances@[i], params)
                &&& final(store).instances@ == old(store).instances@.update(i, inst)
                &&& final(store).accounts == old(store).accounts
                &&& final(store).current_account_id == old(store).current_account_id
                &&& final(store).version == old(store).version
            }),
        r matches Ok(inst) ==> given_edits_applied(inst, params),
{
    let ghost params0 = params;
    if str_eq(params.instance_id.as_str(), default_instance_id_str()) {
        return Err(String::from_str("默认实例暂不支持编辑，请直接切换账号或启动"));
    }
    if let Some(Some(account_id)) = &params.bind_account_id {
        if account_by_id(store, account_id.as_str()).is_err() {
            return Err(concat("账号不存在: ", account_id.as_str()));
        }
    }
    let i = match find_instance(&store.instances, params.instance_id.as_str()) {
        Some(i) => i,
        None => return Err(concat("实例不存在: ", params.instance_id.as_str())),
    };
    let mut instance = store.instances[i].clone();
    if let Some(name) = params.name {
        if let Some(n) = normalize_optional_ref(Some(name.as_str())) {
            instance.name = n;
        }
    }
    if let Some(home) = params.codex_home {
        if let Some(h) = normalize_optional_ref(Some(home.as_str())) {
            instance.codex_home = h;
        }
    }
    if let Some(working_dir) = params.working_dir {
        instance.working_dir = normalize_optional(working_dir);
    }
    if let Some(extra_args) = params.extra_args {
        instance.extra_args = trim_str(extra_args.as_str());
    }
    if let Some(bind) = params.bind_account_id {
        instance.bind_account_id = bind;
    }
    store.instances.set(i, instance.clone());
    proof {
        assert(first_instance(old(store).instances@, params0.instance_id@, i as int));
        assert(updated_instance(instance, old(store).instances@[i as int], params0));
    }
    Ok(instance)
}

/// Deletes every instance with identifier `instance_id`; the default instance
/// cannot be deleted.
pub fn delete_instance(store: &mut Store, instance_id: &str) -> (r: Result<(), String>)
    ensures
        instance_id@ == default_instance_id() ==> (r matches Err(e) && e@ == "默认实例不能删除"@ && *final(store) == *old(store)),
        instance_id@ != default_instance_id() ==> {
            &&& r is Ok
            &&& final(store).instances@ == old(store).instances@.filter(|i: CodexInstance| i.id@ != instance_id@)
            &&& !has_instance(final(store).instances@, instance_id@)
            &&& final(store).accounts == old(store).accounts
            &&& final(store).current_account_id == old(store).current_account_id
            &&& final(store).version == old(store).version
        },
{
    if str_eq(instance_id, default_instance_id_str()) {
        return Err(String::from_str("默认实例不能删除"));
    }
    let ghost pred = |i: CodexInstance| i.id@ != instance_id@;
    let mut kept: Vec<CodexInstance> = Vec::new();
    let n = store.instances.len();
    let mut i: usize = 0;
    while i < n
        invariant
            n == store.instances@.len(),
            i <= n,
            pred == (|i: CodexInstance| i.id@ != instance_id@),
            kept@ == store.instances@.subrange(0, i as int).filter(pred),
        decreases n - i,
    {
        let inst = store.instances[i].clone();
        let same = str_eq(inst.id.as_str(), instance_id);
        proof {
            let s = store.instances@.subrange(0, i + 1);
            assert(s.drop_last() =~= store.instances@.subrange(0, i as int));
            reveal_with_fuel(Seq::<_>::filter, 1);
        }
        if !same {
            kept.push(inst);
        }
        i = i + 1;
    }
    assert(store.instances@.subrange(0, n as int) =~= store.instances@);
    store.instances = kept;
    proof {
        let f = old(store).instances@.filter(pred);
        if has_instance(f, instance_id@) {
            let k = choose|k: int| 0 <= k < f.len() && (#[trigger] f[k]).id@ == instance_id@;
            old(store).instances@.lemma_filter_pred(pred, k);
        }
    }
    Ok(())
}

/// Records a launch of instance `instance_id` with process `pid`: the first
/// instance with that identifier keeps the process and the time. Nothing is
/// recorded for the default instance, and `false` says that there is nothing
/// to save.
pub fn record_launch(store: &mut Store, instance_id: &str, pid: Option<u32>) -> (saved: bool)
    ensures
        saved == (instance_id@ != default_instance_id()),
        !saved || !has_instance(old(store).instances@, instance_id@) ==> *final(store) == *old(store),
        saved && has_instance(old(store).instances@, instance_id@) ==> exists|i: int| {
            &&& first_instance(old(store).instances@, instance_id@, i)
            &&& final(store).instances@[i].last_launched_at is Some
            &&& final(store).instances@ == old(store).instances@.update(
                i,
                CodexInstance {
                    last_pid: pid,
                    last_launched_at: final(store).instances@[i].last_launched_at,
                    ..old(store).instances@[i]
                },
            )
            &&& final(store).accounts == old(store).accounts
            &&& final(store).current_account_id == old(store).current_account_id
            &&& final(store).version == old(store).version
        },
{
    if str_eq(instance_id, default_instance_id_str()) {
        return false;
    }
    if let Some(i) = find_instance(&store.instances, instance_id) {
        let mut instance = store.instances[i].clone();
        let now = now_ts();
        instance.last_pid = pid;
        instance.last_launched_at = Some(now);
        store.instances.set(i, instance);
        proof {
            assert(first_instance(old(store).instances@, instance_id@, i as int));
        }
    }
    true
}

/// Forgets the process of instance `instance_id` and returns it, for the
/// caller to end. The default instance has no process that is kept.
pub fn stop_instance(store: &mut Store, instance_id: &str) -> (r: Result<Option<u32>, String>)
    ensures
        instance_id@ == default_instance_id()
            ==> (r matches Err(e) && e@ == "默认实例没有可跟踪的进程，请在终端窗口中退出"@),
        instance_id@ != default_instance_id() && !has_instance(old(store).instances@, instance_id@)
            ==> (r matches Err(e) && e@ == missing_instance(instance_id@)),
        r is Err ==> *final(store) == *old(store),
        instance_id@ != default_instance_id() && has_instance(old(store).instances@, instance_id@)
            ==> (r matches Ok(pid) && exists|i: int| {
                &&& first_instance(old(store).instances@, instance_id@, i)
                &&& pid == old(store).instances@[i].last_pid
                &&& final(store).instances@ == old(store).instances@.update(
                    i,
                    CodexInstance { last_pid: None, ..old(store).instances@[i] },
                )
                &&& final(store).accounts == old(store).accounts
                &&& final(store).current_account_id == old(store).current_account_id
                &&& final(store).version == old(store).version
            }),
{
    if str_eq(instance_id, default_instance_id_str()) {
        return Err(String::from_str("默认实例没有可跟踪的进程，请在终端窗口中退出"));
    }
    let i = match find_instance(&store.instances, instance_id) {
        Some(i) => i,
        None => return Err(concat("实例不存在: ", instance_id)),
    };
    let mut instance = store.instances[i].clone();
    let pid = instance.last_pid;
    instance.last_pid = None;
    store.instances.set(i, instance);
    proof {
        assert(first_instance(old(store).instances@, instance_id@, i as int));
    }
    Ok(pid)
}

/// The path to open in the file manager: the argument trimmed, which must not
/// be blank.
pub fn open_path(path: &str) -> (r: Result<String, String>)
    ensures
        match spec_normalize(path@) {
            Some(p) => r matches Ok(q) && q@ == p,
            None => r matches Err(e) && e@ == "路径不能为空"@,
        },
{
    match normalize_optional_ref(Some(path)) {
        Some(p) => Ok(p),
        None => Err(String::from_str("路径不能为空")),
    }
}

/// The command line that opens instance `instance_id`, with the CLI found at
/// `cli_path` if it was; the default instance's home comes from `CODEX_HOME`
/// (`codex_home_env`) or the user's home.
pub fn get_instance_launch_command(
    store: &Store,
    instance_id: &str,
    codex_home_env: Option<&str>,
    cli_path: Option<&str>,
) -> (r: Result<String, String>)
    ensures
        instance_id@ != default_instance_id() ==> match r {
            Ok(c) => exists|k: int| {
                &&& first_instance(store.instances@, instance_id@, k)
                &&& c@ == spec_launch_command(
                    store.instances@[k].codex_home@,
                    opt_view(store.instances@[k].working_dir),
                    store.instances@[k].extra_args@,
                    opt_str_view(cli_path),
                )
            },
            Err(e) => !has_instance(store.instances@, instance_id@) && e@ == missing_instance(instance_id@),
        },
        instance_id@ == default_instance_id() ==> match r {
            Ok(c) => exists|home: Seq<char>| {
                &&& default_home_outcome(opt_str_view(codex_home_env), Ok(home))
                &&& c@ == spec_launch_command(home, None, Seq::empty(), opt_str_view(cli_path))
            },
            Err(e) => default_home_outcome(opt_str_view(codex_home_env), Err(e@)),
        },
{
    let instance = resolve_launch_instance(store, instance_id, codex_home_env)?;
    let working_dir = match &instance.working_dir {
        Some(w) => Some(w.as_str()),
        None => None,
    };
    let c = build_launch_command(instance.codex_home.as_str(), working_dir, instance.extra_args.as_str(), cli_path);
    proof {
        if instance_id@ == default_instance_id() {
            assert(instance.extra_args@ =~= Seq::<char>::empty());
        }
    }
    Ok(c)
}

/// `after` is `before` once the outcome of a quota request is recorded: on
/// success the quota, no error, a fresh update time and the plan when one came
/// back; on failure the message with its time, and a fresh update time.
pub open spec fn quota_recorded(after: CodexAccount, before: CodexAccount, result: Result<QuotaFetchResult, String>) -> bool {
    match result {
        Ok(res) => {
            &&& after.usage_updated_at is Some
            &&& after == CodexAccount {
                quota: Some(res.quota),
                quota_error: None,
                usage_updated_at: after.usage_updated_at,
                plan_type: if res.plan_type is Some { res.plan_type } else { before.plan_type },
                ..before
            }
        },
        Err(message) => {
            &&& after.usage_updated_at is Some
            &&& after.quota_error matches Some(info) && info.message == message
            &&& after == CodexAccount {
                quota_error: after.quota_error,
                usage_updated_at: after.usage_updated_at,
                ..before
            }
        },
    }
}

/// Records the outcome of a quota request on the account at `index`.
pub fn record_quota_at(store: &mut Store, index: usize, result: Result<QuotaFetchResult, String>)
    requires
        index < old(store).accounts@.len(),
    ensures
        final(store).accounts@.len() == old(store).accounts@.len(),
        quota_recorded(final(store).accounts@[index as int], old(store).accounts@[index as int], result),
        final(store).accounts@ == old(store).accounts@.update(index as int, final(store).accounts@[index as int]),
        final(store).instances == old(store).instances,
        final(store).current_account_id == old(store).current_account_id,
        final(store).version == old(store).version,
{
    let mut account = store.accounts[index].clone();
    match result {
        Ok(res) => {
            account.quota = Some(res.quota);
            account.quota_error = None;
            account.usage_updated_at = Some(now_ts());
            if res.plan_type.is_some() {
                account.plan_type = res.plan_type;
            }
        },
        Err(message) => {
            account.quota_error = Some(CodexQuotaErrorInfo { message, timestamp: now_ts() });
            account.usage_updated_at = Some(now_ts());
        },
    }
    store.accounts.set(index, account);
    assert(store.accounts@ =~= old(store).accounts@.update(index as int, store.accounts@[index as int]));
}

/// Records the outcome of a quota request on the first account with
/// identifier `account_id`; nothing changes when there is none.
pub fn record_quota_result(store: &mut Store, account_id: &str, result: Result<QuotaFetchResult, String>)
    ensures
        !has_account(old(store).accounts@, account_id@) ==> *final(store) == *old(store),
        has_account(old(store).accounts@, account_id@) ==> exists|i: int| {
            &&& first_account(old(store).accounts@, account_id@, i)
            &&& quota_recorded(final(store).accounts@[i], old(store).accounts@[i], result)
            &&& final(store).accounts@ == old(store).accounts@.update(i, final(store).accounts@[i])
            &&& final(store).instances == old(store).instances
            &&& final(store).current_account_id == old(store).current_account_id
            &&& final(store).version == old(store).version
        },
{
    if let Some(i) = find_account(&store.accounts, account_id) {
        record_quota_at(store, i, result);
        proof {
            assert(first_account(old(store).accounts@, account_id@, i as int));
        }
    }
}

/// The positions of the accounts whose quota a refresh of all asks for, in
/// order: every account that is not an API key.
pub fn quota_refresh_targets(store: &Store) -> (r: Vec<usize>)
    ensures
        forall|j: int| 0 <= j < r@.len() ==> (#[trigger] r@[j]) < store.accounts@.len(),
        forall|j: int, k: int| 0 <= j < k < r@.len() ==> r@[j] < r@[k],
        forall|i: int| 0 <= i < store.accounts@.len() ==>
            (r@.contains(i as usize) <==> (#[trigger] store.accounts@[i]).auth_mode != CodexAuthMode::Apikey),
{
    let mut r: Vec<usize> = Vec::new();
    let n = store.accounts.len();
    let mut i: usize = 0;
    while i < n
        invariant
            n == store.accounts@.len(),
            i <= n,
            forall|j: int| 0 <= j < r@.len() ==> (#[trigger] r@[j]) < i,
            forall|j: int, k: int| 0 <= j < k < r@.len() ==> r@[j] < r@[k],
            forall|m: int| 0 <= m < i ==>
                (r@.contains(m as usize) <==> (#[trigger] store.accounts@[m]).auth_mode != CodexAuthMode::Apikey),
        decreases n - i,
    {
        let api = store.accounts[i].auth_mode == CodexAuthMode::Apikey;
        let ghost before = r@;
        if !api {
            r.push(i);
        }
        proof {
            assert forall|m: int| 0 <= m <= i implies
                (r@.contains(m as usize) <==> (#[trigger] store.accounts@[m]).auth_mode != CodexAuthMode::Apikey) by {
                if m < i {
                    if r@.contains(m as usize) {
                        let j = choose|j: int| 0 <= j < r@.len() && r@[j] == m as usize;
                        if j == before.len() {
                            assert(r@[j] == i);
                        } else {
                            assert(before[j] == m as usize);
                        }
                    }
                    if before.contains(m as usize) {
                        let j = choose|j: int| 0 <= j < before.len() && before[j] == m as usize;
                        assert(r@[j] == m as usize);
                    }
                } else {
                    if !api {
                        assert(r@[before.len() as int] == i);
                    } else {
                        if r@.contains(m as usize) {
                            let j = choose|j: int| 0 <= j < r@.len() && r@[j] == m as usize;
                            assert(r@[j] < i);
                        }
                    }
                }
            }
        }
        i = i + 1;
    }
    r
}

} // verus!
