use vstd::prelude::*;
use vstd::string::StrSliceExecFns;
use vstd::string::StringExecFns;

use crate::models::{clone_opt_string, default_instance_id, CodexAccount, CodexAuthMode, CodexTokens, CodexInstance, CodexInstanceView, Store};
use crate::storage::{
    lemma_normalize_stable,
    now_ts,
    default_codex_home, default_home_outcome, normalize_optional, normalize_optional_ref, sha256_short, spec_normalize, spec_normalize_opt,
    spec_sha256_short, path_join, spec_path_join,
};
use crate::text::{opt_str_view, is_ascii_upper, is_lower_hex,
    ascii_lower, ascii_lower_char, ascii_lower_seq, ascii_lower_str, concat, is_ascii_alnum,
    is_ascii_alnum_char, push_char, remove_char, remove_char_str, res_view, is_empty_str, last_chars, last_chars_str, opt_view,
    second_segment, second_segment_str, str_eq, trim, trim_end_by, trim_end_char, trim_str,
};

verus! {

/// An account's base URL: the trimmed value without trailing slashes, `None`
/// when blank.
pub open spec fn spec_account_base_url(input: Option<Seq<char>>) -> Option<Seq<char>> {
    match spec_normalize_opt(input) {
        Some(t) => Some(trim_end_by(t, Some('/'))),
        None => None,
    }
}

/// The trimmed base URL without trailing slashes; `None` when none is given or
/// it is blank.
pub fn normalize_base_url(input: Option<String>) -> (r: Option<String>)
    ensures
        opt_view(r) == spec_account_base_url(opt_view(input)),
{
    match normalize_optional(input) {
        Some(value) => Some(trim_end_char(value.as_str(), '/')),
        None => None,
    }
}

/// Whether an `auth_mode` value names the API-key mode: `apikey` in any ASCII
/// case, around whitespace.
pub open spec fn spec_is_api_key_mode(input: Option<Seq<char>>) -> bool {
    match input {
        Some(s) => ascii_lower_seq(trim(s)) == "apikey"@,
        None => false,
    }
}

fn is_api_key_mode(input: Option<&str>) -> (b: bool)
    ensures
        b == spec_is_api_key_mode(opt_str_view(input)),
{
    match input {
        Some(value) => {
            let trimmed = trim_str(value);
            let lowered = ascii_lower_str(trimmed.as_str());
            str_eq(lowered.as_str(), "apikey")
        },
        None => false,
    }
}

/// `API Key ` followed by the last four characters of the key.
pub open spec fn spec_api_key_label(api_key: Seq<char>) -> Seq<char> {
    "API Key "@ + last_chars(api_key, 4)
}

/// The default label of an API-key account.
pub fn api_key_label(api_key: &str) -> (r: String)
    ensures
        r@ == spec_api_key_label(api_key@),
{
    let suffix = last_chars_str(api_key, 4);
    concat("API Key ", suffix.as_str())
}

/// The text of an optional value, empty when there is none.
pub open spec fn or_empty(o: Option<Seq<char>>) -> Seq<char> {
    match o {
        Some(s) => s,
        None => Seq::empty(),
    }
}

/// The identifier of an OAuth account: `oauth_` and the first 18 hexadecimal
/// digits of the SHA-256 of `email|account|organization`, the email in ASCII
/// lowercase.
pub open spec fn spec_oauth_account_id(email: Seq<char>, account_id: Option<Seq<char>>, organization_id: Option<Seq<char>>) -> Seq<char> {
    "oauth_"@ + spec_sha256_short(
        ascii_lower_seq(email) + "|"@ + or_empty(account_id) + "|"@ + or_empty(organization_id),
        18,
    )
}

/// The text of an optional string slice, empty when there is none.
fn str_or_empty(o: Option<&str>) -> (r: &str)
    ensures
        r@ == or_empty(opt_str_view(o)),
{
    match o {
        Some(s) => s,
        None => {
            proof {
                reveal_strlit("");
            }
            ""
        },
    }
}

/// `id` is a prefix followed by 18 lowercase hexadecimal digits.
pub open spec fn is_hashed_id(id: Seq<char>, prefix: Seq<char>) -> bool {
    &&& id.len() == prefix.len() + 18
    &&& id.subrange(0, prefix.len() as int) == prefix
    &&& forall|i: int| prefix.len() <= i < id.len() ==> is_lower_hex(#[trigger] id[i])
}

/// The identifier of an OAuth account ignores the case of the email's ASCII
/// letters, and a missing account or organization identifier counts as an
/// empty one.
pub proof fn lemma_oauth_id_inputs(
    e1: Seq<char>,
    e2: Seq<char>,
    account_id: Option<Seq<char>>,
    organization_id: Option<Seq<char>>,
)
    requires
        ascii_lower_seq(e1) == ascii_lower_seq(e2),
    ensures
        spec_oauth_account_id(e1, account_id, organization_id) == spec_oauth_account_id(e2, account_id, organization_id),
        spec_oauth_account_id(e1, None, None) == spec_oauth_account_id(e1, Some(Seq::empty()), Some(Seq::empty())),
{
}

/// The stable identifier of an OAuth account: `oauth_` and 18 lowercase
/// hexadecimal digits.
pub fn account_id_for_oauth(email: &str, account_id: Option<&str>, organization_id: Option<&str>) -> (r: String)
    ensures
        r@ == spec_oauth_account_id(email@, opt_str_view(account_id), opt_str_view(organization_id)),
        is_hashed_id(r@, "oauth_"@),
{
    proof {
        reveal_strlit("");
    }
    let lowered = ascii_lower_str(email);
    let a = concat(lowered.as_str(), "|");
    let b = concat(a.as_str(), str_or_empty(account_id));
    let c = concat(b.as_str(), "|");
    let d = concat(c.as_str(), str_or_empty(organization_id));
    let hash = sha256_short(d.as_str(), 18);
    let r = concat("oauth_", hash.as_str());
    proof {
        reveal_strlit("oauth_");
        assert(r@.subrange(0, 6) =~= "oauth_"@);
        assert forall|i: int| 6 <= i < r@.len() implies is_lower_hex(#[trigger] r@[i]) by {
            assert(r@[i] == hash@[i - 6]);
        }
    }
    r
}

/// The identifier of an API-key account: `apikey_` and the first 18
/// hexadecimal digits of the SHA-256 of `key|base URL`, the key trimmed.
pub open spec fn spec_api_key_account_id(api_key: Seq<char>, base_url: Option<Seq<char>>) -> Seq<char> {
    "apikey_"@ + spec_sha256_short(trim(api_key) + "|"@ + or_empty(base_url), 18)
}

/// The stable identifier of an API-key account: `apikey_` and 18 lowercase
/// hexadecimal digits.
pub fn account_id_for_api_key(api_key: &str, base_url: Option<&str>) -> (r: String)
    ensures
        r@ == spec_api_key_account_id(api_key@, opt_str_view(base_url)),
        is_hashed_id(r@, "apikey_"@),
{
    proof {
        reveal_strlit("");
    }
    let key = trim_str(api_key);
    let a = concat(key.as_str(), "|");
    let b = concat(a.as_str(), str_or_empty(base_url));
    let hash = sha256_short(b.as_str(), 18);
    let r = concat("apikey_", hash.as_str());
    proof {
        reveal_strlit("apikey_");
        assert(r@.subrange(0, 7) =~= "apikey_"@);
        assert forall|i: int| 7 <= i < r@.len() implies is_lower_hex(#[trigger] r@[i]) by {
            assert(r@[i] == hash@[i - 7]);
        }
    }
    r
}

/// The bytes of an optional byte vector.
pub open spec fn opt_bytes(o: Option<Vec<u8>>) -> Option<Seq<u8>> {
    match o {
        Some(v) => Some(v@),
        None => None,
    }
}

/// What base64's `URL_SAFE_NO_PAD` engine decodes `input` to: `None` where
/// `input` is not an unpadded URL-safe base64 text.
pub uninterp spec fn spec_base64_url_decode(input: Seq<u8>) -> Option<Seq<u8>>;

/// base64's `URL_SAFE_NO_PAD.decode` on the UTF-8 bytes of `input`, its error
/// turned into `None`; the result is named by `spec_base64_url_decode`.
#[verifier::external_body]
fn base64_url_decode(input: &str) -> (r: Option<Vec<u8>>)
    ensures
        opt_bytes(r) == spec_base64_url_decode(vstd::utf8::encode_utf8(input@)),
{
    base64::Engine::decode(&base64::engine::general_purpose::URL_SAFE_NO_PAD, input).ok()
}

/// The string under `key` in the JSON object that `document` holds, as
/// serde_json's `from_slice::<Value>`, `Value::get` and `Value::as_str` find
/// it: `None` when `document` is not JSON, is not an object, lacks the key, or
/// holds something other than a string there.
pub uninterp spec fn spec_json_str(document: Seq<u8>, key: Seq<char>) -> Option<Seq<char>>;

/// The string under `key` in the object under `outer` of the JSON object that
/// `document` holds, found as for `spec_json_str`, one level deeper.
pub uninterp spec fn spec_json_nested_str(document: Seq<u8>, outer: Seq<char>, key: Seq<char>) -> Option<Seq<char>>;

/// serde_json: parses `document` as a `Value` and reads the string under `key`;
/// named by `spec_json_str`.
#[verifier::external_body]
fn json_str(document: &[u8], key: &str) -> (r: Option<String>)
    ensures
        opt_view(r) == spec_json_str(document@, key@),
{
    let value: serde_json::Value = serde_json::from_slice(document).ok()?;
    value.get(key)?.as_str().map(|text| text.to_string())
}

/// serde_json: parses `document` as a `Value` and reads the string under `key`
/// in the object under `outer`; named by `spec_json_nested_str`.
#[verifier::external_body]
fn json_nested_str(document: &[u8], outer: &str, key: &str) -> (r: Option<String>)
    ensures
        opt_view(r) == spec_json_nested_str(document@, outer@, key@),
{
    let value: serde_json::Value = serde_json::from_slice(document).ok()?;
    value.get(outer)?.get(key)?.as_str().map(|text| text.to_string())
}

/// The decoded payload (second segment) of a JWT.
pub open spec fn jwt_payload(token: Seq<char>) -> Option<Seq<u8>> {
    match second_segment(token) {
        Some(segment) => spec_base64_url_decode(vstd::utf8::encode_utf8(segment)),
        None => None,
    }
}

fn parse_jwt_payload(token: &str) -> (r: Option<Vec<u8>>)
    ensures
        opt_bytes(r) == jwt_payload(token@),
{
    match second_segment_str(token) {
        Some(segment) => base64_url_decode(segment.as_str()),
        None => None,
    }
}

/// A string claim at the top of a JWT payload.
pub open spec fn jwt_claim(payload: Option<Seq<u8>>, key: Seq<char>) -> Option<Seq<char>> {
    match payload {
        Some(p) => spec_json_str(p, key),
        None => None,
    }
}

/// The claim object in which OpenAI tokens carry account details.
pub open spec fn auth_claim_key() -> Seq<char> {
    "https://api.openai.com/auth"@
}

/// A string in the OpenAI claim object of a JWT payload.
pub open spec fn auth_claim(payload: Option<Seq<u8>>, key: Seq<char>) -> Option<Seq<char>> {
    match payload {
        Some(p) => spec_json_nested_str(p, auth_claim_key(), key),
        None => None,
    }
}

/// `a` when it holds a value, else `b`.
pub open spec fn first_of(a: Option<Seq<char>>, b: Option<Seq<char>>) -> Option<Seq<char>> {
    match a {
        Some(_) => a,
        None => b,
    }
}

fn payload_str(payload: &Option<Vec<u8>>, key: &str) -> (r: Option<String>)
    ensures
        opt_view(r) == jwt_claim(opt_bytes(*payload), key@),
{
    match payload {
        Some(p) => json_str(p.as_slice(), key),
        None => None,
    }
}

fn auth_payload_value(payload: &Option<Vec<u8>>, key: &str) -> (r: Option<String>)
    ensures
        opt_view(r) == auth_claim(opt_bytes(*payload), key@),
{
    match payload {
        Some(p) => json_nested_str(p.as_slice(), "https://api.openai.com/auth", key),
        None => None,
    }
}

fn or_else(a: Option<String>, b: Option<String>) -> (r: Option<String>)
    ensures
        opt_view(r) == first_of(opt_view(a), opt_view(b)),
{
    match a {
        Some(_) => a,
        None => b,
    }
}

/// The email of an OAuth profile: the ID token's `email`, normalized, or
/// `unknown-codex-account`.
pub open spec fn profile_email(id_payload: Option<Seq<u8>>) -> Seq<char> {
    match spec_normalize_opt(jwt_claim(id_payload, "email"@)) {
        Some(e) => e,
        None => "unknown-codex-account"@,
    }
}

/// The first of the OpenAI claims `k1`, `k2` in the ID token, then in the access
/// token.
pub open spec fn claim_pair(id_payload: Option<Seq<u8>>, access_payload: Option<Seq<u8>>, k1: Seq<char>, k2: Seq<char>) -> Option<Seq<char>> {
    first_of(
        first_of(auth_claim(id_payload, k1), auth_claim(id_payload, k2)),
        first_of(auth_claim(access_payload, k1), auth_claim(access_payload, k2)),
    )
}

/// The organization claim: `organization_id`, `chatgpt_organization_id` or
/// `org_id`, in the ID token, then in the access token.
pub open spec fn organization_claim(id_payload: Option<Seq<u8>>, access_payload: Option<Seq<u8>>) -> Option<Seq<char>> {
    first_of(
        first_of(
            first_of(auth_claim(id_payload, "organization_id"@), auth_claim(id_payload, "chatgpt_organization_id"@)),
            auth_claim(id_payload, "org_id"@),
        ),
        first_of(
            first_of(auth_claim(access_payload, "organization_id"@), auth_claim(access_payload, "chatgpt_organization_id"@)),
            auth_claim(access_payload, "org_id"@),
        ),
    )
}

/// The email, plan type, account identifier and organization identifier that
/// an OAuth ID token and access token carry.
pub open spec fn spec_oauth_profile(id_token: Seq<char>, access_token: Seq<char>) -> (Seq<char>, Option<Seq<char>>, Option<Seq<char>>, Option<Seq<char>>) {
    let id_payload = jwt_payload(id_token);
    let access_payload = jwt_payload(access_token);
    (
        profile_email(id_payload),
        spec_normalize_opt(auth_claim(id_payload, "chatgpt_plan_type"@)),
        spec_normalize_opt(claim_pair(id_payload, access_payload, "account_id"@, "chatgpt_account_id"@)),
        spec_normalize_opt(organization_claim(id_payload, access_payload)),
    )
}

/// Reads the profile of an OAuth account from its tokens: the email, plan type,
/// account identifier and organization identifier, each normalized; the email
/// falls back to `unknown-codex-account`.
pub fn extract_oauth_profile(id_token: &str, access_token: &str) -> (r: (String, Option<String>, Option<String>, Option<String>))
    ensures
        (r.0@, opt_view(r.1), opt_view(r.2), opt_view(r.3)) == spec_oauth_profile(id_token@, access_token@),
{
    let id_payload = parse_jwt_payload(id_token);
    let access_payload = parse_jwt_payload(access_token);

    let email = match normalize_optional(payload_str(&id_payload, "email")) {
        Some(e) => e,
        None => String::from_str("unknown-codex-account"),
    };
    let plan_type = normalize_optional(auth_payload_value(&id_payload, "chatgpt_plan_type"));

    let id_account = or_else(
        auth_payload_value(&id_payload, "account_id"),
        auth_payload_value(&id_payload, "chatgpt_account_id"),
    );
    let access_account = or_else(
        auth_payload_value(&access_payload, "account_id"),
        auth_payload_value(&access_payload, "chatgpt_account_id"),
    );
    let account_id = normalize_optional(or_else(id_account, access_account));

    let id_org = or_else(
        or_else(
            auth_payload_value(&id_payload, "organization_id"),
            auth_payload_value(&id_payload, "chatgpt_organization_id"),
        ),
        auth_payload_value(&id_payload, "org_id"),
    );
    let access_org = or_else(
        or_else(
            auth_payload_value(&access_payload, "organization_id"),
            auth_payload_value(&access_payload, "chatgpt_organization_id"),
        ),
        auth_payload_value(&access_payload, "org_id"),
    );
    let organization_id = normalize_optional(or_else(id_org, access_org));

    (email, plan_type, account_id, organization_id)
}

/// Whether some account of `accounts` has the identifier `id`.
pub open spec fn has_account(accounts: Seq<CodexAccount>, id: Seq<char>) -> bool {
    exists|i: int| 0 <= i < accounts.len() && (#[trigger] accounts[i]).id@ == id
}

/// `i` is the first position of an account with identifier `id`.
pub open spec fn first_account(accounts: Seq<CodexAccount>, id: Seq<char>, i: int) -> bool {
    &&& 0 <= i < accounts.len()
    &&& accounts[i].id@ == id
    &&& forall|j: int| 0 <= j < i ==> (#[trigger] accounts[j]).id@ != id
}

/// The position of the first account with identifier `id`, if any.
pub fn find_account(accounts: &Vec<CodexAccount>, id: &str) -> (r: Option<usize>)
    ensures
        match r {
            Some(i) => first_account(accounts@, id@, i as int),
            None => !has_account(accounts@, id@),
        },
{
    let mut i: usize = 0;
    while i < accounts.len()
        invariant
            i <= accounts@.len(),
            forall|j: int| 0 <= j < i ==> (#[trigger] accounts@[j]).id@ != id@,
        decreases accounts@.len() - i,
    {
        if str_eq(accounts[i].id.as_str(), id) {
            return Some(i);
        }
        i = i + 1;
    }
    None
}

/// Whether some instance of `instances` has the identifier `id`.
pub open spec fn has_instance(instances: Seq<CodexInstance>, id: Seq<char>) -> bool {
    exists|i: int| 0 <= i < instances.len() && (#[trigger] instances[i]).id@ == id
}

/// `i` is the first position of an instance with identifier `id`.
pub open spec fn first_instance(instances: Seq<CodexInstance>, id: Seq<char>, i: int) -> bool {
    &&& 0 <= i < instances.len()
    &&& instances[i].id@ == id
    &&& forall|j: int| 0 <= j < i ==> (#[trigger] instances[j]).id@ != id
}

/// The position of the first instance with identifier `id`, if any.
pub fn find_instance(instances: &Vec<CodexInstance>, id: &str) -> (r: Option<usize>)
    ensures
        match r {
            Some(i) => first_instance(instances@, id@, i as int),
            None => !has_instance(instances@, id@),
        },
{
    let mut i: usize = 0;
    while i < instances.len()
        invariant
            i <= instances@.len(),
            forall|j: int| 0 <= j < i ==> (#[trigger] instances@[j]).id@ != id@,
        decreases instances@.len() - i,
    {
        if str_eq(instances[i].id.as_str(), id) {
            return Some(i);
        }
        i = i + 1;
    }
    None
}

/// Stores `account`: it replaces the first account with the same identifier,
/// keeping that account's creation time, or is appended when there is none.
/// Returns the account as stored.
pub fn upsert_account(store: &mut Store, account: CodexAccount) -> (r: CodexAccount)
    ensures
        final(store).version == old(store).version,
        final(store).current_account_id == old(store).current_account_id,
        final(store).instances == old(store).instances,
        has_account(old(store).accounts@, account.id@) ==> exists|i: int| {
            &&& first_account(old(store).accounts@, account.id@, i)
            &&& r == CodexAccount { created_at: old(store).accounts@[i].created_at, ..account }
            &&& final(store).accounts@ == old(store).accounts@.update(i, r)
        },
        !has_account(old(store).accounts@, account.id@) ==> {
            &&& r == account
            &&& final(store).accounts@ == old(store).accounts@.push(account)
        },
{
    let mut account = account;
    match find_account(&store.accounts, account.id.as_str()) {
        Some(i) => {
            account.created_at = store.accounts[i].created_at;
            store.accounts.set(i, account.clone());
            assert(first_account(old(store).accounts@, account.id@, i as int));
            assert(store.accounts@ =~= old(store).accounts@.update(i as int, account));
        },
        None => {
            store.accounts.push(account.clone());
        },
    }
    account
}

/// The character that stands for `c` in a slug: ASCII letters and digits in
/// lowercase, `-` and `_` as they are, anything else as `-`.
pub open spec fn slug_char(c: char) -> char {
    if is_ascii_alnum(c) {
        ascii_lower(c)
    } else if c == '-' || c == '_' {
        c
    } else {
        '-'
    }
}

/// The slug built so far from `s`, and whether a `-` is owed before the next
/// character: the `-`-separated parts of `s` that are not empty, joined by `-`.
pub open spec fn slug_fold(s: Seq<char>) -> (Seq<char>, bool)
    decreases s.len(),
{
    if s.len() == 0 {
        (Seq::empty(), false)
    } else {
        let (out, pending) = slug_fold(s.drop_last());
        let c = s.last();
        if c == '-' {
            (out, out.len() > 0)
        } else if pending {
            (out.push('-').push(c), false)
        } else {
            (out.push(c), false)
        }
    }
}

/// The slug of a name: its characters mapped by `slug_char`, the parts between
/// `-` that are not empty joined by `-`, or `codex-instance` when nothing is left.
pub open spec fn spec_slugify(name: Seq<char>) -> Seq<char> {
    let out = slug_fold(name.map_values(|c: char| slug_char(c))).0;
    if out.len() == 0 {
        "codex-instance"@
    } else {
        out
    }
}

/// A character a slug may hold: a lowercase ASCII letter, a digit, `_` or `-`.
pub open spec fn is_slug_char(c: char) -> bool {
    ('a' <= c && c <= 'z') || ('0' <= c && c <= '9') || c == '_' || c == '-'
}

/// A well-formed slug: not empty, made of slug characters, neither starting
/// nor ending with `-`, and without two `-` in a row.
pub open spec fn is_slug(t: Seq<char>) -> bool {
    &&& t.len() > 0
    &&& t[0] != '-'
    &&& t[t.len() - 1] != '-'
    &&& forall|i: int| 0 <= i < t.len() ==> is_slug_char(#[trigger] t[i])
    &&& forall|i: int| 0 <= i < t.len() - 1 ==> !(#[trigger] t[i] == '-' && t[i + 1] == '-')
}

proof fn lemma_slug_char(c: char)
    ensures
        is_slug_char(slug_char(c)),
        is_slug_char(c) ==> slug_char(c) == c,
{
    if is_ascii_upper(c) {
        let u = c as u32;
        assert(65 <= u <= 90);
        assert(((u + 32) as char) as u32 == u + 32);
    }
}

/// What the fold keeps: no `-` at either end, no two in a row, a `-` owed only
/// after something, and only slug characters when it is given only those.
proof fn lemma_slug_fold_shape(s: Seq<char>)
    ensures
        ({
            let (out, pending) = slug_fold(s);
            &&& out.len() > 0 ==> out[0] != '-' && out[out.len() - 1] != '-'
            &&& forall|i: int| 0 <= i < out.len() - 1 ==> !(#[trigger] out[i] == '-' && out[i + 1] == '-')
            &&& pending ==> out.len() > 0
            &&& (forall|j: int| 0 <= j < s.len() ==> is_slug_char(#[trigger] s[j]))
                ==> (forall|i: int| 0 <= i < out.len() ==> is_slug_char(#[trigger] out[i]))
        }),
    decreases s.len(),
{
    if s.len() > 0 {
        let prev = s.drop_last();
        lemma_slug_fold_shape(prev);
        let (o, p) = slug_fold(prev);
        let c = s.last();
        if (forall|j: int| 0 <= j < s.len() ==> is_slug_char(#[trigger] s[j])) {
            assert forall|j: int| 0 <= j < prev.len() implies is_slug_char(#[trigger] prev[j]) by {
                assert(prev[j] == s[j]);
            }
            assert(is_slug_char(s[s.len() - 1]));
        }
        if c != '-' {
            if p {
                let out = o.push('-').push(c);
                assert forall|i: int| 0 <= i < out.len() - 1 implies !(#[trigger] out[i] == '-' && out[i + 1] == '-') by {
                    if i < o.len() - 1 {
                        assert(out[i] == o[i] && out[i + 1] == o[i + 1]);
                    } else if i == o.len() - 1 {
                        assert(out[i] == o[o.len() - 1]);
                    }
                }
            } else {
                let out = o.push(c);
                assert forall|i: int| 0 <= i < out.len() - 1 implies !(#[trigger] out[i] == '-' && out[i + 1] == '-') by {
                    if i < o.len() - 1 {
                        assert(out[i] == o[i] && out[i + 1] == o[i + 1]);
                    }
                }
            }
        }
    }
}

/// On a well-formed slug the fold gives back every prefix, less a trailing
/// `-`, which it owes instead.
proof fn lemma_slug_fold_of_slug(t: Seq<char>, k: int)
    requires
        t.len() > 0,
        t[0] != '-',
        forall|i: int| 0 <= i < t.len() - 1 ==> !(#[trigger] t[i] == '-' && t[i + 1] == '-'),
        1 <= k <= t.len(),
    ensures
        t[k - 1] == '-' ==> slug_fold(t.subrange(0, k)) == (t.subrange(0, k - 1), true),
        t[k - 1] != '-' ==> slug_fold(t.subrange(0, k)) == (t.subrange(0, k), false),
    decreases k,
{
    let pre = t.subrange(0, k);
    assert(pre.drop_last() =~= t.subrange(0, k - 1));
    if k == 1 {
        assert(t.subrange(0, 0) =~= Seq::<char>::empty());
        assert(slug_fold(Seq::<char>::empty()) == (Seq::<char>::empty(), false));
        assert(slug_fold(pre.drop_last()) == (Seq::<char>::empty(), false));
        assert(Seq::<char>::empty().push(t[0]) =~= pre);
    } else {
        lemma_slug_fold_of_slug(t, k - 1);
        if t[k - 2] == '-' {
            assert(t[k - 1] != '-');
            assert(t.subrange(0, k - 2).len() > 0);
            assert(t.subrange(0, k - 2).push('-').push(t[k - 1]) =~= pre);
        } else {
            if t[k - 1] != '-' {
                assert(t.subrange(0, k - 1).push(t[k - 1]) =~= pre);
            }
        }
    }
}

/// Every slug is well formed: not empty, of lowercase letters, digits, `_`
/// and `-`, with no `-` at either end and none doubled.
pub proof fn lemma_slugify_is_slug(name: Seq<char>)
    ensures
        is_slug(spec_slugify(name)),
{
    let mapped = name.map_values(|c: char| slug_char(c));
    assert forall|j: int| 0 <= j < mapped.len() implies is_slug_char(#[trigger] mapped[j]) by {
        lemma_slug_char(name[j]);
    }
    lemma_slug_fold_shape(mapped);
    if slug_fold(mapped).0.len() == 0 {
        reveal_strlit("codex-instance");
        let t = "codex-instance"@;
        assert forall|i: int| 0 <= i < t.len() implies is_slug_char(#[trigger] t[i]) by {}
        assert forall|i: int| 0 <= i < t.len() - 1 implies !(#[trigger] t[i] == '-' && t[i + 1] == '-') by {}
    }
}

/// Slugifying a slug changes nothing.
pub proof fn lemma_slugify_idempotent(name: Seq<char>)
    ensures
        spec_slugify(spec_slugify(name)) == spec_slugify(name),
{
    let t = spec_slugify(name);
    lemma_slugify_is_slug(name);
    let mapped = t.map_values(|c: char| slug_char(c));
    assert forall|j: int| 0 <= j < t.len() implies mapped[j] == t[j] by {
        lemma_slug_char(t[j]);
    }
    assert(mapped =~= t);
    lemma_slug_fold_of_slug(t, t.len() as int);
    assert(t.subrange(0, t.len() as int) =~= t);
}

fn slug_char_exec(c: char) -> (r: char)
    ensures
        r == slug_char(c),
{
    if is_ascii_alnum_char(c) {
        ascii_lower_char(c)
    } else if c == '-' || c == '_' {
        c
    } else {
        '-'
    }
}

/// A directory-name slug of an instance name.
pub fn slugify(name: &str) -> (r: String)
    ensures
        r@ == spec_slugify(name@),
{
    let ghost mapped = name@.map_values(|c: char| slug_char(c));
    let n = name.unicode_len();
    let mut out = String::new();
    let mut pending = false;
    let mut i: usize = 0;
    while i < n
        invariant
            n == name@.len(),
            i <= n,
            mapped == name@.map_values(|c: char| slug_char(c)),
            slug_fold(mapped.subrange(0, i as int)) == (out@, pending),
        decreases n - i,
    {
        let c = slug_char_exec(name.get_char(i));
        proof {
            assert(mapped.subrange(0, i + 1).drop_last() =~= mapped.subrange(0, i as int));
            assert(mapped.subrange(0, i + 1).last() == c);
        }
        if c == '-' {
            pending = !is_empty_str(out.as_str());
        } else {
            if pending {
                push_char(&mut out, '-');
            }
            push_char(&mut out, c);
            pending = false;
        }
        i = i + 1;
    }
    assert(mapped.subrange(0, n as int) =~= mapped);
    if is_empty_str(out.as_str()) {
        String::from_str("codex-instance")
    } else {
        out
    }
}

/// The `cmd.exe` script that starts Codex: change to the working directory
/// when one is given, set `CODEX_HOME`, then run the CLI with the extra
/// arguments. Double quotes are dropped from the quoted parts.
pub open spec fn spec_launch_script(codex_home: Seq<char>, working_dir: Option<Seq<char>>, extra_args: Seq<char>, cli_path: Seq<char>) -> Seq<char> {
    let set_home = "set \"CODEX_HOME="@ + remove_char(codex_home, '"') + "\""@;
    let extra = trim(extra_args);
    let run = "\""@ + remove_char(cli_path, '"') + "\""@ + if extra.len() > 0 { " "@ + extra } else { Seq::empty() };
    match spec_normalize_opt(working_dir) {
        Some(dir) => "cd /d \""@ + remove_char(dir, '"') + "\""@ + " && "@ + set_home + " && "@ + run,
        None => set_home + " && "@ + run,
    }
}

/// The script that starts Codex in a `cmd.exe` window.
pub fn build_launch_script(codex_home: &str, working_dir: Option<&str>, extra_args: &str, cli_path: &str) -> (r: String)
    ensures
        r@ == spec_launch_script(codex_home@, opt_str_view(working_dir), extra_args@, cli_path@),
{
    let home = remove_char_str(codex_home, '"');
    let set_home = concat(concat("set \"CODEX_HOME=", home.as_str()).as_str(), "\"");
    let cli = remove_char_str(cli_path, '"');
    let mut run = concat(concat("\"", cli.as_str()).as_str(), "\"");
    let extra = trim_str(extra_args);
    if !is_empty_str(extra.as_str()) {
        run = concat(concat(run.as_str(), " ").as_str(), extra.as_str());
    } else {
        proof {
            assert(run@ + Seq::<char>::empty() =~= run@);
        }
    }
    let tail = concat(concat(set_home.as_str(), " && ").as_str(), run.as_str());
    let dir = match working_dir {
        Some(value) => normalize_optional_ref(Some(value)),
        None => None,
    };
    match dir {
        Some(d) => {
            let d = remove_char_str(d.as_str(), '"');
            let cd = concat(concat("cd /d \"", d.as_str()).as_str(), "\"");
            let r = concat(concat(cd.as_str(), " && ").as_str(), tail.as_str());
            proof {
                assert(r@ =~= spec_launch_script(codex_home@, opt_str_view(working_dir), extra_args@, cli_path@));
            }
            r
        },
        None => {
            proof {
                assert(tail@ =~= spec_launch_script(codex_home@, opt_str_view(working_dir), extra_args@, cli_path@));
            }
            tail
        },
    }
}

/// The CLI path used when none was found.
pub open spec fn fallback_cli_path() -> Seq<char> {
    "%APPDATA%\\npm\\codex.cmd"@
}

/// The command line that opens Codex for a home, shown to the user.
pub open spec fn spec_launch_command(codex_home: Seq<char>, working_dir: Option<Seq<char>>, extra_args: Seq<char>, cli_path: Option<Seq<char>>) -> Seq<char> {
    let cli = match cli_path {
        Some(p) => p,
        None => fallback_cli_path(),
    };
    "cmd.exe /d /k "@ + spec_launch_script(codex_home, working_dir, extra_args, cli)
}

/// The command line that opens Codex for a home; `cli_path` is where the Codex
/// CLI was found, if it was.
pub fn build_launch_command(codex_home: &str, working_dir: Option<&str>, extra_args: &str, cli_path: Option<&str>) -> (r: String)
    ensures
        r@ == spec_launch_command(codex_home@, opt_str_view(working_dir), extra_args@, opt_str_view(cli_path)),
{
    let cli = match cli_path {
        Some(p) => p,
        None => "%APPDATA%\\npm\\codex.cmd",
    };
    let script = build_launch_script(codex_home, working_dir, extra_args, cli);
    concat("cmd.exe /d /k ", script.as_str())
}

/// sysinfo: whether a process with identifier `pid` exists, after
/// `System::new_all()` and `refresh_all()`. It depends on the processes of the
/// machine at that moment, so nothing is stated of it.
#[verifier::external_body]
fn process_exists(pid: u32) -> bool {
    let mut system = sysinfo::System::new_all();
    system.refresh_all();
    system.process(sysinfo::Pid::from_u32(pid)).is_some()
}

/// Whether the process last started for an instance still runs; never when no
/// process was recorded.
fn process_running(pid: Option<u32>) -> (b: bool)
    ensures
        pid is None ==> !b,
{
    match pid {
        Some(p) => process_exists(p),
        None => false,
    }
}

/// The view of an instance for the interface. `initialized` tells whether its
/// home holds Codex files and `cli_path` where the Codex CLI was found; whether
/// its last process still runs is asked of the system.
pub fn instance_view(instance: &CodexInstance, is_default: bool, initialized: bool, cli_path: Option<&str>) -> (r: CodexInstanceView)
    ensures
        r.id == instance.id,
        r.name == instance.name,
        r.codex_home == instance.codex_home,
        r.working_dir == instance.working_dir,
        r.extra_args == instance.extra_args,
        r.bind_account_id == instance.bind_account_id,
        r.created_at == instance.created_at,
        r.last_launched_at == instance.last_launched_at,
        r.last_pid == instance.last_pid,
        instance.last_pid is None ==> !r.running,
        r.initialized == initialized,
        r.is_default == is_default,
        r.launch_command@ == spec_launch_command(
            instance.codex_home@,
            opt_view(instance.working_dir),
            instance.extra_args@,
            opt_str_view(cli_path),
        ),
{
    let working_dir = match &instance.working_dir {
        Some(d) => Some(d.as_str()),
        None => None,
    };
    let launch_command = build_launch_command(
        instance.codex_home.as_str(),
        working_dir,
        instance.extra_args.as_str(),
        cli_path,
    );
    CodexInstanceView {
        id: instance.id.clone(),
        name: instance.name.clone(),
        codex_home: instance.codex_home.clone(),
        working_dir: clone_opt_string(&instance.working_dir),
        extra_args: instance.extra_args.clone(),
        bind_account_id: clone_opt_string(&instance.bind_account_id),
        created_at: instance.created_at,
        last_launched_at: instance.last_launched_at,
        last_pid: instance.last_pid,
        running: process_running(instance.last_pid),
        initialized,
        is_default,
        launch_command,
    }
}

/// `i` is the default instance of a store whose home is `home`.
pub open spec fn is_default_instance(i: CodexInstance, store: Store, home: Seq<char>) -> bool {
    &&& i.id@ == default_instance_id()
    &&& i.name@ == "默认 Codex"@
    &&& i.codex_home@ == home
    &&& i.working_dir.is_none()
    &&& i.extra_args@.len() == 0
    &&& i.bind_account_id == store.current_account_id
    &&& i.created_at == 0
    &&& i.last_launched_at.is_none()
    &&& i.last_pid.is_none()
}

/// The instance that stands for the default Codex home; it is bound to the
/// current account. `codex_home_env` is the value of `CODEX_HOME`, if set.
pub fn default_instance(store: &Store, codex_home_env: Option<&str>) -> (r: Result<CodexInstance, String>)
    ensures
        match r {
            Ok(i) => default_home_outcome(opt_str_view(codex_home_env), Ok(i.codex_home@))
                && is_default_instance(i, *store, i.codex_home@),
            Err(e) => default_home_outcome(opt_str_view(codex_home_env), Err(e@)),
        },
{
    let home = default_codex_home(codex_home_env)?;
    proof {
        reveal_strlit("");
    }
    Ok(CodexInstance {
        id: String::from_str("__default__"),
        name: String::from_str("默认 Codex"),
        codex_home: home,
        working_dir: None,
        extra_args: String::from_str(""),
        bind_account_id: clone_opt_string(&store.current_account_id),
        created_at: 0,
        last_launched_at: None,
        last_pid: None,
    })
}

/// The identifier of the default instance.
pub fn default_instance_id_str() -> (r: &'static str)
    ensures
        r@ == default_instance_id(),
{
    proof {
        reveal_strlit("__default__");
    }
    "__default__"
}

/// The error for an instance identifier that no instance has.
pub open spec fn missing_instance(id: Seq<char>) -> Seq<char> {
    "实例不存在: "@ + id
}

/// The instance to launch: the default instance for `__default__`, else a copy
/// of the first instance with the identifier.
pub fn resolve_launch_instance(store: &Store, instance_id: &str, codex_home_env: Option<&str>) -> (r: Result<CodexInstance, String>)
    ensures
        instance_id@ == default_instance_id() ==> match r {
            Ok(i) => default_home_outcome(opt_str_view(codex_home_env), Ok(i.codex_home@))
                && is_default_instance(i, *store, i.codex_home@),
            Err(e) => default_home_outcome(opt_str_view(codex_home_env), Err(e@)),
        },
        instance_id@ != default_instance_id() ==> match r {
            Ok(i) => exists|k: int| first_instance(store.instances@, instance_id@, k) && i == store.instances@[k],
            Err(e) => !has_instance(store.instances@, instance_id@) && e@ == missing_instance(instance_id@),
        },
{
    proof {
        reveal_strlit("__default__");
    }
    if str_eq(instance_id, "__default__") {
        return default_instance(store, codex_home_env);
    }
    match find_instance(&store.instances, instance_id) {
        Some(k) => Ok(store.instances[k].clone()),
        None => Err(concat("实例不存在: ", instance_id)),
    }
}

/// How to open a terminal running Codex for an instance: the program and its
/// arguments, the directory to start in, whether it needs a console of its own,
/// the command line to report, and the text that a failure to start it is
/// reported after.
pub struct TerminalLaunch {
    pub program: String,
    pub args: Vec<String>,
    pub working_dir: Option<String>,
    pub new_console: bool,
    pub command: String,
    pub failure_prefix: String,
}

/// The texts of a list of strings.
pub open spec fn texts(v: Seq<String>) -> Seq<Seq<char>> {
    v.map_values(|s: String| s@)
}

/// The error when no Codex CLI was found.
pub open spec fn missing_cli_error() -> Seq<char> {
    "未找到 Codex CLI，请先安装 npm 版 @openai/codex"@
}

/// How to open Codex for an instance: in a new Windows Terminal tab when it is
/// available, else in a new `cmd.exe` console. `cli_path` is where the Codex
/// CLI was found; without it nothing can be launched.
pub fn codex_terminal_launch(instance: &CodexInstance, cli_path: Option<&str>, windows_terminal: bool) -> (r: Result<TerminalLaunch, String>)
    ensures
        cli_path is None ==> (r matches Err(e) && e@ == missing_cli_error()),
        cli_path matches Some(cli) ==> (r matches Ok(plan) && {
            let script = spec_launch_script(instance.codex_home@, opt_view(instance.working_dir), instance.extra_args@, cli@);
            let title = "Codex - "@ + instance.name@;
            &&& plan.working_dir == instance.working_dir
            &&& if windows_terminal {
                &&& plan.program@ == "wt.exe"@
                &&& texts(plan.args@) == seq!["new-tab"@, "--title"@, title, "cmd.exe"@, "/d"@, "/k"@, script]
                &&& !plan.new_console
                &&& plan.command@ == "wt.exe new-tab --title \""@ + title + "\" cmd.exe /d /k "@ + script
                &&& plan.failure_prefix@ == "启动 Windows Terminal 失败: "@
            } else {
                &&& plan.program@ == "cmd.exe"@
                &&& texts(plan.args@) == seq!["/d"@, "/k"@, script]
                &&& plan.new_console
                &&& plan.command@ == "cmd.exe /d /k "@ + script
                &&& plan.failure_prefix@ == "启动 cmd.exe 失败: "@
            }
        }),
{
    let cli = match cli_path {
        Some(c) => c,
        None => return Err(String::from_str("未找到 Codex CLI，请先安装 npm 版 @openai/codex")),
    };
    let working_dir = match &instance.working_dir {
        Some(d) => Some(d.as_str()),
        None => None,
    };
    let script = build_launch_script(instance.codex_home.as_str(), working_dir, instance.extra_args.as_str(), cli);
    let title = concat("Codex - ", instance.name.as_str());
    if windows_terminal {
        let mut args: Vec<String> = Vec::new();
        args.push(String::from_str("new-tab"));
        args.push(String::from_str("--title"));
        args.push(title.clone());
        args.push(String::from_str("cmd.exe"));
        args.push(String::from_str("/d"));
        args.push(String::from_str("/k"));
        args.push(script.clone());
        let a = concat("wt.exe new-tab --title \"", title.as_str());
        let b = concat(a.as_str(), "\" cmd.exe /d /k ");
        let command = concat(b.as_str(), script.as_str());
        assert(texts(args@) =~= seq!["new-tab"@, "--title"@, title@, "cmd.exe"@, "/d"@, "/k"@, script@]);
        Ok(TerminalLaunch {
            program: String::from_str("wt.exe"),
            args,
            working_dir: clone_opt_string(&instance.working_dir),
            new_console: false,
            command,
            failure_prefix: String::from_str("启动 Windows Terminal 失败: "),
        })
    } else {
        let mut args: Vec<String> = Vec::new();
        args.push(String::from_str("/d"));
        args.push(String::from_str("/k"));
        args.push(script.clone());
        let command = concat("cmd.exe /d /k ", script.as_str());
        assert(texts(args@) =~= seq!["/d"@, "/k"@, script@]);
        Ok(TerminalLaunch {
            program: String::from_str("cmd.exe"),
            args,
            working_dir: clone_opt_string(&instance.working_dir),
            new_console: true,
            command,
            failure_prefix: String::from_str("启动 cmd.exe 失败: "),
        })
    }
}

/// The error message toml_edit gives for `text` when it does not parse as a
/// `Document`; `None` when it does.
pub uninterp spec fn spec_toml_error(text: Seq<char>) -> Option<Seq<char>>;

/// The string under `key` at the top of the TOML document `text`, as toml_edit's
/// `Document` parse, `get` and `as_str` find it; `None` when `text` does not
/// parse, the key is missing or its value is not a string.
pub uninterp spec fn spec_toml_str(text: Seq<char>, key: Seq<char>) -> Option<Seq<char>>;

/// The string under `key` in the table under `sub` of the table under `table`
/// of the TOML document `text`, found as for `spec_toml_str`.
pub uninterp spec fn spec_toml_nested_str(text: Seq<char>, table: Seq<char>, sub: Seq<char>, key: Seq<char>) -> Option<Seq<char>>;

/// The text of the TOML document `text` after `doc[key] = value(value)`, as
/// toml_edit renders it.
pub uninterp spec fn spec_toml_set_str(text: Seq<char>, key: Seq<char>, value: Seq<char>) -> Seq<char>;

/// The text of the TOML document `text` after `doc.remove(key)`, as toml_edit
/// renders it.
pub uninterp spec fn spec_toml_remove(text: Seq<char>, key: Seq<char>) -> Seq<char>;

/// toml_edit: parses `text` as a `Document` and reads the string under `key`;
/// named by `spec_toml_str`. Text that does not parse gives `None`.
#[verifier::external_body]
fn toml_str(text: &str, key: &str) -> (r: Option<String>)
    ensures
        opt_view(r) == spec_toml_str(text@, key@),
        spec_toml_error(text@) is Some ==> r is None,
{
    let doc = text.parse::<toml_edit::Document>().ok()?;
    doc.get(key)?.as_str().map(|item| item.to_string())
}

/// toml_edit: parses `text` as a `Document` and reads the string under
/// `table`, `sub`, `key`; named by `spec_toml_nested_str`. Text that does not
/// parse gives `None`.
#[verifier::external_body]
fn toml_nested_str(text: &str, table: &str, sub: &str, key: &str) -> (r: Option<String>)
    ensures
        opt_view(r) == spec_toml_nested_str(text@, table@, sub@, key@),
        spec_toml_error(text@) is Some ==> r is None,
{
    let doc = text.parse::<toml_edit::Document>().ok()?;
    doc.get(table)?.get(sub)?.get(key)?.as_str().map(|item| item.to_string())
}

/// toml_edit: parses `text`, sets the top-level `key` to the string `value` and
/// renders the document; the parse error's message where `text` does not parse
/// (never for an empty text). The rendered document parses again, holds
/// `value` under `key`, and holds what `text` held under every other key; it
/// is not blank, since it holds the line of `key`.
#[verifier::external_body]
fn toml_set_str(text: &str, key: &str, value: &str) -> (r: Result<String, String>)
    ensures
        r is Err <==> spec_toml_error(text@) is Some,
        r matches Err(e) ==> spec_toml_error(text@) == Some(e@),
        text@.len() == 0 ==> r is Ok,
        r matches Ok(t) ==> {
            &&& t@ == spec_toml_set_str(text@, key@, value@)
            &&& trim(t@).len() > 0
            &&& spec_toml_error(t@) is None
            &&& spec_toml_str(t@, key@) == Some(value@)
            &&& forall|k: Seq<char>| k != key@ ==> #[trigger] spec_toml_str(t@, k) == spec_toml_str(text@, k)
        },
{
    let mut doc = text.parse::<toml_edit::Document>().map_err(|err| err.to_string())?;
    doc[key] = toml_edit::value(value);
    Ok(doc.to_string())
}

/// toml_edit: parses `text`, removes the top-level `key` and renders the
/// document; the parse error's message where `text` does not parse (never for
/// an empty text). The rendered document parses again, holds nothing under
/// `key`, and holds what `text` held under every other key.
#[verifier::external_body]
fn toml_remove(text: &str, key: &str) -> (r: Result<String, String>)
    ensures
        r is Err <==> spec_toml_error(text@) is Some,
        r matches Err(e) ==> spec_toml_error(text@) == Some(e@),
        text@.len() == 0 ==> r is Ok,
        r matches Ok(t) ==> {
            &&& t@ == spec_toml_remove(text@, key@)
            &&& spec_toml_error(t@) is None
            &&& spec_toml_str(t@, key@) is None
            &&& forall|k: Seq<char>| k != key@ ==> #[trigger] spec_toml_str(t@, k) == spec_toml_str(text@, k)
        },
{
    let mut doc = text.parse::<toml_edit::Document>().map_err(|err| err.to_string())?;
    let _ = doc.remove(key);
    Ok(doc.to_string())
}

/// A base URL read from the configuration: normalized, without trailing slashes.
pub open spec fn config_url(found: Option<Seq<char>>) -> Option<Seq<char>> {
    match spec_normalize_opt(found) {
        Some(u) => Some(trim_end_by(u, Some('/'))),
        None => None,
    }
}

/// The API base URL that a `config.toml` text names: `openai_base_url` when set,
/// else the `base_url` of the provider that `model_provider` names. `None` when
/// the file could not be read or does not parse.
pub open spec fn spec_config_base_url(config: Option<Seq<char>>) -> Option<Seq<char>> {
    match config {
        None => None,
        Some(text) => match config_url(spec_toml_str(text, "openai_base_url"@)) {
            Some(u) => Some(u),
            None => match spec_normalize_opt(spec_toml_str(text, "model_provider"@)) {
                None => None,
                Some(provider) => config_url(spec_toml_nested_str(text, "model_providers"@, provider, "base_url"@)),
            },
        },
    }
}

fn config_url_of(found: Option<String>) -> (r: Option<String>)
    ensures
        opt_view(r) == config_url(opt_view(found)),
{
    match normalize_optional(found) {
        Some(u) => Some(trim_end_char(u.as_str(), '/')),
        None => None,
    }
}

/// The API base URL named by the text of a Codex `config.toml`, if it could be
/// read.
pub fn read_api_base_url_from_config(config: Option<&str>) -> (r: Option<String>)
    ensures
        opt_view(r) == spec_config_base_url(opt_str_view(config)),
        config matches Some(t) && spec_toml_error(t@) is Some ==> r is None,
{
    let text = match config {
        Some(t) => t,
        None => return None,
    };
    if let Some(url) = config_url_of(toml_str(text, "openai_base_url")) {
        return Some(url);
    }
    let provider = match normalize_optional(toml_str(text, "model_provider")) {
        Some(p) => p,
        None => return None,
    };
    config_url_of(toml_nested_str(text, "model_providers", provider.as_str(), "base_url"))
}

/// The base URL of the official OpenAI API, which needs no entry.
pub open spec fn default_openai_base_url() -> Seq<char> {
    "https://api.openai.com/v1"@
}

/// The base URL that an API-key account writes to the configuration: its own,
/// without trailing slashes, unless that is empty or the official one.
pub open spec fn custom_base_url(account: CodexAccount) -> Option<Seq<char>> {
    match opt_view(account.api_base_url) {
        Some(u) => {
            let t = trim_end_by(u, Some('/'));
            if t.len() > 0 && t != default_openai_base_url() {
                Some(t)
            } else {
                None
            }
        },
        None => None,
    }
}

/// The edited text of the configuration: `openai_base_url` set to the account's
/// custom base URL, or removed; then `model_provider` set to `openai` for an
/// API-key account, removed for any other.
pub open spec fn spec_provider_edit(start: Seq<char>, account: CodexAccount) -> Seq<char> {
    let with_url = if account.auth_mode == CodexAuthMode::Apikey && custom_base_url(account) is Some {
        spec_toml_set_str(start, "openai_base_url"@, custom_base_url(account)->0)
    } else {
        spec_toml_remove(start, "openai_base_url"@)
    };
    if account.auth_mode == CodexAuthMode::Apikey {
        spec_toml_set_str(with_url, "model_provider"@, "openai"@)
    } else {
        spec_toml_remove(with_url, "model_provider"@)
    }
}

/// The base URL that the `openai` provider's table of a configuration names.
pub open spec fn openai_provider_url(config: Seq<char>) -> Option<Seq<char>> {
    config_url(spec_toml_nested_str(config, "model_providers"@, "openai"@, "base_url"@))
}

/// The text the configuration is edited from: nothing when the file is blank.
pub open spec fn config_start(existing: Seq<char>) -> Seq<char> {
    if trim(existing).len() == 0 {
        Seq::empty()
    } else {
        existing
    }
}

/// What writing an account's provider settings does to a `config.toml` with
/// text `existing` (empty when it could not be read): the error when it does not
/// parse; else the new text, or `None` when it is blank and there was no file.
pub open spec fn spec_provider_config(existing: Seq<char>, file_exists: bool, account: CodexAccount) -> Result<Option<Seq<char>>, Seq<char>> {
    let start = config_start(existing);
    match spec_toml_error(start) {
        Some(e) => Err("解析 config.toml 失败: "@ + e),
        None => {
            let text = spec_provider_edit(start, account);
            if trim(text).len() == 0 && !file_exists {
                Ok(None)
            } else {
                Ok(Some(text))
            }
        },
    }
}

/// An existing `config.toml` is always written back once edited, so an edit
/// that empties it (switching to an OAuth account) reaches the file; nothing
/// is written only when there is no file and the edited text is blank.
pub proof fn lemma_existing_config_rewritten(existing: Seq<char>, file_exists: bool, account: CodexAccount)
    ensures
        file_exists ==> spec_provider_config(existing, file_exists, account) != Ok::<Option<Seq<char>>, Seq<char>>(None),
        spec_provider_config(existing, file_exists, account) matches Ok(Some(t)) ==> t == spec_provider_edit(config_start(existing), account),
        spec_provider_config(existing, file_exists, account) == Ok::<Option<Seq<char>>, Seq<char>>(None)
            ==> !file_exists && trim(spec_provider_edit(config_start(existing), account)).len() == 0,
{
}

/// The text of an optional result.
pub open spec fn opt_res_view(r: Result<Option<String>, String>) -> Result<Option<Seq<char>>, Seq<char>> {
    match r {
        Ok(o) => Ok(opt_view(o)),
        Err(e) => Err(e@),
    }
}

/// The new text of a Codex `config.toml` for `account`: API-key accounts with a
/// custom base URL set `openai_base_url`, every other account removes it;
/// API-key accounts set `model_provider` to `openai`, every other account
/// removes it. `existing` is the current text (empty when it could not be read)
/// and `file_exists` whether the file exists; `None` means nothing is to be
/// written, which never happens for an API-key account. Every other top-level string of the file is kept, and the text
/// names, when read back, the account's custom base URL (or, for an API-key
/// account without a usable one, whatever the `openai` provider's table names).
pub fn write_api_provider_to_config(existing: &str, file_exists: bool, account: &CodexAccount) -> (r: Result<Option<String>, String>)
    ensures
        opt_res_view(r) == spec_provider_config(existing@, file_exists, *account),
        r is Err <==> spec_toml_error(config_start(existing@)) is Some,
        account.auth_mode == CodexAuthMode::Apikey && r is Ok ==> r matches Ok(Some(_)),
        file_exists && r is Ok ==> r matches Ok(Some(_)),
        r matches Ok(None) ==> !file_exists,
        r matches Ok(Some(t)) ==> {
            &&& spec_toml_str(t@, "openai_base_url"@) == if account.auth_mode == CodexAuthMode::Apikey {
                custom_base_url(*account)
            } else {
                None
            }
            &&& spec_toml_str(t@, "model_provider"@) == if account.auth_mode == CodexAuthMode::Apikey {
                Some("openai"@)
            } else {
                None
            }
            &&& forall|k: Seq<char>| k != "openai_base_url"@ && k != "model_provider"@
                ==> #[trigger] spec_toml_str(t@, k) == spec_toml_str(config_start(existing@), k)
            &&& spec_config_base_url(Some(t@)) == if account.auth_mode == CodexAuthMode::Apikey {
                first_of(config_url(custom_base_url(*account)), openai_provider_url(t@))
            } else {
                None::<Seq<char>>
            }
        },
{
    proof {
        reveal_strlit("openai_base_url");
        reveal_strlit("model_provider");
        assert("openai_base_url"@ != "model_provider"@) by {
            assert("openai_base_url"@[0] != "model_provider"@[0]);
        }
    }
    let trimmed = trim_str(existing);
    let start = if is_empty_str(trimmed.as_str()) {
        proof {
            reveal_strlit("");
        }
        ""
    } else {
        existing
    };
    assert(start@ == config_start(existing@));
    let custom = match &account.api_base_url {
        Some(u) => {
            let t = trim_end_char(u.as_str(), '/');
            if !is_empty_str(t.as_str()) && !str_eq(t.as_str(), "https://api.openai.com/v1") {
                Some(t)
            } else {
                None
            }
        },
        None => None,
    };
    assert(opt_view(custom) == custom_base_url(*account));
    let first = if account.auth_mode == CodexAuthMode::Apikey && custom.is_some() {
        let url = match custom {
            Some(u) => u,
            None => String::new(),
        };
        toml_set_str(start, "openai_base_url", url.as_str())
    } else {
        toml_remove(start, "openai_base_url")
    };
    let with_url = match first {
        Ok(t) => t,
        Err(e) => return Err(concat("解析 config.toml 失败: ", e.as_str())),
    };
    let second = if account.auth_mode == CodexAuthMode::Apikey {
        toml_set_str(with_url.as_str(), "model_provider", "openai")
    } else {
        toml_remove(with_url.as_str(), "model_provider")
    };
    let text = match second {
        Ok(t) => t,
        Err(e) => return Err(concat("解析 config.toml 失败: ", e.as_str())),
    };
    proof {
        reveal_strlit("openai");
        assert(spec_normalize("openai"@) == Some("openai"@));
    }
    let blank = is_empty_str(trim_str(text.as_str()).as_str());
    if blank && !file_exists {
        Ok(None)
    } else {
        Ok(Some(text))
    }
}

/// The texts of a list of keys with string-or-null values.
pub open spec fn pairs_view(v: Seq<(String, Option<String>)>) -> Seq<(Seq<char>, Option<Seq<char>>)> {
    v.map_values(|p: (String, Option<String>)| (p.0@, opt_view(p.1)))
}

/// The texts of a list of keys with nested objects.
pub open spec fn objects_view(v: Seq<(String, Vec<(String, Option<String>)>)>) -> Seq<(Seq<char>, Seq<(Seq<char>, Option<Seq<char>>)>)> {
    v.map_values(|p: (String, Vec<(String, Option<String>)>)| (p.0@, pairs_view(p.1@)))
}

/// The text serde_json's `to_string_pretty` gives for the object that holds
/// the `scalars` (strings, or null) and then the `objects` (objects of strings
/// or nulls), each inserted in order into a serde_json `Map`.
pub uninterp spec fn spec_json_pretty(
    scalars: Seq<(Seq<char>, Option<Seq<char>>)>,
    objects: Seq<(Seq<char>, Seq<(Seq<char>, Option<Seq<char>>)>)>,
) -> Seq<char>;

/// serde_json: builds a `Map` from the given entries (`None` as null) and
/// renders it with `to_string_pretty`; named by `spec_json_pretty`. Rendering
/// a map with string keys does not fail, so the error branch gives nothing.
#[verifier::external_body]
fn json_object_pretty(
    scalars: &Vec<(String, Option<String>)>,
    objects: &Vec<(String, Vec<(String, Option<String>)>)>,
) -> (r: String)
    ensures
        r@ == spec_json_pretty(pairs_view(scalars@), objects_view(objects@)),
{
    let mut map: serde_json::Map<String, serde_json::Value> =
        scalars.iter().map(|(k, v)| (k.clone(), serde_json::Value::from(v.clone()))).collect();
    for (key, inner) in objects {
        map.insert(key.clone(), inner.iter().map(|(k, v)| (k.clone(), serde_json::Value::from(v.clone()))).collect());
    }
    serde_json::to_string_pretty(&map).unwrap_or_default()
}

/// An ASCII digit.
pub open spec fn is_digit(c: char) -> bool {
    '0' <= c && c <= '9'
}

/// A year as chrono's `%Y` writes it: four digits for the years 0 to 9999,
/// otherwise a sign and at least four digits.
pub open spec fn is_year_text(y: Seq<char>) -> bool {
    ||| y.len() == 4 && forall|i: int| 0 <= i < 4 ==> is_digit(#[trigger] y[i])
    ||| {
        &&& y.len() >= 5
        &&& (y[0] == '+' || y[0] == '-')
        &&& forall|i: int| 1 <= i < y.len() ==> is_digit(#[trigger] y[i])
    }
}

/// The layout of what follows the year in a refresh stamp, `D` standing for a
/// digit: `-MM-DDTHH:MM:SS.ffffffZ`.
pub open spec fn stamp_tail_layout() -> Seq<char> {
    "-DD-DDTDD:DD:DD.DDDDDDZ"@
}

/// A UTC time as `%Y-%m-%dT%H:%M:%S%.6fZ` writes it: a year, then month, day,
/// hour, minute and second in two digits each, six digits of fraction and `Z`.
pub open spec fn is_utc_stamp(t: Seq<char>) -> bool {
    &&& t.len() >= 27
    &&& is_year_text(t.subrange(0, t.len() - 23))
    &&& forall|i: int| 0 <= i < 23 ==> {
        let c = #[trigger] t[t.len() - 23 + i];
        if stamp_tail_layout()[i] == 'D' {
            is_digit(c)
        } else {
            c == stamp_tail_layout()[i]
        }
    }
}

/// chrono's `Utc::now().format("%Y-%m-%dT%H:%M:%S%.6fZ")`: the current time as
/// text. Which time it is depends on the clock; every outcome has the layout
/// that the format fixes (`%Y` writes four digits for the years 0 to 9999 and
/// a sign and at least four digits otherwise; the other fields are two digits,
/// the fraction six).
#[verifier::external_body]
fn refresh_stamp() -> (r: String)
    ensures
        is_utc_stamp(r@),
{
    chrono::Utc::now().format("%Y-%m-%dT%H:%M:%S%.6fZ").to_string()
}

/// The `auth.json` text for an account whose refresh stamp is `stamp`: the key
/// in API-key mode; the tokens, with a null key, in OAuth mode.
pub open spec fn spec_auth_json(account: CodexAccount, stamp: Seq<char>) -> Result<Seq<char>, Seq<char>> {
    match account.auth_mode {
        CodexAuthMode::Apikey => match spec_normalize_opt(opt_view(account.openai_api_key)) {
            None => Err("API Key 账号缺少 OPENAI_API_KEY"@),
            Some(key) => Ok(spec_json_pretty(
                seq![("auth_mode"@, Some("apikey"@)), ("OPENAI_API_KEY"@, Some(key))],
                Seq::empty(),
            )),
        },
        CodexAuthMode::OAuth => match account.tokens {
            None => Err("OAuth 账号缺少 tokens"@),
            Some(t) => if trim(t.id_token@).len() == 0 || trim(t.access_token@).len() == 0 {
                Err("OAuth 账号缺少 id_token/access_token"@)
            } else {
                Ok(spec_json_pretty(
                    seq![("OPENAI_API_KEY"@, None), ("last_refresh"@, Some(stamp))],
                    seq![("tokens"@, seq![
                        ("id_token"@, Some(t.id_token@)),
                        ("access_token"@, Some(t.access_token@)),
                        ("refresh_token"@, opt_view(t.refresh_token)),
                        ("account_id"@, first_of(opt_view(account.account_id), opt_view(t.account_id))),
                    ])],
                ))
            },
        },
    }
}

fn pair(key: &str, value: Option<String>) -> (r: (String, Option<String>))
    ensures
        r.0@ == key@,
        opt_view(r.1) == opt_view(value),
{
    (String::from_str(key), value)
}

/// The `auth.json` text that makes Codex use `account`, stamped with the
/// current time in OAuth mode.
pub fn build_auth_json(account: &CodexAccount) -> (r: Result<String, String>)
    ensures
        account.auth_mode == CodexAuthMode::Apikey || r is Err ==> res_view(r) == spec_auth_json(*account, Seq::empty()),
        account.auth_mode == CodexAuthMode::OAuth && r is Ok ==> exists|stamp: Seq<char>| {
            &&& is_utc_stamp(stamp)
            &&& res_view(r) == spec_auth_json(*account, stamp)
        },
{
    match account.auth_mode {
        CodexAuthMode::Apikey => {
            let key = match &account.openai_api_key {
                Some(k) => normalize_optional_ref(Some(k.as_str())),
                None => None,
            };
            let key = match key {
                Some(k) => k,
                None => {
                    let r = Err(String::from_str("API Key 账号缺少 OPENAI_API_KEY"));
                    assert(res_view(r) == spec_auth_json(*account, Seq::empty()));
                    return r;
                },
            };
            let mut scalars: Vec<(String, Option<String>)> = Vec::new();
            scalars.push(pair("auth_mode", Some(String::from_str("apikey"))));
            scalars.push(pair("OPENAI_API_KEY", Some(key)));
            let objects: Vec<(String, Vec<(String, Option<String>)>)> = Vec::new();
            let text = json_object_pretty(&scalars, &objects);
            proof {
                assert(pairs_view(scalars@) =~= seq![("auth_mode"@, Some("apikey"@)), ("OPENAI_API_KEY"@, Some(key@))]);
                assert(objects_view(objects@) =~= Seq::empty());
                assert(res_view(Ok(text)) == spec_auth_json(*account, Seq::empty()));
            }
            Ok(text)
        },
        CodexAuthMode::OAuth => {
            let tokens = match &account.tokens {
                Some(t) => t,
                None => {
                    let r = Err(String::from_str("OAuth 账号缺少 tokens"));
                    assert(res_view(r) == spec_auth_json(*account, Seq::empty()));
                    return r;
                },
            };
            if is_empty_str(trim_str(tokens.id_token.as_str()).as_str())
                || is_empty_str(trim_str(tokens.access_token.as_str()).as_str()) {
                let r = Err(String::from_str("OAuth 账号缺少 id_token/access_token"));
                assert(res_view(r) == spec_auth_json(*account, Seq::empty()));
                return r;
            }
            let stamp = refresh_stamp();
            let account_id = match &account.account_id {
                Some(a) => Some(a.clone()),
                None => clone_opt_string(&tokens.account_id),
            };
            let mut scalars: Vec<(String, Option<String>)> = Vec::new();
            scalars.push(pair("OPENAI_API_KEY", None));
            scalars.push(pair("last_refresh", Some(stamp.clone())));
            let mut inner: Vec<(String, Option<String>)> = Vec::new();
            inner.push(pair("id_token", Some(tokens.id_token.clone())));
            inner.push(pair("access_token", Some(tokens.access_token.clone())));
            inner.push(pair("refresh_token", clone_opt_string(&tokens.refresh_token)));
            inner.push(pair("account_id", account_id));
            let mut objects: Vec<(String, Vec<(String, Option<String>)>)> = Vec::new();
            let ghost inner_view = pairs_view(inner@);
            objects.push((String::from_str("tokens"), inner));
            let text = json_object_pretty(&scalars, &objects);
            proof {
                assert(pairs_view(scalars@) =~= seq![("OPENAI_API_KEY"@, None), ("last_refresh"@, Some(stamp@))]);
                assert(inner_view =~= seq![
                    ("id_token"@, Some(tokens.id_token@)),
                    ("access_token"@, Some(tokens.access_token@)),
                    ("refresh_token"@, opt_view(tokens.refresh_token)),
                    ("account_id"@, first_of(opt_view(account.account_id), opt_view(tokens.account_id))),
                ]);
                assert(objects_view(objects@) =~= seq![("tokens"@, inner_view)]);
                assert(res_view(Ok(text)) == spec_auth_json(*account, stamp@));
            }
            Ok(text)
        },
    }
}

/// The tokens of an `auth.json` file.
pub struct CodexAuthTokens {
    pub id_token: String,
    pub access_token: String,
    pub refresh_token: Option<String>,
    pub account_id: Option<String>,
}

/// What an `auth.json` file holds: its mode, its API key when the file holds it
/// as a string, its base URL and its tokens.
pub struct CodexAuthFile {
    pub auth_mode: Option<String>,
    pub openai_api_key: Option<String>,
    pub base_url: Option<String>,
    pub tokens: Option<CodexAuthTokens>,
}

/// `a` is an API-key account with these details, created and last used at the
/// same moment, with no quota data.
pub open spec fn is_api_key_account(a: CodexAccount, api_key: Seq<char>, base_url: Option<Seq<char>>, label: Seq<char>, email: Seq<char>) -> bool {
    &&& a.id@ == spec_api_key_account_id(api_key, base_url)
    &&& a.label@ == label
    &&& a.email@ == email
    &&& a.auth_mode == CodexAuthMode::Apikey
    &&& opt_view(a.openai_api_key) == Some(api_key)
    &&& opt_view(a.api_base_url) == base_url
    &&& a.account_id.is_none()
    &&& a.organization_id.is_none()
    &&& opt_view(a.plan_type) == Some("API_KEY"@)
    &&& a.subscription_active_until.is_none()
    &&& a.tokens.is_none()
    &&& a.quota.is_none()
    &&& a.quota_error.is_none()
    &&& a.usage_updated_at.is_none()
    &&& a.created_at == a.last_used
}

/// `a` is an OAuth account with these details and tokens, created and last
/// used at the same moment, with no quota data.
pub open spec fn is_oauth_account(
    a: CodexAccount,
    email: Seq<char>,
    plan_type: Option<Seq<char>>,
    account_id: Option<Seq<char>>,
    organization_id: Option<Seq<char>>,
    label: Seq<char>,
    id_token: Seq<char>,
    access_token: Seq<char>,
    refresh_token: Option<Seq<char>>,
    token_account_id: Option<Seq<char>>,
) -> bool {
    &&& a.id@ == spec_oauth_account_id(email, account_id, organization_id)
    &&& a.label@ == label
    &&& a.email@ == email
    &&& a.auth_mode == CodexAuthMode::OAuth
    &&& a.openai_api_key.is_none()
    &&& a.api_base_url.is_none()
    &&& opt_view(a.account_id) == account_id
    &&& opt_view(a.organization_id) == organization_id
    &&& opt_view(a.plan_type) == plan_type
    &&& a.subscription_active_until.is_none()
    &&& a.tokens matches Some(t) && {
        &&& t.id_token@ == id_token
        &&& t.access_token@ == access_token
        &&& opt_view(t.refresh_token) == refresh_token
        &&& opt_view(t.account_id) == token_account_id
    }
    &&& a.quota.is_none()
    &&& a.quota_error.is_none()
    &&& a.usage_updated_at.is_none()
    &&& a.created_at == a.last_used
}

/// The given label when it is not blank, else the fallback.
pub open spec fn label_or(label: Option<Seq<char>>, fallback: Seq<char>) -> Seq<char> {
    match spec_normalize_opt(label) {
        Some(l) => l,
        None => fallback,
    }
}

/// Whether an `auth.json` file is read as an API-key account: its mode says so,
/// or it has no tokens.
pub open spec fn auth_file_is_api_key(f: CodexAuthFile) -> bool {
    spec_is_api_key_mode(opt_view(f.auth_mode)) || f.tokens.is_none()
}

/// `r` is the account that an `auth.json` file describes, with `config` the text
/// of `config.toml` beside it, if readable, and `label` the label asked for.
pub open spec fn auth_file_account(f: CodexAuthFile, config: Option<Seq<char>>, label: Option<Seq<char>>, r: Result<CodexAccount, String>) -> bool {
    if auth_file_is_api_key(f) {
        match spec_normalize_opt(opt_view(f.openai_api_key)) {
            None => r matches Err(e) && e@ == "auth.json 缺少 OPENAI_API_KEY 或 OAuth tokens"@,
            Some(key) => r matches Ok(a) && is_api_key_account(
                a,
                key,
                first_of(spec_account_base_url(opt_view(f.base_url)), spec_config_base_url(config)),
                label_or(label, spec_api_key_label(key)),
                spec_api_key_label(key),
            ),
        }
    } else {
        let t = f.tokens->0;
        let profile = spec_oauth_profile(t.id_token@, t.access_token@);
        let account_id = first_of(spec_normalize_opt(opt_view(t.account_id)), profile.2);
        r matches Ok(a) && is_oauth_account(
            a,
            profile.0,
            profile.1,
            account_id,
            profile.3,
            label_or(label, profile.0),
            t.id_token@,
            t.access_token@,
            opt_view(t.refresh_token),
            opt_view(t.account_id),
        )
    }
}

fn as_str_opt(o: &Option<String>) -> (r: Option<&str>)
    ensures
        opt_str_view(r) == opt_view(*o),
{
    match o {
        Some(s) => Some(s.as_str()),
        None => None,
    }
}

/// The account that an `auth.json` file describes. `config` is the text of the
/// `config.toml` beside it, if it could be read; it gives the base URL of an
/// API-key account whose file names none. `label` is the label asked for.
pub fn parse_auth_file(auth_file: CodexAuthFile, config: Option<&str>, label: Option<String>) -> (r: Result<CodexAccount, String>)
    ensures
        auth_file_account(auth_file, opt_str_view(config), opt_view(label), r),
        !auth_file_is_api_key(auth_file) ==> imported_from_tokens(auth_file.tokens->0, r),
{
    let now = now_ts();
    if is_api_key_mode(as_str_opt(&auth_file.auth_mode)) || auth_file.tokens.is_none() {
        let api_key = match normalize_optional(auth_file.openai_api_key) {
            Some(k) => k,
            None => return Err(String::from_str("auth.json 缺少 OPENAI_API_KEY 或 OAuth tokens")),
        };
        let base_url = match normalize_base_url(auth_file.base_url) {
            Some(u) => Some(u),
            None => read_api_base_url_from_config(config),
        };
        let fallback_label = api_key_label(api_key.as_str());
        let label = match normalize_optional(label) {
            Some(l) => l,
            None => fallback_label.clone(),
        };
        let id = account_id_for_api_key(api_key.as_str(), as_str_opt(&base_url));
        return Ok(CodexAccount {
            id,
            label,
            email: fallback_label,
            auth_mode: CodexAuthMode::Apikey,
            openai_api_key: Some(api_key),
            api_base_url: base_url,
            account_id: None,
            organization_id: None,
            plan_type: Some(String::from_str("API_KEY")),
            subscription_active_until: None,
            tokens: None,
            quota: None,
            quota_error: None,
            usage_updated_at: None,
            created_at: now,
            last_used: now,
        });
    }
    let tokens = match auth_file.tokens {
        Some(t) => t,
        None => return Err(String::from_str("auth.json 缺少 OAuth tokens")),
    };
    let (email, plan_type, extracted_account_id, organization_id) = extract_oauth_profile(
        tokens.id_token.as_str(),
        tokens.access_token.as_str(),
    );
    let account_id = or_else(normalize_optional(clone_opt_string(&tokens.account_id)), extracted_account_id);
    let id = account_id_for_oauth(email.as_str(), as_str_opt(&account_id), as_str_opt(&organization_id));
    let label = match normalize_optional(label) {
        Some(l) => l,
        None => email.clone(),
    };
    Ok(CodexAccount {
        id,
        label,
        email,
        auth_mode: CodexAuthMode::OAuth,
        openai_api_key: None,
        api_base_url: None,
        account_id,
        organization_id,
        plan_type,
        subscription_active_until: None,
        tokens: Some(CodexTokens {
            id_token: tokens.id_token,
            access_token: tokens.access_token,
            refresh_token: tokens.refresh_token,
            account_id: tokens.account_id,
        }),
        quota: None,
        quota_error: None,
        usage_updated_at: None,
        created_at: now,
        last_used: now,
    })
}

/// Two API-key accounts with keys that trim alike and the same base URL have
/// the same identifier, whatever their labels: storing the second replaces the
/// first.
pub proof fn lemma_api_key_identity(
    a1: CodexAccount,
    a2: CodexAccount,
    key1: Seq<char>,
    key2: Seq<char>,
    base: Option<Seq<char>>,
    label1: Seq<char>,
    label2: Seq<char>,
    email1: Seq<char>,
    email2: Seq<char>,
)
    requires
        is_api_key_account(a1, key1, base, label1, email1),
        is_api_key_account(a2, key2, base, label2, email2),
        trim(key1) == trim(key2),
    ensures
        a1.id@ == a2.id@,
{
}

/// `r` is an OAuth account read from the tokens `t`: it keeps the tokens, and
/// its email, plan and organization are the claims of those tokens (the email
/// and plan from the ID token; the organization from the ID token, else the
/// access token), each trimmed.
pub open spec fn imported_from_tokens(t: CodexAuthTokens, r: Result<CodexAccount, String>) -> bool {
    let id_payload = jwt_payload(t.id_token@);
    let access_payload = jwt_payload(t.access_token@);
    r matches Ok(b) && {
        &&& b.auth_mode == CodexAuthMode::OAuth
        &&& b.email@ == profile_email(id_payload)
        &&& opt_view(b.plan_type) == spec_normalize_opt(auth_claim(id_payload, "chatgpt_plan_type"@))
        &&& opt_view(b.organization_id) == spec_normalize_opt(organization_claim(id_payload, access_payload))
        &&& b.tokens matches Some(bt) && {
            &&& bt.id_token@ == t.id_token@
            &&& bt.access_token@ == t.access_token@
            &&& opt_view(bt.refresh_token) == opt_view(t.refresh_token)
            &&& opt_view(bt.account_id) == opt_view(t.account_id)
        }
    }
}

/// An account imported from an `auth.json` with OAuth tokens carries what its
/// tokens say: email, plan and organization from their claims, and the tokens
/// themselves.
pub proof fn lemma_import_reads_token_claims(
    f: CodexAuthFile,
    config: Option<Seq<char>>,
    label: Option<Seq<char>>,
    r: Result<CodexAccount, String>,
)
    requires
        !auth_file_is_api_key(f),
        auth_file_account(f, config, label, r),
    ensures
        imported_from_tokens(f.tokens->0, r),
{
}

/// Importing OAuth tokens from an `auth.json` and adding the same tokens by
/// hand give the same email, plan and organization.
pub proof fn lemma_import_agrees_with_adding(
    f: CodexAuthFile,
    config: Option<Seq<char>>,
    label: Option<Seq<char>>,
    r: Result<CodexAccount, String>,
    added: CodexAccount,
    account_id: Option<Seq<char>>,
    added_label: Seq<char>,
    refresh_token: Option<Seq<char>>,
)
    requires
        !auth_file_is_api_key(f),
        auth_file_account(f, config, label, r),
        ({
            let t = f.tokens->0;
            let profile = spec_oauth_profile(t.id_token@, t.access_token@);
            is_oauth_account(
                added,
                profile.0,
                profile.1,
                account_id,
                profile.3,
                added_label,
                t.id_token@,
                t.access_token@,
                refresh_token,
                account_id,
            )
        }),
    ensures
        r matches Ok(b) && {
            &&& b.email@ == added.email@
            &&& opt_view(b.plan_type) == opt_view(added.plan_type)
            &&& opt_view(b.organization_id) == opt_view(added.organization_id)
        },
{
}

/// `f` holds, field by field, the `auth.json` that `build_auth_json` writes for
/// `a`: for an API key its trimmed key (its mode, written as `auth_mode`, may
/// read back as absent), for OAuth its tokens, with the account's identifier
/// preferred to the one kept with the tokens.
pub open spec fn holds_written_auth(f: CodexAuthFile, a: CodexAccount) -> bool {
    &&& f.base_url.is_none()
    &&& match a.auth_mode {
        CodexAuthMode::Apikey => {
            &&& (f.auth_mode.is_none() || opt_view(f.auth_mode) == Some("apikey"@))
            &&& opt_view(f.openai_api_key) == spec_normalize_opt(opt_view(a.openai_api_key))
            &&& f.tokens.is_none()
        },
        CodexAuthMode::OAuth => {
            &&& f.auth_mode.is_none()
            &&& f.openai_api_key.is_none()
            &&& f.tokens matches Some(t) && a.tokens matches Some(at) && {
                &&& t.id_token@ == at.id_token@
                &&& t.access_token@ == at.access_token@
                &&& opt_view(t.refresh_token) == opt_view(at.refresh_token)
                &&& opt_view(t.account_id) == first_of(opt_view(a.account_id), opt_view(at.account_id))
            }
        },
    }
}

/// Switching to an API-key account and importing it again gives back an
/// API-key account with the same trimmed key and the base URL that switching
/// wrote: the account's own, unless it is empty or the official one, in which
/// case the one that the `openai` provider's table of the configuration names,
/// if any. The import's label is the one asked for, else the key's default
/// label. `config` is the `config.toml` text that switching wrote (what
/// `write_api_provider_to_config` says of it); the account's base URL, if any,
/// is trimmed and has no trailing slash. For an account made by adding its
/// key whose base URL is the one read back, the identifier is the same too.
pub proof fn lemma_api_key_account_round_trip(
    a: CodexAccount,
    f: CodexAuthFile,
    config: Seq<char>,
    import_label: Option<Seq<char>>,
    r: Result<CodexAccount, String>,
)
    requires
        a.auth_mode == CodexAuthMode::Apikey,
        spec_normalize_opt(opt_view(a.openai_api_key)) is Some,
        opt_view(a.api_base_url) matches Some(u) ==> trim(u) == u && (u.len() > 0 ==> u.last() != '/'),
        spec_config_base_url(Some(config)) == first_of(config_url(custom_base_url(a)), openai_provider_url(config)),
        holds_written_auth(f, a),
        auth_file_account(f, Some(config), import_label, r),
    ensures
        r matches Ok(b) && {
            let key = spec_normalize_opt(opt_view(a.openai_api_key))->0;
            let base = first_of(custom_base_url(a), openai_provider_url(config));
            &&& b.auth_mode == CodexAuthMode::Apikey
            &&& opt_view(b.openai_api_key) == Some(key)
            &&& opt_view(b.api_base_url) == base
            &&& b.label@ == label_or(import_label, spec_api_key_label(key))
            &&& b.id@ == spec_api_key_account_id(key, base)
            &&& (is_api_key_account(a, key, opt_view(a.api_base_url), a.label@, a.email@)
                && opt_view(a.api_base_url) == base ==> b.id@ == a.id@)
        },
{
    let key = spec_normalize_opt(opt_view(a.openai_api_key))->0;
    lemma_normalize_stable(opt_view(a.openai_api_key)->0);
    assert(spec_normalize_opt(opt_view(f.openai_api_key)) == Some(key));
    if let Some(u) = opt_view(a.api_base_url) {
        assert(trim_end_by(u, Some('/')) == u);
        if custom_base_url(a) is Some {
            assert(custom_base_url(a) == Some(u));
            assert(spec_normalize(u) == Some(u));
            assert(config_url(Some(u)) == Some(u));
        }
    }
    assert(config_url(custom_base_url(a)) == custom_base_url(a));
}

/// Switching to an OAuth account and importing it again gives back an OAuth
/// account with the same tokens, the profile those tokens carry, and the
/// account identifier that switching wrote (normalized, else the one the
/// tokens carry). The import's label is the one asked for, else the email.
/// For an account made by adding the tokens with the account identifier
/// `given` (if any), the identifier is the same too.
pub proof fn lemma_oauth_account_round_trip(
    a: CodexAccount,
    given: Option<Seq<char>>,
    f: CodexAuthFile,
    config: Option<Seq<char>>,
    import_label: Option<Seq<char>>,
    r: Result<CodexAccount, String>,
)
    requires
        a.auth_mode == CodexAuthMode::OAuth,
        a.tokens is Some,
        holds_written_auth(f, a),
        auth_file_account(f, config, import_label, r),
    ensures
        r matches Ok(b) && {
            let at = a.tokens->0;
            let profile = spec_oauth_profile(at.id_token@, at.access_token@);
            let written = first_of(opt_view(a.account_id), opt_view(at.account_id));
            let account_id = first_of(spec_normalize_opt(given), profile.2);
            &&& b.auth_mode == CodexAuthMode::OAuth
            &&& b.tokens matches Some(t) && {
                &&& t.id_token@ == at.id_token@
                &&& t.access_token@ == at.access_token@
                &&& opt_view(t.refresh_token) == opt_view(at.refresh_token)
            }
            &&& b.email@ == profile.0
            &&& b.label@ == label_or(import_label, profile.0)
            &&& opt_view(b.account_id) == first_of(spec_normalize_opt(written), profile.2)
            &&& (is_oauth_account(
                a,
                profile.0,
                profile.1,
                account_id,
                profile.3,
                a.label@,
                at.id_token@,
                at.access_token@,
                opt_view(at.refresh_token),
                account_id,
            ) ==> b.id@ == a.id@)
        },
{
    let at = a.tokens->0;
    let profile = spec_oauth_profile(at.id_token@, at.access_token@);
    let account_id = first_of(spec_normalize_opt(given), profile.2);
    match given {
        Some(g) => lemma_normalize_stable(g),
        None => {},
    }
    match claim_pair(jwt_payload(at.id_token@), jwt_payload(at.access_token@), "account_id"@, "chatgpt_account_id"@) {
        Some(c) => lemma_normalize_stable(c),
        None => {},
    }
    assert(spec_normalize_opt(account_id) == account_id);
}

/// Where npm installs the Codex CLI globally, under the `APPDATA` directory.
pub open spec fn spec_npm_codex_path(appdata: Seq<char>) -> Seq<char> {
    spec_path_join(spec_path_join(appdata, "npm"@), "codex.cmd"@)
}

/// The path of the globally installed npm Codex CLI under `appdata`.
pub fn npm_codex_path(appdata: &str) -> (r: String)
    ensures
        r@ == spec_npm_codex_path(appdata@),
{
    let npm = path_join(appdata, "npm");
    path_join(npm.as_str(), "codex.cmd")
}

/// Where the Codex CLI is taken from: the npm-global one when it exists
/// (`npm_cmd`), else the one found on the search path, with the source named.
pub fn cli_location(npm_cmd: Option<String>, on_path: Option<String>) -> (r: (Option<String>, String))
    ensures
        npm_cmd is Some ==> r.0 == npm_cmd && r.1@ == "npm-global"@,
        npm_cmd is None ==> r.0 == on_path && r.1@ == "path"@,
{
    match npm_cmd {
        Some(p) => (Some(p), String::from_str("npm-global")),
        None => (on_path, String::from_str("path")),
    }
}

/// The version that `codex --version` printed: its output trimmed, `None` when
/// blank.
pub fn cli_version(output: &str) -> (r: Option<String>)
    ensures
        opt_view(r) == spec_normalize(output@),
{
    normalize_optional_ref(Some(output))
}

} // verus!
