use vstd::prelude::*;
use vstd::string::StrSliceExecFns;
use vstd::string::StringExecFns;

use crate::storage::{
    data_dir, join_data_dir, normalize_optional_ref, now_ts, spec_data_dir, spec_in_data_dir,
    spec_normalize,
};
use crate::text::{
    concat, is_empty_str, is_lower_hex, opt_view, res_view, str_eq, trim, trim_end_by, trim_end_char, trim_str,
};

verus! {

pub struct ApiChannel {
    pub id: String,
    pub name: String,
    pub base_url: String,
    pub api_key: String,
    pub created_at: i64,
    pub updated_at: i64,
    pub last_used: Option<i64>,
}

pub struct ApiChannelStore {
    pub version: String,
    pub current_channel_id: Option<String>,
    pub channels: Vec<ApiChannel>,
}

/// What the interface shows of a channel: its key only as a masked preview.
pub struct ApiChannelView {
    pub id: String,
    pub name: String,
    pub base_url: String,
    pub key_preview: String,
    pub has_api_key: bool,
    pub created_at: i64,
    pub updated_at: i64,
    pub last_used: Option<i64>,
}

pub struct AddApiChannelParams {
    pub name: String,
    pub base_url: String,
    pub api_key: String,
}

pub struct UpdateApiChannelParams {
    pub channel_id: String,
    pub name: Option<String>,
    pub base_url: Option<String>,
    pub api_key: Option<String>,
}

impl Clone for ApiChannel {
    fn clone(&self) -> (r: Self)
        ensures
            r == *self,
    {
        ApiChannel {
            id: self.id.clone(),
            name: self.name.clone(),
            base_url: self.base_url.clone(),
            api_key: self.api_key.clone(),
            created_at: self.created_at,
            updated_at: self.updated_at,
            last_used: self.last_used,
        }
    }
}

impl Default for ApiChannelStore {
    fn default() -> (r: Self)
        ensures
            r.version@ == "1.0"@,
            r.current_channel_id.is_none(),
            r.channels@.len() == 0,
    {
        ApiChannelStore {
            version: String::from_str("1.0"),
            current_channel_id: None,
            channels: Vec::new(),
        }
    }
}

/// The masked form of an API key: its first and last four characters around
/// `****`, or only `****` when the trimmed key has at most eight characters.
pub open spec fn spec_key_preview(api_key: Seq<char>) -> Seq<char> {
    let v = trim(api_key);
    if v.len() <= 8 {
        "****"@
    } else {
        v.subrange(0, 4) + "****"@ + v.subrange(v.len() - 4, v.len() as int)
    }
}

fn key_preview(api_key: &str) -> (r: String)
    ensures
        r@ == spec_key_preview(api_key@),
{
    let value = trim_str(api_key);
    let n = value.as_str().unicode_len();
    if n <= 8 {
        return String::from_str("****");
    }
    let head = value.as_str().substring_char(0, 4);
    let tail = value.as_str().substring_char(n - 4, n);
    let front = concat(head, "****");
    concat(front.as_str(), tail)
}

/// The view of a channel is built with a fresh preview text, which no single
/// spec value of `String` stands for; so the trait-level statement is not used,
/// and `from` states its result field by field.
impl vstd::std_specs::convert::FromSpecImpl<&ApiChannel> for ApiChannelView {
    open spec fn obeys_from_spec() -> bool {
        false
    }

    open spec fn from_spec(channel: &ApiChannel) -> ApiChannelView {
        arbitrary()
    }
}

impl From<&ApiChannel> for ApiChannelView {
    fn from(channel: &ApiChannel) -> (r: Self)
        ensures
            r.id == channel.id,
            r.name == channel.name,
            r.base_url == channel.base_url,
            r.key_preview@ == spec_key_preview(channel.api_key@),
            r.has_api_key == (trim(channel.api_key@).len() > 0),
            r.created_at == channel.created_at,
            r.updated_at == channel.updated_at,
            r.last_used == channel.last_used,
    {
        let preview = key_preview(channel.api_key.as_str());
        let trimmed = trim_str(channel.api_key.as_str());
        ApiChannelView {
            id: channel.id.clone(),
            name: channel.name.clone(),
            base_url: channel.base_url.clone(),
            key_preview: preview,
            has_api_key: !is_empty_str(trimmed.as_str()),
            created_at: channel.created_at,
            updated_at: channel.updated_at,
            last_used: channel.last_used,
        }
    }
}

/// uuid's `Uuid::new_v4().simple()` as text: a random UUID written as 32
/// lowercase hexadecimal digits. Which UUID comes back is chance; only its form
/// is stated.
#[verifier::external_body]
pub(crate) fn new_uuid_simple() -> (r: String)
    ensures
        r@.len() == 32,
        forall|i: int| 0 <= i < 32 ==> is_lower_hex(#[trigger] r@[i]),
{
    uuid::Uuid::new_v4().simple().to_string()
}

/// The path of the channel file, `api-channels.json` in the data directory.
pub fn api_channels_path() -> (r: Result<String, String>)
    ensures
        exists|local: Option<Seq<char>>| res_view(r) == spec_in_data_dir(spec_data_dir(local), "api-channels.json"@),
{
    let dir = data_dir();
    join_data_dir(dir, "api-channels.json")
}

/// A required text: trimmed, or the error `<label>不能为空` when blank.
pub open spec fn spec_required(input: Seq<char>, label: Seq<char>) -> Result<Seq<char>, Seq<char>> {
    match spec_normalize(input) {
        Some(t) => Ok(t),
        None => Err(label + "不能为空"@),
    }
}

fn normalize_required(input: &str, label: &str) -> (r: Result<String, String>)
    ensures
        res_view(r) == spec_required(input@, label@),
{
    match normalize_optional_ref(Some(input)) {
        Some(v) => Ok(v),
        None => Err(concat(label, "不能为空")),
    }
}

/// A channel's base URL: trimmed, without trailing slashes, and not empty.
pub open spec fn spec_channel_base_url(input: Seq<char>) -> Result<Seq<char>, Seq<char>> {
    match spec_normalize(input) {
        Some(t) if trim_end_by(t, Some('/')).len() > 0 => Ok(trim_end_by(t, Some('/'))),
        _ => Err("Base URL 不能为空"@),
    }
}

fn normalize_base_url(input: String) -> (r: Result<String, String>)
    ensures
        res_view(r) == spec_channel_base_url(input@),
{
    match normalize_optional_ref(Some(input.as_str())) {
        Some(v) => {
            let stripped = trim_end_char(v.as_str(), '/');
            if is_empty_str(stripped.as_str()) {
                Err(String::from_str("Base URL 不能为空"))
            } else {
                Ok(stripped)
            }
        },
        None => Err(String::from_str("Base URL 不能为空")),
    }
}

/// Whether some channel of `cs` has the identifier `id`.
pub open spec fn has_channel(cs: Seq<ApiChannel>, id: Seq<char>) -> bool {
    exists|i: int| 0 <= i < cs.len() && (#[trigger] cs[i]).id@ == id
}

/// `i` is the first position of a channel with identifier `id`.
pub open spec fn first_channel(cs: Seq<ApiChannel>, id: Seq<char>, i: int) -> bool {
    &&& 0 <= i < cs.len()
    &&& cs[i].id@ == id
    &&& forall|j: int| 0 <= j < i ==> (#[trigger] cs[j]).id@ != id
}

/// The error for a channel identifier that no channel has.
pub open spec fn missing_channel(id: Seq<char>) -> Seq<char> {
    "API 中转不存在: "@ + id
}

/// The position of the first channel with identifier `id`, if any.
fn find_channel(cs: &Vec<ApiChannel>, id: &str) -> (r: Option<usize>)
    ensures
        match r {
            Some(i) => first_channel(cs@, id@, i as int),
            None => !has_channel(cs@, id@),
        },
{
    let mut i: usize = 0;
    while i < cs.len()
        invariant
            i <= cs@.len(),
            forall|j: int| 0 <= j < i ==> (#[trigger] cs@[j]).id@ != id@,
        decreases cs@.len() - i,
    {
        if str_eq(cs[i].id.as_str(), id) {
            return Some(i);
        }
        i = i + 1;
    }
    None
}

/// The first channel with identifier `channel_id`, copied out of the store.
pub fn get_api_channel(store: &ApiChannelStore, channel_id: &str) -> (r: Result<ApiChannel, String>)
    ensures
        r is Err <==> !has_channel(store.channels@, channel_id@),
        r matches Err(e) ==> e@ == missing_channel(channel_id@),
        r matches Ok(c) ==> exists|i: int| first_channel(store.channels@, channel_id@, i) && c == store.channels@[i],
{
    match find_channel(&store.channels, channel_id) {
        Some(i) => Ok(store.channels[i].clone()),
        None => Err(concat("API 中转不存在: ", channel_id)),
    }
}

/// Forgets which channel is current.
pub fn clear_current_api_channel(store: &mut ApiChannelStore)
    ensures
        final(store).current_channel_id.is_none(),
        final(store).channels == old(store).channels,
        final(store).version == old(store).version,
{
    store.current_channel_id = None;
}

/// Removes every channel with identifier `channel_id`; the current channel is
/// forgotten when it was that one. It is an error when no channel has it, and
/// the store is then left as it was.
pub fn delete_api_channel(store: &mut ApiChannelStore, channel_id: &str) -> (r: Result<(), String>)
    ensures
        r is Err <==> !has_channel(old(store).channels@, channel_id@),
        r matches Err(e) ==> e@ == missing_channel(channel_id@) && *final(store) == *old(store),
        r is Ok ==> {
            &&& final(store).channels@ == old(store).channels@.filter(|c: ApiChannel| c.id@ != channel_id@)
            &&& final(store).version == old(store).version
            &&& opt_view(final(store).current_channel_id) == if opt_view(old(store).current_channel_id) == Some(channel_id@) {
                None
            } else {
                opt_view(old(store).current_channel_id)
            }
        },
{
    let ghost pred = |c: ApiChannel| c.id@ != channel_id@;
    let mut kept: Vec<ApiChannel> = Vec::new();
    let mut removed = false;
    let n = store.channels.len();
    let mut i: usize = 0;
    while i < n
        invariant
            n == store.channels@.len(),
            i <= n,
            pred == (|c: ApiChannel| c.id@ != channel_id@),
            kept@ == store.channels@.subrange(0, i as int).filter(pred),
            removed <==> has_channel(store.channels@.subrange(0, i as int), channel_id@),
        decreases n - i,
    {
        let c = store.channels[i].clone();
        let same = str_eq(c.id.as_str(), channel_id);
        proof {
            let s = store.channels@.subrange(0, i + 1);
            assert(s.drop_last() =~= store.channels@.subrange(0, i as int));
            assert(s.last() == c);
            reveal_with_fuel(Seq::<_>::filter, 1);
            assert(pred(c) == !same);
            if same {
                assert(s.filter(pred) == s.drop_last().filter(pred));
            } else {
                assert(s.filter(pred) == s.drop_last().filter(pred).push(c));
            }
            assert(s =~= s.drop_last().push(c));
            if same {
                assert(s[i as int].id@ == channel_id@);
            }
            if has_channel(s, channel_id@) && !same {
                let k = choose|k: int| 0 <= k < s.len() && (#[trigger] s[k]).id@ == channel_id@;
                assert(store.channels@.subrange(0, i as int)[k] == s[k]);
            }
            if has_channel(store.channels@.subrange(0, i as int), channel_id@) {
                let k = choose|k: int| 0 <= k < i && (#[trigger] store.channels@.subrange(0, i as int)[k]).id@ == channel_id@;
                assert(s[k] == store.channels@.subrange(0, i as int)[k]);
            }
        }
        if same {
            removed = true;
        } else {
            kept.push(c);
        }
        i = i + 1;
    }
    assert(store.channels@.subrange(0, n as int) =~= store.channels@);
    if !removed {
        return Err(concat("API 中转不存在: ", channel_id));
    }
    store.channels = kept;
    let is_current = match &store.current_channel_id {
        Some(cur) => str_eq(cur.as_str(), channel_id),
        None => false,
    };
    if is_current {
        store.current_channel_id = None;
    }
    Ok(())
}

/// The first error that adding a channel with `p` meets, checking the name,
/// then the base URL, then the key.
pub open spec fn spec_add_error(p: AddApiChannelParams) -> Option<Seq<char>> {
    match spec_required(p.name@, "名称"@) {
        Err(e) => Some(e),
        Ok(_) => match spec_channel_base_url(p.base_url@) {
            Err(e) => Some(e),
            Ok(_) => match spec_required(p.api_key@, "API Key"@) {
                Err(e) => Some(e),
                Ok(_) => None,
            },
        },
    }
}

/// The text of a successful result.
pub open spec fn ok_text(r: Result<Seq<char>, Seq<char>>) -> Seq<char> {
    match r {
        Ok(t) => t,
        Err(_) => Seq::empty(),
    }
}

/// `c` is the channel that adding `p` under identifier `id` creates.
pub open spec fn new_channel(c: ApiChannel, id: Seq<char>, p: AddApiChannelParams) -> bool {
    &&& c.id@ == id
    &&& c.name@ == trim(p.name@)
    &&& c.base_url@ == ok_text(spec_channel_base_url(p.base_url@))
    &&& c.api_key@ == trim(p.api_key@)
    &&& c.created_at == c.updated_at
    &&& c.last_used.is_none()
}

/// Whether `id` has the form of a generated channel identifier: `channel_`
/// followed by 32 lowercase hexadecimal digits.
pub open spec fn is_channel_id(id: Seq<char>) -> bool {
    &&& id.len() == 40
    &&& id.subrange(0, 8) == "channel_"@
    &&& forall|i: int| 8 <= i < 40 ==> is_lower_hex(#[trigger] id[i])
}

/// Adds a channel with a fresh identifier and returns the identifier. The name
/// and key are trimmed and required; the base URL loses its trailing slashes
/// and is required. Nothing changes on an error.
pub fn add_api_channel(store: &mut ApiChannelStore, params: AddApiChannelParams) -> (r: Result<String, String>)
    ensures
        r is Err <==> spec_add_error(params) is Some,
        r matches Err(e) ==> spec_add_error(params) == Some(e@) && *final(store) == *old(store),
        r matches Ok(id) ==> {
            &&& is_channel_id(id@)
            &&& final(store).channels@.len() == old(store).channels@.len() + 1
            &&& final(store).channels@ == old(store).channels@.push(final(store).channels@.last())
            &&& new_channel(final(store).channels@.last(), id@, params)
            &&& final(store).current_channel_id == old(store).current_channel_id
            &&& final(store).version == old(store).version
        },
{
    let name = normalize_required(params.name.as_str(), "名称")?;
    let base_url = normalize_base_url(params.base_url)?;
    let api_key = normalize_required(params.api_key.as_str(), "API Key")?;
    let now = now_ts();
    let suffix = new_uuid_simple();
    let id = concat("channel_", suffix.as_str());
    proof {
        reveal_strlit("channel_");
        assert(id@.subrange(0, 8) =~= "channel_"@);
        assert forall|i: int| 8 <= i < 40 implies is_lower_hex(#[trigger] id@[i]) by {
            assert(id@[i] == suffix@[i - 8]);
        }
    }
    store.channels.push(ApiChannel {
        id: id.clone(),
        name,
        base_url,
        api_key,
        created_at: now,
        updated_at: now,
        last_used: None,
    });
    Ok(id)
}

/// `new` is `old` with the fields given as `Some` replaced by those texts (or
/// those times), and every other field unchanged.
pub open spec fn channel_edit(
    old: ApiChannel,
    new: ApiChannel,
    name: Option<Seq<char>>,
    base_url: Option<Seq<char>>,
    api_key: Option<Seq<char>>,
    updated_at: Option<i64>,
    last_used: Option<Option<i64>>,
) -> bool {
    &&& new.id == old.id
    &&& match name { Some(t) => new.name@ == t, None => new.name == old.name }
    &&& match base_url { Some(t) => new.base_url@ == t, None => new.base_url == old.base_url }
    &&& match api_key { Some(t) => new.api_key@ == t, None => new.api_key == old.api_key }
    &&& match updated_at { Some(t) => new.updated_at == t, None => new.updated_at == old.updated_at }
    &&& new.created_at == old.created_at
    &&& match last_used { Some(t) => new.last_used == t, None => new.last_used == old.last_used }
}

/// The error of the name given to an update, if it is blank.
pub open spec fn update_name_error(p: UpdateApiChannelParams) -> Option<Seq<char>> {
    match p.name {
        Some(n) => match spec_required(n@, "名称"@) {
            Err(e) => Some(e),
            Ok(_) => None,
        },
        None => None,
    }
}

/// The error of the base URL given to an update, if it is blank.
pub open spec fn update_base_url_error(p: UpdateApiChannelParams) -> Option<Seq<char>> {
    match p.base_url {
        Some(u) => match spec_channel_base_url(u@) {
            Err(e) => Some(e),
            Ok(_) => None,
        },
        None => None,
    }
}

/// The new name of an update, when it gives a valid one.
pub open spec fn update_new_name(p: UpdateApiChannelParams) -> Option<Seq<char>> {
    match p.name {
        Some(n) => match spec_required(n@, "名称"@) {
            Ok(t) => Some(t),
            Err(_) => None,
        },
        None => None,
    }
}

/// The new base URL of an update, when it gives a valid one.
pub open spec fn update_new_base_url(p: UpdateApiChannelParams) -> Option<Seq<char>> {
    match p.base_url {
        Some(u) => match spec_channel_base_url(u@) {
            Ok(t) => Some(t),
            Err(_) => None,
        },
        None => None,
    }
}

/// The new key of an update: a given key that is not blank, trimmed.
pub open spec fn update_new_key(p: UpdateApiChannelParams) -> Option<Seq<char>> {
    match p.api_key {
        Some(k) => spec_normalize(k@),
        None => None,
    }
}

/// Edits the first channel with the given identifier. A given name must not be
/// blank; a given base URL must not be blank either, and an error there leaves
/// the new name in place; a given key replaces the old one unless it is blank.
/// The channel's update time is then set to now.
pub fn update_api_channel(store: &mut ApiChannelStore, params: UpdateApiChannelParams) -> (r: Result<(), String>)
    ensures
        !has_channel(old(store).channels@, params.channel_id@) ==> {
            &&& r matches Err(e) && e@ == missing_channel(params.channel_id@)
            &&& *final(store) == *old(store)
        },
        has_channel(old(store).channels@, params.channel_id@) ==> exists|i: int| {
            &&& first_channel(old(store).channels@, params.channel_id@, i)
            &&& final(store).version == old(store).version
            &&& final(store).current_channel_id == old(store).current_channel_id
            &&& final(store).channels@.len() == old(store).channels@.len()
            &&& forall|j: int| 0 <= j < old(store).channels@.len() && j != i
                ==> final(store).channels@[j] == old(store).channels@[j]
            &&& if update_name_error(params) is Some {
                &&& r matches Err(e) && Some(e@) == update_name_error(params)
                &&& final(store).channels@[i] == old(store).channels@[i]
            } else if update_base_url_error(params) is Some {
                &&& r matches Err(e) && Some(e@) == update_base_url_error(params)
                &&& channel_edit(old(store).channels@[i], final(store).channels@[i], update_new_name(params), None, None, None, None)
            } else {
                &&& r is Ok
                &&& exists|now: i64| channel_edit(
                    old(store).channels@[i],
                    final(store).channels@[i],
                    update_new_name(params),
                    update_new_base_url(params),
                    update_new_key(params),
                    Some(now),
                    None,
                )
            }
        },
{
    let i = match find_channel(&store.channels, params.channel_id.as_str()) {
        Some(i) => i,
        None => return Err(concat("API 中转不存在: ", params.channel_id.as_str())),
    };
    let ghost oldc = store.channels@[i as int];
    let mut channel = store.channels[i].clone();
    if let Some(name) = params.name {
        match normalize_required(name.as_str(), "名称") {
            Ok(n) => channel.name = n,
            Err(e) => {
                assert(first_channel(old(store).channels@, params.channel_id@, i as int));
                return Err(e);
            },
        }
    }
    if let Some(base_url) = params.base_url {
        match normalize_base_url(base_url) {
            Ok(url) => channel.base_url = url,
            Err(e) => {
                store.channels.set(i, channel);
                assert(first_channel(old(store).channels@, params.channel_id@, i as int));
                assert(channel_edit(oldc, store.channels@[i as int], update_new_name(params), None, None, None, None));
                return Err(e);
            },
        }
    }
    if let Some(api_key) = params.api_key {
        if let Some(value) = normalize_optional_ref(Some(api_key.as_str())) {
            channel.api_key = value;
        }
    }
    let now = now_ts();
    channel.updated_at = now;
    store.channels.set(i, channel);
    assert(first_channel(old(store).channels@, params.channel_id@, i as int));
    assert(channel_edit(oldc, store.channels@[i as int], update_new_name(params), update_new_base_url(params), update_new_key(params), Some(now), None));
    Ok(())
}

/// Marks the first channel with the given identifier as used now and makes it
/// the current channel.
pub fn mark_api_channel_used(store: &mut ApiChannelStore, channel_id: &str) -> (r: Result<(), String>)
    ensures
        r is Err <==> !has_channel(old(store).channels@, channel_id@),
        r matches Err(e) ==> e@ == missing_channel(channel_id@) && *final(store) == *old(store),
        r is Ok ==> exists|i: int, now: i64| {
            &&& first_channel(old(store).channels@, channel_id@, i)
            &&& final(store).channels@ == old(store).channels@.update(i, final(store).channels@[i])
            &&& channel_edit(old(store).channels@[i], final(store).channels@[i], None, None, None, Some(now), Some(Some(now)))
            &&& opt_view(final(store).current_channel_id) == Some(channel_id@)
            &&& final(store).version == old(store).version
        },
{
    let now = now_ts();
    let i = match find_channel(&store.channels, channel_id) {
        Some(i) => i,
        None => return Err(concat("API 中转不存在: ", channel_id)),
    };
    let mut channel = store.channels[i].clone();
    channel.last_used = Some(now);
    channel.updated_at = now;
    store.channels.set(i, channel);
    store.current_channel_id = Some(String::from_str(channel_id));
    proof {
        assert(store.channels@ =~= old(store).channels@.update(i as int, store.channels@[i as int]));
        assert(first_channel(old(store).channels@, channel_id@, i as int));
        assert(channel_edit(old(store).channels@[i as int], store.channels@[i as int], None, None, None, Some(now), Some(Some(now))));
    }
    Ok(())
}

/// A channel appended under an identifier that no earlier channel has is the
/// first channel with that identifier, so a lookup by it finds the new channel.
pub proof fn lemma_added_channel_found(cs: Seq<ApiChannel>, c: ApiChannel)
    requires
        !has_channel(cs, c.id@),
    ensures
        first_channel(cs.push(c), c.id@, cs.len() as int),
        has_channel(cs.push(c), c.id@),
{
    let s = cs.push(c);
    assert forall|j: int| 0 <= j < cs.len() implies (#[trigger] s[j]).id@ != c.id@ by {
        assert(s[j] == cs[j]);
    }
    assert(s[cs.len() as int] == c);
}

/// After a deletion no channel has the deleted identifier, and every channel
/// with another identifier is still there.
pub proof fn lemma_deleted_channel_gone(cs: Seq<ApiChannel>, id: Seq<char>)
    ensures
        !has_channel(cs.filter(|c: ApiChannel| c.id@ != id), id),
        forall|i: int| 0 <= i < cs.len() && (#[trigger] cs[i]).id@ != id
            ==> cs.filter(|c: ApiChannel| c.id@ != id).contains(cs[i]),
{
    let pred = |c: ApiChannel| c.id@ != id;
    let f = cs.filter(pred);
    if has_channel(f, id) {
        let k = choose|k: int| 0 <= k < f.len() && (#[trigger] f[k]).id@ == id;
        cs.lemma_filter_pred(pred, k);
    }
    assert forall|i: int| 0 <= i < cs.len() && (#[trigger] cs[i]).id@ != id implies f.contains(cs[i]) by {
        cs.lemma_filter_contains(pred, i);
    }
}

} // verus!
