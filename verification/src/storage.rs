use sha2::Digest;
use vstd::prelude::*;
use vstd::string::StrSliceExecFns;
use vstd::string::StringExecFns;

use crate::text::{opt_str_view, 
    hex_lower, hex_lower_string, is_lower_hex, lemma_hex_lower_digits, is_empty_str, lemma_trim_both_shape, opt_view, res_view, trim,
    trim_both, trim_char, trim_str, trimmed_by,
};

verus! {

/// The current Unix time in seconds, from chrono's `Utc::now().timestamp()`.
/// It depends on the clock, so nothing is stated of it.
#[verifier::external_body]
pub fn now_ts() -> i64 {
    chrono::Utc::now().timestamp()
}

/// What `std::path::Path::join` gives for `base` and `part`, as text.
pub uninterp spec fn spec_path_join(base: Seq<char>, part: Seq<char>) -> Seq<char>;

/// `std::path::Path::new(base).join(part)`, rendered back to text (lossless,
/// since both parts are UTF-8). Its result is named by `spec_path_join`: for a
/// given target the join depends on the two arguments alone; the separator it
/// inserts is the target's, so nothing more is stated of it.
#[verifier::external_body]
pub(crate) fn path_join(base: &str, part: &str) -> (r: String)
    ensures
        r@ == spec_path_join(base@, part@),
{
    std::path::Path::new(base).join(part).to_string_lossy().into_owned()
}

/// `dirs::data_local_dir()` as text. It reads the environment and the platform's
/// conventions, so nothing is stated of its result.
#[verifier::external_body]
fn local_data_dir() -> Option<String> {
    dirs::data_local_dir().map(|dir| dir.to_string_lossy().into_owned())
}

/// `dirs::home_dir()` as text. It reads the environment, so nothing is stated of
/// its result.
#[verifier::external_body]
fn user_home_dir() -> Option<String> {
    dirs::home_dir().map(|dir| dir.to_string_lossy().into_owned())
}

/// The SHA-256 digest of `data`, as sha2's `Sha256` computes it.
pub uninterp spec fn spec_sha256(data: Seq<u8>) -> Seq<u8>;

/// sha2's `Sha256::new()`, `update` and `finalize`: the digest of `data`, named by
/// `spec_sha256`; its output size is 32 bytes.
#[verifier::external_body]
fn sha256(data: &[u8]) -> (r: Vec<u8>)
    ensures
        r@ == spec_sha256(data@),
        r@.len() == 32,
{
    let mut hasher = sha2::Sha256::new();
    hasher.update(data);
    hasher.finalize().to_vec()
}

/// The name of the application's data directory.
pub open spec fn app_dir_name() -> Seq<char> {
    "AI Account Tool"@
}

/// The application's data directory under the given local data directory.
pub open spec fn spec_data_dir(local: Option<Seq<char>>) -> Result<Seq<char>, Seq<char>> {
    match local {
        Some(dir) => Ok(spec_path_join(dir, app_dir_name())),
        None => Err("无法定位 AppData\\Local 目录"@),
    }
}

/// The data directory for a given local data directory (`None` where the
/// platform has none).
pub fn data_dir_in(local: Option<&str>) -> (r: Result<String, String>)
    ensures
        res_view(r) == spec_data_dir(opt_str_view(local)),
{
    match local {
        Some(dir) => Ok(path_join(dir, "AI Account Tool")),
        None => Err(String::from_str("无法定位 AppData\\Local 目录")),
    }
}

/// The application's data directory: `AI Account Tool` under the platform's
/// local data directory.
pub fn data_dir() -> (r: Result<String, String>)
    ensures
        exists|local: Option<Seq<char>>| res_view(r) == spec_data_dir(local),
{
    let local = local_data_dir();
    match local {
        Some(dir) => data_dir_in(Some(dir.as_str())),
        None => data_dir_in(None),
    }
}

/// A file of the data directory, or the data directory's error.
pub open spec fn spec_in_data_dir(dir: Result<Seq<char>, Seq<char>>, name: Seq<char>) -> Result<Seq<char>, Seq<char>> {
    match dir {
        Ok(d) => Ok(spec_path_join(d, name)),
        Err(e) => Err(e),
    }
}

/// Joins `name` onto a data directory, passing its error through.
pub fn join_data_dir(dir: Result<String, String>, name: &str) -> (r: Result<String, String>)
    ensures
        res_view(r) == spec_in_data_dir(res_view(dir), name@),
{
    match dir {
        Ok(d) => Ok(path_join(d.as_str(), name)),
        Err(e) => Err(e),
    }
}

/// The path of the store file, `store.json` in the data directory.
pub fn store_path() -> (r: Result<String, String>)
    ensures
        exists|local: Option<Seq<char>>| res_view(r) == spec_in_data_dir(spec_data_dir(local), "store.json"@),
{
    let dir = data_dir();
    join_data_dir(dir, "store.json")
}

/// The directory that holds generated instance homes, `codex-instances` in the
/// data directory.
pub fn default_instances_root() -> (r: Result<String, String>)
    ensures
        exists|local: Option<Seq<char>>| res_view(r) == spec_in_data_dir(spec_data_dir(local), "codex-instances"@),
{
    let dir = data_dir();
    join_data_dir(dir, "codex-instances")
}

/// The value of `CODEX_HOME` as a path: surrounding whitespace, then quotes,
/// then apostrophes, then whitespace again removed.
pub open spec fn clean_codex_home(raw: Seq<char>) -> Seq<char> {
    trim(trim_both(trim_both(trim(raw), Some('"')), Some('\'')))
}

/// The Codex home for a user home directory, when `CODEX_HOME` gives none.
pub open spec fn spec_home_codex(home: Option<Seq<char>>) -> Result<Seq<char>, Seq<char>> {
    match home {
        Some(h) => Ok(spec_path_join(h, ".codex"@)),
        None => Err("无法定位用户目录"@),
    }
}

/// `r` is a possible default Codex home for the value `env` of `CODEX_HOME`:
/// the cleaned value when it is not empty, else what the user's home directory
/// gives, whichever directory that is.
pub open spec fn default_home_outcome(env: Option<Seq<char>>, r: Result<Seq<char>, Seq<char>>) -> bool {
    match env {
        Some(raw) if clean_codex_home(raw).len() > 0 => r == Ok::<Seq<char>, Seq<char>>(clean_codex_home(raw)),
        _ => exists|home: Option<Seq<char>>| r == spec_home_codex(home),
    }
}

/// The default Codex home. `codex_home_env` is the value of the `CODEX_HOME`
/// variable, if set: when it holds a path after cleaning, that path is the home;
/// otherwise the home is `.codex` in the user's home directory.
pub fn default_codex_home(codex_home_env: Option<&str>) -> (r: Result<String, String>)
    ensures
        default_home_outcome(opt_str_view(codex_home_env), res_view(r)),
{
    if let Some(raw) = codex_home_env {
        let a = trim_str(raw);
        let b = trim_char(a.as_str(), '"');
        let c = trim_char(b.as_str(), '\'');
        let cleaned = trim_str(c.as_str());
        if !is_empty_str(cleaned.as_str()) {
            return Ok(cleaned);
        }
    }
    match user_home_dir() {
        Some(home) => {
            let r = path_join(home.as_str(), ".codex");
            assert(res_view(Ok(r)) == spec_home_codex(Some(home@)));
            Ok(r)
        },
        None => {
            let r = Err(String::from_str("无法定位用户目录"));
            assert(res_view(r) == spec_home_codex(None));
            r
        },
    }
}

/// The first `len` characters (all, if fewer) of the lowercase hexadecimal
/// SHA-256 digest of the UTF-8 bytes of `input`.
pub open spec fn spec_sha256_short(input: Seq<char>, len: nat) -> Seq<char> {
    let hex = hex_lower(spec_sha256(vstd::utf8::encode_utf8(input)));
    if len < hex.len() {
        hex.take(len as int)
    } else {
        hex
    }
}

/// A prefix of the hexadecimal SHA-256 digest of `input`.
pub fn sha256_short(input: &str, len: usize) -> (r: String)
    ensures
        r@ == spec_sha256_short(input@, len as nat),
        r@.len() == if len < 64 { len as int } else { 64 },
        forall|i: int| 0 <= i < r@.len() ==> is_lower_hex(#[trigger] r@[i]),
{
    let digest = sha256(input.as_bytes());
    let hex = hex_lower_string(digest.as_slice());
    assert(hex@.len() == 64);
    let keep = if len < 64 { len } else { 64 };
    let r = String::from_str(hex.as_str().substring_char(0, keep));
    assert(hex@.subrange(0, 64) =~= hex@);
    proof {
        lemma_hex_lower_digits(digest@);
        assert forall|i: int| 0 <= i < r@.len() implies is_lower_hex(#[trigger] r@[i]) by {
            assert(r@[i] == hex@[i]);
        }
    }
    r
}

/// The trimmed text, unless it is empty.
pub open spec fn spec_normalize(s: Seq<char>) -> Option<Seq<char>> {
    if trim(s).len() == 0 {
        None
    } else {
        Some(trim(s))
    }
}

/// The normalized value of an optional text.
pub open spec fn spec_normalize_opt(o: Option<Seq<char>>) -> Option<Seq<char>> {
    match o {
        Some(s) => spec_normalize(s),
        None => None,
    }
}

/// The trimmed value, or `None` where there is none or it is blank.
pub fn normalize_optional(input: Option<String>) -> (r: Option<String>)
    ensures
        opt_view(r) == spec_normalize_opt(opt_view(input)),
{
    match input {
        Some(value) => normalize_optional_ref(Some(value.as_str())),
        None => None,
    }
}

/// The trimmed value, or `None` where there is none or it is blank.
pub fn normalize_optional_ref(input: Option<&str>) -> (r: Option<String>)
    ensures
        opt_view(r) == spec_normalize_opt(opt_str_view(input)),
{
    match input {
        Some(value) => {
            let trimmed = trim_str(value);
            if is_empty_str(trimmed.as_str()) {
                None
            } else {
                Some(trimmed)
            }
        },
        None => None,
    }
}

/// A normalized value is never blank, has no whitespace at either end, and
/// normalizing it again gives it back unchanged.
pub proof fn lemma_normalize_stable(s: Seq<char>)
    ensures
        spec_normalize(s) matches Some(t) ==> {
            &&& t.len() > 0
            &&& !crate::text::is_ws(t[0])
            &&& !crate::text::is_ws(t.last())
            &&& spec_normalize(t) == Some(t)
        },
{
    lemma_trim_both_shape(s, None);
}

} // verus!
