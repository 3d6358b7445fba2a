//! Runtime configuration: where the server is, the password, and where the
//! session cache lives.

use vstd::prelude::*;
use vstd::string::*;

use crate::text::{chars_of, string_of, strip_end_char, strip_end_chars};

verus! {

/// Runtime configuration. The caller reads it from the environment.
#[derive(Debug, Clone)]
pub struct Config {
    /// Server base URL, without trailing `/`.
    pub base_url: String,
    /// Login password, when one is configured.
    pub password: Option<String>,
    /// Directory that holds the session cache.
    pub cache_dir: String,
}

/// The file name of the session cache inside the cache directory.
pub open spec fn cookies_file_name() -> Seq<char> {
    "cookies.json"@
}

/// `Path::join` of a relative component onto `base` (Unix rules): a
/// separator is put between them unless `base` is empty or already ends
/// with one.
pub open spec fn path_join(base: Seq<char>, component: Seq<char>) -> Seq<char> {
    if base.len() == 0 || base.last() == '/' {
        base + component
    } else {
        base + seq!['/'] + component
    }
}

/// A base URL without its trailing slashes (`trim_end_matches('/')`).
pub fn normalize_base_url(raw: &str) -> (res: String)
    ensures
        res@ == strip_end_char(raw@, '/'),
{
    let cs = chars_of(raw);
    let stripped = strip_end_chars(&cs, '/');
    string_of(&stripped)
}

impl Config {
    /// The configuration for a base URL as given (trailing slashes are
    /// dropped), an optional password and a cache directory.
    pub fn from_parts(raw_base_url: &str, password: Option<String>, cache_dir: String) -> (res:
        Config)
        ensures
            res.base_url@ == strip_end_char(raw_base_url@, '/'),
            res.password == password,
            res.cache_dir == cache_dir,
    {
        Config { base_url: normalize_base_url(raw_base_url), password, cache_dir }
    }

    /// Path of the session cache file: `<cache_dir>/cookies.json`.
    pub fn cookies_path(&self) -> (res: String)
        ensures
            res@ == path_join(self.cache_dir@, cookies_file_name()),
    {
        let mut s = self.cache_dir.clone();
        let n = self.cache_dir.unicode_len();
        if n > 0 && self.cache_dir.as_str().get_char(n - 1) != '/' {
            s.append("/");
            proof {
                reveal_strlit("/");
                assert(self.cache_dir@ + "/"@ =~= self.cache_dir@ + seq!['/']);
            }
        }
        s.append("cookies.json");
        s
    }

    /// The absolute URL of an API path: the base URL followed by `path`.
    pub fn url(&self, path: &str) -> (res: String)
        ensures
            res@ == self.base_url@ + path@,
    {
        let mut s = self.base_url.clone();
        s.append(path);
        s
    }
}


/// A normalized base URL does not end with `/`, and normalizing it again
/// changes nothing.
pub proof fn lemma_base_url_normalized(raw: Seq<char>)
    ensures
        strip_end_char(raw, '/').len() == 0 || strip_end_char(raw, '/').last() != '/',
        strip_end_char(strip_end_char(raw, '/'), '/') == strip_end_char(raw, '/'),
    decreases raw.len(),
{
    if raw.len() > 0 && raw.last() == '/' {
        lemma_base_url_normalized(raw.drop_last());
    }
}

} // verus!
