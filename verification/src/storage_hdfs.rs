//! HDFS path handling and the configuration from which an HDFS operator is built.
use vstd::prelude::*;

use crate::error::Error;
use crate::text::{decimal, eq_ignore_ascii_case, has_prefix, push_decimal, str_eq, str_eq_ignore_ascii_case};

verus! {

/// The scheme prefix of an HDFS path.
pub open spec fn hdfs_prefix() -> Seq<char> {
    "hdfs://"@
}

/// The position of the first `c` in `s`, if any.
pub open spec fn first_index_of(s: Seq<char>, c: char) -> Option<int>
    decreases s.len(),
{
    if s.len() == 0 {
        None
    } else if s[0] == c {
        Some(0)
    } else {
        match first_index_of(s.skip(1), c) {
            Some(i) => Some(i + 1),
            None => None,
        }
    }
}

proof fn lemma_first_index_of(s: Seq<char>, c: char, k: int)
    requires
        0 <= k <= s.len(),
        forall|j: int| 0 <= j < k ==> s[j] != c,
    ensures
        k < s.len() && s[k] == c ==> first_index_of(s, c) == Some(k),
        k == s.len() ==> first_index_of(s, c) is None,
    decreases s.len(),
{
    if s.len() > 0 && k > 0 {
        lemma_first_index_of(s.skip(1), c, k - 1);
    }
}

/// Parses an HDFS path to get the path relative to the root.
///
/// Example: `"hdfs://namenode:8020/warehouse/db/table"` gives `"warehouse/db/table"`.
pub fn hdfs_relative_path(path: &str) -> (res: Result<&str, Error>)
    ensures
        !has_prefix(path@, hdfs_prefix()) ==> (res matches Err(Error::ConfigInvalid { message })
            && message@ == "Invalid HDFS path: "@ + path@ + ", should start with hdfs://"@),
        has_prefix(path@, hdfs_prefix()) ==> match first_index_of(path@.skip(7), '/') {
            Some(pos) => res matches Ok(rel) && rel@ == path@.skip(7).skip(pos + 1),
            None => res matches Err(Error::ConfigInvalid { message })
                && message@ == "Invalid HDFS path: "@ + path@ + ", missing path component"@,
        },
{
    proof {
        reveal_strlit("hdfs://");
    }
    let n = path.unicode_len();
    let scheme = "hdfs://";
    let mut ok = n >= 7;
    let mut i: usize = 0;
    while ok && i < 7
        invariant
            n == path@.len(),
            scheme@ == hdfs_prefix(),
            hdfs_prefix().len() == 7,
            i <= 7,
            ok ==> n >= 7,
            ok ==> forall|j: int| 0 <= j < i ==> path@[j] == hdfs_prefix()[j],
            !ok ==> !has_prefix(path@, hdfs_prefix()),
        decreases 7 - i + (if ok { 1int } else { 0int }),
    {
        if path.get_char(i) != scheme.get_char(i) {
            ok = false;
            assert(path@.subrange(0, 7)[i as int] != hdfs_prefix()[i as int]);
        } else {
            i = i + 1;
        }
    }
    if !ok {
        let mut message = String::from_str("Invalid HDFS path: ");
        message.append(path);
        message.append(", should start with hdfs://");
        return Err(Error::ConfigInvalid { message });
    }
    assert(path@.subrange(0, 7) =~= hdfs_prefix());
    let ghost after = path@.skip(7);
    let mut k: usize = 7;
    while k < n
        invariant
            n == path@.len(),
            7 <= k <= n,
            after == path@.skip(7),
            has_prefix(path@, hdfs_prefix()),
            forall|j: int| 0 <= j < k - 7 ==> after[j] != '/',
        decreases n - k,
    {
        if path.get_char(k) == '/' {
            proof {
                assert(after[k - 7] == '/');
                lemma_first_index_of(after, '/', k - 7);
            }
            let rel = path.substring_char(k + 1, n);
            assert(rel@ =~= after.skip(k - 7 + 1));
            return Ok(rel);
        }
        k = k + 1;
    }
    proof {
        lemma_first_index_of(after, '/', k - 7);
    }
    let mut message = String::from_str("Invalid HDFS path: ");
    message.append(path);
    message.append(", missing path component");
    Err(Error::ConfigInvalid { message })
}

/// A path made of the HDFS scheme, an authority without `/`, a `/` and a rest has
/// that rest as its relative path.
pub proof fn law_relative_path_of_joined(authority: Seq<char>, rest: Seq<char>)
    requires
        !authority.contains('/'),
    ensures
        ({
            let path = hdfs_prefix() + authority + seq!['/'] + rest;
            &&& has_prefix(path, hdfs_prefix())
            &&& first_index_of(path.skip(7), '/') == Some(authority.len() as int)
            &&& path.skip(7).skip((authority.len() + 1) as int) == rest
        }),
{
    reveal_strlit("hdfs://");
    let path = hdfs_prefix() + authority + seq!['/'] + rest;
    assert(path.subrange(0, 7) =~= hdfs_prefix());
    let after = path.skip(7);
    assert(after =~= authority + seq!['/'] + rest);
    assert forall|j: int| 0 <= j < authority.len() implies after[j] != '/' by {
        assert(after[j] == authority[j]);
    }
    lemma_first_index_of(after, '/', authority.len() as int);
    assert(after.skip((authority.len() + 1) as int) =~= rest);
}

/// Configuration key for the HDFS name node URL.
pub open spec fn name_node_key() -> Seq<char> {
    "hdfs.name-node"@
}

/// Configuration key to enable the HDFS append capability.
pub open spec fn enable_append_key() -> Seq<char> {
    "hdfs.enable-append"@
}

/// The view of an optional string.
pub open spec fn opt_str(o: Option<String>) -> Option<Seq<char>> {
    match o {
        Some(s) => Some(s@),
        None => None,
    }
}

/// The value of the first entry of `props` whose key is `key`.
pub open spec fn lookup(props: Seq<(String, String)>, key: Seq<char>) -> Option<Seq<char>>
    decreases props.len(),
{
    if props.len() == 0 {
        None
    } else if props[0].0@ == key {
        Some(props[0].1@)
    } else {
        lookup(props.skip(1), key)
    }
}

proof fn lemma_lookup(props: Seq<(String, String)>, key: Seq<char>, k: int)
    requires
        0 <= k <= props.len(),
        forall|j: int| 0 <= j < k ==> props[j].0@ != key,
    ensures
        k < props.len() && props[k].0@ == key ==> lookup(props, key) == Some(props[k].1@),
        k == props.len() ==> lookup(props, key) is None,
    decreases props.len(),
{
    if props.len() > 0 && k > 0 {
        lemma_lookup(props.skip(1), key, k - 1);
    }
}

proof fn lemma_lookup_insert_other(props: Seq<(String, String)>, i: int, entry: (String, String), key: Seq<char>)
    requires
        0 <= i <= props.len(),
        entry.0@ != key,
    ensures
        lookup(props.insert(i, entry), key) == lookup(props, key),
    decreases props.len(),
{
    if i == 0 {
        assert(props.insert(0, entry).skip(1) =~= props);
    } else {
        assert(props.insert(i, entry)[0] == props[0]);
        assert(props.insert(i, entry).skip(1) =~= props.skip(1).insert(i - 1, entry));
        lemma_lookup_insert_other(props.skip(1), i - 1, entry, key);
    }
}

/// An entry whose key is neither `hdfs.name-node` nor `hdfs.enable-append`,
/// wherever it stands among the options, changes nothing that is parsed.
pub proof fn law_parse_ignores_unrelated_keys(props: Seq<(String, String)>, i: int, entry: (String, String))
    requires
        0 <= i <= props.len(),
        entry.0@ != name_node_key(),
        entry.0@ != enable_append_key(),
    ensures
        lookup(props.insert(i, entry), name_node_key()) == lookup(props, name_node_key()),
        lookup(props.insert(i, entry), enable_append_key()) == lookup(props, enable_append_key()),
{
    lemma_lookup_insert_other(props, i, entry, name_node_key());
    lemma_lookup_insert_other(props, i, entry, enable_append_key());
}

/// Looking a key up gives the value of the first entry with that key, and nothing
/// when no entry has it.
pub proof fn law_lookup_finds_first_entry(props: Seq<(String, String)>, key: Seq<char>, k: int)
    requires
        0 <= k <= props.len(),
        forall|j: int| 0 <= j < k ==> props[j].0@ != key,
    ensures
        k < props.len() && props[k].0@ == key ==> lookup(props, key) == Some(props[k].1@),
        k == props.len() ==> lookup(props, key) is None,
{
    lemma_lookup(props, key, k);
}

/// The HDFS settings that the library reads and fills in; an operator is built
/// from them.
#[derive(Debug)]
pub struct HdfsConfig {
    /// Work directory of the backend.
    pub root: Option<String>,
    /// Name node URL, such as `hdfs://namenode:8020` or `hdfs://nameservice1`.
    pub name_node: Option<String>,
    /// Whether the append capability is requested.
    pub enable_append: bool,
}

impl HdfsConfig {
    /// A configuration with nothing set.
    pub fn new() -> (res: HdfsConfig)
        ensures
            res.root is None,
            res.name_node is None,
            !res.enable_append,
    {
        HdfsConfig { root: None, name_node: None, enable_append: false }
    }
}

fn clone_opt_string(o: &Option<String>) -> (res: Option<String>)
    ensures
        opt_str(res) == opt_str(*o),
{
    match o {
        Some(s) => Some(s.clone()),
        None => None,
    }
}

/// Finds the value of the first entry whose key is `key`.
fn find_value(props: &Vec<(String, String)>, key: &str) -> (res: Option<String>)
    ensures
        opt_str(res) == lookup(props@, key@),
{
    let mut i: usize = 0;
    while i < props.len()
        invariant
            i <= props@.len(),
            forall|j: int| 0 <= j < i ==> props@[j].0@ != key@,
        decreases props@.len() - i,
    {
        if str_eq(props[i].0.as_str(), key) {
            proof {
                lemma_lookup(props@, key@, i as int);
            }
            return Some(props[i].1.clone());
        }
        i = i + 1;
    }
    proof {
        lemma_lookup(props@, key@, i as int);
    }
    None
}

/// Parses catalog options into an HDFS configuration.
///
/// The `hdfs.name-node` key is optional: when it is missing, the name node is
/// taken from the file path URL when the operator is built. Append is enabled
/// when `hdfs.enable-append` is `true`, in any ASCII case. Of several entries with
/// one key, the first counts.
pub fn hdfs_config_parse(props: Vec<(String, String)>) -> (res: Result<HdfsConfig, Error>)
    ensures
        res matches Ok(cfg) && {
            &&& opt_str(cfg.name_node) == lookup(props@, name_node_key())
            &&& cfg.enable_append == (lookup(props@, enable_append_key()) matches Some(v)
                && eq_ignore_ascii_case(v, "true"@))
            &&& cfg.root is None
        },
{
    let mut cfg = HdfsConfig::new();
    cfg.name_node = find_value(&props, "hdfs.name-node");
    if let Some(v) = find_value(&props, "hdfs.enable-append") {
        if str_eq_ignore_ascii_case(v.as_str(), "true") {
            cfg.enable_append = true;
        }
    }
    Ok(cfg)
}

/// The host and port of a parsed URL.
pub struct UrlAuthority {
    /// The host, as `url::Url::host_str` gives it.
    pub host: Option<String>,
    /// The port, as `url::Url::port` gives it.
    pub port: Option<u16>,
}

impl View for UrlAuthority {
    type V = (Option<Seq<char>>, Option<u16>);

    open spec fn view(&self) -> (Option<Seq<char>>, Option<u16>) {
        (opt_str(self.host), self.port)
    }
}

/// What `url::Url::parse` gives for `input`, reduced to the host (`Url::host_str`)
/// and port (`Url::port`) of the parsed URL; `None` when parsing fails.
pub uninterp spec fn url_authority(input: Seq<char>) -> Option<(Option<Seq<char>>, Option<u16>)>;

/// Trusted: calls `url::Url::parse` on `input`. The contract claims only that the
/// host and port handed back are those of the parsed URL, named `url_authority`,
/// and `None` exactly when parsing fails; nothing is claimed of what the URL
/// grammar accepts.
#[verifier::external_body]
fn parse_url_authority(input: &str) -> (res: Option<UrlAuthority>)
    ensures
        match res {
            Some(a) => url_authority(input@) == Some(a@),
            None => url_authority(input@) is None,
        },
{
    match url::Url::parse(input) {
        Ok(url) => Some(UrlAuthority { host: url.host_str().map(String::from), port: url.port() }),
        Err(_) => None,
    }
}

/// The name node URL for `host` and an optional `port`: `hdfs://{host}` followed by
/// `:{port}` when there is a port.
pub open spec fn name_node_url(host: Seq<char>, port: Option<u16>) -> Seq<char> {
    match port {
        Some(p) => "hdfs://"@ + host + ":"@ + decimal(p as nat),
        None => "hdfs://"@ + host,
    }
}

/// What building from `cfg` for `path` gives when parsing `path` as a URL gave
/// `authority`: the configuration the operator is built from, or the error.
pub open spec fn completes_config(
    cfg: HdfsConfig,
    path: Seq<char>,
    authority: Option<(Option<Seq<char>>, Option<u16>)>,
    res: Result<HdfsConfig, Error>,
) -> bool {
    match authority {
        None => res matches Err(Error::ConfigInvalid { message })
            && message@ == "Invalid HDFS url: "@ + path,
        Some((host, port)) => {
            if cfg.name_node is None && host is None {
                res matches Err(Error::ConfigInvalid { message })
                    && message@ == "Invalid HDFS url: "@ + path + ", missing name node host"@
            } else {
                res matches Ok(out) && {
                    &&& opt_str(out.name_node) == (match cfg.name_node {
                        Some(n) => Some(n@),
                        None => Some(name_node_url(host.unwrap(), port)),
                    })
                    &&& opt_str(out.root) == Some("/"@)
                    &&& out.enable_append == cfg.enable_append
                }
            }
        },
    }
}

/// Building never changes the append setting, and always sets the root to `/`.
pub proof fn law_build_keeps_append_and_sets_root(
    cfg: HdfsConfig,
    path: Seq<char>,
    authority: Option<(Option<Seq<char>>, Option<u16>)>,
    res: Result<HdfsConfig, Error>,
)
    requires
        completes_config(cfg, path, authority, res),
        res is Ok,
    ensures
        res matches Ok(out) && out.enable_append == cfg.enable_append && opt_str(out.root) == Some("/"@),
{
}

/// A configured name node is kept as it is, whatever host the URL of the path has
/// (none included), as long as the path parses as a URL.
pub proof fn law_configured_name_node_wins(
    cfg: HdfsConfig,
    path: Seq<char>,
    authority: Option<(Option<Seq<char>>, Option<u16>)>,
    res: Result<HdfsConfig, Error>,
)
    requires
        completes_config(cfg, path, authority, res),
        authority is Some,
        cfg.name_node is Some,
    ensures
        res matches Ok(out) && opt_str(out.name_node) == opt_str(cfg.name_node),
{
}

/// Without a configured name node, building fails exactly when the path is no
/// URL or its URL has no host; otherwise the name node starts with
/// `hdfs://{host}`.
pub proof fn law_derived_name_node_from_host(
    cfg: HdfsConfig,
    path: Seq<char>,
    authority: Option<(Option<Seq<char>>, Option<u16>)>,
    res: Result<HdfsConfig, Error>,
)
    requires
        completes_config(cfg, path, authority, res),
        cfg.name_node is None,
    ensures
        res is Ok <==> (authority matches Some((host, _)) && host is Some),
        res matches Ok(out) ==> (authority matches Some((Some(h), _)) && out.name_node matches Some(n)
            && has_prefix(n@, "hdfs://"@ + h)),
{
    if let Some((Some(h), port)) = authority {
        if let Ok(out) = res {
            let n = name_node_url(h, port);
            let p = "hdfs://"@ + h;
            assert(n.subrange(0, p.len() as int) =~= p);
        }
    }
}

/// Fills in `cfg` for `path`, given what parsing `path` as a URL gave: the name
/// node comes from the URL's host and port when `cfg` has none, and the root is
/// set to `/` so that relative paths work.
pub fn hdfs_config_with_authority(cfg: &HdfsConfig, path: &str, authority: Option<UrlAuthority>) -> (res: Result<HdfsConfig, Error>)
    ensures
        completes_config(*cfg, path@, match authority {
            Some(a) => Some(a@),
            None => None,
        }, res),
        res matches Ok(out) ==> (out.enable_append == cfg.enable_append && opt_str(out.root) == Some("/"@)),
        (authority is Some && cfg.name_node is Some) ==> (res matches Ok(out)
            && opt_str(out.name_node) == opt_str(cfg.name_node)),
{
    let authority = match authority {
        Some(a) => a,
        None => {
            let mut message = String::from_str("Invalid HDFS url: ");
            message.append(path);
            return Err(Error::ConfigInvalid { message });
        },
    };
    let name_node = match &cfg.name_node {
        Some(n) => n.clone(),
        None => {
            match &authority.host {
                None => {
                    let mut message = String::from_str("Invalid HDFS url: ");
                    message.append(path);
                    message.append(", missing name node host");
                    return Err(Error::ConfigInvalid { message });
                },
                Some(host) => {
                    let mut n = String::from_str("hdfs://");
                    n.append(host.as_str());
                    if let Some(p) = authority.port {
                        n.append(":");
                        push_decimal(&mut n, p as u64);
                    }
                    n
                },
            }
        },
    };
    Ok(HdfsConfig {
        root: Some(String::from_str("/")),
        name_node: Some(name_node),
        enable_append: cfg.enable_append,
    })
}

/// Builds the configuration of the HDFS operator for `path` from `cfg`: when `cfg`
/// has no name node it is taken from the URL of `path`, and the root is set to `/`.
pub fn hdfs_config_build(cfg: &HdfsConfig, path: &str) -> (res: Result<HdfsConfig, Error>)
    ensures
        completes_config(*cfg, path@, url_authority(path@), res),
        res matches Ok(out) ==> (out.enable_append == cfg.enable_append && opt_str(out.root) == Some("/"@)),
        (url_authority(path@) is Some && cfg.name_node is Some) ==> (res matches Ok(out)
            && opt_str(out.name_node) == opt_str(cfg.name_node)),
{
    let authority = parse_url_authority(path);
    hdfs_config_with_authority(cfg, path, authority)
}

} // verus!
