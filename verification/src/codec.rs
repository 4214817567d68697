use vstd::prelude::*;
use vstd::string::StringExecFns;
use crate::yaml::{Yaml, YamlV, view_entries, view_items, lookup, has_key, insert_val, map_get,
    map_insert, lemma_view_entries, lemma_view_items, lemma_insert_same, lemma_insert_other,
    lemma_lookup_at, lemma_lookup_absent, first_at_key, yaml_parse, yaml_parse_spec, yaml_emit,
    yaml_emit_spec};
use crate::types::{Cluster, ClusterDetails, User, UserDetails, UserAuth, Context, ContextDetails,
    Config, TempConfig};

verus! {

/// Why a document could not be loaded or written back.
#[derive(Clone, Copy, PartialEq, Eq, Structural, Debug)]
pub enum ConfigError {
    /// The path does not exist (raised by the caller doing the reading).
    NotFound,
    /// The text is not a well-formed document of the expected shape.
    Parse,
    /// The merged tree could not be serialized.
    Emit,
}

/// The given key is absent, null, or holds a plain string.
pub open spec fn str_or_missing(m: Seq<(Seq<char>, YamlV)>, k: Seq<char>) -> bool {
    match lookup(m, k) {
        None => true,
        Some(YamlV::Null) => true,
        Some(YamlV::Str(_)) => true,
        Some(_) => false,
    }
}

/// An optional string field decodes to `o`: a string gives its content,
/// absence or null gives nothing, anything else is not this relation.
pub open spec fn opt_str_decodes(m: Seq<(Seq<char>, YamlV)>, k: Seq<char>, o: Option<String>)
    -> bool {
    match lookup(m, k) {
        Some(YamlV::Str(s)) => o matches Some(v) && v@ == s,
        Some(YamlV::Null) => o is None,
        None => o is None,
        Some(_) => false,
    }
}

/// A tree has the shape of one cluster entry.
pub open spec fn cluster_ok(v: YamlV) -> bool {
    &&& v matches YamlV::Mapping(cm)
    &&& lookup(cm, "name"@) matches Some(YamlV::Str(_))
    &&& match lookup(cm, "cluster"@) {
        Some(YamlV::Mapping(dm)) => {
            &&& lookup(dm, "server"@) matches Some(YamlV::Str(_))
            &&& str_or_missing(dm, "certificate-authority-data"@)
        },
        _ => false,
    }
}

/// A tree decodes to the given cluster entry.
pub open spec fn cluster_decodes(v: YamlV, c: Cluster) -> bool {
    &&& v matches YamlV::Mapping(cm)
    &&& lookup(cm, "name"@) == Some(YamlV::Str(c.name@))
    &&& match lookup(cm, "cluster"@) {
        Some(YamlV::Mapping(dm)) => {
            &&& lookup(dm, "server"@) == Some(YamlV::Str(c.cluster.server@))
            &&& opt_str_decodes(
                dm,
                "certificate-authority-data"@,
                c.cluster.certificate_authority_data,
            )
        },
        _ => false,
    }
}

/// A credential block satisfies exactly one recognized shape: a token and
/// no certificate field, or both certificate fields and no token.
pub open spec fn auth_ok(am: Seq<(Seq<char>, YamlV)>) -> bool {
    if has_key(am, "token"@) {
        &&& !has_key(am, "client-certificate-data"@)
        &&& !has_key(am, "client-key-data"@)
        &&& lookup(am, "token"@) matches Some(YamlV::Str(_))
    } else {
        &&& lookup(am, "client-certificate-data"@) matches Some(YamlV::Str(_))
        &&& lookup(am, "client-key-data"@) matches Some(YamlV::Str(_))
    }
}

/// A credential block decodes to the given auth value.
pub open spec fn auth_decodes(am: Seq<(Seq<char>, YamlV)>, a: UserAuth) -> bool {
    if has_key(am, "token"@) {
        &&& !has_key(am, "client-certificate-data"@)
        &&& !has_key(am, "client-key-data"@)
        &&& a matches UserAuth::Token { token }
        &&& lookup(am, "token"@) == Some(YamlV::Str(token@))
    } else {
        &&& a matches UserAuth::Certificate { client_certificate_data, client_key_data }
        &&& lookup(am, "client-certificate-data"@) == Some(
            YamlV::Str(client_certificate_data@),
        )
        &&& lookup(am, "client-key-data"@) == Some(YamlV::Str(client_key_data@))
    }
}

/// A tree has the shape of one user entry.
pub open spec fn user_ok(v: YamlV) -> bool {
    &&& v matches YamlV::Mapping(um)
    &&& lookup(um, "name"@) matches Some(YamlV::Str(_))
    &&& match lookup(um, "user"@) {
        Some(YamlV::Mapping(am)) => auth_ok(am),
        _ => false,
    }
}

/// A tree decodes to the given user entry.
pub open spec fn user_decodes(v: YamlV, u: User) -> bool {
    &&& v matches YamlV::Mapping(um)
    &&& lookup(um, "name"@) == Some(YamlV::Str(u.name@))
    &&& match lookup(um, "user"@) {
        Some(YamlV::Mapping(am)) => auth_decodes(am, u.user.auth),
        _ => false,
    }
}

/// A tree has the shape of one context entry.
pub open spec fn context_ok(v: YamlV) -> bool {
    &&& v matches YamlV::Mapping(cm)
    &&& lookup(cm, "name"@) matches Some(YamlV::Str(_))
    &&& match lookup(cm, "context"@) {
        Some(YamlV::Mapping(dm)) => {
            &&& lookup(dm, "user"@) matches Some(YamlV::Str(_))
            &&& lookup(dm, "cluster"@) matches Some(YamlV::Str(_))
        },
        _ => false,
    }
}

/// A tree decodes to the given context entry.
pub open spec fn context_decodes(v: YamlV, c: Context) -> bool {
    &&& v matches YamlV::Mapping(cm)
    &&& lookup(cm, "name"@) == Some(YamlV::Str(c.name@))
    &&& match lookup(cm, "context"@) {
        Some(YamlV::Mapping(dm)) => {
            &&& lookup(dm, "user"@) == Some(YamlV::Str(c.context.user@))
            &&& lookup(dm, "cluster"@) == Some(YamlV::Str(c.context.cluster@))
        },
        _ => false,
    }
}

/// Looks an entry up and hands back its string content, when it is one.
fn get_str(entries: &Vec<(String, Yaml)>, key: &String) -> (r: Option<String>)
    ensures
        match r {
            Some(s) => lookup(view_entries(entries@), key@) == Some(YamlV::Str(s@)),
            None => !(lookup(view_entries(entries@), key@) matches Some(YamlV::Str(_))),
        },
{
    match map_get(entries, key) {
        Some(y) => match y {
            Yaml::Str(s) => Some(s.clone()),
            _ => None,
        },
        None => None,
    }
}

/// Looks an optional string field up: a string gives its content, absence
/// or null gives None, anything else is an error.
fn get_opt_str(entries: &Vec<(String, Yaml)>, key: &String) -> (r: Result<
    Option<String>,
    ConfigError,
>)
    ensures
        match r {
            Ok(o) => opt_str_decodes(view_entries(entries@), key@, o) && str_or_missing(
                view_entries(entries@),
                key@,
            ),
            Err(e) => !str_or_missing(view_entries(entries@), key@) && e == ConfigError::Parse,
        },
{
    match map_get(entries, key) {
        Some(y) => match y {
            Yaml::Str(s) => Ok(Some(s.clone())),
            Yaml::Null => Ok(None),
            _ => Err(ConfigError::Parse),
        },
        None => Ok(None),
    }
}

/// Decodes one cluster entry; any departure from the expected shape is a
/// parse error.
pub fn decode_cluster(y: &Yaml) -> (r: Result<Cluster, ConfigError>)
    ensures
        cluster_ok(y.view()) <==> r is Ok,
        r matches Ok(c) ==> cluster_decodes(y.view(), c),
        r matches Err(e) ==> e == ConfigError::Parse,
{
    let entries = match y {
        Yaml::Mapping(e) => e,
        _ => {
            return Err(ConfigError::Parse);
        },
    };
    let name = match get_str(entries, &String::from_str("name")) {
        Some(s) => s,
        None => {
            return Err(ConfigError::Parse);
        },
    };
    let dm = match map_get(entries, &String::from_str("cluster")) {
        Some(d) => match d {
            Yaml::Mapping(dm) => dm,
            _ => {
                return Err(ConfigError::Parse);
            },
        },
        None => {
            return Err(ConfigError::Parse);
        },
    };
    let server = match get_str(dm, &String::from_str("server")) {
        Some(s) => s,
        None => {
            return Err(ConfigError::Parse);
        },
    };
    let ca = match get_opt_str(dm, &String::from_str("certificate-authority-data")) {
        Ok(o) => o,
        Err(e) => {
            return Err(e);
        },
    };
    Ok(Cluster { name, cluster: ClusterDetails { server, certificate_authority_data: ca } })
}

/// Decodes one user entry, telling its credential shape apart by which
/// fields are present; a block satisfying both shapes or neither is a
/// parse error.
pub fn decode_user(y: &Yaml) -> (r: Result<User, ConfigError>)
    ensures
        user_ok(y.view()) <==> r is Ok,
        r matches Ok(u) ==> user_decodes(y.view(), u),
        r matches Err(e) ==> e == ConfigError::Parse,
{
    let entries = match y {
        Yaml::Mapping(e) => e,
        _ => {
            return Err(ConfigError::Parse);
        },
    };
    let name = match get_str(entries, &String::from_str("name")) {
        Some(s) => s,
        None => {
            return Err(ConfigError::Parse);
        },
    };
    let am = match map_get(entries, &String::from_str("user")) {
        Some(d) => match d {
            Yaml::Mapping(am) => am,
            _ => {
                return Err(ConfigError::Parse);
            },
        },
        None => {
            return Err(ConfigError::Parse);
        },
    };
    let tok = map_get(am, &String::from_str("token"));
    match tok {
        Some(tv) => {
            if map_get(am, &String::from_str("client-certificate-data")).is_some() {
                return Err(ConfigError::Parse);
            }
            if map_get(am, &String::from_str("client-key-data")).is_some() {
                return Err(ConfigError::Parse);
            }
            match tv {
                Yaml::Str(s) => Ok(
                    User {
                        name,
                        user: UserDetails { auth: UserAuth::Token { token: s.clone() } },
                    },
                ),
                _ => Err(ConfigError::Parse),
            }
        },
        None => {
            let ccd = match get_str(am, &String::from_str("client-certificate-data")) {
                Some(s) => s,
                None => {
                    return Err(ConfigError::Parse);
                },
            };
            let ckd = match get_str(am, &String::from_str("client-key-data")) {
                Some(s) => s,
                None => {
                    return Err(ConfigError::Parse);
                },
            };
            Ok(
                User {
                    name,
                    user: UserDetails {
                        auth: UserAuth::Certificate {
                            client_certificate_data: ccd,
                            client_key_data: ckd,
                        },
                    },
                },
            )
        },
    }
}

/// Decodes one context entry.
pub fn decode_context(y: &Yaml) -> (r: Result<Context, ConfigError>)
    ensures
        context_ok(y.view()) <==> r is Ok,
        r matches Ok(c) ==> context_decodes(y.view(), c),
        r matches Err(e) ==> e == ConfigError::Parse,
{
    let entries = match y {
        Yaml::Mapping(e) => e,
        _ => {
            return Err(ConfigError::Parse);
        },
    };
    let name = match get_str(entries, &String::from_str("name")) {
        Some(s) => s,
        None => {
            return Err(ConfigError::Parse);
        },
    };
    let dm = match map_get(entries, &String::from_str("context")) {
        Some(d) => match d {
            Yaml::Mapping(dm) => dm,
            _ => {
                return Err(ConfigError::Parse);
            },
        },
        None => {
            return Err(ConfigError::Parse);
        },
    };
    let user = match get_str(dm, &String::from_str("user")) {
        Some(s) => s,
        None => {
            return Err(ConfigError::Parse);
        },
    };
    let cluster = match get_str(dm, &String::from_str("cluster")) {
        Some(s) => s,
        None => {
            return Err(ConfigError::Parse);
        },
    };
    Ok(Context { name, context: ContextDetails { user, cluster } })
}

/// Every tree of the list has the shape of a cluster entry.
pub open spec fn clusters_ok(l: Seq<YamlV>) -> bool {
    forall|i: int| 0 <= i < l.len() ==> cluster_ok(#[trigger] l[i])
}

/// The list of trees decodes pointwise to the cluster list.
pub open spec fn clusters_decode(l: Seq<YamlV>, cs: Seq<Cluster>) -> bool {
    &&& cs.len() == l.len()
    &&& forall|i: int| 0 <= i < l.len() ==> cluster_decodes(#[trigger] l[i], cs[i])
}

/// Every tree of the list has the shape of a user entry.
pub open spec fn users_ok(l: Seq<YamlV>) -> bool {
    forall|i: int| 0 <= i < l.len() ==> user_ok(#[trigger] l[i])
}

/// The list of trees decodes pointwise to the user list.
pub open spec fn users_decode(l: Seq<YamlV>, us: Seq<User>) -> bool {
    &&& us.len() == l.len()
    &&& forall|i: int| 0 <= i < l.len() ==> user_decodes(#[trigger] l[i], us[i])
}

/// Every tree of the list has the shape of a context entry.
pub open spec fn contexts_ok(l: Seq<YamlV>) -> bool {
    forall|i: int| 0 <= i < l.len() ==> context_ok(#[trigger] l[i])
}

/// The list of trees decodes pointwise to the context list.
pub open spec fn contexts_decode(l: Seq<YamlV>, cs: Seq<Context>) -> bool {
    &&& cs.len() == l.len()
    &&& forall|i: int| 0 <= i < l.len() ==> context_decodes(#[trigger] l[i], cs[i])
}

/// Decodes a list of cluster entries; the first malformed entry is a parse
/// error.
fn decode_clusters(items: &Vec<Yaml>) -> (r: Result<Vec<Cluster>, ConfigError>)
    ensures
        clusters_ok(view_items(items@)) <==> r is Ok,
        r matches Ok(cs) ==> clusters_decode(view_items(items@), cs@),
        r matches Err(e) ==> e == ConfigError::Parse,
{
    proof {
        lemma_view_items(items@);
    }
    let ghost l = view_items(items@);
    let mut out: Vec<Cluster> = Vec::new();
    let mut i: usize = 0;
    while i < items.len()
        invariant
            i <= items.len(),
            out@.len() == i,
            l == view_items(items@),
            l.len() == items@.len(),
            forall|j: int| 0 <= j < items@.len() ==> #[trigger] l[j] == items@[j].view(),
            forall|j: int| 0 <= j < i ==> cluster_ok(#[trigger] l[j]) && cluster_decodes(
                l[j],
                out@[j],
            ),
        decreases items.len() - i,
    {
        match decode_cluster(&items[i]) {
            Ok(c) => out.push(c),
            Err(e) => {
                proof {
                    assert(!cluster_ok(l[i as int]));
                }
                return Err(e);
            },
        }
        i += 1;
    }
    Ok(out)
}

/// Decodes a list of user entries.
fn decode_users(items: &Vec<Yaml>) -> (r: Result<Vec<User>, ConfigError>)
    ensures
        users_ok(view_items(items@)) <==> r is Ok,
        r matches Ok(us) ==> users_decode(view_items(items@), us@),
        r matches Err(e) ==> e == ConfigError::Parse,
{
    proof {
        lemma_view_items(items@);
    }
    let ghost l = view_items(items@);
    let mut out: Vec<User> = Vec::new();
    let mut i: usize = 0;
    while i < items.len()
        invariant
            i <= items.len(),
            out@.len() == i,
            l == view_items(items@),
            l.len() == items@.len(),
            forall|j: int| 0 <= j < items@.len() ==> #[trigger] l[j] == items@[j].view(),
            forall|j: int| 0 <= j < i ==> user_ok(#[trigger] l[j]) && user_decodes(l[j], out@[j]),
        decreases items.len() - i,
    {
        match decode_user(&items[i]) {
            Ok(u) => out.push(u),
            Err(e) => {
                proof {
                    assert(!user_ok(l[i as int]));
                }
                return Err(e);
            },
        }
        i += 1;
    }
    Ok(out)
}

/// Decodes a list of context entries.
fn decode_contexts(items: &Vec<Yaml>) -> (r: Result<Vec<Context>, ConfigError>)
    ensures
        contexts_ok(view_items(items@)) <==> r is Ok,
        r matches Ok(cs) ==> contexts_decode(view_items(items@), cs@),
        r matches Err(e) ==> e == ConfigError::Parse,
{
    proof {
        lemma_view_items(items@);
    }
    let ghost l = view_items(items@);
    let mut out: Vec<Context> = Vec::new();
    let mut i: usize = 0;
    while i < items.len()
        invariant
            i <= items.len(),
            out@.len() == i,
            l == view_items(items@),
            l.len() == items@.len(),
            forall|j: int| 0 <= j < items@.len() ==> #[trigger] l[j] == items@[j].view(),
            forall|j: int| 0 <= j < i ==> context_ok(#[trigger] l[j]) && context_decodes(
                l[j],
                out@[j],
            ),
        decreases items.len() - i,
    {
        match decode_context(&items[i]) {
            Ok(c) => out.push(c),
            Err(e) => {
                proof {
                    assert(!context_ok(l[i as int]));
                }
                return Err(e);
            },
        }
        i += 1;
    }
    Ok(out)
}

/// A tree has the shape of a whole configuration document: the three
/// managed lists well formed, the current-context name a string when there
/// is one; anything else at the top level is left as it stands.
pub open spec fn config_ok(t: YamlV) -> bool {
    &&& t matches YamlV::Mapping(m)
    &&& match lookup(m, "clusters"@) {
        Some(YamlV::List(l)) => clusters_ok(l),
        _ => false,
    }
    &&& match lookup(m, "users"@) {
        Some(YamlV::List(l)) => users_ok(l),
        _ => false,
    }
    &&& match lookup(m, "contexts"@) {
        Some(YamlV::List(l)) => contexts_ok(l),
        _ => false,
    }
    &&& str_or_missing(m, "current-context"@)
}

/// A tree decodes to the given document.
pub open spec fn config_decodes(t: YamlV, c: Config) -> bool {
    &&& t matches YamlV::Mapping(m)
    &&& match lookup(m, "clusters"@) {
        Some(YamlV::List(l)) => clusters_decode(l, c.clusters@),
        _ => false,
    }
    &&& match lookup(m, "users"@) {
        Some(YamlV::List(l)) => users_decode(l, c.users@),
        _ => false,
    }
    &&& match lookup(m, "contexts"@) {
        Some(YamlV::List(l)) => contexts_decode(l, c.contexts@),
        _ => false,
    }
    &&& opt_str_decodes(m, "current-context"@, c.current_context)
    &&& match lookup(m, "preferences"@) {
        Some(YamlV::Null) => c.preferences is None,
        Some(pv) => c.preferences matches Some(p) && p.view() == pv,
        None => c.preferences is None,
    }
}

/// Decodes a whole document tree into the typed model.
pub fn decode_config(y: &Yaml) -> (r: Result<Config, ConfigError>)
    ensures
        config_ok(y.view()) <==> r is Ok,
        r matches Ok(c) ==> config_decodes(y.view(), c),
        r matches Err(e) ==> e == ConfigError::Parse,
{
    let entries = match y {
        Yaml::Mapping(e) => e,
        _ => {
            return Err(ConfigError::Parse);
        },
    };
    let clusters = match map_get(entries, &String::from_str("clusters")) {
        Some(v) => match v {
            Yaml::List(items) => match decode_clusters(items) {
                Ok(cs) => cs,
                Err(e) => {
                    return Err(e);
                },
            },
            _ => {
                return Err(ConfigError::Parse);
            },
        },
        None => {
            return Err(ConfigError::Parse);
        },
    };
    let users = match map_get(entries, &String::from_str("users")) {
        Some(v) => match v {
            Yaml::List(items) => match decode_users(items) {
                Ok(us) => us,
                Err(e) => {
                    return Err(e);
                },
            },
            _ => {
                return Err(ConfigError::Parse);
            },
        },
        None => {
            return Err(ConfigError::Parse);
        },
    };
    let contexts = match map_get(entries, &String::from_str("contexts")) {
        Some(v) => match v {
            Yaml::List(items) => match decode_contexts(items) {
                Ok(cs) => cs,
                Err(e) => {
                    return Err(e);
                },
            },
            _ => {
                return Err(ConfigError::Parse);
            },
        },
        None => {
            return Err(ConfigError::Parse);
        },
    };
    let current_context = match get_opt_str(entries, &String::from_str("current-context")) {
        Ok(o) => o,
        Err(e) => {
            return Err(e);
        },
    };
    let preferences = match map_get(entries, &String::from_str("preferences")) {
        Some(v) => match v {
            Yaml::Null => None,
            _ => Some(v.clone()),
        },
        None => None,
    };
    Ok(Config { clusters, users, contexts, current_context, preferences })
}

/// A tree has the shape of an edit bundle: a cluster entry, and optionally
/// a context entry and a user entry (absent or null when not carried).
pub open spec fn bundle_ok(t: YamlV) -> bool {
    &&& t matches YamlV::Mapping(m)
    &&& match lookup(m, "cluster"@) {
        Some(cv) => cluster_ok(cv),
        None => false,
    }
    &&& match lookup(m, "context"@) {
        Some(YamlV::Null) => true,
        Some(cv) => context_ok(cv),
        None => true,
    }
    &&& match lookup(m, "user"@) {
        Some(YamlV::Null) => true,
        Some(uv) => user_ok(uv),
        None => true,
    }
}

/// A tree decodes to the given edit bundle.
pub open spec fn bundle_decodes(t: YamlV, b: TempConfig) -> bool {
    &&& t matches YamlV::Mapping(m)
    &&& match lookup(m, "cluster"@) {
        Some(cv) => cluster_decodes(cv, b.cluster),
        None => false,
    }
    &&& match lookup(m, "context"@) {
        Some(YamlV::Null) => b.context is None,
        Some(cv) => b.context matches Some(c) && context_decodes(cv, c),
        None => b.context is None,
    }
    &&& match lookup(m, "user"@) {
        Some(YamlV::Null) => b.user is None,
        Some(uv) => b.user matches Some(u) && user_decodes(uv, u),
        None => b.user is None,
    }
}

/// Decodes an edited bundle tree back into the typed sub-document.
pub fn decode_bundle(y: &Yaml) -> (r: Result<TempConfig, ConfigError>)
    ensures
        bundle_ok(y.view()) <==> r is Ok,
        r matches Ok(b) ==> bundle_decodes(y.view(), b),
        r matches Err(e) ==> e == ConfigError::Parse,
{
    let entries = match y {
        Yaml::Mapping(e) => e,
        _ => {
            return Err(ConfigError::Parse);
        },
    };
    let cluster = match map_get(entries, &String::from_str("cluster")) {
        Some(v) => match decode_cluster(v) {
            Ok(c) => c,
            Err(e) => {
                return Err(e);
            },
        },
        None => {
            return Err(ConfigError::Parse);
        },
    };
    let context = match map_get(entries, &String::from_str("context")) {
        Some(v) => match v {
            Yaml::Null => None,
            _ => match decode_context(v) {
                Ok(c) => Some(c),
                Err(e) => {
                    return Err(e);
                },
            },
        },
        None => None,
    };
    let user = match map_get(entries, &String::from_str("user")) {
        Some(v) => match v {
            Yaml::Null => None,
            _ => match decode_user(v) {
                Ok(u) => Some(u),
                Err(e) => {
                    return Err(e);
                },
            },
        },
        None => None,
    };
    Ok(TempConfig { cluster, context, user })
}

/// A user credential block carrying both recognized shapes, or neither,
/// never satisfies the credential rule, so such an entry never parses.
pub proof fn lemma_auth_ambiguous_rejected(am: Seq<(Seq<char>, YamlV)>)
    ensures
        has_key(am, "token"@) && (has_key(am, "client-certificate-data"@) || has_key(
            am,
            "client-key-data"@,
        )) ==> !auth_ok(am),
        !has_key(am, "token"@) && !(has_key(am, "client-certificate-data"@) && has_key(
            am,
            "client-key-data"@,
        )) ==> !auth_ok(am),
{
}

/// The entries of the tree a cluster's connection data serializes to.
pub open spec fn enc_cluster_details_entries(d: ClusterDetails) -> Seq<(Seq<char>, YamlV)> {
    match d.certificate_authority_data {
        Some(ca) => seq![
            ("server"@, YamlV::Str(d.server@)),
            ("certificate-authority-data"@, YamlV::Str(ca@)),
        ],
        None => seq![("server"@, YamlV::Str(d.server@))],
    }
}

/// The entries of the tree a cluster entry serializes to.
pub open spec fn enc_cluster_entries(c: Cluster) -> Seq<(Seq<char>, YamlV)> {
    seq![
        ("name"@, YamlV::Str(c.name@)),
        ("cluster"@, YamlV::Mapping(enc_cluster_details_entries(c.cluster))),
    ]
}

/// The tree a cluster entry serializes to.
pub open spec fn enc_cluster(c: Cluster) -> YamlV {
    YamlV::Mapping(enc_cluster_entries(c))
}

/// The entries of the tree a credential block serializes to.
pub open spec fn enc_auth_entries(a: UserAuth) -> Seq<(Seq<char>, YamlV)> {
    match a {
        UserAuth::Token { token } => seq![("token"@, YamlV::Str(token@))],
        UserAuth::Certificate { client_certificate_data, client_key_data } => seq![
            ("client-certificate-data"@, YamlV::Str(client_certificate_data@)),
            ("client-key-data"@, YamlV::Str(client_key_data@)),
        ],
    }
}

/// The entries of the tree a user entry serializes to.
pub open spec fn enc_user_entries(u: User) -> Seq<(Seq<char>, YamlV)> {
    seq![("name"@, YamlV::Str(u.name@)), ("user"@, YamlV::Mapping(enc_auth_entries(u.user.auth)))]
}

/// The tree a user entry serializes to.
pub open spec fn enc_user(u: User) -> YamlV {
    YamlV::Mapping(enc_user_entries(u))
}

/// The entries of the tree a context's reference pair serializes to.
pub open spec fn enc_context_details_entries(d: ContextDetails) -> Seq<(Seq<char>, YamlV)> {
    seq![("user"@, YamlV::Str(d.user@)), ("cluster"@, YamlV::Str(d.cluster@))]
}

/// The entries of the tree a context entry serializes to.
pub open spec fn enc_context_entries(c: Context) -> Seq<(Seq<char>, YamlV)> {
    seq![
        ("name"@, YamlV::Str(c.name@)),
        ("context"@, YamlV::Mapping(enc_context_details_entries(c.context))),
    ]
}

/// The tree a context entry serializes to.
pub open spec fn enc_context(c: Context) -> YamlV {
    YamlV::Mapping(enc_context_entries(c))
}

/// The pointwise serialization of a cluster list.
pub open spec fn enc_clusters(s: Seq<Cluster>) -> Seq<YamlV> {
    Seq::new(s.len(), |i: int| enc_cluster(s[i]))
}

/// The pointwise serialization of a user list.
pub open spec fn enc_users(s: Seq<User>) -> Seq<YamlV> {
    Seq::new(s.len(), |i: int| enc_user(s[i]))
}

/// The pointwise serialization of a context list.
pub open spec fn enc_contexts(s: Seq<Context>) -> Seq<YamlV> {
    Seq::new(s.len(), |i: int| enc_context(s[i]))
}

/// The entries of the tree an edit bundle serializes to: its cluster, and
/// its context and user, written as null when not carried.
pub open spec fn enc_bundle_entries(b: TempConfig) -> Seq<(Seq<char>, YamlV)> {
    seq![
        ("cluster"@, enc_cluster(b.cluster)),
        (
            "context"@,
            match b.context {
                Some(c) => enc_context(c),
                None => YamlV::Null,
            },
        ),
        (
            "user"@,
            match b.user {
                Some(u) => enc_user(u),
                None => YamlV::Null,
            },
        ),
    ]
}

/// The tree an edit bundle serializes to.
pub open spec fn enc_bundle(b: TempConfig) -> YamlV {
    YamlV::Mapping(enc_bundle_entries(b))
}

/// The entries of a blank document: the three managed lists, all empty.
pub open spec fn blank_document_entries() -> Seq<(Seq<char>, YamlV)> {
    seq![
        ("clusters"@, YamlV::List(Seq::empty())),
        ("users"@, YamlV::List(Seq::empty())),
        ("contexts"@, YamlV::List(Seq::empty())),
    ]
}

/// The tree of a blank document.
pub open spec fn blank_document_spec() -> YamlV {
    YamlV::Mapping(blank_document_entries())
}

/// Serializes one cluster entry.
fn encode_cluster(c: &Cluster) -> (r: Yaml)
    ensures
        r.view() == enc_cluster(*c),
{
    let mut dm: Vec<(String, Yaml)> = Vec::new();
    dm.push((String::from_str("server"), Yaml::Str(c.cluster.server.clone())));
    match &c.cluster.certificate_authority_data {
        Some(ca) => dm.push(
            (String::from_str("certificate-authority-data"), Yaml::Str(ca.clone())),
        ),
        None => {},
    }
    let ghost dmv = dm@;
    let mut cm: Vec<(String, Yaml)> = Vec::new();
    cm.push((String::from_str("name"), Yaml::Str(c.name.clone())));
    cm.push((String::from_str("cluster"), Yaml::Mapping(dm)));
    proof {
        lemma_view_entries(dmv);
        lemma_view_entries(cm@);
        assert(view_entries(dmv) =~= enc_cluster_details_entries(c.cluster));
        assert(view_entries(cm@) =~= enc_cluster_entries(*c));
    }
    Yaml::Mapping(cm)
}

/// Serializes one user entry.
fn encode_user(u: &User) -> (r: Yaml)
    ensures
        r.view() == enc_user(*u),
{
    let mut am: Vec<(String, Yaml)> = Vec::new();
    match &u.user.auth {
        UserAuth::Token { token } => {
            am.push((String::from_str("token"), Yaml::Str(token.clone())));
        },
        UserAuth::Certificate { client_certificate_data, client_key_data } => {
            am.push(
                (
                    String::from_str("client-certificate-data"),
                    Yaml::Str(client_certificate_data.clone()),
                ),
            );
            am.push((String::from_str("client-key-data"), Yaml::Str(client_key_data.clone())));
        },
    }
    let ghost amv = am@;
    let mut um: Vec<(String, Yaml)> = Vec::new();
    um.push((String::from_str("name"), Yaml::Str(u.name.clone())));
    um.push((String::from_str("user"), Yaml::Mapping(am)));
    proof {
        lemma_view_entries(amv);
        lemma_view_entries(um@);
        assert(view_entries(amv) =~= enc_auth_entries(u.user.auth));
        assert(view_entries(um@) =~= enc_user_entries(*u));
    }
    Yaml::Mapping(um)
}

/// Serializes one context entry.
fn encode_context(c: &Context) -> (r: Yaml)
    ensures
        r.view() == enc_context(*c),
{
    let mut dm: Vec<(String, Yaml)> = Vec::new();
    dm.push((String::from_str("user"), Yaml::Str(c.context.user.clone())));
    dm.push((String::from_str("cluster"), Yaml::Str(c.context.cluster.clone())));
    let ghost dmv = dm@;
    let mut cm: Vec<(String, Yaml)> = Vec::new();
    cm.push((String::from_str("name"), Yaml::Str(c.name.clone())));
    cm.push((String::from_str("context"), Yaml::Mapping(dm)));
    proof {
        lemma_view_entries(dmv);
        lemma_view_entries(cm@);
        assert(view_entries(dmv) =~= enc_context_details_entries(c.context));
        assert(view_entries(cm@) =~= enc_context_entries(*c));
    }
    Yaml::Mapping(cm)
}

/// Serializes the cluster list.
fn encode_clusters(cs: &Vec<Cluster>) -> (r: Yaml)
    ensures
        r.view() == YamlV::List(enc_clusters(cs@)),
{
    let mut out: Vec<Yaml> = Vec::new();
    let mut i: usize = 0;
    while i < cs.len()
        invariant
            i <= cs.len(),
            out@.len() == i,
            forall|j: int| 0 <= j < i ==> (#[trigger] out@[j]).view() == enc_cluster(cs@[j]),
        decreases cs.len() - i,
    {
        out.push(encode_cluster(&cs[i]));
        i += 1;
    }
    proof {
        lemma_view_items(out@);
        assert(view_items(out@) =~= enc_clusters(cs@));
    }
    Yaml::List(out)
}

/// Serializes the user list.
fn encode_users(us: &Vec<User>) -> (r: Yaml)
    ensures
        r.view() == YamlV::List(enc_users(us@)),
{
    let mut out: Vec<Yaml> = Vec::new();
    let mut i: usize = 0;
    while i < us.len()
        invariant
            i <= us.len(),
            out@.len() == i,
            forall|j: int| 0 <= j < i ==> (#[trigger] out@[j]).view() == enc_user(us@[j]),
        decreases us.len() - i,
    {
        out.push(encode_user(&us[i]));
        i += 1;
    }
    proof {
        lemma_view_items(out@);
        assert(view_items(out@) =~= enc_users(us@));
    }
    Yaml::List(out)
}

/// Serializes the context list.
fn encode_contexts(cs: &Vec<Context>) -> (r: Yaml)
    ensures
        r.view() == YamlV::List(enc_contexts(cs@)),
{
    let mut out: Vec<Yaml> = Vec::new();
    let mut i: usize = 0;
    while i < cs.len()
        invariant
            i <= cs.len(),
            out@.len() == i,
            forall|j: int| 0 <= j < i ==> (#[trigger] out@[j]).view() == enc_context(cs@[j]),
        decreases cs.len() - i,
    {
        out.push(encode_context(&cs[i]));
        i += 1;
    }
    proof {
        lemma_view_items(out@);
        assert(view_items(out@) =~= enc_contexts(cs@));
    }
    Yaml::List(out)
}

/// Serializes an edit bundle to a tree.
pub fn encode_bundle(b: &TempConfig) -> (r: Yaml)
    ensures
        r.view() == enc_bundle(*b),
{
    let mut m: Vec<(String, Yaml)> = Vec::new();
    m.push((String::from_str("cluster"), encode_cluster(&b.cluster)));
    let ctx: Yaml = match &b.context {
        Some(c) => encode_context(c),
        None => Yaml::Null,
    };
    m.push((String::from_str("context"), ctx));
    let usr: Yaml = match &b.user {
        Some(u) => encode_user(u),
        None => Yaml::Null,
    };
    m.push((String::from_str("user"), usr));
    proof {
        lemma_view_entries(m@);
        assert(view_entries(m@) =~= enc_bundle_entries(*b));
    }
    Yaml::Mapping(m)
}

/// The blank document handed to the editor when authoring from scratch.
pub fn blank_document() -> (r: Yaml)
    ensures
        r.view() == blank_document_spec(),
{
    let mut m: Vec<(String, Yaml)> = Vec::new();
    m.push((String::from_str("clusters"), Yaml::List(Vec::new())));
    m.push((String::from_str("users"), Yaml::List(Vec::new())));
    m.push((String::from_str("contexts"), Yaml::List(Vec::new())));
    proof {
        lemma_view_entries(m@);
        assert(view_items(Seq::<Yaml>::empty()) =~= Seq::<YamlV>::empty());
        assert(view_entries(m@) =~= blank_document_entries());
    }
    Yaml::Mapping(m)
}

/// A cluster entry the library serializes decodes back to itself: the
/// tree-level half of the edit round-trip for the cluster.
pub proof fn lemma_cluster_codec_inverse(c: Cluster)
    ensures
        cluster_ok(enc_cluster(c)),
        cluster_decodes(enc_cluster(c), c),
{
    reveal_strlit("name");
    reveal_strlit("cluster");
    reveal_strlit("server");
    reveal_strlit("certificate-authority-data");
    assert("name"@.len() == 4 && "cluster"@.len() == 7 && "server"@.len() == 6
        && "certificate-authority-data"@.len() == 26);
    let cm = enc_cluster_entries(c);
    assert(first_at_key(cm, "name"@, 0));
    lemma_lookup_at(cm, "name"@, 0);
    assert(first_at_key(cm, "cluster"@, 1));
    lemma_lookup_at(cm, "cluster"@, 1);
    let dm = enc_cluster_details_entries(c.cluster);
    assert(first_at_key(dm, "server"@, 0));
    lemma_lookup_at(dm, "server"@, 0);
    match c.cluster.certificate_authority_data {
        Some(_) => {
            assert(first_at_key(dm, "certificate-authority-data"@, 1));
            lemma_lookup_at(dm, "certificate-authority-data"@, 1);
        },
        None => {
            lemma_lookup_absent(dm, "certificate-authority-data"@);
        },
    }
}

/// A user entry the library serializes decodes back to itself, whichever
/// credential shape it carries.
pub proof fn lemma_user_codec_inverse(u: User)
    ensures
        user_ok(enc_user(u)),
        user_decodes(enc_user(u), u),
{
    reveal_strlit("name");
    reveal_strlit("user");
    reveal_strlit("token");
    reveal_strlit("client-certificate-data");
    reveal_strlit("client-key-data");
    assert("name"@.len() == 4 && "user"@.len() == 4 && "token"@.len() == 5
        && "client-certificate-data"@.len() == 23 && "client-key-data"@.len() == 15);
    assert("name"@[0] == 'n' && "user"@[0] == 'u');
    assert("name"@ != "user"@);
    let um = enc_user_entries(u);
    assert(first_at_key(um, "name"@, 0));
    lemma_lookup_at(um, "name"@, 0);
    assert(first_at_key(um, "user"@, 1));
    lemma_lookup_at(um, "user"@, 1);
    let am = enc_auth_entries(u.user.auth);
    match u.user.auth {
        UserAuth::Token { .. } => {
            assert(first_at_key(am, "token"@, 0));
            lemma_lookup_at(am, "token"@, 0);
            lemma_lookup_absent(am, "client-certificate-data"@);
            lemma_lookup_absent(am, "client-key-data"@);
        },
        UserAuth::Certificate { .. } => {
            lemma_lookup_absent(am, "token"@);
            assert(first_at_key(am, "client-certificate-data"@, 0));
            lemma_lookup_at(am, "client-certificate-data"@, 0);
            assert(first_at_key(am, "client-key-data"@, 1));
            lemma_lookup_at(am, "client-key-data"@, 1);
        },
    }
}

/// A context entry the library serializes decodes back to itself.
pub proof fn lemma_context_codec_inverse(c: Context)
    ensures
        context_ok(enc_context(c)),
        context_decodes(enc_context(c), c),
{
    reveal_strlit("name");
    reveal_strlit("context");
    reveal_strlit("user");
    reveal_strlit("cluster");
    assert("name"@.len() == 4 && "context"@.len() == 7 && "user"@.len() == 4
        && "cluster"@.len() == 7);
    let cm = enc_context_entries(c);
    assert(first_at_key(cm, "name"@, 0));
    lemma_lookup_at(cm, "name"@, 0);
    assert(first_at_key(cm, "context"@, 1));
    lemma_lookup_at(cm, "context"@, 1);
    let dm = enc_context_details_entries(c.context);
    assert(first_at_key(dm, "user"@, 0));
    lemma_lookup_at(dm, "user"@, 0);
    assert(first_at_key(dm, "cluster"@, 1));
    lemma_lookup_at(dm, "cluster"@, 1);
}

/// The tree a bundle is shown to the editor as decodes back to that very
/// bundle: an edit that changes nothing merges back exactly what was
/// selected.  The textual half of this round-trip belongs to the external
/// text codec and is not stated here.
pub proof fn lemma_bundle_codec_inverse(b: TempConfig)
    ensures
        bundle_ok(enc_bundle(b)),
        bundle_decodes(enc_bundle(b), b),
{
    reveal_strlit("cluster");
    reveal_strlit("context");
    reveal_strlit("user");
    assert("cluster"@.len() == 7 && "context"@.len() == 7 && "user"@.len() == 4);
    assert("cluster"@[1] == 'l' && "context"@[1] == 'o');
    assert("cluster"@ != "context"@);
    let bm = enc_bundle_entries(b);
    assert(first_at_key(bm, "cluster"@, 0));
    lemma_lookup_at(bm, "cluster"@, 0);
    assert(first_at_key(bm, "context"@, 1));
    lemma_lookup_at(bm, "context"@, 1);
    assert(first_at_key(bm, "user"@, 2));
    lemma_lookup_at(bm, "user"@, 2);
    lemma_cluster_codec_inverse(b.cluster);
    match b.context {
        Some(c) => lemma_context_codec_inverse(c),
        None => {},
    }
    match b.user {
        Some(u) => lemma_user_codec_inverse(u),
        None => {},
    }
}

/// The blank document shape is itself a well-formed document, and whatever
/// it decodes to has empty lists, no current context and no preferences.
pub proof fn lemma_blank_document_well_formed(c: Config)
    ensures
        config_ok(blank_document_spec()),
        config_decodes(blank_document_spec(), c) ==> c.clusters@.len() == 0 && c.users@.len()
            == 0 && c.contexts@.len() == 0 && c.current_context is None && c.preferences is None,
{
    reveal_strlit("clusters");
    reveal_strlit("users");
    reveal_strlit("contexts");
    reveal_strlit("current-context");
    reveal_strlit("preferences");
    assert("clusters"@.len() == 8 && "users"@.len() == 5 && "contexts"@.len() == 8
        && "current-context"@.len() == 15 && "preferences"@.len() == 11);
    assert("clusters"@[1] == 'l' && "contexts"@[1] == 'o');
    assert("clusters"@ != "contexts"@);
    let m = blank_document_entries();
    assert(first_at_key(m, "clusters"@, 0));
    lemma_lookup_at(m, "clusters"@, 0);
    assert(first_at_key(m, "users"@, 1));
    lemma_lookup_at(m, "users"@, 1);
    assert(first_at_key(m, "contexts"@, 2));
    lemma_lookup_at(m, "contexts"@, 2);
    lemma_lookup_absent(m, "current-context"@);
    lemma_lookup_absent(m, "preferences"@);
}

/// Serializes an edit bundle to document text for the editor.
pub fn bundle_to_text(b: &TempConfig) -> (r: Option<String>)
    ensures
        crate::yaml::opt_string_view(r) == yaml_emit_spec(enc_bundle(*b)),
{
    yaml_emit(&encode_bundle(b))
}

/// The text of a blank document, handed to the editor when authoring anew.
pub fn blank_document_text() -> (r: Option<String>)
    ensures
        crate::yaml::opt_string_view(r) == yaml_emit_spec(blank_document_spec()),
{
    yaml_emit(&blank_document())
}

/// The entries of a saved document: the managed lists overlaid onto the
/// existing top level, and the two default-only fields set only when absent.
pub open spec fn overlay_entries(
    cl: Seq<Cluster>,
    us: Seq<User>,
    cx: Seq<Context>,
    m: Seq<(Seq<char>, YamlV)>,
) -> Seq<(Seq<char>, YamlV)> {
    let m1 = insert_val(m, "clusters"@, YamlV::List(enc_clusters(cl)));
    let m2 = insert_val(m1, "users"@, YamlV::List(enc_users(us)));
    let m3 = insert_val(m2, "contexts"@, YamlV::List(enc_contexts(cx)));
    let m4 = if has_key(m3, "apiVersion"@) {
        m3
    } else {
        insert_val(m3, "apiVersion"@, YamlV::Str("v1"@))
    };
    if has_key(m4, "kind"@) {
        m4
    } else {
        insert_val(m4, "kind"@, YamlV::Str("Config"@))
    }
}

/// What saving writes: the overlay onto an existing top-level mapping; any
/// other existing tree is written back as it stands.
pub open spec fn overlay_spec(cl: Seq<Cluster>, us: Seq<User>, cx: Seq<Context>, t: YamlV)
    -> YamlV {
    match t {
        YamlV::Mapping(m) => YamlV::Mapping(overlay_entries(cl, us, cx, m)),
        _ => t,
    }
}

/// Overlays the document's managed lists onto the existing on-disk tree.
pub fn save_overlay(config: &Config, existing: Yaml) -> (r: Yaml)
    ensures
        r.view() == overlay_spec(config.clusters@, config.users@, config.contexts@,
            existing.view()),
{
    match existing {
        Yaml::Mapping(mut entries) => {
            let ghost m0 = view_entries(entries@);
            map_insert(&mut entries, String::from_str("clusters"),
                encode_clusters(&config.clusters));
            map_insert(&mut entries, String::from_str("users"), encode_users(&config.users));
            map_insert(&mut entries, String::from_str("contexts"),
                encode_contexts(&config.contexts));
            let api_key = String::from_str("apiVersion");
            if map_get(&entries, &api_key).is_none() {
                map_insert(&mut entries, api_key, Yaml::Str(String::from_str("v1")));
            }
            let kind_key = String::from_str("kind");
            if map_get(&entries, &kind_key).is_none() {
                map_insert(&mut entries, kind_key, Yaml::Str(String::from_str("Config")));
            }
            Yaml::Mapping(entries)
        },
        other => other,
    }
}

/// Parses a document text and decodes it into the typed model; a text that
/// does not parse, or parses to an unexpected shape, is a parse error.
pub fn load_from_str(text: &str) -> (r: Result<Config, ConfigError>)
    ensures
        match yaml_parse_spec(text@) {
            None => r matches Err(e) && e == ConfigError::Parse,
            Some(t) => {
                &&& (config_ok(t) <==> r is Ok)
                &&& (r matches Ok(c) ==> config_decodes(t, c))
                &&& (r matches Err(e) ==> e == ConfigError::Parse)
            },
        },
{
    match yaml_parse(text) {
        Some(y) => decode_config(&y),
        None => Err(ConfigError::Parse),
    }
}

/// Re-reads the existing document text, overlays the managed lists onto it,
/// and serializes the result; the existing text must itself parse to a
/// top-level mapping, so a save never creates a document, never drops an
/// unmodeled field, and never reports success without the lists written.
pub fn save_to_str(config: &Config, existing_text: &str) -> (r: Result<String, ConfigError>)
    ensures
        match yaml_parse_spec(existing_text@) {
            None => r matches Err(e) && e == ConfigError::Parse,
            Some(t) => if t matches YamlV::Mapping(_) {
                match yaml_emit_spec(
                    overlay_spec(config.clusters@, config.users@, config.contexts@, t),
                ) {
                    Some(s) => r matches Ok(out) && out@ == s,
                    None => r matches Err(e) && e == ConfigError::Emit,
                }
            } else {
                r matches Err(e) && e == ConfigError::Parse
            },
        },
{
    match yaml_parse(existing_text) {
        Some(tree) => match tree {
            Yaml::Mapping(_) => {
                let merged = save_overlay(config, tree);
                match yaml_emit(&merged) {
                    Some(s) => Ok(s),
                    None => Err(ConfigError::Emit),
                }
            },
            _ => Err(ConfigError::Parse),
        },
        None => Err(ConfigError::Parse),
    }
}

/// Saving preserves every unmanaged top-level field: any key other than the
/// three managed lists and the two default-only fields keeps its value.
pub proof fn lemma_overlay_preserves_unmanaged(
    cl: Seq<Cluster>,
    us: Seq<User>,
    cx: Seq<Context>,
    m: Seq<(Seq<char>, YamlV)>,
    k: Seq<char>,
)
    requires
        k != "clusters"@,
        k != "users"@,
        k != "contexts"@,
        k != "apiVersion"@,
        k != "kind"@,
    ensures
        lookup(overlay_entries(cl, us, cx, m), k) == lookup(m, k),
{
    let m1 = insert_val(m, "clusters"@, YamlV::List(enc_clusters(cl)));
    let m2 = insert_val(m1, "users"@, YamlV::List(enc_users(us)));
    let m3 = insert_val(m2, "contexts"@, YamlV::List(enc_contexts(cx)));
    lemma_insert_other(m, "clusters"@, YamlV::List(enc_clusters(cl)), k);
    lemma_insert_other(m1, "users"@, YamlV::List(enc_users(us)), k);
    lemma_insert_other(m2, "contexts"@, YamlV::List(enc_contexts(cx)), k);
    let m4 = if has_key(m3, "apiVersion"@) {
        m3
    } else {
        insert_val(m3, "apiVersion"@, YamlV::Str("v1"@))
    };
    if !has_key(m3, "apiVersion"@) {
        lemma_insert_other(m3, "apiVersion"@, YamlV::Str("v1"@), k);
    }
    if !has_key(m4, "kind"@) {
        lemma_insert_other(m4, "kind"@, YamlV::Str("Config"@), k);
    }
}

/// Saving sets the two default-only fields only when they were absent; a
/// present value, whatever it is, is left untouched.
pub proof fn lemma_overlay_defaults(
    cl: Seq<Cluster>,
    us: Seq<User>,
    cx: Seq<Context>,
    m: Seq<(Seq<char>, YamlV)>,
)
    ensures
        has_key(m, "apiVersion"@) ==> lookup(overlay_entries(cl, us, cx, m), "apiVersion"@)
            == lookup(m, "apiVersion"@),
        !has_key(m, "apiVersion"@) ==> lookup(overlay_entries(cl, us, cx, m), "apiVersion"@)
            == Some(YamlV::Str("v1"@)),
        has_key(m, "kind"@) ==> lookup(overlay_entries(cl, us, cx, m), "kind"@) == lookup(
            m,
            "kind"@,
        ),
        !has_key(m, "kind"@) ==> lookup(overlay_entries(cl, us, cx, m), "kind"@) == Some(
            YamlV::Str("Config"@),
        ),
{
    reveal_strlit("clusters");
    reveal_strlit("users");
    reveal_strlit("contexts");
    reveal_strlit("apiVersion");
    reveal_strlit("kind");
    reveal_strlit("v1");
    reveal_strlit("Config");
    let m1 = insert_val(m, "clusters"@, YamlV::List(enc_clusters(cl)));
    let m2 = insert_val(m1, "users"@, YamlV::List(enc_users(us)));
    let m3 = insert_val(m2, "contexts"@, YamlV::List(enc_contexts(cx)));
    assert("clusters"@.len() == 8 && "users"@.len() == 5 && "contexts"@.len() == 8
        && "apiVersion"@.len() == 10 && "kind"@.len() == 4);
    assert("apiVersion"@ != "clusters"@ && "apiVersion"@ != "users"@ && "apiVersion"@
        != "contexts"@ && "apiVersion"@ != "kind"@);
    assert("kind"@ != "clusters"@ && "kind"@ != "users"@ && "kind"@ != "contexts"@);
    lemma_insert_other(m, "clusters"@, YamlV::List(enc_clusters(cl)), "apiVersion"@);
    lemma_insert_other(m1, "users"@, YamlV::List(enc_users(us)), "apiVersion"@);
    lemma_insert_other(m2, "contexts"@, YamlV::List(enc_contexts(cx)), "apiVersion"@);
    lemma_insert_other(m, "clusters"@, YamlV::List(enc_clusters(cl)), "kind"@);
    lemma_insert_other(m1, "users"@, YamlV::List(enc_users(us)), "kind"@);
    lemma_insert_other(m2, "contexts"@, YamlV::List(enc_contexts(cx)), "kind"@);
    let m4 = if has_key(m3, "apiVersion"@) {
        m3
    } else {
        insert_val(m3, "apiVersion"@, YamlV::Str("v1"@))
    };
    if !has_key(m3, "apiVersion"@) {
        lemma_insert_same(m3, "apiVersion"@, YamlV::Str("v1"@));
        lemma_insert_other(m3, "apiVersion"@, YamlV::Str("v1"@), "kind"@);
    }
    if !has_key(m4, "kind"@) {
        lemma_insert_same(m4, "kind"@, YamlV::Str("Config"@));
        lemma_insert_other(m4, "kind"@, YamlV::Str("Config"@), "apiVersion"@);
    }
}

} // verus!
