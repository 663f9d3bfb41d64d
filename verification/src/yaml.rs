//! Decoding structured-config text into the configuration model. The
//! generic document parser is an outside collaborator; it hands back a
//! document tree of plain values, named `doc_of` over the text. The shape
//! rules — which fields a document must carry, of which kind, and exactly
//! which configuration a document denotes — are this module's own logic,
//! verified over that tree.

use vstd::prelude::*;
use vstd::string::StrSliceExecFns;
use crate::types::{
    Ac, Application, ApplicationModel, Env, Log, LogModel, Nacos, NacosConfig, NacosModel,
    Profiles, Rotation, views_of,
};

verus! {

/// One node of a parsed document, as plain values. `Other` stands for any
/// node of a kind the configuration model does not carry (a float, a
/// negative integer, a tagged value).
pub enum Node {
    Null,
    Bool(bool),
    Int(u64),
    Str(String),
    List(Vec<Node>),
    Mapping(Vec<(Node, Node)>),
    Other,
}

#[verifier::external_type_specification]
#[verifier::external_body]
pub struct ExYamlValue(serde_yaml::Value);

#[verifier::external_type_specification]
#[verifier::external_body]
pub struct ExYamlError(serde_yaml::Error);

/// The document tree a text denotes: `Some` exactly for well-formed
/// documents. The parser's outcome depends on the text alone.
pub uninterp spec fn doc_of(s: Seq<char>) -> Option<Node>;

/// Relies on serde_yaml::Value's variants: each converts to the matching
/// document node, one arm per variant, moving the content; integers are
/// read through serde_yaml::Number::as_u64, and kinds the model does not
/// carry become `Other`.
#[verifier::external_body]
fn to_node(v: serde_yaml::Value) -> (r: Node) {
    match v {
        serde_yaml::Value::Null => Node::Null,
        serde_yaml::Value::Bool(b) => Node::Bool(b),
        serde_yaml::Value::Number(n) => match n.as_u64() {
            Some(u) => Node::Int(u),
            None => Node::Other,
        },
        serde_yaml::Value::String(s) => Node::Str(s),
        serde_yaml::Value::Sequence(items) => Node::List(items.into_iter().map(to_node).collect()),
        serde_yaml::Value::Mapping(m) => Node::Mapping(
            m.into_iter().map(|(k, v)| (to_node(k), to_node(v))).collect(),
        ),
        serde_yaml::Value::Tagged(_) => Node::Other,
    }
}

/// Relies on serde_yaml::from_str::<Value>: every well-formed document
/// parses, parsing is a function of the text alone, and the parsed value
/// converts to the document tree that `doc_of` names.
#[verifier::external_body]
fn parse_document(s: &str) -> (r: Result<Node, serde_yaml::Error>)
    ensures
        r matches Ok(doc) ==> doc_of(s@) == Some(doc),
        r is Ok <==> doc_of(s@) is Some,
{
    match serde_yaml::from_str::<serde_yaml::Value>(s) {
        Ok(v) => Ok(to_node(v)),
        Err(e) => Err(e),
    }
}

/// Why a payload failed to decode into the configuration model.
#[derive(Clone, Copy, PartialEq, Eq, Structural, Debug)]
pub enum DecodeError {
    /// The text is not a well-formed document.
    Syntax,
    /// A required field is missing or holds the wrong kind of value.
    Shape,
}

/// The value of the first entry whose key is the string `key`.
pub open spec fn spec_lookup(entries: Seq<(Node, Node)>, key: Seq<char>) -> Option<Node>
    decreases entries.len(),
{
    if entries.len() == 0 {
        None
    } else {
        match entries[0].0 {
            Node::Str(k) => if k@ == key {
                Some(entries[0].1)
            } else {
                spec_lookup(entries.skip(1), key)
            },
            _ => spec_lookup(entries.skip(1), key),
        }
    }
}

/// The value under `key` when the node is a mapping, `None` otherwise.
pub open spec fn spec_field(n: Node, key: Seq<char>) -> Option<Node> {
    match n {
        Node::Mapping(entries) => spec_lookup(entries@, key),
        _ => None,
    }
}

/// The content of a string node.
pub open spec fn spec_str_value(n: Node) -> Option<Seq<char>> {
    match n {
        Node::Str(s) => Some(s@),
        _ => None,
    }
}

/// The string content under `key`.
pub open spec fn spec_str_field(n: Node, key: Seq<char>) -> Option<Seq<char>> {
    match spec_field(n, key) {
        Some(f) => spec_str_value(f),
        None => None,
    }
}

/// The unsigned integer content under `key`.
pub open spec fn spec_int_field(n: Node, key: Seq<char>) -> Option<u64> {
    match spec_field(n, key) {
        Some(Node::Int(v)) => Some(v),
        _ => None,
    }
}

/// Every element of the list is a string node.
pub open spec fn all_strings(items: Seq<Node>) -> bool {
    forall|i: int| 0 <= i < items.len() ==> items[i] is Str
}

/// The string contents of a list of string nodes, in order.
pub open spec fn string_views(items: Seq<Node>) -> Seq<Seq<char>> {
    Seq::new(
        items.len(),
        |i: int|
            match items[i] {
                Node::Str(s) => s@,
                _ => Seq::<char>::empty(),
            },
    )
}

/// The list of strings a node denotes: the node must be a list and every
/// element a string.
pub open spec fn spec_string_list(n: Node) -> Option<Seq<Seq<char>>> {
    match n {
        Node::List(items) => if all_strings(items@) {
            Some(string_views(items@))
        } else {
            None
        },
        _ => None,
    }
}

/// The logging policy a node denotes: four required string fields, the
/// rotation name mapped by its exact document spelling.
pub open spec fn spec_log_model(n: Node) -> Option<LogModel> {
    match (
        spec_str_field(n, "level"@),
        spec_str_field(n, "path"@),
        spec_str_field(n, "rotation"@),
        spec_str_field(n, "file-name-prefix"@),
    ) {
        (Some(level), Some(path), Some(rotation_name), Some(prefix)) => match rotation_of(
            rotation_name,
        ) {
            Some(rotation) => Some(
                LogModel { level, path, rotation, file_name_prefix: prefix },
            ),
            None => None,
        },
        _ => None,
    }
}

/// The application configuration a node denotes: every field required, the
/// integers range-checked, the host lists all strings.
pub open spec fn spec_application_model(n: Node) -> Option<ApplicationModel> {
    match (
        spec_int_field(n, "shutdown-timeout"@),
        spec_int_field(n, "workers"@),
        spec_field(n, "hosts"@),
        spec_field(n, "hosts-v6"@),
        spec_int_field(n, "port"@),
        spec_field(n, "log"@),
    ) {
        (
            Some(shutdown_timeout),
            Some(workers_raw),
            Some(hosts_node),
            Some(hosts_v6_node),
            Some(port_raw),
            Some(log_node),
        ) => match (
            spec_string_list(hosts_node),
            spec_string_list(hosts_v6_node),
            spec_log_model(log_node),
        ) {
            (Some(hosts), Some(hosts_v6), Some(log)) => if workers_raw <= usize::MAX && port_raw
                <= u16::MAX {
                Some(
                    ApplicationModel {
                        shutdown_timeout,
                        workers: workers_raw as usize,
                        hosts,
                        hosts_v6,
                        port: port_raw as u16,
                        log,
                    },
                )
            } else {
                None
            },
            _ => None,
        },
        _ => None,
    }
}

/// The active environment name a document denotes.
pub open spec fn spec_env_active(doc: Node) -> Option<Seq<char>> {
    match spec_field(doc, "profiles"@) {
        Some(p) => spec_str_field(p, "active"@),
        None => None,
    }
}

/// The registry connection properties a document denotes. The group is
/// optional, but a present group must be a string.
pub open spec fn spec_nacos_model(doc: Node) -> Option<NacosModel> {
    match spec_field(doc, "nacos"@) {
        Some(n) => match (
            spec_str_field(n, "server-addr"@),
            spec_str_field(n, "namespace"@),
            spec_str_field(n, "data-id"@),
        ) {
            (Some(server_addr), Some(namespace), Some(data_id)) => match spec_field(n, "group"@) {
                None => Some(NacosModel { server_addr, namespace, group: None, data_id }),
                Some(g) => match g {
                    Node::Str(s) => Some(
                        NacosModel { server_addr, namespace, group: Some(s@), data_id },
                    ),
                    _ => None,
                },
            },
            _ => None,
        },
        None => None,
    }
}

/// What decoding a base profile descriptor from `s` gives: the active
/// environment name, or exactly which error.
pub open spec fn spec_decode_env(s: Seq<char>) -> Result<Seq<char>, DecodeError> {
    match doc_of(s) {
        None => Err(DecodeError::Syntax),
        Some(doc) => match spec_env_active(doc) {
            Some(active) => Ok(active),
            None => Err(DecodeError::Shape),
        },
    }
}

/// What decoding an environment-specific profile descriptor from `s` gives.
pub open spec fn spec_decode_nacos(s: Seq<char>) -> Result<NacosModel, DecodeError> {
    match doc_of(s) {
        None => Err(DecodeError::Syntax),
        Some(doc) => match spec_nacos_model(doc) {
            Some(m) => Ok(m),
            None => Err(DecodeError::Shape),
        },
    }
}

/// What decoding a remote payload from `s` gives: the full application
/// configuration under the `application` key, or exactly which error.
pub open spec fn spec_decode_ac(s: Seq<char>) -> Result<ApplicationModel, DecodeError> {
    match doc_of(s) {
        None => Err(DecodeError::Syntax),
        Some(doc) => match spec_field(doc, "application"@) {
            Some(n) => match spec_application_model(n) {
                Some(m) => Ok(m),
                None => Err(DecodeError::Shape),
            },
            None => Err(DecodeError::Shape),
        },
    }
}

fn str_is(s: &str, w: &str) -> (b: bool)
    ensures
        b == (s@ == w@),
{
    let n = s.unicode_len();
    if n != w.unicode_len() {
        return false;
    }
    let mut i: usize = 0;
    while i < n
        invariant
            n == s@.len(),
            n == w@.len(),
            i <= n,
            forall|j: int| 0 <= j < i ==> s@[j] == w@[j],
        decreases n - i,
    {
        if s.get_char(i) != w.get_char(i) {
            return false;
        }
        i = i + 1;
    }
    proof {
        assert(s@ =~= w@);
    }
    true
}

#[verifier::loop_isolation(false)]
fn field<'a>(n: &'a Node, key: &str) -> (r: Option<&'a Node>)
    ensures
        match r {
            Some(f) => spec_field(*n, key@) == Some(*f),
            None => spec_field(*n, key@) is None,
        },
{
    match n {
        Node::Mapping(entries) => {
            let m = entries.len();
            let mut i: usize = 0;
            proof {
                assert(entries@.skip(0) =~= entries@);
            }
            while i < m
                invariant
                    i <= m,
                    m == entries@.len(),
                    spec_lookup(entries@, key@) == spec_lookup(entries@.skip(i as int), key@),
                decreases m - i,
            {
                let ghost suffix = entries@.skip(i as int);
                proof {
                    assert(suffix[0] == entries@[i as int]);
                    assert(suffix.skip(1) =~= entries@.skip(i as int + 1));
                }
                match &entries[i].0 {
                    Node::Str(k) => {
                        if str_is(k.as_str(), key) {
                            proof {
                                assert(spec_lookup(suffix, key@) == Some(suffix[0].1));
                            }
                            return Some(&entries[i].1);
                        }
                    },
                    _ => {},
                }
                i = i + 1;
            }
            proof {
                assert(entries@.skip(m as int) =~= Seq::<(Node, Node)>::empty());
            }
            None
        },
        _ => None,
    }
}

fn str_value(n: &Node) -> (r: Option<String>)
    ensures
        match *n {
            Node::Str(s) => r == Some(s),
            _ => r is None,
        },
{
    match n {
        Node::Str(s) => Some(s.clone()),
        _ => None,
    }
}

fn field_str(n: &Node, key: &str) -> (r: Option<String>)
    ensures
        match r {
            Some(s) => spec_str_field(*n, key@) == Some(s@),
            None => spec_str_field(*n, key@) is None,
        },
{
    match field(n, key) {
        Some(f) => str_value(f),
        None => None,
    }
}

fn field_u64(n: &Node, key: &str) -> (r: Option<u64>)
    ensures
        r == spec_int_field(*n, key@),
{
    match field(n, key) {
        Some(f) => match f {
            Node::Int(v) => Some(*v),
            _ => None,
        },
        None => None,
    }
}

#[verifier::loop_isolation(false)]
fn string_list(n: &Node) -> (r: Option<Vec<String>>)
    ensures
        r is Some <==> spec_string_list(*n) is Some,
        r matches Some(v) ==> spec_string_list(*n) == Some(views_of(v@)),
{
    match n {
        Node::List(items) => {
            let m = items.len();
            let mut out: Vec<String> = Vec::new();
            let mut i: usize = 0;
            while i < m
                invariant
                    i <= m,
                    m == items@.len(),
                    out@.len() == i as int,
                    forall|j: int| 0 <= j < i ==> items@[j] is Str,
                    forall|j: int|
                        0 <= j < i ==> ((#[trigger] items@[j]) matches Node::Str(s) && out@[j]
                            == s),
                decreases m - i,
            {
                match &items[i] {
                    Node::Str(s) => out.push(s.clone()),
                    _ => {
                        proof {
                            assert(!(items@[i as int] is Str));
                            assert(!all_strings(items@));
                        }
                        return None;
                    },
                }
                i = i + 1;
            }
            proof {
                assert(views_of(out@) =~= string_views(items@));
            }
            Some(out)
        },
        _ => None,
    }
}

/// The rotation policy a name denotes; names follow the document spelling
/// exactly.
pub open spec fn rotation_of(s: Seq<char>) -> Option<Rotation> {
    if s == "hourly"@ {
        Some(Rotation::Hourly)
    } else if s == "daily"@ {
        Some(Rotation::Daily)
    } else if s == "never"@ {
        Some(Rotation::Never)
    } else {
        None
    }
}

/// Maps a rotation name to the rotation policy; an unknown name is a
/// shape error, not a default.
pub fn rotation_from_str(s: &str) -> (r: Option<Rotation>)
    ensures
        r == rotation_of(s@),
{
    proof {
        reveal_strlit("hourly");
        reveal_strlit("daily");
        reveal_strlit("never");
    }
    if str_is(s, "hourly") {
        Some(Rotation::Hourly)
    } else if str_is(s, "daily") {
        Some(Rotation::Daily)
    } else if str_is(s, "never") {
        Some(Rotation::Never)
    } else {
        None
    }
}

/// A payload carries the listen port as a plain integer; it is accepted
/// only when it fits a TCP port.
pub fn port_value(v: u64) -> (r: Option<u16>)
    ensures
        v <= u16::MAX ==> r == Some(v as u16),
        v > u16::MAX ==> r is None,
{
    if v <= u16::MAX as u64 {
        Some(v as u16)
    } else {
        None
    }
}

/// A payload carries the worker count as a plain integer; it is accepted
/// only when it fits this machine's word size.
pub fn worker_count(v: u64) -> (r: Option<usize>)
    ensures
        v <= usize::MAX ==> r == Some(v as usize),
        v > usize::MAX ==> r is None,
{
    if v <= usize::MAX as u64 {
        Some(v as usize)
    } else {
        None
    }
}

fn decode_log_node(n: &Node) -> (r: Option<Log>)
    ensures
        r is Some <==> spec_log_model(*n) is Some,
        r matches Some(log) ==> spec_log_model(*n) == Some(log.model()),
{
    let level = match field_str(n, "level") {
        Some(s) => s,
        None => {
            return None;
        },
    };
    let path = match field_str(n, "path") {
        Some(s) => s,
        None => {
            return None;
        },
    };
    let rotation_name = match field_str(n, "rotation") {
        Some(s) => s,
        None => {
            return None;
        },
    };
    let rotation = match rotation_from_str(rotation_name.as_str()) {
        Some(r) => r,
        None => {
            return None;
        },
    };
    let file_name_prefix = match field_str(n, "file-name-prefix") {
        Some(s) => s,
        None => {
            return None;
        },
    };
    Some(Log { level, path, rotation, file_name_prefix })
}

fn decode_application_node(n: &Node) -> (r: Option<Application>)
    ensures
        r is Some <==> spec_application_model(*n) is Some,
        r matches Some(application) ==> spec_application_model(*n) == Some(application.model()),
{
    let shutdown_timeout = match field_u64(n, "shutdown-timeout") {
        Some(v) => v,
        None => {
            return None;
        },
    };
    let workers_raw = match field_u64(n, "workers") {
        Some(v) => v,
        None => {
            return None;
        },
    };
    let hosts = match field(n, "hosts") {
        Some(node) => match string_list(node) {
            Some(list) => list,
            None => {
                return None;
            },
        },
        None => {
            return None;
        },
    };
    let hosts_v6 = match field(n, "hosts-v6") {
        Some(node) => match string_list(node) {
            Some(list) => list,
            None => {
                return None;
            },
        },
        None => {
            return None;
        },
    };
    let port_raw = match field_u64(n, "port") {
        Some(v) => v,
        None => {
            return None;
        },
    };
    let log = match field(n, "log") {
        Some(node) => match decode_log_node(node) {
            Some(l) => l,
            None => {
                return None;
            },
        },
        None => {
            return None;
        },
    };
    let workers = match worker_count(workers_raw) {
        Some(v) => v,
        None => {
            return None;
        },
    };
    let port = match port_value(port_raw) {
        Some(p) => p,
        None => {
            return None;
        },
    };
    Some(Application { shutdown_timeout, workers, hosts, hosts_v6, port, log })
}

/// Decodes a remote payload into the application configuration: exactly
/// the configuration the document denotes, whole, or exactly the error
/// `spec_decode_ac` gives. A partially populated configuration is never
/// returned.
pub fn decode_ac(text: &str) -> (r: Result<Ac, DecodeError>)
    ensures
        r is Ok <==> spec_decode_ac(text@) is Ok,
        r matches Ok(ac) ==> spec_decode_ac(text@) == Ok::<ApplicationModel, DecodeError>(
            ac.application.model(),
        ),
        r matches Err(e) ==> spec_decode_ac(text@) == Err::<ApplicationModel, DecodeError>(e),
{
    let doc = match parse_document(text) {
        Ok(doc) => doc,
        Err(_) => {
            return Err(DecodeError::Syntax);
        },
    };
    let application = match field(&doc, "application") {
        Some(node) => match decode_application_node(node) {
            Some(a) => a,
            None => {
                return Err(DecodeError::Shape);
            },
        },
        None => {
            return Err(DecodeError::Shape);
        },
    };
    Ok(Ac { application })
}

/// Decodes the base profile descriptor: exactly the active environment
/// name the document holds, or exactly the error `spec_decode_env` gives.
pub fn decode_env(text: &str) -> (r: Result<Env, DecodeError>)
    ensures
        r is Ok <==> spec_decode_env(text@) is Ok,
        r matches Ok(env) ==> spec_decode_env(text@) == Ok::<Seq<char>, DecodeError>(
            env.profiles.active@,
        ),
        r matches Err(e) ==> spec_decode_env(text@) == Err::<Seq<char>, DecodeError>(e),
{
    let doc = match parse_document(text) {
        Ok(doc) => doc,
        Err(_) => {
            return Err(DecodeError::Syntax);
        },
    };
    let active = match field(&doc, "profiles") {
        Some(p) => match field_str(p, "active") {
            Some(active) => active,
            None => {
                return Err(DecodeError::Shape);
            },
        },
        None => {
            return Err(DecodeError::Shape);
        },
    };
    Ok(Env { profiles: Profiles { active } })
}

/// Decodes the environment-specific profile descriptor: exactly the
/// connection properties the document holds, or exactly the error
/// `spec_decode_nacos` gives. A present group that is not a string is a
/// shape error, not a fallback.
pub fn decode_nacos(text: &str) -> (r: Result<Nacos, DecodeError>)
    ensures
        r is Ok <==> spec_decode_nacos(text@) is Ok,
        r matches Ok(n) ==> spec_decode_nacos(text@) == Ok::<NacosModel, DecodeError>(
            n.nacos.model(),
        ),
        r matches Err(e) ==> spec_decode_nacos(text@) == Err::<NacosModel, DecodeError>(e),
{
    let doc = match parse_document(text) {
        Ok(doc) => doc,
        Err(_) => {
            return Err(DecodeError::Syntax);
        },
    };
    let node = match field(&doc, "nacos") {
        Some(node) => node,
        None => {
            return Err(DecodeError::Shape);
        },
    };
    let server_addr = match field_str(node, "server-addr") {
        Some(s) => s,
        None => {
            return Err(DecodeError::Shape);
        },
    };
    let namespace = match field_str(node, "namespace") {
        Some(s) => s,
        None => {
            return Err(DecodeError::Shape);
        },
    };
    let data_id = match field_str(node, "data-id") {
        Some(s) => s,
        None => {
            return Err(DecodeError::Shape);
        },
    };
    let group = match field(node, "group") {
        Some(g) => match str_value(g) {
            Some(s) => Some(s),
            None => {
                return Err(DecodeError::Shape);
            },
        },
        None => None,
    };
    Ok(Nacos { nacos: NacosConfig { server_addr, namespace, group, data_id } })
}

} // verus!
