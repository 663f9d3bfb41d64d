//! Profile resolution: which environment is active, which file describes it,
//! and how the configuration key's placeholder token is substituted with the
//! active environment name before the first fetch.

use vstd::prelude::*;
use vstd::string::StrSliceExecFns;
use vstd::string::StringExecFns;
use crate::bootstrap::Fault;
use crate::types::{Env, Nacos, NacosConfig, NacosModel};
use crate::yaml::{decode_env, decode_nacos, spec_decode_env, spec_decode_nacos, DecodeError};

verus! {

/// A placeholder token `{}` starts at position `i` of `s`.
pub open spec fn has_token_at(s: Seq<char>, i: int) -> bool {
    0 <= i && i + 2 <= s.len() && s[i] == '{' && s[i + 1] == '}'
}

/// `s` contains no placeholder token.
pub open spec fn token_free(s: Seq<char>) -> bool {
    forall|i: int| !has_token_at(s, i)
}

/// `s` contains no brace at all; environment names are expected to be
/// brace-free.
pub open spec fn brace_free(s: Seq<char>) -> bool {
    forall|i: int| 0 <= i < s.len() ==> s[i] != '{' && s[i] != '}'
}

/// The key with every placeholder token replaced by `active`, scanning
/// left to right without overlap.
pub open spec fn resolved(key: Seq<char>, active: Seq<char>) -> Seq<char>
    decreases key.len(),
{
    if key.len() < 2 {
        key
    } else if key[0] == '{' && key[1] == '}' {
        active + resolved(key.skip(2), active)
    } else {
        key.take(1) + resolved(key.skip(1), active)
    }
}

proof fn lemma_token_free_concat(a: Seq<char>, b: Seq<char>)
    requires
        token_free(a),
        token_free(b),
        !(a.len() > 0 && b.len() > 0 && a[a.len() - 1] == '{' && b[0] == '}'),
    ensures
        token_free(a + b),
{
    assert forall|i: int| !has_token_at(a + b, i) by {
        if 0 <= i && i + 2 <= a.len() + b.len() {
            if i + 2 <= a.len() {
                assert(!has_token_at(a, i));
            } else if i >= a.len() {
                assert(!has_token_at(b, i - a.len()));
                assert((a + b)[i] == b[i - a.len()]);
                assert((a + b)[i + 1] == b[i + 1 - a.len()]);
            } else {
                assert(i == a.len() - 1);
                assert((a + b)[i] == a[i]);
                assert((a + b)[i + 1] == b[0]);
            }
        }
    }
}

proof fn lemma_resolved_shape(key: Seq<char>, active: Seq<char>)
    requires
        active.len() > 0,
        brace_free(active),
    ensures
        token_free(resolved(key, active)),
        resolved(key, active).len() > 0 ==> key.len() > 0 && (resolved(key, active)[0]
            == key[0] || resolved(key, active)[0] == active[0]),
    decreases key.len(),
{
    let r = resolved(key, active);
    if key.len() < 2 {
        assert forall|i: int| !has_token_at(r, i) by {}
    } else if key[0] == '{' && key[1] == '}' {
        lemma_resolved_shape(key.skip(2), active);
        let rest = resolved(key.skip(2), active);
        assert forall|i: int| !has_token_at(active, i) by {}
        assert(active[active.len() - 1] != '{');
        lemma_token_free_concat(active, rest);
        assert(r[0] == active[0]);
    } else {
        lemma_resolved_shape(key.skip(1), active);
        let rest = resolved(key.skip(1), active);
        let head = key.take(1);
        assert forall|i: int| !has_token_at(head, i) by {}
        if rest.len() > 0 && key[0] == '{' {
            assert(key.skip(1)[0] == key[1]);
            assert(key[1] != '}');
            assert(rest[0] != '}');
        }
        lemma_token_free_concat(head, rest);
        assert(r[0] == key[0]);
    }
}

/// Law: substituting a non-empty, brace-free environment name into a key
/// leaves no placeholder token in the resulting key.
pub proof fn lemma_resolve_leaves_no_token(key: Seq<char>, active: Seq<char>)
    requires
        active.len() > 0,
        brace_free(active),
    ensures
        token_free(resolved(key, active)),
{
    lemma_resolved_shape(key, active);
}

proof fn lemma_resolved_of_token_free(key: Seq<char>, active: Seq<char>)
    requires
        token_free(key),
    ensures
        resolved(key, active) == key,
    decreases key.len(),
{
    if key.len() < 2 {
    } else {
        assert(!has_token_at(key, 0));
        assert forall|j: int| !has_token_at(key.skip(1), j) by {
            if has_token_at(key.skip(1), j) {
                assert(key.skip(1)[j] == key[j + 1]);
                assert(key.skip(1)[j + 1] == key[j + 2]);
                assert(has_token_at(key, j + 1));
            }
        }
        lemma_resolved_of_token_free(key.skip(1), active);
        assert(key.take(1) + key.skip(1) =~= key);
    }
}

/// Law: resolution is idempotent — substituting into an already-resolved
/// key is a no-op, because the token no longer appears.
pub proof fn lemma_resolve_idempotent(key: Seq<char>, active: Seq<char>)
    requires
        active.len() > 0,
        brace_free(active),
    ensures
        resolved(resolved(key, active), active) == resolved(key, active),
{
    lemma_resolved_shape(key, active);
    lemma_resolved_of_token_free(resolved(key, active), active);
}

/// Law: a key holding exactly one placeholder token has that token replaced
/// exactly once — the resolved key is the text before the token, then the
/// environment name, then the text after the token.
pub proof fn lemma_resolve_single_token(key: Seq<char>, active: Seq<char>, p: int)
    requires
        has_token_at(key, p),
        forall|j: int| j != p ==> !has_token_at(key, j),
    ensures
        resolved(key, active) == key.take(p) + active + key.skip(p + 2),
    decreases key.len(),
{
    if p == 0 {
        assert forall|j: int| !has_token_at(key.skip(2), j) by {
            if has_token_at(key.skip(2), j) {
                assert(key.skip(2)[j] == key[j + 2]);
                assert(key.skip(2)[j + 1] == key[j + 3]);
                assert(has_token_at(key, j + 2));
            }
        }
        lemma_resolved_of_token_free(key.skip(2), active);
        assert(key.take(0) + active + key.skip(2) =~= active + key.skip(2));
    } else {
        assert(!has_token_at(key, 0));
        assert(key.skip(1)[p - 1] == key[p]);
        assert(key.skip(1)[p] == key[p + 1]);
        assert(has_token_at(key.skip(1), p - 1));
        assert forall|j: int| j != p - 1 implies !has_token_at(key.skip(1), j) by {
            if has_token_at(key.skip(1), j) {
                assert(key.skip(1)[j] == key[j + 1]);
                assert(key.skip(1)[j + 1] == key[j + 2]);
                assert(has_token_at(key, j + 1));
            }
        }
        lemma_resolve_single_token(key.skip(1), active, p - 1);
        assert(key.take(1) + (key.skip(1).take(p - 1) + active + key.skip(1).skip(p + 1))
            =~= key.take(p) + active + key.skip(p + 2));
    }
}

/// Substitutes every placeholder token in `key` with `active`, scanning
/// left to right.
pub fn resolve_key(key: &str, active: &str) -> (r: String)
    ensures
        r@ == resolved(key@, active@),
{
    let n = key.unicode_len();
    let mut out = String::new();
    let mut i: usize = 0;
    proof {
        assert(key@.skip(0) =~= key@);
        assert(out@ + resolved(key@, active@) =~= resolved(key@, active@));
    }
    while i < n
        invariant
            n == key@.len(),
            i <= n,
            out@ + resolved(key@.skip(i as int), active@) == resolved(key@, active@),
        decreases n - i,
    {
        let ghost prev = out@;
        let ghost s = key@.skip(i as int);
        if i + 1 < n && key.get_char(i) == '{' && key.get_char(i + 1) == '}' {
            proof {
                assert(s[0] == key@[i as int]);
                assert(s[1] == key@[i as int + 1]);
                assert(s.skip(2) =~= key@.skip(i as int + 2));
            }
            out.append(active);
            proof {
                assert(out@ + resolved(key@.skip(i as int + 2), active@) =~= prev + (active@
                    + resolved(s.skip(2), active@)));
            }
            i = i + 2;
        } else {
            let c = key.substring_char(i, i + 1);
            out.append(c);
            proof {
                assert(c@ =~= key@.subrange(i as int, i as int + 1));
                if s.len() < 2 {
                    assert(s =~= c@);
                    assert(key@.skip(i as int + 1) =~= Seq::<char>::empty());
                    assert(out@ + resolved(key@.skip(i as int + 1), active@) =~= prev + s);
                } else {
                    assert(s[0] == key@[i as int]);
                    assert(s[1] == key@[i as int + 1]);
                    assert(s.take(1) =~= c@);
                    assert(s.skip(1) =~= key@.skip(i as int + 1));
                    assert(out@ + resolved(key@.skip(i as int + 1), active@) =~= prev + (s.take(1)
                        + resolved(s.skip(1), active@)));
                }
            }
            i = i + 1;
        }
    }
    proof {
        assert(key@.skip(n as int) =~= Seq::<char>::empty());
        assert(out@ + Seq::<char>::empty() =~= out@);
    }
    out
}

/// The file name of the environment-specific profile descriptor,
/// `application-<active>.yaml`.
pub fn active_profile_path(active: &str) -> (r: String)
    ensures
        r@ == "application-"@ + active@ + ".yaml"@,
{
    String::from_str("application-").concat(active).concat(".yaml")
}

/// The well-known file name of the base profile descriptor.
pub fn profile_path() -> (r: String)
    ensures
        r@ == "application.yaml"@,
{
    String::from_str("application.yaml")
}

/// Decodes the base profile descriptor read from the well-known profile
/// file: the active environment name is exactly what the file holds, and
/// any file that does not decode whole is a fatal load fault — the process
/// must not proceed on a partial or default profile.
pub fn get_application_profile(text: &str) -> (r: Result<Env, Fault>)
    ensures
        r is Ok <==> spec_decode_env(text@) is Ok,
        r matches Ok(env) ==> spec_decode_env(text@) == Ok::<Seq<char>, DecodeError>(
            env.profiles.active@,
        ),
        r matches Err(f) ==> f == Fault::ConfigLoad,
{
    match decode_env(text) {
        Ok(env) => Ok(env),
        Err(_) => Err(Fault::ConfigLoad),
    }
}

/// Decodes the environment-specific profile descriptor, read from the
/// file that `active_profile_path` names: the connection properties are
/// exactly what the file holds, and any failure is a fatal load fault.
pub fn get_application_profile_active(text: &str) -> (r: Result<Nacos, Fault>)
    ensures
        r is Ok <==> spec_decode_nacos(text@) is Ok,
        r matches Ok(n) ==> spec_decode_nacos(text@) == Ok::<NacosModel, DecodeError>(
            n.nacos.model(),
        ),
        r matches Err(f) ==> f == Fault::ConfigLoad,
{
    match decode_nacos(text) {
        Ok(nacos) => Ok(nacos),
        Err(_) => Err(Fault::ConfigLoad),
    }
}

/// The registry's documented default group, used when the profile names
/// no group of its own.
pub fn default_group() -> (r: String)
    ensures
        r@ == "DEFAULT_GROUP"@,
{
    String::from_str("DEFAULT_GROUP")
}

/// The group a fetch uses: the configured one where the profile names one,
/// the registry's default group otherwise.
pub fn resolve_group(group: Option<String>) -> (r: String)
    ensures
        match group {
            Some(g) => r@ == g@,
            None => r@ == "DEFAULT_GROUP"@,
        },
{
    match group {
        Some(g) => g,
        None => default_group(),
    }
}

/// Substitutes the active environment name into the connection config's
/// `data_id`, leaving every other field as it was. This happens once,
/// before the first fetch uses the key.
pub fn resolve_data_id(conf: &mut NacosConfig, active: &str)
    ensures
        final(conf).data_id@ == resolved(old(conf).data_id@, active@),
        final(conf).server_addr == old(conf).server_addr,
        final(conf).namespace == old(conf).namespace,
        final(conf).group == old(conf).group,
{
    let key = resolve_key(conf.data_id.as_str(), active);
    conf.data_id = key;
}

} // verus!
