//! Topic and partition naming.
use vstd::prelude::*;
use vstd::string::*;
use crate::error::{Error, Result};
use crate::text::{
    all_space, any_space, ends_with, first_index, has_pair, is_first_index, is_leading_run, is_space,
    lemma_first_index_unique, lemma_strip_leading, starts_with, str_all_space, str_any_space,
    str_contains_char, str_ends_with_char, str_find_char, str_has_pair, str_leading_run,
    str_starts_with_char, strip_leading,
};

verus! {

/// Why a topic name is refused, in the order the checks are made; `None` for a valid name.
pub open spec fn topic_problem(t: Seq<char>) -> Option<Seq<char>> {
    if t.len() == 0 {
        Some("Topic name cannot be empty"@)
    } else if has_pair(t, '/', '/') {
        Some("Topic name cannot contain '//'"@)
    } else if t.contains('~') {
        Some("Topic name cannot contain '~'"@)
    } else if t.contains('@') {
        Some("Topic name cannot contain '@'"@)
    } else if t.contains(':') {
        Some("Topic name cannot contain ':'"@)
    } else if any_space(t) {
        Some("Topic name cannot contain whitespace"@)
    } else {
        None
    }
}

/// Why a partition name is refused; `None` for a valid name.
pub open spec fn partition_problem(p: Seq<char>) -> Option<Seq<char>> {
    if p.len() == 0 {
        Some("Partition name cannot be empty"@)
    } else if p.contains('@') {
        Some("Partition name cannot contain '@'"@)
    } else {
        None
    }
}

/// The namespace as a prefix: it starts with `/` and ends with `/`.
pub open spec fn namespace_prefix(ns: Seq<char>) -> Seq<char> {
    let a = if ns.len() == 0 {
        seq!['/']
    } else if ns[0] == '/' {
        ns
    } else {
        seq!['/'] + ns
    };
    if ends_with(a, '/') {
        a
    } else {
        a + seq!['/']
    }
}

/// The topic part of a fully qualified name: an absolute topic as it is,
/// a relative one behind the namespace prefix.
pub open spec fn qualified_topic(ns: Seq<char>, topic: Seq<char>) -> Seq<char> {
    if starts_with(topic, '/') {
        topic
    } else {
        namespace_prefix(ns) + topic
    }
}

/// `@/<partition>@<topic part>`.
pub open spec fn fq_name(partition: Seq<char>, ns: Seq<char>, topic: Seq<char>) -> Seq<char> {
    seq!['@', '/'] + partition + seq!['@'] + qualified_topic(ns, topic)
}

/// What `parse_fully_qualified` reads from `f`: the text between the first two `@`,
/// without leading slashes, and the text after the second `@`; neither may be blank.
pub open spec fn parse_fq(f: Seq<char>) -> Option<(Seq<char>, Seq<char>)> {
    if !starts_with(f, '@') {
        None
    } else {
        let rest = f.skip(1);
        if !rest.contains('@') {
            None
        } else {
            let k = first_index(rest, '@');
            let partition = strip_leading(rest.take(k), '/');
            let topic = rest.skip(k + 1);
            if all_space(partition) || all_space(topic) {
                None
            } else {
                Some((partition, topic))
            }
        }
    }
}

/// A topic name is accepted exactly when it is not empty and holds no `//`, no `~`,
/// `@` or `:`, and no white space.
pub proof fn law_topic_accepted(t: Seq<char>)
    ensures
        topic_problem(t) is None <==> (t.len() > 0 && !has_pair(t, '/', '/') && !t.contains('~')
            && !t.contains('@') && !t.contains(':') && !any_space(t)),
{
}

/// A partition name is accepted exactly when it is not empty and holds no `@`.
pub proof fn law_partition_accepted(p: Seq<char>)
    ensures
        partition_problem(p) is None <==> (p.len() > 0 && !p.contains('@')),
{
}

/// Validate a topic name.
pub fn validate_topic(topic: &str) -> (r: Result<()>)
    ensures
        match r {
            Ok(()) => topic_problem(topic@) is None,
            Err(e) => topic_problem(topic@) is Some && (e matches Error::InvalidTopicName { reason }
                && reason@ == topic_problem(topic@)->0),
        },
{
    let n: usize = topic.unicode_len();
    if n == 0 {
        return Err(Error::InvalidTopicName { reason: String::from_str("Topic name cannot be empty") });
    }
    if str_has_pair(topic, '/', '/') {
        return Err(Error::InvalidTopicName { reason: String::from_str("Topic name cannot contain '//'") });
    }
    if str_contains_char(topic, '~') {
        return Err(Error::InvalidTopicName { reason: String::from_str("Topic name cannot contain '~'") });
    }
    if str_contains_char(topic, '@') {
        return Err(Error::InvalidTopicName { reason: String::from_str("Topic name cannot contain '@'") });
    }
    if str_contains_char(topic, ':') {
        return Err(Error::InvalidTopicName { reason: String::from_str("Topic name cannot contain ':'") });
    }
    if str_any_space(topic) {
        return Err(Error::InvalidTopicName { reason: String::from_str("Topic name cannot contain whitespace") });
    }
    Ok(())
}

/// Validate a partition name.
pub fn validate_partition(partition: &str) -> (r: Result<()>)
    ensures
        match r {
            Ok(()) => partition_problem(partition@) is None,
            Err(e) => partition_problem(partition@) is Some && (e matches Error::InvalidPartition { reason }
                && reason@ == partition_problem(partition@)->0),
        },
{
    let n: usize = partition.unicode_len();
    if n == 0 {
        return Err(Error::InvalidPartition { reason: String::from_str("Partition name cannot be empty") });
    }
    if str_contains_char(partition, '@') {
        return Err(Error::InvalidPartition { reason: String::from_str("Partition name cannot contain '@'") });
    }
    Ok(())
}

/// Build a fully qualified topic name.
///
/// Format: `@/<partition>@<namespace>/<topic>`. A topic that starts with `/` is
/// absolute and the namespace is skipped.
pub fn fully_qualified_name(partition: &str, namespace: &str, topic: &str) -> (r: String)
    ensures
        r@ == fq_name(partition@, namespace@, topic@),
{
    proof {
        reveal_strlit("/");
        reveal_strlit("@/");
        reveal_strlit("@");
    }
    let mut full = String::new();
    if str_starts_with_char(topic, '/') {
        full.append(topic);
    } else {
        let mut ns = String::new();
        if namespace.unicode_len() == 0 {
            ns.append("/");
        } else if str_starts_with_char(namespace, '/') {
            ns.append(namespace);
        } else {
            ns.append("/");
            ns.append(namespace);
        }
        if !str_ends_with_char(ns.as_str(), '/') {
            ns.append("/");
        }
        assert(ns@ == namespace_prefix(namespace@));
        full.append(ns.as_str());
        full.append(topic);
    }
    assert(full@ == qualified_topic(namespace@, topic@));
    let mut r = String::from_str("@/");
    r.append(partition);
    r.append("@");
    r.append(full.as_str());
    r
}

/// Parse a fully qualified topic name into (partition, topic).
///
/// Handles both `@partition@topic` and `@/partition@topic`.
pub fn parse_fully_qualified(fqn: &str) -> (r: Option<(String, String)>)
    ensures
        match r {
            Some((p, t)) => parse_fq(fqn@) == Some((p@, t@)),
            None => parse_fq(fqn@) is None,
        },
{
    let n: usize = fqn.unicode_len();
    if !str_starts_with_char(fqn, '@') {
        return None;
    }
    let rest = fqn.substring_char(1, n);
    assert(rest@ == fqn@.skip(1));
    let k = match str_find_char(rest, '@') {
        Some(k) => k,
        None => {
            return None;
        },
    };
    let rest_len: usize = n - 1;
    let raw = rest.substring_char(0, k);
    assert(raw@ == rest@.take(k as int));
    let run: usize = str_leading_run(raw, '/');
    let partition = raw.substring_char(run, k);
    assert(partition@ == raw@.skip(run as int));
    let topic = rest.substring_char(k + 1, rest_len);
    assert(topic@ == rest@.skip(k + 1));
    if str_all_space(partition) || str_all_space(topic) {
        return None;
    }
    Some((partition.to_owned(), topic.to_owned()))
}

/// A name built by `fully_qualified_name` is read back by `parse_fully_qualified`
/// as the same partition and the topic part: for every partition that contains
/// no `@`, does not start with `/` and is not blank.
pub proof fn lemma_parse_of_fully_qualified(partition: Seq<char>, ns: Seq<char>, topic: Seq<char>)
    requires
        !partition.contains('@'),
        !starts_with(partition, '/'),
        !all_space(partition),
    ensures
        parse_fq(fq_name(partition, ns, topic)) == Some((partition, qualified_topic(ns, topic))),
{
    let f = fq_name(partition, ns, topic);
    let q = qualified_topic(ns, topic);
    let rest = f.skip(1);
    let lp = partition.len() as int;
    assert(rest =~= seq!['/'] + partition + seq!['@'] + q);
    assert(rest[lp + 1] == '@');
    assert forall|j: int| 0 <= j < lp + 1 implies #[trigger] rest[j] != '@' by {
        if j > 0 {
            assert(rest[j] == partition[j - 1]);
        }
    }
    assert(is_first_index(rest, '@', lp + 1));
    assert(rest.contains('@'));
    lemma_first_index_unique(rest, '@', lp + 1);
    let raw = rest.take(lp + 1);
    assert(raw =~= seq!['/'] + partition);
    assert(partition.len() > 0);
    assert(raw[1] == partition[0]);
    assert(is_leading_run(raw, '/', 1));
    lemma_strip_leading(raw, '/', 1);
    assert(raw.skip(1) =~= partition);
    assert(rest.skip(lp + 2) =~= q);
    assert(starts_with(q, '/')) by {
        let a = if ns.len() == 0 {
            seq!['/']
        } else if ns[0] == '/' {
            ns
        } else {
            seq!['/'] + ns
        };
        assert(a[0] == '/');
    }
    assert(!is_space(q[0]));
}

} // verus!
