//! Node-level decisions: which publishers a subscriber connects to.
use vstd::prelude::*;
use vstd::string::*;
use crate::discovery::registry::{PublisherInfo, TopicInfo};
use crate::error::{Error, Result};

verus! {

/// Some publisher of `pubs` has address `a`.
pub open spec fn has_address(pubs: Seq<PublisherInfo>, a: Seq<char>) -> bool {
    exists|i: int| 0 <= i < pubs.len() && #[trigger] pubs[i].address@ == a
}

/// Some string of `v` has text `a`.
pub open spec fn has_text(v: Seq<String>, a: Seq<char>) -> bool {
    exists|k: int| 0 <= k < v.len() && #[trigger] v[k]@ == a
}

/// No two strings of `v` have the same text.
pub open spec fn distinct_texts(v: Seq<String>) -> bool {
    forall|i: int, j: int| 0 <= i < v.len() && 0 <= j < v.len() && i != j ==> #[trigger] v[i]@ != #[trigger] v[j]@
}

/// A topic to subscribe to needs at least one publisher.
pub fn check_publishers(info: &TopicInfo, topic: &str) -> (r: Result<()>)
    ensures
        match r {
            Ok(()) => info.publishers@.len() > 0,
            Err(e) => info.publishers@.len() == 0 && (e matches Error::NoPublishers(t) && t@ == topic@),
        },
{
    if info.publishers.len() == 0 {
        return Err(Error::NoPublishers(topic.to_owned()));
    }
    Ok(())
}

/// The addresses a subscriber connects to: each publisher address once.
pub fn connect_addresses(publishers: &Vec<PublisherInfo>) -> (r: Vec<String>)
    ensures
        distinct_texts(r@),
        forall|a: Seq<char>| has_address(publishers@, a) <==> #[trigger] has_text(r@, a),
{
    let n: usize = publishers.len();
    let mut out: Vec<String> = Vec::new();
    let mut i: usize = 0;
    while i < n
        invariant
            n == publishers@.len(),
            i <= n,
            distinct_texts(out@),
            forall|a: Seq<char>|
                has_address(publishers@.take(i as int), a) <==> #[trigger] has_text(out@, a),
        decreases n - i,
    {
        let addr = &publishers[i].address;
        let mut seen = false;
        let mut j: usize = 0;
        while j < out.len()
            invariant
                j <= out@.len(),
                seen ==> has_text(out@, addr@),
                !seen ==> forall|k: int| 0 <= k < j ==> #[trigger] out@[k]@ != addr@,
            decreases out@.len() - j,
        {
            if out[j] == *addr {
                seen = true;
            }
            j = j + 1;
        }
        let ghost before = out@;
        proof {
            assert(publishers@.take(i + 1) =~= publishers@.take(i as int).push(publishers@[i as int]));
            assert forall|a: Seq<char>| #[trigger] has_address(publishers@.take(i + 1), a) <==> (has_address(
                publishers@.take(i as int),
                a,
            ) || a == addr@) by {
                let t = publishers@.take(i + 1);
                if has_address(t, a) {
                    let k = choose|k: int| 0 <= k < t.len() && #[trigger] t[k].address@ == a;
                    if k < i {
                        assert(publishers@.take(i as int)[k] == t[k]);
                    }
                }
                if has_address(publishers@.take(i as int), a) {
                    let k = choose|k: int| 0 <= k < i && #[trigger] publishers@.take(i as int)[k].address@ == a;
                    assert(t[k] == publishers@.take(i as int)[k]);
                }
                if a == addr@ {
                    assert(t[i as int].address@ == a);
                }
            }
        }
        if !seen {
            out.push(addr.clone());
            proof {
                assert forall|a: Seq<char>| #[trigger] has_text(out@, a) <==> (has_text(before, a) || a == addr@) by {
                    if has_text(out@, a) {
                        let k = choose|k: int| 0 <= k < out@.len() && #[trigger] out@[k]@ == a;
                        if k < before.len() {
                            assert(before[k] == out@[k]);
                        }
                    }
                    if has_text(before, a) {
                        let k = choose|k: int| 0 <= k < before.len() && #[trigger] before[k]@ == a;
                        assert(before[k] == out@[k]);
                    }
                    if a == addr@ {
                        assert(out@[before.len() as int]@ == a);
                    }
                }
                assert forall|x: int, y: int| 0 <= x < out@.len() && 0 <= y < out@.len() && x != y implies #[trigger] out@[x]@ != #[trigger] out@[y]@ by {
                    if x < before.len() && y < before.len() {
                        assert(before[x] == out@[x] && before[y] == out@[y]);
                    } else if x < before.len() {
                        assert(before[x] == out@[x]);
                    } else {
                        assert(before[y] == out@[y]);
                    }
                }
            }
        }
        i = i + 1;
    }
    assert(publishers@.take(n as int) =~= publishers@);
    out
}

} // verus!
