use vstd::prelude::*;

use crate::sysauth_client::NssSocketAddress;

verus! {

/// The `to` fields of those entries whose `from` field is exactly `netloc`,
/// in the order of the entries.
pub open spec fn override_targets(entries: Seq<NssSocketAddress>, netloc: Seq<char>) -> Seq<
    Seq<char>,
>
    decreases entries.len(),
{
    if entries.len() == 0 {
        Seq::empty()
    } else {
        let earlier = override_targets(entries.drop_last(), netloc);
        if entries.last().from@ == netloc {
            earlier.push(entries.last().to@)
        } else {
            earlier
        }
    }
}

/// The values held by the `Some` elements of `parsed`, in order.
pub open spec fn parsed_values<A>(parsed: Seq<Option<A>>) -> Seq<A>
    decreases parsed.len(),
{
    if parsed.len() == 0 {
        Seq::empty()
    } else {
        let earlier = parsed_values(parsed.drop_last());
        match parsed.last() {
            Some(a) => earlier.push(a),
            None => earlier,
        }
    }
}

/// Views of a vector of strings.
pub open spec fn string_views(v: Seq<String>) -> Seq<Seq<char>> {
    v.map_values(|s: String| s@)
}

/// The override targets for `netloc` are exactly the `to` fields of the
/// entries whose `from` field equals `netloc` as text, in the entries' order:
/// no other entry contributes, and none that matches is left out.
pub proof fn lemma_override_targets_exact(entries: Seq<NssSocketAddress>, netloc: Seq<char>)
    ensures
        override_targets(entries, netloc) == entries.filter(
            |e: NssSocketAddress| e.from@ == netloc,
        ).map_values(|e: NssSocketAddress| e.to@),
        forall|t: Seq<char>|
            override_targets(entries, netloc).contains(t) <==> exists|i: int|
                0 <= i < entries.len() && entries[i].from@ == netloc && entries[i].to@ == t,
    decreases entries.len(),
{
    let pred = |e: NssSocketAddress| e.from@ == netloc;
    let to_of = |e: NssSocketAddress| e.to@;
    reveal(Seq::filter);
    if entries.len() > 0 {
        let earlier = entries.drop_last();
        lemma_override_targets_exact(earlier, netloc);
        assert(earlier.filter(pred).push(entries.last()).map_values(to_of) =~= earlier.filter(
            pred,
        ).map_values(to_of).push(entries.last().to@));
        let r = override_targets(entries, netloc);
        assert forall|t: Seq<char>|
            r.contains(t) implies exists|i: int|
                0 <= i < entries.len() && entries[i].from@ == netloc && entries[i].to@ == t by {
            let j = choose|j: int| 0 <= j < r.len() && r[j] == t;
            if j < override_targets(earlier, netloc).len() {
                assert(override_targets(earlier, netloc).contains(t));
                let i = choose|i: int|
                    0 <= i < earlier.len() && earlier[i].from@ == netloc && earlier[i].to@ == t;
                assert(entries[i] == earlier[i]);
            } else {
                assert(entries[entries.len() - 1] == entries.last());
            }
        }
        assert forall|t: Seq<char>|
            (exists|i: int|
                0 <= i < entries.len() && entries[i].from@ == netloc && entries[i].to@
                    == t) implies r.contains(t) by {
            let i = choose|i: int|
                0 <= i < entries.len() && entries[i].from@ == netloc && entries[i].to@ == t;
            if i < entries.len() - 1 {
                assert(earlier[i] == entries[i]);
                assert(override_targets(earlier, netloc).contains(t));
                let j = choose|j: int|
                    0 <= j < override_targets(earlier, netloc).len() && override_targets(
                        earlier,
                        netloc,
                    )[j] == t;
                assert(r[j] == t);
            } else {
                assert(r[r.len() - 1] == t);
            }
        }
    } else {
        assert(entries.filter(pred).map_values(to_of) =~= Seq::<Seq<char>>::empty());
    }
}

/// Resolution keeps exactly the addresses that parsed, in order, and drops
/// those that did not: a value is kept if and only if some element held it.
pub proof fn lemma_parsed_values_exact<A>(parsed: Seq<Option<A>>)
    ensures
        parsed_values(parsed) == parsed.filter(|o: Option<A>| o is Some).map_values(
            |o: Option<A>| o.unwrap(),
        ),
        forall|a: A| parsed_values(parsed).contains(a) <==> parsed.contains(Some(a)),
    decreases parsed.len(),
{
    let pred = |o: Option<A>| o is Some;
    let inner = |o: Option<A>| o.unwrap();
    reveal(Seq::filter);
    if parsed.len() > 0 {
        let earlier = parsed.drop_last();
        lemma_parsed_values_exact(earlier);
        let r = parsed_values(parsed);
        let r0 = parsed_values(earlier);
        match parsed.last() {
            Some(x) => {
                assert(earlier.filter(pred).push(parsed.last()).map_values(inner) =~= earlier.filter(
                    pred,
                ).map_values(inner).push(x));
                assert(r == r0.push(x));
            },
            None => {
                assert(r == r0);
            },
        }
        assert(forall|j: int| 0 <= j < r0.len() ==> r[j] == r0[j]);
        assert(parsed.last() is Some ==> r.len() == r0.len() + 1 && r[r.len() - 1]
            == parsed.last().unwrap());
        assert forall|a: A| r.contains(a) implies parsed.contains(Some(a)) by {
            let j = choose|j: int| 0 <= j < r.len() && r[j] == a;
            if j < parsed_values(earlier).len() {
                assert(parsed_values(earlier).contains(a));
                let i = choose|i: int| 0 <= i < earlier.len() && earlier[i] == Some(a);
                assert(parsed[i] == earlier[i]);
            } else {
                assert(parsed[parsed.len() - 1] == parsed.last());
                assert(parsed.last() == Some(a));
            }
        }
        assert forall|a: A| parsed.contains(Some(a)) implies r.contains(a) by {
            let i = choose|i: int| 0 <= i < parsed.len() && parsed[i] == Some(a);
            if i < parsed.len() - 1 {
                assert(earlier[i] == parsed[i]);
                assert(earlier.contains(Some(a)));
                assert(r0.contains(a));
                let j = choose|j: int|
                    0 <= j < parsed_values(earlier).len() && parsed_values(earlier)[j] == a;
                assert(r[j] == r0[j]);
            } else {
                assert(parsed.last() == Some(a));
                assert(r[r.len() - 1] == a);
            }
        }
    } else {
        assert(parsed.filter(pred).map_values(inner) =~= Seq::<A>::empty());
    }
}

/// A name resolver that answers only from the configured override table.
#[derive(Debug, PartialEq, Eq)]
pub struct NssDnsResolver {
    pub nss_socket_addresses: Vec<NssSocketAddress>,
}

impl NssDnsResolver {
    /// A resolver over the given override table.
    pub fn new(nss_socket_addresses: Vec<NssSocketAddress>) -> (r: NssDnsResolver)
        ensures
            r.nss_socket_addresses == nss_socket_addresses,
    {
        NssDnsResolver { nss_socket_addresses }
    }

    /// The target addresses configured for `netloc`, matched by exact string
    /// equality, not yet parsed.
    pub fn resolve_targets(&self, netloc: &str) -> (r: Vec<String>)
        ensures
            string_views(r@) == override_targets(self.nss_socket_addresses@, netloc@),
    {
        let key = String::from_str(netloc);
        let mut targets: Vec<String> = Vec::new();
        let n = self.nss_socket_addresses.len();
        let mut i: usize = 0;
        while i < n
            invariant
                n == self.nss_socket_addresses@.len(),
                i <= n,
                key@ == netloc@,
                string_views(targets@) == override_targets(
                    self.nss_socket_addresses@.subrange(0, i as int),
                    netloc@,
                ),
            decreases n - i,
        {
            let item = &self.nss_socket_addresses[i];
            let ghost before = targets@;
            if item.from == key {
                targets.push(item.to.clone());
                assert(string_views(targets@) =~= string_views(before).push(item.to@));
            }
            assert(self.nss_socket_addresses@.subrange(0, i + 1).drop_last()
                =~= self.nss_socket_addresses@.subrange(0, i as int));
            i = i + 1;
        }
        assert(self.nss_socket_addresses@.subrange(0, n as int) =~= self.nss_socket_addresses@);
        targets
    }

    /// Keeps the addresses that parsed, in order; those that did not are
    /// dropped without failing the resolution.
    pub fn keep_parsed<A>(parsed: Vec<Option<A>>) -> (r: Vec<A>)
        ensures
            r@ == parsed_values(parsed@),
    {
        let mut out: Vec<A> = Vec::new();
        let mut rest = parsed;
        let ghost all = rest@;
        let n = rest.len();
        let mut i: usize = 0;
        while i < n
            invariant
                n == all.len(),
                i <= n,
                rest@ == all.subrange(i as int, n as int),
                out@ == parsed_values(all.subrange(0, i as int)),
            decreases n - i,
        {
            let item = rest.remove(0);
            assert(all.subrange(0, i + 1).drop_last() =~= all.subrange(0, i as int));
            assert(rest@ =~= all.subrange(i + 1, n as int));
            match item {
                Some(a) => out.push(a),
                None => {},
            }
            i = i + 1;
        }
        assert(all.subrange(0, n as int) =~= all);
        out
    }
}

} // verus!
