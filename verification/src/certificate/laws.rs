//! What holds of certificates, of their names and of their keys.
use vstd::prelude::*;

use super::seal;
use super::seal::SealingKeyView;
use super::validate;
use super::validate::AlternativeNamesView;
use super::work;
use super::CertificateBundleView;
use crate::outcome;
use crate::text;

verus! {

/// The number that bytes stand for, the highest first.
pub open spec fn number_of(bytes: Seq<u8>) -> nat
    decreases bytes.len(),
{
    if bytes.len() == 0 {
        0
    } else {
        number_of(bytes.drop_last()) * 256 + bytes.last() as nat
    }
}

/// A length is written as eight bytes that stand for it, the highest first.
pub proof fn lemma_length_is_written_highest_first(value: u64)
    ensures
        super::be8(value).len() == 8,
        number_of(super::be8(value)) == value,
{
    let x = super::be8(value);
    reveal_with_fuel(number_of, 9);
    assert(x.drop_last().drop_last().drop_last().drop_last().drop_last().drop_last().drop_last()
        =~= seq![x[0]]);
    assert(x.drop_last().drop_last().drop_last().drop_last().drop_last().drop_last() =~= seq![
        x[0],
        x[1],
    ]);
    assert(x.drop_last().drop_last().drop_last().drop_last().drop_last() =~= seq![
        x[0],
        x[1],
        x[2],
    ]);
    assert(x.drop_last().drop_last().drop_last().drop_last() =~= seq![x[0], x[1], x[2], x[3]]);
    assert(x.drop_last().drop_last().drop_last() =~= seq![x[0], x[1], x[2], x[3], x[4]]);
    assert(x.drop_last().drop_last() =~= seq![x[0], x[1], x[2], x[3], x[4], x[5]]);
    assert(x.drop_last() =~= seq![x[0], x[1], x[2], x[3], x[4], x[5], x[6]]);
    assert(value == (((((((((value >> 56) as u8) * 256 + ((value >> 48) as u8)) * 256 + ((value
        >> 40) as u8)) * 256 + ((value >> 32) as u8)) * 256 + ((value >> 24) as u8)) * 256 + ((
    value >> 16) as u8)) * 256 + ((value >> 8) as u8)) * 256 + (value as u8))) by (bit_vector);
}

/// A length is written as four bytes that stand for it, the highest first.
pub proof fn lemma_short_length_is_written_highest_first(value: u32)
    ensures
        seal::be4(value).len() == 4,
        number_of(seal::be4(value)) == value,
{
    let x = seal::be4(value);
    reveal_with_fuel(number_of, 5);
    assert(x.drop_last().drop_last().drop_last() =~= seq![x[0]]);
    assert(x.drop_last().drop_last() =~= seq![x[0], x[1]]);
    assert(x.drop_last() =~= seq![x[0], x[1], x[2]]);
    assert(value == ((((value >> 24) as u8) * 256 + ((value >> 16) as u8)) * 256 + ((value >> 8)
        as u8)) * 256 + (value as u8)) by (bit_vector);
}

proof fn lemma_framed_front(chain: Seq<Seq<u8>>)
    requires
        chain.len() > 0,
    ensures
        super::framed(chain) == super::be8(chain[0].len() as u64) + chain[0] + super::framed(
            chain.skip(1),
        ),
    decreases chain.len(),
{
    let rest = chain.skip(1);
    let before = chain.drop_last();
    if chain.len() == 1 {
        assert(before =~= Seq::empty());
        assert(rest =~= Seq::empty());
        assert(super::framed(chain) =~= super::be8(chain[0].len() as u64) + chain[0]
            + super::framed(rest));
    } else {
        lemma_framed_front(before);
        assert(before.skip(1) =~= rest.drop_last());
        assert(rest.last() == chain.last());
        assert(super::framed(chain) =~= super::be8(chain[0].len() as u64) + chain[0]
            + super::framed(rest));
    }
}

proof fn lemma_digestible_rest(chain: Seq<Seq<u8>>)
    requires
        chain.len() > 0,
        super::digestible(chain),
    ensures
        super::digestible(chain.skip(1)),
        chain[0].len() <= u64::MAX,
{
    lemma_framed_front(chain);
}

/// The bytes of a chain tell the chain: two chains that differ have other bytes.
pub proof fn lemma_bytes_tell_the_chain(a: Seq<Seq<u8>>, b: Seq<Seq<u8>>)
    requires
        super::digestible(a),
        super::digestible(b),
        super::framed(a) == super::framed(b),
    ensures
        a == b,
    decreases a.len(),
{
    if a.len() == 0 || b.len() == 0 {
        if a.len() > 0 {
            lemma_framed_front(a);
        }
        if b.len() > 0 {
            lemma_framed_front(b);
        }
        assert(a =~= b);
    } else {
        lemma_framed_front(a);
        lemma_framed_front(b);
        lemma_digestible_rest(a);
        lemma_digestible_rest(b);
        let x = super::framed(a);
        let y = super::framed(b);
        lemma_length_is_written_highest_first(a[0].len() as u64);
        lemma_length_is_written_highest_first(b[0].len() as u64);
        assert(x.take(8) =~= super::be8(a[0].len() as u64));
        assert(y.take(8) =~= super::be8(b[0].len() as u64));
        assert(a[0].len() == b[0].len());
        assert(x.subrange(8, 8 + a[0].len() as int) =~= a[0]);
        assert(y.subrange(8, 8 + b[0].len() as int) =~= b[0]);
        assert(x.skip(8 + a[0].len() as int) =~= super::framed(a.skip(1)));
        assert(y.skip(8 + b[0].len() as int) =~= super::framed(b.skip(1)));
        lemma_bytes_tell_the_chain(a.skip(1), b.skip(1));
        assert(a =~= seq![a[0]] + a.skip(1));
        assert(b =~= seq![b[0]] + b.skip(1));
    }
}

/// Whether a certificate is read whole and is valid at a time.
pub open spec fn is_current(der: Seq<u8>, now_unix_millis: i64) -> bool {
    let facts = validate::facts_of(der, (now_unix_millis / 1000) as i64);
    &&& facts is Some
    &&& facts->0.trailing == 0
    &&& facts->0.current
    &&& (now_unix_millis < facts->0.not_after * 1000 && now_unix_millis < i64::MAX)
}

/// Whether a certificate was issued and signed by another.
pub open spec fn is_issued_by(der: Seq<u8>, issuer: Seq<u8>, now_unix_millis: i64) -> bool {
    let secs = (now_unix_millis / 1000) as i64;
    &&& validate::facts_of(der, secs)->0.issuer == validate::facts_of(issuer, secs)->0.subject
    &&& validate::signed_by(der, issuer)
}

/// Whether a chain and its key are in order: every certificate is current, each is
/// issued by the one behind it, the last one signed itself if it says so, the leaf is
/// that of a TLS server, and the key is the leaf's.
pub open spec fn is_in_order(bundle: CertificateBundleView, now_unix_millis: i64) -> bool {
    let chain = bundle.chain_der;
    let last = chain[chain.len() - 1];
    let secs = (now_unix_millis / 1000) as i64;
    &&& 0 <= now_unix_millis
    &&& secs <= 253_402_300_799
    &&& chain.len() > 0
    &&& forall|i: int| 0 <= i < chain.len() ==> is_current(#[trigger] chain[i], now_unix_millis)
    &&& forall|i: int|
        0 <= i < chain.len() - 1 ==> is_issued_by(
            #[trigger] chain[i],
            chain[i + 1],
            now_unix_millis,
        )
    &&& (validate::facts_of(last, secs)->0.issuer == validate::facts_of(last, secs)->0.subject
        ==> validate::signed_by(last, last))
    &&& validate::is_end_entity(chain[0])
    &&& validate::is_anchor(last)
    &&& validate::serves(
        chain[0],
        if chain.len() > 1 {
            chain.subrange(1, chain.len() - 1)
        } else {
            Seq::empty()
        },
        last,
        now_unix_millis as u64,
    )
    &&& validate::certified_key(chain, bundle.private_key_pkcs8_der) == Some(true)
}

proof fn lemma_chain_problem(bundle: CertificateBundleView, now_unix_millis: i64)
    ensures
        is_in_order(bundle, now_unix_millis) <==> validate::chain_problem(
            bundle.chain_der,
            now_unix_millis,
        ) is None && validate::trust_problem(
            validate::is_end_entity(bundle.chain_der[0]),
            validate::is_anchor(bundle.chain_der.last()),
            validate::serves(
                bundle.chain_der[0],
                validate::intermediates(bundle.chain_der),
                bundle.chain_der.last(),
                now_unix_millis as u64,
            ),
        ) is None && validate::key_problem(
            validate::certified_key(bundle.chain_der, bundle.private_key_pkcs8_der),
        ) is None,
{
    let chain = bundle.chain_der;
    let secs = (now_unix_millis / 1000) as i64;
    if 0 <= now_unix_millis && secs <= 253_402_300_799 {
        let problems = validate::certificate_problems(chain, now_unix_millis);
        outcome::lemma_no_first_problem(problems, 0);
        assert forall|i: int| 0 <= i < chain.len() implies (#[trigger] problems[i]) is None
            == is_current(chain[i], now_unix_millis) by {}
        if forall|i: int| 0 <= i < chain.len() ==> is_current(
            #[trigger] chain[i],
            now_unix_millis,
        ) {
            assert(outcome::first_problem(problems, 0) is None);
        } else {
            let i = choose|i: int|
                0 <= i < chain.len() && !is_current(#[trigger] chain[i], now_unix_millis);
            assert(problems[i] is Some);
        }
        if chain.len() > 0 {
            let links = validate::link_problems(chain, secs);
            let facts = validate::chain_facts(chain, secs);
            outcome::lemma_no_first_problem(links, 0);
            assert forall|i: int| 0 <= i < links.len() implies (#[trigger] links[i]) is None
                == is_issued_by(chain[i], chain[i + 1], now_unix_millis) by {
                assert(facts[i] == validate::facts_of(chain[i], secs)->0);
                assert(facts[i + 1] == validate::facts_of(chain[i + 1], secs)->0);
            }
            if outcome::first_problem(links, 0) is None {
                assert forall|i: int| 0 <= i < chain.len() - 1 implies is_issued_by(
                    #[trigger] chain[i],
                    chain[i + 1],
                    now_unix_millis,
                ) by {
                    assert(links[i] is None);
                }
            } else {
                let i = choose|i: int| 0 <= i < links.len() && (#[trigger] links[i]) is Some;
                assert(!is_issued_by(chain[i], chain[i + 1], now_unix_millis));
            }
            assert(facts.last() == validate::facts_of(chain.last(), secs)->0);
        }
    }
}

/// A chain and its key are accepted only if they are in order, and what is said of them
/// is what the certificates say: the digest of the leaf and its names, and as beginning
/// and end those of some certificate of the chain.
pub proof fn lemma_accepted_chain_is_in_order(
    bundle: CertificateBundleView,
    now_unix_millis: i64,
)
    requires
        validate::validated(bundle, now_unix_millis) is Ok,
    ensures
        is_in_order(bundle, now_unix_millis),
        ({
            let chain = bundle.chain_der;
            let secs = (now_unix_millis / 1000) as i64;
            let accepted = validate::validated(bundle, now_unix_millis)->Ok_0;
            &&& accepted.leaf_sha256 == validate::sha256_of(chain[0])
            &&& validate::dns_names_of(validate::alternative_names_of(chain[0])) == Ok::<
                Seq<Seq<char>>,
                Seq<char>,
            >(accepted.dns_names)
            &&& exists|i: int|
                0 <= i < chain.len() && accepted.not_before_unix_millis == validate::facts_of(
                    #[trigger] chain[i],
                    secs,
                )->0.not_before * 1000
            &&& exists|i: int|
                0 <= i < chain.len() && accepted.not_after_unix_millis == validate::facts_of(
                    #[trigger] chain[i],
                    secs,
                )->0.not_after * 1000
        }),
{
    lemma_chain_problem(bundle, now_unix_millis);
    let chain = bundle.chain_der;
    let secs = (now_unix_millis / 1000) as i64;
    let facts = validate::chain_facts(chain, secs);
    validate::lemma_latest_beginning(facts);
    validate::lemma_earliest_end(facts);
    let i = choose|i: int|
        0 <= i < facts.len() && (#[trigger] facts[i]).not_before == validate::latest_beginning(
            facts,
        );
    assert(facts[i] == validate::facts_of(chain[i], secs)->0);
    let j = choose|j: int|
        0 <= j < facts.len() && (#[trigger] facts[j]).not_after == validate::earliest_end(facts);
    assert(facts[j] == validate::facts_of(chain[j], secs)->0);
}

/// A chain and its key that are in order are accepted, if the leaf names its hosts and
/// the times of the chain can be told in milliseconds.
pub proof fn lemma_chain_in_order_is_accepted(
    bundle: CertificateBundleView,
    now_unix_millis: i64,
)
    requires
        is_in_order(bundle, now_unix_millis),
        validate::dns_names_of(validate::alternative_names_of(bundle.chain_der[0])) is Ok,
        forall|i: int|
            0 <= i < bundle.chain_der.len() ==> i64::MIN <= validate::facts_of(
                #[trigger] bundle.chain_der[i],
                (now_unix_millis / 1000) as i64,
            )->0.not_before * 1000 <= i64::MAX && validate::facts_of(
                bundle.chain_der[i],
                (now_unix_millis / 1000) as i64,
            )->0.not_after * 1000 <= i64::MAX,
    ensures
        validate::validated(bundle, now_unix_millis) is Ok,
{
    lemma_chain_problem(bundle, now_unix_millis);
    let chain = bundle.chain_der;
    let secs = (now_unix_millis / 1000) as i64;
    let facts = validate::chain_facts(chain, secs);
    validate::lemma_latest_beginning(facts);
    validate::lemma_earliest_end(facts);
    let i = choose|i: int|
        0 <= i < facts.len() && (#[trigger] facts[i]).not_before == validate::latest_beginning(
            facts,
        );
    assert(facts[i] == validate::facts_of(chain[i], secs)->0);
    let j = choose|j: int|
        0 <= j < facts.len() && (#[trigger] facts[j]).not_after == validate::earliest_end(facts);
    assert(facts[j] == validate::facts_of(chain[j], secs)->0);
    assert(is_current(chain[i], now_unix_millis));
    assert(is_current(chain[j], now_unix_millis));
}

/// A name of a certificate is kept in lower case and else as it is.
pub proof fn lemma_name_is_kept_in_lower_case(name: Seq<char>)
    ensures
        validate::canonical_dns_name(name) matches Ok(kept) ==> kept == text::ascii_lower(name),
{
    reveal_strlit("*.");
    if validate::canonical_dns_name(name) is Ok && text::has_prefix(name, "*."@) {
        assert(name =~= "*."@ + name.skip(2));
        assert(name[0] == name.take(2)[0] && name[1] == name.take(2)[1]);
        assert(text::ascii_lower(name) =~= "*."@ + text::ascii_lower(name.skip(2)));
    }
}

/// The names of a certificate are those that it lists, in lower case: each listed one is
/// among them, and nothing else is.
pub proof fn lemma_names_are_those_that_are_listed(names: Seq<Option<Seq<char>>>)
    requires
        validate::dns_names_of(AlternativeNamesView::Names(names)) is Ok,
    ensures
        ({
            let found = validate::dns_names_of(AlternativeNamesView::Names(names))->Ok_0;
            &&& forall|i: int|
                0 <= i < names.len() && (#[trigger] names[i]) is Some ==> found.contains(
                    text::ascii_lower(names[i]->0),
                )
            &&& forall|k: int|
                0 <= k < found.len() ==> exists|i: int|
                    0 <= i < names.len() && (#[trigger] names[i]) is Some && text::ascii_lower(
                        names[i]->0,
                    ) == #[trigger] found[k]
        }),
{
    lemma_listed(names);
}

proof fn lemma_listed(names: Seq<Option<Seq<char>>>)
    ensures
        validate::canonical_dns_names(names) matches Ok(found) ==> {
            &&& forall|i: int|
                0 <= i < names.len() && (#[trigger] names[i]) is Some ==> found.contains(
                    text::ascii_lower(names[i]->0),
                )
            &&& forall|k: int|
                0 <= k < found.len() ==> exists|i: int|
                    0 <= i < names.len() && (#[trigger] names[i]) is Some && text::ascii_lower(
                        names[i]->0,
                    ) == #[trigger] found[k]
        },
    decreases names.len(),
{
    if names.len() > 0 && validate::canonical_dns_names(names) is Ok {
        let before = names.drop_last();
        lemma_listed(before);
        let earlier = validate::canonical_dns_names(before)->Ok_0;
        let found = validate::canonical_dns_names(names)->Ok_0;
        if names.last() is Some {
            lemma_name_is_kept_in_lower_case(names.last()->0);
        }
        assert forall|i: int|
            0 <= i < names.len() && (#[trigger] names[i]) is Some implies found.contains(
            text::ascii_lower(names[i]->0),
        ) by {
            let wanted = text::ascii_lower(names[i]->0);
            if i < before.len() {
                assert(before[i] == names[i]);
                let k = choose|k: int| 0 <= k < earlier.len() && earlier[k] == wanted;
                assert(found[k] == wanted);
            } else if !earlier.contains(wanted) {
                assert(found[found.len() - 1] == wanted);
            }
        }
        assert forall|k: int| 0 <= k < found.len() implies exists|i: int|
            0 <= i < names.len() && (#[trigger] names[i]) is Some && text::ascii_lower(
                names[i]->0,
            ) == #[trigger] found[k] by {
            if k < earlier.len() {
                assert(found[k] == earlier[k]);
                let i = choose|i: int|
                    0 <= i < before.len() && (#[trigger] before[i]) is Some
                        && text::ascii_lower(before[i]->0) == earlier[k];
                assert(names[i] == before[i]);
            } else {
                assert(names[names.len() - 1] is Some);
            }
        }
    }
}

/// A hostname is accepted if and only if there is a leaf, it is that of a server, the
/// name is one of a server, and the leaf covers it.
pub proof fn lemma_hostname_is_covered(
    empty: bool,
    end_entity: bool,
    server_name: bool,
    covered: bool,
)
    ensures
        validate::hostname_problem(empty, end_entity, server_name, covered) is None <==> !empty
            && end_entity && server_name && covered,
{
}

/// The name of a host is kept in lower case, without the dot of the root.
pub proof fn lemma_root_dot_is_dropped(value: Seq<char>)
    ensures
        super::canonical_name(value.push('.')) == text::ascii_lower(value),
        value.len() > 0 && value.last() != '.' ==> super::canonical_name(value)
            == text::ascii_lower(value),
        super::names_host(value) ==> super::canonical_name(value).len() <= 253
            && super::canonical_name(value).len() > 0,
{
    assert(value.push('.').drop_last() =~= value);
    if super::names_host(value) {
        super::lemma_dns_name_end(super::canonical_name(value));
    }
}

/// The key of an ID is one of the ring that has that ID, and there is none only if the
/// ring has none.
pub proof fn lemma_key_is_found_by_its_id(keys: Seq<SealingKeyView>, id: Seq<char>)
    ensures
        match seal::key_named(keys, id) {
            Some(key) => key.id == id && keys.contains(key),
            None => forall|i: int| 0 <= i < keys.len() ==> (#[trigger] keys[i]).id != id,
        },
    decreases keys.len(),
{
    if keys.len() > 0 {
        let before = keys.drop_last();
        lemma_key_is_found_by_its_id(before, id);
        if keys.last().id == id {
            assert(keys[keys.len() - 1] == keys.last());
        } else {
            match seal::key_named(before, id) {
                Some(key) => {
                    let i = choose|i: int| 0 <= i < before.len() && before[i] == key;
                    assert(keys[i] == key);
                },
                None => {
                    assert forall|i: int| 0 <= i < keys.len() implies (#[trigger] keys[i]).id
                        != id by {
                        if i < before.len() {
                            assert(before[i] == keys[i]);
                        }
                    }
                },
            }
        }
    }
}

/// Keys make a ring if and only if there are one to eight, no two have one ID, and the
/// active one, whose ID is in order, is among them.
pub proof fn lemma_keys_in_order_make_a_ring(active_id: Seq<char>, keys: Seq<SealingKeyView>)
    ensures
        seal::keyring_problem(active_id, keys) is None <==> {
            &&& seal::is_key_id(active_id)
            &&& 1 <= keys.len() <= 8
            &&& forall|i: int, j: int|
                0 <= i < keys.len() && 0 <= j < keys.len() && (#[trigger] keys[i]).id == (
                #[trigger] keys[j]).id ==> i == j
            &&& exists|i: int| 0 <= i < keys.len() && (#[trigger] keys[i]).id == active_id
        },
{
    lemma_key_is_found_by_its_id(keys, active_id);
    if let Some(key) = seal::key_named(keys, active_id) {
        let i = choose|i: int| 0 <= i < keys.len() && keys[i] == key;
        assert(keys[i].id == active_id);
    }
    if seal::distinct_ids(keys) {
        assert forall|i: int, j: int|
            0 <= i < keys.len() && 0 <= j < keys.len() && (#[trigger] keys[i]).id == (
            #[trigger] keys[j]).id implies i == j by {
            if i < j {
                assert(keys[i].id != keys[j].id);
            }
            if j < i {
                assert(keys[j].id != keys[i].id);
            }
        }
    }
}

/// Work on certificates takes at most four connections, leaves one, and takes as many
/// as that allows.
pub proof fn lemma_work_leaves_a_connection(capacity: int, more: int)
    requires
        1 <= capacity <= more,
    ensures
        0 <= work::operation_slots(capacity) <= 4,
        work::operation_slots(capacity) < capacity,
        work::operation_slots(capacity) == 4 || work::operation_slots(capacity) == capacity - 1,
        work::operation_slots(capacity) <= work::operation_slots(more),
{
}

/// A key ID grows by letters, digits, dots, underscores and hyphens, up to 64 of them.
pub proof fn lemma_key_id_grows_by_its_characters(id: Seq<char>, c: char)
    ensures
        seal::is_key_id(id.push(c)) <==> id.len() < 64 && (id.len() == 0 || seal::is_key_id(id))
            && ('a' <= c <= 'z' || 'A' <= c <= 'Z' || '0' <= c <= '9' || c == '.' || c == '_' || c
            == '-'),
        !seal::is_key_id(Seq::empty()),
        seal::key_id_problem(id) is None <==> seal::is_key_id(id),
{
    let longer = id.push(c);
    if seal::is_key_id(longer) {
        assert(seal::is_key_id_char(longer[id.len() as int]));
        assert forall|i: int| 0 <= i < id.len() implies seal::is_key_id_char(#[trigger] id[i]) by {
            assert(longer[i] == id[i]);
        }
    }
    if id.len() < 64 && (id.len() == 0 || seal::is_key_id(id)) && seal::is_key_id_char(c) {
        assert forall|i: int| 0 <= i < longer.len() implies seal::is_key_id_char(
            #[trigger] longer[i],
        ) by {
            if i < id.len() {
                assert(longer[i] == id[i]);
            }
        }
    }
}

} // verus!
