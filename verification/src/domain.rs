//! Names of the subdomains under which tunnels are reachable.

use crate::encoding::{base64_url_safe_no_pad, sha256};
use crate::random::{is_ascii_alphanumeric, random_alphanumeric};
use crate::text::{
    ascii_lowercase, is_lower_alphanumeric, is_lower_alphanumeric_char, push_char,
    to_ascii_lowercase,
};
use vstd::prelude::*;
use vstd::string::*;
use vstd::utf8::*;

verus! {

/// Number of characters in the generated part of a domain.
pub const LABEL_LEN: usize = 8;

/// ASCII case folding, as a function on characters.
pub open spec fn fold() -> spec_fn(char) -> char {
    |c: char| ascii_lowercase(c)
}

/// The class of characters that a label keeps.
pub open spec fn keep() -> spec_fn(char) -> bool {
    |c: char| is_lower_alphanumeric(c)
}

/// `text` in lowercase.
pub open spec fn lowercased(text: Seq<char>) -> Seq<char> {
    text.map_values(fold())
}

/// The letters and digits of `text`, in lowercase and in order; every other
/// character is skipped.
pub open spec fn folded(text: Seq<char>) -> Seq<char> {
    lowercased(text).filter(keep())
}

/// The label cut from an encoded digest: its first eight letters and digits,
/// in lowercase. Characters that are neither are skipped, not counted.
pub open spec fn label_of(encoded: Seq<char>) -> Seq<char> {
    if folded(encoded).len() <= LABEL_LEN {
        folded(encoded)
    } else {
        folded(encoded).take(LABEL_LEN as int)
    }
}

/// A prefix and a label joined by a hyphen.
pub open spec fn joined(prefix: Seq<char>, label: Seq<char>) -> Seq<char> {
    prefix + seq!['-'] + label
}

/// What a random label looks like: eight lowercase letters or digits.
pub open spec fn is_random_label(label: Seq<char>) -> bool {
    &&& label.len() == LABEL_LEN
    &&& forall|i: int| 0 <= i < label.len() ==> is_lower_alphanumeric(#[trigger] label[i])
}

/// The text that is hashed for the domain of a client on an account.
pub open spec fn client_domain_input(client_id: Seq<char>, account_id: Seq<char>) -> Seq<char> {
    client_id + seq!['|', '|'] + account_id
}

/// The label of a client on an account: cut from the URL-safe unpadded base64
/// text of the SHA-256 digest of `client_domain_input`.
pub open spec fn client_label(client_id: Seq<char>, account_id: Seq<char>) -> Seq<char> {
    label_of(
        base64_url_safe_no_pad(sha256(encode_utf8(client_domain_input(client_id, account_id)))),
    )
}

/// The domain of a client on an account under a prefix.
pub open spec fn client_domain(
    prefix: Seq<char>,
    client_id: Seq<char>,
    account_id: Seq<char>,
) -> Seq<char> {
    joined(prefix, client_label(client_id, account_id))
}

/// Whether `domain` is `prefix`, a hyphen and some random label.
pub open spec fn is_prefixed_random_domain(prefix: Seq<char>, domain: Seq<char>) -> bool {
    exists|label: Seq<char>| #[trigger] is_random_label(label) && domain == joined(prefix, label)
}

/// A label holds at most eight characters, all of them lowercase letters or
/// digits, and it holds eight exactly when the text offers that many.
pub proof fn lemma_label_form(encoded: Seq<char>)
    ensures
        label_of(encoded).len() <= LABEL_LEN,
        label_of(encoded).len() == LABEL_LEN <==> folded(encoded).len() >= LABEL_LEN,
        forall|i: int|
            0 <= i < label_of(encoded).len() ==> is_lower_alphanumeric(
                #[trigger] label_of(encoded)[i],
            ),
{
    let kept = folded(encoded);
    assert forall|i: int| 0 <= i < label_of(encoded).len() implies is_lower_alphanumeric(
        #[trigger] label_of(encoded)[i],
    ) by {
        assert(label_of(encoded)[i] == kept[i]);
        lowercased(encoded).lemma_filter_pred(keep(), i);
    }
}

/// Folding case and dropping what is no letter or digit goes character by
/// character.
proof fn lemma_folded_push(text: Seq<char>, c: char)
    ensures
        folded(text.push(c)) == if is_lower_alphanumeric(ascii_lowercase(c)) {
            folded(text).push(ascii_lowercase(c))
        } else {
            folded(text)
        },
{
    text.lemma_push_map_commute(fold(), c);
    assert(lowercased(text.push(c)) == lowercased(text).push(ascii_lowercase(c)));
    lowercased(text).lemma_filter_push(ascii_lowercase(c), keep());
}

/// Once eight characters are kept, the rest of the text does not change the
/// label.
proof fn lemma_label_of_prefix(text: Seq<char>, i: int)
    requires
        0 <= i <= text.len(),
        folded(text.take(i)).len() >= LABEL_LEN,
    ensures
        label_of(text) == label_of(text.take(i)),
{
    let head = text.take(i);
    let tail = text.skip(i);
    assert(text =~= head + tail);
    assert(lowercased(head + tail) =~= lowercased(head) + lowercased(tail));
    Seq::filter_distributes_over_add(lowercased(head), lowercased(tail), keep());
    assert(folded(text) == folded(head) + folded(tail));
    assert(folded(text).take(LABEL_LEN as int) =~= folded(head).take(LABEL_LEN as int));
}

/// Converts text to lowercase, ASCII letter by ASCII letter.
pub fn to_lowercase(text: &str) -> (lower: String)
    ensures
        lower@ == lowercased(text@),
{
    let mut lower = String::new();
    for c in it: text.chars()
        invariant
            it.seq() == text@,
            lower@ == lowercased(text@.take(it.index() as int)),
    {
        push_char(&mut lower, to_ascii_lowercase(c));
        proof {
            let seen = text@.take(it.index() as int);
            assert(text@.take(it.index() + 1) == seen.push(c));
            seen.lemma_push_map_commute(fold(), c);
        }
    }
    assert(text@.take(text@.len() as int) == text@);
    lower
}

/// Cuts the label out of an encoded digest.
pub fn domain_label(encoded: &str) -> (label: String)
    ensures
        label@ == label_of(encoded@),
{
    let mut label = String::new();
    let mut kept: usize = 0;
    for c in it: encoded.chars()
        invariant
            it.seq() == encoded@,
            kept == label@.len(),
            label@ == label_of(encoded@.take(it.index() as int)),
    {
        let folded_c = to_ascii_lowercase(c);
        proof {
            let seen = encoded@.take(it.index() as int);
            let next = encoded@.take(it.index() + 1);
            assert(next == seen.push(c));
            lemma_label_form(seen);
            lemma_folded_push(seen, c);
            if kept >= LABEL_LEN {
                assert(next.take(it.index() as int) == seen);
                lemma_label_of_prefix(next, it.index() as int);
            }
        }
        if kept < LABEL_LEN && is_lower_alphanumeric_char(folded_c) {
            push_char(&mut label, folded_c);
            kept += 1;
        }
    }
    assert(encoded@.take(encoded@.len() as int) == encoded@);
    label
}

/// Joins a prefix and a label with a hyphen.
pub fn prefixed(prefix: &str, label: &str) -> (domain: String)
    ensures
        domain@ == joined(prefix@, label@),
{
    let mut domain = String::from_str(prefix);
    domain.append("-");
    domain.append(label);
    proof {
        reveal_strlit("-");
        assert("-"@ =~= seq!['-']);
    }
    domain
}

/// Eight random lowercase letters or digits.
pub fn random_label() -> (label: String)
    ensures
        is_random_label(label@),
{
    let mut sample = String::new();
    let mut i: usize = 0;
    while i < LABEL_LEN
        invariant
            i <= LABEL_LEN,
            sample@.len() == i,
            forall|j: int| 0 <= j < sample@.len() ==> is_ascii_alphanumeric(#[trigger] sample@[j]),
        decreases LABEL_LEN - i,
    {
        push_char(&mut sample, random_alphanumeric());
        i += 1;
    }
    to_lowercase(sample.as_str())
}

/// A client domain is its prefix, a hyphen and a label of at most eight
/// lowercase letters or digits. The prefix enters in no other way, and the
/// label holds eight characters exactly when the encoded digest offers that
/// many letters and digits.
pub proof fn lemma_client_domain_form(
    prefix: Seq<char>,
    client_id: Seq<char>,
    account_id: Seq<char>,
)
    ensures
        ({
            let domain = client_domain(prefix, client_id, account_id);
            let label = client_label(client_id, account_id);
            let encoded = base64_url_safe_no_pad(
                sha256(encode_utf8(client_domain_input(client_id, account_id))),
            );
            &&& domain.len() == prefix.len() + 1 + label.len()
            &&& domain.take(prefix.len() as int) == prefix
            &&& domain[prefix.len() as int] == '-'
            &&& domain.skip(prefix.len() as int + 1) == label
            &&& label.len() <= LABEL_LEN
            &&& label.len() == LABEL_LEN <==> folded(encoded).len() >= LABEL_LEN
            &&& forall|i: int| 0 <= i < label.len() ==> is_lower_alphanumeric(#[trigger] label[i])
        }),
{
    let encoded = base64_url_safe_no_pad(
        sha256(encode_utf8(client_domain_input(client_id, account_id))),
    );
    lemma_label_form(encoded);
    let domain = client_domain(prefix, client_id, account_id);
    let label = client_label(client_id, account_id);
    assert(domain.take(prefix.len() as int) =~= prefix);
    assert(domain.skip(prefix.len() as int + 1) =~= label);
}

/// Equal client and account give equal labels, whatever the prefixes are; and
/// equal prefixes then give equal domains.
pub proof fn lemma_client_domain_deterministic(
    prefix_a: Seq<char>,
    prefix_b: Seq<char>,
    client_a: Seq<char>,
    client_b: Seq<char>,
    account_a: Seq<char>,
    account_b: Seq<char>,
)
    requires
        client_a == client_b,
        account_a == account_b,
    ensures
        client_label(client_a, account_a) == client_label(client_b, account_b),
        prefix_a == prefix_b ==> client_domain(prefix_a, client_a, account_a) == client_domain(
            prefix_b,
            client_b,
            account_b,
        ),
{
}

} // verus!
