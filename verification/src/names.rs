//! Domain names in the uncompressed wire format of RFC 1035.
//!
//! A dot is one octet in UTF-8 and no part of another character, so names are split on octets.

use crate::bytes::push_slice;
use crate::errors::DhcpError;
#[allow(unused_imports)]
use crate::errors::ErrorView;
use vstd::prelude::*;
use vstd::slice::slice_subrange;
use vstd::string::StringExecFns;

verus! {

/// The octet of a dot.
pub const DOT: u8 = 0x2e;

/// The longest label.
pub const MAX_LABEL_LENGTH: usize = 63;

/// The longest name in wire format, with the root that ends it.
pub const MAX_NAME_LENGTH: usize = 255;

/// A name without the dots at its end.
pub open spec fn trimmed(name: Seq<u8>) -> Seq<u8>
    decreases name.len(),
{
    if name.len() > 0 && name.last() == DOT {
        trimmed(name.drop_last())
    } else {
        name
    }
}

/// Where the first dot of a name is, or the name's length where there is none.
pub open spec fn first_dot(name: Seq<u8>) -> int
    decreases name.len(),
{
    if name.len() == 0 || name[0] == DOT {
        0
    } else {
        1 + first_dot(name.skip(1))
    }
}

/// The labels of a name, each with its length before it, or `None` where a label is empty or too
/// long.
pub open spec fn label_octets(name: Seq<u8>) -> Option<Seq<u8>>
    decreases name.len(),
{
    let dot = first_dot(name);
    if dot == 0 || dot > MAX_LABEL_LENGTH {
        None
    } else if dot >= name.len() {
        Some(seq![dot as u8] + name)
    } else {
        proof {
            lemma_first_dot(name);
        }
        match label_octets(name.skip(dot + 1)) {
            Some(rest) => Some(seq![dot as u8] + name.take(dot) + rest),
            None => None,
        }
    }
}

/// Why a name has no wire format.
#[derive(Debug, Clone, Copy, PartialEq, Eq, Structural)]
pub enum NameFault {
    Label,
    Length,
}

/// A name in wire format: its labels and the root.
pub open spec fn name_octets(name: Seq<u8>) -> Result<Seq<u8>, NameFault> {
    match label_octets(trimmed(name)) {
        None => Err(NameFault::Label),
        Some(labels) => if labels.len() + 1 > MAX_NAME_LENGTH {
            Err(NameFault::Length)
        } else {
            Ok(labels.push(0))
        },
    }
}

/// The domain that a name is in: what stands behind its first dot.
pub open spec fn parent(name: Seq<u8>) -> Option<Seq<u8>> {
    let whole = trimmed(name);
    if first_dot(whole) < whole.len() {
        Some(whole.skip(first_dot(whole) + 1))
    } else {
        None
    }
}

/// The first dot is a dot, and no dot stands before it.
pub proof fn lemma_first_dot(name: Seq<u8>)
    ensures
        0 <= first_dot(name) <= name.len(),
        forall|i: int| 0 <= i < first_dot(name) ==> (#[trigger] name[i]) != DOT,
        first_dot(name) < name.len() ==> name[first_dot(name)] == DOT,
    decreases name.len(),
{
    if name.len() > 0 && name[0] != DOT {
        let rest = name.skip(1);
        lemma_first_dot(rest);
        assert forall|i: int| 0 <= i < first_dot(name) implies (#[trigger] name[i]) != DOT by {
            if i > 0 {
                assert(name[i] == rest[i - 1]);
            }
        }
    }
}

/// The first dot is the only place with a dot and none before it.
proof fn lemma_first_dot_is(name: Seq<u8>, at: int)
    requires
        0 <= at <= name.len(),
        forall|i: int| 0 <= i < at ==> (#[trigger] name[i]) != DOT,
        at < name.len() ==> name[at] == DOT,
    ensures
        first_dot(name) == at,
{
    lemma_first_dot(name);
}

/// The octets of a name at the front of a longer one stay at its front.
proof fn lemma_trimmed(name: Seq<u8>)
    ensures
        trimmed(name).len() <= name.len(),
        trimmed(name) == name.take(trimmed(name).len() as int),
        trimmed(name).len() > 0 ==> trimmed(name).last() != DOT,
    decreases name.len(),
{
    if name.len() > 0 && name.last() == DOT {
        lemma_trimmed(name.drop_last());
        let n = trimmed(name).len() as int;
        assert(name.drop_last().take(n) == name.take(n));
    } else {
        assert(name.take(name.len() as int) == name);
    }
}

/// The name that labels in wire format stand for, its dots put back.
pub open spec fn dotted(labels: Seq<u8>) -> Seq<u8>
    decreases labels.len(),
{
    if labels.len() == 0 {
        Seq::empty()
    } else {
        let end = 1 + labels[0] as int;
        if end >= labels.len() {
            labels.skip(1)
        } else {
            labels.subrange(1, end).push(DOT) + dotted(labels.skip(end))
        }
    }
}

/// A name's labels take one octet more than the name, and reading them gives the name back.
proof fn lemma_labels(name: Seq<u8>)
    requires
        label_octets(name) is Some,
    ensures
        label_octets(name)->Some_0.len() == name.len() + 1,
        dotted(label_octets(name)->Some_0) == name,
    decreases name.len(),
{
    let dot = first_dot(name);
    lemma_first_dot(name);
    let labels = label_octets(name)->Some_0;
    if dot >= name.len() {
        assert(labels.skip(1) == name);
    } else {
        let rest = name.skip(dot + 1);
        lemma_labels(rest);
        let tail = label_octets(rest)->Some_0;
        assert(labels.subrange(1, dot + 1) == name.take(dot));
        assert(labels.skip(dot + 1) == tail);
        assert(name == name.take(dot).push(DOT) + rest);
    }
}

/// What is encoded is never longer than a name may be, ends in the root, and says the name: the
/// dots put back between its labels give the name without the dots at its end.
pub proof fn law_encoded_name_says_the_name(name: Seq<u8>)
    requires
        name_octets(name) is Ok,
    ensures
        name_octets(name)->Ok_0.len() <= MAX_NAME_LENGTH,
        name_octets(name)->Ok_0.last() == 0,
        dotted(name_octets(name)->Ok_0.drop_last()) == trimmed(name),
{
    let labels = label_octets(trimmed(name))->Some_0;
    lemma_labels(trimmed(name));
    assert(labels.push(0).drop_last() == labels);
}

/// Whether `whole` is a name without the dots at its end: the front of the name up to its last octet
/// that is no dot.
pub open spec fn without_end_dots(name: Seq<u8>, whole: Seq<u8>) -> bool {
    &&& whole.len() <= name.len()
    &&& whole == name.take(whole.len() as int)
    &&& whole.len() > 0 ==> whole[whole.len() - 1] != 0x2e
    &&& forall|i: int| whole.len() <= i < name.len() ==> (#[trigger] name[i]) == 0x2e
}

/// What is trimmed off a name is every dot at its end and nothing else.
pub proof fn law_trimming_takes_the_end_dots(name: Seq<u8>, whole: Seq<u8>)
    ensures
        trimmed(name) == whole <==> without_end_dots(name, whole),
    decreases name.len(),
{
    if name.len() > 0 && name.last() == DOT {
        let front = name.drop_last();
        law_trimming_takes_the_end_dots(front, whole);
        if without_end_dots(front, whole) {
            assert(front.take(whole.len() as int) == name.take(whole.len() as int));
            assert forall|i: int| whole.len() <= i < name.len() implies (#[trigger] name[i])
                == 0x2e by {
                if i < front.len() {
                    assert(front[i] == 0x2e);
                }
            }
        }
        if without_end_dots(name, whole) {
            assert(whole.len() < name.len());
            assert(front.take(whole.len() as int) == name.take(whole.len() as int));
            assert forall|i: int| whole.len() <= i < front.len() implies (#[trigger] front[i])
                == 0x2e by {
                assert(name[i] == 0x2e);
            }
        }
    } else {
        assert(name.take(name.len() as int) == name);
        if without_end_dots(name, whole) && whole.len() < name.len() {
            assert(name[name.len() - 1] == 0x2e);
        }
    }
}

/// Whether a label of a name stands between two places: there is a dot, or an end of the name, at
/// each side of it, and none in it.
pub open spec fn label_between(name: Seq<u8>, from: int, to: int) -> bool {
    &&& 0 <= from <= to <= name.len()
    &&& from == 0 || name[from - 1] == 0x2e
    &&& to == name.len() || name[to] == 0x2e
    &&& forall|i: int| from <= i < to ==> (#[trigger] name[i]) != 0x2e
}

/// Whether `octets` is a name in wire format: the octets of the name one place further on, in place
/// of the dot before each label, and of nothing before the first, the label's length, and a zero at
/// the end.
pub open spec fn in_wire_format(name: Seq<u8>, octets: Seq<u8>) -> bool {
    &&& octets.len() == name.len() + 2
    &&& octets[octets.len() - 1] == 0
    &&& forall|i: int| 0 <= i < name.len() && (#[trigger] name[i]) != 0x2e ==> octets[i + 1] == name[i]
    &&& forall|from: int, to: int| #[trigger]
        label_between(name, from, to) ==> octets[from] == to - from
}

/// Where the labels of a name behind its first dot stand.
proof fn lemma_label_behind(name: Seq<u8>, from: int, to: int)
    requires
        label_between(name, from, to),
    ensures
        from == 0 ==> to == first_dot(name),
        from > 0 ==> from > first_dot(name) && label_between(
            name.skip(first_dot(name) + 1),
            from - first_dot(name) - 1,
            to - first_dot(name) - 1,
        ),
{
    lemma_first_dot(name);
    let dot = first_dot(name);
    if from > 0 {
        assert(name[from - 1] == DOT);
        let rest = name.skip(dot + 1);
        assert forall|i: int| from - dot - 1 <= i < to - dot - 1 implies (#[trigger] rest[i])
            != 0x2e by {
            assert(name[i + dot + 1] != 0x2e);
        }
    } else {
        if to < dot {
            assert(name[to] != DOT);
        }
        if to > dot {
            assert(name[dot] != 0x2e);
        }
    }
}

/// A label behind the first dot of a name is a label of the name.
proof fn lemma_label_of_whole(name: Seq<u8>, from: int, to: int)
    requires
        first_dot(name) < name.len(),
        label_between(name.skip(first_dot(name) + 1), from, to),
    ensures
        label_between(name, from + first_dot(name) + 1, to + first_dot(name) + 1),
{
    lemma_first_dot(name);
    let dot = first_dot(name);
    let rest = name.skip(dot + 1);
    assert forall|i: int| from + dot + 1 <= i < to + dot + 1 implies (#[trigger] name[i])
        != 0x2e by {
        assert(rest[i - dot - 1] != 0x2e);
    }
}

/// What the labels of a name are in octets, and when there are any.
proof fn lemma_labels_in_place(name: Seq<u8>)
    ensures
        label_octets(name) is Some <==> forall|from: int, to: int| #[trigger]
            label_between(name, from, to) ==> 1 <= to - from <= 63,
        label_octets(name) is Some ==> in_wire_format(name, label_octets(name)->Some_0.push(0)),
    decreases name.len(),
{
    let dot = first_dot(name);
    lemma_first_dot(name);
    assert(label_between(name, 0, dot));
    if dot == 0 || dot > MAX_LABEL_LENGTH {
    } else if dot >= name.len() {
        assert forall|from: int, to: int| #[trigger] label_between(name, from, to) implies from == 0
            && to == dot by {
            lemma_label_behind(name, from, to);
        }
    } else {
        let rest = name.skip(dot + 1);
        lemma_labels_in_place(rest);
        if label_octets(rest) is Some {
            let tail = label_octets(rest)->Some_0;
            let octets = label_octets(name)->Some_0.push(0);
            assert forall|from: int, to: int| #[trigger] label_between(name, from, to) implies 1
                <= to - from <= 63 && octets[from] == to - from by {
                lemma_label_behind(name, from, to);
                if from > 0 {
                    assert(octets[from] == tail.push(0)[from - dot - 1]);
                }
            }
            assert forall|i: int| 0 <= i < name.len() && (#[trigger] name[i]) != 0x2e implies octets[i
                + 1] == name[i] by {
                if i > dot {
                    assert(rest[i - dot - 1] == name[i]);
                    assert(octets[i + 1] == tail.push(0)[i - dot]);
                }
            }
        } else {
            let (from, to) = choose|from: int, to: int| #[trigger]
                label_between(rest, from, to) && !(1 <= to - from <= 63);
            lemma_label_of_whole(name, from, to);
        }
    }
}

/// A name is encoded exactly when each of its labels, without the dots at its end, is of one to 63
/// octets and the whole fits in 255, and then it is encoded in place. A label that does not fit is
/// reported before the length is.
pub proof fn law_names_are_encoded_in_place(name: Seq<u8>, whole: Seq<u8>)
    requires
        without_end_dots(name, whole),
    ensures
        ({
            let labels_fit = forall|from: int, to: int| #[trigger]
                label_between(whole, from, to) ==> 1 <= to - from <= 63;
            &&& name_octets(name) is Ok <==> labels_fit && whole.len() + 2 <= 255
            &&& name_octets(name) is Ok ==> in_wire_format(whole, name_octets(name)->Ok_0)
            &&& !labels_fit ==> name_octets(name) == Err::<Seq<u8>, NameFault>(NameFault::Label)
            &&& labels_fit && whole.len() + 2 > 255 ==> name_octets(name) == Err::<
                Seq<u8>,
                NameFault,
            >(NameFault::Length)
        }),
{
    law_trimming_takes_the_end_dots(name, whole);
    lemma_labels_in_place(whole);
}

/// The domain of a name is all that stands behind its first dot, where it has one that is not at its
/// end.
pub proof fn law_domain_stands_behind_the_first_dot(name: Seq<u8>, whole: Seq<u8>, dot: int)
    requires
        without_end_dots(name, whole),
    ensures
        (forall|i: int| 0 <= i < whole.len() ==> (#[trigger] whole[i]) != 0x2e) ==> parent(name)
            is None,
        0 <= dot < whole.len() && whole[dot] == 0x2e && (forall|i: int|
            0 <= i < dot ==> (#[trigger] whole[i]) != 0x2e) ==> parent(name) == Some(
            whole.skip(dot + 1),
        ),
{
    law_trimming_takes_the_end_dots(name, whole);
    lemma_first_dot(whole);
    if 0 <= dot < whole.len() && whole[dot] == 0x2e && (forall|i: int|
        0 <= i < dot ==> (#[trigger] whole[i]) != 0x2e) {
        lemma_first_dot_is(whole, dot);
    }
}

/// Nothing is trimmed off a name that does not end in a dot.
proof fn lemma_trimmed_is_all(name: Seq<u8>)
    requires
        name.len() > 0 ==> name.last() != DOT,
    ensures
        trimmed(name) == name,
{
}

/// A name that can be encoded is in a domain that can be encoded, unless it is in none.
pub proof fn law_parent_of_encodable_name(name: Seq<u8>)
    requires
        name_octets(name) is Ok,
        parent(name) is Some,
    ensures
        name_octets(parent(name)->Some_0) is Ok,
        name_octets(parent(name)->Some_0)->Ok_0 == name_octets(name)->Ok_0.skip(
            1 + name_octets(name)->Ok_0[0] as int,
        ),
{
    let whole = trimmed(name);
    let dot = first_dot(whole);
    let domain = parent(name)->Some_0;
    lemma_first_dot(whole);
    lemma_trimmed(name);
    assert(label_octets(domain) is Some);
    lemma_labels(domain);
    lemma_labels(whole);
    assert(domain.len() > 0);
    assert(domain.last() == whole.last());
    lemma_trimmed_is_all(domain);
    let labels = label_octets(whole)->Some_0;
    assert(labels.push(0).skip(1 + dot) == label_octets(domain)->Some_0.push(0));
}

/// Return a name without the dots at its end.
fn trim(name: &[u8]) -> (whole: &[u8])
    ensures
        whole@ == trimmed(name@),
{
    let mut end: usize = name.len();
    assert(name@.take(end as int) == name@);
    while end > 0 && name[end - 1] == DOT
        invariant
            end <= name@.len(),
            trimmed(name@.take(end as int)) == trimmed(name@),
        decreases end,
    {
        assert(name@.take(end as int).drop_last() == name@.take(end - 1));
        end -= 1;
    }
    assert(name@.subrange(0, end as int) == name@.take(end as int));
    slice_subrange(name, 0, end)
}

/// Return where the first dot of a name is, or the name's length.
fn find_dot(name: &[u8]) -> (dot: usize)
    ensures
        dot == first_dot(name@),
        dot <= name@.len(),
{
    let mut i: usize = 0;
    while i < name.len()
        invariant
            i <= name@.len(),
            forall|k: int| 0 <= k < i ==> (#[trigger] name@[k]) != DOT,
        decreases name@.len() - i,
    {
        if name[i] == DOT {
            proof {
                lemma_first_dot_is(name@, i as int);
            }
            return i;
        }
        i += 1;
    }
    proof {
        lemma_first_dot_is(name@, i as int);
    }
    i
}

/// Encode one name.
fn encode_name(name: &[u8]) -> (result: Result<Vec<u8>, NameFault>)
    ensures
        match result {
            Ok(octets) => name_octets(name@) == Ok::<Seq<u8>, NameFault>(octets@),
            Err(fault) => name_octets(name@) == Err::<Seq<u8>, NameFault>(fault),
        },
{
    let mut encoded: Vec<u8> = Vec::new();
    let mut rest = trim(name);
    let ghost whole = rest@;
    let mut more: bool = true;
    proof {
        if let Some(labels) = label_octets(whole) {
            assert(encoded@ + labels == labels);
        }
    }
    while more
        invariant
            whole == trimmed(name@),
            more ==> match label_octets(rest@) {
                Some(labels) => label_octets(whole) == Some(encoded@ + labels),
                None => label_octets(whole) is None,
            },
            !more ==> label_octets(whole) == Some(encoded@),
        decreases
                rest@.len() + if more {
                    1int
                } else {
                    0
                },
    {
        let dot: usize = find_dot(rest);
        if dot == 0 || dot > MAX_LABEL_LENGTH {
            return Err(NameFault::Label);
        }
        let ghost before = encoded@;
        let label = slice_subrange(rest, 0, dot);
        encoded.push(dot as u8);
        push_slice(&mut encoded, label);
        proof {
            assert(label@ == rest@.take(dot as int));
            assert(encoded@ == before + (seq![dot as u8] + label@));
        }
        if dot == rest.len() {
            assert(label@ == rest@);
            more = false;
        } else {
            let ghost tail = rest@.skip(dot + 1);
            rest = slice_subrange(rest, dot + 1, rest.len());
            proof {
                assert(rest@ == tail);
                if let Some(labels) = label_octets(tail) {
                    assert(before + (seq![dot as u8] + label@ + labels) == encoded@ + labels);
                }
            }
        }
    }
    encoded.push(0);
    if encoded.len() > MAX_NAME_LENGTH {
        return Err(NameFault::Length);
    }
    Ok(encoded)
}

/// Encode the domain that a name is in.
pub(crate) fn encode_parent(name: &str) -> (result: Option<Vec<u8>>)
    requires
        name_octets(vstd::utf8::encode_utf8(name@)) is Ok,
    ensures
        match result {
            Some(octets) => {
                &&& parent(vstd::utf8::encode_utf8(name@)) is Some
                &&& name_octets(parent(vstd::utf8::encode_utf8(name@))->Some_0) == Ok::<Seq<u8>, NameFault>(
                    octets@,
                )
            },
            None => parent(vstd::utf8::encode_utf8(name@)) is None,
        },
{
    let whole = trim(name.as_bytes());
    let dot: usize = find_dot(whole);
    if dot == whole.len() {
        return None;
    }
    let domain = slice_subrange(whole, dot + 1, whole.len());
    proof {
        assert(domain@ == whole@.skip(dot + 1));
        law_parent_of_encodable_name(vstd::utf8::encode_utf8(name@));
    }
    match encode_name(domain) {
        Ok(octets) => Some(octets),
        Err(_) => None,
    }
}

/// A name in wire format, or the error that tells why it has none.
pub open spec fn domain_name(name: Seq<char>) -> Result<Seq<u8>, ErrorView> {
    match name_octets(vstd::utf8::encode_utf8(name)) {
        Ok(octets) => Ok(octets),
        Err(NameFault::Label) => Err(
            ErrorView::InvalidInput("invalid DHCPv6 domain-name label in "@ + name),
        ),
        Err(NameFault::Length) => Err(
            ErrorView::InvalidInput(
                "DHCPv6 domain name exceeds the 255-byte wire limit: "@ + name,
            ),
        ),
    }
}

/// A name is told in its wire format where it has one, and otherwise an error tells the name, in words
/// that say whether a label or the whole does not fit.
pub proof fn law_names_without_a_wire_format_are_told(name: Seq<char>)
    ensures
        ({
            let encoded = name_octets(vstd::utf8::encode_utf8(name));
            let told = domain_name(name);
            &&& told is Ok <==> encoded is Ok
            &&& told is Ok ==> told->Ok_0 == encoded->Ok_0
            &&& told is Err ==> told->Err_0 == ErrorView::InvalidInput(
                (if encoded->Err_0 is Label {
                    "invalid DHCPv6 domain-name label in "@
                } else {
                    "DHCPv6 domain name exceeds the 255-byte wire limit: "@
                }) + name,
            )
        }),
{
}

/// Encode one DNS name in uncompressed RFC 1035 wire format for DHCPv6 name options.
pub fn encode_domain_name(name: &str) -> (result: Result<Vec<u8>, DhcpError>)
    ensures
        match result {
            Ok(octets) => domain_name(name@) == Ok::<Seq<u8>, ErrorView>(octets@),
            Err(error) => domain_name(name@) == Err::<Seq<u8>, ErrorView>(error@),
        },
{
    match encode_name(name.as_bytes()) {
        Ok(octets) => Ok(octets),
        Err(NameFault::Label) => Err(
            DhcpError::InvalidInput(
                "invalid DHCPv6 domain-name label in ".to_owned().concat(name),
            ),
        ),
        Err(NameFault::Length) => Err(
            DhcpError::InvalidInput(
                "DHCPv6 domain name exceeds the 255-byte wire limit: ".to_owned().concat(name),
            ),
        ),
    }
}

} // verus!
