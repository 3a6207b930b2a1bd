//! Checks on the options of a client message, before any of them gets a meaning.
//!
//! The codec crate stops at the first option that it cannot read, lets a short option borrow
//! octets from the next one, and recurses without a limit. So every option is first counted, and
//! then read on its own.

use crate::codec::reencode_option;
use crate::decode::DecodeError;
use crate::raw::{parse_raw_options, RawOption};
#[allow(unused_imports)]
use crate::{
    codec::{counted, option_read, option_written},
    raw::{all_wf, encoded_all, law_encode_inverts_parse, raw_options, refused, views, RawView},
};
use vstd::prelude::*;
use vstd::slice::slice_subrange;

verus! {

/// How deep containers may be nested in a client message.
pub const MAX_CLIENT_OPTION_NESTING_DEPTH: usize = 8;

/// How many options a client message may hold, nested ones and vendor suboptions included.
pub const MAX_CLIENT_OPTIONS: usize = 256;

/// Where the nested options of a container start in its payload.
pub open spec fn nested_offset(code: u16) -> Option<int> {
    if code == 3 || code == 25 {
        Some(12)
    } else if code == 4 {
        Some(4)
    } else if code == 5 {
        Some(24)
    } else if code == 26 {
        Some(25)
    } else {
        None
    }
}

/// The octets of the options nested in `option`, if it is a container.
pub open spec fn nested_payload(option: RawView) -> Result<Option<Seq<u8>>, Seq<char>> {
    if option.code == 9 {
        Err("relay-message option in client message"@)
    } else {
        match nested_offset(option.code) {
            None => Ok(None),
            Some(offset) => if option.data.len() < offset {
                Err("invalid client option"@)
            } else {
                Ok(Some(option.data.skip(offset)))
            },
        }
    }
}

/// The number of options counted when the tree under `options` is within its limits, or the
/// first reason, in reading order, why it is not. `count` options were counted before.
pub open spec fn budget(options: Seq<RawView>, depth: nat, count: nat) -> Result<nat, Seq<char>>
    decreases encoded_all(options).len(),
{
    if depth > MAX_CLIENT_OPTION_NESTING_DEPTH {
        Err("client option nesting limit exceeded"@)
    } else if options.len() == 0 {
        Ok(count)
    } else if count + 1 > MAX_CLIENT_OPTIONS {
        Err("client option count limit exceeded"@)
    } else if options[0].code == 17 {
        match vendor_count(options[0], depth, count + 1) {
            Err(reason) => Err(reason),
            Ok(counted) => budget(options.skip(1), depth, counted),
        }
    } else {
        match nested_payload(options[0]) {
            Err(reason) => Err(reason),
            Ok(None) => budget(options.skip(1), depth, count + 1),
            Ok(Some(payload)) => match raw_options(payload) {
                Err(reason) => Err(reason),
                Ok(nested) => if nested.len() == 0 {
                    budget(options.skip(1), depth, count + 1)
                } else {
                    proof {
                        law_encode_inverts_parse(payload);
                    }
                    match budget(nested, depth + 1, count + 1) {
                        Err(reason) => Err(reason),
                        Ok(counted) => budget(options.skip(1), depth, counted),
                    }
                },
            },
        }
    }
}

/// The count after a vendor option and its suboptions, `count` including the option itself.
pub open spec fn vendor_count(option: RawView, depth: nat, count: nat) -> Result<nat, Seq<char>> {
    if depth != 0 {
        Err("vendor-specific option in nested client option"@)
    } else if option.data.len() < 4 {
        Err("invalid vendor-specific option"@)
    } else {
        match raw_options(option.data.skip(4)) {
            Err(reason) => Err(reason),
            Ok(suboptions) => if count + suboptions.len() > MAX_CLIENT_OPTIONS {
                Err("client option count limit exceeded"@)
            } else {
                Ok(count + suboptions.len())
            },
        }
    }
}

/// Return the nested option area of a container option.
fn nested_option_payload<'data>(option: &RawOption<'data>) -> (result: Result<
    Option<&'data [u8]>,
    DecodeError,
>)
    ensures
        match result {
            Ok(Some(payload)) => nested_payload(option@) == Ok::<Option<Seq<u8>>, Seq<char>>(
                Some(payload@),
            ),
            Ok(None) => nested_payload(option@) == Ok::<Option<Seq<u8>>, Seq<char>>(None),
            Err(error) => refused(nested_payload(option@), error),
        },
{
    let offset: usize = match option.code {
        3 | 25 => 12,
        4 => 4,
        5 => 24,
        26 => 25,
        9 => {
            return Err(DecodeError::MalformedPacket("relay-message option in client message"));
        },
        _ => {
            return Ok(None);
        },
    };
    if option.data.len() < offset {
        return Err(DecodeError::MalformedPacket("invalid client option"));
    }
    let payload = slice_subrange(option.data, offset, option.data.len());
    assert(payload@ == option.data@.skip(offset as int));
    Ok(Some(payload))
}

/// Bound the depth and the size of an option tree.
fn validate_client_option_budget(
    options: &Vec<RawOption<'_>>,
    depth: usize,
    counted: usize,
) -> (result: Result<usize, DecodeError>)
    requires
        counted <= MAX_CLIENT_OPTIONS,
        depth <= MAX_CLIENT_OPTION_NESTING_DEPTH + 1,
    ensures
        match result {
            Ok(count) => {
                &&& budget(views(options@), depth as nat, counted as nat) == Ok::<nat, Seq<char>>(
                    count as nat,
                )
                &&& count <= MAX_CLIENT_OPTIONS
            },
            Err(error) => refused(budget(views(options@), depth as nat, counted as nat), error),
        },
    decreases MAX_CLIENT_OPTION_NESTING_DEPTH + 1 - depth,
{
    if depth > MAX_CLIENT_OPTION_NESTING_DEPTH {
        return Err(DecodeError::MalformedPacket("client option nesting limit exceeded"));
    }
    let ghost all = views(options@);
    let mut count: usize = counted;
    let mut i: usize = 0;
    assert(all.skip(0) == all);
    while i < options.len()
        invariant
            i <= options@.len(),
            all == views(options@),
            count <= MAX_CLIENT_OPTIONS,
            depth <= MAX_CLIENT_OPTION_NESTING_DEPTH,
            budget(all, depth as nat, counted as nat) == budget(
                all.skip(i as int),
                depth as nat,
                count as nat,
            ),
        decreases options@.len() - i,
    {
        let option = &options[i];
        let ghost rest = all.skip(i as int);
        proof {
            assert(rest[0] == option@);
            assert(rest.skip(1) == all.skip(i + 1));
        }
        if count == MAX_CLIENT_OPTIONS {
            return Err(DecodeError::MalformedPacket("client option count limit exceeded"));
        }
        count += 1;
        if option.code == 17 {
            if depth != 0 {
                return Err(DecodeError::MalformedPacket("vendor-specific option in nested client option"));
            }
            if option.data.len() < 4 {
                return Err(DecodeError::MalformedPacket("invalid vendor-specific option"));
            }
            let payload = slice_subrange(option.data, 4, option.data.len());
            assert(payload@ == option.data@.skip(4));
            match parse_raw_options(payload) {
                Ok(suboptions) => {
                    if suboptions.len() > MAX_CLIENT_OPTIONS - count {
                        return Err(DecodeError::MalformedPacket("client option count limit exceeded"));
                    }
                    count += suboptions.len();
                },
                Err(error) => {
                    return Err(error);
                },
            }
        } else {
            match nested_option_payload(option) {
                Ok(Some(payload)) => {
                    match parse_raw_options(payload) {
                        Ok(nested) => {
                            if nested.len() != 0 {
                                match validate_client_option_budget(&nested, depth + 1, count) {
                                    Ok(after) => {
                                        count = after;
                                    },
                                    Err(error) => {
                                        return Err(error);
                                    },
                                }
                            }
                        },
                        Err(error) => {
                            return Err(error);
                        },
                    }
                },
                Ok(None) => {},
                Err(error) => {
                    return Err(error);
                },
            }
        }
        i += 1;
    }
    Ok(count)
}

/// How many containers are nested in each other under `options`.
pub open spec fn option_depth(options: Seq<RawView>) -> nat
    decreases encoded_all(options).len(),
{
    if options.len() == 0 {
        0
    } else {
        let first: nat = match nested_payload(options[0]) {
            Ok(Some(payload)) => match raw_options(payload) {
                Ok(nested) => if nested.len() == 0 {
                    0
                } else {
                    proof {
                        law_encode_inverts_parse(payload);
                    }
                    1 + option_depth(nested)
                },
                Err(_) => 0,
            },
            _ => 0,
        };
        let rest = option_depth(options.skip(1));
        if first > rest {
            first
        } else {
            rest
        }
    }
}

/// How many options there are under `options`, nested ones and vendor suboptions included.
pub open spec fn option_total(options: Seq<RawView>) -> nat
    decreases encoded_all(options).len(),
{
    if options.len() == 0 {
        0
    } else {
        let below: nat = if options[0].code == 17 {
            match raw_options(options[0].data.skip(4)) {
                Ok(suboptions) => suboptions.len(),
                Err(_) => 0,
            }
        } else {
            match nested_payload(options[0]) {
                Ok(Some(payload)) => match raw_options(payload) {
                    Ok(nested) => {
                        proof {
                            law_encode_inverts_parse(payload);
                        }
                        option_total(nested)
                    },
                    Err(_) => 0,
                },
                _ => 0,
            }
        };
        1 + below + option_total(options.skip(1))
    }
}

/// Whether every container and every vendor option under `options` holds whole options, no vendor
/// option stands inside a container, and no relay message stands anywhere. `nested` tells whether
/// `options` themselves stand inside a container.
pub open spec fn well_framed(options: Seq<RawView>, nested: bool) -> bool
    decreases encoded_all(options).len(),
{
    options.len() == 0 || {
        &&& if options[0].code == 17 {
            !nested && options[0].data.len() >= 4 && raw_options(options[0].data.skip(4)) is Ok
        } else {
            match nested_payload(options[0]) {
                Err(_) => false,
                Ok(None) => true,
                Ok(Some(payload)) => match raw_options(payload) {
                    Err(_) => false,
                    Ok(inner) => {
                        proof {
                            law_encode_inverts_parse(payload);
                        }
                        well_framed(inner, true)
                    },
                },
            }
        }
        &&& well_framed(options.skip(1), nested)
    }
}

/// The budget pass accepts exactly the trees that are framed well, are nested no deeper than the
/// limit and hold no more options than the limit; it then returns how many options it counted.
pub proof fn law_budget_is_exact(options: Seq<RawView>, depth: nat, count: nat)
    requires
        depth <= MAX_CLIENT_OPTION_NESTING_DEPTH,
        count <= MAX_CLIENT_OPTIONS,
    ensures
        budget(options, depth, count) is Ok <==> {
            &&& well_framed(options, depth != 0)
            &&& depth + option_depth(options) <= MAX_CLIENT_OPTION_NESTING_DEPTH
            &&& count + option_total(options) <= MAX_CLIENT_OPTIONS
        },
        budget(options, depth, count) is Ok ==> budget(options, depth, count)->Ok_0 == count
            + option_total(options),
    decreases encoded_all(options).len(),
{
    reveal_with_fuel(budget, 2);
    reveal_with_fuel(well_framed, 2);
    reveal_with_fuel(option_depth, 2);
    reveal_with_fuel(option_total, 2);
    if options.len() != 0 {
        let rest = options.skip(1);
        if count + 1 <= MAX_CLIENT_OPTIONS {
            if options[0].code == 17 {
                match vendor_count(options[0], depth, count + 1) {
                    Ok(counted) => law_budget_is_exact(rest, depth, counted),
                    Err(_) => {},
                }
            } else {
                match nested_payload(options[0]) {
                    Err(_) => {},
                    Ok(None) => law_budget_is_exact(rest, depth, count + 1),
                    Ok(Some(payload)) => match raw_options(payload) {
                        Err(_) => {},
                        Ok(inner) => {
                            law_encode_inverts_parse(payload);
                            if inner.len() == 0 {
                                law_budget_is_exact(rest, depth, count + 1);
                            } else if depth < MAX_CLIENT_OPTION_NESTING_DEPTH {
                                law_budget_is_exact(inner, depth + 1, count + 1);
                                if let Ok(counted) = budget(inner, depth + 1, count + 1) {
                                    law_budget_is_exact(rest, depth, counted);
                                }
                            }
                        },
                    },
                }
            }
        }
    }
}

/// A tree that is framed well and only holds too many options is refused for their number, and one
/// that is only nested too deep is refused for its depth.
pub proof fn law_limits_are_told(options: Seq<RawView>, depth: nat, count: nat)
    requires
        depth <= 8,
        count <= 256,
        well_framed(options, depth != 0),
    ensures
        depth + option_depth(options) <= 8 && count + option_total(options) > 256 ==> budget(
            options,
            depth,
            count,
        ) == Err::<nat, Seq<char>>("client option count limit exceeded"@),
        depth + option_depth(options) > 8 && count + option_total(options) <= 256 ==> budget(
            options,
            depth,
            count,
        ) == Err::<nat, Seq<char>>("client option nesting limit exceeded"@),
    decreases encoded_all(options).len(),
{
    reveal_with_fuel(budget, 2);
    reveal_with_fuel(well_framed, 2);
    reveal_with_fuel(option_depth, 2);
    reveal_with_fuel(option_total, 2);
    if options.len() != 0 && count < 256 {
        let rest = options.skip(1);
        if options[0].code == 17 {
            if let Ok(counted) = vendor_count(options[0], depth, count + 1) {
                law_limits_are_told(rest, depth, counted);
            }
        } else {
            match nested_payload(options[0]) {
                Err(_) => {},
                Ok(None) => law_limits_are_told(rest, depth, count + 1),
                Ok(Some(payload)) => match raw_options(payload) {
                    Err(_) => {},
                    Ok(inner) => {
                        law_encode_inverts_parse(payload);
                        if inner.len() == 0 {
                            law_limits_are_told(rest, depth, count + 1);
                        } else if depth < 8 {
                            law_limits_are_told(inner, depth + 1, count + 1);
                            law_budget_is_exact(inner, depth + 1, count + 1);
                            if let Ok(counted) = budget(inner, depth + 1, count + 1) {
                                law_limits_are_told(rest, depth, counted);
                            }
                        }
                    },
                },
            }
        }
    }
}

/// The budget pass goes through options one after another: once those at the front are found within
/// the limits, it goes on with the rest and what was counted by then.
pub proof fn law_budget_goes_on(options: Seq<RawView>, depth: nat, count: nat, at: int)
    requires
        0 <= at <= options.len(),
        budget(options.take(at), depth, count) is Ok,
    ensures
        budget(options, depth, count) == budget(
            options.skip(at),
            depth,
            budget(options.take(at), depth, count)->Ok_0,
        ),
    decreases at,
{
    reveal_with_fuel(budget, 2);
    if at == 0 {
        assert(options.take(0).len() == 0);
        assert(options.skip(0) == options);
    } else {
        let front = options.take(at);
        let rest = options.skip(1);
        assert(front[0] == options[0]);
        assert(front.skip(1) == rest.take(at - 1));
        assert(rest.skip(at - 1) == options.skip(at));
        if options[0].code == 17 {
            law_budget_goes_on(
                rest,
                depth,
                vendor_count(options[0], depth, count + 1)->Ok_0,
                at - 1,
            );
        } else {
            match nested_payload(options[0]) {
                Ok(Some(payload)) => {
                    let nested = raw_options(payload)->Ok_0;
                    if nested.len() == 0 {
                        law_budget_goes_on(rest, depth, count + 1, at - 1);
                    } else {
                        law_budget_goes_on(
                            rest,
                            depth,
                            budget(nested, depth + 1, count + 1)->Ok_0,
                            at - 1,
                        );
                    }
                },
                _ => law_budget_goes_on(rest, depth, count + 1, at - 1),
            }
        }
    }
}

/// What the first option of a tree is refused for, where it is not for a limit: a vendor option
/// inside a container or without an enterprise number, a container that is too short or that holds
/// no whole options, and a relay message.
pub proof fn law_framing_faults_are_told(options: Seq<RawView>, depth: nat, count: nat)
    requires
        depth <= 8,
        count < 256,
        options.len() > 0,
    ensures
        ({
            let option = options[0];
            let found = budget(options, depth, count);
            let refused = |reason: Seq<char>| found == Err::<nat, Seq<char>>(reason);
            let inside = nested_payload(option);
            &&& option.code == 17 && depth > 0 ==> refused(
                "vendor-specific option in nested client option"@,
            )
            &&& option.code == 17 && depth == 0 && option.data.len() < 4 ==> refused(
                "invalid vendor-specific option"@,
            )
            &&& option.code == 17 && depth == 0 && option.data.len() >= 4 && raw_options(
                option.data.skip(4),
            ) is Err ==> refused(raw_options(option.data.skip(4))->Err_0)
            &&& option.code != 17 && inside is Err ==> refused(inside->Err_0)
            &&& option.code != 17 && inside is Ok && inside->Ok_0 is Some && raw_options(
                inside->Ok_0->Some_0,
            ) is Err ==> refused(raw_options(inside->Ok_0->Some_0)->Err_0)
        }),
{
    reveal_with_fuel(budget, 2);
}

/// Why a packet cannot be taken in.
pub enum WireFault {
    /// The octets break a rule of this service; the text says which.
    Malformed(Seq<char>),
    /// The codec cannot read an option; the text are its words for why.
    Undecodable(Seq<char>),
    MissingRelayMessage,
    NestedRelay,
    RelayHopCountExceeded(u8),
    UnexpectedRelayReply,
}

/// What is wrong with an option of `length` octets that was read on its own: `read` is how many of
/// them were left unread, or why none could be read, and `written` is how many octets the option
/// takes when it is written again.
pub open spec fn reading_fault(
    read: Result<nat, Seq<char>>,
    written: Option<nat>,
    length: nat,
) -> Option<WireFault> {
    match read {
        Err(words) => Some(WireFault::Undecodable(words)),
        Ok(unread) => if unread != 0 {
            Some(WireFault::Malformed("invalid client option length"@))
        } else {
            match written {
                None => Some(WireFault::Malformed("unencodable client option"@)),
                Some(octets) => if octets != length {
                    Some(WireFault::Malformed("partially decoded client option"@))
                } else {
                    None
                },
            }
        },
    }
}

/// What is wrong with an option read on its own, given the octets of its triple.
pub open spec fn option_fault(triple: Seq<u8>) -> Option<WireFault> {
    reading_fault(option_read(triple), option_written(triple), triple.len())
}

/// Judge how one option of `length` octets was read: how many octets were left unread and how many
/// the option takes when it is written again, or why it could not be read.
pub fn judge_reading(reading: Result<(usize, Option<usize>), String>, length: usize) -> (result:
    Result<(), DecodeError>)
    ensures
        ({
            let fault = match reading {
                Ok((unread, written)) => reading_fault(
                    Ok(unread as nat),
                    counted(written),
                    length as nat,
                ),
                Err(words) => reading_fault(Err(words@), None, length as nat),
            };
            match result {
                Ok(_) => fault is None,
                Err(error) => fault == Some(error@),
            }
        }),
{
    match reading {
        Ok((unread, written)) => {
            if unread != 0 {
                return Err(DecodeError::MalformedPacket("invalid client option length"));
            }
            match written {
                Some(octets) => {
                    if octets != length {
                        return Err(DecodeError::MalformedPacket("partially decoded client option"));
                    }
                    Ok(())
                },
                None => Err(DecodeError::MalformedPacket("unencodable client option")),
            }
        },
        Err(words) => Err(DecodeError::ClientMessageDecode(words)),
    }
}

/// The first thing wrong with the options of a tree, each read on its own and the nested ones
/// before their container. Vendor options are left alone: their suboptions have no common meaning.
pub open spec fn semantic_fault(options: Seq<RawView>) -> Option<WireFault>
    decreases encoded_all(options).len(),
{
    if options.len() == 0 {
        None
    } else if options[0].code == 17 {
        semantic_fault(options.skip(1))
    } else {
        let below = match nested_payload(options[0]) {
            Err(reason) => Some(WireFault::Malformed(reason)),
            Ok(None) => None,
            Ok(Some(payload)) => match raw_options(payload) {
                Err(reason) => Some(WireFault::Malformed(reason)),
                Ok(nested) => {
                    proof {
                        law_encode_inverts_parse(payload);
                    }
                    semantic_fault(nested)
                },
            },
        };
        if below is Some {
            below
        } else if option_fault(options[0].encoded()) is Some {
            option_fault(options[0].encoded())
        } else {
            semantic_fault(options.skip(1))
        }
    }
}

/// Options are read one after another: once those at the front are found sound, what is wrong is what
/// is wrong with the rest.
pub proof fn law_reading_goes_on(options: Seq<RawView>, at: int)
    requires
        0 <= at <= options.len(),
        semantic_fault(options.take(at)) is None,
    ensures
        semantic_fault(options) == semantic_fault(options.skip(at)),
    decreases at,
{
    if at == 0 {
        assert(options.skip(0) == options);
    } else {
        let front = options.take(at);
        let rest = options.skip(1);
        assert(front[0] == options[0]);
        assert(front.skip(1) == rest.take(at - 1));
        assert(rest.skip(at - 1) == options.skip(at));
        law_reading_goes_on(rest, at - 1);
    }
}

/// What the first option is refused for: what is wrong inside it goes before what is wrong with it,
/// and a message whose options break a limit is refused for that before any is read.
pub proof fn law_what_is_inside_is_read_first(options: Seq<RawView>)
    requires
        options.len() > 0,
        options[0].code != 17,
        nested_payload(options[0]) is Ok,
    ensures
        ({
            let inside = nested_payload(options[0])->Ok_0;
            let nested = raw_options(inside->Some_0)->Ok_0;
            let holds = inside is Some && raw_options(inside->Some_0) is Ok;
            let own = option_fault(options[0].encoded());
            let found = semantic_fault(options);
            &&& holds && semantic_fault(nested) is Some ==> found == semantic_fault(nested)
            &&& (inside is None || holds && semantic_fault(nested) is None) && own is Some ==> found
                == own
            &&& budget(options, 0, 0) is Err ==> options_fault(options) == Some(
                WireFault::Malformed(budget(options, 0, 0)->Err_0),
            )
            &&& budget(options, 0, 0) is Ok ==> options_fault(options) == found
        }),
{
}

/// Whether the codec may be handed the octets of `option`: what is nested in it was read before,
/// option by option, and found sound and not too deep.
pub open spec fn readable(option: RawView) -> bool {
    &&& option.fits()
    &&& option.code != 17
    &&& match nested_payload(option) {
        Err(_) => false,
        Ok(None) => true,
        Ok(Some(payload)) => match raw_options(payload) {
            Err(_) => false,
            Ok(nested) => {
                &&& well_framed(nested, true)
                &&& option_depth(nested) < MAX_CLIENT_OPTION_NESTING_DEPTH
                &&& semantic_fault(nested) is None
            },
        },
    }
}

/// Options that may stand inside a container may stand outside one.
proof fn lemma_nested_is_framed(options: Seq<RawView>)
    requires
        well_framed(options, true),
    ensures
        well_framed(options, false),
    decreases options.len(),
{
    if options.len() != 0 {
        lemma_nested_is_framed(options.skip(1));
    }
}

/// The first thing wrong with the options of a client message.
pub open spec fn options_fault(options: Seq<RawView>) -> Option<WireFault> {
    match budget(options, 0, 0) {
        Err(reason) => Some(WireFault::Malformed(reason)),
        Ok(_) => semantic_fault(options),
    }
}

/// Validate every option of a bounded tree in isolation.
fn validate_client_option_semantics(options: &Vec<RawOption<'_>>) -> (result: Result<
    (),
    DecodeError,
>)
    requires
        all_wf(options@),
        well_framed(views(options@), false),
        option_depth(views(options@)) <= MAX_CLIENT_OPTION_NESTING_DEPTH,
    ensures
        match result {
            Ok(_) => semantic_fault(views(options@)) is None,
            Err(error) => semantic_fault(views(options@)) == Some(error@),
        },
    decreases encoded_all(views(options@)).len(),
{
    let ghost all = views(options@);
    let mut i: usize = 0;
    assert(all.skip(0) == all);
    while i < options.len()
        invariant
            i <= options@.len(),
            all == views(options@),
            all_wf(options@),
            well_framed(all.skip(i as int), false),
            option_depth(all.skip(i as int)) <= MAX_CLIENT_OPTION_NESTING_DEPTH,
            encoded_all(all.skip(i as int)).len() <= encoded_all(all).len(),
            semantic_fault(all) == semantic_fault(all.skip(i as int)),
        decreases options@.len() - i,
    {
        let option = &options[i];
        let ghost rest = all.skip(i as int);
        proof {
            assert(option.wf());
            assert(rest[0] == option@);
            assert(rest.skip(1) == all.skip(i + 1));
        }
        if option.code != 17 {
            if let Some(payload) = match nested_option_payload(option) {
                Ok(payload) => payload,
                Err(error) => {
                    return Err(error);
                },
            } {
                proof {
                    law_encode_inverts_parse(payload@);
                }
                match parse_raw_options(payload) {
                    Ok(nested) => {
                        proof {
                            lemma_nested_is_framed(views(nested@));
                        }
                        match validate_client_option_semantics(&nested) {
                            Ok(_) => {},
                            Err(error) => {
                                return Err(error);
                            },
                        }
                    },
                    Err(error) => {
                        return Err(error);
                    },
                }
            }
            assert(readable(option@));
            match judge_reading(reencode_option(option.encoded), option.encoded.len()) {
                Ok(_) => {},
                Err(error) => {
                    return Err(error);
                },
            }
        }
        i += 1;
    }
    Ok(())
}

/// Reject client options that are too many, too deep, or unsound.
pub fn validate_client_options(options: &Vec<RawOption<'_>>) -> (result: Result<(), DecodeError>)
    requires
        all_wf(options@),
    ensures
        match result {
            Ok(_) => options_fault(views(options@)) is None,
            Err(error) => options_fault(views(options@)) == Some(error@),
        },
{
    proof {
        law_budget_is_exact(views(options@), 0, 0);
    }
    match validate_client_option_budget(options, 0, 0) {
        Ok(_) => validate_client_option_semantics(options),
        Err(error) => Err(error),
    }
}

} // verus!
