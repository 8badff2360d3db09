//! The attributes and events a contract returns are checked and trimmed
//! before they are emitted, and every such event is tagged with the address of
//! the contract that produced it.
use vstd::prelude::*;
use vstd::string::*;
use vstd::utf8::encode_utf8;
use crate::error::SystemError;
use crate::text::{has_prefix, starts_with, trim, trimmed};
use crate::types::{Attribute, AttributeView, Event, EventView, attributes_view, events_view};
use crate::events::contract_address_attribute;

verus! {

broadcast use vstd::seq_lib::group_seq_properties;

/// An attribute with its key and value trimmed.
pub open spec fn sanitized_attribute(a: AttributeView) -> AttributeView {
    AttributeView { key: trimmed(a.key), value: trimmed(a.value) }
}

/// Why a contract attribute is refused, if it is: an empty key, an empty
/// value (both after trimming), or a key that starts with the reserved `_`.
pub open spec fn attribute_error(a: AttributeView) -> Option<SystemError> {
    if trimmed(a.key).len() == 0 {
        Some(SystemError::EmptyEventKey)
    } else if trimmed(a.value).len() == 0 {
        Some(SystemError::EmptyEventValue)
    } else if has_prefix(trimmed(a.key), "_"@) {
        Some(SystemError::ReservedEventPrefixIsUsed)
    } else {
        None
    }
}

/// How many attributes at the front of `s` are accepted.
pub open spec fn accepted_prefix_len(s: Seq<AttributeView>) -> nat
    decreases s.len(),
{
    if s.len() > 0 && attribute_error(s[0]) is None {
        1 + accepted_prefix_len(s.drop_first())
    } else {
        0
    }
}

/// The attributes as they stand after the first `n` of them were trimmed.
pub open spec fn sanitized_up_to(s: Seq<AttributeView>, n: int) -> Seq<AttributeView> {
    Seq::new(s.len(), |j: int| if j < n { sanitized_attribute(s[j]) } else { s[j] })
}

/// The sanitized attributes of a contract: each one trimmed, followed by the
/// contract address; or the error of the first refused attribute.
pub open spec fn sanitize_attributes(s: Seq<AttributeView>, address: Seq<char>) -> Result<
    Seq<AttributeView>,
    SystemError,
> {
    let n = accepted_prefix_len(s);
    if n < s.len() {
        Err(attribute_error(s[n as int])->0)
    } else {
        Ok(s.map_values(|a: AttributeView| sanitized_attribute(a)).push(
            contract_address_attribute(address),
        ))
    }
}

/// Where the first `i` attributes are accepted, at least `i` are, and where
/// the next is refused, exactly `i` are.
pub proof fn lemma_accepted_prefix_len(s: Seq<AttributeView>, i: int)
    requires
        0 <= i <= s.len(),
        forall|j: int| 0 <= j < i ==> attribute_error(#[trigger] s[j]) is None,
    ensures
        i <= accepted_prefix_len(s) <= s.len(),
        i < s.len() && attribute_error(s[i]) is Some ==> accepted_prefix_len(s) == i,
    decreases s.len(),
{
    if s.len() > 0 {
        if i > 0 {
            assert forall|j: int| 0 <= j < i - 1 implies attribute_error(
                #[trigger] s.drop_first()[j],
            ) is None by {
                assert(s.drop_first()[j] == s[j + 1]);
            }
            lemma_accepted_prefix_len(s.drop_first(), i - 1);
        } else {
            lemma_accepted_prefix_len(s.drop_first(), 0);
        }
    }
}

/// Where every attribute is accepted, none is refused.
pub proof fn lemma_all_accepted(s: Seq<AttributeView>)
    requires
        accepted_prefix_len(s) == s.len(),
    ensures
        forall|j: int| 0 <= j < s.len() ==> attribute_error(#[trigger] s[j]) is None,
    decreases s.len(),
{
    if s.len() > 0 {
        lemma_all_accepted(s.drop_first());
        assert forall|j: int| 0 <= j < s.len() implies attribute_error(#[trigger] s[j]) is None by {
            if j > 0 {
                assert(s[j] == s.drop_first()[j - 1]);
            }
        }
    }
}

/// Trims the key and value of each attribute and appends the contract address
/// attribute. Fails on the first attribute whose trimmed key or value is empty
/// or whose trimmed key starts with `_`; the attributes before it stay
/// trimmed and the rest untouched.
pub fn sanitize_custom_attributes(attributes: &mut Vec<Attribute>, contract_address: String) -> (r:
    Result<(), SystemError>)
    ensures
        match sanitize_attributes(attributes_view(old(attributes)@), contract_address@) {
            Ok(s) => r is Ok && attributes_view(final(attributes)@) == s,
            Err(e) => r == Err::<(), SystemError>(e) && attributes_view(final(attributes)@)
                == sanitized_up_to(
                attributes_view(old(attributes)@),
                accepted_prefix_len(attributes_view(old(attributes)@)) as int,
            ),
        },
{
    let ghost orig = attributes_view(attributes@);
    let n = attributes.len();
    let mut i: usize = 0;
    while i < n
        invariant
            n == attributes@.len(),
            n == orig.len(),
            orig == attributes_view(old(attributes)@),
            0 <= i <= n,
            forall|j: int| 0 <= j < i ==> attribute_error(#[trigger] orig[j]) is None,
            attributes_view(attributes@) =~= sanitized_up_to(orig, i as int),
        decreases n - i,
    {
        assert(attributes_view(attributes@)[i as int] == attributes@[i as int]@);
        assert(sanitized_up_to(orig, i as int)[i as int] == orig[i as int]);
        let new_key = trim(attributes[i].key.as_str());
        let new_value = trim(attributes[i].value.as_str());
        let refused = if new_key.is_empty() {
            Some(SystemError::EmptyEventKey)
        } else if new_value.is_empty() {
            Some(SystemError::EmptyEventValue)
        } else if starts_with(new_key, "_") {
            Some(SystemError::ReservedEventPrefixIsUsed)
        } else {
            None
        };
        assert(refused == attribute_error(orig[i as int]));
        match refused {
            Some(e) => {
                proof {
                    lemma_accepted_prefix_len(orig, i as int);
                    assert(attributes_view(attributes@) == sanitized_up_to(
                        orig,
                        accepted_prefix_len(orig) as int,
                    ));
                    assert(accepted_prefix_len(orig) == i);
                    assert(attribute_error(orig[i as int]) == Some(e));
                    assert(sanitize_attributes(orig, contract_address@) == Err::<Seq<AttributeView>, SystemError>(e));
                }
                return Err(e);
            },
            None => {},
        }
        let attr = Attribute { key: new_key.to_owned(), value: new_value.to_owned() };
        assert(attr@ == sanitized_attribute(orig[i as int]));
        let ghost prev = attributes@;
        attributes.set(i, attr);
        assert(attributes@ == prev.update(i as int, attr));
        assert forall|j: int| 0 <= j < n implies attributes_view(attributes@)[j] == sanitized_up_to(
            orig,
            i + 1,
        )[j] by {
            if j != i {
                assert(attributes@[j] == prev[j]);
                assert(attributes_view(prev)[j] == prev[j]@);
                assert(sanitized_up_to(orig, i as int)[j] == sanitized_up_to(orig, i + 1)[j]);
            }
        }
        assert(attributes_view(attributes@) =~= sanitized_up_to(orig, i + 1));
        i = i + 1;
    }
    proof {
        lemma_accepted_prefix_len(orig, n as int);
    }
    let ghost before_push = attributes_view(attributes@);
    let addr_attr = Attribute { key: String::from_str("_contract_address"), value: contract_address };
    attributes.push(addr_attr);
    assert(attributes_view(attributes@) =~= before_push.push(addr_attr@));
    assert(before_push =~= orig.map_values(|a: AttributeView| sanitized_attribute(a)));
    Ok(())
}

/// The type tag of the event that carries a contract's own attributes.
pub open spec fn wasm_event_type() -> Seq<char> {
    "wasm"@
}

/// A contract's custom event as emitted: its trimmed type, which must take at
/// least two bytes, behind the `wasm-` prefix, with sanitized attributes.
pub open spec fn custom_event(ev: EventView, address: Seq<char>) -> Result<EventView, SystemError> {
    let ty = trimmed(ev.ty);
    if encode_utf8(ty).len() < 2 {
        Err(SystemError::EventTypeIsTooShort)
    } else {
        match sanitize_attributes(ev.attributes, address) {
            Ok(a) => Ok(EventView { ty: "wasm-"@ + ty, attributes: a }),
            Err(e) => Err(e),
        }
    }
}

/// The custom events emitted, in order, up to the first refused one, and the
/// error of that one if there is one.
pub open spec fn custom_events(evs: Seq<EventView>, address: Seq<char>) -> (
    Seq<EventView>,
    Option<SystemError>,
)
    decreases evs.len(),
{
    if evs.len() == 0 {
        (seq![], None)
    } else {
        let (prev, err) = custom_events(evs.drop_last(), address);
        if err is Some {
            (prev, err)
        } else {
            match custom_event(evs.last(), address) {
                Ok(e) => (prev.push(e), None),
                Err(x) => (prev, Some(x)),
            }
        }
    }
}

/// The events emitted for a contract's response: the `wasm` event with its
/// attributes where it returned any, then its custom events; up to the first
/// refused attribute or event, and the error of that one if there is one.
pub open spec fn contract_events(
    address: Seq<char>,
    attributes: Seq<AttributeView>,
    events: Seq<EventView>,
) -> (Seq<EventView>, Option<SystemError>) {
    if attributes.len() == 0 {
        custom_events(events, address)
    } else {
        match sanitize_attributes(attributes, address) {
            Err(e) => (seq![], Some(e)),
            Ok(a) => {
                let (c, err) = custom_events(events, address);
                (seq![EventView { ty: wasm_event_type(), attributes: a }] + c, err)
            },
        }
    }
}

/// `Ok` where there is no error, else the error.
pub open spec fn outcome(err: Option<SystemError>) -> Result<(), SystemError> {
    match err {
        Some(e) => Err(e),
        None => Ok(()),
    }
}

proof fn lemma_custom_events_stop(all: Seq<EventView>, address: Seq<char>, k: int)
    requires
        0 <= k <= all.len(),
        custom_events(all.take(k), address).1 is Some,
    ensures
        custom_events(all, address) == custom_events(all.take(k), address),
    decreases all.len() - k,
{
    if k < all.len() {
        assert(all.take(k + 1).drop_last() =~= all.take(k));
        lemma_custom_events_stop(all, address, k + 1);
    } else {
        assert(all.take(k) =~= all);
    }
}

/// Emits the `wasm-` prefixed custom events of a contract, in order, each
/// with sanitized attributes; stops at the first refused one.
pub fn emit_custom_events(out: &mut Vec<Event>, contract_address: &String, events: Vec<Event>) -> (r:
    Result<(), SystemError>)
    ensures
        events_view(final(out)@) == events_view(old(out)@) + custom_events(
            events_view(events@),
            contract_address@,
        ).0,
        r == outcome(custom_events(events_view(events@), contract_address@).1),
{
    let ghost all = events_view(events@);
    let ghost start = events_view(out@);
    let n = events.len();
    let mut rest = events;
    let mut k: usize = 0;
    while rest.len() > 0
        invariant
            k + rest@.len() == all.len(),
            all.len() == n,
            all == events_view(events@),
            start == events_view(old(out)@),
            events_view(rest@) =~= all.skip(k as int),
            custom_events(all.take(k as int), contract_address@).1 is None,
            events_view(out@) =~= start + custom_events(all.take(k as int), contract_address@).0,
        decreases rest@.len(),
    {
        let ev = rest.remove(0);
        assert(ev@ == all[k as int]);
        assert(all.take(k + 1).drop_last() =~= all.take(k as int));
        let ty = trim(ev.ty.as_str());
        assert(all.take(k + 1).last() == ev@);
        if ty.as_bytes().len() < 2 {
            proof {
                assert(ty@ == trimmed(ev@.ty));
                assert(encode_utf8(ty@).len() < 2);
                assert(custom_event(ev@, contract_address@) is Err);
                assert(custom_events(all.take(k + 1), contract_address@) == (
                    custom_events(all.take(k as int), contract_address@).0,
                    Some(SystemError::EventTypeIsTooShort),
                ));
                lemma_custom_events_stop(all, contract_address@, k + 1);
            }
            return Err(SystemError::EventTypeIsTooShort);
        }
        let mut attributes = ev.attributes;
        match sanitize_custom_attributes(&mut attributes, contract_address.clone()) {
            Err(e) => {
                proof {
                    lemma_custom_events_stop(all, contract_address@, k + 1);
                }
                return Err(e);
            },
            Ok(()) => {},
        }
        let mut name = String::from_str("wasm-");
        name.append(ty);
        let emitted = Event { ty: name, attributes };
        let ghost before = events_view(out@);
        out.push(emitted);
        assert(events_view(out@) =~= before.push(emitted@));
        k = k + 1;
    }
    assert(all.take(k as int) =~= all);
    Ok(())
}

/// Emits the events of a contract's response: the `wasm` event carrying its
/// sanitized attributes where it returned any, then its custom events.
pub fn emit_contract_events(
    out: &mut Vec<Event>,
    contract_address: &String,
    attributes: Vec<Attribute>,
    events: Vec<Event>,
) -> (r: Result<(), SystemError>)
    ensures
        events_view(final(out)@) == events_view(old(out)@) + contract_events(
            contract_address@,
            attributes_view(attributes@),
            events_view(events@),
        ).0,
        r == outcome(
            contract_events(contract_address@, attributes_view(attributes@), events_view(events@)).1,
        ),
{
    let ghost attrs0 = attributes_view(attributes@);
    let ghost evs0 = events_view(events@);
    if attributes.len() > 0 {
        let mut attributes = attributes;
        match sanitize_custom_attributes(&mut attributes, contract_address.clone()) {
            Err(e) => {
                return Err(e);
            },
            Ok(()) => {},
        }
        let wasm = Event { ty: String::from_str("wasm"), attributes };
        let ghost before = events_view(out@);
        out.push(wasm);
        assert(events_view(out@) =~= before.push(wasm@));
    }
    let ghost mid = events_view(out@);
    let r = emit_custom_events(out, contract_address, events);
    assert(events_view(out@) =~= events_view(old(out)@) + contract_events(
        contract_address@,
        attrs0,
        evs0,
    ).0);
    r
}

} // verus!
