//! What holds of the plain values: event sets, requests and orders.

use crate::event::{EventSet, Token};
use crate::http::{HttpState, RequestLine};
use crate::messages::{decimal, Command, HttpFront, HttpProxyOrder, Instance};
use vstd::prelude::*;

verus! {

/// The sets that are named after events hold these events and no others.
pub proof fn law_named_sets_hold_their_events(set: EventSet)
    ensures
        call_ensures(EventSet::readable, (), set) ==> set.readable && !set.writable && !set.error
            && !set.hup,
        call_ensures(EventSet::writable, (), set) ==> !set.readable && set.writable && !set.error
            && !set.hup,
        call_ensures(EventSet::all, (), set) ==> set.readable && set.writable && set.error
            && set.hup,
{
}

/// Asking a set for an event, or a token for its number, tells what it holds.
pub proof fn law_sets_and_tokens_tell_what_they_hold(
    set: EventSet,
    held: bool,
    token: Token,
    number: usize,
)
    ensures
        call_ensures(EventSet::is_readable, (&set,), held) ==> held == set.readable,
        call_ensures(EventSet::is_writable, (&set,), held) ==> held == set.writable,
        call_ensures(EventSet::is_hup, (&set,), held) ==> held == set.hup,
        call_ensures(Token::as_usize, (&token,), number) ==> token == Token(number),
{
}

/// An event is in a set after an insertion where it was there before or was inserted.
pub proof fn law_insertion_adds_events(set: &mut EventSet, other: EventSet)
    requires
        call_ensures(EventSet::insert, (set, other), ()),
    ensures
        final(set).readable == (old(set).readable || other.readable),
        final(set).writable == (old(set).writable || other.writable),
        final(set).error == (old(set).error || other.error),
        final(set).hup == (old(set).hup || other.hup),
{
}

/// An event is in a set after a removal where it was there before and was not removed.
pub proof fn law_removal_takes_events(set: &mut EventSet, other: EventSet)
    requires
        call_ensures(EventSet::remove, (set, other), ()),
    ensures
        final(set).readable == (old(set).readable && !other.readable),
        final(set).writable == (old(set).writable && !other.writable),
        final(set).error == (old(set).error && !other.error),
        final(set).hup == (old(set).hup && !other.hup),
{
}

/// The host is known from `HasHost` on, the request line from `HasRequestLine` on, and
/// both are handed out as they were read.
pub proof fn law_requests_tell_what_was_read(
    state: &HttpState,
    host: Option<String>,
    line: Option<RequestLine>,
    uri: Option<String>,
)
    requires
        call_ensures(HttpState::get_host, (state,), host),
        call_ensures(HttpState::get_request_line, (state,), line),
        call_ensures(HttpState::get_uri, (state,), uri),
    ensures
        match *state {
            HttpState::Initial => host is None && line is None && uri is None,
            HttpState::Error(_) => host is None && line is None && uri is None,
            HttpState::HasRequestLine(_, read) => host is None && line == Some(read) && uri == Some(
                read.uri,
            ),
            HttpState::HasHost(_, read, name) => host == Some(name) && line == Some(read) && uri
                == Some(read.uri),
            HttpState::Proxying(read, name) => host == Some(name) && line == Some(read) && uri
                == Some(read.uri),
        },
{
}

/// A copy of a request, of its first line or of a front is the same.
pub proof fn law_copies_are_the_same(
    state: &HttpState,
    same_state: HttpState,
    line: &RequestLine,
    same_line: RequestLine,
    front: &HttpFront,
    same_front: HttpFront,
)
    ensures
        call_ensures(HttpState::clone, (state,), same_state) ==> same_state == *state,
        call_ensures(RequestLine::clone, (line,), same_line) ==> same_line == *line,
        call_ensures(HttpFront::clone, (front,), same_front) ==> same_front == *front,
{
}

/// Two fronts are the same where application, host and path are the same text.
pub proof fn law_fronts_are_compared_in_full(front: &HttpFront, other: &HttpFront, same: bool)
    requires
        call_ensures(HttpFront::eq, (front, other), same),
    ensures
        same == (front.app_id@ == other.app_id@ && front.hostname@ == other.hostname@
            && front.path_begin@ == other.path_begin@),
{
}

/// The number that a digit stands for, and ten for anything else.
pub open spec fn digit(c: char) -> nat {
    if '0' <= c <= '9' {
        (c as int - '0' as int) as nat
    } else {
        10
    }
}

/// The number that a text of digits stands for, the last digit counting once.
pub open spec fn number(text: Seq<char>) -> nat
    decreases text.len(),
{
    if text.len() == 0 {
        0
    } else {
        10 * number(text.drop_last()) + digit(text.last())
    }
}

/// The digits of a number are digits, stand for the number, and start with no zero
/// that could be left out.
pub proof fn law_digits_stand_for_their_number(n: nat)
    ensures
        number(decimal(n)) == n,
        decimal(n).len() > 0,
        forall|i: int| 0 <= i < decimal(n).len() ==> digit(#[trigger] decimal(n)[i]) < 10,
        decimal(n).len() > 1 ==> decimal(n)[0] != '0',
    decreases n,
{
    let digits = seq!['0', '1', '2', '3', '4', '5', '6', '7', '8', '9'];
    assert(forall|i: int| 0 <= i < 10 ==> digit(#[trigger] digits[i]) == i);
    if n < 10 {
        assert(decimal(n).drop_last() =~= Seq::empty());
        assert(number(decimal(n).drop_last()) == 0);
    } else {
        law_digits_stand_for_their_number(n / 10);
        assert(decimal(n).drop_last() =~= decimal(n / 10));
        assert(decimal(n).last() == digits[(n % 10) as int]);
        assert forall|i: int| 0 <= i < decimal(n).len() implies digit(#[trigger] decimal(n)[i])
            < 10 by {
            if i < decimal(n / 10).len() {
                assert(decimal(n)[i] == decimal(n / 10)[i]);
            }
        }
        assert(decimal(n)[0] == decimal(n / 10)[0]);
        assert(decimal(n / 10).len() == 1 ==> digit(decimal(n / 10)[0]) == n / 10) by {
            if decimal(n / 10).len() == 1 {
                assert(decimal(n / 10).drop_last() =~= Seq::empty());
                assert(number(decimal(n / 10).drop_last()) == 0);
            }
        }
    }
}

/// A text is an address where it is made of the host part, a colon and the digits of the
/// port, with no zero that could be left out.
pub open spec fn is_address(text: Seq<char>, ip: Seq<char>, port: u16) -> bool {
    let digits = text.skip(ip.len() as int + 1);
    &&& text.len() > ip.len() + 1
    &&& text.take(ip.len() as int) == ip
    &&& text[ip.len() as int] == ':'
    &&& number(digits) == port
    &&& forall|i: int| 0 <= i < digits.len() ==> digit(#[trigger] digits[i]) < 10
    &&& digits.len() > 1 ==> digits[0] != '0'
}

/// The address of an instance names its host and its port.
pub proof fn law_addresses_name_host_and_port(instance: &Instance, text: String)
    requires
        call_ensures(Instance::address, (instance,), text),
    ensures
        is_address(text@, instance.ip_address@, instance.port),
{
    reveal_strlit(":");
    law_digits_stand_for_their_number(instance.port as nat);
    let ip = instance.ip_address@;
    assert(text@ == ip + ":"@ + decimal(instance.port as nat));
    assert(text@.take(ip.len() as int) =~= ip);
    assert(text@.skip(ip.len() as int + 1) =~= decimal(instance.port as nat));
}

/// The orders that concern an instance name its address; no other order names one.
pub proof fn law_instance_orders_name_an_address(order: &HttpProxyOrder, text: Option<String>)
    requires
        call_ensures(HttpProxyOrder::address, (order,), text),
    ensures
        match *order {
            HttpProxyOrder::Command(Command::AddInstance(instance)) => text is Some && is_address(
                text->0@,
                instance.ip_address@,
                instance.port,
            ),
            HttpProxyOrder::Command(Command::RemoveInstance(instance)) => text is Some
                && is_address(text->0@, instance.ip_address@, instance.port),
            _ => text is None,
        },
{
    reveal_strlit(":");
    if let HttpProxyOrder::Command(command) = *order {
        if let Command::AddInstance(instance) = command {
            law_digits_stand_for_their_number(instance.port as nat);
            let ip = instance.ip_address@;
            assert(text->0@.take(ip.len() as int) =~= ip);
            assert(text->0@.skip(ip.len() as int + 1) =~= decimal(instance.port as nat));
        }
        if let Command::RemoveInstance(instance) = command {
            law_digits_stand_for_their_number(instance.port as nat);
            let ip = instance.ip_address@;
            assert(text->0@.take(ip.len() as int) =~= ip);
            assert(text->0@.skip(ip.len() as int + 1) =~= decimal(instance.port as nat));
        }
    }
}

} // verus!
