//! What holds of the routes: what an order changes, and where a request goes.

use crate::address::SocketAddr;
use crate::http::{HttpState, RequestLine};
use crate::messages::{Command, FrontView, HttpFront, HttpProxyOrder, ServerMessage};
use crate::routes::{differs_from, Routes, RoutesView};
use crate::server::{Answer, Server, ServerView};
use vstd::prelude::*;

verus! {

// ---- Changing the routes ----

/// New routes lead nowhere.
pub proof fn law_new_routes_are_empty(routes: Routes)
    requires
        call_ensures(Routes::new, (), routes),
    ensures
        routes@.fronts == Map::<Seq<char>, Seq<FrontView>>::empty(),
        routes@.instances == Map::<Seq<char>, Seq<SocketAddr>>::empty(),
{
}

/// An added front comes last among those of its host. The fronts of every other host and
/// all instances stay as they are.
pub proof fn law_added_fronts_come_last(routes: &mut Routes, front: HttpFront, host: Seq<char>)
    requires
        call_ensures(Routes::add_http_front, (routes, front), ()),
    ensures
        final(routes)@.instances == old(routes)@.instances,
        host != front.hostname@ ==> final(routes)@.fronts.contains_key(host)
            == old(routes)@.fronts.contains_key(host) && final(routes)@.fronts[host]
            == old(routes)@.fronts[host],
        final(routes)@.fronts.contains_key(front.hostname@),
        final(routes)@.fronts[front.hostname@].last() == front@,
        final(routes)@.fronts[front.hostname@].drop_last() == (
        if old(routes)@.fronts.contains_key(front.hostname@) {
            old(routes)@.fronts[front.hostname@]
        } else {
            Seq::empty()
        }),
        final(routes)@.fronts[front.hostname@].len() > 0,
        front@.app_id == front.app_id@ && front@.hostname == front.hostname@ && front@.path_begin
            == front.path_begin@,
{
}

/// Removing a front keeps those fronts of its host that differ from it, in their order.
/// The fronts of every other host and all instances stay as they are.
pub proof fn law_other_fronts_are_kept(routes: &mut Routes, front: HttpFront, host: Seq<char>)
    requires
        call_ensures(Routes::remove_http_front, (routes, front), ()),
    ensures
        final(routes)@.instances == old(routes)@.instances,
        final(routes)@.fronts.dom() == old(routes)@.fronts.dom(),
        old(routes)@.fronts.contains_key(host) ==> final(routes)@.fronts[host] == (if host
            == front.hostname@ {
            old(routes)@.fronts[host].filter(
                |kept: FrontView|
                    kept.app_id != front.app_id@ || kept.hostname != front.hostname@
                        || kept.path_begin != front.path_begin@,
            )
        } else {
            old(routes)@.fronts[host]
        }),
{
    let kept = |kept: FrontView|
        kept.app_id != front.app_id@ || kept.hostname != front.hostname@ || kept.path_begin
            != front.path_begin@;
    assert(kept =~= differs_from(front@));
    assert(final(routes)@.fronts.dom() =~= old(routes)@.fronts.dom());
}

/// An added instance comes last among those of its application. The instances of every
/// other application and all fronts stay as they are.
pub proof fn law_added_instances_come_last(
    routes: &mut Routes,
    app_id: &str,
    address: &SocketAddr,
    other: Seq<char>,
)
    requires
        call_ensures(Routes::add_instance, (routes, app_id, address), ()),
    ensures
        final(routes)@.fronts == old(routes)@.fronts,
        other != app_id@ ==> final(routes)@.instances.contains_key(other)
            == old(routes)@.instances.contains_key(other) && final(routes)@.instances[other]
            == old(routes)@.instances[other],
        final(routes)@.instances.contains_key(app_id@),
        final(routes)@.instances[app_id@].len() > 0,
        final(routes)@.instances[app_id@].last() == *address,
        final(routes)@.instances[app_id@].drop_last() == (
        if old(routes)@.instances.contains_key(app_id@) {
            old(routes)@.instances[app_id@]
        } else {
            Seq::empty()
        }),
{
}

/// Removing an instance keeps those instances of its application that have another
/// address, in their order. The instances of every other application and all fronts stay
/// as they are.
pub proof fn law_other_instances_are_kept(
    routes: &mut Routes,
    app_id: &str,
    address: &SocketAddr,
    other: Seq<char>,
)
    requires
        call_ensures(Routes::remove_instance, (routes, app_id, address), ()),
    ensures
        final(routes)@.fronts == old(routes)@.fronts,
        final(routes)@.instances.dom() == old(routes)@.instances.dom(),
        old(routes)@.instances.contains_key(other) ==> final(routes)@.instances[other] == (if other
            == app_id@ {
            old(routes)@.instances[other].filter(|kept: SocketAddr| kept != *address)
        } else {
            old(routes)@.instances[other]
        }),
{
    let kept = |kept: SocketAddr| kept != *address;
    assert(kept =~= differs_from(*address));
    assert(final(routes)@.instances.dom() =~= old(routes)@.instances.dom());
}

/// The proxy changes its routes as the routes change by themselves, and nothing else.
pub proof fn law_the_proxy_changes_its_routes(
    server: &mut Server,
    routes: &mut Routes,
    front: HttpFront,
    app_id: &str,
    address: &SocketAddr,
)
    requires
        old(routes)@ == old(server)@.routes,
        ({
            ||| call_ensures(Server::add_http_front, (server, front), ()) && call_ensures(
                Routes::add_http_front,
                (routes, front),
                (),
            )
            ||| call_ensures(Server::remove_http_front, (server, front), ()) && call_ensures(
                Routes::remove_http_front,
                (routes, front),
                (),
            )
            ||| call_ensures(Server::add_instance, (server, app_id, address), ()) && call_ensures(
                Routes::add_instance,
                (routes, app_id, address),
                (),
            )
            ||| call_ensures(Server::remove_instance, (server, app_id, address), ())
                && call_ensures(Routes::remove_instance, (routes, app_id, address), ())
        }),
    ensures
        final(server).wf(),
        final(server)@ == (ServerView { routes: final(routes)@, ..old(server)@ }),
{
}

/// The routes can be changed at any time, by themselves and in the proxy.
pub proof fn law_routes_can_always_be_changed(
    routes: &mut Routes,
    server: &mut Server,
    front: HttpFront,
    app_id: &str,
    address: &SocketAddr,
)
    ensures
        call_requires(Routes::add_http_front, (routes, front)),
        call_requires(Routes::remove_http_front, (routes, front)),
        call_requires(Routes::add_instance, (routes, app_id, address)),
        call_requires(Routes::remove_instance, (routes, app_id, address)),
        old(server).wf() ==> call_requires(Server::add_http_front, (server, front)),
        old(server).wf() ==> call_requires(Server::remove_http_front, (server, front)),
        old(server).wf() ==> call_requires(Server::add_instance, (server, app_id, address)),
        old(server).wf() ==> call_requires(Server::remove_instance, (server, app_id, address)),
{
}

// ---- Orders ----

/// An order about a front, or about an instance whose address could be parsed, is carried
/// out and answered with the message that says so. Only the routes change, as the order
/// says.
pub proof fn law_orders_are_carried_out(
    server: &mut Server,
    routes: &mut Routes,
    front: HttpFront,
    app_id: &str,
    order: HttpProxyOrder,
    address: Option<SocketAddr>,
    answer: Answer,
)
    requires
        old(routes)@ == old(server)@.routes,
        call_ensures(Server::notify, (server, order, address), answer),
    ensures
        order == HttpProxyOrder::Command(Command::AddHttpFront(front)) && call_ensures(
            Routes::add_http_front,
            (routes, front),
            (),
        ) ==> answer == Answer::Message(ServerMessage::AddedHttpFront) && final(server)@ == (
        ServerView { routes: final(routes)@, ..old(server)@ }),
        order == HttpProxyOrder::Command(Command::RemoveHttpFront(front)) && call_ensures(
            Routes::remove_http_front,
            (routes, front),
            (),
        ) ==> answer == Answer::Message(ServerMessage::RemovedHttpFront) && final(server)@ == (
        ServerView { routes: final(routes)@, ..old(server)@ }),
        (order matches HttpProxyOrder::Command(Command::AddInstance(instance)) && app_id@
            == instance.app_id@ && address is Some && call_ensures(
            Routes::add_instance,
            (routes, app_id, &address->0),
            (),
        )) ==> answer == Answer::Message(ServerMessage::AddedInstance) && final(server)@ == (
        ServerView { routes: final(routes)@, ..old(server)@ }),
        (order matches HttpProxyOrder::Command(Command::RemoveInstance(instance)) && app_id@
            == instance.app_id@ && address is Some && call_ensures(
            Routes::remove_instance,
            (routes, app_id, &address->0),
            (),
        )) ==> answer == Answer::Message(ServerMessage::RemovedInstance) && final(server)@ == (
        ServerView { routes: final(routes)@, ..old(server)@ }),
{
}

/// An order to stop ends the event loop. An order whose address could not be parsed, or
/// that the proxy does not know, gets no answer. None of them changes anything.
pub proof fn law_other_orders_change_nothing(
    server: &mut Server,
    order: HttpProxyOrder,
    address: Option<SocketAddr>,
    answer: Answer,
)
    requires
        call_ensures(Server::notify, (server, order, address), answer),
    ensures
        order is Stop ==> answer == Answer::Shutdown && final(server)@ == old(server)@,
        order == HttpProxyOrder::Command(Command::Other) ==> answer == Answer::Nothing
            && final(server)@ == old(server)@,
        address is None && (order matches HttpProxyOrder::Command(command) && (
        command is AddInstance || command is RemoveInstance)) ==> answer == Answer::Nothing
            && final(server)@ == old(server)@,
{
}

/// Every order is taken at any time, and leaves the proxy sound.
pub proof fn law_orders_are_always_taken(
    server: &mut Server,
    order: HttpProxyOrder,
    address: Option<SocketAddr>,
    answer: Answer,
)
    requires
        old(server).wf(),
    ensures
        call_requires(Server::notify, (server, order, address)),
        call_ensures(Server::notify, (server, order, address), answer) ==> final(server).wf(),
{
}

// ---- Where a request goes ----

/// A request goes to the instance that the number draws from those of the application
/// of the first front of its host, whatever its resource. It goes nowhere where the host
/// has no front, or the application never had an instance.
pub proof fn law_requests_go_to_the_first_front(
    routes: &Routes,
    host: &str,
    uri: &str,
    draw: usize,
    address: Option<SocketAddr>,
)
    requires
        call_ensures(Routes::instance_for, (routes, host, uri, draw), address),
    ensures
        ({
            let fronts = routes@.fronts;
            let instances = routes@.instances;
            let app_id = fronts[host@][0].app_id;
            if fronts.contains_key(host@) && fronts[host@].len() > 0 && instances.contains_key(
                app_id,
            ) {
                address == Some(instances[app_id][(draw as nat % instances[app_id].len()) as int])
            } else {
                address is None
            }
        }),
{
}

/// A random draw gives one of the instances of the application of the first front of the
/// host, and gives none only where there are none to choose from.
pub proof fn law_random_draws_stay_with_the_first_front(
    routes: &Routes,
    server: &Server,
    host: &str,
    uri: &str,
    address: Option<SocketAddr>,
)
    requires
        routes@ == server@.routes,
        call_ensures(Routes::backend_from_request, (routes, host, uri), address) || call_ensures(
            Server::backend_from_request,
            (server, host, uri),
            address,
        ),
    ensures
        ({
            let fronts = routes@.fronts;
            let instances = routes@.instances;
            let app_id = fronts[host@][0].app_id;
            if fronts.contains_key(host@) && fronts[host@].len() > 0 && instances.contains_key(
                app_id,
            ) {
                address is Some && instances[app_id].contains(address->0)
            } else {
                address is None
            }
        }),
{
}

/// A draw is made for every host but one whose application has lost all its instances,
/// whatever the resource and the number. The routes tell which hosts these are.
pub proof fn law_draws_are_refused_only_from_empty_lists(
    routes: &Routes,
    server: &Server,
    host: &str,
    uri: &str,
    draw: usize,
    can: bool,
)
    requires
        routes@ == server@.routes,
    ensures
        ({
            let fronts = routes@.fronts;
            let instances = routes@.instances;
            let app_id = fronts[host@][0].app_id;
            let lost = fronts.contains_key(host@) && fronts[host@].len() > 0
                && instances.contains_key(app_id) && instances[app_id].len() == 0;
            &&& !lost ==> call_requires(Routes::instance_for, (routes, host, uri, draw))
            &&& !lost ==> call_requires(Routes::backend_from_request, (routes, host, uri))
            &&& !lost ==> call_requires(Server::backend_from_request, (server, host, uri))
            &&& call_ensures(Routes::can_draw, (routes, host), can) ==> can == !lost
        }),
{
}

/// The proxy tells of a request what its routes tell of the host that the request names,
/// whatever else the request says. One without a host draws nothing.
pub proof fn law_the_host_alone_decides_on_a_draw(
    server: &Server,
    routes: &Routes,
    state: &HttpState,
    host: &str,
    can: bool,
    host_can: bool,
)
    requires
        routes@ == server@.routes,
        call_ensures(Server::can_draw, (server, state), can),
        call_ensures(Routes::can_draw, (routes, host), host_can),
    ensures
        *state matches HttpState::HasHost(_, _, name) && name@ == host@ ==> can == host_can,
        *state matches HttpState::Proxying(_, name) && name@ == host@ ==> can == host_can,
        *state is Initial || *state is Error || *state is HasRequestLine ==> can,
{
}

/// The instances that a request may go to depend on its host alone: they are the same for
/// any two request lines, and are those that the host has.
pub proof fn law_the_host_alone_decides(
    routes: RoutesView,
    first: RequestLine,
    second: RequestLine,
    read: usize,
    other_read: usize,
    host: String,
)
    ensures
        routes.request_candidates(HttpState::HasHost(read, first, host)) == routes.candidates(
            host@,
        ),
        routes.request_candidates(HttpState::HasHost(read, first, host))
            == routes.request_candidates(HttpState::HasHost(other_read, second, host)),
        routes.request_drawable(HttpState::HasHost(read, first, host)) == routes.drawable(host@),
        routes.request_candidates(HttpState::HasHost(read, first, host)) is Some <==> (
        routes.fronts.contains_key(host@) && routes.fronts[host@].len() > 0
            && routes.instances.contains_key(routes.fronts[host@][0].app_id)),
{
}

} // verus!
