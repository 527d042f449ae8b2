//! Which requests go where: the fronts by host name, and the instances by
//! application.

use crate::address::SocketAddr;
use crate::http::HttpState;
use crate::messages::{FrontView, HttpFront};
use vstd::hash_map::StringHashMap;
use vstd::prelude::*;

verus! {

/// For each host the fronts that were added for it, and for each application
/// its instances, both in the order in which they were added.
#[verifier::ext_equal]
pub struct RoutesView {
    pub fronts: Map<Seq<char>, Seq<FrontView>>,
    pub instances: Map<Seq<char>, Seq<SocketAddr>>,
}

/// The list under a key, and the empty one where there is none.
pub open spec fn list_at<T>(lists: Map<Seq<char>, Seq<T>>, key: Seq<char>) -> Seq<T> {
    if lists.contains_key(key) {
        lists[key]
    } else {
        Seq::empty()
    }
}

/// The lists after `item` has been added at the end of that under `key`.
pub open spec fn with_item<T>(
    lists: Map<Seq<char>, Seq<T>>,
    key: Seq<char>,
    item: T,
) -> Map<Seq<char>, Seq<T>> {
    lists.insert(key, list_at(lists, key).push(item))
}

/// Picks out everything but `item`.
pub open spec fn differs_from<T>(item: T) -> spec_fn(T) -> bool {
    |other: T| other != item
}

/// The lists after every `item` has been taken from that under `key`.
pub open spec fn without_item<T>(
    lists: Map<Seq<char>, Seq<T>>,
    key: Seq<char>,
    item: T,
) -> Map<Seq<char>, Seq<T>> {
    if lists.contains_key(key) {
        lists.insert(key, lists[key].filter(differs_from(item)))
    } else {
        lists
    }
}

impl RoutesView {
    /// Nothing is configured.
    pub open spec fn empty() -> RoutesView {
        RoutesView { fronts: Map::empty(), instances: Map::empty() }
    }

    /// The routes after a front has been added.
    pub open spec fn with_front(self, front: FrontView) -> RoutesView {
        RoutesView { fronts: with_item(self.fronts, front.hostname, front), ..self }
    }

    /// The routes after every front like the given one has been removed.
    pub open spec fn without_front(self, front: FrontView) -> RoutesView {
        RoutesView { fronts: without_item(self.fronts, front.hostname, front), ..self }
    }

    /// The routes after an instance has been added.
    pub open spec fn with_instance(self, app_id: Seq<char>, address: SocketAddr) -> RoutesView {
        RoutesView { instances: with_item(self.instances, app_id, address), ..self }
    }

    /// The routes after every instance with the given address has been removed from
    /// an application.
    pub open spec fn without_instance(self, app_id: Seq<char>, address: SocketAddr) -> RoutesView {
        RoutesView { instances: without_item(self.instances, app_id, address), ..self }
    }

    /// The instances that a request for `host` may go to: those of the
    /// application of the first front of that host.
    pub open spec fn candidates(self, host: Seq<char>) -> Option<Seq<SocketAddr>> {
        if list_at(self.fronts, host).len() > 0 && self.instances.contains_key(
            self.fronts[host][0].app_id,
        ) {
            Some(self.instances[self.fronts[host][0].app_id])
        } else {
            None
        }
    }

    /// A request for `host` can be answered: either it has no instances to choose
    /// from, or there is at least one to draw.
    pub open spec fn drawable(self, host: Seq<char>) -> bool {
        self.candidates(host) matches Some(instances) ==> instances.len() > 0
    }

    /// The instances that a request may go to. There are none before its host and its
    /// resource are known.
    pub open spec fn request_candidates(self, state: HttpState) -> Option<Seq<SocketAddr>> {
        match (state.host(), state.uri()) {
            (Some(host), Some(_)) => self.candidates(host@),
            _ => None,
        }
    }

    /// A request can be answered without drawing from an empty list of instances.
    pub open spec fn request_drawable(self, state: HttpState) -> bool {
        self.request_candidates(state) matches Some(instances) ==> instances.len() > 0
    }

    /// The instance that the number `draw` selects for a request for `host`.
    pub open spec fn drawn(self, host: Seq<char>, draw: nat) -> Option<SocketAddr> {
        match self.candidates(host) {
            Some(instances) => Some(instances[(draw % instances.len()) as int]),
            None => None,
        }
    }
}

/// The text of each front of a list.
spec fn texts(list: Seq<HttpFront>) -> Seq<FrontView> {
    list.map_values(|front: HttpFront| front@)
}

/// The configured routes.
pub struct Routes {
    fronts: StringHashMap<Vec<HttpFront>>,
    instances: StringHashMap<Vec<SocketAddr>>,
}

impl View for Routes {
    type V = RoutesView;

    closed spec fn view(&self) -> RoutesView {
        RoutesView {
            fronts: self.fronts@.map_values(|list: Vec<HttpFront>| texts(list@)),
            instances: self.instances@.map_values(|list: Vec<SocketAddr>| list@),
        }
    }
}

/// `rand::random`: any number. The crate seeds its generator from the operating
/// system once per thread, which has to be able to supply the seed.
#[verifier::external_body]
fn random() -> (draw: usize) {
    rand::random::<usize>()
}

impl Routes {
    /// Routes with nothing configured.
    pub fn new() -> (routes: Routes)
        ensures
            routes@ == RoutesView::empty(),
    {
        let routes = Routes { fronts: StringHashMap::new(), instances: StringHashMap::new() };
        assert(routes@ =~= RoutesView::empty());
        routes
    }

    /// Adds a front at the end of those of its host.
    pub fn add_http_front(&mut self, http_front: HttpFront)
        ensures
            final(self)@ == old(self)@.with_front(http_front@),
    {
        let mut list: Vec<HttpFront> = Vec::new();
        if let Some(fronts) = self.fronts.get(http_front.hostname.as_str()) {
            for i in 0..fronts.len()
                invariant
                    list@ == fronts@.take(i as int),
            {
                list.push(fronts[i].clone());
                assert(fronts@.take(i + 1) =~= fronts@.take(i as int).push(fronts@[i as int]));
            }
            assert(fronts@.take(fronts@.len() as int) =~= fronts@);
        }
        let ghost before = list@;
        let hostname = http_front.hostname.clone();
        let ghost front = http_front;
        list.push(http_front);
        self.fronts.insert(hostname, list);
        proof {
            assert(texts(list@) =~= texts(before).push(front@));
            assert(texts(before) =~= list_at(old(self)@.fronts, front@.hostname));
            assert(self@ =~= old(self)@.with_front(front@));
        }
    }

    /// Removes every front like the given one.
    pub fn remove_http_front(&mut self, front: HttpFront)
        ensures
            final(self)@ == old(self)@.without_front(front@),
    {
        if self.fronts.contains_key(front.hostname.as_str()) {
            let mut list: Vec<HttpFront> = Vec::new();
            if let Some(fronts) = self.fronts.get(front.hostname.as_str()) {
                for i in 0..fronts.len()
                    invariant
                        texts(list@) == texts(fronts@).take(i as int).filter(
                            differs_from(front@),
                        ),
                {
                    proof {
                        reveal(Seq::filter);
                        assert(texts(fronts@).take(i + 1).drop_last() =~= texts(fronts@).take(
                            i as int,
                        ));
                    }
                    if fronts[i] != front {
                        let ghost before = list@;
                        list.push(fronts[i].clone());
                        assert(texts(list@) =~= texts(before).push(fronts@[i as int]@));
                    }
                }
                assert(texts(fronts@).take(fronts@.len() as int) =~= texts(fronts@));
            }
            let hostname = front.hostname.clone();
            self.fronts.insert(hostname, list);
        }
        assert(self@ =~= old(self)@.without_front(front@));
    }

    /// Adds an instance at the end of those of its application.
    pub fn add_instance(&mut self, app_id: &str, instance_address: &SocketAddr)
        ensures
            final(self)@ == old(self)@.with_instance(app_id@, *instance_address),
    {
        let mut list: Vec<SocketAddr> = Vec::new();
        if let Some(addrs) = self.instances.get(app_id) {
            for i in 0..addrs.len()
                invariant
                    list@ == addrs@.take(i as int),
            {
                list.push(addrs[i]);
                assert(addrs@.take(i + 1) =~= addrs@.take(i as int).push(addrs@[i as int]));
            }
            assert(addrs@.take(addrs@.len() as int) =~= addrs@);
        }
        list.push(*instance_address);
        self.instances.insert(app_id.to_owned(), list);
        assert(self@ =~= old(self)@.with_instance(app_id@, *instance_address));
    }

    /// Removes every instance of the application that has the given address.
    pub fn remove_instance(&mut self, app_id: &str, instance_address: &SocketAddr)
        ensures
            final(self)@ == old(self)@.without_instance(app_id@, *instance_address),
    {
        if self.instances.contains_key(app_id) {
            let mut list: Vec<SocketAddr> = Vec::new();
            if let Some(addrs) = self.instances.get(app_id) {
                for i in 0..addrs.len()
                    invariant
                        list@ == addrs@.take(i as int).filter(differs_from(*instance_address)),
                {
                    proof {
                        reveal(Seq::filter);
                        assert(addrs@.take(i + 1).drop_last() =~= addrs@.take(i as int));
                    }
                    if addrs[i] != *instance_address {
                        list.push(addrs[i]);
                    }
                }
                assert(addrs@.take(addrs@.len() as int) =~= addrs@);
            }
            self.instances.insert(app_id.to_owned(), list);
        }
        assert(self@ =~= old(self)@.without_instance(app_id@, *instance_address));
    }

    /// Whether a request for `host` can be answered without drawing from an empty
    /// list of instances.
    pub fn can_draw(&self, host: &str) -> (drawable: bool)
        ensures
            drawable == self@.drawable(host@),
    {
        if let Some(http_fronts) = self.fronts.get(host) {
            if http_fronts.len() > 0 {
                if let Some(app_instances) = self.instances.get(http_fronts[0].app_id.as_str()) {
                    return app_instances.len() > 0;
                }
            }
        }
        true
    }

    /// The instance that the number `draw` selects for a request for `host`.
    pub fn instance_for(&self, host: &str, uri: &str, draw: usize) -> (address: Option<SocketAddr>)
        requires
            self@.drawable(host@),
        ensures
            address == self@.drawn(host@, draw as nat),
    {
        if let Some(http_fronts) = self.fronts.get(host) {
            if http_fronts.len() > 0 {
                if let Some(app_instances) = self.instances.get(http_fronts[0].app_id.as_str()) {
                    let idx: usize = draw % app_instances.len();
                    return Some(app_instances[idx]);
                }
            }
        }
        None
    }

    /// An instance for a request for `host`, drawn at random from those it may go to.
    pub fn backend_from_request(&self, host: &str, uri: &str) -> (address: Option<SocketAddr>)
        requires
            self@.drawable(host@),
        ensures
            match self@.candidates(host@) {
                Some(instances) => address is Some && instances.contains(address->0),
                None => address is None,
            },
    {
        let draw: usize = random();
        self.instance_for(host, uri, draw)
    }
}

} // verus!
