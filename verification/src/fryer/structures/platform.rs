//! The network platform of the simulator: one zone with its router, hosts,
//! links and routes.

use super::common::{Prop, PropView};
use crate::copies::{clone_opt_string, clone_vec};
use vstd::prelude::*;

verus! {

/// Names the link that a route takes.
#[derive(Debug)]
pub struct LinkContainer {
    pub id: String,
}

/// Mathematical value of a [`LinkContainer`].
pub struct LinkContainerView {
    pub id: Seq<char>,
}

impl View for LinkContainer {
    type V = LinkContainerView;

    open spec fn view(&self) -> LinkContainerView {
        LinkContainerView {
            id: self.id@,
        }
    }
}

impl DeepView for LinkContainer {
    type V = LinkContainerView;

    open spec fn deep_view(&self) -> LinkContainerView {
        self@
    }
}

impl Clone for LinkContainer {
    fn clone(&self) -> (res: Self)
        ensures
            res@ == self@,
    {
        LinkContainer {
            id: self.id.clone(),
        }
    }
}
/// A route between two endpoints over one link.
#[derive(Debug)]
pub struct Route {
    pub src: String,
    pub dst: String,
    pub link_ctn: LinkContainer,
}

/// Mathematical value of a [`Route`].
pub struct RouteView {
    pub src: Seq<char>,
    pub dst: Seq<char>,
    pub link_ctn: LinkContainerView,
}

impl View for Route {
    type V = RouteView;

    open spec fn view(&self) -> RouteView {
        RouteView {
            src: self.src@,
            dst: self.dst@,
            link_ctn: self.link_ctn@,
        }
    }
}

impl DeepView for Route {
    type V = RouteView;

    open spec fn deep_view(&self) -> RouteView {
        self@
    }
}

impl Clone for Route {
    fn clone(&self) -> (res: Self)
        ensures
            res@ == self@,
    {
        Route {
            src: self.src.clone(),
            dst: self.dst.clone(),
            link_ctn: self.link_ctn.clone(),
        }
    }
}
/// A network link.
#[derive(Debug)]
pub struct Link {
    pub id: String,
    pub bandwidth: String,
    pub latency: String,
    pub sharing_policy: Option<String>,
    pub props: Vec<Prop>,
}

/// Mathematical value of a [`Link`].
pub struct LinkView {
    pub id: Seq<char>,
    pub bandwidth: Seq<char>,
    pub latency: Seq<char>,
    pub sharing_policy: Option<Seq<char>>,
    pub props: Seq<PropView>,
}

impl View for Link {
    type V = LinkView;

    open spec fn view(&self) -> LinkView {
        LinkView {
            id: self.id@,
            bandwidth: self.bandwidth@,
            latency: self.latency@,
            sharing_policy: self.sharing_policy.deep_view(),
            props: self.props.deep_view(),
        }
    }
}

impl DeepView for Link {
    type V = LinkView;

    open spec fn deep_view(&self) -> LinkView {
        self@
    }
}

impl Clone for Link {
    fn clone(&self) -> (res: Self)
        ensures
            res@ == self@,
    {
        Link {
            id: self.id.clone(),
            bandwidth: self.bandwidth.clone(),
            latency: self.latency.clone(),
            sharing_policy: clone_opt_string(&self.sharing_policy),
            props: clone_vec(&self.props),
        }
    }
}
/// A machine that runs one node.
#[derive(Debug)]
pub struct Host {
    pub id: String,
    pub speed: String,
    pub core: Option<String>,
    pub pstate: Option<String>,
    pub props: Vec<Prop>,
}

/// Mathematical value of a [`Host`].
pub struct HostView {
    pub id: Seq<char>,
    pub speed: Seq<char>,
    pub core: Option<Seq<char>>,
    pub pstate: Option<Seq<char>>,
    pub props: Seq<PropView>,
}

impl View for Host {
    type V = HostView;

    open spec fn view(&self) -> HostView {
        HostView {
            id: self.id@,
            speed: self.speed@,
            core: self.core.deep_view(),
            pstate: self.pstate.deep_view(),
            props: self.props.deep_view(),
        }
    }
}

impl DeepView for Host {
    type V = HostView;

    open spec fn deep_view(&self) -> HostView {
        self@
    }
}

impl Clone for Host {
    fn clone(&self) -> (res: Self)
        ensures
            res@ == self@,
    {
        Host {
            id: self.id.clone(),
            speed: self.speed.clone(),
            core: clone_opt_string(&self.core),
            pstate: clone_opt_string(&self.pstate),
            props: clone_vec(&self.props),
        }
    }
}
/// A router of the zone.
#[derive(Debug)]
pub struct Router {
    pub id: String,
    pub coordinates: Option<String>,
}

/// Mathematical value of a [`Router`].
pub struct RouterView {
    pub id: Seq<char>,
    pub coordinates: Option<Seq<char>>,
}

impl View for Router {
    type V = RouterView;

    open spec fn view(&self) -> RouterView {
        RouterView {
            id: self.id@,
            coordinates: self.coordinates.deep_view(),
        }
    }
}

impl DeepView for Router {
    type V = RouterView;

    open spec fn deep_view(&self) -> RouterView {
        self@
    }
}

impl Clone for Router {
    fn clone(&self) -> (res: Self)
        ensures
            res@ == self@,
    {
        Router {
            id: self.id.clone(),
            coordinates: clone_opt_string(&self.coordinates),
        }
    }
}
/// A routing zone with everything in it.
#[derive(Debug)]
pub struct Zone {
    pub id: String,
    pub routing: String,
    pub routers: Vec<Router>,
    pub hosts: Vec<Host>,
    pub links: Vec<Link>,
    pub routes: Vec<Route>,
}

/// Mathematical value of a [`Zone`].
pub struct ZoneView {
    pub id: Seq<char>,
    pub routing: Seq<char>,
    pub routers: Seq<RouterView>,
    pub hosts: Seq<HostView>,
    pub links: Seq<LinkView>,
    pub routes: Seq<RouteView>,
}

impl View for Zone {
    type V = ZoneView;

    open spec fn view(&self) -> ZoneView {
        ZoneView {
            id: self.id@,
            routing: self.routing@,
            routers: self.routers.deep_view(),
            hosts: self.hosts.deep_view(),
            links: self.links.deep_view(),
            routes: self.routes.deep_view(),
        }
    }
}

impl DeepView for Zone {
    type V = ZoneView;

    open spec fn deep_view(&self) -> ZoneView {
        self@
    }
}

impl Clone for Zone {
    fn clone(&self) -> (res: Self)
        ensures
            res@ == self@,
    {
        Zone {
            id: self.id.clone(),
            routing: self.routing.clone(),
            routers: clone_vec(&self.routers),
            hosts: clone_vec(&self.hosts),
            links: clone_vec(&self.links),
            routes: clone_vec(&self.routes),
        }
    }
}
/// The whole platform document.
#[derive(Debug)]
pub struct Platform {
    pub version: String,
    pub zone: Zone,
}

/// Mathematical value of a [`Platform`].
pub struct PlatformView {
    pub version: Seq<char>,
    pub zone: ZoneView,
}

impl View for Platform {
    type V = PlatformView;

    open spec fn view(&self) -> PlatformView {
        PlatformView {
            version: self.version@,
            zone: self.zone@,
        }
    }
}

impl DeepView for Platform {
    type V = PlatformView;

    open spec fn deep_view(&self) -> PlatformView {
        self@
    }
}

impl Clone for Platform {
    fn clone(&self) -> (res: Self)
        ensures
            res@ == self@,
    {
        Platform {
            version: self.version.clone(),
            zone: self.zone.clone(),
        }
    }
}
} // verus!
