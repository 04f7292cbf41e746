use falafels::fryer::fryer::Fryer;
use falafels::fryer::platformer::{Platformer, RawAndFried, SpecsAndProfiles};
use falafels::fryer::profiles_handler::{ProfileList, ProfilesCycler};
use falafels::fryer::structures::common::{
    AggregatorType, ClusterTopology, Constants, Prop, TrainerType,
};
use falafels::fryer::structures::fried::{NodeRole, Trainer};
use falafels::fryer::structures::platform::Platform;
use falafels::fryer::structures::raw;
use falafels::fryer::structures::raw::{ProfileRefTrait, ProfileTrait};
use rand::rngs::StdRng;
use rand::SeedableRng;

fn host(name: &str, speed: &str) -> raw::HostProfile {
    raw::HostProfile {
        name: name.to_string(),
        speed: speed.to_string(),
        core: Some("4".to_string()),
        pstate: None,
        props: vec![Prop { id: "wattage_per_state".to_string(), value: "10:20".to_string() }],
    }
}

fn link(name: &str, bandwidth: &str) -> raw::LinkProfile {
    raw::LinkProfile {
        name: name.to_string(),
        bandwidth: bandwidth.to_string(),
        latency: "1ms".to_string(),
        sharing_policy: Some("SHARED".to_string()),
        props: vec![],
    }
}

fn profiles() -> raw::Profiles {
    raw::Profiles {
        host_profiles: vec![host("slow", "1Gf"), host("fast", "9Gf"), host("slow", "again")],
        link_profiles: vec![link("wifi", "10MBps"), link("fiber", "1GBps")],
    }
}

fn hrefs(names: &[&str]) -> Option<Vec<raw::HostProfileRef>> {
    Some(names.iter().map(|n| raw::HostProfileRef { name: n.to_string() }).collect())
}

fn lrefs(names: &[&str]) -> Option<Vec<raw::LinkProfileRef>> {
    Some(names.iter().map(|n| raw::LinkProfileRef { name: n.to_string() }).collect())
}

fn specs(entries: &[(u16, &str, &str)]) -> raw::PlatformSpecs {
    raw::PlatformSpecs {
        node_profiles: entries
            .iter()
            .map(|(n, h, l)| raw::NodeProfile {
                number: *n,
                host_profile: raw::HostProfileRef { name: h.to_string() },
                link_profile: raw::LinkProfileRef { name: l.to_string() },
            })
            .collect(),
    }
}

fn cluster(trainers: u16) -> raw::Cluster {
    raw::Cluster {
        topology: ClusterTopology::Star,
        trainers: raw::Trainers {
            number: trainers,
            trainer_type: TrainerType::Simple,
            host_profiles: hrefs(&["slow", "fast"]),
            link_profiles: lrefs(&["wifi"]),
            network_manager: None,
            args: None,
        },
        aggregators: raw::Aggregators {
            number: 1,
            aggregator_type: AggregatorType::Simple,
            host_profiles: hrefs(&["fast"]),
            link_profiles: lrefs(&["fiber"]),
            network_manager: None,
            args: None,
        },
    }
}

fn summary(p: &Platform) -> Vec<String> {
    let z = &p.zone;
    let mut out = Vec::new();
    for k in 0..z.hosts.len() {
        out.push(format!(
            "{}:{}|{}:{}|{}>{}:{}",
            z.hosts[k].id,
            z.hosts[k].speed,
            z.links[k].id,
            z.links[k].bandwidth,
            z.routes[k].src,
            z.routes[k].dst,
            z.routes[k].link_ctn.id
        ));
    }
    out
}

#[test]
fn platform_of_the_machines_given_apart() {
    let profiles = profiles();
    let specs = specs(&[(2, "fast", "wifi"), (0, "slow", "fiber"), (1, "slow", "fiber")]);
    let mut platformer = Platformer::new(SpecsAndProfiles { specs: &specs, profiles: &profiles });
    assert!(platformer.can_create_star_topology());
    let platform = platformer.create_star_topology();
    assert_eq!(platform.version, "4.1");
    assert_eq!(platform.zone.id, "zone1");
    assert_eq!(platform.zone.routing, "Floyd");
    assert_eq!(platform.zone.routers.len(), 1);
    assert_eq!(platform.zone.routers[0].id, "zone1-router");
    assert!(platform.zone.routers[0].coordinates.is_none());
    assert_eq!(
        summary(&platform),
        [
            "Node 1:9Gf|1:10MBps|Node 1>zone1-router:1",
            "Node 2:9Gf|2:10MBps|Node 2>zone1-router:2",
            // of two profiles of one name the first is taken
            "Node 3:1Gf|3:1GBps|Node 3>zone1-router:3",
        ]
    );
    let h = &platform.zone.hosts[0];
    assert_eq!(h.core.as_deref(), Some("4"));
    assert!(h.pstate.is_none());
    assert_eq!(h.props.len(), 1);
    assert_eq!(h.props[0].id, "wattage_per_state");
    assert_eq!(platform.zone.links[0].sharing_policy.as_deref(), Some("SHARED"));
    assert_eq!(specs.get_total_number_nodes(), 3);
    assert_eq!(platformer.link_count, 3);

    // a second platform numbers its links on
    let again = platformer.create_star_topology();
    assert_eq!(again.zone.links[0].id, "4");
    assert_eq!(again.zone.routes[2].link_ctn.id, "6");
    assert_eq!(again.zone.hosts[0].id, "Node 1");
}

#[test]
fn unknown_profiles_are_found_out_before_the_platform_is_made() {
    let profiles = profiles();
    let unknown_host = specs(&[(1, "fast", "wifi"), (1, "huge", "wifi")]);
    assert!(!Platformer::new(SpecsAndProfiles { specs: &unknown_host, profiles: &profiles })
        .can_create_star_topology());
    // a profile that no machine uses must exist all the same
    let unknown_link = specs(&[(0, "fast", "cable")]);
    assert!(!Platformer::new(SpecsAndProfiles { specs: &unknown_link, profiles: &profiles })
        .can_create_star_topology());
    let empty = specs(&[]);
    let mut p = Platformer::new(SpecsAndProfiles { specs: &empty, profiles: &profiles });
    assert!(p.can_create_star_topology());
    assert!(p.create_star_topology().zone.hosts.is_empty());
    let many = specs(&[(65535, "fast", "wifi")]);
    let mut q = Platformer::new(SpecsAndProfiles { specs: &many, profiles: &profiles });
    q.link_count = u32::MAX - 65534;
    assert!(!q.can_create_star_topology());
    q.link_count = u32::MAX - 65535;
    assert!(q.can_create_star_topology());
}

#[test]
fn platform_of_a_deployment_cycles_through_the_profiles() {
    let rf = raw::RawFalafels {
        constants: Constants { list: vec![] },
        profiles: profiles(),
        clusters: vec![cluster(3), cluster(1)],
        platform_specs: None,
    };
    let mut fryer = Fryer::new(None);
    let ff = fryer.fry(&rf);
    let mut platformer = Platformer::new(RawAndFried { rf: &rf, ff: &ff });
    assert_eq!(platformer.base.get_ff().clusters.len(), 2);
    assert_eq!(platformer.base.get_rf().clusters.len(), 2);
    assert!(platformer.can_create_star_topology());
    let platform = platformer.create_star_topology();
    assert_eq!(
        summary(&platform),
        [
            "Node 1:1Gf|1:10MBps|Node 1>zone1-router:1",
            "Node 2:9Gf|2:10MBps|Node 2>zone1-router:2",
            "Node 3:1Gf|3:10MBps|Node 3>zone1-router:3",
            "Node 4:9Gf|4:1GBps|Node 4>zone1-router:4",
            // each cluster starts its cycles anew
            "Node 5:1Gf|5:10MBps|Node 5>zone1-router:5",
            "Node 6:9Gf|6:1GBps|Node 6>zone1-router:6",
        ]
    );
    assert_eq!(platform.zone.routers[0].id, "zone1-router");
}

#[test]
fn deployment_without_profiles_cannot_be_given_machines() {
    let mut lacking = cluster(1);
    lacking.aggregators.link_profiles = None;
    let rf = raw::RawFalafels {
        constants: Constants { list: vec![] },
        profiles: profiles(),
        clusters: vec![lacking],
        platform_specs: None,
    };
    let ff = Fryer::new(None).fry(&rf);
    assert!(!Platformer::new(RawAndFried { rf: &rf, ff: &ff }).can_create_star_topology());

    let mut empty_refs = cluster(1);
    empty_refs.trainers.host_profiles = hrefs(&[]);
    let rf = raw::RawFalafels { clusters: vec![empty_refs], ..rf };
    let ff = Fryer::new(None).fry(&rf);
    assert!(!Platformer::new(RawAndFried { rf: &rf, ff: &ff }).can_create_star_topology());

    // without trainers the empty list of their profiles does no harm
    let mut no_trainers = cluster(0);
    no_trainers.trainers.host_profiles = hrefs(&[]);
    let rf = raw::RawFalafels { clusters: vec![no_trainers], ..rf };
    let ff = Fryer::new(None).fry(&rf);
    assert!(Platformer::new(RawAndFried { rf: &rf, ff: &ff }).can_create_star_topology());

    let mut unknown = cluster(2);
    unknown.trainers.host_profiles = hrefs(&["slow", "huge"]);
    let rf = raw::RawFalafels { clusters: vec![unknown], ..rf };
    let ff = Fryer::new(None).fry(&rf);
    assert!(!Platformer::new(RawAndFried { rf: &rf, ff: &ff }).can_create_star_topology());
}

#[test]
fn components_are_made_one_by_one() {
    let router = Platformer::<()>::create_router("r".to_string());
    assert_eq!(router.id, "r");
    let h = Platformer::<()>::create_host("h".to_string(), &host("p", "3Gf"));
    assert_eq!((h.id.as_str(), h.speed.as_str()), ("h", "3Gf"));
    let route = Platformer::<()>::create_route("a".to_string(), "b".to_string(), "7".to_string());
    assert_eq!((route.src.as_str(), route.dst.as_str(), route.link_ctn.id.as_str()), ("a", "b", "7"));
    let loopback = Platformer::<()>::create_loopback_link();
    assert_eq!(loopback.id, "loopback");
    assert_eq!(loopback.bandwidth, "498MBps");
    assert_eq!(loopback.latency, "15us");
    assert_eq!(loopback.sharing_policy.as_deref(), Some("FATPIPE"));
    let props: Vec<(&str, &str)> =
        loopback.props.iter().map(|p| (p.id.as_str(), p.value.as_str())).collect();
    assert_eq!(props, [("wattage_range", "100.0:200.0"), ("wattage_off", "10")]);
    let mut platformer = Platformer::new(());
    platformer.link_count = 9;
    let l = platformer.create_link(&link("x", "5MBps"));
    assert_eq!(l.id, "10");
    assert_eq!(l.bandwidth, "5MBps");
    assert_eq!(platformer.link_count, 10);
    platformer.link_count = 4294967294;
    assert_eq!(platformer.create_link(&link("x", "5MBps")).id, "4294967295");
}

#[test]
fn profiles_are_picked_in_turn() {
    let all = profiles();
    let trainers = hrefs(&["slow", "fast"]).unwrap();
    let aggregators = hrefs(&["fast"]).unwrap();
    let list = ProfileList { list: &all.host_profiles };
    assert!(list.has_profile("fast"));
    assert!(!list.has_profile("huge"));
    assert_eq!(list.get_profile("slow").speed, "1Gf");
    assert_eq!(list.get_profile("fast").get_pname(), "fast");
    assert_eq!(trainers[1].get_rname(), "fast");
    let mut cycler = ProfilesCycler::new(&trainers, &aggregators, list);
    let trainer = NodeRole::Trainer(Trainer { trainer_type: TrainerType::Simple, args: None });
    let picked: Vec<&str> = (0..5).map(|_| cycler.pick_profile(&trainer).speed.as_str()).collect();
    assert_eq!(picked, ["1Gf", "9Gf", "1Gf", "9Gf", "1Gf"]);
    assert_eq!(cycler.next_trainer, 1);
    assert_eq!(cycler.next_aggregator, 0);
}

#[test]
fn machines_are_varied_within_bounds() {
    let mut s = specs(&[(3, "fast", "wifi"), (4, "slow", "fiber")]);
    // seven machines less two stay at the minimum of five
    assert_eq!(s.vary_profile(0, -2), -2);
    assert_eq!(s.node_profiles[0].number, 1);
    // five machines less one would be too few: one is added instead
    assert_eq!(s.vary_profile(1, -1), 1);
    assert_eq!(s.node_profiles[1].number, 5);
    assert_eq!(s.vary_profile(1, 2), 2);
    assert_eq!(s.vary_profile(1, 0), 0);
    assert_eq!(s.get_total_number_nodes(), 8);
    // a profile never goes under zero
    assert_eq!(s.vary_profile(0, -2), 2);
    assert_eq!(s.node_profiles[0].number, 3);

    let mut rng = StdRng::seed_from_u64(1);
    for _ in 0..200 {
        let before: Vec<u16> = s.node_profiles.iter().map(|p| p.number).collect();
        let total = s.get_total_number_nodes() as i32;
        if total > 30000 {
            break;
        }
        let applied = s.vary_random_profiles(&mut rng) as i32;
        assert!((-2..=2).contains(&applied));
        let after: Vec<u16> = s.node_profiles.iter().map(|p| p.number).collect();
        let changed: Vec<usize> = (0..2).filter(|k| before[*k] != after[*k]).collect();
        assert!(changed.len() <= 1);
        assert_eq!(s.get_total_number_nodes() as i32, total + applied);
        assert!(s.get_total_number_nodes() >= 5);
    }
}
