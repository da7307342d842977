//! The decisions of bringing a project up: which services start in which
//! order, what each container is given, and what is reported.

use vstd::prelude::*;
use vstd::string::*;

use crate::config::{Service, ServiceView, services_view, opt_view};
use crate::docker::{Labels, network_name, service_labels};
use crate::error::FoundryError;
use crate::string_map::{StringMap, entries_view};
use crate::text::{decimal, decimal_text, text_is};

verus! {

/// The text of an optional string slice.
pub open spec fn opt_str_view(s: Option<&str>) -> Option<Seq<char>> {
    match s {
        Some(t) => Some(t@),
        None => None,
    }
}

/// Whether a service filter lets `s` through; no filter lets every service through.
pub open spec fn selected_by(filter: Option<Seq<char>>, s: ServiceView) -> bool {
    match filter {
        Some(f) => s.name == f,
        None => true,
    }
}

/// The services selected by `filter` that start in the first round: all but the web server.
pub open spec fn starts_first(filter: Option<Seq<char>>) -> spec_fn(ServiceView) -> bool {
    |s: ServiceView| selected_by(filter, s) && s.name != "nginx"@
}

/// The services selected by `filter` that start last: the web server, once PHP-FPM is up.
pub open spec fn starts_last(filter: Option<Seq<char>>) -> spec_fn(ServiceView) -> bool {
    |s: ServiceView| selected_by(filter, s) && s.name == "nginx"@
}

/// The services to start, in the order in which they start.
pub open spec fn start_order(all: Seq<ServiceView>, filter: Option<Seq<char>>) -> Seq<ServiceView> {
    all.filter(starts_first(filter)) + all.filter(starts_last(filter))
}

/// Whether some service of `all` is called `name`.
pub open spec fn has_service(all: Seq<ServiceView>, name: Seq<char>) -> bool {
    exists|i: int| 0 <= i < all.len() && all[i].name == name
}

/// The root of the first service of `all` called `name`; `default` where
/// there is no such service or it has no root.
pub open spec fn first_root(all: Seq<ServiceView>, name: Seq<char>, default: Seq<char>) -> Seq<char>
    decreases all.len(),
{
    if all.len() == 0 {
        default
    } else if all[0].name == name {
        match all[0].root {
            Some(r) => r,
            None => default,
        }
    } else {
        first_root(all.drop_first(), name, default)
    }
}

/// Whether the project runs both PHP-FPM and a web server, which then share a
/// network and a generated web server configuration.
pub open spec fn pairs_php_with_nginx(all: Seq<ServiceView>) -> bool {
    has_service(all, "php"@) && has_service(all, "nginx"@)
}

/// The message of the error that no service was found to start.
pub open spec fn no_services_message(filter: Option<Seq<char>>) -> Seq<char> {
    match filter {
        Some(f) => "No services found"@ + " matching '"@ + f + "'"@,
        None => "No services found"@,
    }
}

/// What starting a project needs besides its services.
pub struct UpPlan {
    /// The services to start, in order.
    pub services: Vec<Service>,
    /// The network to create and attach the containers to, if one is needed.
    pub network: Option<String>,
    /// The document roots of the web server and of PHP-FPM, where the
    /// project pairs them and a web server configuration is generated.
    pub nginx_roots: Option<(String, String)>,
}

proof fn lemma_filter_take_step<A>(s: Seq<A>, p: spec_fn(A) -> bool, i: int)
    requires
        0 <= i < s.len(),
    ensures
        s.take(i + 1).filter(p) == if p(s[i]) {
            s.take(i).filter(p).push(s[i])
        } else {
            s.take(i).filter(p)
        },
{
    reveal(Seq::filter);
    assert(s.take(i + 1).drop_last() =~= s.take(i));
    assert(s.take(i + 1).last() == s[i]);
}

/// Whether some service of `all` is called `name`.
fn has_named(all: &Vec<Service>, name: &str) -> (b: bool)
    ensures
        b == has_service(services_view(all@), name@),
{
    let mut i: usize = 0;
    while i < all.len()
        invariant
            i <= all@.len(),
            forall|j: int| 0 <= j < i ==> services_view(all@)[j].name != name@,
        decreases all@.len() - i,
    {
        if text_is(all[i].name.as_str(), name) {
            assert(services_view(all@)[i as int].name == name@);
            return true;
        }
        i = i + 1;
    }
    false
}

/// The root of the first service of `all` called `name`, or `default`.
fn root_of(all: &Vec<Service>, name: &str, default: &str) -> (r: String)
    ensures
        r@ == first_root(services_view(all@), name@, default@),
{
    let ghost views = services_view(all@);
    assert(views.skip(0) =~= views);
    let mut i: usize = 0;
    while i < all.len()
        invariant
            i <= all@.len(),
            views == services_view(all@),
            first_root(views, name@, default@) == first_root(views.skip(i as int), name@, default@),
        decreases all@.len() - i,
    {
        assert(views.skip(i as int)[0] == all@[i as int]@);
        if text_is(all[i].name.as_str(), name) {
            return match &all[i].root {
                Some(r) => r.clone(),
                None => default.to_owned(),
            };
        }
        assert(views.skip(i as int).drop_first() =~= views.skip(i + 1));
        i = i + 1;
    }
    assert(views.skip(i as int).len() == 0);
    default.to_owned()
}

/// The message of the error that no service was found to start.
fn no_services(filter: Option<&str>) -> (e: FoundryError)
    ensures
        e matches FoundryError::ConfigNotFound(m) && m@ == no_services_message(opt_str_view(filter)),
{
    match filter {
        Some(f) => FoundryError::ConfigNotFound(
            "No services found".to_owned().concat(" matching '").concat(f).concat("'"),
        ),
        None => FoundryError::ConfigNotFound("No services found".to_owned()),
    }
}

/// Plans bringing up the services `all` of `project`: those that `filter`
/// selects start, the web server after the others; a project that runs both
/// PHP-FPM and a web server gets a network and a generated web server configuration.
/// Fails where no service is selected.
pub fn plan_up(project: &str, all: Vec<Service>, filter: Option<&str>) -> (r: Result<UpPlan, FoundryError>)
    ensures
        match r {
            Ok(plan) => {
                &&& start_order(services_view(all@), opt_str_view(filter)).len() > 0
                &&& services_view(plan.services@) == start_order(services_view(all@), opt_str_view(filter))
                &&& match plan.network {
                    Some(n) => pairs_php_with_nginx(services_view(all@)) && n@ == project@ + "-network"@,
                    None => !pairs_php_with_nginx(services_view(all@)),
                }
                &&& match plan.nginx_roots {
                    Some(roots) => {
                        &&& pairs_php_with_nginx(services_view(all@))
                        &&& roots.0@ == first_root(services_view(all@), "nginx"@, "/usr/share/nginx/html"@)
                        &&& roots.1@ == first_root(services_view(all@), "php"@, "/var/www/html"@)
                    },
                    None => !pairs_php_with_nginx(services_view(all@)),
                }
            },
            Err(e) => {
                &&& start_order(services_view(all@), opt_str_view(filter)).len() == 0
                &&& e matches FoundryError::ConfigNotFound(m) && m@ == no_services_message(opt_str_view(filter))
            },
        },
        r matches Ok(plan) ==> (plan.network is Some <==> (has_service(services_view(all@), "php"@)
            && has_service(services_view(all@), "nginx"@))),
        r matches Ok(plan) ==> (plan.nginx_roots is Some <==> (has_service(services_view(all@), "php"@)
            && has_service(services_view(all@), "nginx"@))),
        r matches Ok(plan) ==> (!has_service(services_view(all@), "nginx"@) ==> plan.network is None
            && plan.nginx_roots is None),
{
    let ghost views = services_view(all@);
    let ghost fv = opt_str_view(filter);
    let has_php = has_named(&all, "php");
    let has_nginx = has_named(&all, "nginx");
    let paired = has_php && has_nginx;
    let nginx_roots = if paired {
        Some((root_of(&all, "nginx", "/usr/share/nginx/html"), root_of(&all, "php", "/var/www/html")))
    } else {
        None
    };
    let network = if paired {
        Some(network_name(project))
    } else {
        None
    };
    let ghost orig = all@;
    let n = all.len();
    let mut rest = all;
    let mut first: Vec<Service> = Vec::new();
    let mut last: Vec<Service> = Vec::new();
    let mut k: usize = 0;
    while k < n
        invariant
            n == orig.len(),
            k <= n,
            views == services_view(orig),
            fv == opt_str_view(filter),
            rest@ == orig.skip(k as int),
            services_view(first@) == views.take(k as int).filter(starts_first(fv)),
            services_view(last@) == views.take(k as int).filter(starts_last(fv)),
        decreases n - k,
    {
        proof {
            lemma_filter_take_step(views, starts_first(fv), k as int);
            lemma_filter_take_step(views, starts_last(fv), k as int);
        }
        let s = rest.remove(0);
        assert(s == orig[k as int]);
        assert(views[k as int] == s@);
        let ghost f0 = first@;
        let ghost l0 = last@;
        let chosen = match filter {
            Some(f) => text_is(s.name.as_str(), f),
            None => true,
        };
        if chosen {
            if text_is(s.name.as_str(), "nginx") {
                last.push(s);
                assert(services_view(last@) =~= services_view(l0).push(views[k as int]));
            } else {
                first.push(s);
                assert(services_view(first@) =~= services_view(f0).push(views[k as int]));
            }
        }
        assert(orig.skip(k as int).remove(0) =~= orig.skip(k + 1));
        k = k + 1;
    }
    assert(views.take(n as int) =~= views);
    let ghost f1 = first@;
    let ghost l1 = last@;
    first.append(&mut last);
    assert(services_view(first@) =~= services_view(f1) + services_view(l1));
    if first.len() == 0 {
        Err(no_services(filter))
    } else {
        Ok(UpPlan { services: first, network, nginx_roots })
    }
}


/// What to do about the container of a service, given the state Docker reports for it.
#[derive(Debug, PartialEq, Eq, Structural)]
pub enum ContainerAction {
    /// It is running: leave it.
    AlreadyRunning,
    /// It exists but is stopped: start it.
    StartExisting,
    /// There is none: create it, then start it.
    Create,
}

/// What to do about a container in `state` (`None` where there is no such container).
pub open spec fn container_action_spec(state: Option<Seq<char>>) -> ContainerAction {
    match state {
        None => ContainerAction::Create,
        Some(s) => if s == "running"@ {
            ContainerAction::AlreadyRunning
        } else {
            ContainerAction::StartExisting
        },
    }
}

/// What to do about a container in `state` (`None` where there is no such container).
pub fn container_action(state: Option<&str>) -> (a: ContainerAction)
    ensures
        a == container_action_spec(opt_str_view(state)),
{
    match state {
        None => ContainerAction::Create,
        Some(s) => if text_is(s, "running") {
            ContainerAction::AlreadyRunning
        } else {
            ContainerAction::StartExisting
        },
    }
}

/// The report that the container of `name` was already running.
pub fn already_running_message(name: &str) -> (m: String)
    ensures
        m@ == "\u{2713} "@ + name@ + " already running"@,
{
    "\u{2713} ".to_owned().concat(name).concat(" already running")
}

/// The report that the container of `name` is being started.
pub fn starting_message(name: &str) -> (m: String)
    ensures
        m@ == "Starting "@ + name@ + "..."@,
{
    "Starting ".to_owned().concat(name).concat("...")
}

/// The report that the container of `name` started, with its port where it has one.
pub open spec fn started_message_spec(name: Seq<char>, port: Option<u16>) -> Seq<char> {
    match port {
        Some(p) => "\u{2713} "@ + name + " started"@ + " (port "@ + decimal(p as nat) + ")"@,
        None => "\u{2713} "@ + name + " started"@,
    }
}

/// The report that the container of `name` started, with its port where it has one.
pub fn started_message(name: &str, port: Option<u16>) -> (m: String)
    ensures
        m@ == started_message_spec(name@, port),
{
    let m = "\u{2713} ".to_owned().concat(name).concat(" started");
    match port {
        Some(p) => {
            let digits = decimal_text(p as u64);
            m.concat(" (port ").concat(digits.as_str()).concat(")")
        },
        None => m,
    }
}

/// Checks the host directory that is mounted into a service: it must exist and be a directory.
pub fn check_root_path(host_path: &str, exists: bool, is_dir: bool) -> (r: Result<(), FoundryError>)
    ensures
        r is Ok <==> exists && is_dir,
        !exists ==> (r matches Err(FoundryError::ConfigNotFound(m))
            && m@ == "root path '"@ + host_path@ + "' does not exist"@),
        exists && !is_dir ==> (r matches Err(FoundryError::ConfigNotFound(m))
            && m@ == "root path '"@ + host_path@ + "' must be a directory, not a file"@),
{
    if !exists {
        Err(FoundryError::ConfigNotFound(
            "root path '".to_owned().concat(host_path).concat("' does not exist"),
        ))
    } else if !is_dir {
        Err(FoundryError::ConfigNotFound(
            "root path '".to_owned().concat(host_path).concat("' must be a directory, not a file"),
        ))
    } else {
        Ok(())
    }
}

/// How a service's port is published: the container port with its protocol,
/// and the host address and port it is bound to.
pub struct PortConfig {
    pub container_port: String,
    pub host_ip: String,
    pub host_port: String,
}

/// The publication of `port`: the same port on every host address, over TCP.
pub open spec fn port_config_matches(c: PortConfig, port: u16) -> bool {
    &&& c.container_port@ == decimal(port as nat) + "/tcp"@
    &&& c.host_ip@ == "0.0.0.0"@
    &&& c.host_port@ == decimal(port as nat)
}

/// The port configuration of a service; `None` for a service without a port.
pub fn build_port_config(service: &Service) -> (p: Option<PortConfig>)
    ensures
        match service.port {
            Some(port) => p matches Some(c) && port_config_matches(c, port),
            None => p is None,
        },
{
    match service.port {
        Some(port) => {
            let digits = decimal_text(port as u64);
            Some(
                PortConfig {
                    container_port: digits.clone().concat("/tcp"),
                    host_ip: "0.0.0.0".to_owned(),
                    host_port: digits,
                },
            )
        },
        None => None,
    }
}

/// The `KEY=value` assignment of each variable of `env`, in its order.
pub fn env_assignments(env: &StringMap) -> (v: Vec<String>)
    ensures
        v@.len() == env.pairs().len(),
        forall|i: int|
            0 <= i < v@.len() ==> #[trigger] v@[i]@ == env.pairs()[i].0 + "="@ + env.pairs()[i].1,
{
    let entries = env.entries();
    let mut v: Vec<String> = Vec::new();
    let mut i: usize = 0;
    while i < entries.len()
        invariant
            i <= entries@.len(),
            entries_view(entries@) == env.pairs(),
            v@.len() == i,
            forall|j: int|
                0 <= j < i ==> #[trigger] v@[j]@ == env.pairs()[j].0 + "="@ + env.pairs()[j].1,
        decreases entries@.len() - i,
    {
        let assignment = entries[i].0.clone().concat("=").concat(entries[i].1.as_str());
        assert(entries_view(entries@)[i as int] == (entries@[i as int].0@, entries@[i as int].1@));
        v.push(assignment);
        i = i + 1;
    }
    v
}

/// The mounts of a service's container: the host directory at the service's
/// root, where it has one, and for the web server the generated configuration file.
pub open spec fn service_binds(
    service: ServiceView,
    host_path: Option<Seq<char>>,
    nginx_conf_path: Option<Seq<char>>,
) -> Seq<Seq<char>> {
    let base = match (service.root, host_path) {
        (Some(c), Some(h)) => seq![h + ":"@ + c],
        _ => Seq::empty(),
    };
    match nginx_conf_path {
        Some(p) => if service.name == "nginx"@ {
            base.push(p + ":/etc/nginx/conf.d/default.conf:ro"@)
        } else {
            base
        },
        None => base,
    }
}

/// Everything the container of a service is created with.
pub struct ContainerSpec {
    pub name: String,
    pub image: String,
    pub labels: StringMap,
    pub port: Option<PortConfig>,
    pub binds: Option<Vec<String>>,
    pub env: Option<Vec<String>>,
    pub network: Option<String>,
}

/// The texts of a list of strings.
pub open spec fn strings_view(v: Seq<String>) -> Seq<Seq<char>> {
    v.map_values(|s: String| s@)
}

/// Describes the container of `service` in `project`: its name, image and
/// labels, its published port, its mounts (`host_path` is the host directory
/// mounted at the service's root, `nginx_conf_path` the generated web server
/// configuration), its environment and the network it joins.
pub fn container_spec(
    project: &str,
    service: &Service,
    network: Option<&str>,
    host_path: Option<&str>,
    nginx_conf_path: Option<&str>,
) -> (c: ContainerSpec)
    ensures
        c.name@ == project@ + "-"@ + service.name@,
        c.image@ == service.image@,
        c.labels@ == service_labels(project@, service.name@, "development"@),
        match service.port {
            Some(port) => c.port matches Some(p) && port_config_matches(p, port),
            None => c.port is None,
        },
        match c.binds {
            Some(b) => b@.len() > 0 && strings_view(b@) == service_binds(
                service@,
                opt_str_view(host_path),
                opt_str_view(nginx_conf_path),
            ),
            None => service_binds(service@, opt_str_view(host_path), opt_str_view(nginx_conf_path)).len() == 0,
        },
        match c.env {
            Some(e) => e@.len() > 0 && e@.len() == service.env.pairs().len() && forall|i: int|
                0 <= i < e@.len() ==> #[trigger] e@[i]@ == service.env.pairs()[i].0 + "="@
                    + service.env.pairs()[i].1,
            None => service.env.pairs().len() == 0,
        },
        opt_view(c.network) == opt_str_view(network),
        service.root is Some && host_path is Some ==> (c.binds matches Some(b) && b@.len() > 0
            && b@[0]@ == host_path.unwrap()@ + ":"@ + service.root.unwrap()@),
        service.name@ == "nginx"@ && nginx_conf_path is Some ==> (c.binds matches Some(b) && b@.len()
            > 0 && b@[b@.len() - 1]@ == nginx_conf_path.unwrap()@ + ":/etc/nginx/conf.d/default.conf:ro"@),
        (service.root is None || host_path is None) && (service.name@ != "nginx"@ || nginx_conf_path is None)
            ==> c.binds is None,
{
    let name = project.to_owned().concat("-").concat(service.name.as_str());
    let labels = Labels::for_service(project, service.name.as_str(), "development");
    let port = build_port_config(service);
    let mut binds: Vec<String> = Vec::new();
    match (&service.root, host_path) {
        (Some(c), Some(h)) => {
            binds.push(h.to_owned().concat(":").concat(c.as_str()));
        },
        _ => {},
    }
    let ghost base = strings_view(binds@);
    match nginx_conf_path {
        Some(p) => {
            if text_is(service.name.as_str(), "nginx") {
                binds.push(p.to_owned().concat(":/etc/nginx/conf.d/default.conf:ro"));
                assert(strings_view(binds@) =~= base.push(p@ + ":/etc/nginx/conf.d/default.conf:ro"@));
            }
        },
        None => {},
    }
    assert(strings_view(binds@) =~= service_binds(
        service@,
        opt_str_view(host_path),
        opt_str_view(nginx_conf_path),
    ));
    let binds = if binds.len() == 0 {
        None
    } else {
        Some(binds)
    };
    let env_vars = env_assignments(&service.env);
    let env = if env_vars.len() == 0 {
        None
    } else {
        Some(env_vars)
    };
    let network = match network {
        Some(n) => Some(n.to_owned()),
        None => None,
    };
    ContainerSpec { name, image: service.image.clone(), labels, port, binds, env, network }
}

} // verus!
