//! The project file: services as written there, and services normalised for Docker.

use vstd::prelude::*;
use vstd::string::*;

use crate::error::FoundryError;
use crate::string_map::StringMap;
use crate::laws::law_service_names_distinct;
use crate::text::{decimal, decimal_text, text_is};

verus! {

/// A `version` value of the long service form. A YAML number is held as the
/// text the YAML reader renders it with; anything but a number or a string is `Other`.
#[derive(Debug)]
pub enum VersionValue {
    Number(String),
    Text(String),
    Other,
}

/// Service configuration (long format).
pub struct ServiceConfig {
    pub version: Option<VersionValue>,
    pub port: Option<u16>,
    pub image: Option<String>,
    pub env: StringMap,
    pub root: Option<String>,
}

/// A service as the project file gives it: a short version (an integer, a
/// decimal number held as the text it is rendered with, or a string) or the long form.
pub enum ServiceSpec {
    ShortNum(u32),
    ShortFloat(String),
    ShortStr(String),
    Long(ServiceConfig),
}

/// The project file: the project's name, its service entries in the order
/// in which they are walked, each key once, and `root`, the host directory
/// mounted into services that have a root (the working directory where it is absent).
pub struct Config {
    name: String,
    services: Vec<(String, ServiceSpec)>,
    root: Option<String>,
}

/// No two entries share a key, as no two keys of a YAML mapping are the same.
pub open spec fn entry_keys_distinct(entries: Seq<(String, ServiceSpec)>) -> bool {
    forall|i: int, j: int| 0 <= i < j < entries.len() ==> entries[i].0@ != entries[j].0@
}

/// A service normalised for Docker operations.
pub struct Service {
    pub name: String,
    pub image: String,
    pub version: String,
    pub port: Option<u16>,
    pub env: StringMap,
    pub root: Option<String>,
}

/// The abstract value of a [`Service`].
pub struct ServiceView {
    pub name: Seq<char>,
    pub image: Seq<char>,
    pub version: Seq<char>,
    pub port: Option<u16>,
    pub env: Map<Seq<char>, Seq<char>>,
    pub root: Option<Seq<char>>,
}

/// The text of an optional string.
pub open spec fn opt_view(s: Option<String>) -> Option<Seq<char>> {
    match s {
        Some(t) => Some(t@),
        None => None,
    }
}

impl View for Service {
    type V = ServiceView;

    open spec fn view(&self) -> ServiceView {
        ServiceView {
            name: self.name@,
            image: self.image@,
            version: self.version@,
            port: self.port,
            env: self.env@,
            root: opt_view(self.root),
        }
    }
}

/// The views of a list of services.
pub open spec fn services_view(s: Seq<Service>) -> Seq<ServiceView> {
    s.map_values(|x: Service| x@)
}

/// The version a service entry names; `latest` where the long form gives none.
pub open spec fn service_version(spec: ServiceSpec) -> Seq<char> {
    match spec {
        ServiceSpec::ShortNum(v) => decimal(v as nat),
        ServiceSpec::ShortFloat(t) => t@,
        ServiceSpec::ShortStr(s) => s@,
        ServiceSpec::Long(c) => match c.version {
            Some(VersionValue::Number(t)) => t@,
            Some(VersionValue::Text(s)) => s@,
            _ => "latest"@,
        },
    }
}

/// The official image of a known service at a version; `name:version` for any other.
pub open spec fn default_image(name: Seq<char>, version: Seq<char>) -> Seq<char> {
    if name == "node"@ {
        "node:"@ + version + "-alpine"@
    } else if name == "redis"@ {
        "redis:"@ + version + "-alpine"@
    } else if name == "php"@ {
        "php:"@ + version + "-fpm-alpine"@
    } else if name == "mysql"@ {
        "mysql:"@ + version
    } else if name == "postgres"@ {
        "postgres:"@ + version + "-alpine"@
    } else if name == "mongodb"@ {
        "mongo:"@ + version
    } else if name == "nginx"@ {
        "nginx:"@ + version + "-alpine"@
    } else if name == "python"@ {
        "python:"@ + version + "-slim"@
    } else if name == "ruby"@ {
        "ruby:"@ + version + "-slim"@
    } else if name == "golang"@ {
        "golang:"@ + version + "-alpine"@
    } else {
        name + ":"@ + version
    }
}

/// Where in its container a known service expects the project's files.
pub open spec fn default_root(name: Seq<char>) -> Option<Seq<char>> {
    if name == "php"@ {
        Some("/var/www/html"@)
    } else if name == "nginx"@ {
        Some("/usr/share/nginx/html"@)
    } else if name == "node"@ || name == "python"@ || name == "ruby"@ || name == "golang"@ {
        Some("/app"@)
    } else {
        None
    }
}

/// `m` with `k` set to `v` unless `k` already has a value.
pub open spec fn or_default(
    m: Map<Seq<char>, Seq<char>>,
    k: Seq<char>,
    v: Seq<char>,
) -> Map<Seq<char>, Seq<char>> {
    if m.contains_key(k) {
        m
    } else {
        m.insert(k, v)
    }
}

/// The environment of a service: the one it was given, with the defaults of
/// the known database services added where a variable is not set.
pub open spec fn default_env(name: Seq<char>, env: Map<Seq<char>, Seq<char>>) -> Map<
    Seq<char>,
    Seq<char>,
> {
    if name == "mysql"@ {
        or_default(
            or_default(env, "MYSQL_ROOT_PASSWORD"@, "secret"@),
            "MYSQL_DATABASE"@,
            "app"@,
        )
    } else if name == "postgres"@ {
        or_default(or_default(env, "POSTGRES_PASSWORD"@, "secret"@), "POSTGRES_DB"@, "app"@)
    } else if name == "mongodb"@ {
        or_default(
            or_default(env, "MONGO_INITDB_ROOT_USERNAME"@, "root"@),
            "MONGO_INITDB_ROOT_PASSWORD"@,
            "secret"@,
        )
    } else {
        env
    }
}

/// The service that the entry `name: spec` of the project file describes.
pub open spec fn normalize(name: Seq<char>, spec: ServiceSpec) -> ServiceView {
    let version = service_version(spec);
    match spec {
        ServiceSpec::Long(c) => ServiceView {
            name,
            image: match c.image {
                Some(i) => i@,
                None => default_image(name, version),
            },
            version,
            port: c.port,
            env: default_env(name, c.env@),
            root: match c.root {
                Some(r) => Some(r@),
                None => default_root(name),
            },
        },
        _ => ServiceView {
            name,
            image: default_image(name, version),
            version,
            port: None,
            env: default_env(name, Map::empty()),
            root: default_root(name),
        },
    }
}

/// The services of a list of entries, in order; an entry keyed `name` is a
/// setting of the project, not a service, and is passed over.
pub open spec fn normalize_all(entries: Seq<(String, ServiceSpec)>) -> Seq<ServiceView>
    decreases entries.len(),
{
    if entries.len() == 0 {
        Seq::empty()
    } else {
        let rest = normalize_all(entries.drop_last());
        let last = entries.last();
        if last.0@ == "name"@ {
            rest
        } else {
            rest.push(normalize(last.0@, last.1))
        }
    }
}

fn version_of(spec: &ServiceSpec) -> (v: String)
    ensures
        v@ == service_version(*spec),
{
    match spec {
        ServiceSpec::ShortNum(v) => decimal_text(*v as u64),
        ServiceSpec::ShortFloat(t) => t.clone(),
        ServiceSpec::ShortStr(s) => s.clone(),
        ServiceSpec::Long(c) => match &c.version {
            Some(VersionValue::Number(t)) => t.clone(),
            Some(VersionValue::Text(s)) => s.clone(),
            _ => "latest".to_owned(),
        },
    }
}

fn suffixed(head: &str, version: &String, tail: &str) -> (s: String)
    ensures
        s@ == head@ + version@ + tail@,
{
    head.to_owned().concat(version.as_str()).concat(tail)
}

/// The official image of a known service at `version`; `name:version` for any other.
pub fn image_for(name: &String, version: &String) -> (s: String)
    ensures
        s@ == default_image(name@, version@),
{
    let n = name.as_str();
    proof {
        reveal_strlit("");
    }
    if text_is(n, "node") {
        suffixed("node:", version, "-alpine")
    } else if text_is(n, "redis") {
        suffixed("redis:", version, "-alpine")
    } else if text_is(n, "php") {
        suffixed("php:", version, "-fpm-alpine")
    } else if text_is(n, "mysql") {
        let s = suffixed("mysql:", version, "");
        assert(s@ =~= "mysql:"@ + version@);
        s
    } else if text_is(n, "postgres") {
        suffixed("postgres:", version, "-alpine")
    } else if text_is(n, "mongodb") {
        let s = suffixed("mongo:", version, "");
        assert(s@ =~= "mongo:"@ + version@);
        s
    } else if text_is(n, "nginx") {
        suffixed("nginx:", version, "-alpine")
    } else if text_is(n, "python") {
        suffixed("python:", version, "-slim")
    } else if text_is(n, "ruby") {
        suffixed("ruby:", version, "-slim")
    } else if text_is(n, "golang") {
        suffixed("golang:", version, "-alpine")
    } else {
        name.clone().concat(":").concat(version.as_str())
    }
}

/// Where in its container a known service expects the project's files.
pub fn root_for(name: &String) -> (r: Option<String>)
    ensures
        opt_view(r) == default_root(name@),
{
    let n = name.as_str();
    if text_is(n, "php") {
        Some("/var/www/html".to_owned())
    } else if text_is(n, "nginx") {
        Some("/usr/share/nginx/html".to_owned())
    } else if text_is(n, "node") || text_is(n, "python") || text_is(n, "ruby") || text_is(
        n,
        "golang",
    ) {
        Some("/app".to_owned())
    } else {
        None
    }
}

/// Adds the default variables of a known database service where they are not set.
pub fn add_default_env(name: &String, env: &mut StringMap)
    ensures
        final(env)@ == default_env(name@, old(env)@),
{
    let n = name.as_str();
    if text_is(n, "mysql") {
        env.insert_if_absent("MYSQL_ROOT_PASSWORD".to_owned(), "secret".to_owned());
        env.insert_if_absent("MYSQL_DATABASE".to_owned(), "app".to_owned());
    } else if text_is(n, "postgres") {
        env.insert_if_absent("POSTGRES_PASSWORD".to_owned(), "secret".to_owned());
        env.insert_if_absent("POSTGRES_DB".to_owned(), "app".to_owned());
    } else if text_is(n, "mongodb") {
        env.insert_if_absent("MONGO_INITDB_ROOT_USERNAME".to_owned(), "root".to_owned());
        env.insert_if_absent("MONGO_INITDB_ROOT_PASSWORD".to_owned(), "secret".to_owned());
    }
}

fn clone_opt(s: &Option<String>) -> (r: Option<String>)
    ensures
        opt_view(r) == opt_view(*s),
{
    match s {
        Some(t) => Some(t.clone()),
        None => None,
    }
}

/// The service that the entry `name: spec` of the project file describes.
pub fn normalize_service(name: &String, spec: &ServiceSpec) -> (s: Service)
    ensures
        s@ == normalize(name@, *spec),
{
    let version = version_of(spec);
    match spec {
        ServiceSpec::Long(c) => {
            let image = match &c.image {
                Some(i) => i.clone(),
                None => image_for(name, &version),
            };
            let mut env = c.env.duplicate();
            add_default_env(name, &mut env);
            let root = match &c.root {
                Some(r) => Some(r.clone()),
                None => root_for(name),
            };
            Service { name: name.clone(), image, version, port: c.port, env, root }
        },
        _ => {
            let image = image_for(name, &version);
            let mut env = StringMap::new();
            add_default_env(name, &mut env);
            let root = root_for(name);
            Service { name: name.clone(), image, version, port: None, env, root }
        },
    }
}

impl Config {
    /// The project's name.
    pub closed spec fn name_text(&self) -> Seq<char> {
        self.name@
    }

    /// The service entries, in order.
    pub closed spec fn entries(&self) -> Seq<(String, ServiceSpec)> {
        self.services@
    }

    /// The host directory mounted into services that have a root, if the file names one.
    pub closed spec fn root_text(&self) -> Option<Seq<char>> {
        opt_view(self.root)
    }

    #[verifier::type_invariant]
    closed spec fn keys_distinct(&self) -> bool {
        entry_keys_distinct(self.services@)
    }

    /// A configuration for project `name` with host directory `root` and no services.
    pub fn new(name: String, root: Option<String>) -> (c: Config)
        ensures
            c.name_text() == name@,
            c.entries().len() == 0,
            c.root_text() == opt_view(root),
    {
        Config { name, services: Vec::new(), root }
    }

    /// The project's name.
    pub fn name(&self) -> (n: &str)
        ensures
            n@ == self.name_text(),
    {
        self.name.as_str()
    }

    /// The host directory mounted into services that have a root, if the file names one.
    pub fn root(&self) -> (r: Option<&str>)
        ensures
            match r {
                Some(t) => self.root_text() == Some(t@),
                None => self.root_text() is None,
            },
    {
        match &self.root {
            Some(t) => Some(t.as_str()),
            None => None,
        }
    }

    /// The service entries, in order; no key occurs twice.
    pub fn services(&self) -> (v: &Vec<(String, ServiceSpec)>)
        ensures
            v@ == self.entries(),
            entry_keys_distinct(v@),
    {
        proof {
            use_type_invariant(self);
        }
        &self.services
    }

    /// Sets the entry `name` to `spec`: an entry already keyed `name` is
    /// replaced where it stands, a new key goes last.
    pub fn insert_service(&mut self, name: String, spec: ServiceSpec)
        ensures
            final(self).name_text() == old(self).name_text(),
            final(self).root_text() == old(self).root_text(),
            (exists|i: int| 0 <= i < old(self).entries().len() && old(self).entries()[i].0@ == name@)
                ==> exists|i: int|
                0 <= i < old(self).entries().len() && old(self).entries()[i].0@ == name@
                    && final(self).entries() == old(self).entries().update(i, (name, spec)),
            (forall|i: int| 0 <= i < old(self).entries().len() ==> old(self).entries()[i].0@ != name@)
                ==> final(self).entries() == old(self).entries().push((name, spec)),
    {
        proof {
            use_type_invariant(&*self);
        }
        let ghost old_entries = self.services@;
        let mut found: Option<usize> = None;
        let mut i: usize = 0;
        while i < self.services.len()
            invariant
                i <= self.services@.len(),
                self.services@ == old_entries,
                found is None ==> forall|j: int| 0 <= j < i ==> old_entries[j].0@ != name@,
                found matches Some(k) ==> k < old_entries.len() && old_entries[k as int].0@ == name@,
            decreases self.services@.len() - i,
        {
            if found.is_none() && self.services[i].0 == name {
                found = Some(i);
            }
            i = i + 1;
        }
        let mut entries: Vec<(String, ServiceSpec)> = Vec::new();
        std::mem::swap(&mut entries, &mut self.services);
        match found {
            Some(k) => {
                let ghost entry = (name, spec);
                entries.set(k, (name, spec));
                assert(entries@ == old_entries.update(k as int, entry));
                assert(entry_keys_distinct(entries@)) by {
                    assert forall|a: int, b: int| 0 <= a < b < entries@.len() implies entries@[a].0@
                        != entries@[b].0@ by {
                        if a != k && b != k {
                            assert(entries@[a] == old_entries[a]);
                            assert(entries@[b] == old_entries[b]);
                        } else if a == k {
                            assert(entries@[b] == old_entries[b]);
                        } else {
                            assert(entries@[a] == old_entries[a]);
                        }
                    }
                }
            },
            None => {
                entries.push((name, spec));
            },
        }
        self.services = entries;
    }

    /// The name, the entries and the root, taken apart.
    pub fn into_parts(self) -> (parts: (String, Vec<(String, ServiceSpec)>, Option<String>))
        ensures
            parts.0@ == self.name_text(),
            parts.1@ == self.entries(),
            opt_view(parts.2) == self.root_text(),
    {
        (self.name, self.services, self.root)
    }

    /// The services of the configuration, normalised for Docker: the entries
    /// in their order, each but the one keyed `name` giving one service; no
    /// two services share a name.
    pub fn get_services(&self) -> (r: Result<Vec<Service>, FoundryError>)
        ensures
            r is Ok,
            r matches Ok(v) ==> services_view(v@) == normalize_all(self.entries()),
            r matches Ok(v) ==> forall|i: int, j: int|
                0 <= i < j < v@.len() ==> #[trigger] v@[i].name@ != #[trigger] v@[j].name@,
    {
        proof {
            use_type_invariant(self);
            law_service_names_distinct(self.services@);
        }
        let mut services: Vec<Service> = Vec::new();
        let mut i: usize = 0;
        while i < self.services.len()
            invariant
                i <= self.services@.len(),
                services_view(services@) == normalize_all(self.services@.take(i as int)),
            decreases self.services@.len() - i,
        {
            let name = &self.services[i].0;
            let spec = &self.services[i].1;
            let ghost before = services@;
            assert(self.services@.take(i + 1).drop_last() =~= self.services@.take(i as int));
            if !text_is(name.as_str(), "name") {
                let s = normalize_service(name, spec);
                services.push(s);
                assert(services_view(services@) =~= services_view(before).push(normalize(name@, *spec)));
            }
            i = i + 1;
        }
        assert(self.services@.take(i as int) =~= self.services@);
        proof {
            assert forall|a: int, b: int| 0 <= a < b < services@.len() implies #[trigger] services@[a].name@
                != #[trigger] services@[b].name@ by {
                assert(services_view(services@)[a].name == services@[a].name@);
                assert(services_view(services@)[b].name == services@[b].name@);
            }
        }
        Ok(services)
    }

    /// A configuration for project `name` with no services.
    pub fn default_config(name: &str) -> (c: Config)
        ensures
            c.name_text() == name@,
            c.entries().len() == 0,
            c.root_text() is None,
    {
        Config { name: name.to_owned(), services: Vec::new(), root: None }
    }
}

} // verus!
