//! How the Docker resources of a project are named, labelled, planned and described.

use vstd::prelude::*;
use vstd::string::*;

use crate::string_map::StringMap;

verus! {

/// Docker label prefix for Foundry-managed resources.
pub const LABEL_PREFIX: &'static str = "foundry";

/// Standard labels applied to all Foundry-managed resources.
pub struct Labels;

impl Labels {
    /// The label that names the project a resource belongs to.
    pub fn project(name: &str) -> (l: (String, String))
        ensures
            l.0@ == "foundry.project"@,
            l.1@ == name@,
    {
        proof {
            reveal_strlit("foundry");
            reveal_strlit(".project");
            reveal_strlit("foundry.project");
        }
        (LABEL_PREFIX.to_owned().concat(".project"), name.to_owned())
    }

    /// The label that names the service a resource runs.
    pub fn service(name: &str) -> (l: (String, String))
        ensures
            l.0@ == "foundry.service"@,
            l.1@ == name@,
    {
        proof {
            reveal_strlit("foundry");
            reveal_strlit(".service");
            reveal_strlit("foundry.service");
        }
        (LABEL_PREFIX.to_owned().concat(".service"), name.to_owned())
    }

    /// The label that names the environment a resource belongs to.
    pub fn env(env: &str) -> (l: (String, String))
        ensures
            l.0@ == "foundry.env"@,
            l.1@ == env@,
    {
        proof {
            reveal_strlit("foundry");
            reveal_strlit(".env");
            reveal_strlit("foundry.env");
        }
        (LABEL_PREFIX.to_owned().concat(".env"), env.to_owned())
    }

    /// The label that marks a resource as managed by Foundry.
    pub fn managed() -> (l: (String, String))
        ensures
            l.0@ == "foundry.managed"@,
            l.1@ == "true"@,
    {
        proof {
            reveal_strlit("foundry");
            reveal_strlit(".managed");
            reveal_strlit("foundry.managed");
        }
        (LABEL_PREFIX.to_owned().concat(".managed"), "true".to_owned())
    }

    /// The labels of a resource of `service` in `project` and environment `env`.
    pub fn for_service(project: &str, service: &str, env: &str) -> (labels: StringMap)
        ensures
            labels@ == service_labels(project@, service@, env@),
    {
        let mut labels = StringMap::new();
        let (k, v) = Self::project(project);
        labels.insert(k, v);
        let (k, v) = Self::service(service);
        labels.insert(k, v);
        let (k, v) = Self::env(env);
        labels.insert(k, v);
        let (k, v) = Self::managed();
        labels.insert(k, v);
        labels
    }
}

/// The labels of a resource of `service` in `project` and environment `env`.
pub open spec fn service_labels(project: Seq<char>, service: Seq<char>, env: Seq<char>) -> Map<
    Seq<char>,
    Seq<char>,
> {
    map![
        "foundry.project"@ => project,
        "foundry.service"@ => service,
        "foundry.env"@ => env,
        "foundry.managed"@ => "true"@,
    ]
}

/// The name of the network that lets the containers of `project` reach each other.
pub fn network_name(project: &str) -> (n: String)
    ensures
        n@ == project@ + "-network"@,
{
    project.to_owned().concat("-network")
}

/// The name of the container of `service` in `project`.
pub open spec fn container_name_spec(project: Seq<char>, service: Seq<char>) -> Seq<char> {
    project + "-"@ + service
}

/// The name of the container of `service` in `project`.
pub fn container_name(project: &str, service: &str) -> (n: String)
    ensures
        n@ == container_name_spec(project@, service@),
{
    project.to_owned().concat("-").concat(service)
}

/// The label filter that selects the containers of `project`.
pub fn project_filter(project: &str) -> (f: String)
    ensures
        f@ == "foundry.project="@ + project@,
{
    "foundry.project=".to_owned().concat(project)
}

/// The name of the file that holds the web server configuration of `project`.
pub fn nginx_config_file_name(project: &str) -> (n: String)
    ensures
        n@ == project@ + ".conf"@,
{
    project.to_owned().concat(".conf")
}

/// The part of the web server configuration before its document root.
pub const NGINX_HEAD: &'static str = "resolver 127.0.0.11 valid=30s;\n\nserver {\n    listen 80;\n    server_name localhost;\n    root ";

/// The part of the web server configuration between the document root and the PHP container.
pub const NGINX_MIDDLE: &'static str = ";\n    index index.php index.html index.htm;\n\n    location / {\n        try_files $uri $uri/ /index.php?$query_string;\n    }\n\n    location ~ \\.php$ {\n        set $upstream ";

/// The part of the web server configuration between the PHP container and the PHP root.
pub const NGINX_FASTCGI: &'static str = "-php:9000;\n        fastcgi_pass $upstream;\n        fastcgi_index index.php;\n        fastcgi_param SCRIPT_FILENAME ";

/// The part of the web server configuration after the PHP root.
pub const NGINX_TAIL: &'static str = "$fastcgi_script_name;\n        include fastcgi_params;\n    }\n\n    location ~ /\\.ht {\n        deny all;\n    }\n}\n";

/// The web server configuration that serves `nginx_root` and hands PHP
/// scripts, found under `php_root`, to the PHP container of `project`.
pub open spec fn nginx_config_spec(
    project: Seq<char>,
    nginx_root: Seq<char>,
    php_root: Seq<char>,
) -> Seq<char> {
    NGINX_HEAD@ + nginx_root + NGINX_MIDDLE@ + project + NGINX_FASTCGI@ + php_root + NGINX_TAIL@
}

/// The web server configuration for PHP-FPM integration.
pub fn generate_nginx_config(project: &str, nginx_root: &str, php_root: &str) -> (c: String)
    ensures
        c@ == nginx_config_spec(project@, nginx_root@, php_root@),
{
    NGINX_HEAD.to_owned().concat(nginx_root).concat(NGINX_MIDDLE).concat(project).concat(
        NGINX_FASTCGI,
    ).concat(php_root).concat(NGINX_TAIL)
}

} // verus!
