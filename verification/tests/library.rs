use foundry::cli::{init_project_name, logs_target};
use foundry::config::{Config, Service, ServiceConfig, ServiceSpec, VersionValue};
use foundry::docker::{
    container_name, generate_nginx_config, network_name, nginx_config_file_name, project_filter,
    Labels, LABEL_PREFIX,
};
use foundry::error::FoundryError;
use foundry::listing::{
    container_display_name, no_services_running_message, project_heading, removed_message,
    removing_message, selected_for_stop, service_of_container, status_header, status_row,
    stopped_message, stopping_message,
};
use foundry::up_steps::{needs_host_path, network_failed, up_begin, up_step, UpAction, UpEvent, UpState};
use foundry::string_map::StringMap;
use foundry::text::{decimal_text, pad_text, repeat_text, strip_prefix_text, trim_leading_slashes};
use foundry::up::{
    already_running_message, build_port_config, check_root_path, container_action, container_spec,
    env_assignments, plan_up, started_message, starting_message, ContainerAction,
};

fn map_of(pairs: &[(&str, &str)]) -> StringMap {
    let mut m = StringMap::new();
    for (k, v) in pairs {
        m.insert(k.to_string(), v.to_string());
    }
    m
}

fn lookup(m: &StringMap, k: &str) -> Option<String> {
    m.get(&k.to_string())
}

fn short(name: &str, version: &str) -> (String, ServiceSpec) {
    (name.to_string(), ServiceSpec::ShortStr(version.to_string()))
}

fn long(name: &str, config: ServiceConfig) -> (String, ServiceSpec) {
    (name.to_string(), ServiceSpec::Long(config))
}

fn empty_long() -> ServiceConfig {
    ServiceConfig { version: None, port: None, image: None, env: StringMap::new(), root: None }
}

fn config(entries: Vec<(String, ServiceSpec)>) -> Config {
    let mut c = Config::new("demo".to_string(), None);
    for (k, v) in entries {
        c.insert_service(k, v);
    }
    c
}

fn service(name: &str, root: Option<&str>) -> Service {
    Service {
        name: name.to_string(),
        image: format!("{}:latest", name),
        version: "latest".to_string(),
        port: None,
        env: StringMap::new(),
        root: root.map(|r| r.to_string()),
    }
}

fn names(services: &[Service]) -> Vec<String> {
    services.iter().map(|s| s.name.clone()).collect()
}

#[test]
fn labels_each_name_their_part() {
    assert_eq!(LABEL_PREFIX, "foundry");
    assert_eq!(Labels::project("shop"), ("foundry.project".to_string(), "shop".to_string()));
    assert_eq!(Labels::service("php"), ("foundry.service".to_string(), "php".to_string()));
    assert_eq!(Labels::env("development"), ("foundry.env".to_string(), "development".to_string()));
    assert_eq!(Labels::managed(), ("foundry.managed".to_string(), "true".to_string()));
}

#[test]
fn labels_for_service_are_four() {
    let labels = Labels::for_service("shop", "redis", "development");
    assert_eq!(labels.len(), 4);
    assert_eq!(lookup(&labels, "foundry.project").as_deref(), Some("shop"));
    assert_eq!(lookup(&labels, "foundry.service").as_deref(), Some("redis"));
    assert_eq!(lookup(&labels, "foundry.env").as_deref(), Some("development"));
    assert_eq!(lookup(&labels, "foundry.managed").as_deref(), Some("true"));
    for (k, _) in labels.entries() {
        assert!(k.starts_with("foundry."));
    }
}

#[test]
fn project_filter_matches_project_label() {
    let (k, v) = Labels::project("shop");
    assert_eq!(project_filter("shop"), format!("{}={}", k, v));
    assert_eq!(project_filter("shop"), "foundry.project=shop");
}

#[test]
fn resource_names() {
    assert_eq!(network_name("shop"), "shop-network");
    assert_eq!(container_name("shop", "php"), "shop-php");
    assert_eq!(nginx_config_file_name("shop"), "shop.conf");
}

#[test]
fn decimal_rendering() {
    assert_eq!(decimal_text(0), "0");
    assert_eq!(decimal_text(7), "7");
    assert_eq!(decimal_text(10), "10");
    assert_eq!(decimal_text(8080), "8080");
    assert_eq!(decimal_text(u64::MAX), u64::MAX.to_string());
}

#[test]
fn text_helpers() {
    assert_eq!(trim_leading_slashes("//a/b"), "a/b");
    assert_eq!(trim_leading_slashes("abc"), "abc");
    assert_eq!(trim_leading_slashes("///"), "");
    assert_eq!(strip_prefix_text("shop-php", "shop-"), Some("php".to_string()));
    assert_eq!(strip_prefix_text("other-php", "shop-"), None);
    assert_eq!(strip_prefix_text("sh", "shop-"), None);
    assert_eq!(pad_text("ab", 5), "ab   ");
    assert_eq!(pad_text("abcdef", 3), "abcdef");
    assert_eq!(pad_text("héllo", 6), format!("{:<6}", "héllo"));
    assert_eq!(repeat_text("-", 60), "-".repeat(60));
}

#[test]
fn string_map_insert_and_or_insert() {
    let mut m = StringMap::new();
    m.insert("A".to_string(), "1".to_string());
    m.insert("B".to_string(), "2".to_string());
    m.insert("A".to_string(), "3".to_string());
    assert_eq!(m.len(), 2);
    assert_eq!(lookup(&m, "A").as_deref(), Some("3"));
    m.insert_if_absent("A".to_string(), "9".to_string());
    m.insert_if_absent("C".to_string(), "4".to_string());
    assert_eq!(lookup(&m, "A").as_deref(), Some("3"));
    assert_eq!(lookup(&m, "C").as_deref(), Some("4"));
    assert!(m.contains_key(&"B".to_string()));
    assert!(!m.contains_key(&"Z".to_string()));
    assert_eq!(lookup(&m, "Z"), None);
    let copy = m.duplicate();
    assert_eq!(copy.entries(), m.entries());
}

#[test]
fn short_services_get_official_images() {
    let c = config(vec![
        (String::from("node"), ServiceSpec::ShortNum(20)),
        (String::from("python"), ServiceSpec::ShortFloat("3.12".to_string())),
        short("redis", "7"),
        short("php", "8.3"),
        short("mysql", "8"),
        short("postgres", "16"),
        short("mongodb", "7"),
        short("nginx", "1.25"),
        short("ruby", "3.3"),
        short("golang", "1.22"),
        short("mailhog", "v1"),
    ]);
    let services = c.get_services().unwrap();
    let images: Vec<String> = services.iter().map(|s| s.image.clone()).collect();
    assert_eq!(
        images,
        vec![
            "node:20-alpine",
            "python:3.12-slim",
            "redis:7-alpine",
            "php:8.3-fpm-alpine",
            "mysql:8",
            "postgres:16-alpine",
            "mongo:7",
            "nginx:1.25-alpine",
            "ruby:3.3-slim",
            "golang:1.22-alpine",
            "mailhog:v1",
        ]
    );
    assert_eq!(services[0].version, "20");
    assert_eq!(services[1].version, "3.12");
    assert_eq!(services[0].port, None);
}

#[test]
fn default_roots() {
    let c = config(vec![short("php", "8"), short("nginx", "1"), short("node", "20"), short("redis", "7")]);
    let services = c.get_services().unwrap();
    let roots: Vec<Option<String>> = services.iter().map(|s| s.root.clone()).collect();
    assert_eq!(
        roots,
        vec![
            Some("/var/www/html".to_string()),
            Some("/usr/share/nginx/html".to_string()),
            Some("/app".to_string()),
            None
        ]
    );
}

#[test]
fn name_entry_is_not_a_service() {
    let c = config(vec![short("name", "shop"), short("redis", "7")]);
    let services = c.get_services().unwrap();
    assert_eq!(names(&services), vec!["redis"]);
}

#[test]
fn database_defaults_do_not_override_given_env() {
    let mut given = empty_long();
    given.env = map_of(&[("MYSQL_ROOT_PASSWORD", "hunter2"), ("TZ", "UTC")]);
    let c = config(vec![long("mysql", given), short("postgres", "16"), short("mongodb", "7")]);
    let services = c.get_services().unwrap();
    let mysql = &services[0].env;
    assert_eq!(mysql.len(), 3);
    assert_eq!(lookup(mysql, "MYSQL_ROOT_PASSWORD").as_deref(), Some("hunter2"));
    assert_eq!(lookup(mysql, "MYSQL_DATABASE").as_deref(), Some("app"));
    assert_eq!(lookup(mysql, "TZ").as_deref(), Some("UTC"));
    let pg = &services[1].env;
    assert_eq!(lookup(pg, "POSTGRES_PASSWORD").as_deref(), Some("secret"));
    assert_eq!(lookup(pg, "POSTGRES_DB").as_deref(), Some("app"));
    let mongo = &services[2].env;
    assert_eq!(lookup(mongo, "MONGO_INITDB_ROOT_USERNAME").as_deref(), Some("root"));
    assert_eq!(lookup(mongo, "MONGO_INITDB_ROOT_PASSWORD").as_deref(), Some("secret"));
}

#[test]
fn long_form_settings_win() {
    let mut php = empty_long();
    php.version = Some(VersionValue::Number("8.2".to_string()));
    php.port = Some(9000);
    php.image = Some("my/php:dev".to_string());
    php.root = Some("/srv".to_string());
    let mut node = empty_long();
    node.version = Some(VersionValue::Text("lts".to_string()));
    let mut redis = empty_long();
    redis.version = Some(VersionValue::Other);
    let c = config(vec![long("php", php), long("node", node), long("redis", redis), long("ruby", empty_long())]);
    let services = c.get_services().unwrap();
    assert_eq!(services[0].image, "my/php:dev");
    assert_eq!(services[0].version, "8.2");
    assert_eq!(services[0].port, Some(9000));
    assert_eq!(services[0].root.as_deref(), Some("/srv"));
    assert_eq!(services[1].image, "node:lts-alpine");
    assert_eq!(services[1].root.as_deref(), Some("/app"));
    assert_eq!(services[2].image, "redis:latest-alpine");
    assert_eq!(services[3].version, "latest");
    assert_eq!(services[3].image, "ruby:latest-slim");
}

#[test]
fn default_config_is_empty() {
    let c = Config::default_config("shop");
    assert_eq!(c.name(), "shop");
    assert!(c.services().is_empty());
    assert!(c.root().is_none());
}

#[test]
fn plan_puts_nginx_last_and_pairs_with_php() {
    let all = vec![
        service("nginx", Some("/usr/share/nginx/html")),
        service("redis", None),
        service("php", None),
    ];
    let plan = plan_up("shop", all, None).ok().unwrap();
    assert_eq!(names(&plan.services), vec!["redis", "php", "nginx"]);
    assert_eq!(plan.network.as_deref(), Some("shop-network"));
    assert_eq!(
        plan.nginx_roots,
        Some(("/usr/share/nginx/html".to_string(), "/var/www/html".to_string()))
    );
}

#[test]
fn plan_without_php_has_no_network() {
    let all = vec![service("nginx", None), service("redis", None)];
    let plan = plan_up("shop", all, None).ok().unwrap();
    assert_eq!(names(&plan.services), vec!["redis", "nginx"]);
    assert!(plan.network.is_none());
    assert!(plan.nginx_roots.is_none());
}

#[test]
fn plan_filter_selects_one_service() {
    let all = vec![service("nginx", None), service("php", Some("/srv/app")), service("redis", None)];
    let plan = plan_up("shop", all, Some("php")).ok().unwrap();
    assert_eq!(names(&plan.services), vec!["php"]);
    assert!(plan.network.is_some());
    assert_eq!(
        plan.nginx_roots,
        Some(("/usr/share/nginx/html".to_string(), "/srv/app".to_string()))
    );
}

#[test]
fn plan_fails_without_services() {
    let all = vec![service("redis", None)];
    match plan_up("shop", all, Some("db")) {
        Err(e) => {
            assert!(matches!(&e, FoundryError::ConfigNotFound(m) if m == "No services found matching 'db'"));
            assert_eq!(e.message(), "Configuration file not found: No services found matching 'db'");
        }
        Ok(_) => panic!("a plan with no service"),
    }
    match plan_up("shop", Vec::new(), None) {
        Err(FoundryError::ConfigNotFound(m)) => assert_eq!(m, "No services found"),
        _ => panic!("expected an error"),
    }
}

#[test]
fn container_actions() {
    assert_eq!(container_action(Some("running")), ContainerAction::AlreadyRunning);
    assert_eq!(container_action(Some("exited")), ContainerAction::StartExisting);
    assert_eq!(container_action(None), ContainerAction::Create);
}

#[test]
fn up_messages() {
    assert_eq!(already_running_message("redis"), "\u{2713} redis already running");
    assert_eq!(starting_message("redis"), "Starting redis...");
    assert_eq!(started_message("redis", Some(6379)), "\u{2713} redis started (port 6379)");
    assert_eq!(started_message("redis", None), "\u{2713} redis started");
}

#[test]
fn root_path_checks() {
    assert!(check_root_path("/srv", true, true).is_ok());
    match check_root_path("/srv", false, false) {
        Err(FoundryError::ConfigNotFound(m)) => assert_eq!(m, "root path '/srv' does not exist"),
        _ => panic!("expected an error"),
    }
    match check_root_path("/srv/a.txt", true, false) {
        Err(FoundryError::ConfigNotFound(m)) => {
            assert_eq!(m, "root path '/srv/a.txt' must be a directory, not a file")
        }
        _ => panic!("expected an error"),
    }
}

#[test]
fn port_configuration() {
    let mut s = service("redis", None);
    assert!(build_port_config(&s).is_none());
    s.port = Some(6379);
    let p = build_port_config(&s).unwrap();
    assert_eq!(p.container_port, "6379/tcp");
    assert_eq!(p.host_ip, "0.0.0.0");
    assert_eq!(p.host_port, "6379");
}

#[test]
fn environment_assignments() {
    let env = map_of(&[("A", "1"), ("B", "x=y")]);
    assert_eq!(env_assignments(&env), vec!["A=1", "B=x=y"]);
    assert!(env_assignments(&StringMap::new()).is_empty());
}

#[test]
fn container_spec_of_nginx() {
    let mut nginx = service("nginx", Some("/usr/share/nginx/html"));
    nginx.port = Some(8080);
    nginx.env = map_of(&[("A", "1")]);
    let spec = container_spec("shop", &nginx, Some("shop-network"), Some("/home/me/shop"), Some("/tmp/foundry/shop/shop.conf"));
    assert_eq!(spec.name, "shop-nginx");
    assert_eq!(spec.image, "nginx:latest");
    assert_eq!(lookup(&spec.labels, "foundry.service").as_deref(), Some("nginx"));
    assert_eq!(lookup(&spec.labels, "foundry.env").as_deref(), Some("development"));
    assert_eq!(spec.port.as_ref().unwrap().container_port, "8080/tcp");
    assert_eq!(
        spec.binds,
        Some(vec![
            "/home/me/shop:/usr/share/nginx/html".to_string(),
            "/tmp/foundry/shop/shop.conf:/etc/nginx/conf.d/default.conf:ro".to_string()
        ])
    );
    assert_eq!(spec.env, Some(vec!["A=1".to_string()]));
    assert_eq!(spec.network.as_deref(), Some("shop-network"));
}

#[test]
fn container_spec_without_mounts() {
    let redis = service("redis", None);
    let spec = container_spec("shop", &redis, None, None, Some("/tmp/x.conf"));
    assert!(spec.binds.is_none());
    assert!(spec.env.is_none());
    assert!(spec.network.is_none());
    assert!(spec.port.is_none());
}

#[test]
fn nginx_configuration_text() {
    let conf = generate_nginx_config("shop", "/usr/share/nginx/html", "/var/www/html");
    let expected = r#"resolver 127.0.0.11 valid=30s;

server {
    listen 80;
    server_name localhost;
    root /usr/share/nginx/html;
    index index.php index.html index.htm;

    location / {
        try_files $uri $uri/ /index.php?$query_string;
    }

    location ~ \.php$ {
        set $upstream shop-php:9000;
        fastcgi_pass $upstream;
        fastcgi_index index.php;
        fastcgi_param SCRIPT_FILENAME /var/www/html$fastcgi_script_name;
        include fastcgi_params;
    }

    location ~ /\.ht {
        deny all;
    }
}
"#;
    assert_eq!(conf, expected);
}

#[test]
fn listing_names() {
    assert_eq!(container_display_name(Some("/shop-php")), "shop-php");
    assert_eq!(container_display_name(None), "unknown");
    assert_eq!(service_of_container("shop", "shop-php"), "php");
    assert_eq!(service_of_container("shop", "other-php"), "other-php");
    assert!(selected_for_stop("shop", "shop-php", Some("php")));
    assert!(!selected_for_stop("shop", "shop-redis", Some("php")));
    assert!(selected_for_stop("shop", "shop-redis", None));
}

#[test]
fn created_container_reads_back_as_its_service() {
    let name = container_name("shop", "redis");
    let shown = container_display_name(Some(&format!("/{}", name)));
    assert_eq!(shown, name);
    assert_eq!(service_of_container("shop", &shown), "redis");
}

#[test]
fn status_table_layout() {
    assert_eq!(
        status_header(),
        format!("{:<20} {:<25} {:<15}", "SERVICE", "IMAGE", "STATUS")
    );
    assert_eq!(
        status_row("php", Some("php:8-fpm-alpine"), None),
        format!("{:<20} {:<25} {:<15}", "php", "php:8-fpm-alpine", "unknown")
    );
    assert_eq!(status_row("php", None, Some("running")).len(), 62);
}

#[test]
fn error_messages() {
    assert_eq!(FoundryError::Config("bad".into()).message(), "Configuration error: bad");
    assert_eq!(FoundryError::ConfigNotFound("foundry.yaml".into()).message(), "Configuration file not found: foundry.yaml");
    assert_eq!(FoundryError::Docker("x".into()).message(), "Docker error: x");
    assert_eq!(FoundryError::DockerError("y".into()).message(), "Docker operation failed: y");
    assert_eq!(FoundryError::ServiceNotFound("db".into()).message(), "Service not found: db");
    assert_eq!(
        FoundryError::ProjectNotInitialized.message(),
        "Project not initialized. Run 'foundry init' or create a foundry.yaml file"
    );
    assert_eq!(FoundryError::DockerNotAvailable.message(), "Docker is not running or not accessible");
    assert_eq!(FoundryError::Io("z".into()).message(), "IO error: z");
    assert_eq!(FoundryError::Yaml("w".into()).message(), "YAML parsing error: w");
}

#[test]
fn command_line_defaults() {
    assert_eq!(init_project_name(Some("a".into()), Some("b".into())), "a");
    assert_eq!(init_project_name(None, Some("b".into())), "b");
    assert_eq!(init_project_name(None, None), "my-project");
    assert_eq!(logs_target(None), "all");
    assert_eq!(logs_target(Some("php".into())), "php");
}

#[test]
fn config_keys_are_replaced_in_place() {
    let mut c = Config::new("shop".to_string(), Some("site".to_string()));
    c.insert_service("redis".to_string(), ServiceSpec::ShortStr("6".to_string()));
    c.insert_service("php".to_string(), ServiceSpec::ShortStr("8".to_string()));
    c.insert_service("redis".to_string(), ServiceSpec::ShortStr("7".to_string()));
    assert_eq!(c.services().len(), 2);
    assert_eq!(c.root(), Some("site"));
    let services = c.get_services().unwrap();
    assert_eq!(names(&services), vec!["redis", "php"]);
    assert_eq!(services[0].image, "redis:7-alpine");
    let (name, entries, root) = c.into_parts();
    assert_eq!(name, "shop");
    assert_eq!(entries.len(), 2);
    assert_eq!(root.as_deref(), Some("site"));
}

#[test]
fn repeat_of_longer_pieces() {
    assert_eq!(repeat_text("ab", 3), "ababab");
    assert_eq!(repeat_text("ab", 0), "");
    assert_eq!(repeat_text("", 4), "");
}

#[test]
fn down_and_status_messages() {
    assert_eq!(stopping_message("shop-php"), "Stopping shop-php...");
    assert_eq!(stopped_message("shop-php"), "\u{2713} shop-php stopped");
    assert_eq!(removing_message("shop-php"), "Removing shop-php...");
    assert_eq!(removed_message("shop-php"), "\u{2713} shop-php removed");
    assert_eq!(no_services_running_message("shop"), "No services running for project 'shop'");
    assert_eq!(project_heading("shop"), "\nProject: shop\n");
    assert_eq!(network_failed("boom").message(), "Docker operation failed: Failed to create network: boom");
}

#[test]
fn host_path_only_for_services_with_a_root() {
    assert!(needs_host_path(&service("php", Some("/var/www/html"))));
    assert!(!needs_host_path(&service("redis", None)));
}

fn run(project: &str, s: &Service, events: Vec<UpEvent>) -> (Vec<String>, Vec<String>, UpState) {
    let mut step = up_begin(project, s);
    let mut reports = Vec::new();
    let mut actions = vec![format!("{:?}", step.action)];
    for e in events {
        step = up_step(project, s, step.state, &e);
        if let Some(r) = &step.report {
            reports.push(r.clone());
        }
        actions.push(format!("{:?}", step.action));
    }
    (reports, actions, step.state)
}

#[test]
fn up_leaves_a_running_container_alone() {
    let mut s = service("redis", None);
    s.port = Some(6379);
    let (reports, actions, state) = run("shop", &s, vec![UpEvent::ContainerState(Some("running".into())), UpEvent::Done]);
    assert_eq!(reports, vec!["\u{2713} redis already running"]);
    assert_eq!(actions, vec!["Inspect(\"shop-redis\")", "Next", "Next"]);
    assert_eq!(state, UpState::Finished);
}

#[test]
fn up_starts_a_stopped_container() {
    let mut s = service("redis", None);
    s.port = Some(6379);
    let (reports, actions, _) = run("shop", &s, vec![UpEvent::ContainerState(Some("exited".into())), UpEvent::Done]);
    assert_eq!(reports, vec!["Starting redis...", "\u{2713} redis started (port 6379)"]);
    assert_eq!(actions, vec!["Inspect(\"shop-redis\")", "Start(\"shop-redis\")", "Next"]);
}

#[test]
fn up_pulls_creates_and_starts_a_missing_container() {
    let s = service("redis", None);
    let (reports, actions, state) = run(
        "shop",
        &s,
        vec![
            UpEvent::ContainerState(None),
            UpEvent::ImageChecked(false),
            UpEvent::Done,
            UpEvent::Created("abc".into()),
            UpEvent::Done,
        ],
    );
    assert_eq!(reports, vec!["Starting redis...", "  Pulling redis:latest...", "\u{2713} redis started"]);
    assert_eq!(
        actions,
        vec![
            "Inspect(\"shop-redis\")",
            "CheckImage(\"redis:latest\")",
            "Pull(\"redis:latest\")",
            "Create",
            "Start(\"abc\")",
            "Next"
        ]
    );
    assert_eq!(state, UpState::Finished);
}

#[test]
fn up_failures() {
    let s = service("redis", None);
    let mut step = up_begin("shop", &s);
    step = up_step("shop", &s, step.state, &UpEvent::ContainerState(None));
    step = up_step("shop", &s, step.state, &UpEvent::ImageChecked(false));
    step = up_step("shop", &s, step.state, &UpEvent::Failed("denied".into()));
    match step.action {
        UpAction::Fail(e) => assert_eq!(e.message(), "Docker operation failed: Failed to pull image redis:latest: denied"),
        other => panic!("expected a failure, got {:?}", other),
    }
    let mut step = up_begin("shop", &s);
    step = up_step("shop", &s, step.state, &UpEvent::ContainerState(None));
    step = up_step("shop", &s, step.state, &UpEvent::ImageChecked(true));
    assert!(matches!(step.action, UpAction::Create));
    step = up_step("shop", &s, step.state, &UpEvent::Failed("conflict".into()));
    match step.action {
        UpAction::Fail(FoundryError::DockerError(m)) => assert_eq!(m, "Failed to create container redis: conflict"),
        other => panic!("expected a failure, got {:?}", other),
    }
    let mut step = up_begin("shop", &s);
    step = up_step("shop", &s, step.state, &UpEvent::ContainerState(Some("exited".into())));
    step = up_step("shop", &s, step.state, &UpEvent::Failed("gone".into()));
    assert!(matches!(step.action, UpAction::Fail(FoundryError::Docker(ref m)) if m == "gone"));
}
