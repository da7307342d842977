//! Properties that hold across the functions of the crate.

use vstd::prelude::*;

use crate::config::{
    ServiceConfig,
    ServiceSpec,
    ServiceView,
    default_env,
    normalize,
    normalize_all,
};
use crate::docker::{container_name_spec, service_labels};
use crate::listing::{display_name_spec, service_of_spec};
use crate::text::{pad_right, trim_start_char};
use crate::error::FoundryErrorView;
use crate::up::{pairs_php_with_nginx, selected_by, start_order, starts_first, starts_last};
use crate::up_steps::{UpActionView, UpEventView, UpState, changes_docker, up_actions, up_step_spec};

verus! {

/// A container that `up` creates for service `service` of `project` is
/// reported by Docker under its name with a leading slash; `down` and
/// `status` read that name back as the same service. (A project name that
/// itself starts with a slash would lose it.)
pub proof fn law_container_name_round_trip(project: Seq<char>, service: Seq<char>)
    requires
        project.len() == 0 || project[0] != '/',
    ensures
        display_name_spec(Some("/"@ + container_name_spec(project, service))) == container_name_spec(
            project,
            service,
        ),
        service_of_spec(project, display_name_spec(Some("/"@ + container_name_spec(project, service))))
            == service,
{
    reveal_strlit("/");
    reveal_strlit("-");
    let name = container_name_spec(project, service);
    let full = "/"@ + name;
    assert(full.len() > 0 && full[0] == '/');
    assert(full.drop_first() =~= name);
    assert(name.len() > 0);
    if project.len() == 0 {
        assert(name[0] == '-');
    } else {
        assert(name[0] == project[0]);
    }
    assert(trim_start_char(name, '/') == name);
    assert(trim_start_char(full, '/') == name);
    let prefix = project + "-"@;
    assert(name.take(prefix.len() as int) =~= prefix);
    assert(name.skip(prefix.len() as int) =~= service);
}

/// The label filter that lists the containers of a project selects exactly
/// the project label that every resource of that project is created with.
pub proof fn law_project_filter_matches_labels(project: Seq<char>, service: Seq<char>, env: Seq<char>)
    ensures
        service_labels(project, service, env).contains_key("foundry.project"@),
        "foundry.project="@ + project == "foundry.project"@ + "="@ + service_labels(
            project,
            service,
            env,
        )["foundry.project"@],
{
    reveal_strlit("foundry.project=");
    reveal_strlit("foundry.project");
    reveal_strlit("foundry.service");
    reveal_strlit("foundry.env");
    reveal_strlit("foundry.managed");
    reveal_strlit("=");
    assert("foundry.project"@[8] != "foundry.service"@[8]);
    assert("foundry.project"@.len() != "foundry.env"@.len());
    assert("foundry.project"@ != "foundry.service"@);
    assert("foundry.project"@ != "foundry.env"@);
    assert("foundry.project"@ != "foundry.managed"@);
    assert("foundry.project="@ + project =~= "foundry.project"@ + "="@ + project);
}

/// Every Foundry-managed resource carries exactly four labels, each under the `foundry.` prefix.
pub proof fn law_labels_are_four_prefixed(project: Seq<char>, service: Seq<char>, env: Seq<char>)
    ensures
        service_labels(project, service, env).dom().finite(),
        service_labels(project, service, env).len() == 4,
        forall|k: Seq<char>|
            #[trigger] service_labels(project, service, env).contains_key(k) ==> k.len() > 8
                && k.take(8) == "foundry."@,
{
    reveal_strlit("foundry.project");
    reveal_strlit("foundry.service");
    reveal_strlit("foundry.env");
    reveal_strlit("foundry.managed");
    reveal_strlit("foundry.");
    let m = service_labels(project, service, env);
    assert("foundry.project"@[8] != "foundry.service"@[8]);
    assert("foundry.project"@.len() != "foundry.env"@.len());
    assert("foundry.project"@ != "foundry.service"@);
    assert("foundry.project"@ != "foundry.env"@);
    assert("foundry.project"@ != "foundry.managed"@);
    assert("foundry.service"@ != "foundry.env"@);
    assert("foundry.service"@ != "foundry.managed"@);
    assert("foundry.env"@ != "foundry.managed"@);
    assert("foundry.project"@.take(8) =~= "foundry."@);
    assert("foundry.service"@.take(8) =~= "foundry."@);
    assert("foundry.env"@.take(8) =~= "foundry."@);
    assert("foundry.managed"@.take(8) =~= "foundry."@);
    let m0 = Map::<Seq<char>, Seq<char>>::empty();
    let m1 = m0.insert("foundry.project"@, project);
    let m2 = m1.insert("foundry.service"@, service);
    let m3 = m2.insert("foundry.env"@, env);
    assert(m =~= m3.insert("foundry.managed"@, "true"@));
    assert(m1.len() == 1);
    assert(m2.len() == 2);
    assert(m3.len() == 3);
}

/// The default environment of a known service never overrides a variable
/// the project file sets: every variable given keeps its value.
pub proof fn law_given_env_kept(name: Seq<char>, env: Map<Seq<char>, Seq<char>>)
    ensures
        forall|k: Seq<char>|
            #[trigger] env.contains_key(k) ==> default_env(name, env).contains_key(k)
                && default_env(name, env)[k] == env[k],
{
}

/// What the long form of a service sets explicitly wins over the defaults:
/// the image, the root and every environment variable it gives.
pub proof fn law_explicit_settings_win(name: Seq<char>, c: ServiceConfig)
    ensures
        c.image matches Some(i) ==> normalize(name, ServiceSpec::Long(c)).image == i@,
        c.root matches Some(r) ==> normalize(name, ServiceSpec::Long(c)).root == Some(r@),
        normalize(name, ServiceSpec::Long(c)).port == c.port,
        forall|k: Seq<char>|
            #[trigger] c.env@.contains_key(k) ==> normalize(
                name,
                ServiceSpec::Long(c),
            ).env.contains_key(k) && normalize(name, ServiceSpec::Long(c)).env[k] == c.env@[k],
{
    law_given_env_kept(name, c.env@);
}

/// The services of a project file: no service is called `name`, and each
/// entry but the one keyed `name` gives a service, which is its normalisation,
/// in the order of the entries.
pub proof fn law_every_entry_but_name_is_a_service(entries: Seq<(String, ServiceSpec)>)
    ensures
        normalize_all(entries).len() <= entries.len(),
        forall|i: int|
            0 <= i < normalize_all(entries).len() ==> #[trigger] normalize_all(entries)[i].name
                != "name"@,
        forall|j: int|
            0 <= j < entries.len() && #[trigger] entries[j].0@ != "name"@ ==> exists|i: int|
                0 <= i < normalize_all(entries).len() && normalize_all(entries)[i] == normalize(
                    entries[j].0@,
                    entries[j].1,
                ),
    decreases entries.len(),
{
    if entries.len() > 0 {
        let init = entries.drop_last();
        law_every_entry_but_name_is_a_service(init);
        let out = normalize_all(entries);
        let rest = normalize_all(init);
        assert forall|j: int|
            0 <= j < entries.len() && #[trigger] entries[j].0@ != "name"@ implies exists|i: int|
                0 <= i < out.len() && out[i] == normalize(entries[j].0@, entries[j].1) by {
            if j < entries.len() - 1 {
                assert(init[j] == entries[j]);
                assert(init[j].0@ != "name"@);
                let i = choose|i: int|
                    0 <= i < rest.len() && rest[i] == normalize(init[j].0@, init[j].1);
                assert(out[i] == rest[i]);
            } else {
                assert(out[out.len() - 1] == normalize(entries[j].0@, entries[j].1));
            }
        }
        assert forall|i: int| 0 <= i < out.len() implies #[trigger] out[i].name != "name"@ by {
            if i < rest.len() {
                assert(out[i] == rest[i]);
            } else {
                assert(out[i] == normalize(entries.last().0@, entries.last().1));
            }
        }
    }
}

proof fn lemma_filter_split(s: Seq<ServiceView>, filter: Option<Seq<char>>)
    ensures
        s.filter(starts_first(filter)).len() + s.filter(starts_last(filter)).len() == s.filter(
            |x: ServiceView| selected_by(filter, x),
        ).len(),
    decreases s.len(),
{
    reveal(Seq::filter);
    if s.len() > 0 {
        lemma_filter_split(s.drop_last(), filter);
    }
}

/// `up` starts exactly the services its filter selects, each once, and the
/// web server only after every other service.
pub proof fn law_start_order(all: Seq<ServiceView>, filter: Option<Seq<char>>)
    ensures
        start_order(all, filter).len() == all.filter(|x: ServiceView| selected_by(filter, x)).len(),
        forall|i: int|
            0 <= i < start_order(all, filter).len() ==> selected_by(
                filter,
                #[trigger] start_order(all, filter)[i],
            ),
        forall|i: int, j: int|
            0 <= i < j < start_order(all, filter).len() && #[trigger] start_order(all, filter)[i].name
                == "nginx"@ ==> #[trigger] start_order(all, filter)[j].name == "nginx"@,
{
    lemma_filter_split(all, filter);
    let a = all.filter(starts_first(filter));
    let b = all.filter(starts_last(filter));
    all.lemma_filter_len(starts_first(filter));
    assert forall|i: int| 0 <= i < a.len() implies starts_first(filter)(#[trigger] a[i]) by {
        all.lemma_filter_pred(starts_first(filter), i);
    }
    assert forall|i: int| 0 <= i < b.len() implies starts_last(filter)(#[trigger] b[i]) by {
        all.lemma_filter_pred(starts_last(filter), i);
    }
    let o = start_order(all, filter);
    assert forall|i: int| 0 <= i < o.len() implies selected_by(filter, #[trigger] o[i]) by {
        if i < a.len() {
            assert(o[i] == a[i]);
            assert(starts_first(filter)(a[i]));
        } else {
            assert(o[i] == b[i - a.len()]);
            assert(starts_last(filter)(b[i - a.len()]));
        }
    }
    assert forall|i: int, j: int|
        0 <= i < j < o.len() && #[trigger] o[i].name == "nginx"@ implies #[trigger] o[j].name
        == "nginx"@ by {
        if i < a.len() {
            assert(o[i] == a[i]);
            assert(starts_first(filter)(a[i]));
        }
        assert(o[j] == b[j - a.len()]);
        assert(starts_last(filter)(b[j - a.len()]));
    }
}

/// A cell of the status table holds its text, then spaces up to the width of its column.
pub proof fn law_column_layout(s: Seq<char>, width: nat)
    ensures
        pad_right(s, width).len() == if s.len() < width {
            width
        } else {
            s.len()
        },
        pad_right(s, width).take(s.len() as int) == s,
        forall|i: int| s.len() <= i < pad_right(s, width).len() ==> #[trigger] pad_right(s, width)[i] == ' ',
{
    assert(pad_right(s, width).take(s.len() as int) =~= s);
}


/// Within a project, different services get different containers.
pub proof fn law_container_names_distinct(project: Seq<char>, s1: Seq<char>, s2: Seq<char>)
    ensures
        container_name_spec(project, s1) == container_name_spec(project, s2) ==> s1 == s2,
{
    let prefix = project + "-"@;
    assert(container_name_spec(project, s1) =~= prefix + s1);
    assert(container_name_spec(project, s2) =~= prefix + s2);
    assert((prefix + s1).skip(prefix.len() as int) =~= s1);
    assert((prefix + s2).skip(prefix.len() as int) =~= s2);
}

/// Where the entries of a project file have distinct keys, as the keys of a
/// YAML mapping are, its services have distinct names, and so distinct containers.
pub proof fn law_service_names_distinct(entries: Seq<(String, ServiceSpec)>)
    requires
        forall|i: int, j: int| 0 <= i < j < entries.len() ==> entries[i].0@ != entries[j].0@,
    ensures
        forall|i: int, j: int|
            0 <= i < j < normalize_all(entries).len() ==> #[trigger] normalize_all(entries)[i].name
                != #[trigger] normalize_all(entries)[j].name,
    decreases entries.len(),
{
    if entries.len() > 0 {
        let init = entries.drop_last();
        law_service_names_distinct(init);
        lemma_names_come_from_entries(init);
        let out = normalize_all(entries);
        let rest = normalize_all(init);
        let last = entries.last();
        assert forall|i: int, j: int| 0 <= i < j < out.len() implies #[trigger] out[i].name
            != #[trigger] out[j].name by {
            if j < rest.len() {
                assert(out[i] == rest[i]);
                assert(out[j] == rest[j]);
            } else {
                assert(out[j].name == last.0@);
                assert(out[i] == rest[i]);
                let k = choose|k: int| 0 <= k < init.len() && init[k].0@ == rest[i].name;
                assert(init[k] == entries[k]);
            }
        }
    }
}

proof fn lemma_names_come_from_entries(entries: Seq<(String, ServiceSpec)>)
    ensures
        forall|i: int|
            0 <= i < normalize_all(entries).len() ==> exists|k: int|
                0 <= k < entries.len() && entries[k].0@ == #[trigger] normalize_all(entries)[i].name,
    decreases entries.len(),
{
    if entries.len() > 0 {
        let init = entries.drop_last();
        lemma_names_come_from_entries(init);
        let out = normalize_all(entries);
        let rest = normalize_all(init);
        assert forall|i: int| 0 <= i < out.len() implies exists|k: int|
            0 <= k < entries.len() && entries[k].0@ == #[trigger] out[i].name by {
            if i < rest.len() {
                assert(out[i] == rest[i]);
                let k = choose|k: int| 0 <= k < init.len() && init[k].0@ == rest[i].name;
                assert(entries[k] == init[k]);
            } else {
                assert(entries[entries.len() - 1].0@ == out[i].name);
            }
        }
    }
}


proof fn lemma_finished_stays_idle(project: Seq<char>, service: ServiceView, events: Seq<UpEventView>)
    ensures
        forall|i: int|
            0 <= i < up_actions(project, service, UpState::Finished, events).len() ==> #[trigger] up_actions(
                project,
                service,
                UpState::Finished,
                events,
            )[i] == UpActionView::Next,
    decreases events.len(),
{
    if events.len() > 0 {
        lemma_finished_stays_idle(project, service, events.drop_first());
        let rest = up_actions(project, service, UpState::Finished, events.drop_first());
        assert(up_actions(project, service, UpState::Finished, events) == seq![UpActionView::Next] + rest);
    }
}

/// Bringing a project up again, once the container of every service it
/// starts is running, starts, pulls and creates nothing: for each service
/// (`services[k]`, with Docker's answers `events[k]`, the first of which
/// reports the container running), every action is to go on to the next service.
pub proof fn law_up_again_leaves_running_containers(
    project: Seq<char>,
    services: Seq<ServiceView>,
    events: Seq<Seq<UpEventView>>,
)
    requires
        events.len() == services.len(),
        forall|k: int|
            0 <= k < events.len() ==> #[trigger] events[k].len() > 0 && events[k][0]
                == UpEventView::ContainerState(Some("running"@)),
    ensures
        forall|k: int, i: int|
            0 <= k < services.len() && 0 <= i < up_actions(
                project,
                services[k],
                UpState::Inspecting,
                events[k],
            ).len() ==> !changes_docker(
                #[trigger] up_actions(project, services[k], UpState::Inspecting, events[k])[i],
            ) && up_actions(project, services[k], UpState::Inspecting, events[k])[i]
                == UpActionView::Next,
{
    assert forall|k: int, i: int|
        0 <= k < services.len() && 0 <= i < up_actions(
            project,
            services[k],
            UpState::Inspecting,
            events[k],
        ).len() implies !changes_docker(
        #[trigger] up_actions(project, services[k], UpState::Inspecting, events[k])[i],
    ) && up_actions(project, services[k], UpState::Inspecting, events[k])[i] == UpActionView::Next by {
        let ev = events[k];
        let first = up_step_spec(project, services[k], UpState::Inspecting, ev[0]);
        assert(first.0 == UpState::Finished);
        assert(first.2 == UpActionView::Next);
        lemma_finished_stays_idle(project, services[k], ev.drop_first());
        let rest = up_actions(project, services[k], UpState::Finished, ev.drop_first());
        assert(up_actions(project, services[k], UpState::Inspecting, ev) == seq![first.2] + rest);
        if i > 0 {
            assert(up_actions(project, services[k], UpState::Inspecting, ev)[i] == rest[i - 1]);
        }
    }
}


/// The environment the project file gives a service: the long form's, or none.
pub open spec fn given_env(spec: ServiceSpec) -> Map<Seq<char>, Seq<char>> {
    match spec {
        ServiceSpec::Long(c) => c.env@,
        _ => Map::empty(),
    }
}

/// Whether the project file gives a service a root of its own.
pub open spec fn gives_root(spec: ServiceSpec) -> bool {
    match spec {
        ServiceSpec::Long(c) => c.root is Some,
        _ => false,
    }
}

/// Where the project files are mounted in a service that names no root:
/// at /app for node, python, ruby and golang, at /var/www/html for php, at
/// /usr/share/nginx/html for nginx, and nowhere for any other service.
pub proof fn law_default_mount_points(name: Seq<char>, spec: ServiceSpec)
    requires
        !gives_root(spec),
    ensures
        name == "node"@ ==> normalize(name, spec).root == Some("/app"@),
        name == "python"@ ==> normalize(name, spec).root == Some("/app"@),
        name == "ruby"@ ==> normalize(name, spec).root == Some("/app"@),
        name == "golang"@ ==> normalize(name, spec).root == Some("/app"@),
        name == "php"@ ==> normalize(name, spec).root == Some("/var/www/html"@),
        name == "nginx"@ ==> normalize(name, spec).root == Some("/usr/share/nginx/html"@),
        name != "node"@ && name != "python"@ && name != "ruby"@ && name != "golang"@ && name
            != "php"@ && name != "nginx"@ ==> normalize(name, spec).root is None,
{
    reveal_strlit("node");
    reveal_strlit("python");
    reveal_strlit("ruby");
    reveal_strlit("golang");
    reveal_strlit("php");
    reveal_strlit("nginx");
    assert("node"@[0] != "ruby"@[0]);
    assert("python"@[0] != "golang"@[0]);
    assert("node"@.len() != "php"@.len() && "node"@.len() != "nginx"@.len());
    assert("python"@.len() != "php"@.len() && "python"@.len() != "nginx"@.len());
    assert("ruby"@.len() != "php"@.len() && "ruby"@.len() != "nginx"@.len());
    assert("golang"@.len() != "php"@.len() && "golang"@.len() != "nginx"@.len());
    assert("php"@.len() != "nginx"@.len());
}

/// The database services get the variables they need to initialise, each
/// where the project file does not set it: mysql a root password `secret` and
/// a database `app`, postgres a password `secret` and a database `app`,
/// mongodb a root user `root` with password `secret`. No other variable is
/// added, and no other service gets any.
pub proof fn law_database_defaults(name: Seq<char>, spec: ServiceSpec)
    ensures
        name == "mysql"@ && !given_env(spec).contains_key("MYSQL_ROOT_PASSWORD"@) ==> normalize(
            name,
            spec,
        ).env.contains_key("MYSQL_ROOT_PASSWORD"@) && normalize(name, spec).env["MYSQL_ROOT_PASSWORD"@]
            == "secret"@,
        name == "mysql"@ && !given_env(spec).contains_key("MYSQL_DATABASE"@) ==> normalize(
            name,
            spec,
        ).env.contains_key("MYSQL_DATABASE"@) && normalize(name, spec).env["MYSQL_DATABASE"@] == "app"@,
        name == "postgres"@ && !given_env(spec).contains_key("POSTGRES_PASSWORD"@) ==> normalize(
            name,
            spec,
        ).env.contains_key("POSTGRES_PASSWORD"@) && normalize(name, spec).env["POSTGRES_PASSWORD"@]
            == "secret"@,
        name == "postgres"@ && !given_env(spec).contains_key("POSTGRES_DB"@) ==> normalize(
            name,
            spec,
        ).env.contains_key("POSTGRES_DB"@) && normalize(name, spec).env["POSTGRES_DB"@] == "app"@,
        name == "mongodb"@ && !given_env(spec).contains_key("MONGO_INITDB_ROOT_USERNAME"@) ==> normalize(
            name,
            spec,
        ).env.contains_key("MONGO_INITDB_ROOT_USERNAME"@) && normalize(
            name,
            spec,
        ).env["MONGO_INITDB_ROOT_USERNAME"@] == "root"@,
        name == "mongodb"@ && !given_env(spec).contains_key("MONGO_INITDB_ROOT_PASSWORD"@) ==> normalize(
            name,
            spec,
        ).env.contains_key("MONGO_INITDB_ROOT_PASSWORD"@) && normalize(
            name,
            spec,
        ).env["MONGO_INITDB_ROOT_PASSWORD"@] == "secret"@,
        forall|k: Seq<char>|
            #[trigger] given_env(spec).contains_key(k) ==> normalize(name, spec).env.contains_key(k)
                && normalize(name, spec).env[k] == given_env(spec)[k],
        forall|k: Seq<char>|
            #[trigger] normalize(name, spec).env.contains_key(k) ==> given_env(spec).contains_key(k)
                || (name == "mysql"@ && (k == "MYSQL_ROOT_PASSWORD"@ || k == "MYSQL_DATABASE"@))
                || (name == "postgres"@ && (k == "POSTGRES_PASSWORD"@ || k == "POSTGRES_DB"@))
                || (name == "mongodb"@ && (k == "MONGO_INITDB_ROOT_USERNAME"@ || k
                == "MONGO_INITDB_ROOT_PASSWORD"@)),
        name != "mysql"@ && name != "postgres"@ && name != "mongodb"@ ==> normalize(name, spec).env
            == given_env(spec),
{
    reveal_strlit("mysql");
    reveal_strlit("postgres");
    reveal_strlit("mongodb");
    reveal_strlit("MYSQL_ROOT_PASSWORD");
    reveal_strlit("MYSQL_DATABASE");
    reveal_strlit("POSTGRES_PASSWORD");
    reveal_strlit("POSTGRES_DB");
    reveal_strlit("MONGO_INITDB_ROOT_USERNAME");
    reveal_strlit("MONGO_INITDB_ROOT_PASSWORD");
    assert("MONGO_INITDB_ROOT_USERNAME"@[18] != "MONGO_INITDB_ROOT_PASSWORD"@[18]);
    assert("MYSQL_ROOT_PASSWORD"@.len() != "MYSQL_DATABASE"@.len());
    assert("POSTGRES_PASSWORD"@.len() != "POSTGRES_DB"@.len());
    assert("mysql"@.len() != "postgres"@.len() && "mysql"@.len() != "mongodb"@.len());
    assert("postgres"@.len() != "mongodb"@.len());
    assert(normalize(name, spec).env == default_env(name, given_env(spec)));
}

/// A project gets a shared network and a generated web server configuration
/// exactly when some service is called php and some service is called nginx.
pub proof fn law_network_needs_php_and_nginx(all: Seq<ServiceView>)
    ensures
        pairs_php_with_nginx(all) <==> (exists|i: int| 0 <= i < all.len() && all[i].name == "php"@)
            && (exists|j: int| 0 <= j < all.len() && all[j].name == "nginx"@),
{
}

/// When Docker reports a failure, `up` stops with an error in every state
/// but the finished one: a failed start with Docker's error, a failed pull
/// or create with a message naming the image or the service, and a failed
/// inspection with Docker's error. It never goes on to the next service.
pub proof fn law_failures_stop_up(project: Seq<char>, service: ServiceView, e: Seq<char>)
    ensures
        up_step_spec(project, service, UpState::StartingExisting, UpEventView::Failed(e)).2
            == UpActionView::Fail(FoundryErrorView::Docker(e)),
        up_step_spec(project, service, UpState::StartingCreated, UpEventView::Failed(e)).2
            == UpActionView::Fail(FoundryErrorView::Docker(e)),
        up_step_spec(project, service, UpState::Inspecting, UpEventView::Failed(e)).2
            == UpActionView::Fail(FoundryErrorView::Docker(e)),
        up_step_spec(project, service, UpState::CheckingImage, UpEventView::Failed(e)).2
            == UpActionView::Fail(FoundryErrorView::Docker(e)),
        up_step_spec(project, service, UpState::Pulling, UpEventView::Failed(e)).2
            == UpActionView::Fail(
            FoundryErrorView::DockerError("Failed to pull image "@ + service.image + ": "@ + e),
        ),
        up_step_spec(project, service, UpState::Creating, UpEventView::Failed(e)).2
            == UpActionView::Fail(
            FoundryErrorView::DockerError("Failed to create container "@ + service.name + ": "@ + e),
        ),
        forall|st: UpState|
            st != UpState::Finished ==> (#[trigger] up_step_spec(
                project,
                service,
                st,
                UpEventView::Failed(e),
            )).2 is Fail && up_step_spec(project, service, st, UpEventView::Failed(e)).0
                == UpState::Finished,
{
}

} // verus!
