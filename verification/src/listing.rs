//! Reading back the containers of a project: how each is named in reports,
//! which ones a command acts on, and how the status table is laid out.

use vstd::prelude::*;
use vstd::string::*;

use crate::text::{
    trim_leading_slashes,
    trim_start_char,
    strip_prefix_text,
    strip_prefix_spec,
    pad_right,
    pad_text,
    text_is,
};
use crate::up::opt_str_view;

verus! {

/// The name a container is reported under: its first Docker name without
/// leading slashes, or `unknown` where it has none.
pub open spec fn display_name_spec(first_name: Option<Seq<char>>) -> Seq<char> {
    match first_name {
        Some(n) => trim_start_char(n, '/'),
        None => "unknown"@,
    }
}

/// The name a container is reported under, from its first Docker name.
pub fn container_display_name(first_name: Option<&str>) -> (n: String)
    ensures
        n@ == display_name_spec(opt_str_view(first_name)),
{
    match first_name {
        Some(n) => trim_leading_slashes(n),
        None => "unknown".to_owned(),
    }
}

/// The service a container of `project` runs: its name without the
/// `project-` prefix, or the whole name where it lacks that prefix.
pub open spec fn service_of_spec(project: Seq<char>, name: Seq<char>) -> Seq<char> {
    match strip_prefix_spec(name, project + "-"@) {
        Some(rest) => rest,
        None => name,
    }
}

/// The service a container of `project` called `name` runs.
pub fn service_of_container(project: &str, name: &str) -> (s: String)
    ensures
        s@ == service_of_spec(project@, name@),
{
    let prefix = project.to_owned().concat("-");
    match strip_prefix_text(name, prefix.as_str()) {
        Some(rest) => rest,
        None => name.to_owned(),
    }
}

/// Whether stopping the containers of `project`, restricted to the service
/// `filter` where one is given, acts on the container called `name`.
pub fn selected_for_stop(project: &str, name: &str, filter: Option<&str>) -> (b: bool)
    ensures
        b == match filter {
            Some(f) => service_of_spec(project@, name@) == f@,
            None => true,
        },
{
    match filter {
        Some(f) => {
            let service = service_of_container(project, name);
            text_is(service.as_str(), f)
        },
        None => true,
    }
}

/// A row of the status table: service, image and state in columns of 20, 25
/// and 15 characters, `unknown` standing for what Docker did not report.
pub open spec fn status_row_spec(
    name: Seq<char>,
    image: Option<Seq<char>>,
    state: Option<Seq<char>>,
) -> Seq<char> {
    let image = match image {
        Some(i) => i,
        None => "unknown"@,
    };
    let state = match state {
        Some(s) => s,
        None => "unknown"@,
    };
    pad_right(name, 20) + " "@ + pad_right(image, 25) + " "@ + pad_right(state, 15)
}

/// A row of the status table.
pub fn status_row(name: &str, image: Option<&str>, state: Option<&str>) -> (r: String)
    ensures
        r@ == status_row_spec(name@, opt_str_view(image), opt_str_view(state)),
{
    let image = match image {
        Some(i) => i,
        None => "unknown",
    };
    let state = match state {
        Some(s) => s,
        None => "unknown",
    };
    let a = pad_text(name, 20);
    let b = pad_text(image, 25);
    let c = pad_text(state, 15);
    a.concat(" ").concat(b.as_str()).concat(" ").concat(c.as_str())
}

/// The header of the status table.
pub fn status_header() -> (r: String)
    ensures
        r@ == status_row_spec("SERVICE"@, Some("IMAGE"@), Some("STATUS"@)),
{
    status_row("SERVICE", Some("IMAGE"), Some("STATUS"))
}


/// The report that the container `name` is being stopped.
pub fn stopping_message(name: &str) -> (m: String)
    ensures
        m@ == "Stopping "@ + name@ + "..."@,
{
    "Stopping ".to_owned().concat(name).concat("...")
}

/// The report that the container `name` was stopped.
pub fn stopped_message(name: &str) -> (m: String)
    ensures
        m@ == "\u{2713} "@ + name@ + " stopped"@,
{
    "\u{2713} ".to_owned().concat(name).concat(" stopped")
}

/// The report that the container `name` is being removed.
pub fn removing_message(name: &str) -> (m: String)
    ensures
        m@ == "Removing "@ + name@ + "..."@,
{
    "Removing ".to_owned().concat(name).concat("...")
}

/// The report that the container `name` was removed.
pub fn removed_message(name: &str) -> (m: String)
    ensures
        m@ == "\u{2713} "@ + name@ + " removed"@,
{
    "\u{2713} ".to_owned().concat(name).concat(" removed")
}

/// The report that `project` has no containers.
pub fn no_services_running_message(project: &str) -> (m: String)
    ensures
        m@ == "No services running for project '"@ + project@ + "'"@,
{
    "No services running for project '".to_owned().concat(project).concat("'")
}

/// The heading of the status table of `project`.
pub fn project_heading(project: &str) -> (m: String)
    ensures
        m@ == "\nProject: "@ + project@ + "\n"@,
{
    "\nProject: ".to_owned().concat(project).concat("\n")
}

} // verus!
