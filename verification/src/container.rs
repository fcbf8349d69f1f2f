//! Containers: what the application knows of one container.
use vstd::prelude::*;

use crate::order;
use crate::text;

verus! {

/// Compose metadata read from a container's labels. Present only when the
/// container is managed by Docker Compose.
#[derive(Debug)]
pub struct ComposeInfo {
    pub project: String,
    pub service: String,
    pub working_dir: Option<String>,
    pub config_files: Vec<String>,
}

/// What a `ComposeInfo` holds.
pub struct ComposeModel {
    pub project: Seq<char>,
    pub service: Seq<char>,
    pub working_dir: Option<Seq<char>>,
    pub config_files: Seq<Seq<char>>,
}

impl View for ComposeInfo {
    type V = ComposeModel;

    open spec fn view(&self) -> ComposeModel {
        ComposeModel {
            project: self.project@,
            service: self.service@,
            working_dir: text::optional_text(self.working_dir),
            config_files: text::texts(self.config_files@),
        }
    }
}

impl Clone for ComposeInfo {
    fn clone(&self) -> (r: Self)
        ensures
            r@ == self@,
    {
        ComposeInfo {
            project: self.project.clone(),
            service: self.service.clone(),
            working_dir: text::copy_optional(&self.working_dir),
            config_files: text::copy_texts(&self.config_files),
        }
    }
}

impl ComposeModel {
    /// The service together with its project, as the user sees it.
    pub open spec fn target(self) -> Seq<char> {
        self.project + "/"@ + self.service
    }
}

impl ComposeInfo {
    /// The service together with its project, as the user sees it.
    pub fn target(&self) -> (r: String)
        ensures
            r@ == self@.target(),
    {
        text::concat3(self.project.as_str(), "/", self.service.as_str())
    }
}

/// What the Compose metadata of a container holds, if it has any.
pub open spec fn compose_model(compose: Option<ComposeInfo>) -> Option<ComposeModel> {
    match compose {
        Some(c) => Some(c@),
        None => None,
    }
}

/// A copy of the Compose metadata of a container.
fn copy_compose(compose: &Option<ComposeInfo>) -> (r: Option<ComposeInfo>)
    ensures
        compose_model(r) == compose_model(*compose),
{
    match compose {
        Some(c) => Some(c.clone()),
        None => None,
    }
}

/// A snapshot of one container, derived from the Docker list endpoint.
#[derive(Debug)]
pub struct ContainerInfo {
    pub id: String,
    pub name: String,
    pub image: String,
    pub state: String,
    pub status: String,
    pub ports: String,
    pub compose: Option<ComposeInfo>,
}

/// What a `ContainerInfo` holds.
pub struct ContainerModel {
    pub id: Seq<char>,
    pub name: Seq<char>,
    pub image: Seq<char>,
    pub state: Seq<char>,
    pub status: Seq<char>,
    pub ports: Seq<char>,
    pub compose: Option<ComposeModel>,
}

impl View for ContainerInfo {
    type V = ContainerModel;

    open spec fn view(&self) -> ContainerModel {
        ContainerModel {
            id: self.id@,
            name: self.name@,
            image: self.image@,
            state: self.state@,
            status: self.status@,
            ports: self.ports@,
            compose: compose_model(self.compose),
        }
    }
}

impl Clone for ContainerInfo {
    fn clone(&self) -> (r: Self)
        ensures
            r@ == self@,
    {
        ContainerInfo {
            id: self.id.clone(),
            name: self.name.clone(),
            image: self.image.clone(),
            state: self.state.clone(),
            status: self.status.clone(),
            ports: self.ports.clone(),
            compose: copy_compose(&self.compose),
        }
    }
}

/// What a list of containers holds.
pub open spec fn containers_model(list: Seq<ContainerInfo>) -> Seq<ContainerModel> {
    list.map_values(|c: ContainerInfo| c@)
}

/// The address under which a port of this machine is reached.
pub open spec fn local_url(port: Seq<char>) -> Seq<char> {
    (if port == "443"@ {
        "https"@
    } else {
        "http"@
    }) + "://localhost:"@ + port
}

/// The address that one entry of a port listing stands for, if it publishes
/// a TCP port: the entry reads `public->private/tcp`, and the public port is
/// written in decimal digits.
pub open spec fn entry_url(entry: Seq<char>) -> Option<Seq<char>> {
    let entry = text::trimmed(entry);
    match text::before_first(entry, "->"@) {
        Some(public) => {
            let port = text::trimmed(public);
            if port.len() > 0 && (forall|i: int|
                0 <= i < port.len() ==> text::is_digit(#[trigger] port[i])) && text::contains_text(
                entry,
                "/tcp"@,
            ) {
                Some(local_url(port))
            } else {
                None
            }
        },
        None => None,
    }
}

/// `entry_url` as a function value.
pub open spec fn entry_urls() -> spec_fn(Seq<char>) -> Option<Seq<char>> {
    |entry: Seq<char>| entry_url(entry)
}

/// The addresses that a port listing stands for, each once, in order.
pub open spec fn listed_urls(ports: Seq<char>) -> Seq<Seq<char>> {
    order::sorted_distinct(text::split(ports, ',').filter_map(entry_urls()))
}

impl ContainerModel {
    /// The container is in the state `running`.
    pub open spec fn running(self) -> bool {
        self.state == "running"@
    }
}

/// The address that one entry of a port listing stands for.
fn url_of_entry(entry: &str) -> (r: Option<String>)
    ensures
        text::optional_text(r) == entry_url(entry@),
{
    let entry = text::trim(entry);
    match text::text_before_first(entry, "->") {
        Some(public) => {
            let port = text::trim(public.as_str());
            if !port.is_empty() && text::all_digits(port) && text::has_text(entry, "/tcp") {
                let scheme = if text::same_text(port, "443") {
                    "https"
                } else {
                    "http"
                };
                Some(text::concat3(scheme, "://localhost:", port))
            } else {
                None
            }
        },
        None => None,
    }
}

impl ContainerInfo {
    /// Whether the container is in the state `running`.
    pub fn is_running(&self) -> (r: bool)
        ensures
            r == self@.running(),
    {
        text::same_text(self.state.as_str(), "running")
    }

    /// The addresses under which the published TCP ports are reached from
    /// this machine, each once, in order.
    pub fn local_urls(&self) -> (r: Vec<String>)
        ensures
            text::texts(r@) == listed_urls(self@.ports),
    {
        let entries = text::split_text(self.ports.as_str(), ',');
        let ghost all = text::texts(entries@);
        let mut urls: Vec<String> = Vec::new();
        let mut i: usize = 0;
        assert(text::texts(urls@) =~= all.take(0).filter_map(entry_urls()));
        while i < entries.len()
            invariant
                i <= entries.len(),
                all == text::texts(entries@),
                text::texts(urls@) == all.take(i as int).filter_map(entry_urls()),
            decreases entries.len() - i,
        {
            let ghost before = text::texts(urls@);
            proof {
                all.lemma_filter_map_take_succ(entry_urls(), i as int);
            }
            match url_of_entry(entries[i].as_str()) {
                Some(url) => {
                    urls.push(url);
                    assert(text::texts(urls@) =~= before.push(url@));
                },
                None => {},
            }
            i = i + 1;
        }
        assert(all.take(all.len() as int) =~= all);
        order::sort_distinct(urls)
    }
}

} // verus!
