//! Docker: commands to the Docker actor, and the reading of what the daemon
//! reports about its containers.
use vstd::hash_map::StringHashMap;
use vstd::prelude::*;

use crate::container;
use crate::container::{ComposeInfo, ComposeModel, ContainerInfo, ContainerModel};
use crate::message::{Message, MessageModel};
use crate::order;
use crate::text;

verus! {

// ---------------------------------------------------------------------
// Commands
// ---------------------------------------------------------------------

/// Commands the update loop can send to the Docker actor.
#[derive(Debug)]
pub enum DockerCommand {
    Start { id: String, name: String },
    Stop { id: String, name: String },
    Restart { id: String, name: String },
    FetchStats { id: String },
    StreamLogs { id: String },
    StopLogs,
    ComposeUpdate { compose: ComposeInfo, name: String },
}

/// What a `DockerCommand` holds.
pub enum CommandModel {
    Start { id: Seq<char>, name: Seq<char> },
    Stop { id: Seq<char>, name: Seq<char> },
    Restart { id: Seq<char>, name: Seq<char> },
    FetchStats { id: Seq<char> },
    StreamLogs { id: Seq<char> },
    StopLogs,
    ComposeUpdate { compose: ComposeModel, name: Seq<char> },
}

impl View for DockerCommand {
    type V = CommandModel;

    open spec fn view(&self) -> CommandModel {
        match *self {
            DockerCommand::Start { id, name } => CommandModel::Start { id: id@, name: name@ },
            DockerCommand::Stop { id, name } => CommandModel::Stop { id: id@, name: name@ },
            DockerCommand::Restart { id, name } => CommandModel::Restart { id: id@, name: name@ },
            DockerCommand::FetchStats { id } => CommandModel::FetchStats { id: id@ },
            DockerCommand::StreamLogs { id } => CommandModel::StreamLogs { id: id@ },
            DockerCommand::StopLogs => CommandModel::StopLogs,
            DockerCommand::ComposeUpdate { compose, name } => CommandModel::ComposeUpdate {
                compose: compose@,
                name: name@,
            },
        }
    }
}

/// What a list of commands holds.
pub open spec fn commands_model(list: Seq<DockerCommand>) -> Seq<CommandModel> {
    list.map_values(|c: DockerCommand| c@)
}

// ---------------------------------------------------------------------
// Ports
// ---------------------------------------------------------------------

/// The protocol of a port, as the daemon reports it.
#[derive(Debug, Clone, Copy, PartialEq, Eq, Structural)]
pub enum PortType {
    Empty,
    Tcp,
    Udp,
    Sctp,
}

/// One port of a container.
#[derive(Debug, Clone, Copy, PartialEq, Eq, Structural)]
pub struct Port {
    pub private_port: u16,
    pub public_port: Option<u16>,
    pub typ: Option<PortType>,
}

/// The name of a protocol; a port without one is a TCP port.
pub open spec fn protocol(typ: Option<PortType>) -> Seq<char> {
    match typ {
        None => "tcp"@,
        Some(PortType::Empty) => ""@,
        Some(PortType::Tcp) => "tcp"@,
        Some(PortType::Udp) => "udp"@,
        Some(PortType::Sctp) => "sctp"@,
    }
}

/// The entry of a port in a port listing.
pub open spec fn port_entry(port: Port) -> Seq<char> {
    let inner = text::decimal(port.private_port as nat) + "/"@ + protocol(port.typ);
    match port.public_port {
        Some(public) => text::decimal(public as nat) + "->"@ + inner,
        None => inner,
    }
}

/// The entries of some ports.
pub open spec fn port_entries(ports: Seq<Port>) -> Seq<Seq<char>> {
    ports.map_values(|p: Port| port_entry(p))
}

/// The port listing of some ports: their entries, each once, in order.
pub open spec fn port_listing(ports: Seq<Port>) -> Seq<char> {
    text::join(order::sorted_distinct(port_entries(ports)), ", "@)
}

/// The entry of a port in a port listing.
fn format_port(port: &Port) -> (r: String)
    ensures
        r@ == port_entry(*port),
{
    let name = match port.typ {
        None => "tcp",
        Some(PortType::Empty) => "",
        Some(PortType::Tcp) => "tcp",
        Some(PortType::Udp) => "udp",
        Some(PortType::Sctp) => "sctp",
    };
    let private = text::decimal_text(port.private_port as u64);
    let inner = text::concat3(private.as_str(), "/", name);
    match port.public_port {
        Some(public) => {
            let outer = text::decimal_text(public as u64);
            text::concat3(outer.as_str(), "->", inner.as_str())
        },
        None => inner,
    }
}

/// The port listing of some ports.
pub fn format_ports(ports: &[Port]) -> (r: String)
    ensures
        r@ == port_listing(ports@),
{
    let mut entries: Vec<String> = Vec::new();
    let mut i: usize = 0;
    while i < ports.len()
        invariant
            i <= ports.len(),
            text::texts(entries@) == port_entries(ports@.take(i as int)),
        decreases ports.len() - i,
    {
        let ghost before = text::texts(entries@);
        entries.push(format_port(&ports[i]));
        proof {
            assert(text::texts(entries@) =~= before.push(port_entry(ports@[i as int])));
            assert(port_entries(ports@.take(i + 1)) =~= before.push(port_entry(ports@[i as int])));
        }
        i = i + 1;
    }
    assert(ports@.take(ports@.len() as int) =~= ports@);
    let sorted = order::sort_distinct(entries);
    text::join_texts(&sorted, ", ")
}

// ---------------------------------------------------------------------
// Labels
// ---------------------------------------------------------------------

/// The labels of a container.
pub struct Labels {
    map: StringHashMap<String>,
}

impl View for Labels {
    type V = Map<Seq<char>, Seq<char>>;

    closed spec fn view(&self) -> Map<Seq<char>, Seq<char>> {
        self.map@.map_values(|s: String| s@)
    }
}

impl Labels {
    /// No labels.
    pub fn new() -> (r: Self)
        ensures
            r@ == Map::<Seq<char>, Seq<char>>::empty(),
    {
        let r = Labels { map: StringHashMap::new() };
        assert(r@ =~= Map::<Seq<char>, Seq<char>>::empty());
        r
    }

    /// Sets the label `key` to `value`.
    pub fn insert(&mut self, key: String, value: String)
        ensures
            final(self)@ == old(self)@.insert(key@, value@),
    {
        let ghost k = key@;
        let ghost v = value@;
        self.map.insert(key, value);
        assert(self@ =~= old(self)@.insert(k, v));
    }

    /// The value of the label `key`.
    pub fn get(&self, key: &str) -> (r: Option<&String>)
        ensures
            match r {
                Some(value) => self@.contains_key(key@) && value@ == self@[key@],
                None => !self@.contains_key(key@),
            },
    {
        self.map.get(key)
    }
}

/// The label that names the project.
pub open spec fn project_label() -> Seq<char> {
    "com.docker.compose.project"@
}

/// The label that names the service.
pub open spec fn service_label() -> Seq<char> {
    "com.docker.compose.service"@
}

/// The label that names the working directory.
pub open spec fn working_dir_label() -> Seq<char> {
    "com.docker.compose.project.working_dir"@
}

/// The label that lists the configuration files.
pub open spec fn config_files_label() -> Seq<char> {
    "com.docker.compose.project.config_files"@
}

/// The file that one entry of a file list names: none if it is blank.
pub open spec fn listed_file(entry: Seq<char>) -> Option<Seq<char>> {
    let file = text::trimmed(entry);
    if file.len() == 0 {
        None
    } else {
        Some(file)
    }
}

/// `listed_file` as a function value.
pub open spec fn listed_files() -> spec_fn(Seq<char>) -> Option<Seq<char>> {
    |entry: Seq<char>| listed_file(entry)
}

/// The files that a comma-separated list names.
pub open spec fn file_list(files: Seq<char>) -> Seq<Seq<char>> {
    text::split(files, ',').filter_map(listed_files())
}

/// The value of a label, if it is set.
pub open spec fn label(labels: Map<Seq<char>, Seq<char>>, key: Seq<char>) -> Option<Seq<char>> {
    if labels.contains_key(key) {
        Some(labels[key])
    } else {
        None
    }
}

/// The Compose metadata that labels hold: some exactly when both the project
/// and the service are named.
pub open spec fn compose_of_labels(labels: Map<Seq<char>, Seq<char>>) -> Option<ComposeModel> {
    match (label(labels, project_label()), label(labels, service_label())) {
        (Some(project), Some(service)) => Some(
            ComposeModel {
                project,
                service,
                working_dir: label(labels, working_dir_label()),
                config_files: match label(labels, config_files_label()) {
                    Some(files) => file_list(files),
                    None => Seq::empty(),
                },
            },
        ),
        _ => None,
    }
}

/// The files that a comma-separated list names.
fn parse_file_list(files: &str) -> (r: Vec<String>)
    ensures
        text::texts(r@) == file_list(files@),
{
    let entries = text::split_text(files, ',');
    let ghost all = text::texts(entries@);
    let mut found: Vec<String> = Vec::new();
    let mut i: usize = 0;
    assert(text::texts(found@) =~= all.take(0).filter_map(listed_files()));
    while i < entries.len()
        invariant
            i <= entries.len(),
            all == text::texts(entries@),
            text::texts(found@) == all.take(i as int).filter_map(listed_files()),
        decreases entries.len() - i,
    {
        let ghost before = text::texts(found@);
        proof {
            all.lemma_filter_map_take_succ(listed_files(), i as int);
        }
        let file = text::trim(entries[i].as_str());
        if !file.is_empty() {
            found.push(String::from_str(file));
            assert(text::texts(found@) =~= before.push(file@));
        }
        i = i + 1;
    }
    assert(all.take(all.len() as int) =~= all);
    found
}

/// A copy of a label's value.
fn label_value(labels: &Labels, key: &str) -> (r: Option<String>)
    ensures
        text::optional_text(r) == label(labels@, key@),
{
    match labels.get(key) {
        Some(value) => Some(value.clone()),
        None => None,
    }
}

/// Extract Compose metadata from the labels Compose writes onto every
/// container it manages.
pub fn compose_info(labels: &Labels) -> (r: Option<ComposeInfo>)
    ensures
        container::compose_model(r) == compose_of_labels(labels@),
{
    let project = match label_value(labels, "com.docker.compose.project") {
        Some(value) => value,
        None => return None,
    };
    let service = match label_value(labels, "com.docker.compose.service") {
        Some(value) => value,
        None => return None,
    };
    let working_dir = label_value(labels, "com.docker.compose.project.working_dir");
    let config_files = match label_value(labels, "com.docker.compose.project.config_files") {
        Some(files) => parse_file_list(files.as_str()),
        None => Vec::new(),
    };
    let info = ComposeInfo { project, service, working_dir, config_files };
    assert(label(labels@, config_files_label()) is None ==> text::texts(config_files@)
        =~= Seq::empty());
    Some(info)
}

/// Build a `docker compose` argument list scoped to the container's own
/// project and config files, so the update targets exactly the stack that
/// created it.
pub fn compose_args(compose: &ComposeInfo, tail: &[&str]) -> (r: Vec<String>)
    ensures
        text::texts(r@) == scoped_args(compose@, text::slices(tail@)),
{
    let mut args: Vec<String> = Vec::new();
    args.push(String::from_str("compose"));
    args.push(String::from_str("-p"));
    args.push(compose.project.clone());
    let ghost head = seq!["compose"@, "-p"@, compose.project@];
    let ghost files = text::texts(compose.config_files@);
    assert(text::texts(args@) =~= head + file_args(files.take(0)));
    let mut i: usize = 0;
    while i < compose.config_files.len()
        invariant
            i <= compose.config_files.len(),
            files == text::texts(compose.config_files@),
            text::texts(args@) == head + file_args(files.take(i as int)),
        decreases compose.config_files.len() - i,
    {
        let ghost before = text::texts(args@);
        args.push(String::from_str("-f"));
        args.push(compose.config_files[i].clone());
        proof {
            assert(text::texts(args@) =~= before + seq!["-f"@, files[i as int]]);
            assert(files.take(i + 1).drop_last() =~= files.take(i as int));
            assert(text::texts(args@) =~= head + file_args(files.take(i + 1)));
        }
        i = i + 1;
    }
    assert(files.take(files.len() as int) =~= files);
    let ghost scoped = text::texts(args@);
    let ghost rest = text::slices(tail@);
    assert(text::texts(args@) =~= scoped + rest.take(0));
    let mut j: usize = 0;
    while j < tail.len()
        invariant
            j <= tail.len(),
            rest == text::slices(tail@),
            text::texts(args@) == scoped + rest.take(j as int),
        decreases tail.len() - j,
    {
        let ghost before = text::texts(args@);
        args.push(String::from_str(tail[j]));
        assert(text::texts(args@) =~= before.push(rest[j as int]));
        assert(text::texts(args@) =~= scoped + rest.take(j + 1));
        j = j + 1;
    }
    assert(rest.take(rest.len() as int) =~= rest);
    args
}

/// The arguments that name the configuration files.
pub open spec fn file_args(files: Seq<Seq<char>>) -> Seq<Seq<char>>
    decreases files.len(),
{
    if files.len() == 0 {
        Seq::empty()
    } else {
        file_args(files.drop_last()) + seq!["-f"@, files.last()]
    }
}

/// The arguments of a `docker compose` call on the stack of a container.
pub open spec fn scoped_args(compose: ComposeModel, tail: Seq<Seq<char>>) -> Seq<Seq<char>> {
    seq!["compose"@, "-p"@, compose.project] + file_args(compose.config_files) + tail
}

// ---------------------------------------------------------------------
// The container list
// ---------------------------------------------------------------------

/// What the daemon reports about one container.
pub struct ContainerSummary {
    pub id: Option<String>,
    pub names: Option<Vec<String>>,
    pub image: Option<String>,
    pub state: Option<String>,
    pub status: Option<String>,
    pub ports: Option<Vec<Port>>,
    pub labels: Option<Labels>,
}

/// The text of a field: empty if the daemon left it out.
pub open spec fn field_text(field: Option<String>) -> Seq<char> {
    match field {
        Some(s) => s@,
        None => Seq::empty(),
    }
}

/// The name of a container: the first that the daemon lists, without the
/// slash that it puts in front.
pub open spec fn display_name(names: Option<Vec<String>>) -> Seq<char> {
    match names {
        Some(list) => if list@.len() > 0 {
            text::strip_front(list@[0]@, text::only('/'))
        } else {
            "<unnamed>"@
        },
        None => "<unnamed>"@,
    }
}

/// The port listing of a container.
pub open spec fn display_ports(ports: Option<Vec<Port>>) -> Seq<char> {
    match ports {
        Some(list) => port_listing(list@),
        None => Seq::empty(),
    }
}

/// The Compose metadata of a container.
pub open spec fn summary_compose(labels: Option<Labels>) -> Option<ComposeModel> {
    match labels {
        Some(l) => compose_of_labels(l@),
        None => None,
    }
}

/// What the application keeps of a summary.
pub open spec fn kept(summary: ContainerSummary) -> ContainerModel {
    ContainerModel {
        id: field_text(summary.id),
        name: display_name(summary.names),
        image: field_text(summary.image),
        state: field_text(summary.state),
        status: field_text(summary.status),
        ports: display_ports(summary.ports),
        compose: summary_compose(summary.labels),
    }
}

/// The text of a field.
fn take_field(field: Option<String>) -> (r: String)
    ensures
        r@ == field_text(field),
{
    match field {
        Some(s) => s,
        None => String::new(),
    }
}

/// What the application keeps of a summary.
pub fn summary_to_info(summary: ContainerSummary) -> (r: ContainerInfo)
    ensures
        r@ == kept(summary),
{
    let name = match &summary.names {
        Some(names) => if names.len() > 0 {
            String::from_str(text::strip_leading(names[0].as_str(), '/'))
        } else {
            String::from_str("<unnamed>")
        },
        None => String::from_str("<unnamed>"),
    };
    let ports = match &summary.ports {
        Some(ports) => format_ports(ports.as_slice()),
        None => String::new(),
    };
    let compose = match &summary.labels {
        Some(labels) => compose_info(labels),
        None => None,
    };
    ContainerInfo {
        id: take_field(summary.id),
        name,
        image: take_field(summary.image),
        state: take_field(summary.state),
        status: take_field(summary.status),
        ports,
        compose,
    }
}

/// The list with `c` behind every container whose name is not greater.
pub open spec fn insert_by_name(list: Seq<ContainerModel>, c: ContainerModel) -> Seq<ContainerModel>
    decreases list.len(),
{
    if list.len() > 0 && order::text_before(c.name, list.last().name) {
        insert_by_name(list.drop_last(), c).push(list.last())
    } else {
        list.push(c)
    }
}

/// The list ordered by name; containers with one name keep their order.
pub open spec fn by_name(list: Seq<ContainerModel>) -> Seq<ContainerModel>
    decreases list.len(),
{
    if list.len() == 0 {
        list
    } else {
        insert_by_name(by_name(list.drop_last()), list.last())
    }
}

/// What the application keeps of some summaries.
pub open spec fn all_kept(list: Seq<ContainerSummary>) -> Seq<ContainerModel> {
    list.map_values(|s: ContainerSummary| kept(s))
}

/// Containers behind which `c` does not belong stay behind it.
proof fn lemma_insert_by_name(list: Seq<ContainerModel>, c: ContainerModel, at: int)
    requires
        0 <= at <= list.len(),
        forall|i: int| at <= i < list.len() ==> order::text_before(c.name, #[trigger] list[i].name),
        at > 0 ==> !order::text_before(c.name, list[at - 1].name),
    ensures
        insert_by_name(list, c) == list.insert(at, c),
    decreases list.len() - at,
{
    if at < list.len() {
        lemma_insert_by_name(list.drop_last(), c, at);
        assert(list.drop_last().insert(at, c).push(list.last()) =~= list.insert(at, c));
    } else {
        assert(list.push(c) =~= list.insert(at, c));
    }
}

/// What the application keeps of some summaries, ordered by name.
pub fn sorted_infos(summaries: Vec<ContainerSummary>) -> (r: Vec<ContainerInfo>)
    ensures
        container::containers_model(r@) == by_name(all_kept(summaries@)),
{
    let ghost all = all_kept(summaries@);
    let mut infos: Vec<ContainerInfo> = Vec::new();
    assert(container::containers_model(infos@) =~= by_name(all.take(0)));
    for summary in it: summaries
        invariant
            all == all_kept(it.seq()),
            container::containers_model(infos@) == by_name(all.take(it.index() as int)),
    {
        let info = summary_to_info(summary);
        let ghost before = container::containers_model(infos@);
        let mut at: usize = infos.len();
        while at > 0 && order::comes_before(info.name.as_str(), infos[at - 1].name.as_str())
            invariant
                at <= infos.len(),
                before == container::containers_model(infos@),
                forall|i: int|
                    at <= i < before.len() ==> order::text_before(
                        info@.name,
                        #[trigger] before[i].name,
                    ),
            decreases at,
        {
            at = at - 1;
        }
        let ghost placed = info@;
        proof {
            let n = it.index() as int;
            lemma_insert_by_name(before, placed, at as int);
            assert(all[n] == placed);
            assert(all.take(n + 1).drop_last() =~= all.take(n));
        }
        infos.insert(at, info);
        assert(container::containers_model(infos@) =~= before.insert(at as int, placed));
    }
    assert(all.take(all.len() as int) =~= all);
    infos
}

/// The message about a container list, or about the failure to get one.
pub fn list_message(reply: Result<Vec<ContainerSummary>, String>) -> (r: Message)
    ensures
        r@ == (match reply {
            Ok(summaries) => MessageModel::ContainersUpdated(by_name(all_kept(summaries@))),
            Err(err) => MessageModel::DockerError("Failed to list containers: "@ + err@),
        }),
{
    match reply {
        Ok(summaries) => Message::ContainersUpdated(sorted_infos(summaries)),
        Err(err) => Message::DockerError(
            text::concat2("Failed to list containers: ", err.as_str()),
        ),
    }
}

} // verus!
