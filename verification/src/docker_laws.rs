//! Laws of the container list: its order, its port listings, and the scope
//! of the commands on a stack.
use vstd::prelude::*;

use crate::actor_laws;
use crate::container;
use crate::container::{ComposeModel, ContainerModel};
use crate::docker;
use crate::docker::{ContainerSummary, Port, PortType};
use crate::order;
use crate::text;
use crate::text_laws;

verus! {

// ---------------------------------------------------------------------
// Order
// ---------------------------------------------------------------------

/// No container stands behind one with a greater name.
pub open spec fn ordered_by_name(list: Seq<ContainerModel>) -> bool {
    forall|i: int, j: int|
        0 <= i < j < list.len() ==> !order::text_before(
            (#[trigger] list[j]).name,
            (#[trigger] list[i]).name,
        )
}

/// The test that holds of containers with a name.
pub open spec fn named(name: Seq<char>) -> spec_fn(ContainerModel) -> bool {
    |c: ContainerModel| c.name == name
}

proof fn lemma_insert_by_name(list: Seq<ContainerModel>, c: ContainerModel)
    requires
        ordered_by_name(list),
    ensures
        ordered_by_name(docker::insert_by_name(list, c)),
        docker::insert_by_name(list, c).to_multiset() == list.to_multiset().insert(c),
        forall|x: ContainerModel|
            #[trigger] docker::insert_by_name(list, c).contains(x) ==> x == c || list.contains(x),
    decreases list.len(),
{
    broadcast use vstd::seq_lib::to_multiset_build;

    let r = docker::insert_by_name(list, c);
    if list.len() > 0 && order::text_before(c.name, list.last().name) {
        let head = list.drop_last();
        let placed = docker::insert_by_name(head, c);
        assert(ordered_by_name(head)) by {
            assert forall|i: int, j: int| 0 <= i < j < head.len() implies !order::text_before(
                (#[trigger] head[j]).name,
                (#[trigger] head[i]).name,
            ) by {
                assert(head[i] == list[i] && head[j] == list[j]);
            }
        }
        lemma_insert_by_name(head, c);
        assert forall|i: int, j: int| 0 <= i < j < r.len() implies !order::text_before(
            (#[trigger] r[j]).name,
            (#[trigger] r[i]).name,
        ) by {
            if j == r.len() - 1 {
                assert(r[j] == list.last());
                assert(r[i] == placed[i]);
                assert(placed.contains(placed[i]));
                if placed[i] == c {
                    if order::text_before(list.last().name, c.name) {
                        order::text_before_is_transitive(c.name, list.last().name, c.name);
                        order::text_before_is_irreflexive(c.name);
                    }
                } else {
                    let k = choose|k: int| 0 <= k < head.len() && head[k] == placed[i];
                    assert(list[k] == placed[i]);
                    assert(list[list.len() - 1] == list.last());
                }
            } else {
                assert(r[i] == placed[i] && r[j] == placed[j]);
            }
        }
        assert forall|x: ContainerModel| #[trigger] r.contains(x) implies x == c || list.contains(
            x,
        ) by {
            let k = choose|k: int| 0 <= k < r.len() && r[k] == x;
            if k == r.len() - 1 {
                assert(list[list.len() - 1] == x);
            } else {
                assert(placed[k] == x);
                assert(placed.contains(x));
                if x != c {
                    let m = choose|m: int| 0 <= m < head.len() && head[m] == x;
                    assert(list[m] == x);
                }
            }
        }
        assert(head.push(list.last()) =~= list);
        assert(r.to_multiset() == placed.to_multiset().insert(list.last()));
        assert(r.to_multiset() =~= list.to_multiset().insert(c));
    } else {
        assert forall|i: int, j: int| 0 <= i < j < r.len() implies !order::text_before(
            (#[trigger] r[j]).name,
            (#[trigger] r[i]).name,
        ) by {
            if j == r.len() - 1 {
                assert(r[j] == c);
                assert(r[i] == list[i]);
                let last = list[list.len() - 1];
                if order::text_before(c.name, list[i].name) {
                    assert(!order::text_before(c.name, last.name));
                    if i < list.len() - 1 {
                        assert(!order::text_before(last.name, list[i].name));
                    }
                    order::text_before_is_total(c.name, last.name);
                    if order::text_before(last.name, c.name) {
                        order::text_before_is_transitive(last.name, c.name, list[i].name);
                    }
                    order::text_before_is_irreflexive(last.name);
                }
            } else {
                assert(r[i] == list[i] && r[j] == list[j]);
            }
        }
        assert forall|x: ContainerModel| #[trigger] r.contains(x) implies x == c || list.contains(
            x,
        ) by {
            let k = choose|k: int| 0 <= k < r.len() && r[k] == x;
            if k < list.len() {
                assert(list[k] == x);
            }
        }
    }
}

/// Filtering a list that has grown at its end.
proof fn lemma_filter_push(
    list: Seq<ContainerModel>,
    c: ContainerModel,
    test: spec_fn(ContainerModel) -> bool,
)
    ensures
        list.push(c).filter(test) == (if test(c) {
            list.filter(test).push(c)
        } else {
            list.filter(test)
        }),
{
    reveal(Seq::filter);
    assert(list.push(c).drop_last() =~= list);
}

proof fn lemma_insert_is_stable(list: Seq<ContainerModel>, c: ContainerModel, name: Seq<char>)
    ensures
        docker::insert_by_name(list, c).filter(named(name)) == list.push(c).filter(named(name)),
    decreases list.len(),
{
    if list.len() > 0 && order::text_before(c.name, list.last().name) {
        let head = list.drop_last();
        let last = list.last();
        order::text_before_is_irreflexive(c.name);
        lemma_insert_is_stable(head, c, name);
        lemma_filter_push(docker::insert_by_name(head, c), last, named(name));
        lemma_filter_push(head, c, named(name));
        lemma_filter_push(head, last, named(name));
        lemma_filter_push(list, c, named(name));
        assert(head.push(last) =~= list);
    }
}

/// The list ordered by name is in order, has the same containers as often,
/// and leaves containers with one name in the order they came in.
pub proof fn by_name_is_a_stable_sort(list: Seq<ContainerModel>, name: Seq<char>)
    ensures
        ordered_by_name(docker::by_name(list)),
        docker::by_name(list).to_multiset() == list.to_multiset(),
        docker::by_name(list).filter(named(name)) == list.filter(named(name)),
    decreases list.len(),
{
    if list.len() > 0 {
        broadcast use vstd::seq_lib::to_multiset_build;

        let head = list.drop_last();
        by_name_is_a_stable_sort(head, name);
        lemma_insert_by_name(docker::by_name(head), list.last());
        lemma_insert_is_stable(docker::by_name(head), list.last(), name);
        lemma_filter_push(docker::by_name(head), list.last(), named(name));
        lemma_filter_push(head, list.last(), named(name));
        assert(head.push(list.last()) =~= list);
    }
}

// ---------------------------------------------------------------------
// The scope of commands on a stack
// ---------------------------------------------------------------------

/// File `i` stands in the arguments behind `-f`, where it belongs.
pub open spec fn names_file(
    args: Seq<Seq<char>>,
    start: int,
    files: Seq<Seq<char>>,
    i: int,
) -> bool {
    args[start + 2 * i] == "-f"@ && args[start + 2 * i + 1] == files[i]
}

/// The arguments of a `docker compose` call name the project first, then
/// every configuration file in order, each behind `-f`, and then what is to
/// be done.
pub proof fn compose_calls_are_scoped(compose: ComposeModel, tail: Seq<Seq<char>>)
    ensures
        docker::scoped_args(compose, tail).len() == 3 + 2 * compose.config_files.len() + tail.len(),
        docker::scoped_args(compose, tail)[0] == "compose"@,
        docker::scoped_args(compose, tail)[1] == "-p"@,
        docker::scoped_args(compose, tail)[2] == compose.project,
        forall|i: int|
            0 <= i < compose.config_files.len() ==> #[trigger] names_file(
                docker::scoped_args(compose, tail),
                3,
                compose.config_files,
                i,
            ),
        tail.is_suffix_of(docker::scoped_args(compose, tail)),
{
    lemma_file_args(compose.config_files);
    let args = docker::scoped_args(compose, tail);
    let files = docker::file_args(compose.config_files);
    assert forall|i: int| 0 <= i < compose.config_files.len() implies #[trigger] names_file(
        args,
        3,
        compose.config_files,
        i,
    ) by {
        assert(names_file(files, 0, compose.config_files, i));
        assert(args[3 + 2 * i] == files[2 * i]);
        assert(args[3 + 2 * i + 1] == files[2 * i + 1]);
    }
    assert(tail =~= args.subrange(args.len() - tail.len(), args.len() as int));
}

/// The arguments of a call name a project, then configuration files in their
/// order, each behind `-f`, and then what is to be done.
pub open spec fn calls(
    args: Seq<Seq<char>>,
    project: Seq<char>,
    files: Seq<Seq<char>>,
    tail: Seq<Seq<char>>,
) -> bool {
    &&& args.len() == 3 + 2 * files.len() + tail.len()
    &&& args[0] == "compose"@
    &&& args[1] == "-p"@
    &&& args[2] == project
    &&& forall|k: int| 0 <= k < files.len() ==> #[trigger] names_file(args, 3, files, k)
    &&& forall|k: int|
        0 <= k < tail.len() ==> args[3 + 2 * files.len() + k] == #[trigger] tail[k]
}

/// The arguments of a call on a stack, argument by argument.
pub proof fn compose_calls_read(compose: ComposeModel, tail: Seq<Seq<char>>)
    ensures
        calls(docker::scoped_args(compose, tail), compose.project, compose.config_files, tail),
{
    compose_calls_are_scoped(compose, tail);
    lemma_file_args(compose.config_files);
}

proof fn lemma_file_args(files: Seq<Seq<char>>)
    ensures
        docker::file_args(files).len() == 2 * files.len(),
        forall|i: int|
            0 <= i < files.len() ==> #[trigger] names_file(docker::file_args(files), 0, files, i),
    decreases files.len(),
{
    if files.len() > 0 {
        let head = files.drop_last();
        lemma_file_args(head);
        assert forall|i: int| 0 <= i < files.len() implies #[trigger] names_file(
            docker::file_args(files),
            0,
            files,
            i,
        ) by {
            if i < head.len() {
                assert(names_file(docker::file_args(head), 0, head, i));
            }
        }
    }
}

// ---------------------------------------------------------------------
// Port listings and addresses
// ---------------------------------------------------------------------

/// A port without a protocol counts as a TCP port.
pub open spec fn is_tcp(port: Port) -> bool {
    port.typ is None || port.typ == Some(PortType::Tcp)
}

/// The address of a published TCP port: that of port 443 is reached with
/// https, every other with http.
pub open spec fn published_url(port: Port) -> Option<Seq<char>> {
    match port.public_port {
        Some(public) => if is_tcp(port) {
            Some(
                if public == 443 {
                    "https://localhost:443"@
                } else {
                    "http://localhost:"@ + text::decimal(public as nat)
                },
            )
        } else {
            None
        },
        None => None,
    }
}

/// The address of a port, over the text of its number.
pub proof fn only_port_443_is_secure(port: Seq<char>)
    ensures
        port == "443"@ ==> container::local_url(port) == "https://localhost:443"@,
        port != "443"@ ==> container::local_url(port) == "http://localhost:"@ + port,
{
    reveal_strlit("443");
    reveal_strlit("http");
    reveal_strlit("https");
    reveal_strlit("://localhost:");
    reveal_strlit("http://localhost:");
    reveal_strlit("https://localhost:443");
    if port == "443"@ {
        assert("https"@ + "://localhost:"@ + port =~= "https://localhost:443"@);
    } else {
        assert("http"@ + "://localhost:"@ =~= "http://localhost:"@);
    }
}

/// The address of a port, over its number.
pub proof fn addresses_of_port_numbers(public: u16)
    ensures
        public == 443 ==> container::local_url(text::decimal(public as nat))
            == "https://localhost:443"@,
        public != 443 ==> container::local_url(text::decimal(public as nat))
            == "http://localhost:"@ + text::decimal(public as nat),
{
    let d = text::decimal(public as nat);
    reveal_strlit("443");
    assert(text::decimal(443) =~= "443"@) by {
        reveal_with_fuel(text::decimal, 3);
        assert(text::digit(4) == '4' && text::digit(3) == '3');
    }
    text_laws::decimals_are_distinct(public as nat, 443);
    only_port_443_is_secure(d);
}

/// `published_url` as a function value.
pub open spec fn published_urls() -> spec_fn(Port) -> Option<Seq<char>> {
    |port: Port| published_url(port)
}

/// What a partial function leaves of a list.
proof fn lemma_filter_map_contains<A, B>(list: Seq<A>, f: spec_fn(A) -> Option<B>, y: B)
    ensures
        list.filter_map(f).contains(y) <==> exists|i: int|
            0 <= i < list.len() && f(#[trigger] list[i]) == Some(y),
    decreases list.len(),
{
    if list.len() > 0 {
        let head = list.drop_last();
        let r = list.filter_map(f);
        let h = head.filter_map(f);
        lemma_filter_map_contains(head, f, y);
        if r.contains(y) {
            let k = choose|k: int| 0 <= k < r.len() && r[k] == y;
            if k < h.len() {
                assert(h[k] == y);
                assert(h.contains(y));
                let i = choose|i: int| 0 <= i < head.len() && f(#[trigger] head[i]) == Some(y);
                assert(f(list[i]) == Some(y));
            } else {
                assert(f(list[list.len() - 1]) == Some(y));
            }
        }
        if exists|i: int| 0 <= i < list.len() && f(#[trigger] list[i]) == Some(y) {
            let i = choose|i: int| 0 <= i < list.len() && f(#[trigger] list[i]) == Some(y);
            if i < head.len() {
                assert(f(head[i]) == Some(y));
                assert(h.contains(y));
                let k = choose|k: int| 0 <= k < h.len() && h[k] == y;
                assert(r[k] == y);
            } else {
                assert(r[h.len() as int] == y);
            }
        }
    }
}

/// The characters that occur in the entries of a port listing.
pub open spec fn is_entry_char(c: char) -> bool {
    text::is_digit(c) || c == '-' || c == '>' || c == '/' || ('a' <= c <= 'z')
}

/// The name of a protocol is made of letters, and only that of TCP begins
/// with `tcp`.
proof fn lemma_protocol(typ: Option<PortType>)
    ensures
        forall|i: int|
            0 <= i < docker::protocol(typ).len() ==> 'a' <= #[trigger] docker::protocol(typ)[i]
                <= 'z',
        (docker::protocol(typ).len() >= 3 && docker::protocol(typ)[0] == 't'
            && docker::protocol(typ)[1] == 'c' && docker::protocol(typ)[2] == 'p') <==> (typ is None
            || typ == Some(PortType::Tcp)),
{
    reveal_strlit("tcp");
    reveal_strlit("udp");
    reveal_strlit("sctp");
    reveal_strlit("");
}

/// The part of an entry that names the private port.
pub open spec fn inner_entry(port: Port) -> Seq<char> {
    text::decimal(port.private_port as nat) + "/"@ + docker::protocol(port.typ)
}

/// An entry is not empty, and made of the characters that entries are made
/// of.
proof fn lemma_entry_chars(port: Port)
    ensures
        docker::port_entry(port).len() > 0,
        forall|i: int|
            0 <= i < docker::port_entry(port).len() ==> is_entry_char(
                #[trigger] docker::port_entry(port)[i],
            ),
{
    reveal_strlit("/");
    reveal_strlit("->");
    let e = docker::port_entry(port);
    let inner = inner_entry(port);
    let d = text::decimal(port.private_port as nat);
    text_laws::decimals_are_digits(port.private_port as nat);
    lemma_protocol(port.typ);
    assert forall|i: int| 0 <= i < inner.len() implies is_entry_char(#[trigger] inner[i]) by {
        if i < d.len() {
            assert(inner[i] == d[i]);
        } else if i > d.len() {
            assert(inner[i] == docker::protocol(port.typ)[i - d.len() - 1]);
        }
    }
    match port.public_port {
        Some(public) => {
            let p = text::decimal(public as nat);
            text_laws::decimals_are_digits(public as nat);
            assert forall|i: int| 0 <= i < e.len() implies is_entry_char(#[trigger] e[i]) by {
                if i < p.len() {
                    assert(e[i] == p[i]);
                } else if i >= p.len() + 2 {
                    assert(e[i] == inner[i - p.len() - 2]);
                }
            }
        },
        None => {},
    }
}

/// An entry names TCP exactly when its port is a TCP port.
proof fn lemma_entry_names_tcp(port: Port, front: Seq<char>)
    requires
        text_laws::free_of(front, '/'),
    ensures
        text::contains_text(front + "/"@ + docker::protocol(port.typ), "/tcp"@) <==> is_tcp(port),
{
    reveal_strlit("/");
    reveal_strlit("/tcp");
    let name = docker::protocol(port.typ);
    let e = front + "/"@ + name;
    let k = front.len() as int;
    lemma_protocol(port.typ);
    if text::contains_text(e, "/tcp"@) {
        let i = choose|i: int| text::occurs_at(e, "/tcp"@, i);
        let found = e.subrange(i, i + 4);
        assert(found == "/tcp"@);
        assert(found[0] == e[i] && found[1] == e[i + 1] && found[2] == e[i + 2] && found[3] == e[i
            + 3]);
        if i < k {
            assert(e[i] == front[i]);
        } else if i > k {
            assert(e[i] == name[i - k - 1]);
        }
        assert(i == k);
        assert(e[k + 1] == name[0] && e[k + 2] == name[1] && e[k + 3] == name[2]);
    }
    if is_tcp(port) {
        assert(e.subrange(k, k + 4) =~= "/tcp"@) by {
            assert(e[k + 1] == name[0] && e[k + 2] == name[1] && e[k + 3] == name[2]);
        }
        assert(text::occurs_at(e, "/tcp"@, k));
    }
}

/// The address that the entry of a port stands for is that of the port.
pub proof fn entry_of_a_port_gives_its_url(port: Port)
    ensures
        container::entry_url(docker::port_entry(port)) == published_url(port),
{
    reveal_strlit("/");
    reveal_strlit("->");
    let e = docker::port_entry(port);
    let inner = inner_entry(port);
    let d = text::decimal(port.private_port as nat);
    lemma_entry_chars(port);
    assert(is_entry_char(e[0]) && is_entry_char(e[e.len() - 1]));
    text_laws::trimming_a_tight_text(e);
    text_laws::decimals_are_digits(port.private_port as nat);
    lemma_protocol(port.typ);
    match port.public_port {
        Some(public) => {
            let p = text::decimal(public as nat);
            let n = p.len() as int;
            addresses_of_port_numbers(public);
            text_laws::decimals_are_digits(public as nat);
            assert(e.subrange(n, n + 2) =~= "->"@);
            assert forall|j: int| 0 <= j < n implies !text::occurs_at(e, "->"@, j) by {
                if text::occurs_at(e, "->"@, j) {
                    assert(e.subrange(j, j + 2)[0] == e[j]);
                    assert(e[j] == p[j]);
                }
            }
            assert(text::first_occurrence(e, "->"@, n));
            let first = choose|i: int| text::first_occurrence(e, "->"@, i);
            assert(text::first_occurrence(e, "->"@, first));
            assert(first == n);
            assert(e.take(n) =~= p);
            assert(text::is_digit(p[0]) && text::is_digit(p[n - 1]));
            text_laws::trimming_a_tight_text(p);
            let front = p + "->"@ + d;
            assert(text_laws::free_of(front, '/')) by {
                assert forall|i: int| 0 <= i < front.len() implies #[trigger] front[i] != '/' by {
                    if i < n {
                        assert(front[i] == p[i]);
                    } else if i >= n + 2 {
                        assert(front[i] == d[i - n - 2]);
                    }
                }
            }
            assert(e =~= front + "/"@ + docker::protocol(port.typ));
            lemma_entry_names_tcp(port, front);
        },
        None => {
            assert forall|j: int| !text::occurs_at(e, "->"@, j) by {
                if text::occurs_at(e, "->"@, j) {
                    assert(e.subrange(j, j + 2)[0] == e[j]);
                    if j < d.len() {
                        assert(e[j] == d[j]);
                    } else if j > d.len() {
                        assert(e[j] == docker::protocol(port.typ)[j - d.len() - 1]);
                    }
                }
            }
        },
    }
}

/// The pieces of a listing: its entries, all but the first behind a blank.
pub open spec fn listing_pieces(entries: Seq<Seq<char>>) -> Seq<Seq<char>> {
    Seq::new(
        entries.len(),
        |i: int|
            if i == 0 {
                entries[0]
            } else {
                " "@ + entries[i]
            },
    )
}

proof fn lemma_split_listing(entries: Seq<Seq<char>>)
    requires
        entries.len() > 0,
        forall|i: int| 0 <= i < entries.len() ==> text_laws::free_of(#[trigger] entries[i], ','),
    ensures
        text::split(text::join(entries, ", "@), ',') == listing_pieces(entries),
    decreases entries.len(),
{
    reveal_strlit(" ");
    reveal_strlit(", ");
    if entries.len() == 1 {
        text_laws::text_without_separator_is_one_piece(entries[0], ',');
        assert(listing_pieces(entries) =~= seq![entries[0]]);
    } else {
        let head = entries.drop_last();
        let last = entries.last();
        assert forall|i: int| 0 <= i < head.len() implies text_laws::free_of(
            #[trigger] head[i],
            ',',
        ) by {
            assert(head[i] == entries[i]);
        }
        lemma_split_listing(head);
        let a = text::join(head, ", "@);
        let b = " "@ + last;
        assert(a + ", "@ + last =~= a + seq![','] + b);
        text_laws::split_at_a_separator(a, b, ',');
        assert(text_laws::free_of(b, ',')) by {
            assert(text_laws::free_of(entries[entries.len() - 1], ','));
            assert forall|i: int| 0 <= i < b.len() implies #[trigger] b[i] != ',' by {
                if i > 0 {
                    assert(b[i] == last[i - 1]);
                }
            }
        }
        text_laws::text_without_separator_is_one_piece(b, ',');
        assert(listing_pieces(head) + seq![b] =~= listing_pieces(entries));
    }
}

/// The addresses that are read off a container's port listing are those of
/// its published TCP ports, each once, in order.
pub proof fn listed_urls_are_those_of_published_ports(ports: Seq<Port>)
    ensures
        container::listed_urls(docker::port_listing(ports)) == order::sorted_distinct(
            ports.filter_map(published_urls()),
        ),
{
    let all = docker::port_entries(ports);
    let entries = order::sorted_distinct(all);
    let listing = docker::port_listing(ports);
    let read = text::split(listing, ',').filter_map(container::entry_urls());
    let meant = ports.filter_map(published_urls());
    order::sorted_distinct_is_sorted_and_complete(all);
    assert forall|y: Seq<char>| #[trigger] read.contains(y) <==> meant.contains(y) by {
        lemma_read_urls(ports, y);
    }
    order::sorted_distinct_is_sorted_and_complete(read);
    order::sorted_distinct_is_sorted_and_complete(meant);
    let x = order::sorted_distinct(read);
    let z = order::sorted_distinct(meant);
    assert forall|y: Seq<char>| #[trigger] x.contains(y) <==> z.contains(y) by {
        assert(x.contains(y) <==> read.contains(y));
        assert(z.contains(y) <==> meant.contains(y));
    }
    order::increasing_list_is_determined_by_its_texts(x, z);
}

proof fn lemma_read_urls(ports: Seq<Port>, y: Seq<char>)
    ensures
        text::split(docker::port_listing(ports), ',').filter_map(container::entry_urls()).contains(
            y,
        ) <==> ports.filter_map(published_urls()).contains(y),
{
    let all = docker::port_entries(ports);
    let entries = order::sorted_distinct(all);
    let listing = docker::port_listing(ports);
    let pieces = text::split(listing, ',');
    order::sorted_distinct_is_sorted_and_complete(all);
    lemma_filter_map_contains(pieces, container::entry_urls(), y);
    lemma_filter_map_contains(ports, published_urls(), y);
    if ports.len() == 0 {
        assert(listing =~= Seq::<char>::empty());
        assert(pieces =~= seq![Seq::<char>::empty()]);
        assert(text::trimmed(Seq::<char>::empty()) =~= Seq::<char>::empty());
        reveal_strlit("->");
        assert(!text::contains_text(Seq::<char>::empty(), "->"@));
        assert(container::entry_url(Seq::<char>::empty()) is None);
    } else {
        assert(all.contains(all[0]));
        assert(entries.contains(all[0]));
        assert forall|i: int| 0 <= i < entries.len() implies text_laws::free_of(
            #[trigger] entries[i],
            ',',
        ) && container::entry_url(" "@ + entries[i]) == container::entry_url(entries[i]) by {
            assert(entries.contains(entries[i]));
            assert(all.contains(entries[i]));
            let k = choose|k: int| 0 <= k < all.len() && all[k] == entries[i];
            lemma_entry_chars(ports[k]);
            let e = entries[i];
            assert(is_entry_char(e[0]) && is_entry_char(e[e.len() - 1]));
            text_laws::trimming_a_tight_text(e);
            assert forall|j: int| 0 <= j < e.len() implies #[trigger] e[j] != ',' by {
                assert(is_entry_char(e[j]));
            }
        }
        lemma_split_listing(entries);
        assert(pieces.len() == entries.len());
        assert forall|i: int| 0 <= i < pieces.len() implies container::entry_url(
            #[trigger] pieces[i],
        ) == container::entry_url(entries[i]) by {
            if i > 0 {
                assert(pieces[i] == " "@ + entries[i]);
            }
        }
        if pieces.filter_map(container::entry_urls()).contains(y) {
            let i = choose|i: int|
                0 <= i < pieces.len() && container::entry_urls()(#[trigger] pieces[i]) == Some(y);
            assert(entries.contains(entries[i]));
            assert(all.contains(entries[i]));
            let k = choose|k: int| 0 <= k < all.len() && all[k] == entries[i];
            entry_of_a_port_gives_its_url(ports[k]);
            assert(published_urls()(ports[k]) == Some(y));
        }
        if ports.filter_map(published_urls()).contains(y) {
            let k = choose|k: int|
                0 <= k < ports.len() && published_urls()(#[trigger] ports[k]) == Some(y);
            entry_of_a_port_gives_its_url(ports[k]);
            assert(all.contains(all[k]));
            assert(entries.contains(all[k]));
            let i = choose|i: int| 0 <= i < entries.len() && entries[i] == all[k];
            assert(container::entry_urls()(pieces[i]) == Some(y));
        }
    }
}

// ---------------------------------------------------------------------
// Entries of a port listing
// ---------------------------------------------------------------------

/// How the entries of ports read.
pub proof fn how_port_entries_read(private: u16, public: u16)
    ensures
        ({
            let inner = text::decimal(private as nat) + "/"@;
            let front = text::decimal(public as nat) + "->"@;
            let entry = |public: Option<u16>, typ: Option<PortType>|
                docker::port_entry(Port { private_port: private, public_port: public, typ });
            &&& entry(None, None) == inner + "tcp"@
            &&& entry(None, Some(PortType::Tcp)) == inner + "tcp"@
            &&& entry(None, Some(PortType::Udp)) == inner + "udp"@
            &&& entry(None, Some(PortType::Sctp)) == inner + "sctp"@
            &&& entry(None, Some(PortType::Empty)) == inner + ""@
            &&& entry(Some(public), None) == front + (inner + "tcp"@)
            &&& entry(Some(public), Some(PortType::Tcp)) == front + (inner + "tcp"@)
            &&& entry(Some(public), Some(PortType::Udp)) == front + (inner + "udp"@)
            &&& entry(Some(public), Some(PortType::Sctp)) == front + (inner + "sctp"@)
            &&& entry(Some(public), Some(PortType::Empty)) == front + (inner + ""@)
        }),
{
}

/// A port listing is a list of the ports' entries, each once, in increasing
/// order, with a comma and a blank between neighbours.
pub proof fn how_port_listings_read(ports: Seq<Port>)
    ensures
        exists|entries: Seq<Seq<char>>|
            {
                &&& order::strictly_increasing(entries)
                &&& docker::port_listing(ports) == #[trigger] text::join(entries, ", "@)
                &&& forall|i: int|
                    0 <= i < ports.len() ==> entries.contains(
                        docker::port_entry(#[trigger] ports[i]),
                    )
                &&& forall|k: int|
                    0 <= k < entries.len() ==> exists|i: int|
                        0 <= i < ports.len() && docker::port_entry(#[trigger] ports[i])
                            == #[trigger] entries[k]
            },
{
    let all = docker::port_entries(ports);
    let entries = order::sorted_distinct(all);
    order::sorted_distinct_is_sorted_and_complete(all);
    assert forall|i: int| 0 <= i < ports.len() implies entries.contains(
        docker::port_entry(#[trigger] ports[i]),
    ) by {
        assert(all[i] == docker::port_entry(ports[i]));
        assert(all.contains(all[i]));
    }
    assert forall|k: int| 0 <= k < entries.len() implies exists|i: int|
        0 <= i < ports.len() && docker::port_entry(#[trigger] ports[i]) == #[trigger] entries[k] by {
        assert(entries.contains(entries[k]));
        assert(all.contains(entries[k]));
        let i = choose|i: int| 0 <= i < all.len() && all[i] == entries[k];
        assert(docker::port_entry(ports[i]) == entries[k]);
    }
    assert(docker::port_listing(ports) == text::join(entries, ", "@));
}

/// An entry with a number in front of an arrow stands for the address of
/// that port if it names TCP behind the arrow, and for none if it does not;
/// blanks around the number and around the entry do not count.
pub proof fn entries_with_a_port(
    front: Seq<char>,
    port: Seq<char>,
    gap: Seq<char>,
    rest: Seq<char>,
    back: Seq<char>,
)
    requires
        text_laws::is_blank_text(front),
        text_laws::is_blank_text(gap),
        text_laws::is_blank_text(back),
        port.len() > 0,
        forall|i: int| 0 <= i < port.len() ==> text::is_digit(#[trigger] port[i]),
        rest.len() > 0 ==> !text::is_white_space(rest.last()),
    ensures
        ({
            let entry = front + (port + gap + "->"@ + rest) + back;
            &&& text::contains_text(rest, "/tcp"@) && port == "443"@ ==> container::entry_url(entry)
                == Some("https://localhost:443"@)
            &&& text::contains_text(rest, "/tcp"@) && port != "443"@ ==> container::entry_url(entry)
                == Some("http://localhost:"@ + port)
            &&& !text::contains_text(rest, "/tcp"@) ==> container::entry_url(entry) is None
        }),
{
    reveal_strlit("->");
    reveal_strlit("/tcp");
    let arrow = "->"@;
    let head = port + gap;
    let s = port + gap + arrow + rest;
    assert(text::is_digit(port[0]));
    text_laws::trimming_takes_white_space_off(front, s, back);
    // The arrow does not occur in the number or the blanks.
    let n = head.len() as int;
    assert forall|j: int| 0 <= j < n implies s[j] != '-' && s[j] != '/' by {
        if j < port.len() {
            assert(s[j] == port[j]);
            assert(text::is_digit(port[j]));
        } else {
            assert(s[j] == gap[j - port.len()]);
            assert(text::is_white_space(gap[j - port.len()]));
        }
    }
    assert(s.subrange(n, n + 2) =~= arrow);
    assert forall|j: int| 0 <= j < n implies !text::occurs_at(s, arrow, j) by {
        if text::occurs_at(s, arrow, j) {
            assert(s.subrange(j, j + 2)[0] == s[j]);
        }
    }
    assert(text::first_occurrence(s, arrow, n));
    let first = choose|i: int| text::first_occurrence(s, arrow, i);
    assert(text::first_occurrence(s, arrow, first));
    assert(first == n);
    assert(s.take(n) =~= head);
    assert(text::is_digit(port[port.len() - 1]));
    let none = Seq::<char>::empty();
    assert(none + port + gap =~= head);
    text_laws::trimming_takes_white_space_off(none, port, gap);
    // TCP is named in the entry exactly if it is named behind the arrow.
    let tcp = "/tcp"@;
    if text::contains_text(rest, tcp) {
        let i = choose|i: int| text::occurs_at(rest, tcp, i);
        assert(s.subrange(n + 2 + i, n + 2 + i + 4) =~= rest.subrange(i, i + 4));
        assert(text::occurs_at(s, tcp, n + 2 + i));
    }
    if text::contains_text(s, tcp) {
        let i = choose|i: int| text::occurs_at(s, tcp, i);
        assert(s.subrange(i, i + 4)[0] == s[i]);
        assert(i >= n + 2);
        assert(s.subrange(i, i + 4) =~= rest.subrange(i - n - 2, i - n - 2 + 4));
        assert(text::occurs_at(rest, tcp, i - n - 2));
    }
    only_port_443_is_secure(port);
}

/// An entry without an arrow, or without a plain number in front of its first
/// arrow, or that does not name TCP, stands for no address.
pub proof fn entries_without_a_port(entry: Seq<char>)
    requires
        container::entry_url(entry) is Some,
    ensures
        ({
            let e = text::trimmed(entry);
            &&& text::contains_text(e, "->"@)
            &&& text::contains_text(e, "/tcp"@)
            &&& text::before_first(e, "->"@) is Some
            &&& text::trimmed(text::before_first(e, "->"@)->0).len() > 0
            &&& forall|i: int|
                0 <= i < text::trimmed(text::before_first(e, "->"@)->0).len() ==> text::is_digit(
                    #[trigger] text::trimmed(text::before_first(e, "->"@)->0)[i],
                )
        }),
{
}

/// The addresses of a listing are those of its entries between the commas:
/// none is left out, none is added, each stands there once, in increasing
/// order.
pub proof fn addresses_of_a_listing(listing: Seq<char>, url: Seq<char>)
    ensures
        order::strictly_increasing(container::listed_urls(listing)),
        container::listed_urls(listing).contains(url) <==> exists|i: int|
            0 <= i < text::split(listing, ',').len() && container::entry_url(
                #[trigger] text::split(listing, ',')[i],
            ) == Some(url),
{
    let pieces = text::split(listing, ',');
    let read = pieces.filter_map(container::entry_urls());
    order::sorted_distinct_is_sorted_and_complete(read);
    lemma_filter_map_contains(pieces, container::entry_urls(), url);
    assert(read.contains(url) <==> container::listed_urls(listing).contains(url));
    if exists|i: int| 0 <= i < pieces.len() && container::entry_url(#[trigger] pieces[i]) == Some(
        url,
    ) {
        let i = choose|i: int|
            0 <= i < pieces.len() && container::entry_url(#[trigger] pieces[i]) == Some(url);
        assert(container::entry_urls()(pieces[i]) == Some(url));
    }
    if read.contains(url) {
        let i = choose|i: int|
            0 <= i < pieces.len() && container::entry_urls()(#[trigger] pieces[i]) == Some(url);
        assert(container::entry_url(pieces[i]) == Some(url));
    }
}

// ---------------------------------------------------------------------
// Labels
// ---------------------------------------------------------------------

/// A container belongs to a stack exactly if its labels name both project and
/// service, and all it has of the stack it has from its own labels.
pub proof fn what_labels_say(labels: Map<Seq<char>, Seq<char>>)
    ensures
        ({
            let project = "com.docker.compose.project"@;
            let service = "com.docker.compose.service"@;
            let dir = "com.docker.compose.project.working_dir"@;
            let files = "com.docker.compose.project.config_files"@;
            let found = docker::compose_of_labels(labels);
            &&& found is Some <==> labels.contains_key(project) && labels.contains_key(service)
            &&& found is Some ==> {
                &&& found->0.project == labels[project]
                &&& found->0.service == labels[service]
                &&& labels.contains_key(dir) ==> found->0.working_dir == Some(labels[dir])
                &&& !labels.contains_key(dir) ==> found->0.working_dir is None
                &&& labels.contains_key(files) ==> found->0.config_files == docker::file_list(
                    labels[files],
                )
                &&& !labels.contains_key(files) ==> found->0.config_files.len() == 0
            }
        }),
{
}

/// The files of two lists with a comma between them are those of the one, and
/// then those of the other.
pub proof fn files_follow_one_another(a: Seq<char>, b: Seq<char>)
    ensures
        docker::file_list(a + seq![','] + b) == docker::file_list(a) + docker::file_list(b),
{
    text_laws::split_at_a_separator(a, b, ',');
    actor_laws::lemma_filter_map_adds_up(
        text::split(a, ','),
        text::split(b, ','),
        docker::listed_files(),
    );
}

/// What stands between two commas is a file, but for the white space around
/// it, whatever its name; and none if there is nothing else.
pub proof fn every_name_is_a_file(front: Seq<char>, file: Seq<char>, back: Seq<char>)
    requires
        text_laws::is_blank_text(front),
        text_laws::is_blank_text(back),
        text_laws::is_tight(file),
        text_laws::free_of(file, ','),
    ensures
        docker::file_list(front + file + back) == (if file.len() > 0 {
            seq![file]
        } else {
            Seq::empty()
        }),
{
    let s = front + file + back;
    assert forall|i: int| 0 <= i < s.len() implies #[trigger] s[i] != ',' by {
        if i < front.len() {
            assert(text::is_white_space(front[i]));
        } else if i < front.len() + file.len() {
            assert(file[i - front.len()] != ',');
        } else {
            assert(text::is_white_space(back[i - front.len() - file.len()]));
        }
    }
    text_laws::text_without_separator_is_one_piece(s, ',');
    text_laws::trimming_takes_white_space_off(front, file, back);
    assert(seq![s].drop_last() =~= Seq::<Seq<char>>::empty());
    assert(seq![s].last() == s);
    reveal_with_fuel(Seq::filter_map, 2);
    assert(seq![s].filter_map(docker::listed_files()) =~= (if file.len() > 0 {
        seq![file]
    } else {
        Seq::empty()
    }));
}

// ---------------------------------------------------------------------
// Summaries
// ---------------------------------------------------------------------

/// What is kept of a summary is what the daemon reports, field by field, and
/// nothing where it reports nothing.
pub proof fn what_is_kept_of_a_summary(summary: ContainerSummary)
    ensures
        ({
            let c = docker::kept(summary);
            let none = Seq::<char>::empty();
            &&& summary.id is Some ==> c.id == summary.id->0@
            &&& summary.id is None ==> c.id == none
            &&& summary.image is Some ==> c.image == summary.image->0@
            &&& summary.image is None ==> c.image == none
            &&& summary.state is Some ==> c.state == summary.state->0@
            &&& summary.state is None ==> c.state == none
            &&& summary.status is Some ==> c.status == summary.status->0@
            &&& summary.status is None ==> c.status == none
            &&& summary.ports is Some ==> c.ports == docker::port_listing(summary.ports->0@)
            &&& summary.ports is None ==> c.ports == none
            &&& summary.labels is Some ==> c.compose == docker::compose_of_labels(
                summary.labels->0@,
            )
            &&& summary.labels is None ==> c.compose is None
        }),
{
}

/// A container is called by the first of its names, without the slashes in
/// front of it.
pub proof fn what_a_container_is_called(
    summary: ContainerSummary,
    slashes: Seq<char>,
    name: Seq<char>,
)
    requires
        text_laws::repeats(slashes, '/'),
        name.len() > 0 ==> name[0] != '/',
    ensures
        summary.names is Some && summary.names->0@.len() > 0 && summary.names->0@[0]@ == slashes
            + name ==> docker::kept(summary).name == name,
        summary.names is None || summary.names->0@.len() == 0 ==> docker::kept(summary).name
            == "<unnamed>"@,
{
    text_laws::stripping_the_front(slashes, name, text::only('/'));
}

/// Every summary of a list is kept, in its place.
pub proof fn every_summary_is_kept(list: Seq<ContainerSummary>)
    ensures
        docker::all_kept(list).len() == list.len(),
        forall|i: int|
            0 <= i < list.len() ==> #[trigger] docker::all_kept(list)[i] == docker::kept(list[i]),
{
}

/// A container is running exactly if its state says so, and its stack and
/// service read with a slash between them.
pub proof fn how_containers_read(c: ContainerModel, compose: ComposeModel)
    ensures
        c.running() <==> c.state == "running"@,
        compose.target() == compose.project + "/"@ + compose.service,
{
}

} // verus!
