//! What the enumeration of services comes to on a given host, said directly:
//! which entries are reported, what is reported of each, and in which order.
use crate::helper::{lift, ContextView, ProgressView, PurposeView, TaskView};
use crate::host::{join_path, DirEntryView, EffectView};
use crate::manager::{bytes_le, insert_by_name, name_le, valid_service_name};
use crate::outcome::{CommandOutcomeView, OutcomeDataView};
use crate::query::{
    candidate_name, description_in, next_visible, status_result, visible, ListingView, QueryView,
    DESCRIPTION_CANDIDATES, STATUS_SUBCOMMAND,
};
use crate::service::{DesiredState, ServiceErrorView, ServiceInfoView};
use crate::status::RuntimeStateView;
use crate::world::{run, World};
use vstd::prelude::*;

verus! {

/// What the supervisor says of the service `name` on this host: nothing for
/// a name that is not valid or a command that cannot be run, else what the
/// status command's output says.
pub open spec fn status_on(context: ContextView, world: World, name: Seq<char>) -> Result<
    RuntimeStateView,
    ServiceErrorView,
> {
    let command = (context.manager.sv_command, STATUS_SUBCOMMAND@, name);
    if !valid_service_name(name) {
        Err(ServiceErrorView::InvalidServiceName(name))
    } else if !world.commands.contains_key(command) {
        Err(ServiceErrorView::Io { source: world.failure, path: context.manager.sv_command })
    } else {
        status_result(name, world.commands[command])
    }
}

/// The text of the file at `path`, if it can be read.
pub open spec fn text_on(world: World, path: Seq<char>) -> Option<Seq<char>> {
    if world.texts.contains_key(path) {
        Some(world.texts[path])
    } else {
        None
    }
}

/// The description that the files under `path` give, looking at the
/// candidates from the `from`-th on: that of the first one that has any.
pub open spec fn description_on(world: World, path: Seq<char>, from: int) -> Option<Seq<char>>
    decreases DESCRIPTION_CANDIDATES - from,
{
    if from < 0 || from >= DESCRIPTION_CANDIDATES {
        None
    } else {
        match description_in(text_on(world, join_path(path, candidate_name(from)))) {
            Some(text) => Some(text),
            None => description_on(world, path, from + 1),
        }
    }
}

/// The snapshot of the service `name` with the runtime state `state`: the
/// rest of it is read off the host.
pub open spec fn snapshot_with(
    context: ContextView,
    world: World,
    name: Seq<char>,
    state: RuntimeStateView,
) -> ServiceInfoView {
    let enabled = world.paths.contains(context.manager.enabled_path(name));
    ServiceInfoView {
        name,
        definition_path: context.manager.definition_path(name),
        enabled,
        desired_state: DesiredState::of(enabled),
        runtime_state: state,
        description: description_on(world, context.manager.definition_path(name), 0),
    }
}

/// The services that the entries from the `from`-th on stand for, put among
/// `found` in the order of their names; or the failure of the first status
/// question that fails.
pub open spec fn services_from(
    context: ContextView,
    world: World,
    entries: Seq<DirEntryView>,
    from: int,
    found: Seq<ServiceInfoView>,
) -> Result<Seq<ServiceInfoView>, ServiceErrorView>
    decreases entries.len() - from,
{
    if from < 0 || from >= entries.len() {
        Ok(found)
    } else if !visible(entries[from]) {
        services_from(context, world, entries, from + 1, found)
    } else {
        let name = entries[from].name.unwrap();
        match status_on(context, world, name) {
            Ok(state) => services_from(
                context,
                world,
                entries,
                from + 1,
                insert_by_name(found, snapshot_with(context, world, name, state)),
            ),
            Err(error) => Err(error),
        }
    }
}

/// The services of this host: one for each directory under the definitions
/// directory whose name is not hidden, in the order of their names. There is
/// no list at all if the directory cannot be listed or one status question
/// fails.
pub open spec fn services_on(context: ContextView, world: World) -> Result<
    Seq<ServiceInfoView>,
    ServiceErrorView,
> {
    if world.directories.contains_key(context.manager.definitions_dir) {
        services_from(
            context,
            world,
            world.directories[context.manager.definitions_dir],
            0,
            Seq::empty(),
        )
    } else {
        Err(
            ServiceErrorView::Io {
                source: world.failure,
                path: context.manager.definitions_dir,
            },
        )
    }
}

/// How the request for the list ends, for what the enumeration came to.
pub open spec fn list_outcome(services: Result<Seq<ServiceInfoView>, ServiceErrorView>) -> ProgressView {
    match services {
        Ok(found) => ProgressView::Finished(
            Ok(
                CommandOutcomeView::data(
                    OutcomeDataView::Services(
                        found.map_values(|info: ServiceInfoView| info.snapshot()),
                    ),
                ),
            ),
        ),
        Err(error) => ProgressView::Finished(Err(error.helper_error())),
    }
}

/// How many answers of the host a directory of `entries` entries takes at
/// most: one for the listing, five for each entry.
pub open spec fn list_steps(entries: nat) -> nat {
    1 + 5 * entries
}

/// The services of a list are in the order of their names.
pub open spec fn ordered(found: Seq<ServiceInfoView>) -> bool {
    forall|i: int, j: int|
        0 <= i < j < found.len() ==> name_le(#[trigger] found[i].name, #[trigger] found[j].name)
}

/// Of two texts one comes before the other, or they are the same.
pub proof fn lemma_bytes_le_total(a: Seq<u8>, b: Seq<u8>)
    ensures
        bytes_le(a, b) || bytes_le(b, a),
    decreases a.len(),
{
    if a.len() > 0 && b.len() > 0 && a[0] == b[0] {
        lemma_bytes_le_total(a.drop_first(), b.drop_first());
    }
}

/// A list with one more service put in holds that service and those it held,
/// and nothing else; and it stays in order if it was.
pub proof fn lemma_insert_by_name(found: Seq<ServiceInfoView>, info: ServiceInfoView)
    ensures
        insert_by_name(found, info).len() == found.len() + 1,
        forall|k: int|
            0 <= k < found.len() + 1 ==> #[trigger] insert_by_name(found, info)[k] == info
                || found.contains(insert_by_name(found, info)[k]),
        insert_by_name(found, info).contains(info),
        forall|k: int| 0 <= k < found.len() ==> insert_by_name(found, info).contains(#[trigger] found[k]),
        ordered(found) ==> ordered(insert_by_name(found, info)),
    decreases found.len(),
{
    let result = insert_by_name(found, info);
    if found.len() == 0 {
        assert(result[0] == info);
    } else if name_le(found.last().name, info.name) {
        assert(result[found.len() as int] == info);
        assert forall|k: int| 0 <= k < found.len() + 1 implies #[trigger] result[k] == info
            || found.contains(result[k]) by {
            if k < found.len() {
                assert(result[k] == found[k]);
            }
        }
        assert forall|k: int| 0 <= k < found.len() implies result.contains(#[trigger] found[k]) by {
            assert(result[k] == found[k]);
        }
        if ordered(found) {
            assert forall|i: int, j: int| 0 <= i < j < result.len() implies name_le(
                #[trigger] result[i].name,
                #[trigger] result[j].name,
            ) by {
                if j < found.len() {
                    assert(result[i] == found[i] && result[j] == found[j]);
                } else if i < found.len() - 1 {
                    assert(result[i] == found[i]);
                    assert(name_le(found[i].name, found[found.len() - 1].name));
                    lemma_name_le_transitive(found[i].name, found.last().name, info.name);
                } else {
                    assert(result[i] == found.last());
                }
            }
        }
    } else {
        let rest = found.drop_last();
        let inner = insert_by_name(rest, info);
        lemma_insert_by_name(rest, info);
        assert(result == inner.push(found.last()));
        assert forall|k: int| 0 <= k < found.len() + 1 implies #[trigger] result[k] == info
            || found.contains(result[k]) by {
            if k < inner.len() {
                assert(result[k] == inner[k]);
                if inner[k] != info {
                    let m = choose|m: int| 0 <= m < rest.len() && rest[m] == inner[k];
                    assert(found[m] == rest[m]);
                }
            } else {
                assert(result[k] == found[found.len() - 1]);
            }
        }
        let at = choose|at: int| 0 <= at < inner.len() && inner[at] == info;
        assert(result[at] == info);
        assert forall|k: int| 0 <= k < found.len() implies result.contains(#[trigger] found[k]) by {
            if k < rest.len() {
                assert(rest[k] == found[k]);
                let m = choose|m: int| 0 <= m < inner.len() && inner[m] == rest[k];
                assert(result[m] == found[k]);
            } else {
                assert(result[inner.len() as int] == found[k]);
            }
        }
        if ordered(found) {
            assert(ordered(rest)) by {
                assert forall|i: int, j: int| 0 <= i < j < rest.len() implies name_le(
                    #[trigger] rest[i].name,
                    #[trigger] rest[j].name,
                ) by {
                    assert(rest[i] == found[i] && rest[j] == found[j]);
                }
            }
            assert forall|i: int, j: int| 0 <= i < j < result.len() implies name_le(
                #[trigger] result[i].name,
                #[trigger] result[j].name,
            ) by {
                if j < inner.len() {
                    assert(result[i] == inner[i] && result[j] == inner[j]);
                } else {
                    assert(result[j] == found.last());
                    assert(result[i] == inner[i]);
                    if inner[i] == info {
                        lemma_bytes_le_total(
                            vstd::utf8::encode_utf8(found.last().name),
                            vstd::utf8::encode_utf8(info.name),
                        );
                    } else {
                        let m = choose|m: int| 0 <= m < rest.len() && rest[m] == inner[i];
                        assert(found[m] == rest[m]);
                        assert(name_le(found[m].name, found[found.len() - 1].name));
                    }
                }
            }
        }
    }
}

/// The order of texts by their bytes goes on from one pair to the next.
pub proof fn lemma_bytes_le_transitive(a: Seq<u8>, b: Seq<u8>, c: Seq<u8>)
    requires
        bytes_le(a, b),
        bytes_le(b, c),
    ensures
        bytes_le(a, c),
    decreases a.len(),
{
    if a.len() > 0 && b.len() > 0 && c.len() > 0 && a[0] == b[0] && b[0] == c[0] {
        lemma_bytes_le_transitive(a.drop_first(), b.drop_first(), c.drop_first());
    }
}

/// The order of names goes on from one pair to the next.
pub proof fn lemma_name_le_transitive(a: Seq<char>, b: Seq<char>, c: Seq<char>)
    requires
        name_le(a, b),
        name_le(b, c),
    ensures
        name_le(a, c),
{
    lemma_bytes_le_transitive(
        vstd::utf8::encode_utf8(a),
        vstd::utf8::encode_utf8(b),
        vstd::utf8::encode_utf8(c),
    );
}

/// Entries that stand for no service make no difference to what the entries
/// after them come to.
pub proof fn lemma_skip_to_visible(
    context: ContextView,
    world: World,
    entries: Seq<DirEntryView>,
    from: int,
    found: Seq<ServiceInfoView>,
)
    requires
        0 <= from,
    ensures
        from <= next_visible(entries, from) || next_visible(entries, from) == entries.len(),
        next_visible(entries, from) <= entries.len(),
        next_visible(entries, from) < entries.len() ==> visible(
            entries[next_visible(entries, from)],
        ),
        services_from(context, world, entries, from, found) == services_from(
            context,
            world,
            entries,
            next_visible(entries, from),
            found,
        ),
    decreases entries.len() - from,
{
    if from >= entries.len() {
    } else if visible(entries[from]) {
    } else {
        lemma_skip_to_visible(context, world, entries, from + 1, found);
    }
}

/// The progress of an enumeration that reads the `candidate`-th description
/// file of the entry it is looking at.
pub open spec fn reading_description(
    context: ContextView,
    listing: ListingView,
    enabled: bool,
    state: RuntimeStateView,
    candidate: usize,
) -> ProgressView {
    ProgressView::Waiting(
        TaskView::Asking {
            purpose: PurposeView::List,
            query: QueryView::Description { listing, enabled, state, candidate },
        },
        EffectView::ReadText {
            path: join_path(
                context.manager.definition_path(listing.current_name().unwrap()),
                candidate_name(candidate as int),
            ),
        },
    )
}

/// An enumeration that goes on with the entries from the `from`-th on ends
/// as those entries say, within five answers for each entry.
pub proof fn lemma_list_from(
    context: ContextView,
    world: World,
    entries: Seq<DirEntryView>,
    from: int,
    found: Seq<ServiceInfoView>,
    steps: nat,
)
    requires
        0 <= from <= entries.len(),
        steps >= 5 * (entries.len() - from),
    ensures
        run(context, lift(PurposeView::List, context.manager.advance(entries, from, found)), world, steps)
            == (list_outcome(services_from(context, world, entries, from, found)), world),
    decreases entries.len() - from, 4int,
{
    lemma_skip_to_visible(context, world, entries, from, found);
    let next = next_visible(entries, from);
    if next < entries.len() {
        let name = entries[next].name.unwrap();
        let listing = ListingView { entries, next, found };
        let enabled = world.paths.contains(context.manager.enabled_path(name));
        let start = lift(PurposeView::List, context.manager.advance(entries, from, found));
        assert(listing.current_name() == Some(name));
        reveal_with_fuel(run, 3);
        if valid_service_name(name) {
            let command = (context.manager.sv_command, STATUS_SUBCOMMAND@, name);
            if world.commands.contains_key(command) {
                match status_result(name, world.commands[command]) {
                    Ok(state) => {
                        lemma_description_from(
                            context,
                            world,
                            listing,
                            enabled,
                            state,
                            0,
                            (steps - 2) as nat,
                        );
                        assert(run(context, start, world, steps) == run(
                            context,
                            reading_description(context, listing, enabled, state, 0),
                            world,
                            (steps - 2) as nat,
                        ));
                    },
                    Err(_) => {},
                }
            }
        }
    }
}

/// An enumeration that reads the description files of the entry it is
/// looking at, from the `candidate`-th on, ends as that entry and those
/// after it say.
pub proof fn lemma_description_from(
    context: ContextView,
    world: World,
    listing: ListingView,
    enabled: bool,
    state: RuntimeStateView,
    candidate: usize,
    steps: nat,
)
    requires
        0 <= listing.next < listing.entries.len(),
        visible(listing.entries[listing.next]),
        candidate < DESCRIPTION_CANDIDATES,
        enabled == world.paths.contains(
            context.manager.enabled_path(listing.current_name().unwrap()),
        ),
        steps >= (DESCRIPTION_CANDIDATES - candidate) + 5 * (listing.entries.len() - listing.next
            - 1),
    ensures
        ({
            let name = listing.current_name().unwrap();
            let info = ServiceInfoView {
                description: description_on(
                    world,
                    context.manager.definition_path(name),
                    candidate as int,
                ),
                ..snapshot_with(context, world, name, state)
            };
            run(context, reading_description(context, listing, enabled, state, candidate), world, steps)
                == (
                list_outcome(
                    services_from(
                        context,
                        world,
                        listing.entries,
                        listing.next + 1,
                        insert_by_name(listing.found, info),
                    ),
                ),
                world,
            )
        }),
    decreases listing.entries.len() - listing.next, DESCRIPTION_CANDIDATES - candidate,
{
    let name = listing.current_name().unwrap();
    let path = context.manager.definition_path(name);
    let contents = text_on(world, join_path(path, candidate_name(candidate as int)));
    let start = reading_description(context, listing, enabled, state, candidate);
    reveal_with_fuel(run, 2);
    match description_in(contents) {
        Some(text) => {
            let info = ServiceInfoView {
                description: Some(text),
                ..snapshot_with(context, world, name, state)
            };
            lemma_list_from(
                context,
                world,
                listing.entries,
                listing.next + 1,
                insert_by_name(listing.found, info),
                (steps - 1) as nat,
            );
        },
        None => {
            if candidate + 1 < DESCRIPTION_CANDIDATES {
                lemma_description_from(
                    context,
                    world,
                    listing,
                    enabled,
                    state,
                    (candidate + 1) as usize,
                    (steps - 1) as nat,
                );
                assert(description_on(world, path, candidate as int) == description_on(
                    world,
                    path,
                    candidate + 1,
                ));
            } else {
                let info = ServiceInfoView {
                    description: None,
                    ..snapshot_with(context, world, name, state)
                };
                assert(description_on(world, path, candidate as int) == None::<Seq<char>>);
                lemma_list_from(
                    context,
                    world,
                    listing.entries,
                    listing.next + 1,
                    insert_by_name(listing.found, info),
                    (steps - 1) as nat,
                );
            }
        },
    }
}

/// The request for the list of services ends with the services of the host,
/// as [`services_on`] says them, and leaves the host as it was. It takes one
/// answer of the host for the listing and at most five for each entry.
pub proof fn law_list(context: ContextView, world: World, steps: nat)
    requires
        world.directories.contains_key(context.manager.definitions_dir) ==> steps >= list_steps(
            world.directories[context.manager.definitions_dir].len(),
        ),
        steps >= 1,
    ensures
        run(context, context.list(), world, steps) == (list_outcome(services_on(context, world)), world),
{
    reveal_with_fuel(run, 2);
    if world.directories.contains_key(context.manager.definitions_dir) {
        let entries = world.directories[context.manager.definitions_dir];
        lemma_list_from(context, world, entries, 0, Seq::empty(), (steps - 1) as nat);
    }
}

/// What the entries of a directory come to is in the order of the names, if
/// what was found before them is.
pub proof fn lemma_services_ordered(
    context: ContextView,
    world: World,
    entries: Seq<DirEntryView>,
    from: int,
    found: Seq<ServiceInfoView>,
)
    requires
        ordered(found),
    ensures
        services_from(context, world, entries, from, found) matches Ok(all) ==> ordered(all),
    decreases entries.len() - from,
{
    if from < 0 || from >= entries.len() {
    } else if !visible(entries[from]) {
        lemma_services_ordered(context, world, entries, from + 1, found);
    } else {
        let name = entries[from].name.unwrap();
        match status_on(context, world, name) {
            Ok(state) => {
                let info = snapshot_with(context, world, name, state);
                lemma_insert_by_name(found, info);
                lemma_services_ordered(
                    context,
                    world,
                    entries,
                    from + 1,
                    insert_by_name(found, info),
                );
            },
            Err(_) => {},
        }
    }
}

/// One snapshot for each of the first `upto` entries that stands for a
/// service, in the order of the listing.
pub open spec fn records_upto(
    context: ContextView,
    world: World,
    entries: Seq<DirEntryView>,
    upto: int,
) -> Seq<ServiceInfoView>
    decreases upto,
{
    if upto <= 0 || upto > entries.len() {
        Seq::empty()
    } else if visible(entries[upto - 1]) {
        let name = entries[upto - 1].name.unwrap();
        records_upto(context, world, entries, upto - 1).push(
            snapshot_with(context, world, name, status_on(context, world, name)->Ok_0),
        )
    } else {
        records_upto(context, world, entries, upto - 1)
    }
}

/// A list with one more service put in holds that service once more, and
/// every other as often as before.
pub proof fn lemma_insert_once(found: Seq<ServiceInfoView>, info: ServiceInfoView)
    ensures
        insert_by_name(found, info).to_multiset() == found.to_multiset().insert(info),
    decreases found.len(),
{
    broadcast use vstd::seq_lib::to_multiset_build;

    if found.len() == 0 {
        assert(insert_by_name(found, info) =~= found.push(info));
    } else if name_le(found.last().name, info.name) {
    } else {
        let rest = found.drop_last();
        lemma_insert_once(rest, info);
        assert(found =~= rest.push(found.last()));
        assert(insert_by_name(found, info).to_multiset() =~= found.to_multiset().insert(info));
    }
}

/// What the entries of a directory come to holds what was found before them
/// and one snapshot for each entry among them that stands for a service; and
/// the status question succeeded for each of those.
pub proof fn lemma_services_complete(
    context: ContextView,
    world: World,
    entries: Seq<DirEntryView>,
    from: int,
    found: Seq<ServiceInfoView>,
)
    requires
        0 <= from <= entries.len(),
        found.to_multiset() == records_upto(context, world, entries, from).to_multiset(),
    ensures
        services_from(context, world, entries, from, found) matches Ok(all) ==> {
            &&& all.to_multiset() == records_upto(
                context,
                world,
                entries,
                entries.len() as int,
            ).to_multiset()
            &&& forall|k: int|
                from <= k < entries.len() && visible(#[trigger] entries[k]) ==> status_on(
                    context,
                    world,
                    entries[k].name.unwrap(),
                ) is Ok
        },
    decreases entries.len() - from,
{
    broadcast use vstd::seq_lib::to_multiset_build;

    if from >= entries.len() {
    } else if !visible(entries[from]) {
        lemma_services_complete(context, world, entries, from + 1, found);
    } else {
        let name = entries[from].name.unwrap();
        match status_on(context, world, name) {
            Ok(state) => {
                let info = snapshot_with(context, world, name, state);
                lemma_insert_once(found, info);
                lemma_services_complete(
                    context,
                    world,
                    entries,
                    from + 1,
                    insert_by_name(found, info),
                );
            },
            Err(_) => {},
        }
    }
}

/// The list of services holds exactly one snapshot for each entry of the
/// definitions directory that stands for a service, however many entries
/// bear one name, and nothing else. Where there is a list, the status
/// question succeeded for every such entry.
pub proof fn law_list_is_complete(context: ContextView, world: World)
    requires
        world.directories.contains_key(context.manager.definitions_dir),
    ensures
        services_on(context, world) matches Ok(all) ==> ({
            let entries = world.directories[context.manager.definitions_dir];
            let records = records_upto(context, world, entries, entries.len() as int);
            &&& all.to_multiset() == records.to_multiset()
            &&& all.len() == records.len()
            &&& forall|k: int|
                0 <= k < entries.len() && visible(#[trigger] entries[k]) ==> status_on(
                    context,
                    world,
                    entries[k].name.unwrap(),
                ) is Ok
        }),
{
    let entries = world.directories[context.manager.definitions_dir];
    lemma_services_complete(context, world, entries, 0, Seq::empty());
    if let Ok(all) = services_on(context, world) {
        vstd::seq_lib::to_multiset_len(all);
        vstd::seq_lib::to_multiset_len(records_upto(context, world, entries, entries.len() as int));
    }
}

/// The services of a host are listed in the ascending order of the bytes of
/// their names.
pub proof fn law_list_is_ordered(context: ContextView, world: World)
    ensures
        services_on(context, world) matches Ok(all) ==> ordered(all),
{
    if world.directories.contains_key(context.manager.definitions_dir) {
        lemma_services_ordered(
            context,
            world,
            world.directories[context.manager.definitions_dir],
            0,
            Seq::empty(),
        );
    }
}

} // verus!
