//! What holds of whole requests, stated against the model of the host.
use crate::action::ActionKind;
use crate::enumeration::{
    description_on, law_list, lemma_insert_by_name, list_outcome, list_steps, services_from,
    services_on, snapshot_with, status_on,
};
use crate::helper::{
    authorization_action, failed, failure_message, succeeded, supervise_result, ContextView,
    ProgressView,
};
use crate::host::{CommandOutputView, DirEntryView};
use crate::manager::{insert_by_name, valid_service_name};
use crate::outcome::{CommandOutcomeView, HelperErrorView, OutcomeDataView};
use crate::query::{captured_error, status_result, visible};
use crate::service::{DesiredState, ServiceErrorView, ServiceInfoView};
use crate::status::RuntimeStateView;
use crate::text::trimmed;
use crate::world::{last_entries, run, World};
use vstd::prelude::*;

verus! {

/// A name that is not valid is refused before the host is asked for
/// anything, whatever the action.
pub proof fn law_invalid_name_is_refused(context: ContextView, kind: ActionKind, service: Seq<char>)
    requires
        !valid_service_name(service),
    ensures
        context.perform_action(kind, service) == failed(HelperErrorView::InvalidService(service)),
        context.describe(service) == failed(HelperErrorView::InvalidService(service)),
        forall|lines: usize|
            context.logs(service, lines) == failed(HelperErrorView::InvalidService(service)),
{
}

/// Enabling a service. Where nothing defines it, the request fails with
/// `DefinitionMissing`; where its enabled marker stands already, with
/// `AlreadyEnabled`; in both cases the host is left as it was. Otherwise the
/// request succeeds, and the host differs in one thing only: the enabled
/// marker now stands, as a link to the service's definition.
pub proof fn law_enable(context: ContextView, service: Seq<char>, world: World)
    requires
        valid_service_name(service),
    ensures
        ({
            let definition = context.manager.definition_path(service);
            let marker = context.manager.enabled_path(service);
            let end = run(context, context.perform_action(ActionKind::Enable, service), world, 3);
            if !world.paths.contains(definition) {
                end == (failed(HelperErrorView::DefinitionMissing { service, path: definition }), world)
            } else if world.paths.contains(marker) {
                end == (failed(HelperErrorView::AlreadyEnabled(service)), world)
            } else {
                end == (
                    succeeded("Enabled service "@ + service),
                    World {
                        paths: world.paths.insert(marker),
                        links: world.links.insert(marker, definition),
                        ..world
                    },
                )
            }
        }),
{
    reveal_with_fuel(run, 4);
}

/// Disabling a service. Where its enabled marker does not stand, the request
/// fails with `NotEnabled` and the host is left as it was. Otherwise the
/// request succeeds, and the host differs in one thing only: the marker is
/// gone.
pub proof fn law_disable(context: ContextView, service: Seq<char>, world: World)
    requires
        valid_service_name(service),
    ensures
        ({
            let marker = context.manager.enabled_path(service);
            let end = run(context, context.perform_action(ActionKind::Disable, service), world, 2);
            if !world.paths.contains(marker) {
                end == (failed(HelperErrorView::NotEnabled(service)), world)
            } else {
                end == (
                    succeeded("Disabled service "@ + service),
                    World {
                        paths: world.paths.remove(marker),
                        links: world.links.remove(marker),
                        ..world
                    },
                )
            }
        }),
{
    reveal_with_fuel(run, 3);
}

/// A snapshot says of its service what the host holds: it is enabled exactly
/// if the service's enabled marker stands, and it is started at boot exactly
/// if it is enabled.
pub open spec fn agrees(context: ContextView, world: World, info: ServiceInfoView) -> bool {
    info.enabled == world.paths.contains(context.manager.enabled_path(info.name))
        && info.consistent()
}

/// Every snapshot of `found` says what the host holds.
pub open spec fn all_agree(context: ContextView, world: World, found: Seq<ServiceInfoView>) -> bool {
    forall|i: int| 0 <= i < found.len() ==> agrees(context, world, #[trigger] found[i])
}

/// What the entries of a directory come to says what the host holds, if what
/// was found before them does.
pub proof fn lemma_services_agree(
    context: ContextView,
    world: World,
    entries: Seq<DirEntryView>,
    from: int,
    found: Seq<ServiceInfoView>,
)
    requires
        all_agree(context, world, found),
    ensures
        services_from(context, world, entries, from, found) matches Ok(all) ==> all_agree(
            context,
            world,
            all,
        ),
    decreases entries.len() - from,
{
    if from < 0 || from >= entries.len() {
    } else if !visible(entries[from]) {
        lemma_services_agree(context, world, entries, from + 1, found);
    } else {
        let name = entries[from].name.unwrap();
        match status_on(context, world, name) {
            Ok(state) => {
                let info = snapshot_with(context, world, name, state);
                let next = insert_by_name(found, info);
                lemma_insert_by_name(found, info);
                assert forall|i: int| 0 <= i < next.len() implies agrees(
                    context,
                    world,
                    #[trigger] next[i],
                ) by {
                    if next[i] != info {
                        let m = choose|m: int| 0 <= m < found.len() && found[m] == next[i];
                        assert(agrees(context, world, found[m]));
                    }
                }
                lemma_services_agree(context, world, entries, from + 1, next);
            },
            Err(_) => {},
        }
    }
}

/// Every service that an enumeration reports is reported as the host holds
/// it: enabled, and started at boot, exactly if its enabled marker stands.
pub proof fn law_list_agrees_with_host(context: ContextView, world: World)
    ensures
        services_on(context, world) matches Ok(all) ==> all_agree(context, world, all),
{
    if world.directories.contains_key(context.manager.definitions_dir) {
        lemma_services_agree(
            context,
            world,
            world.directories[context.manager.definitions_dir],
            0,
            Seq::empty(),
        );
    }
}

/// After a service has been disabled, the enumeration that follows reports
/// it as manual, if it reports it at all.
pub proof fn law_disable_then_list(
    context: ContextView,
    service: Seq<char>,
    world: World,
    steps: nat,
)
    requires
        valid_service_name(service),
        world.paths.contains(context.manager.enabled_path(service)),
        steps >= 1,
        world.directories.contains_key(context.manager.definitions_dir) ==> steps >= list_steps(
            world.directories[context.manager.definitions_dir].len(),
        ),
    ensures
        ({
            let disabled = run(
                context,
                context.perform_action(ActionKind::Disable, service),
                world,
                2,
            );
            let listed = run(context, context.list(), disabled.1, steps);
            &&& disabled.0 == succeeded("Disabled service "@ + service)
            &&& listed == (list_outcome(services_on(context, disabled.1)), disabled.1)
            &&& services_on(context, disabled.1) matches Ok(all) ==> forall|i: int|
                0 <= i < all.len() && (#[trigger] all[i]).name == service ==> !all[i].enabled
                    && all[i].desired_state == DesiredState::Manual
        }),
{
    law_disable(context, service, world);
    let disabled = run(context, context.perform_action(ActionKind::Disable, service), world, 2);
    law_list(context, disabled.1, steps);
    law_list_agrees_with_host(context, disabled.1);
}

/// After a service has been enabled, the enumeration that follows reports it
/// as started at boot, if it reports it at all.
pub proof fn law_enable_then_list(context: ContextView, service: Seq<char>, world: World, steps: nat)
    requires
        valid_service_name(service),
        world.paths.contains(context.manager.definition_path(service)),
        !world.paths.contains(context.manager.enabled_path(service)),
        steps >= 1,
        world.directories.contains_key(context.manager.definitions_dir) ==> steps >= list_steps(
            world.directories[context.manager.definitions_dir].len(),
        ),
    ensures
        ({
            let enabled = run(context, context.perform_action(ActionKind::Enable, service), world, 3);
            let listed = run(context, context.list(), enabled.1, steps);
            &&& enabled.0 == succeeded("Enabled service "@ + service)
            &&& listed == (list_outcome(services_on(context, enabled.1)), enabled.1)
            &&& services_on(context, enabled.1) matches Ok(all) ==> forall|i: int|
                0 <= i < all.len() && (#[trigger] all[i]).name == service ==> all[i].enabled
                    && all[i].desired_state == DesiredState::AutoStart
        }),
{
    law_enable(context, service, world);
    let enabled = run(context, context.perform_action(ActionKind::Enable, service), world, 3);
    law_list(context, enabled.1, steps);
    law_list_agrees_with_host(context, enabled.1);
}

/// Whatever a command wrote to standard error, be it white space only, makes
/// the status question and the action fail, whatever the exit code and
/// whatever stands on standard output. The failure of the action carries
/// standard error without the white space around it; where nothing is left
/// of it, a failed exit is described by the way the process ended, and a
/// successful one carries the white space as it was written. No failure
/// comes with an empty message.
pub proof fn law_standard_error_fails(
    subcommand: Seq<char>,
    service: Seq<char>,
    output: CommandOutputView,
)
    requires
        output.stderr.len() > 0,
    ensures
        status_result(service, output) == Err::<RuntimeStateView, ServiceErrorView>(
            ServiceErrorView::SvCommand { service, message: captured_error(output.stderr) },
        ),
        captured_error(output.stderr).len() > 0,
        supervise_result(subcommand, service, output) == Err::<
            CommandOutcomeView,
            HelperErrorView,
        >(
            HelperErrorView::SvFailure {
                command: subcommand,
                service,
                message: if trimmed(output.stderr).len() > 0 {
                    trimmed(output.stderr)
                } else if output.success {
                    output.stderr
                } else {
                    "exit status "@ + output.status
                },
            },
        ),
        failure_message(output).len() > 0,
{
    reveal_strlit("exit status ");
}

/// A supervisor command that ended in failure without a word on standard
/// error, or with white space only, is described by the way it ended.
pub proof fn law_silent_failure(subcommand: Seq<char>, service: Seq<char>, output: CommandOutputView)
    requires
        !output.success,
        trimmed(output.stderr).len() == 0,
    ensures
        supervise_result(subcommand, service, output) == Err::<
            CommandOutcomeView,
            HelperErrorView,
        >(
            HelperErrorView::SvFailure {
                command: subcommand,
                service,
                message: "exit status "@ + output.status,
            },
        ),
{
}

/// An action that goes to the supervisor runs the supervisor's command once
/// and ends as its output says; it fails if the command cannot be run. The
/// host is left as it was.
pub proof fn law_supervise(context: ContextView, kind: ActionKind, service: Seq<char>, world: World)
    requires
        valid_service_name(service),
        kind != ActionKind::Enable,
        kind != ActionKind::Disable,
    ensures
        ({
            let subcommand = kind.subcommand().unwrap();
            let command = (context.manager.sv_command, subcommand, service);
            run(context, context.perform_action(kind, service), world, 1) == (
                if world.commands.contains_key(command) {
                    ProgressView::Finished(
                        supervise_result(subcommand, service, world.commands[command]),
                    )
                } else {
                    failed(
                        HelperErrorView::Io { path: context.manager.sv_command, source: world.failure },
                    )
                },
                world,
            )
        }),
{
    reveal_with_fuel(run, 2);
}

/// The request for a description ends with the description that the first
/// of the service's description files gives that gives any, and leaves the
/// host as it was.
pub proof fn law_describe(context: ContextView, service: Seq<char>, world: World)
    requires
        valid_service_name(service),
    ensures
        run(context, context.describe(service), world, 3) == (
            ProgressView::Finished(
                Ok(
                    CommandOutcomeView::data(
                        OutcomeDataView::Description {
                            service,
                            description: description_on(
                                world,
                                context.manager.definition_path(service),
                                0,
                            ),
                        },
                    ),
                ),
            ),
            world,
        ),
{
    reveal_with_fuel(run, 4);
    reveal_with_fuel(description_on, 4);
}

/// The request for a log ends with the last lines of the service's log, as
/// many as were asked for and one if none was asked for; it fails where the
/// log cannot be had. The host is left as it was.
pub proof fn law_logs(context: ContextView, service: Seq<char>, lines: usize, world: World)
    requires
        valid_service_name(service),
    ensures
        run(context, context.logs(service, lines), world, 1) == (
            if world.logs.contains_key(service) {
                ProgressView::Finished(
                    Ok(
                        CommandOutcomeView::data(
                            OutcomeDataView::Log(
                                last_entries(
                                    world.logs[service],
                                    if lines < 1 {
                                        1
                                    } else {
                                        lines as int
                                    },
                                ).map_values(|line: crate::service::ServiceLogEntryView| line.snapshot()),
                            ),
                        ),
                    ),
                )
            } else {
                failed(HelperErrorView::LogUnavailable(service))
            },
            world,
        ),
{
    reveal_with_fuel(run, 2);
}

/// The authorization gate. An action of no known name is refused without
/// the authority being asked. For a known action the authority is asked
/// once: a caller that it authorizes gets the action, one that it challenged
/// or refused gets a failure, and nothing on the host has changed then.
pub proof fn law_authorize(
    context: ContextView,
    action: Seq<char>,
    service: Seq<char>,
    allow_cached: bool,
    world: World,
    steps: nat,
)
    ensures
        ActionKind::named(action) is None ==> context.authorize(action, service, allow_cached)
            == failed(HelperErrorView::UnsupportedAction(action)),
        ActionKind::named(action) matches Some(kind) ==> ({
            let question = (authorization_action(allow_cached), service, kind.name());
            let end = run(context, context.authorize(action, service, allow_cached), world, steps + 1);
            if !world.decisions.contains_key(question) {
                end == (failed(HelperErrorView::Other(world.failure)), world)
            } else if world.decisions[question].0 {
                end == run(context, context.perform_action(kind, service), world, steps)
            } else if world.decisions[question].1 {
                end == (failed(HelperErrorView::AuthorizationChallenged), world)
            } else {
                end == (failed(HelperErrorView::AuthorizationDenied), world)
            }
        }),
{
    reveal_with_fuel(run, 2);
}

} // verus!
