use vstd::prelude::*;

use crate::command::{config_error, plan_view, same_plan, CommandView, PlannedCommand};
use crate::error::{ErrorKind, NetMgrError};
use crate::forward::{
    add_platform_forward, apply_port_forward_spec, enable_ip_forwarding,
    enable_ip_forwarding_spec, forwarding_unsupported, remove_platform_forward,
    remove_port_forward_spec, Protocol,
};
use crate::platform::Platform;
use crate::runner::{progress_after, FailureView, PlanRun, StepFailure, StepResult};
use crate::store::{
    by_name, has_name, lemma_by_name_domain, lemma_by_name_remove, names_distinct, ForwardRecord, ForwardStore, PortForward, Timestamp,
};
use crate::text::joined;

verus! {

/// What is said when a forward of the name is there already.
pub open spec fn duplicate_message(name: Seq<char>) -> Seq<char> {
    "Port forward with name '"@ + name + "' already exists"@
}

/// What is said when no forward of the name is there.
pub open spec fn missing_message(name: Seq<char>) -> Seq<char> {
    "Port forward with name '"@ + name + "' does not exist"@
}

/// What is said of a protocol that is neither `tcp` nor `udp`.
pub open spec fn protocol_message(word: Seq<char>) -> Seq<char> {
    "Unsupported protocol: "@ + word
}

/// The record that a successful creation leaves in the store.
pub open spec fn new_record(
    name: Seq<char>,
    src_port: Seq<char>,
    dest_ip: Seq<char>,
    dest_port: Seq<char>,
    protocol: Protocol,
    created: Timestamp,
) -> ForwardRecord {
    ForwardRecord { name, src_port, dest_ip, dest_port, protocol, created, active: true }
}

/// The commands of a creation: packet forwarding is switched on, as far as
/// that goes, and then the forward is set up.
pub open spec fn creation_plan(
    platform: Platform,
    name: Seq<char>,
    src_port: Seq<char>,
    dest_ip: Seq<char>,
    dest_port: Seq<char>,
    protocol: Protocol,
) -> Seq<CommandView> {
    enable_ip_forwarding_spec(platform) + apply_port_forward_spec(
        platform,
        name,
        src_port,
        dest_ip,
        dest_port,
        protocol,
    )
}

/// Why a creation is turned down before any command runs, if it is: the name
/// is taken, the protocol is unknown, or the system has no port forwarding.
pub open spec fn creation_refusal(
    store: Seq<ForwardRecord>,
    platform: Platform,
    name: Seq<char>,
    protocol: Seq<char>,
) -> Option<(ErrorKind, Seq<char>)> {
    if has_name(store, name) {
        Some((ErrorKind::ConfigError, duplicate_message(name)))
    } else if Protocol::parse_spec(protocol) is None {
        Some((ErrorKind::ConfigError, protocol_message(protocol)))
    } else if platform == Platform::Other {
        Some((ErrorKind::UnsupportedPlatform, forwarding_unsupported()))
    } else {
        None
    }
}

fn duplicate_error(name: &str) -> (e: NetMgrError)
    ensures
        e.is(ErrorKind::ConfigError, duplicate_message(name@)),
{
    let mut text = joined("Port forward with name '", name);
    text.append("' already exists");
    NetMgrError::ConfigError(text)
}

fn missing_error(name: &str) -> (e: NetMgrError)
    ensures
        e.is(ErrorKind::ConfigError, missing_message(name@)),
{
    let mut text = joined("Port forward with name '", name);
    text.append("' does not exist");
    NetMgrError::ConfigError(text)
}

fn protocol_error(word: &str) -> (e: NetMgrError)
    ensures
        e.is(ErrorKind::ConfigError, protocol_message(word@)),
{
    NetMgrError::ConfigError(joined("Unsupported protocol: ", word))
}

/// Appends the commands of `tail` to `plan`.
fn extend_plan(plan: &mut Vec<PlannedCommand>, tail: Vec<PlannedCommand>)
    ensures
        plan_view(final(plan)@) == plan_view(old(plan)@) + plan_view(tail@),
{
    let mut tail = tail;
    let ghost before = plan@;
    let ghost added = tail@;
    plan.append(&mut tail);
    assert(plan@ == before + added);
    assert(plan_view(plan@) =~= plan_view(before) + plan_view(added));
}

/// The commands of a creation on `platform`, or the error that says the
/// system has no port forwarding.
fn creation_commands(
    platform: Platform,
    name: &str,
    src_port: &str,
    dest_ip: &str,
    dest_port: &str,
    protocol: Protocol,
) -> (r: Result<Vec<PlannedCommand>, NetMgrError>)
    ensures
        r is Err <==> platform == Platform::Other,
        r matches Err(e) ==> e.is(ErrorKind::UnsupportedPlatform, forwarding_unsupported()),
        r matches Ok(plan) ==> plan_view(plan@) == creation_plan(
            platform,
            name@,
            src_port@,
            dest_ip@,
            dest_port@,
            protocol,
        ),
{
    match add_platform_forward(platform, name, src_port, dest_ip, dest_port, protocol) {
        Ok(rules) => {
            let mut plan = enable_ip_forwarding(platform);
            extend_plan(&mut plan, rules);
            Ok(plan)
        },
        Err(e) => Err(e),
    }
}

/// The first half of a creation: the request is held against the store, and
/// the commands that the caller is to run are handed out.
///
/// The request is turned down, with nothing to run, where `creation_refusal`
/// says so. The store is not touched: the forward goes into it only through
/// `complete_add_forward`, once the commands have been run.
pub fn add_forward(
    store: &ForwardStore,
    platform: Platform,
    name: &str,
    src_port: &str,
    dest_ip: &str,
    dest_port: &str,
    protocol: &str,
) -> (r: Result<Vec<PlannedCommand>, NetMgrError>)
    ensures
        r is Err <==> creation_refusal(store@, platform, name@, protocol@) is Some,
        r matches Err(e) ==> creation_refusal(store@, platform, name@, protocol@) == Some(
            (e.kind(), e.detail()),
        ),
        r matches Ok(plan) ==> plan_view(plan@) == creation_plan(
            platform,
            name@,
            src_port@,
            dest_ip@,
            dest_port@,
            Protocol::parse_spec(protocol@).unwrap(),
        ),
{
    if store.contains(name) {
        return Err(duplicate_error(name));
    }
    let proto = match Protocol::parse(protocol) {
        Some(p) => p,
        None => {
            return Err(protocol_error(protocol));
        },
    };
    creation_commands(platform, name, src_port, dest_ip, dest_port, proto)
}

/// The store after the second half of a creation at the moment `now`: the
/// new record is added where the request stands and no command has failed;
/// otherwise the store is as it was.
pub open spec fn store_after_creation(
    store: Seq<ForwardRecord>,
    name: Seq<char>,
    src_port: Seq<char>,
    dest_ip: Seq<char>,
    dest_port: Seq<char>,
    protocol: Seq<char>,
    failure: Option<FailureView>,
    now: Timestamp,
) -> Seq<ForwardRecord> {
    if has_name(store, name) || Protocol::parse_spec(protocol) is None || failure is Some {
        store
    } else {
        store.push(
            new_record(
                name,
                src_port,
                dest_ip,
                dest_port,
                Protocol::parse_spec(protocol).unwrap(),
                now,
            ),
        )
    }
}

/// What the second half of a creation reports, if it reports an error: a
/// name that is taken, an unknown protocol, or the error text of the command
/// that failed, as it came.
pub open spec fn creation_error(
    store: Seq<ForwardRecord>,
    name: Seq<char>,
    protocol: Seq<char>,
    failure: Option<FailureView>,
) -> Option<(ErrorKind, Seq<char>)> {
    if has_name(store, name) {
        Some((ErrorKind::ConfigError, duplicate_message(name)))
    } else if Protocol::parse_spec(protocol) is None {
        Some((ErrorKind::ConfigError, protocol_message(protocol)))
    } else if failure is Some {
        Some((ErrorKind::CommandFailed, failure.unwrap().stderr))
    } else {
        None
    }
}

/// The second half of a creation, at the moment `now`: `failure` is what the
/// run of the commands of `add_forward` came to.
///
/// The record goes into the store, marked active and dated `now`, only where
/// no command failed. A run in which nothing was executed because it was a
/// dry run has no failure either, so it leaves a record too.
pub fn complete_add_forward_at(
    store: &mut ForwardStore,
    name: &str,
    src_port: &str,
    dest_ip: &str,
    dest_port: &str,
    protocol: &str,
    failure: Option<&StepFailure>,
    now: Timestamp,
) -> (r: Result<(), NetMgrError>)
    ensures
        final(store).wf(),
        final(store)@ == store_after_creation(
            old(store)@,
            name@,
            src_port@,
            dest_ip@,
            dest_port@,
            protocol@,
            failure_view(failure),
            now,
        ),
        r is Err <==> creation_error(old(store)@, name@, protocol@, failure_view(failure)) is Some,
        r matches Err(e) ==> creation_error(old(store)@, name@, protocol@, failure_view(failure))
            == Some((e.kind(), e.detail())),
{
    if store.contains(name) {
        return Err(duplicate_error(name));
    }
    let proto = match Protocol::parse(protocol) {
        Some(p) => p,
        None => {
            return Err(protocol_error(protocol));
        },
    };
    if let Some(f) = failure {
        return Err(NetMgrError::CommandFailed(f.stderr.clone()));
    }
    let forward = PortForward {
        name: name.to_owned(),
        src_port: src_port.to_owned(),
        dest_ip: dest_ip.to_owned(),
        dest_port: dest_port.to_owned(),
        protocol: proto,
        created: now,
        active: true,
    };
    let added = store.insert(forward);
    assert(added);
    Ok(())
}

/// The failure that a run reported, as the mathematics sees it.
pub open spec fn failure_view(failure: Option<&StepFailure>) -> Option<FailureView> {
    match failure {
        Some(f) => Some(f@),
        None => None,
    }
}

/// What is said of a run that carried out another plan than the one asked
/// about.
pub open spec fn foreign_plan_message() -> Seq<char> {
    "Plan does not belong to this request"@
}

/// What is said of a run that has a command left to run.
pub open spec fn unfinished_message() -> Seq<char> {
    "Plan has commands left to run"@
}

/// Why the run of a plan cannot stand for the plan `expected`, if it cannot:
/// it carried out another plan, or it has a command left to run.
pub open spec fn run_refusal(
    expected: Seq<CommandView>,
    plan: Seq<CommandView>,
    pending: bool,
) -> Option<(ErrorKind, Seq<char>)> {
    if plan != expected {
        Some((ErrorKind::ConfigError, foreign_plan_message()))
    } else if pending {
        Some((ErrorKind::ConfigError, unfinished_message()))
    } else {
        None
    }
}

/// Why the second half of a creation leaves the store alone before it looks
/// at how the commands went, if it does: the request is turned down as in
/// the first half, or the run cannot stand for the plan of the request.
pub open spec fn commit_refusal(
    store: Seq<ForwardRecord>,
    platform: Platform,
    name: Seq<char>,
    src_port: Seq<char>,
    dest_ip: Seq<char>,
    dest_port: Seq<char>,
    protocol: Seq<char>,
    plan: Seq<CommandView>,
    pending: bool,
) -> Option<(ErrorKind, Seq<char>)> {
    if creation_refusal(store, platform, name, protocol) is Some {
        creation_refusal(store, platform, name, protocol)
    } else {
        run_refusal(
            creation_plan(
                platform,
                name,
                src_port,
                dest_ip,
                dest_port,
                Protocol::parse_spec(protocol).unwrap(),
            ),
            plan,
            pending,
        )
    }
}

fn check_run(expected: &Vec<PlannedCommand>, run: &PlanRun) -> (r: Result<(), NetMgrError>)
    ensures
        r is Err <==> run_refusal(plan_view(expected@), run.plan(), run.pending()) is Some,
        r matches Err(e) ==> run_refusal(plan_view(expected@), run.plan(), run.pending()) == Some(
            (e.kind(), e.detail()),
        ),
{
    if !same_plan(run.commands(), expected) {
        return Err(config_error("Plan does not belong to this request".to_owned()));
    }
    if run.pending() {
        return Err(config_error("Plan has commands left to run".to_owned()));
    }
    Ok(())
}

/// The second half of a creation, at the moment `now`: `run` is the run of
/// the commands that `add_forward` handed out for the same request.
///
/// The store is left alone where `commit_refusal` says so: the request is
/// turned down, `run` carried out another plan, or `run` is not at its end.
/// Otherwise the record goes into the store, marked active and dated `now`,
/// if and only if no command of the run failed; a failure is reported with
/// the error text of the command. A dry run runs nothing, so nothing fails
/// in it, and it leaves a record.
pub fn complete_add_forward(
    store: &mut ForwardStore,
    platform: Platform,
    name: &str,
    src_port: &str,
    dest_ip: &str,
    dest_port: &str,
    protocol: &str,
    run: &PlanRun,
    now: Timestamp,
) -> (r: Result<(), NetMgrError>)
    ensures
        final(store).wf(),
        match commit_refusal(
            old(store)@,
            platform,
            name@,
            src_port@,
            dest_ip@,
            dest_port@,
            protocol@,
            run.plan(),
            run.pending(),
        ) {
            Some(reason) => final(store)@ == old(store)@ && (r matches Err(e) && reason == (
                e.kind(),
                e.detail(),
            )),
            None => {
                &&& final(store)@ == store_after_creation(
                    old(store)@,
                    name@,
                    src_port@,
                    dest_ip@,
                    dest_port@,
                    protocol@,
                    run.progress().failure,
                    now,
                )
                &&& r is Err <==> run.progress().failure is Some
                &&& r matches Err(e) ==> e.is(
                    ErrorKind::CommandFailed,
                    run.progress().failure.unwrap().stderr,
                )
            },
        },
{
    if store.contains(name) {
        return Err(duplicate_error(name));
    }
    let proto = match Protocol::parse(protocol) {
        Some(p) => p,
        None => {
            return Err(protocol_error(protocol));
        },
    };
    let expected = match creation_commands(platform, name, src_port, dest_ip, dest_port, proto) {
        Ok(plan) => plan,
        Err(e) => {
            return Err(e);
        },
    };
    match check_run(&expected, run) {
        Ok(_) => {},
        Err(e) => {
            return Err(e);
        },
    }
    complete_add_forward_at(
        store,
        name,
        src_port,
        dest_ip,
        dest_port,
        protocol,
        run.failure(),
        now,
    )
}

/// How a removal ended for a forward that was in the store.
#[derive(Debug)]
pub enum Removal {
    /// Every command went through, and the record is gone.
    Complete,
    /// The record is gone, but the command at `step` failed after earlier
    /// ones had taken effect: what is left on the host is for the operator
    /// to look at.
    Partial { step: usize, stderr: String },
}

/// The commands that take the stored forward `record` down on `platform`.
pub open spec fn removal_plan(platform: Platform, record: ForwardRecord) -> Seq<CommandView> {
    remove_port_forward_spec(
        platform,
        record.name,
        record.src_port,
        record.dest_ip,
        record.dest_port,
        record.protocol,
    )
}

/// Whether `after` is `before` without its record called `name`.
pub open spec fn removed_from(
    before: Seq<ForwardRecord>,
    after: Seq<ForwardRecord>,
    name: Seq<char>,
) -> bool {
    exists|i: int|
        0 <= i < before.len() && (#[trigger] before[i]).name == name && after == before.remove(i)
}

/// The first half of a removal: the commands that take the forward called
/// `name` down, built from what the store holds of it.
///
/// A name that the store does not hold is turned down. The store is not
/// touched: the record leaves it only through `complete_remove_forward`.
pub fn remove_forward(store: &ForwardStore, platform: Platform, name: &str) -> (r: Result<
    Vec<PlannedCommand>,
    NetMgrError,
>)
    ensures
        store.wf(),
        r is Err <==> !store.has(name@),
        r matches Err(e) ==> e.is(ErrorKind::ConfigError, missing_message(name@)),
        r matches Ok(plan) ==> plan_view(plan@) == removal_plan(platform, store.map()[name@]),
{
    match store.get(name) {
        Some(f) => Ok(
            remove_platform_forward(
                platform,
                f.name.as_str(),
                f.src_port.as_str(),
                f.dest_ip.as_str(),
                f.dest_port.as_str(),
                f.protocol,
            ),
        ),
        None => Err(missing_error(name)),
    }
}

/// Whether `r` and the store `after` are what a removal of the record
/// called `name` from the store `before` comes to, once its commands have
/// gone as `failure` says.
///
/// The record leaves the store unless the very first command to have any
/// effect failed, in which case the host is as it was and so is the store.
/// A failure after a command that took effect is handed back as
/// `Removal::Partial`, with the record gone.
pub open spec fn removal_outcome(
    before: Seq<ForwardRecord>,
    after: Seq<ForwardRecord>,
    name: Seq<char>,
    failure: Option<FailureView>,
    r: Result<Removal, NetMgrError>,
) -> bool {
    match failure {
        None => {
            &&& r matches Ok(Removal::Complete)
            &&& removed_from(before, after, name)
            &&& by_name(after) == by_name(before).remove(name)
        },
        Some(f) => if f.completed == 0 {
            after == before && (r matches Err(e) && e.is(ErrorKind::CommandFailed, f.stderr))
        } else {
            &&& r matches Ok(Removal::Partial { step, stderr }) && step == f.step && stderr@
                == f.stderr
            &&& removed_from(before, after, name)
            &&& by_name(after) == by_name(before).remove(name)
        },
    }
}

/// The second half of a removal, `failure` being what the commands of the
/// removal came to.
///
/// A name that the store does not hold is turned down and the store left as
/// it was; otherwise `removal_outcome` holds.
pub fn complete_remove_forward_after(
    store: &mut ForwardStore,
    name: &str,
    failure: Option<&StepFailure>,
) -> (r: Result<Removal, NetMgrError>)
    ensures
        final(store).wf(),
        !old(store).has(name@) ==> final(store)@ == old(store)@ && (r matches Err(e) && e.is(
            ErrorKind::ConfigError,
            missing_message(name@),
        )),
        old(store).has(name@) ==> removal_outcome(
            old(store)@,
            final(store)@,
            name@,
            failure_view(failure),
            r,
        ),
{
    if !store.contains(name) {
        return Err(missing_error(name));
    }
    if let Some(f) = failure {
        if f.completed == 0 {
            return Err(NetMgrError::CommandFailed(f.stderr.clone()));
        }
    }
    let taken = store.remove(name);
    assert(taken is Some);
    match failure {
        Some(f) => Ok(Removal::Partial { step: f.step, stderr: f.stderr.clone() }),
        None => Ok(Removal::Complete),
    }
}

/// The second half of a removal: `run` is the run of the commands that
/// `remove_forward` handed out for the same name.
///
/// A name that the store does not hold is turned down. So is a run that
/// carried out another plan than that of the stored record, or that is not
/// at its end. In each of these cases the store is left as it was.
/// Otherwise `removal_outcome` holds for the failure of the run.
pub fn complete_remove_forward(
    store: &mut ForwardStore,
    platform: Platform,
    name: &str,
    run: &PlanRun,
) -> (r: Result<Removal, NetMgrError>)
    ensures
        final(store).wf(),
        !old(store).has(name@) ==> final(store)@ == old(store)@ && (r matches Err(e) && e.is(
            ErrorKind::ConfigError,
            missing_message(name@),
        )),
        old(store).has(name@) ==> match run_refusal(
            removal_plan(platform, old(store).map()[name@]),
            run.plan(),
            run.pending(),
        ) {
            Some(reason) => final(store)@ == old(store)@ && (r matches Err(e) && reason == (
                e.kind(),
                e.detail(),
            )),
            None => removal_outcome(
                old(store)@,
                final(store)@,
                name@,
                run.progress().failure,
                r,
            ),
        },
{
    let expected = match remove_forward(store, platform, name) {
        Ok(plan) => plan,
        Err(e) => {
            return Err(e);
        },
    };
    match check_run(&expected, run) {
        Ok(_) => {},
        Err(e) => {
            return Err(e);
        },
    }
    complete_remove_forward_after(store, name, run.failure())
}

/// A creation that is not turned down and whose commands all went through
/// leaves the store holding the name, with a record that is marked active,
/// and still without a name held twice.
pub proof fn lemma_created_is_active(
    store: Seq<ForwardRecord>,
    name: Seq<char>,
    src_port: Seq<char>,
    dest_ip: Seq<char>,
    dest_port: Seq<char>,
    protocol: Seq<char>,
    now: Timestamp,
)
    requires
        names_distinct(store),
        creation_error(store, name, protocol, None) is None,
    ensures
        ({
            let after = store_after_creation(
                store,
                name,
                src_port,
                dest_ip,
                dest_port,
                protocol,
                None,
                now,
            );
            &&& names_distinct(after)
            &&& has_name(after, name)
            &&& by_name(after).dom().contains(name)
            &&& by_name(after)[name].active
            &&& by_name(after)[name].src_port == src_port
            &&& by_name(after)[name].dest_ip == dest_ip
            &&& by_name(after)[name].dest_port == dest_port
        }),
{
    let record = new_record(
        name,
        src_port,
        dest_ip,
        dest_port,
        Protocol::parse_spec(protocol).unwrap(),
        now,
    );
    let after = store.push(record);
    assert(after.drop_last() =~= store);
    assert(after[after.len() - 1].name == name);
    assert forall|i: int, j: int|
        0 <= i < after.len() && 0 <= j < after.len() && i != j implies #[trigger] after[i].name
        != #[trigger] after[j].name by {
        if i < store.len() && j < store.len() {
            assert(store[i].name != store[j].name);
        } else if i < store.len() {
            assert(store[i].name != name);
        } else {
            assert(store[j].name != name);
        }
    }
}

/// Once the record called `name` has been taken out of a store in which no
/// name is held twice, the store holds that name no more, and every other
/// record is where it was.
pub proof fn lemma_removed_is_absent(
    before: Seq<ForwardRecord>,
    after: Seq<ForwardRecord>,
    name: Seq<char>,
)
    requires
        names_distinct(before),
        removed_from(before, after, name),
    ensures
        names_distinct(after),
        !has_name(after, name),
        !by_name(after).dom().contains(name),
        by_name(after) == by_name(before).remove(name),
{
    let i = choose|i: int|
        0 <= i < before.len() && (#[trigger] before[i]).name == name && after == before.remove(i);
    lemma_by_name_remove(before, i);
    lemma_by_name_domain(after, name);
}

/// A creation under a name that the store holds is turned down as a
/// configuration error before any command is planned, and its second half
/// leaves the store as it was, whatever the commands would have come to.
pub proof fn lemma_duplicate_is_refused(
    store: Seq<ForwardRecord>,
    platform: Platform,
    name: Seq<char>,
    src_port: Seq<char>,
    dest_ip: Seq<char>,
    dest_port: Seq<char>,
    protocol: Seq<char>,
    failure: Option<FailureView>,
    now: Timestamp,
)
    requires
        has_name(store, name),
    ensures
        creation_refusal(store, platform, name, protocol) == Some(
            (ErrorKind::ConfigError, duplicate_message(name)),
        ),
        creation_error(store, name, protocol, failure) == Some(
            (ErrorKind::ConfigError, duplicate_message(name)),
        ),
        store_after_creation(store, name, src_port, dest_ip, dest_port, protocol, failure, now)
            == store,
{
}

/// A creation one of whose commands failed leaves the store as it was and
/// reports the error text of that command.
pub proof fn lemma_failed_creation_commits_nothing(
    store: Seq<ForwardRecord>,
    name: Seq<char>,
    src_port: Seq<char>,
    dest_ip: Seq<char>,
    dest_port: Seq<char>,
    protocol: Seq<char>,
    failure: FailureView,
    now: Timestamp,
)
    ensures
        store_after_creation(
            store,
            name,
            src_port,
            dest_ip,
            dest_port,
            protocol,
            Some(failure),
            now,
        ) == store,
        creation_error(store, name, protocol, Some(failure)) is Some,
        !has_name(store, name) && Protocol::parse_spec(protocol) is Some ==> creation_error(
            store,
            name,
            protocol,
            Some(failure),
        ) == Some((ErrorKind::CommandFailed, failure.stderr)),
{
}

/// Two forwards carry the same marker only if they have the same name, so a
/// rule that is deleted by its marker belongs to the forward it names.
pub proof fn lemma_marker_names_one_forward(a: Seq<char>, b: Seq<char>)
    requires
        crate::forward::marker(a) == crate::forward::marker(b),
    ensures
        a == b,
{
    let prefix = "--comment=NETMGR:"@;
    assert((prefix + a).subrange(prefix.len() as int, (prefix + a).len() as int) =~= a);
    assert((prefix + b).subrange(prefix.len() as int, (prefix + b).len() as int) =~= b);
}

/// In a dry run no command is run, so none fails and none is left to run:
/// a creation that is not turned down then leaves an active record in the
/// store although nothing was done on the host.
pub proof fn lemma_dry_run_leaves_record(
    store: Seq<ForwardRecord>,
    platform: Platform,
    name: Seq<char>,
    src_port: Seq<char>,
    dest_ip: Seq<char>,
    dest_port: Seq<char>,
    protocol: Seq<char>,
    now: Timestamp,
)
    requires
        names_distinct(store),
        creation_refusal(store, platform, name, protocol) is None,
    ensures
        ({
            let plan = creation_plan(
                platform,
                name,
                src_port,
                dest_ip,
                dest_port,
                Protocol::parse_spec(protocol).unwrap(),
            );
            let nothing = progress_after(plan, Seq::<StepResult>::empty());
            let after = store_after_creation(
                store,
                name,
                src_port,
                dest_ip,
                dest_port,
                protocol,
                nothing.failure,
                now,
            );
            &&& nothing.failure is None
            &&& commit_refusal(
                store,
                platform,
                name,
                src_port,
                dest_ip,
                dest_port,
                protocol,
                plan,
                false,
            ) is None
            &&& by_name(after).dom().contains(name)
            &&& by_name(after)[name].active
        }),
{
    lemma_created_is_active(store, name, src_port, dest_ip, dest_port, protocol, now);
}

} // verus!
