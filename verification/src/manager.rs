//! The service manager: where the services are defined, where their enabled
//! markers stand, and which command questions the supervisor.
use crate::host::{join, join_path};
use crate::service::{DesiredState, ServiceError, ServiceErrorView, ServiceInfo, ServiceInfoView};
use crate::status::ServiceRuntimeState;
use crate::text::{chars_of, has_prefix, starts_with};
use vstd::prelude::*;
use vstd::string::*;
use vstd::utf8::encode_utf8;

verus! {

/// Where the services are defined unless the caller says otherwise.
pub const DEFAULT_SERVICE_DIR: &'static str = "/etc/sv";

/// Where the enabled markers stand unless the caller says otherwise.
pub const DEFAULT_ENABLED_DIR: &'static str = "/var/service";

/// The supervisor's command unless the caller says otherwise.
pub const DEFAULT_SV_COMMAND: &'static str = "sv";

/// The names of hidden entries begin with this.
pub const HIDDEN_PREFIX: &'static str = ".";

/// Finds the services of a machine and questions the supervisor about them.
#[derive(Debug)]
pub struct ServiceManager {
    definitions_dir: String,
    enabled_dir: String,
    sv_command: String,
}

/// The mathematical value of a [`ServiceManager`].
pub ghost struct ManagerView {
    pub definitions_dir: Seq<char>,
    pub enabled_dir: Seq<char>,
    pub sv_command: Seq<char>,
}

impl ManagerView {
    /// Where the service `name` is defined.
    pub open spec fn definition_path(self, name: Seq<char>) -> Seq<char> {
        join_path(self.definitions_dir, name)
    }

    /// Where the enabled marker of the service `name` stands.
    pub open spec fn enabled_path(self, name: Seq<char>) -> Seq<char> {
        join_path(self.enabled_dir, name)
    }
}

/// A character that a service name may hold.
pub open spec fn is_name_char(c: char) -> bool {
    ('a' <= c && c <= 'z') || ('A' <= c && c <= 'Z') || ('0' <= c && c <= '9') || c == '-' || c
        == '_' || c == '.'
}

/// A service name is not empty and holds only ASCII letters, digits, `-`,
/// `_` and `.`.
pub open spec fn valid_service_name(name: Seq<char>) -> bool {
    name.len() > 0 && forall|i: int| 0 <= i < name.len() ==> is_name_char(#[trigger] name[i])
}

/// An entry whose name begins with a dot is hidden.
pub open spec fn hidden_name(name: Seq<char>) -> bool {
    starts_with(name, HIDDEN_PREFIX@)
}

/// `a` comes before `b`, or is `b`, when the two are compared byte by byte.
pub open spec fn bytes_le(a: Seq<u8>, b: Seq<u8>) -> bool
    decreases a.len(),
{
    if a.len() == 0 {
        true
    } else if b.len() == 0 {
        false
    } else if a[0] != b[0] {
        a[0] < b[0]
    } else {
        bytes_le(a.drop_first(), b.drop_first())
    }
}

/// The order of service names: that of their bytes.
pub open spec fn name_le(a: Seq<char>, b: Seq<char>) -> bool {
    bytes_le(encode_utf8(a), encode_utf8(b))
}

/// `list` with `item` put in after the last entry whose name does not come
/// after its own.
pub open spec fn insert_by_name(list: Seq<ServiceInfoView>, item: ServiceInfoView) -> Seq<
    ServiceInfoView,
>
    decreases list.len(),
{
    if list.len() == 0 {
        seq![item]
    } else if name_le(list.last().name, item.name) {
        list.push(item)
    } else {
        insert_by_name(list.drop_last(), item).push(list.last())
    }
}

/// The snapshot of the service `name`, or `None` for a hidden name.
pub open spec fn service_info(
    name: Seq<char>,
    definition_path: Seq<char>,
    enabled: bool,
    runtime_state: crate::status::RuntimeStateView,
    description: Option<Seq<char>>,
) -> Option<ServiceInfoView> {
    if hidden_name(name) {
        None
    } else {
        Some(
            ServiceInfoView {
                name,
                definition_path,
                enabled,
                desired_state: DesiredState::of(enabled),
                runtime_state,
                description,
            },
        )
    }
}

/// Whether `a` comes before `b`, or is `b`, byte by byte.
pub fn compare_names(a: &str, b: &str) -> (r: bool)
    ensures
        r == name_le(a@, b@),
{
    let x = a.as_bytes();
    let y = b.as_bytes();
    let mut i: usize = 0;
    proof {
        assert(x@.skip(0) =~= x@);
        assert(y@.skip(0) =~= y@);
    }
    while i < x.len() && i < y.len()
        invariant
            i <= x.len(),
            i <= y.len(),
            x@ == encode_utf8(a@),
            y@ == encode_utf8(b@),
            bytes_le(x@, y@) == bytes_le(x@.skip(i as int), y@.skip(i as int)),
        decreases x.len() - i,
    {
        proof {
            let p = x@.skip(i as int);
            let q = y@.skip(i as int);
            assert(p[0] == x@[i as int]);
            assert(q[0] == y@[i as int]);
            assert(p.drop_first() =~= x@.skip(i + 1));
            assert(q.drop_first() =~= y@.skip(i + 1));
        }
        if x[i] != y[i] {
            return x[i] < y[i];
        }
        i += 1;
    }
    i == x.len()
}

/// Puts `info` into `list` after the last entry whose name does not come after
/// its own.
pub fn insert_sorted(list: &mut Vec<ServiceInfo>, info: ServiceInfo)
    ensures
        final(list).deep_view() == insert_by_name(old(list).deep_view(), info@),
{
    let ghost before = list.deep_view();
    let mut at: usize = list.len();
    let mut more: bool = at > 0;
    proof {
        assert(before.take(at as int) =~= before);
        assert(insert_by_name(before, info@) + before.skip(at as int) =~= insert_by_name(
            before,
            info@,
        ));
    }
    while more
        invariant
            at <= list.len(),
            *list == *old(list),
            before == list.deep_view(),
            more ==> at > 0,
            !more ==> at == 0 || name_le(before[at - 1].name, info@.name),
            insert_by_name(before, info@) == insert_by_name(before.take(at as int), info@)
                + before.skip(at as int),
        decreases 2 * at + (if more { 1int } else { 0int }),
    {
        if compare_names(list[at - 1].name.as_str(), info.name.as_str()) {
            more = false;
        } else {
            proof {
                let head = before.take(at as int);
                assert(head.last() == before[at - 1]);
                assert(head.drop_last() =~= before.take(at - 1));
                assert(insert_by_name(head, info@) == insert_by_name(
                    before.take(at - 1),
                    info@,
                ).push(before[at - 1]));
                assert(insert_by_name(before.take(at - 1), info@).push(before[at - 1])
                    + before.skip(at as int) =~= insert_by_name(before.take(at - 1), info@)
                    + before.skip(at - 1));
            }
            at -= 1;
            more = at > 0;
        }
    }
    proof {
        let head = before.take(at as int);
        if at > 0 {
            assert(head.last() == before[at - 1]);
        }
        assert(insert_by_name(head, info@) =~= head.push(info@));
        assert(head.push(info@) + before.skip(at as int) =~= before.insert(at as int, info@));
        assert(before.take(0) =~= Seq::<ServiceInfoView>::empty());
    }
    let ghost item = info@;
    list.insert(at, info);
    proof {
        assert(list.deep_view() =~= before.insert(at as int, item));
    }
}

impl View for ServiceManager {
    type V = ManagerView;

    closed spec fn view(&self) -> ManagerView {
        ManagerView {
            definitions_dir: self.definitions_dir@,
            enabled_dir: self.enabled_dir@,
            sv_command: self.sv_command@,
        }
    }
}

impl Clone for ServiceManager {
    fn clone(&self) -> (m: Self)
        ensures
            m@ == self@,
    {
        ServiceManager {
            definitions_dir: self.definitions_dir.clone(),
            enabled_dir: self.enabled_dir.clone(),
            sv_command: self.sv_command.clone(),
        }
    }
}

impl Default for ServiceManager {
    fn default() -> (m: Self)
        ensures
            m@ == (ManagerView {
                definitions_dir: DEFAULT_SERVICE_DIR@,
                enabled_dir: DEFAULT_ENABLED_DIR@,
                sv_command: DEFAULT_SV_COMMAND@,
            }),
    {
        ServiceManager::new(DEFAULT_SERVICE_DIR, DEFAULT_ENABLED_DIR)
    }
}

impl ServiceManager {
    /// A manager for the services defined under `definitions_dir`, with their
    /// enabled markers under `enabled_dir` and the supervisor's usual command.
    pub fn new(definitions_dir: &str, enabled_dir: &str) -> (m: Self)
        ensures
            m@ == (ManagerView {
                definitions_dir: definitions_dir@,
                enabled_dir: enabled_dir@,
                sv_command: DEFAULT_SV_COMMAND@,
            }),
    {
        ServiceManager {
            definitions_dir: String::from_str(definitions_dir),
            enabled_dir: String::from_str(enabled_dir),
            sv_command: String::from_str(DEFAULT_SV_COMMAND),
        }
    }

    /// The same manager with `cmd` as the supervisor's command.
    pub fn with_sv_command(self, cmd: &str) -> (m: Self)
        ensures
            m@ == (ManagerView { sv_command: cmd@, ..self@ }),
    {
        ServiceManager {
            definitions_dir: self.definitions_dir,
            enabled_dir: self.enabled_dir,
            sv_command: String::from_str(cmd),
        }
    }

    /// The directory under which the services are defined.
    pub fn definitions_dir(&self) -> (dir: &str)
        ensures
            dir@ == self@.definitions_dir,
    {
        self.definitions_dir.as_str()
    }

    /// The directory under which the enabled markers stand.
    pub fn enabled_dir(&self) -> (dir: &str)
        ensures
            dir@ == self@.enabled_dir,
    {
        self.enabled_dir.as_str()
    }

    /// The command that questions the supervisor.
    pub fn sv_command_path(&self) -> (cmd: &str)
        ensures
            cmd@ == self@.sv_command,
    {
        self.sv_command.as_str()
    }

    /// Where the service `name` is defined.
    pub fn definition_path(&self, name: &str) -> (path: String)
        ensures
            path@ == self@.definition_path(name@),
    {
        join(self.definitions_dir.as_str(), name)
    }

    /// Where the enabled marker of the service `name` stands.
    pub fn enabled_path(&self, name: &str) -> (path: String)
        ensures
            path@ == self@.enabled_path(name@),
    {
        join(self.enabled_dir.as_str(), name)
    }

    /// Accepts a service name that is not empty and holds only ASCII letters,
    /// digits, `-`, `_` and `.`; refuses every other with
    /// [`ServiceError::InvalidServiceName`], which keeps the name.
    pub fn validate_service_name(&self, service: &str) -> (r: Result<(), ServiceError>)
        ensures
            valid_service_name(service@) ==> r is Ok,
            !valid_service_name(service@) ==> r is Err && r.unwrap_err()@
                == ServiceErrorView::InvalidServiceName(service@),
    {
        let cs = chars_of(service);
        let mut valid = cs.len() > 0;
        let mut i: usize = 0;
        while i < cs.len()
            invariant
                i <= cs.len(),
                cs@ == service@,
                valid == (cs.len() > 0 && forall|j: int|
                    0 <= j < i ==> is_name_char(#[trigger] cs@[j])),
            decreases cs.len() - i,
        {
            let c = cs[i];
            let ok = ('a' <= c && c <= 'z') || ('A' <= c && c <= 'Z') || ('0' <= c && c <= '9')
                || c == '-' || c == '_' || c == '.';
            if !ok {
                valid = false;
            }
            i += 1;
        }
        if valid {
            Ok(())
        } else {
            Err(ServiceError::InvalidServiceName(String::from_str(service)))
        }
    }

    /// The snapshot of the service `name`, from what was found out about it.
    /// A hidden name, one that begins with a dot, has none. The desired state
    /// follows from `enabled` alone.
    pub fn build_service_info(
        &self,
        name: &str,
        definition_path: &str,
        enabled: bool,
        runtime_state: ServiceRuntimeState,
        description: Option<String>,
    ) -> (r: Option<ServiceInfo>)
        ensures
            r.deep_view() == service_info(
                name@,
                definition_path@,
                enabled,
                runtime_state@,
                description.deep_view(),
            ),
            r matches Some(info) ==> info@.consistent(),
    {
        if has_prefix(name, HIDDEN_PREFIX) {
            return None;
        }
        Some(
            ServiceInfo {
                name: String::from_str(name),
                definition_path: String::from_str(definition_path),
                enabled,
                desired_state: DesiredState::from_enabled(enabled),
                runtime_state,
                description,
            },
        )
    }
}

} // verus!
