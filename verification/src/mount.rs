//! Mount lifecycle tracking: option translation, construction by external
//! command or direct system call, idempotent release, and reverse-order
//! teardown of a collection.
//!
//! The functions here are the decision half of the workflow: they build the
//! exact invocation or system call that is owed and interpret its outcome.
//! The caller performs the process spawn or system call itself and hands the
//! result back, so every state transition is decided — and specified — here.

use vstd::prelude::*;
use vstd::string::StringExecFns;

verus! {

/// A mount capability flag, translated into the external tool's syntax.
#[derive(Copy, Clone, Debug, PartialEq, Eq, Structural)]
pub enum MountOption {
    /// Make an existing directory tree visible at another path.
    Bind,
    /// Force synchronous writes.
    Synchronize,
}

/// Why a mount operation failed.
#[derive(Copy, Clone, Debug)]
pub enum MountError {
    /// A supplied source or destination could not be canonicalized; carries
    /// the platform error code from the failed resolution. Raised before any
    /// OS mutation.
    PathResolution(i32),
    /// The external mount utility exited non-zero; carries its exit status
    /// (`None` when it was terminated by a signal).
    CommandFailure(Option<i32>),
    /// The direct mount or unmount system call failed; carries the platform
    /// error code.
    Syscall(i32),
}

/// The argument list of the external `mount` invocation: the bind flag if
/// requested, then the remaining options comma-joined behind `-o`, then the
/// source and destination positionally. It depends only on which options are
/// present, never on their order or multiplicity.
pub open spec fn spec_mount_args(
    source: Seq<char>,
    dest: Seq<char>,
    options: Seq<MountOption>,
) -> Seq<Seq<char>> {
    (if options.contains(MountOption::Bind) {
        seq!["--bind"@]
    } else {
        Seq::<Seq<char>>::empty()
    }) + (if options.contains(MountOption::Synchronize) {
        seq!["-o"@, "sync"@]
    } else {
        Seq::<Seq<char>>::empty()
    }) + seq![source, dest]
}

/// Two option lists with the same members — whatever their order and however
/// often each is repeated — build the same invocation, so each distinct
/// option contributes to the arguments exactly once.
pub proof fn lemma_mount_args_determined_by_membership(
    source: Seq<char>,
    dest: Seq<char>,
    a: Seq<MountOption>,
    b: Seq<MountOption>,
)
    requires
        forall|o: MountOption| a.contains(o) <==> b.contains(o),
    ensures
        spec_mount_args(source, dest, a) == spec_mount_args(source, dest, b),
{
    assert(a.contains(MountOption::Bind) <==> b.contains(MountOption::Bind));
    assert(a.contains(MountOption::Synchronize) <==> b.contains(MountOption::Synchronize));
}

/// Build the argument list of the external `mount` invocation for already
/// resolved paths.
pub fn mount_command_args(source: &String, dest: &String, options: &Vec<MountOption>) -> (args: Vec<
    String,
>)
    ensures
        args.deep_view() == spec_mount_args(source@, dest@, options@),
{
    let mut has_bind = false;
    let mut has_sync = false;
    let mut i: usize = 0;
    while i < options.len()
        invariant
            i <= options.len(),
            has_bind == options@.take(i as int).contains(MountOption::Bind),
            has_sync == options@.take(i as int).contains(MountOption::Synchronize),
        decreases options.len() - i,
    {
        proof {
            assert(options@.take(i + 1) =~= options@.take(i as int).push(options@[i as int]));
            assert forall|o: MountOption|
                options@.take(i + 1).contains(o) == (options@.take(i as int).contains(o)
                    || options@[i as int] == o) by {
                if options@.take(i as int).contains(o) {
                    let j = choose|j: int|
                        0 <= j < options@.take(i as int).len() && #[trigger] options@.take(
                            i as int,
                        )[j] == o;
                    assert(options@.take(i + 1)[j] == o);
                }
                if options@[i as int] == o {
                    assert(options@.take(i + 1)[i as int] == o);
                }
                if options@.take(i + 1).contains(o) {
                    let j = choose|j: int|
                        0 <= j < options@.take(i + 1).len() && #[trigger] options@.take(i + 1)[j]
                            == o;
                    if j < i {
                        assert(options@.take(i as int)[j] == o);
                    }
                }
            }
        }
        match options[i] {
            MountOption::Bind => {
                has_bind = true;
            },
            MountOption::Synchronize => {
                has_sync = true;
            },
        }
        i = i + 1;
    }
    proof {
        assert(options@.take(options@.len() as int) =~= options@);
    }
    let mut args: Vec<String> = Vec::new();
    if has_bind {
        args.push(String::from_str("--bind"));
    }
    if has_sync {
        args.push(String::from_str("-o"));
        args.push(String::from_str("sync"));
    }
    args.push(source.clone());
    args.push(dest.clone());
    proof {
        assert(args.deep_view() =~= spec_mount_args(source@, dest@, options@));
    }
    args
}

/// A single tracked mount point. It is created only by completing one of the
/// two construction paths ([`Mount::new`] for the external command,
/// [`Mount::mount_part`] for the direct system call) and is mutated only by
/// the release transition of [`Mount::unmount`].
#[derive(Debug)]
pub struct Mount {
    source: String,
    dest: String,
    mounted: bool,
}

impl Mount {
    /// The resolved (command path) or caller-supplied (direct path) source.
    pub closed spec fn spec_source(&self) -> Seq<char> {
        self.source@
    }

    /// The resolved (command path) or caller-supplied (direct path)
    /// destination: the path an unmount is issued against.
    pub closed spec fn spec_dest(&self) -> Seq<char> {
        self.dest@
    }

    /// Whether an OS-level unmount call is still owed. Once false, release is
    /// a no-op forever.
    pub closed spec fn spec_mounted(&self) -> bool {
        self.mounted
    }

    /// The destination path this mount tracks.
    pub fn dest(&self) -> (r: &String)
        ensures
            r@ == self.spec_dest(),
    {
        &self.dest
    }

    /// Whether an OS-level unmount call is still owed.
    pub fn mounted(&self) -> (r: bool)
        ensures
            r == self.spec_mounted(),
    {
        self.mounted
    }
}

/// The external `mount` invocation the command path asks for: run the tool
/// with exactly [`MountCommand::args`], then complete with the exit status.
pub struct MountCommand {
    /// The resolved source path.
    pub source: String,
    /// The resolved destination path.
    pub dest: String,
    /// The full argument list, source and destination included.
    pub args: Vec<String>,
}

impl Mount {
    /// Command-path construction. `source` and `dest` are the caller's path
    /// resolution results, each either the canonical path or the platform
    /// error code of the failed resolution. A resolution failure fails fast:
    /// no command value exists, so nothing can be spawned and no system call
    /// is issued. On success the returned invocation is the single command
    /// still owed; completing it with [`MountCommand::finish`] yields the
    /// tracked mount.
    pub fn new(source: Result<String, i32>, dest: Result<String, i32>, options: &Vec<MountOption>)
        -> (r: Result<MountCommand, MountError>)
        ensures
            source matches Err(code) ==> r == Err::<MountCommand, MountError>(
                MountError::PathResolution(code),
            ),
            dest matches Err(code) ==> (source is Ok ==> r == Err::<MountCommand, MountError>(
                MountError::PathResolution(code),
            )),
            source is Ok && dest is Ok ==> r is Ok,
            r matches Ok(cmd) ==> (source matches Ok(s) && dest matches Ok(d) && cmd.source@ == s@
                && cmd.dest@ == d@ && cmd.args.deep_view() == spec_mount_args(s@, d@, options@)),
    {
        let source = match source {
            Ok(s) => s,
            Err(code) => {
                return Err(MountError::PathResolution(code));
            },
        };
        let dest = match dest {
            Ok(d) => d,
            Err(code) => {
                return Err(MountError::PathResolution(code));
            },
        };
        let args = mount_command_args(&source, &dest, options);
        Ok(MountCommand { source, dest, args })
    }
}

impl MountCommand {
    /// Complete the command path with the invocation's exit status (`None`
    /// when the tool was killed by a signal). Exit status zero yields the
    /// tracked mount, born mounted, with the resolved paths; any other
    /// outcome yields the command failure carrying that exact status, and no
    /// mount exists.
    pub fn finish(self, code: Option<i32>) -> (r: Result<Mount, MountError>)
        ensures
            code == Some(0i32) ==> (r matches Ok(m) && m.spec_source() == self.source@
                && m.spec_dest() == self.dest@ && m.spec_mounted()),
            code != Some(0i32) ==> r == Err::<Mount, MountError>(MountError::CommandFailure(code)),
    {
        match code {
            Some(0i32) => Ok(Mount { source: self.source, dest: self.dest, mounted: true }),
            _ => Err(MountError::CommandFailure(code)),
        }
    }
}

/// The direct mount system call the syscall path asks for: issue mount(2)
/// with exactly these arguments, then complete with its outcome.
pub struct MountSyscall {
    /// Caller-supplied source, used verbatim (no canonicalization).
    pub source: String,
    /// Caller-supplied target, used verbatim.
    pub target: String,
    /// The filesystem type name.
    pub fstype: String,
    /// The mount flags bitmask (see [`BIND`] and [`SYNC`]).
    pub flags: u64,
    /// The optional comma-separated options string.
    pub options: Option<String>,
}

/// Flag bit requesting a bind mount from the mount system call.
pub const BIND: u64 = 4096;

/// Flag bit requesting synchronous writes from the mount system call.
pub const SYNC: u64 = 16;

impl Mount {
    /// Direct-path construction: the system call to issue, with every
    /// argument passed through verbatim — this path is for precise low-level
    /// control, so no resolution or validation is performed. Completing the
    /// call with [`MountSyscall::finish`] yields the tracked mount.
    pub fn mount_part(
        src: String,
        target: String,
        fstype: String,
        flags: u64,
        options: Option<String>,
    ) -> (r: MountSyscall)
        ensures
            r.source == src,
            r.target == target,
            r.fstype == fstype,
            r.flags == flags,
            r.options == options,
    {
        MountSyscall { source: src, target, fstype, flags, options }
    }
}

impl MountSyscall {
    /// Complete the direct path with the system call's return value and, when
    /// it is non-zero, the platform error code it left behind. A zero return
    /// yields the tracked mount, born mounted, with the caller-supplied paths;
    /// any other return yields that exact error code, and no mount exists —
    /// the caller distinguishes causes (already mounted, invalid filesystem
    /// type) by inspecting the code.
    pub fn finish(self, ret: i32, errno: i32) -> (r: Result<Mount, MountError>)
        ensures
            ret == 0 ==> (r matches Ok(m) && m.spec_source() == self.source@ && m.spec_dest()
                == self.target@ && m.spec_mounted()),
            ret != 0 ==> r == Err::<Mount, MountError>(MountError::Syscall(errno)),
    {
        if ret == 0 {
            Ok(Mount { source: self.source, dest: self.target, mounted: true })
        } else {
            Err(MountError::Syscall(errno))
        }
    }
}

/// An unmount system call owed against a mount's destination. `lazy` asks
/// for detach-on-idle semantics: the mount point leaves the namespace at
/// once and the filesystem is released when no longer busy. A non-lazy call
/// fails immediately when the target is busy.
#[derive(Debug)]
pub struct UnmountCall {
    /// The destination path to unmount.
    pub target: String,
    /// Whether to request detach-on-idle semantics.
    pub lazy: bool,
}

/// What an issued system call came back with: its return value and, when it
/// is non-zero, the platform error code it left behind.
#[derive(Copy, Clone, Debug, PartialEq, Eq, Structural)]
pub struct SyscallOutcome {
    /// The system call's return value; zero is success.
    pub ret: i32,
    /// The platform error code after a non-zero return.
    pub errno: i32,
}

impl Mount {
    /// The unmount call still owed, if any: against the destination, in the
    /// requested mode. A released mount owes nothing — the request is `None`,
    /// however often it is asked — so release never issues a second call.
    pub fn unmount_request(&self, lazy: bool) -> (r: Option<UnmountCall>)
        ensures
            r is Some <==> self.spec_mounted(),
            r matches Some(c) ==> (c.target@ == self.spec_dest() && c.lazy == lazy),
    {
        if self.mounted {
            Some(UnmountCall { target: self.dest.clone(), lazy })
        } else {
            None
        }
    }

    /// Explicit release. `outcome` is the result of the system call the
    /// caller issued for [`Mount::unmount_request`] — `None` exactly when no
    /// call was owed, in which case release succeeds as an idempotent no-op.
    /// A successful call releases the mount; a failed one returns that exact
    /// error code and leaves the mount unchanged, still owing release.
    pub fn unmount(&mut self, outcome: Option<SyscallOutcome>) -> (r: Result<(), MountError>)
        requires
            outcome is Some <==> old(self).spec_mounted(),
        ensures
            outcome is None ==> (r is Ok && *final(self) == *old(self)),
            outcome matches Some(o) ==> (if o.ret == 0 {
                r is Ok && !final(self).spec_mounted()
            } else {
                r == Err::<(), MountError>(MountError::Syscall(o.errno)) && *final(self) == *old(
                    self,
                )
            }),
            final(self).spec_source() == old(self).spec_source(),
            final(self).spec_dest() == old(self).spec_dest(),
    {
        match outcome {
            None => Ok(()),
            Some(o) => {
                if o.ret == 0 {
                    self.mounted = false;
                    Ok(())
                } else {
                    Err(MountError::Syscall(o.errno))
                }
            },
        }
    }
}

/// An ordered collection of mounts, append order being creation order. It is
/// meant to own its members exclusively; when its scope ends, the calls of
/// [`Mounts::teardown_plan`] are issued in order and their failures
/// discarded, so teardown never raises while unwinding from another failure.
pub struct Mounts(pub Vec<Mount>);

/// What a sequence of unmount calls asks of the OS: its (target, lazy)
/// pairs, in order.
pub open spec fn spec_plan_view(plan: Seq<UnmountCall>) -> Seq<(Seq<char>, bool)> {
    plan.map_values(|c: UnmountCall| (c.target@, c.lazy))
}

/// The unmount calls owed when a collection's scope ends, as (target, lazy)
/// pairs: one lazy call for each member that is still mounted, later-appended
/// members strictly before earlier ones. Members already released contribute
/// no call.
pub open spec fn spec_teardown(ms: Seq<Mount>) -> Seq<(Seq<char>, bool)>
    decreases ms.len(),
{
    if ms.len() == 0 {
        Seq::<(Seq<char>, bool)>::empty()
    } else {
        spec_teardown(ms.drop_first()) + (if ms.first().spec_mounted() {
            seq![(ms.first().spec_dest(), true)]
        } else {
            Seq::<(Seq<char>, bool)>::empty()
        })
    }
}

/// Release is idempotent through teardown as well: with every member already
/// released, teardown owes no call at all — however large the collection and
/// however often the plan is taken.
pub proof fn lemma_released_teardown_empty(ms: Seq<Mount>)
    requires
        forall|i: int| 0 <= i < ms.len() ==> !(#[trigger] ms[i]).spec_mounted(),
    ensures
        spec_teardown(ms) == Seq::<(Seq<char>, bool)>::empty(),
    decreases ms.len(),
{
    if ms.len() > 0 {
        let rest = ms.drop_first();
        assert(forall|i: int| 0 <= i < rest.len() ==> !(#[trigger] rest[i]).spec_mounted());
        lemma_released_teardown_empty(rest);
        assert(spec_teardown(ms) =~= Seq::<(Seq<char>, bool)>::empty());
    }
}

/// With every member still mounted, teardown is the exact reverse of append
/// order: there are as many calls as members, and call `i` is a lazy unmount
/// of member `len - 1 - i`'s destination.
pub proof fn lemma_teardown_reverse(ms: Seq<Mount>)
    requires
        forall|i: int| 0 <= i < ms.len() ==> (#[trigger] ms[i]).spec_mounted(),
    ensures
        spec_teardown(ms).len() == ms.len(),
        forall|i: int|
            0 <= i < ms.len() ==> #[trigger] spec_teardown(ms)[i] == (
            ms[ms.len() - 1 - i].spec_dest(),
            true,
            ),
    decreases ms.len(),
{
    if ms.len() > 0 {
        let rest = ms.drop_first();
        assert(forall|i: int| 0 <= i < rest.len() ==> (#[trigger] rest[i]).spec_mounted());
        lemma_teardown_reverse(rest);
        assert(ms.first().spec_mounted());
        assert forall|i: int| 0 <= i < ms.len() implies #[trigger] spec_teardown(ms)[i] == (
            ms[ms.len() - 1 - i].spec_dest(),
            true,
        ) by {
            if i < ms.len() - 1 {
                assert(spec_teardown(ms)[i] == spec_teardown(rest)[i]);
                assert(rest[rest.len() - 1 - i] == ms[ms.len() - 1 - i]);
            } else {
                assert(spec_teardown(ms)[i] == (ms.first().spec_dest(), true));
            }
        }
    }
}

impl Mounts {
    /// An empty collection: nothing mounted, nothing owed.
    pub fn new() -> (r: Mounts)
        ensures
            r.0@ == Seq::<Mount>::empty(),
    {
        Mounts(Vec::new())
    }

    /// Append a mount. Callers append in dependency order — a parent mount
    /// before anything mounted beneath it — and teardown reverses exactly
    /// this order.
    pub fn append(&mut self, m: Mount)
        ensures
            final(self).0@ == old(self).0@.push(m),
    {
        self.0.push(m);
    }

    /// The unmount calls owed at scope end, in the order they must be
    /// issued: a lazy unmount for every member still mounted, from the most
    /// recently appended back to the first. The caller issues them in order
    /// and discards failures — best effort on scope exit.
    pub fn teardown_plan(&self) -> (plan: Vec<UnmountCall>)
        ensures
            spec_plan_view(plan@) == spec_teardown(self.0@),
    {
        let mut plan: Vec<UnmountCall> = Vec::new();
        let mut i: usize = self.0.len();
        proof {
            assert(self.0@.skip(i as int) =~= Seq::<Mount>::empty());
            assert(spec_plan_view(plan@) =~= spec_teardown(self.0@.skip(i as int)));
        }
        while i > 0
            invariant
                i <= self.0.len(),
                spec_plan_view(plan@) == spec_teardown(self.0@.skip(i as int)),
            decreases i,
        {
            i = i - 1;
            let ghost s = self.0@.skip(i as int);
            let ghost plan0 = plan@;
            proof {
                assert(s.drop_first() =~= self.0@.skip(i + 1));
                assert(s.first() == self.0@[i as int]);
                assert(spec_teardown(s) == spec_teardown(self.0@.skip(i + 1)) + (if self.0@[
                    i as int
                ].spec_mounted() {
                    seq![(self.0@[i as int].spec_dest(), true)]
                } else {
                    Seq::<(Seq<char>, bool)>::empty()
                }));
            }
            let m = &self.0[i];
            if m.mounted {
                let call = UnmountCall { target: m.dest.clone(), lazy: true };
                proof {
                    assert(call.target@ == self.0@[i as int].spec_dest());
                }
                plan.push(call);
                proof {
                    assert(plan@ == plan0.push(call));
                    assert(spec_plan_view(plan@) =~= spec_plan_view(plan0).push(
                        (call.target@, call.lazy),
                    ));
                }
            }
            proof {
                assert(spec_plan_view(plan@) =~= spec_teardown(s));
            }
        }
        proof {
            assert(self.0@.skip(0) =~= self.0@);
        }
        plan
    }
}

} // verus!
