//! Process lists and per-process resource usage.
use crate::integer::{byte_of, char_to_u8, low_i32, low_u32, u64_to_i32, u64_to_u32};
use crate::result::{known_code, mapped_error, match_code, Error, Platform, SigarResult, SIGAR_OK};
use crate::util::{bytes_of, chars_to_bytes};
use vstd::prelude::*;

verus! {

/// Process id list
pub type PIDList = Vec<u32>;

/// Returns pid list, from the outcome of the native process list query
/// (native process ids, which are 64 bits wide, narrowed to 32 bits).
pub fn list(fetched: SigarResult<Vec<u64>>) -> (r: SigarResult<PIDList>)
    ensures
        match fetched {
            Ok(raw) => r matches Ok(v) && v@ == raw@.map_values(|p: u64| low_u32(p)),
            Err(e) => r == Err::<PIDList, Error>(e),
        },
{
    match fetched {
        Ok(raw) => {
            let v = crate::session::extract_list(&raw, pid_from_raw);
            assert(v@ =~= raw@.map_values(|p: u64| low_u32(p)));
            Ok(v)
        },
        Err(e) => Err(e),
    }
}

/// Narrows one native process id.
fn pid_from_raw(p: &u64) -> (r: u32)
    ensures
        r == low_u32(*p),
{
    u64_to_u32(*p)
}

/// The native process summary record (`sigar_proc_stat_t`).
#[derive(Clone, Copy, Debug, PartialEq, Eq, Structural)]
pub struct RawProcStat {
    pub total: u64,
    pub sleeping: u64,
    pub running: u64,
    pub zombie: u64,
    pub stopped: u64,
    pub idle: u64,
    pub threads: u64,
}

/// Process summary
#[derive(Clone, Copy, Debug, PartialEq, Eq, Structural)]
pub struct Summary {
    pub total: u64,
    pub sleeping: u64,
    pub running: u64,
    pub zombie: u64,
    pub stopped: u64,
    pub idle: u64,
    pub threads: u64,
}

impl Summary {
    /// The value that a native record gives: every field copied as it is.
    pub open spec fn spec_from_raw(raw: RawProcStat) -> Summary {
        Summary {
            total: raw.total,
            sleeping: raw.sleeping,
            running: raw.running,
            zombie: raw.zombie,
            stopped: raw.stopped,
            idle: raw.idle,
            threads: raw.threads,
        }
    }

    /// Converts a native record.
    pub fn from_raw(raw: &RawProcStat) -> (r: Summary)
        ensures
            r == Self::spec_from_raw(*raw),
    {
        Summary {
            total: raw.total,
            sleeping: raw.sleeping,
            running: raw.running,
            zombie: raw.zombie,
            stopped: raw.stopped,
            idle: raw.idle,
            threads: raw.threads,
        }
    }
}

/// Returns summary of all processes, from the outcome of the native query.
pub fn summary(fetched: SigarResult<RawProcStat>) -> (r: SigarResult<Summary>)
    ensures
        match fetched {
            Ok(raw) => r == Ok::<Summary, Error>(Summary::spec_from_raw(raw)),
            Err(e) => r == Err::<Summary, Error>(e),
        },
{
    match fetched {
        Ok(raw) => Ok(Summary::from_raw(&raw)),
        Err(e) => Err(e),
    }
}

/// The native process memory record (`sigar_proc_mem_t`).
#[derive(Clone, Copy, Debug, PartialEq, Eq, Structural)]
pub struct RawProcMem {
    pub size: u64,
    pub resident: u64,
    pub share: u64,
    pub minor_faults: u64,
    pub major_faults: u64,
    pub page_faults: u64,
}

/// Process memory info
#[derive(Clone, Copy, Debug, PartialEq, Eq, Structural)]
pub struct Mem {
    pub size: u64,
    pub resident: u64,
    pub share: u64,
    pub minor_faults: u64,
    pub major_faults: u64,
    pub page_faults: u64,
}

impl Mem {
    /// The value that a native record gives: every field copied as it is.
    pub open spec fn spec_from_raw(raw: RawProcMem) -> Mem {
        Mem {
            size: raw.size,
            resident: raw.resident,
            share: raw.share,
            minor_faults: raw.minor_faults,
            major_faults: raw.major_faults,
            page_faults: raw.page_faults,
        }
    }

    /// Converts a native record.
    pub fn from_raw(raw: &RawProcMem) -> (r: Mem)
        ensures
            r == Self::spec_from_raw(*raw),
    {
        Mem {
            size: raw.size,
            resident: raw.resident,
            share: raw.share,
            minor_faults: raw.minor_faults,
            major_faults: raw.major_faults,
            page_faults: raw.page_faults,
        }
    }
}

/// Returns memory usage of a process, from the outcome of the native query.
pub fn mem(fetched: SigarResult<RawProcMem>) -> (r: SigarResult<Mem>)
    ensures
        match fetched {
            Ok(raw) => r == Ok::<Mem, Error>(Mem::spec_from_raw(raw)),
            Err(e) => r == Err::<Mem, Error>(e),
        },
{
    match fetched {
        Ok(raw) => Ok(Mem::from_raw(&raw)),
        Err(e) => Err(e),
    }
}

/// The native process disk IO record (`sigar_proc_disk_io_t`, and `sigar_proc_cumulative_disk_io_t`, which has the same fields).
#[derive(Clone, Copy, Debug, PartialEq, Eq, Structural)]
pub struct RawProcDiskIo {
    pub bytes_read: u64,
    pub bytes_written: u64,
    pub bytes_total: u64,
}

/// Disk IO info
#[derive(Clone, Copy, Debug, PartialEq, Eq, Structural)]
pub struct DiskIO {
    pub bytes_read: u64,
    pub bytes_written: u64,
    pub bytes_total: u64,
}

impl DiskIO {
    /// The value that a native record gives: every field copied as it is.
    pub open spec fn spec_from_raw(raw: RawProcDiskIo) -> DiskIO {
        DiskIO {
            bytes_read: raw.bytes_read,
            bytes_written: raw.bytes_written,
            bytes_total: raw.bytes_total,
        }
    }

    /// Converts a native record.
    pub fn from_raw(raw: &RawProcDiskIo) -> (r: DiskIO)
        ensures
            r == Self::spec_from_raw(*raw),
    {
        DiskIO {
            bytes_read: raw.bytes_read,
            bytes_written: raw.bytes_written,
            bytes_total: raw.bytes_total,
        }
    }
}

/// Returns disk io of a process, from the outcome of the native query.
pub fn disk_io(fetched: SigarResult<RawProcDiskIo>) -> (r: SigarResult<DiskIO>)
    ensures
        match fetched {
            Ok(raw) => r == Ok::<DiskIO, Error>(DiskIO::spec_from_raw(raw)),
            Err(e) => r == Err::<DiskIO, Error>(e),
        },
{
    match fetched {
        Ok(raw) => Ok(DiskIO::from_raw(&raw)),
        Err(e) => Err(e),
    }
}

/// Returns cumulative disk io of a process, from the outcome of the native query.
pub fn cum_disk_io(fetched: SigarResult<RawProcDiskIo>) -> (r: SigarResult<DiskIO>)
    ensures
        match fetched {
            Ok(raw) => r == Ok::<DiskIO, Error>(DiskIO::spec_from_raw(raw)),
            Err(e) => r == Err::<DiskIO, Error>(e),
        },
{
    match fetched {
        Ok(raw) => Ok(DiskIO::from_raw(&raw)),
        Err(e) => Err(e),
    }
}

/// The native process credential record (`sigar_proc_cred_t`); its ids are
/// `unsigned long` on the native side.
#[derive(Clone, Copy, Debug, PartialEq, Eq, Structural)]
pub struct RawProcCred {
    pub uid: u64,
    pub gid: u64,
    pub euid: u64,
    pub egid: u64,
}

/// Process cred
#[derive(Clone, Copy, Debug, PartialEq, Eq, Structural)]
pub struct Cred {
    pub uid: u32,
    pub gid: u32,
    pub euid: u32,
    pub egid: u32,
}

impl Cred {
    /// The credentials that a native record gives: each id narrowed to 32
    /// bits.
    pub open spec fn spec_from_raw(raw: RawProcCred) -> Cred {
        Cred {
            uid: low_u32(raw.uid),
            gid: low_u32(raw.gid),
            euid: low_u32(raw.euid),
            egid: low_u32(raw.egid),
        }
    }

    /// Converts a native record.
    pub fn from_raw(raw: &RawProcCred) -> (r: Cred)
        ensures
            r == Self::spec_from_raw(*raw),
    {
        Cred {
            uid: u64_to_u32(raw.uid),
            gid: u64_to_u32(raw.gid),
            euid: u64_to_u32(raw.euid),
            egid: u64_to_u32(raw.egid),
        }
    }
}

/// Returns creds of a process, from the outcome of the native query.
pub fn cred(fetched: SigarResult<RawProcCred>) -> (r: SigarResult<Cred>)
    ensures
        match fetched {
            Ok(raw) => r == Ok::<Cred, Error>(Cred::spec_from_raw(raw)),
            Err(e) => r == Err::<Cred, Error>(e),
        },
{
    match fetched {
        Ok(raw) => Ok(Cred::from_raw(&raw)),
        Err(e) => Err(e),
    }
}

/// The native process credential name record (`sigar_proc_cred_name_t`).
#[derive(Debug, PartialEq, Eq)]
pub struct RawProcCredName {
    pub user: Vec<i8>,
    pub group: Vec<i8>,
}

/// Process cred name
#[derive(Debug, PartialEq, Eq)]
pub struct CredName {
    pub user: Vec<u8>,
    pub group: Vec<u8>,
}

impl CredName {
    /// `self` holds the bytes of every cell of the native name buffers.
    pub open spec fn from_raw_is(self, raw: RawProcCredName) -> bool {
        &&& self.user@ == bytes_of(raw.user@)
        &&& self.group@ == bytes_of(raw.group@)
    }

    /// Converts a native record.
    pub fn from_raw(raw: &RawProcCredName) -> (r: CredName)
        ensures
            r.from_raw_is(*raw),
    {
        CredName { user: chars_to_bytes(raw.user.as_slice()), group: chars_to_bytes(raw.group.as_slice()) }
    }
}

/// Returns cred names of a process, from the outcome of the native query.
pub fn cred_name(fetched: SigarResult<RawProcCredName>) -> (r: SigarResult<CredName>)
    ensures
        match fetched {
            Ok(raw) => r matches Ok(c) && c.from_raw_is(raw),
            Err(e) => r == Err::<CredName, Error>(e),
        },
{
    match fetched {
        Ok(raw) => Ok(CredName::from_raw(&raw)),
        Err(e) => Err(e),
    }
}

/// The native process time record (`sigar_proc_time_t`).
#[derive(Clone, Copy, Debug, PartialEq, Eq, Structural)]
pub struct RawProcTime {
    pub start_time: u64,
    pub user: u64,
    pub sys: u64,
    pub total: u64,
}

/// Process time
#[derive(Clone, Copy, Debug, PartialEq, Eq, Structural)]
pub struct Time {
    pub start_time: u64,
    pub user: u64,
    pub sys: u64,
    pub total: u64,
}

impl Time {
    /// The value that a native record gives: every field copied as it is.
    pub open spec fn spec_from_raw(raw: RawProcTime) -> Time {
        Time {
            start_time: raw.start_time,
            user: raw.user,
            sys: raw.sys,
            total: raw.total,
        }
    }

    /// Converts a native record.
    pub fn from_raw(raw: &RawProcTime) -> (r: Time)
        ensures
            r == Self::spec_from_raw(*raw),
    {
        Time {
            start_time: raw.start_time,
            user: raw.user,
            sys: raw.sys,
            total: raw.total,
        }
    }
}

/// Returns process time of a process, from the outcome of the native query.
pub fn time(fetched: SigarResult<RawProcTime>) -> (r: SigarResult<Time>)
    ensures
        match fetched {
            Ok(raw) => r == Ok::<Time, Error>(Time::spec_from_raw(raw)),
            Err(e) => r == Err::<Time, Error>(e),
        },
{
    match fetched {
        Ok(raw) => Ok(Time::from_raw(&raw)),
        Err(e) => Err(e),
    }
}

/// The native process state record (`sigar_proc_state_t`).
#[derive(Debug, PartialEq, Eq)]
pub struct RawProcState {
    pub name: Vec<i8>,
    pub state: i8,
    pub ppid: u64,
    pub tty: i32,
    pub priority: i32,
    pub nice: i32,
    pub processor: i32,
    pub threads: u64,
}

/// Process state
#[derive(Debug, PartialEq, Eq)]
pub struct State {
    pub name: Vec<u8>,
    pub state: u8,
    pub ppid: i32,
    pub tty: i32,
    pub priority: i32,
    pub nice: i32,
    pub processor: i32,
    pub threads: u64,
}

impl State {
    /// `self` is what the native record gives: the bytes of the name buffer,
    /// the state letter as a byte, the parent id narrowed to 32 bits, and
    /// the other numbers as they are.
    pub open spec fn from_raw_is(self, raw: RawProcState) -> bool {
        &&& self.name@ == bytes_of(raw.name@)
        &&& self.state == byte_of(raw.state)
        &&& self.ppid == low_i32(raw.ppid)
        &&& self.tty == raw.tty
        &&& self.priority == raw.priority
        &&& self.nice == raw.nice
        &&& self.processor == raw.processor
        &&& self.threads == raw.threads
    }

    /// Converts a native record.
    pub fn from_raw(raw: &RawProcState) -> (r: State)
        ensures
            r.from_raw_is(*raw),
    {
        State {
            name: chars_to_bytes(raw.name.as_slice()),
            state: char_to_u8(raw.state),
            ppid: u64_to_i32(raw.ppid),
            tty: raw.tty,
            priority: raw.priority,
            nice: raw.nice,
            processor: raw.processor,
            threads: raw.threads,
        }
    }
}

/// Returns process state of a process, from the outcome of the native query.
pub fn state(fetched: SigarResult<RawProcState>) -> (r: SigarResult<State>)
    ensures
        match fetched {
            Ok(raw) => r matches Ok(s) && s.from_raw_is(raw),
            Err(e) => r == Err::<State, Error>(e),
        },
{
    match fetched {
        Ok(raw) => Ok(State::from_raw(&raw)),
        Err(e) => Err(e),
    }
}

/// The native process descriptor record (`sigar_proc_fd_t`).
#[derive(Clone, Copy, Debug, PartialEq, Eq, Structural)]
pub struct RawProcFd {
    pub total: u64,
}

/// Process file descriptor summary
#[derive(Clone, Copy, Debug, PartialEq, Eq, Structural)]
pub struct FD {
    pub total: u64,
}

impl FD {
    /// The value that a native record gives: every field copied as it is.
    pub open spec fn spec_from_raw(raw: RawProcFd) -> FD {
        FD {
            total: raw.total,
        }
    }

    /// Converts a native record.
    pub fn from_raw(raw: &RawProcFd) -> (r: FD)
        ensures
            r == Self::spec_from_raw(*raw),
    {
        FD {
            total: raw.total,
        }
    }
}

/// Returns fd summary of a process, from the outcome of the native query.
pub fn fd(fetched: SigarResult<RawProcFd>) -> (r: SigarResult<FD>)
    ensures
        match fetched {
            Ok(raw) => r == Ok::<FD, Error>(FD::spec_from_raw(raw)),
            Err(e) => r == Err::<FD, Error>(e),
        },
{
    match fetched {
        Ok(raw) => Ok(FD::from_raw(&raw)),
        Err(e) => Err(e),
    }
}

/// The outcome of a kill request whose native call returned `code`. A
/// failure goes through the code table of `p`; a code the table does not
/// know is reported with its native description, and `described` is the
/// outcome of looking that description up under a handle of its own (it is
/// not read for a success or a known code).
pub fn kill_outcome(p: Platform, code: i32, described: SigarResult<Option<String>>) -> (r:
    SigarResult<()>)
    ensures
        code == SIGAR_OK ==> r is Ok,
        code != SIGAR_OK ==> match known_code(p, code) {
            Some(k) => r == Err::<(), Error>(k),
            None => match described {
                Ok(t) => r matches Err(e) && mapped_error(
                    p,
                    code,
                    match t {
                        Some(s) => Some(s@),
                        None => None,
                    },
                    e,
                ),
                Err(e) => r == Err::<(), Error>(e),
            },
        },
{
    if code == SIGAR_OK {
        return Ok(());
    }
    if let Some(k) = match_code(p, code) {
        return Err(k);
    }
    match described {
        Ok(text) => Err(Error::new(p, code, text)),
        Err(e) => Err(e),
    }
}

} // verus!
