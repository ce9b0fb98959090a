//! The syscall numbering namespace.
//!
//! A closed enumeration of the integer identifiers for every virtualizable
//! operation, partitioned by domain: filesystem, network, process/signal,
//! mutex/condvar/semaphore, and shared memory.  The ids are part of the
//! bridge's wire contract — guest code compiled against them encodes the
//! numbers directly — so the enumeration is append-only and must never be
//! renumbered.

use vstd::prelude::*;

verus! {

pub const LIND_SAFE_FS_ACCESS: i32 = 2;
pub const LIND_SAFE_FS_UNLINK: i32 = 4;
pub const LIND_SAFE_FS_LINK: i32 = 5;
pub const LIND_SAFE_FS_RENAME: i32 = 6;

pub const LIND_SAFE_FS_XSTAT: i32 = 9;
pub const LIND_SAFE_FS_OPEN: i32 = 10;
pub const LIND_SAFE_FS_CLOSE: i32 = 11;
pub const LIND_SAFE_FS_READ: i32 = 12;
pub const LIND_SAFE_FS_WRITE: i32 = 13;
pub const LIND_SAFE_FS_LSEEK: i32 = 14;
pub const LIND_SAFE_FS_IOCTL: i32 = 15;
pub const LIND_SAFE_FS_TRUNCATE: i32 = 16;
pub const LIND_SAFE_FS_FXSTAT: i32 = 17;
pub const LIND_SAFE_FS_FTRUNCATE: i32 = 18;
pub const LIND_SAFE_FS_FSTATFS: i32 = 19;
pub const LIND_SAFE_FS_MMAP: i32 = 21;
pub const LIND_SAFE_FS_MUNMAP: i32 = 22;
pub const LIND_SAFE_FS_GETDENTS: i32 = 23;
pub const LIND_SAFE_FS_DUP: i32 = 24;
pub const LIND_SAFE_FS_DUP2: i32 = 25;
pub const LIND_SAFE_FS_STATFS: i32 = 26;
pub const LIND_SAFE_FS_FCNTL: i32 = 28;

pub const LIND_SAFE_SYS_GETPPID: i32 = 29;
pub const LIND_SAFE_SYS_EXIT: i32 = 30;
pub const LIND_SAFE_SYS_GETPID: i32 = 31;

pub const LIND_SAFE_NET_BIND: i32 = 33;
pub const LIND_SAFE_NET_SEND: i32 = 34;
pub const LIND_SAFE_NET_SENDTO: i32 = 35;
pub const LIND_SAFE_NET_RECV: i32 = 36;
pub const LIND_SAFE_NET_RECVFROM: i32 = 37;
pub const LIND_SAFE_NET_CONNECT: i32 = 38;
pub const LIND_SAFE_NET_LISTEN: i32 = 39;
pub const LIND_SAFE_NET_ACCEPT: i32 = 40;

pub const LIND_SAFE_NET_GETSOCKOPT: i32 = 43;
pub const LIND_SAFE_NET_SETSOCKOPT: i32 = 44;
pub const LIND_SAFE_NET_SHUTDOWN: i32 = 45;
pub const LIND_SAFE_NET_SELECT: i32 = 46;
pub const LIND_SAFE_FS_GETCWD: i32 = 47;
pub const LIND_SAFE_NET_POLL: i32 = 48;
pub const LIND_SAFE_NET_SOCKETPAIR: i32 = 49;
pub const LIND_SAFE_SYS_GETUID: i32 = 50;
pub const LIND_SAFE_SYS_GETEUID: i32 = 51;
pub const LIND_SAFE_SYS_GETGID: i32 = 52;
pub const LIND_SAFE_SYS_GETEGID: i32 = 53;
pub const LIND_SAFE_FS_FLOCK: i32 = 54;

pub const LIND_SAFE_NET_EPOLL_CREATE: i32 = 56;
pub const LIND_SAFE_NET_EPOLL_CTL: i32 = 57;
pub const LIND_SAFE_NET_EPOLL_WAIT: i32 = 58;

pub const LIND_SAFE_FS_SHMGET: i32 = 62;
pub const LIND_SAFE_FS_SHMAT: i32 = 63;
pub const LIND_SAFE_FS_SHMDT: i32 = 64;
pub const LIND_SAFE_FS_SHMCTL: i32 = 65;

pub const LIND_SAFE_FS_PIPE: i32 = 66;
pub const LIND_SAFE_FS_PIPE2: i32 = 67;
pub const LIND_SAFE_FS_FORK: i32 = 68;
pub const LIND_SAFE_FS_EXEC: i32 = 69;

pub const LIND_SAFE_MUTEX_CREATE: i32 = 70;
pub const LIND_SAFE_MUTEX_DESTROY: i32 = 71;
pub const LIND_SAFE_MUTEX_LOCK: i32 = 72;
pub const LIND_SAFE_MUTEX_TRYLOCK: i32 = 73;
pub const LIND_SAFE_MUTEX_UNLOCK: i32 = 74;
pub const LIND_SAFE_COND_CREATE: i32 = 75;
pub const LIND_SAFE_COND_DESTROY: i32 = 76;
pub const LIND_SAFE_COND_WAIT: i32 = 77;
pub const LIND_SAFE_COND_BROADCAST: i32 = 78;
pub const LIND_SAFE_COND_SIGNAL: i32 = 79;
pub const LIND_SAFE_COND_TIMEDWAIT: i32 = 80;

pub const LIND_SAFE_SEM_INIT: i32 = 91;
pub const LIND_SAFE_SEM_WAIT: i32 = 92;
pub const LIND_SAFE_SEM_TRYWAIT: i32 = 93;
pub const LIND_SAFE_SEM_TIMEDWAIT: i32 = 94;
pub const LIND_SAFE_SEM_POST: i32 = 95;
pub const LIND_SAFE_SEM_DESTROY: i32 = 96;
pub const LIND_SAFE_SEM_GETVALUE: i32 = 97;

pub const LIND_SAFE_NET_GETHOSTNAME: i32 = 125;

pub const LIND_SAFE_FS_PREAD: i32 = 126;
pub const LIND_SAFE_FS_PWRITE: i32 = 127;
pub const LIND_SAFE_FS_CHDIR: i32 = 130;
pub const LIND_SAFE_FS_MKDIR: i32 = 131;
pub const LIND_SAFE_FS_RMDIR: i32 = 132;
pub const LIND_SAFE_FS_CHMOD: i32 = 133;
pub const LIND_SAFE_FS_FCHMOD: i32 = 134;

pub const LIND_SAFE_NET_SOCKET: i32 = 136;

pub const LIND_SAFE_NET_GETSOCKNAME: i32 = 144;
pub const LIND_SAFE_NET_GETPEERNAME: i32 = 145;
pub const LIND_SAFE_NET_GETIFADDRS: i32 = 146;
pub const LIND_SAFE_SYS_SIGACTION: i32 = 147;
pub const LIND_SAFE_SYS_KILL: i32 = 148;
pub const LIND_SAFE_SYS_SIGPROCMASK: i32 = 149;
pub const LIND_SAFE_SYS_LINDSETITIMER: i32 = 150;

pub const LIND_SAFE_FS_FCHDIR: i32 = 161;
pub const LIND_SAFE_FS_FSYNC: i32 = 162;
pub const LIND_SAFE_FS_FDATASYNC: i32 = 163;
pub const LIND_SAFE_FS_SYNC_FILE_RANGE: i32 = 164;

/// Whether `callnum` is one of the identifiers of the namespace.
pub open spec fn spec_syscall_in_namespace(callnum: i32) -> bool {
    ||| callnum == LIND_SAFE_FS_ACCESS
    ||| callnum == LIND_SAFE_FS_UNLINK
    ||| callnum == LIND_SAFE_FS_LINK
    ||| callnum == LIND_SAFE_FS_RENAME
    ||| callnum == LIND_SAFE_FS_XSTAT
    ||| callnum == LIND_SAFE_FS_OPEN
    ||| callnum == LIND_SAFE_FS_CLOSE
    ||| callnum == LIND_SAFE_FS_READ
    ||| callnum == LIND_SAFE_FS_WRITE
    ||| callnum == LIND_SAFE_FS_LSEEK
    ||| callnum == LIND_SAFE_FS_IOCTL
    ||| callnum == LIND_SAFE_FS_TRUNCATE
    ||| callnum == LIND_SAFE_FS_FXSTAT
    ||| callnum == LIND_SAFE_FS_FTRUNCATE
    ||| callnum == LIND_SAFE_FS_FSTATFS
    ||| callnum == LIND_SAFE_FS_MMAP
    ||| callnum == LIND_SAFE_FS_MUNMAP
    ||| callnum == LIND_SAFE_FS_GETDENTS
    ||| callnum == LIND_SAFE_FS_DUP
    ||| callnum == LIND_SAFE_FS_DUP2
    ||| callnum == LIND_SAFE_FS_STATFS
    ||| callnum == LIND_SAFE_FS_FCNTL
    ||| callnum == LIND_SAFE_SYS_GETPPID
    ||| callnum == LIND_SAFE_SYS_EXIT
    ||| callnum == LIND_SAFE_SYS_GETPID
    ||| callnum == LIND_SAFE_NET_BIND
    ||| callnum == LIND_SAFE_NET_SEND
    ||| callnum == LIND_SAFE_NET_SENDTO
    ||| callnum == LIND_SAFE_NET_RECV
    ||| callnum == LIND_SAFE_NET_RECVFROM
    ||| callnum == LIND_SAFE_NET_CONNECT
    ||| callnum == LIND_SAFE_NET_LISTEN
    ||| callnum == LIND_SAFE_NET_ACCEPT
    ||| callnum == LIND_SAFE_NET_GETSOCKOPT
    ||| callnum == LIND_SAFE_NET_SETSOCKOPT
    ||| callnum == LIND_SAFE_NET_SHUTDOWN
    ||| callnum == LIND_SAFE_NET_SELECT
    ||| callnum == LIND_SAFE_FS_GETCWD
    ||| callnum == LIND_SAFE_NET_POLL
    ||| callnum == LIND_SAFE_NET_SOCKETPAIR
    ||| callnum == LIND_SAFE_SYS_GETUID
    ||| callnum == LIND_SAFE_SYS_GETEUID
    ||| callnum == LIND_SAFE_SYS_GETGID
    ||| callnum == LIND_SAFE_SYS_GETEGID
    ||| callnum == LIND_SAFE_FS_FLOCK
    ||| callnum == LIND_SAFE_NET_EPOLL_CREATE
    ||| callnum == LIND_SAFE_NET_EPOLL_CTL
    ||| callnum == LIND_SAFE_NET_EPOLL_WAIT
    ||| callnum == LIND_SAFE_FS_SHMGET
    ||| callnum == LIND_SAFE_FS_SHMAT
    ||| callnum == LIND_SAFE_FS_SHMDT
    ||| callnum == LIND_SAFE_FS_SHMCTL
    ||| callnum == LIND_SAFE_FS_PIPE
    ||| callnum == LIND_SAFE_FS_PIPE2
    ||| callnum == LIND_SAFE_FS_FORK
    ||| callnum == LIND_SAFE_FS_EXEC
    ||| callnum == LIND_SAFE_MUTEX_CREATE
    ||| callnum == LIND_SAFE_MUTEX_DESTROY
    ||| callnum == LIND_SAFE_MUTEX_LOCK
    ||| callnum == LIND_SAFE_MUTEX_TRYLOCK
    ||| callnum == LIND_SAFE_MUTEX_UNLOCK
    ||| callnum == LIND_SAFE_COND_CREATE
    ||| callnum == LIND_SAFE_COND_DESTROY
    ||| callnum == LIND_SAFE_COND_WAIT
    ||| callnum == LIND_SAFE_COND_BROADCAST
    ||| callnum == LIND_SAFE_COND_SIGNAL
    ||| callnum == LIND_SAFE_COND_TIMEDWAIT
    ||| callnum == LIND_SAFE_SEM_INIT
    ||| callnum == LIND_SAFE_SEM_WAIT
    ||| callnum == LIND_SAFE_SEM_TRYWAIT
    ||| callnum == LIND_SAFE_SEM_TIMEDWAIT
    ||| callnum == LIND_SAFE_SEM_POST
    ||| callnum == LIND_SAFE_SEM_DESTROY
    ||| callnum == LIND_SAFE_SEM_GETVALUE
    ||| callnum == LIND_SAFE_NET_GETHOSTNAME
    ||| callnum == LIND_SAFE_FS_PREAD
    ||| callnum == LIND_SAFE_FS_PWRITE
    ||| callnum == LIND_SAFE_FS_CHDIR
    ||| callnum == LIND_SAFE_FS_MKDIR
    ||| callnum == LIND_SAFE_FS_RMDIR
    ||| callnum == LIND_SAFE_FS_CHMOD
    ||| callnum == LIND_SAFE_FS_FCHMOD
    ||| callnum == LIND_SAFE_NET_SOCKET
    ||| callnum == LIND_SAFE_NET_GETSOCKNAME
    ||| callnum == LIND_SAFE_NET_GETPEERNAME
    ||| callnum == LIND_SAFE_NET_GETIFADDRS
    ||| callnum == LIND_SAFE_SYS_SIGACTION
    ||| callnum == LIND_SAFE_SYS_KILL
    ||| callnum == LIND_SAFE_SYS_SIGPROCMASK
    ||| callnum == LIND_SAFE_SYS_LINDSETITIMER
    ||| callnum == LIND_SAFE_FS_FCHDIR
    ||| callnum == LIND_SAFE_FS_FSYNC
    ||| callnum == LIND_SAFE_FS_FDATASYNC
    ||| callnum == LIND_SAFE_FS_SYNC_FILE_RANGE
}

/// Decides whether `callnum` belongs to the syscall namespace.
pub fn syscall_in_namespace(callnum: i32) -> (b: bool)
    ensures
        b == spec_syscall_in_namespace(callnum),
{
    match callnum {
        2 | 4..=6 | 9..=19 | 21..=26 | 28..=31 | 33..=40 | 43..=54 | 56..=58 | 62..=80 | 91..=97
            | 125..=127 | 130..=134 | 136 | 144..=150 | 161..=164 => true,
        _ => false,
    }
}

} // verus!
