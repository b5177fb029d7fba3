//! Named seccomp profiles, compiled to a kill-on-mismatch BPF program.
//!
//! Profiles are defined in code, not data: a bundle selects one by name and
//! cannot widen it. This build ships exactly one audited profile,
//! `inspect`, scoped to what a read-only inspection (`bash`, common
//! coreutils, `systemctl status`, `journalctl`, `ps`, `df`) needs; escape
//! and escalation syscalls (network, mount, ptrace, module load, privilege
//! change, filesystem mutation) are absent and therefore kill the action.
//! Any other profile name is refused rather than resolved to a permissive
//! filter. Only `x86_64` and `aarch64` have audited syscall tables.

use vstd::prelude::*;

use crate::sandbox::error::SandboxError;
use crate::text::{chars_eq, chars_of, owned};
use seccompiler::{
    BpfProgram, SeccompAction, SeccompCmpArgLen, SeccompCmpOp, SeccompCondition, SeccompFilter, SeccompRule,
    TargetArch,
};

verus! {

#[verifier::external_type_specification]
#[verifier::external_body]
pub struct ExSeccompError(seccompiler::BackendError);

/// A target architecture with an audited syscall table.
#[derive(Debug, Clone, Copy, PartialEq, Eq, Structural)]
pub enum Arch {
    /// 64-bit x86.
    X86_64,
    /// 64-bit ARM.
    Aarch64,
}

/// What the filter does with a syscall.
#[derive(Debug, Clone, Copy, PartialEq, Eq, Structural)]
pub enum FilterAction {
    /// Let the syscall proceed.
    Allow,
    /// Kill the whole process.
    KillProcess,
}

/// The address family `AF_UNIX`.
pub const AF_UNIX: u64 = 1;

/// The address family `AF_NETLINK`.
pub const AF_NETLINK: u64 = 16;

/// The one profile name this build recognizes.
pub open spec fn inspect_name() -> Seq<char> {
    seq!['i', 'n', 's', 'p', 'e', 'c', 't']
}

/// Whether `name` is a profile this build defines.
pub open spec fn profile_known(name: Seq<char>) -> bool {
    name == inspect_name()
}

/// Every number of `s` is a syscall number below 436 and sits at its own
/// position in `arch`'s table, so none occurs twice.
pub open spec fn listed(s: Seq<i64>, arch: Arch) -> bool {
    forall|i: int| 0 <= i < s.len() ==> 0 <= #[trigger] s[i] <= 435 && table_position(s[i], arch) == i
}

/// No number occurs twice in `s`.
pub open spec fn distinct(s: Seq<i64>) -> bool {
    forall|i: int, j: int| 0 <= i < j < s.len() ==> s[i] != s[j]
}

/// The `inspect` profile's unconditionally allowed syscall numbers on
/// `x86_64`: the calls common to both architectures, then the legacy
/// non-`*at` calls only `x86_64` has.
pub open spec fn inspect_x86_64() -> Seq<i64> {
    Seq::empty()
        .push(0) // read
        .push(1) // write
        .push(19) // readv
        .push(20) // writev
        .push(17) // pread64
        .push(3) // close
        .push(8) // lseek
        .push(72) // fcntl
        .push(16) // ioctl
        .push(32) // dup
        .push(292) // dup3
        .push(293) // pipe2
        .push(257) // openat
        .push(262) // newfstatat
        .push(332) // statx
        .push(217) // getdents64
        .push(267) // readlinkat
        .push(269) // faccessat
        .push(79) // getcwd
        .push(80) // chdir
        .push(12) // brk
        .push(9) // mmap
        .push(11) // munmap
        .push(10) // mprotect
        .push(25) // mremap
        .push(28) // madvise
        .push(13) // rt_sigaction
        .push(14) // rt_sigprocmask
        .push(15) // rt_sigreturn
        .push(128) // rt_sigtimedwait
        .push(131) // sigaltstack
        .push(219) // restart_syscall
        .push(35) // nanosleep
        .push(230) // clock_nanosleep
        .push(228) // clock_gettime
        .push(229) // clock_getres
        .push(96) // gettimeofday
        .push(39) // getpid
        .push(110) // getppid
        .push(186) // gettid
        .push(102) // getuid
        .push(107) // geteuid
        .push(104) // getgid
        .push(108) // getegid
        .push(115) // getgroups
        .push(121) // getpgid
        .push(124) // getsid
        .push(109) // setpgid
        .push(112) // setsid
        .push(42) // connect
        .push(49) // bind
        .push(53) // socketpair
        .push(44) // sendto
        .push(45) // recvfrom
        .push(46) // sendmsg
        .push(47) // recvmsg
        .push(55) // getsockopt
        .push(54) // setsockopt
        .push(52) // getpeername
        .push(51) // getsockname
        .push(218) // set_tid_address
        .push(273) // set_robust_list
        .push(334) // rseq
        .push(302) // prlimit64
        .push(97) // getrlimit
        .push(202) // futex
        .push(24) // sched_yield
        .push(204) // sched_getaffinity
        .push(271) // ppoll
        .push(270) // pselect6
        .push(291) // epoll_create1
        .push(233) // epoll_ctl
        .push(281) // epoll_pwait
        .push(56) // clone
        .push(435) // clone3
        .push(59) // execve
        .push(322) // execveat
        .push(61) // wait4
        .push(247) // waitid
        .push(60) // exit
        .push(231) // exit_group
        .push(234) // tgkill
        .push(62) // kill
        .push(137) // statfs
        .push(138) // fstatfs
        .push(221) // fadvise64
        .push(63) // uname
        .push(99) // sysinfo
        .push(100) // times
        .push(318) // getrandom
        .push(324) // membarrier
        .push(95) // umask
        .push(157) // prctl
        .push(2) // open
        .push(4) // stat
        .push(6) // lstat
        .push(5) // fstat
        .push(7) // poll
        .push(23) // select
        .push(21) // access
        .push(33) // dup2
        .push(22) // pipe
        .push(57) // fork
        .push(58) // vfork
        .push(89) // readlink
        .push(158) // arch_prctl
        .push(213) // epoll_create
        .push(232) // epoll_wait
        .push(111) // getpgrp
        .push(201) // time
}

/// The `inspect` profile's unconditionally allowed syscall numbers on
/// `aarch64`: the calls common to both architectures, then `fstat`.
pub open spec fn inspect_aarch64() -> Seq<i64> {
    Seq::empty()
        .push(63) // read
        .push(64) // write
        .push(65) // readv
        .push(66) // writev
        .push(67) // pread64
        .push(57) // close
        .push(62) // lseek
        .push(25) // fcntl
        .push(29) // ioctl
        .push(23) // dup
        .push(24) // dup3
        .push(59) // pipe2
        .push(56) // openat
        .push(79) // newfstatat
        .push(291) // statx
        .push(61) // getdents64
        .push(78) // readlinkat
        .push(48) // faccessat
        .push(17) // getcwd
        .push(49) // chdir
        .push(214) // brk
        .push(222) // mmap
        .push(215) // munmap
        .push(226) // mprotect
        .push(216) // mremap
        .push(233) // madvise
        .push(134) // rt_sigaction
        .push(135) // rt_sigprocmask
        .push(139) // rt_sigreturn
        .push(137) // rt_sigtimedwait
        .push(132) // sigaltstack
        .push(128) // restart_syscall
        .push(101) // nanosleep
        .push(115) // clock_nanosleep
        .push(113) // clock_gettime
        .push(114) // clock_getres
        .push(169) // gettimeofday
        .push(172) // getpid
        .push(173) // getppid
        .push(178) // gettid
        .push(174) // getuid
        .push(175) // geteuid
        .push(176) // getgid
        .push(177) // getegid
        .push(158) // getgroups
        .push(155) // getpgid
        .push(156) // getsid
        .push(154) // setpgid
        .push(157) // setsid
        .push(203) // connect
        .push(200) // bind
        .push(199) // socketpair
        .push(206) // sendto
        .push(207) // recvfrom
        .push(211) // sendmsg
        .push(212) // recvmsg
        .push(209) // getsockopt
        .push(208) // setsockopt
        .push(205) // getpeername
        .push(204) // getsockname
        .push(96) // set_tid_address
        .push(99) // set_robust_list
        .push(293) // rseq
        .push(261) // prlimit64
        .push(163) // getrlimit
        .push(98) // futex
        .push(124) // sched_yield
        .push(123) // sched_getaffinity
        .push(73) // ppoll
        .push(72) // pselect6
        .push(20) // epoll_create1
        .push(21) // epoll_ctl
        .push(22) // epoll_pwait
        .push(220) // clone
        .push(435) // clone3
        .push(221) // execve
        .push(281) // execveat
        .push(260) // wait4
        .push(95) // waitid
        .push(93) // exit
        .push(94) // exit_group
        .push(131) // tgkill
        .push(129) // kill
        .push(43) // statfs
        .push(44) // fstatfs
        .push(223) // fadvise64
        .push(160) // uname
        .push(179) // sysinfo
        .push(153) // times
        .push(278) // getrandom
        .push(283) // membarrier
        .push(166) // umask
        .push(167) // prctl
        .push(80) // fstat
}

/// The `inspect` profile's unconditionally allowed syscalls on `arch`.
pub open spec fn inspect_syscalls(arch: Arch) -> Seq<i64> {
    match arch {
        Arch::X86_64 => inspect_x86_64(),
        Arch::Aarch64 => inspect_aarch64(),
    }
}

/// Where syscall `x` stands in the `x86_64` table (`-1` if absent).
pub open spec fn position_x86_64(x: i64) -> int {
    if x == 0 {
        0
    } else if x == 1 {
        1
    } else if x == 19 {
        2
    } else if x == 20 {
        3
    } else if x == 17 {
        4
    } else if x == 3 {
        5
    } else if x == 8 {
        6
    } else if x == 72 {
        7
    } else if x == 16 {
        8
    } else if x == 32 {
        9
    } else if x == 292 {
        10
    } else if x == 293 {
        11
    } else if x == 257 {
        12
    } else if x == 262 {
        13
    } else if x == 332 {
        14
    } else if x == 217 {
        15
    } else if x == 267 {
        16
    } else if x == 269 {
        17
    } else if x == 79 {
        18
    } else if x == 80 {
        19
    } else if x == 12 {
        20
    } else if x == 9 {
        21
    } else if x == 11 {
        22
    } else if x == 10 {
        23
    } else if x == 25 {
        24
    } else if x == 28 {
        25
    } else if x == 13 {
        26
    } else if x == 14 {
        27
    } else if x == 15 {
        28
    } else if x == 128 {
        29
    } else if x == 131 {
        30
    } else if x == 219 {
        31
    } else if x == 35 {
        32
    } else if x == 230 {
        33
    } else if x == 228 {
        34
    } else if x == 229 {
        35
    } else if x == 96 {
        36
    } else if x == 39 {
        37
    } else if x == 110 {
        38
    } else if x == 186 {
        39
    } else if x == 102 {
        40
    } else if x == 107 {
        41
    } else if x == 104 {
        42
    } else if x == 108 {
        43
    } else if x == 115 {
        44
    } else if x == 121 {
        45
    } else if x == 124 {
        46
    } else if x == 109 {
        47
    } else if x == 112 {
        48
    } else if x == 42 {
        49
    } else if x == 49 {
        50
    } else if x == 53 {
        51
    } else if x == 44 {
        52
    } else if x == 45 {
        53
    } else if x == 46 {
        54
    } else if x == 47 {
        55
    } else if x == 55 {
        56
    } else if x == 54 {
        57
    } else if x == 52 {
        58
    } else if x == 51 {
        59
    } else if x == 218 {
        60
    } else if x == 273 {
        61
    } else if x == 334 {
        62
    } else if x == 302 {
        63
    } else if x == 97 {
        64
    } else if x == 202 {
        65
    } else if x == 24 {
        66
    } else if x == 204 {
        67
    } else if x == 271 {
        68
    } else if x == 270 {
        69
    } else if x == 291 {
        70
    } else if x == 233 {
        71
    } else if x == 281 {
        72
    } else if x == 56 {
        73
    } else if x == 435 {
        74
    } else if x == 59 {
        75
    } else if x == 322 {
        76
    } else if x == 61 {
        77
    } else if x == 247 {
        78
    } else if x == 60 {
        79
    } else if x == 231 {
        80
    } else if x == 234 {
        81
    } else if x == 62 {
        82
    } else if x == 137 {
        83
    } else if x == 138 {
        84
    } else if x == 221 {
        85
    } else if x == 63 {
        86
    } else if x == 99 {
        87
    } else if x == 100 {
        88
    } else if x == 318 {
        89
    } else if x == 324 {
        90
    } else if x == 95 {
        91
    } else if x == 157 {
        92
    } else if x == 2 {
        93
    } else if x == 4 {
        94
    } else if x == 6 {
        95
    } else if x == 5 {
        96
    } else if x == 7 {
        97
    } else if x == 23 {
        98
    } else if x == 21 {
        99
    } else if x == 33 {
        100
    } else if x == 22 {
        101
    } else if x == 57 {
        102
    } else if x == 58 {
        103
    } else if x == 89 {
        104
    } else if x == 158 {
        105
    } else if x == 213 {
        106
    } else if x == 232 {
        107
    } else if x == 111 {
        108
    } else if x == 201 {
        109
    } else {
        -1
    }
}

/// Where syscall `x` stands in the `aarch64` table (`-1` if absent).
pub open spec fn position_aarch64(x: i64) -> int {
    if x == 63 {
        0
    } else if x == 64 {
        1
    } else if x == 65 {
        2
    } else if x == 66 {
        3
    } else if x == 67 {
        4
    } else if x == 57 {
        5
    } else if x == 62 {
        6
    } else if x == 25 {
        7
    } else if x == 29 {
        8
    } else if x == 23 {
        9
    } else if x == 24 {
        10
    } else if x == 59 {
        11
    } else if x == 56 {
        12
    } else if x == 79 {
        13
    } else if x == 291 {
        14
    } else if x == 61 {
        15
    } else if x == 78 {
        16
    } else if x == 48 {
        17
    } else if x == 17 {
        18
    } else if x == 49 {
        19
    } else if x == 214 {
        20
    } else if x == 222 {
        21
    } else if x == 215 {
        22
    } else if x == 226 {
        23
    } else if x == 216 {
        24
    } else if x == 233 {
        25
    } else if x == 134 {
        26
    } else if x == 135 {
        27
    } else if x == 139 {
        28
    } else if x == 137 {
        29
    } else if x == 132 {
        30
    } else if x == 128 {
        31
    } else if x == 101 {
        32
    } else if x == 115 {
        33
    } else if x == 113 {
        34
    } else if x == 114 {
        35
    } else if x == 169 {
        36
    } else if x == 172 {
        37
    } else if x == 173 {
        38
    } else if x == 178 {
        39
    } else if x == 174 {
        40
    } else if x == 175 {
        41
    } else if x == 176 {
        42
    } else if x == 177 {
        43
    } else if x == 158 {
        44
    } else if x == 155 {
        45
    } else if x == 156 {
        46
    } else if x == 154 {
        47
    } else if x == 157 {
        48
    } else if x == 203 {
        49
    } else if x == 200 {
        50
    } else if x == 199 {
        51
    } else if x == 206 {
        52
    } else if x == 207 {
        53
    } else if x == 211 {
        54
    } else if x == 212 {
        55
    } else if x == 209 {
        56
    } else if x == 208 {
        57
    } else if x == 205 {
        58
    } else if x == 204 {
        59
    } else if x == 96 {
        60
    } else if x == 99 {
        61
    } else if x == 293 {
        62
    } else if x == 261 {
        63
    } else if x == 163 {
        64
    } else if x == 98 {
        65
    } else if x == 124 {
        66
    } else if x == 123 {
        67
    } else if x == 73 {
        68
    } else if x == 72 {
        69
    } else if x == 20 {
        70
    } else if x == 21 {
        71
    } else if x == 22 {
        72
    } else if x == 220 {
        73
    } else if x == 435 {
        74
    } else if x == 221 {
        75
    } else if x == 281 {
        76
    } else if x == 260 {
        77
    } else if x == 95 {
        78
    } else if x == 93 {
        79
    } else if x == 94 {
        80
    } else if x == 131 {
        81
    } else if x == 129 {
        82
    } else if x == 43 {
        83
    } else if x == 44 {
        84
    } else if x == 223 {
        85
    } else if x == 160 {
        86
    } else if x == 179 {
        87
    } else if x == 153 {
        88
    } else if x == 278 {
        89
    } else if x == 283 {
        90
    } else if x == 166 {
        91
    } else if x == 167 {
        92
    } else if x == 80 {
        93
    } else {
        -1
    }
}

/// Where syscall `x` stands in `arch`'s table (`-1` if absent).
pub open spec fn table_position(x: i64, arch: Arch) -> int {
    match arch {
        Arch::X86_64 => position_x86_64(x),
        Arch::Aarch64 => position_aarch64(x),
    }
}

/// The number of `socket(2)` on `arch`.
pub open spec fn socket_nr(arch: Arch) -> i64 {
    match arch {
        Arch::X86_64 => 41,
        Arch::Aarch64 => 198,
    }
}

/// Entries that each sit at their own position occur once each.
pub proof fn lemma_listed_distinct(s: Seq<i64>, arch: Arch)
    requires
        listed(s, arch),
    ensures
        distinct(s),
{
    assert forall|i: int, j: int| 0 <= i < j < s.len() implies s[i] != s[j] by {
        assert(table_position(s[i], arch) == i);
        assert(table_position(s[j], arch) == j);
    }
}

/// Appends `nr`, the syscall at the next position of `arch`'s table.
fn push_listed(v: &mut Vec<i64>, nr: i64, arch: Ghost<Arch>)
    requires
        listed(old(v)@, arch@),
        0 <= nr <= 435,
        table_position(nr, arch@) == old(v)@.len(),
    ensures
        final(v)@ == old(v)@.push(nr),
        listed(final(v)@, arch@),
{
    v.push(nr);
    assert(forall|i: int| 0 <= i < old(v)@.len() ==> v@[i] == old(v)@[i]);
}

/// The `inspect` table on `x86_64`: I/O on open fds, read-side path
/// lookup, memory, signals, time, read-only identity, job control, local
/// socket operations, thread setup, polling, process lifecycle and
/// read-only system information, then the legacy non-`*at` calls.
#[verifier::rlimit(80)]
fn inspect_table_x86_64() -> (r: Vec<i64>)
    ensures
        r@ == inspect_x86_64(),
        listed(r@, Arch::X86_64),
        r@.len() == 110,
{
    let mut v: Vec<i64> = Vec::new();
    // I/O on already-open fds
    push_listed(&mut v, 0, Ghost(Arch::X86_64)); // read
    push_listed(&mut v, 1, Ghost(Arch::X86_64)); // write
    push_listed(&mut v, 19, Ghost(Arch::X86_64)); // readv
    push_listed(&mut v, 20, Ghost(Arch::X86_64)); // writev
    push_listed(&mut v, 17, Ghost(Arch::X86_64)); // pread64
    push_listed(&mut v, 3, Ghost(Arch::X86_64)); // close
    push_listed(&mut v, 8, Ghost(Arch::X86_64)); // lseek
    push_listed(&mut v, 72, Ghost(Arch::X86_64)); // fcntl
    push_listed(&mut v, 16, Ghost(Arch::X86_64)); // ioctl
    push_listed(&mut v, 32, Ghost(Arch::X86_64)); // dup
    push_listed(&mut v, 292, Ghost(Arch::X86_64)); // dup3
    push_listed(&mut v, 293, Ghost(Arch::X86_64)); // pipe2
    // path lookup / metadata (read side)
    push_listed(&mut v, 257, Ghost(Arch::X86_64)); // openat
    push_listed(&mut v, 262, Ghost(Arch::X86_64)); // newfstatat
    push_listed(&mut v, 332, Ghost(Arch::X86_64)); // statx
    push_listed(&mut v, 217, Ghost(Arch::X86_64)); // getdents64
    push_listed(&mut v, 267, Ghost(Arch::X86_64)); // readlinkat
    push_listed(&mut v, 269, Ghost(Arch::X86_64)); // faccessat
    push_listed(&mut v, 79, Ghost(Arch::X86_64)); // getcwd
    push_listed(&mut v, 80, Ghost(Arch::X86_64)); // chdir
    // memory
    push_listed(&mut v, 12, Ghost(Arch::X86_64)); // brk
    push_listed(&mut v, 9, Ghost(Arch::X86_64)); // mmap
    push_listed(&mut v, 11, Ghost(Arch::X86_64)); // munmap
    push_listed(&mut v, 10, Ghost(Arch::X86_64)); // mprotect
    push_listed(&mut v, 25, Ghost(Arch::X86_64)); // mremap
    push_listed(&mut v, 28, Ghost(Arch::X86_64)); // madvise
    // signals
    push_listed(&mut v, 13, Ghost(Arch::X86_64)); // rt_sigaction
    push_listed(&mut v, 14, Ghost(Arch::X86_64)); // rt_sigprocmask
    push_listed(&mut v, 15, Ghost(Arch::X86_64)); // rt_sigreturn
    push_listed(&mut v, 128, Ghost(Arch::X86_64)); // rt_sigtimedwait
    push_listed(&mut v, 131, Ghost(Arch::X86_64)); // sigaltstack
    push_listed(&mut v, 219, Ghost(Arch::X86_64)); // restart_syscall
    // time / sleep
    push_listed(&mut v, 35, Ghost(Arch::X86_64)); // nanosleep
    push_listed(&mut v, 230, Ghost(Arch::X86_64)); // clock_nanosleep
    push_listed(&mut v, 228, Ghost(Arch::X86_64)); // clock_gettime
    push_listed(&mut v, 229, Ghost(Arch::X86_64)); // clock_getres
    push_listed(&mut v, 96, Ghost(Arch::X86_64)); // gettimeofday
    // identity (read-only)
    push_listed(&mut v, 39, Ghost(Arch::X86_64)); // getpid
    push_listed(&mut v, 110, Ghost(Arch::X86_64)); // getppid
    push_listed(&mut v, 186, Ghost(Arch::X86_64)); // gettid
    push_listed(&mut v, 102, Ghost(Arch::X86_64)); // getuid
    push_listed(&mut v, 107, Ghost(Arch::X86_64)); // geteuid
    push_listed(&mut v, 104, Ghost(Arch::X86_64)); // getgid
    push_listed(&mut v, 108, Ghost(Arch::X86_64)); // getegid
    push_listed(&mut v, 115, Ghost(Arch::X86_64)); // getgroups
    push_listed(&mut v, 121, Ghost(Arch::X86_64)); // getpgid
    push_listed(&mut v, 124, Ghost(Arch::X86_64)); // getsid
    push_listed(&mut v, 109, Ghost(Arch::X86_64)); // setpgid
    push_listed(&mut v, 112, Ghost(Arch::X86_64)); // setsid
    push_listed(&mut v, 42, Ghost(Arch::X86_64)); // connect
    push_listed(&mut v, 49, Ghost(Arch::X86_64)); // bind
    push_listed(&mut v, 53, Ghost(Arch::X86_64)); // socketpair
    push_listed(&mut v, 44, Ghost(Arch::X86_64)); // sendto
    push_listed(&mut v, 45, Ghost(Arch::X86_64)); // recvfrom
    push_listed(&mut v, 46, Ghost(Arch::X86_64)); // sendmsg
    push_listed(&mut v, 47, Ghost(Arch::X86_64)); // recvmsg
    push_listed(&mut v, 55, Ghost(Arch::X86_64)); // getsockopt
    push_listed(&mut v, 54, Ghost(Arch::X86_64)); // setsockopt
    push_listed(&mut v, 52, Ghost(Arch::X86_64)); // getpeername
    push_listed(&mut v, 51, Ghost(Arch::X86_64)); // getsockname
    // thread/runtime setup
    push_listed(&mut v, 218, Ghost(Arch::X86_64)); // set_tid_address
    push_listed(&mut v, 273, Ghost(Arch::X86_64)); // set_robust_list
    push_listed(&mut v, 334, Ghost(Arch::X86_64)); // rseq
    push_listed(&mut v, 302, Ghost(Arch::X86_64)); // prlimit64
    push_listed(&mut v, 97, Ghost(Arch::X86_64)); // getrlimit
    push_listed(&mut v, 202, Ghost(Arch::X86_64)); // futex
    push_listed(&mut v, 24, Ghost(Arch::X86_64)); // sched_yield
    push_listed(&mut v, 204, Ghost(Arch::X86_64)); // sched_getaffinity
    // wait/poll
    push_listed(&mut v, 271, Ghost(Arch::X86_64)); // ppoll
    push_listed(&mut v, 270, Ghost(Arch::X86_64)); // pselect6
    push_listed(&mut v, 291, Ghost(Arch::X86_64)); // epoll_create1
    push_listed(&mut v, 233, Ghost(Arch::X86_64)); // epoll_ctl
    push_listed(&mut v, 281, Ghost(Arch::X86_64)); // epoll_pwait
    // process lifecycle (bash spawns coreutils)
    push_listed(&mut v, 56, Ghost(Arch::X86_64)); // clone
    push_listed(&mut v, 435, Ghost(Arch::X86_64)); // clone3
    push_listed(&mut v, 59, Ghost(Arch::X86_64)); // execve
    push_listed(&mut v, 322, Ghost(Arch::X86_64)); // execveat
    push_listed(&mut v, 61, Ghost(Arch::X86_64)); // wait4
    push_listed(&mut v, 247, Ghost(Arch::X86_64)); // waitid
    push_listed(&mut v, 60, Ghost(Arch::X86_64)); // exit
    push_listed(&mut v, 231, Ghost(Arch::X86_64)); // exit_group
    push_listed(&mut v, 234, Ghost(Arch::X86_64)); // tgkill
    push_listed(&mut v, 62, Ghost(Arch::X86_64)); // kill
    // read-only filesystem/system info (df, free, cat fadvise)
    push_listed(&mut v, 137, Ghost(Arch::X86_64)); // statfs
    push_listed(&mut v, 138, Ghost(Arch::X86_64)); // fstatfs
    push_listed(&mut v, 221, Ghost(Arch::X86_64)); // fadvise64
    push_listed(&mut v, 63, Ghost(Arch::X86_64)); // uname
    push_listed(&mut v, 99, Ghost(Arch::X86_64)); // sysinfo
    push_listed(&mut v, 100, Ghost(Arch::X86_64)); // times
    push_listed(&mut v, 318, Ghost(Arch::X86_64)); // getrandom
    push_listed(&mut v, 324, Ghost(Arch::X86_64)); // membarrier
    push_listed(&mut v, 95, Ghost(Arch::X86_64)); // umask
    push_listed(&mut v, 157, Ghost(Arch::X86_64)); // prctl
    // legacy and arch-specific calls
    push_listed(&mut v, 2, Ghost(Arch::X86_64)); // open
    push_listed(&mut v, 4, Ghost(Arch::X86_64)); // stat
    push_listed(&mut v, 6, Ghost(Arch::X86_64)); // lstat
    push_listed(&mut v, 5, Ghost(Arch::X86_64)); // fstat
    push_listed(&mut v, 7, Ghost(Arch::X86_64)); // poll
    push_listed(&mut v, 23, Ghost(Arch::X86_64)); // select
    push_listed(&mut v, 21, Ghost(Arch::X86_64)); // access
    push_listed(&mut v, 33, Ghost(Arch::X86_64)); // dup2
    push_listed(&mut v, 22, Ghost(Arch::X86_64)); // pipe
    push_listed(&mut v, 57, Ghost(Arch::X86_64)); // fork
    push_listed(&mut v, 58, Ghost(Arch::X86_64)); // vfork
    push_listed(&mut v, 89, Ghost(Arch::X86_64)); // readlink
    push_listed(&mut v, 158, Ghost(Arch::X86_64)); // arch_prctl
    push_listed(&mut v, 213, Ghost(Arch::X86_64)); // epoll_create
    push_listed(&mut v, 232, Ghost(Arch::X86_64)); // epoll_wait
    push_listed(&mut v, 111, Ghost(Arch::X86_64)); // getpgrp
    push_listed(&mut v, 201, Ghost(Arch::X86_64)); // time
    v
}

/// The `inspect` table on `aarch64` (the same syscalls; aarch64 has no
/// legacy non-`*at` variants, and keeps `fstat`).
#[verifier::rlimit(80)]
fn inspect_table_aarch64() -> (r: Vec<i64>)
    ensures
        r@ == inspect_aarch64(),
        listed(r@, Arch::Aarch64),
        r@.len() == 94,
{
    let mut v: Vec<i64> = Vec::new();
    // I/O on already-open fds
    push_listed(&mut v, 63, Ghost(Arch::Aarch64)); // read
    push_listed(&mut v, 64, Ghost(Arch::Aarch64)); // write
    push_listed(&mut v, 65, Ghost(Arch::Aarch64)); // readv
    push_listed(&mut v, 66, Ghost(Arch::Aarch64)); // writev
    push_listed(&mut v, 67, Ghost(Arch::Aarch64)); // pread64
    push_listed(&mut v, 57, Ghost(Arch::Aarch64)); // close
    push_listed(&mut v, 62, Ghost(Arch::Aarch64)); // lseek
    push_listed(&mut v, 25, Ghost(Arch::Aarch64)); // fcntl
    push_listed(&mut v, 29, Ghost(Arch::Aarch64)); // ioctl
    push_listed(&mut v, 23, Ghost(Arch::Aarch64)); // dup
    push_listed(&mut v, 24, Ghost(Arch::Aarch64)); // dup3
    push_listed(&mut v, 59, Ghost(Arch::Aarch64)); // pipe2
    // path lookup / metadata (read side)
    push_listed(&mut v, 56, Ghost(Arch::Aarch64)); // openat
    push_listed(&mut v, 79, Ghost(Arch::Aarch64)); // newfstatat
    push_listed(&mut v, 291, Ghost(Arch::Aarch64)); // statx
    push_listed(&mut v, 61, Ghost(Arch::Aarch64)); // getdents64
    push_listed(&mut v, 78, Ghost(Arch::Aarch64)); // readlinkat
    push_listed(&mut v, 48, Ghost(Arch::Aarch64)); // faccessat
    push_listed(&mut v, 17, Ghost(Arch::Aarch64)); // getcwd
    push_listed(&mut v, 49, Ghost(Arch::Aarch64)); // chdir
    // memory
    push_listed(&mut v, 214, Ghost(Arch::Aarch64)); // brk
    push_listed(&mut v, 222, Ghost(Arch::Aarch64)); // mmap
    push_listed(&mut v, 215, Ghost(Arch::Aarch64)); // munmap
    push_listed(&mut v, 226, Ghost(Arch::Aarch64)); // mprotect
    push_listed(&mut v, 216, Ghost(Arch::Aarch64)); // mremap
    push_listed(&mut v, 233, Ghost(Arch::Aarch64)); // madvise
    // signals
    push_listed(&mut v, 134, Ghost(Arch::Aarch64)); // rt_sigaction
    push_listed(&mut v, 135, Ghost(Arch::Aarch64)); // rt_sigprocmask
    push_listed(&mut v, 139, Ghost(Arch::Aarch64)); // rt_sigreturn
    push_listed(&mut v, 137, Ghost(Arch::Aarch64)); // rt_sigtimedwait
    push_listed(&mut v, 132, Ghost(Arch::Aarch64)); // sigaltstack
    push_listed(&mut v, 128, Ghost(Arch::Aarch64)); // restart_syscall
    // time / sleep
    push_listed(&mut v, 101, Ghost(Arch::Aarch64)); // nanosleep
    push_listed(&mut v, 115, Ghost(Arch::Aarch64)); // clock_nanosleep
    push_listed(&mut v, 113, Ghost(Arch::Aarch64)); // clock_gettime
    push_listed(&mut v, 114, Ghost(Arch::Aarch64)); // clock_getres
    push_listed(&mut v, 169, Ghost(Arch::Aarch64)); // gettimeofday
    // identity (read-only)
    push_listed(&mut v, 172, Ghost(Arch::Aarch64)); // getpid
    push_listed(&mut v, 173, Ghost(Arch::Aarch64)); // getppid
    push_listed(&mut v, 178, Ghost(Arch::Aarch64)); // gettid
    push_listed(&mut v, 174, Ghost(Arch::Aarch64)); // getuid
    push_listed(&mut v, 175, Ghost(Arch::Aarch64)); // geteuid
    push_listed(&mut v, 176, Ghost(Arch::Aarch64)); // getgid
    push_listed(&mut v, 177, Ghost(Arch::Aarch64)); // getegid
    push_listed(&mut v, 158, Ghost(Arch::Aarch64)); // getgroups
    push_listed(&mut v, 155, Ghost(Arch::Aarch64)); // getpgid
    push_listed(&mut v, 156, Ghost(Arch::Aarch64)); // getsid
    push_listed(&mut v, 154, Ghost(Arch::Aarch64)); // setpgid
    push_listed(&mut v, 157, Ghost(Arch::Aarch64)); // setsid
    push_listed(&mut v, 203, Ghost(Arch::Aarch64)); // connect
    push_listed(&mut v, 200, Ghost(Arch::Aarch64)); // bind
    push_listed(&mut v, 199, Ghost(Arch::Aarch64)); // socketpair
    push_listed(&mut v, 206, Ghost(Arch::Aarch64)); // sendto
    push_listed(&mut v, 207, Ghost(Arch::Aarch64)); // recvfrom
    push_listed(&mut v, 211, Ghost(Arch::Aarch64)); // sendmsg
    push_listed(&mut v, 212, Ghost(Arch::Aarch64)); // recvmsg
    push_listed(&mut v, 209, Ghost(Arch::Aarch64)); // getsockopt
    push_listed(&mut v, 208, Ghost(Arch::Aarch64)); // setsockopt
    push_listed(&mut v, 205, Ghost(Arch::Aarch64)); // getpeername
    push_listed(&mut v, 204, Ghost(Arch::Aarch64)); // getsockname
    // thread/runtime setup
    push_listed(&mut v, 96, Ghost(Arch::Aarch64)); // set_tid_address
    push_listed(&mut v, 99, Ghost(Arch::Aarch64)); // set_robust_list
    push_listed(&mut v, 293, Ghost(Arch::Aarch64)); // rseq
    push_listed(&mut v, 261, Ghost(Arch::Aarch64)); // prlimit64
    push_listed(&mut v, 163, Ghost(Arch::Aarch64)); // getrlimit
    push_listed(&mut v, 98, Ghost(Arch::Aarch64)); // futex
    push_listed(&mut v, 124, Ghost(Arch::Aarch64)); // sched_yield
    push_listed(&mut v, 123, Ghost(Arch::Aarch64)); // sched_getaffinity
    // wait/poll
    push_listed(&mut v, 73, Ghost(Arch::Aarch64)); // ppoll
    push_listed(&mut v, 72, Ghost(Arch::Aarch64)); // pselect6
    push_listed(&mut v, 20, Ghost(Arch::Aarch64)); // epoll_create1
    push_listed(&mut v, 21, Ghost(Arch::Aarch64)); // epoll_ctl
    push_listed(&mut v, 22, Ghost(Arch::Aarch64)); // epoll_pwait
    // process lifecycle (bash spawns coreutils)
    push_listed(&mut v, 220, Ghost(Arch::Aarch64)); // clone
    push_listed(&mut v, 435, Ghost(Arch::Aarch64)); // clone3
    push_listed(&mut v, 221, Ghost(Arch::Aarch64)); // execve
    push_listed(&mut v, 281, Ghost(Arch::Aarch64)); // execveat
    push_listed(&mut v, 260, Ghost(Arch::Aarch64)); // wait4
    push_listed(&mut v, 95, Ghost(Arch::Aarch64)); // waitid
    push_listed(&mut v, 93, Ghost(Arch::Aarch64)); // exit
    push_listed(&mut v, 94, Ghost(Arch::Aarch64)); // exit_group
    push_listed(&mut v, 131, Ghost(Arch::Aarch64)); // tgkill
    push_listed(&mut v, 129, Ghost(Arch::Aarch64)); // kill
    // read-only filesystem/system info (df, free, cat fadvise)
    push_listed(&mut v, 43, Ghost(Arch::Aarch64)); // statfs
    push_listed(&mut v, 44, Ghost(Arch::Aarch64)); // fstatfs
    push_listed(&mut v, 223, Ghost(Arch::Aarch64)); // fadvise64
    push_listed(&mut v, 160, Ghost(Arch::Aarch64)); // uname
    push_listed(&mut v, 179, Ghost(Arch::Aarch64)); // sysinfo
    push_listed(&mut v, 153, Ghost(Arch::Aarch64)); // times
    push_listed(&mut v, 278, Ghost(Arch::Aarch64)); // getrandom
    push_listed(&mut v, 283, Ghost(Arch::Aarch64)); // membarrier
    push_listed(&mut v, 166, Ghost(Arch::Aarch64)); // umask
    push_listed(&mut v, 167, Ghost(Arch::Aarch64)); // prctl
    // legacy and arch-specific calls
    push_listed(&mut v, 80, Ghost(Arch::Aarch64)); // fstat
    v
}

fn unknown_profile(profile: &str) -> (r: SandboxError)
    ensures
        r matches SandboxError::UnknownProfile(m) && m@ == profile@,
{
    SandboxError::UnknownProfile(owned(profile))
}

fn is_inspect(profile: &str) -> (r: bool)
    ensures
        r == profile_known(profile@),
{
    let given = chars_of(profile);
    let known = chars_of("inspect");
    proof {
        reveal_strlit("inspect");
    }
    assert(known@ =~= inspect_name());
    chars_eq(given.as_slice(), known.as_slice())
}

/// Resolves a profile name to its unconditionally allowed syscalls on
/// `arch`, in the profile's order (the calls common to both architectures,
/// then the architecture's own), none twice. Any name but `inspect` is
/// refused.
pub fn allowlist_for(profile: &str, arch: Arch) -> (r: Result<Vec<i64>, SandboxError>)
    ensures
        r is Ok <==> profile_known(profile@),
        r matches Ok(v) ==> v@ == inspect_syscalls(arch) && distinct(v@),
        r matches Ok(v) ==> v@.len() <= 436 && forall|i: int| 0 <= i < v@.len() ==> 0 <= #[trigger] v@[i] <= 435,
        r matches Err(e) ==> (e matches SandboxError::UnknownProfile(m) && m@ == profile@),
{
    if !is_inspect(profile) {
        return Err(unknown_profile(profile));
    }
    let v = match arch {
        Arch::X86_64 => inspect_table_x86_64(),
        Arch::Aarch64 => inspect_table_aarch64(),
    };
    proof {
        lemma_listed_distinct(v@, arch);
    }
    Ok(v)
}

/// One argument condition of a seccomp rule: argument `arg` of the
/// syscall, read as a 32-bit int, equals `value`.
#[derive(Debug, Clone, Copy, PartialEq, Eq, Structural)]
pub struct ArgCondition {
    /// Argument index.
    pub arg: u8,
    /// The value the argument must equal.
    pub value: u64,
}

/// The condition "the `domain` argument of `socket(2)` equals `family`".
pub open spec fn domain_is(family: u64) -> ArgCondition {
    ArgCondition { arg: 0, value: family }
}

/// A rule plan as plain values: `(syscall, rules)` pairs, each rule the
/// conditions that must all hold.
pub open spec fn plan_view(p: Seq<(i64, Vec<Vec<ArgCondition>>)>) -> Seq<(i64, Seq<Seq<ArgCondition>>)> {
    p.map_values(|e: (i64, Vec<Vec<ArgCondition>>)| (e.0, e.1@.map_values(|r: Vec<ArgCondition>| r@)))
}

/// The rule plan of the `inspect` profile on `arch`: each allowlisted
/// syscall with no rule (allowed outright), then `socket` with one rule
/// per permitted address family (`AF_UNIX`, then `AF_NETLINK`) on its
/// `domain` argument. Any other family, notably `AF_INET`, matches no rule
/// and is killed.
pub open spec fn inspect_plan(arch: Arch) -> Seq<(i64, Seq<Seq<ArgCondition>>)> {
    inspect_syscalls(arch).map_values(|n: i64| (n, Seq::<Seq<ArgCondition>>::empty())).push(
        (socket_nr(arch), seq![seq![domain_is(AF_UNIX)], seq![domain_is(AF_NETLINK)]]),
    )
}

/// The full rule map for a profile (see [`inspect_plan`]).
pub fn rules_for(profile: &str, arch: Arch) -> (r: Result<Vec<(i64, Vec<Vec<ArgCondition>>)>, SandboxError>)
    ensures
        r is Ok <==> profile_known(profile@),
        r matches Ok(rs) ==> plan_view(rs@) == inspect_plan(arch),
        r matches Err(e) ==> (e matches SandboxError::UnknownProfile(m) && m@ == profile@),
{
    let allow = allowlist_for(profile, arch)?;
    let mut out: Vec<(i64, Vec<Vec<ArgCondition>>)> = Vec::new();
    let ghost table = inspect_syscalls(arch);
    let mut i: usize = 0;
    while i < allow.len()
        invariant
            i <= allow@.len(),
            allow@ == table,
            out@.len() == i,
            forall|j: int| 0 <= j < i ==> (#[trigger] out@[j]).0 == table[j] && out@[j].1@.len() == 0,
        decreases allow.len() - i,
    {
        out.push((allow[i], Vec::new()));
        i = i + 1;
    }
    let socket: i64 = match arch {
        Arch::X86_64 => 41,
        Arch::Aarch64 => 198,
    };
    let mut unix: Vec<ArgCondition> = Vec::new();
    unix.push(ArgCondition { arg: 0, value: AF_UNIX });
    let mut netlink: Vec<ArgCondition> = Vec::new();
    netlink.push(ArgCondition { arg: 0, value: AF_NETLINK });
    let mut families: Vec<Vec<ArgCondition>> = Vec::new();
    families.push(unix);
    families.push(netlink);
    let ghost before = out@;
    out.push((socket, families));
    proof {
        assert(forall|j: int| 0 <= j < i ==> out@[j] == before[j]);
        let want = inspect_plan(arch);
        let got = plan_view(out@);
        assert(got.len() == want.len());
        assert forall|j: int| 0 <= j < want.len() implies got[j] == want[j] by {
            if j < i {
                assert(out@[j].1@.map_values(|r: Vec<ArgCondition>| r@) =~= Seq::<Seq<ArgCondition>>::empty());
            } else {
                assert(families@[0]@ =~= seq![domain_is(AF_UNIX)]);
                assert(families@[1]@ =~= seq![domain_is(AF_NETLINK)]);
                assert(families@.map_values(|r: Vec<ArgCondition>| r@) =~= seq![
                    seq![domain_is(AF_UNIX)],
                    seq![domain_is(AF_NETLINK)],
                ]);
            }
        }
        assert(got =~= want);
    }
    Ok(out)
}

/// What seccompiler can lower without refusing or failing: every syscall
/// number fits in a `u32`, every rule has between 1 and 65535 conditions,
/// and every condition names one of the six syscall arguments.
pub open spec fn lowerable(pv: Seq<(i64, Seq<Seq<ArgCondition>>)>) -> bool {
    &&& forall|i: int| 0 <= i < pv.len() ==> 0 <= #[trigger] pv[i].0 <= u32::MAX
    &&& forall|i: int, k: int|
        0 <= i < pv.len() && 0 <= k < pv[i].1.len() ==> 0 < #[trigger] pv[i].1[k].len() <= 0xffff
    &&& forall|i: int, k: int, c: int|
        0 <= i < pv.len() && 0 <= k < pv[i].1.len() && 0 <= c < pv[i].1[k].len() ==> #[trigger] pv[i].1[k][c].arg
            <= 5
}

/// Instructions a rule chain takes at most: per rule two entry jumps, at
/// most nine per condition (the comparison, up to six, and up to three
/// helper jumps) and the match action.
pub open spec fn rules_cost(c: Seq<Seq<ArgCondition>>) -> int
    decreases c.len(),
{
    if c.len() == 0 {
        0
    } else {
        rules_cost(c.drop_last()) + 3 + 9 * c.last().len()
    }
}

/// Instructions one syscall's entry takes at most: the number comparison
/// and the default, with either the three-instruction unconditional allow
/// or the rule chain between them.
pub open spec fn syscall_cost(c: Seq<Seq<ArgCondition>>) -> int {
    2 + if c.len() == 0 {
        3
    } else {
        rules_cost(c)
    }
}

/// The entries' instructions, summed.
pub open spec fn entries_cost(pv: Seq<(i64, Seq<Seq<ArgCondition>>)>) -> int
    decreases pv.len(),
{
    if pv.len() == 0 {
        0
    } else {
        entries_cost(pv.drop_last()) + syscall_cost(pv.last().1)
    }
}

/// An upper bound on the program length seccompiler emits for `pv`: the
/// three-instruction architecture check, the syscall-number load and the
/// final default, plus every entry's cost. A later entry for a syscall
/// replaces an earlier one, which only shortens the program.
pub open spec fn program_bound(pv: Seq<(i64, Seq<Seq<ArgCondition>>)>) -> int {
    5 + entries_cost(pv)
}

/// The BPF program (each instruction as `(code, jt, jf, k)`) seccompiler
/// emits for the rule plan `pv` with actions `mismatch` and `on_match` on
/// `arch`, whatever its length.
pub uninterp spec fn bpf_of(pv: Seq<(i64, Seq<Seq<ArgCondition>>)>, mismatch: FilterAction, on_match: FilterAction, arch: Arch) -> Seq<(u16, u8, u8, u32)>;

/// Lowers a rule plan to BPF with seccompiler: `SeccompCondition::new`
/// (argument `arg` as a 32-bit int, equal to `value`) and
/// `SeccompRule::new` for each rule, `SeccompFilter::new` over the map the
/// `(syscall, rules)` pairs make, with the given actions for a syscall
/// that matches no rule and one that matches, then `BpfProgram::try_from`.
/// `SeccompFilter::new` refuses equal actions and `try_from` refuses a
/// program of 4096 instructions or more; the program is a function of the
/// plan, the actions and the architecture, and its length stays within
/// [`program_bound`]. A syscall number outside `u32`, an empty rule or an
/// argument index above 5 would make the calls panic, so `requires` leaves
/// them out.
#[verifier::external_body]
fn lower_plan(plan: &Vec<(i64, Vec<Vec<ArgCondition>>)>, mismatch: FilterAction, on_match: FilterAction, arch: Arch) -> (res: Result<Vec<(u16, u8, u8, u32)>, seccompiler::BackendError>)
    requires
        lowerable(plan_view(plan@)),
    ensures
        res is Ok <==> (mismatch != on_match && bpf_of(plan_view(plan@), mismatch, on_match, arch).len() < 4096),
        res matches Ok(p) ==> p@ == bpf_of(plan_view(plan@), mismatch, on_match, arch),
        (mismatch != on_match && program_bound(plan_view(plan@)) < 4096) ==> res is Ok,
{
    let act = |a| match a { FilterAction::Allow => SeccompAction::Allow, FilterAction::KillProcess => SeccompAction::KillProcess };
    let rules = plan.iter().map(|(nr, chain)| (*nr, chain.iter().map(|r| SeccompRule::new(r.iter().map(|c| SeccompCondition::new(c.arg, SeccompCmpArgLen::Dword, SeccompCmpOp::Eq, c.value).unwrap()).collect()).unwrap()).collect())).collect();
    Ok(BpfProgram::try_from(SeccompFilter::new(rules, act(mismatch), act(on_match), match arch {
        Arch::X86_64 => TargetArch::x86_64,
        Arch::Aarch64 => TargetArch::aarch64,
    })?)?.iter().map(|i| (i.code, i.jt, i.jf, i.k)).collect())
}

/// The text of a seccompiler error (its `Display`).
#[verifier::external_body]
fn seccomp_error_text(e: &seccompiler::BackendError) -> String {
    e.to_string()
}

/// Entries with no rules cost five instructions each.
proof fn lemma_unconditional_cost(pv: Seq<(i64, Seq<Seq<ArgCondition>>)>)
    requires
        forall|i: int| 0 <= i < pv.len() ==> (#[trigger] pv[i]).1.len() == 0,
    ensures
        entries_cost(pv) == 5 * pv.len(),
    decreases pv.len(),
{
    if pv.len() > 0 {
        let rest = pv.drop_last();
        assert forall|i: int| 0 <= i < rest.len() implies (#[trigger] rest[i]).1.len() == 0 by {
            assert(rest[i] == pv[i]);
        }
        lemma_unconditional_cost(rest);
        assert(pv.last() == pv[pv.len() - 1]);
    }
}

/// The `inspect` plan is within seccompiler's limits on either
/// architecture.
proof fn lemma_inspect_plan_lowerable(arch: Arch, t: Seq<i64>)
    requires
        t == inspect_syscalls(arch),
        t.len() <= 436,
        forall|i: int| 0 <= i < t.len() ==> 0 <= #[trigger] t[i] <= 435,
    ensures
        lowerable(inspect_plan(arch)),
        program_bound(inspect_plan(arch)) < 4096,
{
    let head = t.map_values(|n: i64| (n, Seq::<Seq<ArgCondition>>::empty()));
    let sock: Seq<Seq<ArgCondition>> = seq![seq![domain_is(AF_UNIX)], seq![domain_is(AF_NETLINK)]];
    let pv = inspect_plan(arch);
    assert(pv == head.push((socket_nr(arch), sock)));
    assert forall|i: int| 0 <= i < head.len() implies (#[trigger] head[i]).1.len() == 0 by {}
    lemma_unconditional_cost(head);
    assert(pv.drop_last() =~= head);
    assert(rules_cost(sock) == 24) by {
        reveal_with_fuel(rules_cost, 3);
        assert(sock.drop_last() =~= seq![seq![domain_is(AF_UNIX)]]);
        assert(sock.drop_last().drop_last() =~= Seq::<Seq<ArgCondition>>::empty());
    }
    assert(entries_cost(pv) == entries_cost(head) + syscall_cost(sock));
    assert forall|i: int| 0 <= i < pv.len() implies 0 <= #[trigger] pv[i].0 <= u32::MAX by {
        if i < head.len() {
            assert(pv[i] == head[i]);
        }
    }
    assert forall|i: int, k: int| 0 <= i < pv.len() && 0 <= k < pv[i].1.len() implies 0 < #[trigger] pv[i].1[k].len()
        <= 0xffff by {
        if i < head.len() {
            assert(pv[i] == head[i]);
        }
    }
    assert forall|i: int, k: int, c: int|
        0 <= i < pv.len() && 0 <= k < pv[i].1.len() && 0 <= c < pv[i].1[k].len() implies #[trigger] pv[i].1[k][c].arg
        <= 5 by {
        if i < head.len() {
            assert(pv[i] == head[i]);
        }
    }
}

/// A named profile resolved to a compiled BPF program, ready to install on
/// the action just before it runs.
#[derive(Debug, Clone, PartialEq, Eq)]
pub struct SeccompProfile {
    name: String,
    program: Vec<(u16, u8, u8, u32)>,
}

impl SeccompProfile {
    /// The profile's name.
    pub closed spec fn spec_name(self) -> Seq<char> {
        self.name@
    }

    /// The compiled program.
    pub closed spec fn spec_program(self) -> Seq<(u16, u8, u8, u32)> {
        self.program@
    }

    /// Compiles `profile` for `arch` into a program whose default is to
    /// kill the process: a syscall outside the profile never gets to
    /// observe and adapt, it dies.
    ///
    /// Errors with `UnknownProfile` for any name this build does not define
    /// (fail-closed: never resolved to a permissive filter). Every profile
    /// this build defines is within seccompiler's limits, so it always
    /// lowers.
    pub fn compile(profile: &str, arch: Arch) -> (r: Result<SeccompProfile, SandboxError>)
        ensures
            r is Ok <==> profile_known(profile@),
            r matches Err(e) ==> (e matches SandboxError::UnknownProfile(m) && m@ == profile@),
            r matches Ok(p) ==> p.spec_name() == profile@ && p.spec_program() == bpf_of(
                inspect_plan(arch),
                FilterAction::KillProcess,
                FilterAction::Allow,
                arch,
            ),
    {
        let table = allowlist_for(profile, arch)?;
        let plan = rules_for(profile, arch)?;
        proof {
            lemma_inspect_plan_lowerable(arch, table@);
        }
        match lower_plan(&plan, FilterAction::KillProcess, FilterAction::Allow, arch) {
            Ok(program) => Ok(SeccompProfile { name: owned(profile), program }),
            Err(e) => Err(SandboxError::SeccompCompile(seccomp_error_text(&e))),
        }
    }

    /// The profile name (for audit and diagnostics).
    pub fn name(&self) -> (r: &str)
        ensures
            r@ == self.spec_name(),
    {
        self.name.as_str()
    }

    /// The compiled program, each instruction as `(code, jt, jf, k)`.
    pub fn program(&self) -> (r: &[(u16, u8, u8, u32)])
        ensures
            r@ == self.spec_program(),
    {
        self.program.as_slice()
    }

    /// The set of profile names this build recognizes.
    pub fn known() -> (r: Vec<String>)
        ensures
            r@.len() == 1,
            r@[0]@ == inspect_name(),
    {
        proof {
            reveal_strlit("inspect");
        }
        let mut v: Vec<String> = Vec::new();
        v.push(owned("inspect"));
        v
    }
}

} // verus!
