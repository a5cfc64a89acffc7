//! The table of system-call names of x86-64 Linux.

use vstd::prelude::*;

verus! {

/// How many system calls the table names: the numbers below this are valid.
pub const SYSCALL_COUNT: u64 = 335;

/// The name of each system call, by its number; the empty string for a
/// number that is none.
pub open spec fn table(nr: u64) -> &'static str {
    match nr {
        0 => "read",
        1 => "write",
        2 => "open",
        3 => "close",
        4 => "stat",
        5 => "fstat",
        6 => "lstat",
        7 => "poll",
        8 => "lseek",
        9 => "mmap",
        10 => "mprotect",
        11 => "munmap",
        12 => "brk",
        13 => "rt_sigaction",
        14 => "rt_sigprocmask",
        15 => "rt_sigreturn",
        16 => "ioctl",
        17 => "pread64",
        18 => "pwrite64",
        19 => "readv",
        20 => "writev",
        21 => "access",
        22 => "pipe",
        23 => "select",
        24 => "sched_yield",
        25 => "mremap",
        26 => "msync",
        27 => "mincore",
        28 => "madvise",
        29 => "shmget",
        30 => "shmat",
        31 => "shmctl",
        32 => "dup",
        33 => "dup2",
        34 => "pause",
        35 => "nanosleep",
        36 => "getitimer",
        37 => "alarm",
        38 => "setitimer",
        39 => "getpid",
        40 => "sendfile",
        41 => "socket",
        42 => "connect",
        43 => "accept",
        44 => "sendto",
        45 => "recvfrom",
        46 => "sendmsg",
        47 => "recvmsg",
        48 => "shutdown",
        49 => "bind",
        50 => "listen",
        51 => "getsockname",
        52 => "getpeername",
        53 => "socketpair",
        54 => "setsockopt",
        55 => "getsockopt",
        56 => "clone",
        57 => "fork",
        58 => "vfork",
        59 => "execve",
        60 => "exit",
        61 => "wait4",
        62 => "kill",
        63 => "uname",
        64 => "semget",
        65 => "semop",
        66 => "semctl",
        67 => "shmdt",
        68 => "msgget",
        69 => "msgsnd",
        70 => "msgrcv",
        71 => "msgctl",
        72 => "fcntl",
        73 => "flock",
        74 => "fsync",
        75 => "fdatasync",
        76 => "truncate",
        77 => "ftruncate",
        78 => "getdents",
        79 => "getcwd",
        80 => "chdir",
        81 => "fchdir",
        82 => "rename",
        83 => "mkdir",
        84 => "rmdir",
        85 => "creat",
        86 => "link",
        87 => "unlink",
        88 => "symlink",
        89 => "readlink",
        90 => "chmod",
        91 => "fchmod",
        92 => "chown",
        93 => "fchown",
        94 => "lchown",
        95 => "umask",
        96 => "gettimeofday",
        97 => "getrlimit",
        98 => "getrusage",
        99 => "sysinfo",
        100 => "times",
        101 => "ptrace",
        102 => "getuid",
        103 => "syslog",
        104 => "getgid",
        105 => "setuid",
        106 => "setgid",
        107 => "geteuid",
        108 => "getegid",
        109 => "setpgid",
        110 => "getppid",
        111 => "getpgrp",
        112 => "setsid",
        113 => "setreuid",
        114 => "setregid",
        115 => "getgroups",
        116 => "setgroups",
        117 => "setresuid",
        118 => "getresuid",
        119 => "setresgid",
        120 => "getresgid",
        121 => "getpgid",
        122 => "setfsuid",
        123 => "setfsgid",
        124 => "getsid",
        125 => "capget",
        126 => "capset",
        127 => "rt_sigpending",
        128 => "rt_sigtimedwait",
        129 => "rt_sigqueueinfo",
        130 => "rt_sigsuspend",
        131 => "sigaltstack",
        132 => "utime",
        133 => "mknod",
        134 => "uselib",
        135 => "personality",
        136 => "ustat",
        137 => "statfs",
        138 => "fstatfs",
        139 => "sysfs",
        140 => "getpriority",
        141 => "setpriority",
        142 => "sched_setparam",
        143 => "sched_getparam",
        144 => "sched_setscheduler",
        145 => "sched_getscheduler",
        146 => "sched_get_priority_max",
        147 => "sched_get_priority_min",
        148 => "sched_rr_get_interval",
        149 => "mlock",
        150 => "munlock",
        151 => "mlockall",
        152 => "munlockall",
        153 => "vhangup",
        154 => "modify_ldt",
        155 => "pivot_root",
        156 => "_sysctl",
        157 => "prctl",
        158 => "arch_prctl",
        159 => "adjtimex",
        160 => "setrlimit",
        161 => "chroot",
        162 => "sync",
        163 => "acct",
        164 => "settimeofday",
        165 => "mount",
        166 => "umount2",
        167 => "swapon",
        168 => "swapoff",
        169 => "reboot",
        170 => "sethostname",
        171 => "setdomainname",
        172 => "iopl",
        173 => "ioperm",
        174 => "create_module",
        175 => "init_module",
        176 => "delete_module",
        177 => "get_kernel_syms",
        178 => "query_module",
        179 => "quotactl",
        180 => "nfsservctl",
        181 => "getpmsg",
        182 => "putpmsg",
        183 => "afs_syscall",
        184 => "tuxcall",
        185 => "security",
        186 => "gettid",
        187 => "readahead",
        188 => "setxattr",
        189 => "lsetxattr",
        190 => "fsetxattr",
        191 => "getxattr",
        192 => "lgetxattr",
        193 => "fgetxattr",
        194 => "listxattr",
        195 => "llistxattr",
        196 => "flistxattr",
        197 => "removexattr",
        198 => "lremovexattr",
        199 => "fremovexattr",
        200 => "tkill",
        201 => "time",
        202 => "futex",
        203 => "sched_setaffinity",
        204 => "sched_getaffinity",
        205 => "set_thread_area",
        206 => "io_setup",
        207 => "io_destroy",
        208 => "io_getevents",
        209 => "io_submit",
        210 => "io_cancel",
        211 => "get_thread_area",
        212 => "lookup_dcookie",
        213 => "epoll_create",
        214 => "epoll_ctl_old",
        215 => "epoll_wait_old",
        216 => "remap_file_pages",
        217 => "getdents64",
        218 => "set_tid_address",
        219 => "restart_syscall",
        220 => "semtimedop",
        221 => "fadvise64",
        222 => "timer_create",
        223 => "timer_settime",
        224 => "timer_gettime",
        225 => "timer_getoverrun",
        226 => "timer_delete",
        227 => "clock_settime",
        228 => "clock_gettime",
        229 => "clock_getres",
        230 => "clock_nanosleep",
        231 => "exit_group",
        232 => "epoll_wait",
        233 => "epoll_ctl",
        234 => "tgkill",
        235 => "utimes",
        236 => "vserver",
        237 => "mbind",
        238 => "set_mempolicy",
        239 => "get_mempolicy",
        240 => "mq_open",
        241 => "mq_unlink",
        242 => "mq_timedsend",
        243 => "mq_timedreceive",
        244 => "mq_notify",
        245 => "mq_getsetattr",
        246 => "kexec_load",
        247 => "waitid",
        248 => "add_key",
        249 => "request_key",
        250 => "keyctl",
        251 => "ioprio_set",
        252 => "ioprio_get",
        253 => "inotify_init",
        254 => "inotify_add_watch",
        255 => "inotify_rm_watch",
        256 => "migrate_pages",
        257 => "openat",
        258 => "mkdirat",
        259 => "mknodat",
        260 => "fchownat",
        261 => "futimesat",
        262 => "newfstatat",
        263 => "unlinkat",
        264 => "renameat",
        265 => "linkat",
        266 => "symlinkat",
        267 => "readlinkat",
        268 => "fchmodat",
        269 => "faccessat",
        270 => "pselect6",
        271 => "ppoll",
        272 => "unshare",
        273 => "set_robust_list",
        274 => "get_robust_list",
        275 => "splice",
        276 => "tee",
        277 => "sync_file_range",
        278 => "vmsplice",
        279 => "move_pages",
        280 => "utimensat",
        281 => "epoll_pwait",
        282 => "signalfd",
        283 => "timerfd_create",
        284 => "eventfd",
        285 => "fallocate",
        286 => "timerfd_settime",
        287 => "timerfd_gettime",
        288 => "accept4",
        289 => "signalfd4",
        290 => "eventfd2",
        291 => "epoll_create1",
        292 => "dup3",
        293 => "pipe2",
        294 => "inotify_init1",
        295 => "preadv",
        296 => "pwritev",
        297 => "rt_tgsigqueueinfo",
        298 => "perf_event_open",
        299 => "recvmmsg",
        300 => "fanotify_init",
        301 => "fanotify_mark",
        302 => "prlimit64",
        303 => "name_to_handle_at",
        304 => "open_by_handle_at",
        305 => "clock_adjtime",
        306 => "syncfs",
        307 => "sendmmsg",
        308 => "setns",
        309 => "getcpu",
        310 => "process_vm_readv",
        311 => "process_vm_writev",
        312 => "kcmp",
        313 => "finit_module",
        314 => "sched_setattr",
        315 => "sched_getattr",
        316 => "renameat2",
        317 => "seccomp",
        318 => "getrandom",
        319 => "memfd_create",
        320 => "kexec_file_load",
        321 => "bpf",
        322 => "execveat",
        323 => "userfaultfd",
        324 => "membarrier",
        325 => "mlock2",
        326 => "copy_file_range",
        327 => "preadv2",
        328 => "pwritev2",
        329 => "pkey_mprotect",
        330 => "pkey_alloc",
        331 => "pkey_free",
        332 => "statx",
        333 => "io_pgetevents",
        334 => "rseq",
        _ => "",
    }
}

/// The name that the table gives to system call `nr`.
pub open spec fn syscall_name(nr: int) -> Seq<char> {
    table(nr as u64)@
}

/// Whether `name` is the name of a system call.
pub open spec fn is_syscall_name(name: Seq<char>) -> bool {
    exists|nr: int| 0 <= nr < SYSCALL_COUNT && syscall_name(nr) == name
}

/// The name of system call `nr`.
pub fn name_for(nr: u64) -> (name: &'static str)
    requires
        nr < SYSCALL_COUNT,
    ensures
        name == table(nr),
        name@ == syscall_name(nr as int),
        name@.len() > 0,
{
    proof {
        names_are_nonempty(nr as int);
    }
    match nr {
        0 => "read",
        1 => "write",
        2 => "open",
        3 => "close",
        4 => "stat",
        5 => "fstat",
        6 => "lstat",
        7 => "poll",
        8 => "lseek",
        9 => "mmap",
        10 => "mprotect",
        11 => "munmap",
        12 => "brk",
        13 => "rt_sigaction",
        14 => "rt_sigprocmask",
        15 => "rt_sigreturn",
        16 => "ioctl",
        17 => "pread64",
        18 => "pwrite64",
        19 => "readv",
        20 => "writev",
        21 => "access",
        22 => "pipe",
        23 => "select",
        24 => "sched_yield",
        25 => "mremap",
        26 => "msync",
        27 => "mincore",
        28 => "madvise",
        29 => "shmget",
        30 => "shmat",
        31 => "shmctl",
        32 => "dup",
        33 => "dup2",
        34 => "pause",
        35 => "nanosleep",
        36 => "getitimer",
        37 => "alarm",
        38 => "setitimer",
        39 => "getpid",
        40 => "sendfile",
        41 => "socket",
        42 => "connect",
        43 => "accept",
        44 => "sendto",
        45 => "recvfrom",
        46 => "sendmsg",
        47 => "recvmsg",
        48 => "shutdown",
        49 => "bind",
        50 => "listen",
        51 => "getsockname",
        52 => "getpeername",
        53 => "socketpair",
        54 => "setsockopt",
        55 => "getsockopt",
        56 => "clone",
        57 => "fork",
        58 => "vfork",
        59 => "execve",
        60 => "exit",
        61 => "wait4",
        62 => "kill",
        63 => "uname",
        64 => "semget",
        65 => "semop",
        66 => "semctl",
        67 => "shmdt",
        68 => "msgget",
        69 => "msgsnd",
        70 => "msgrcv",
        71 => "msgctl",
        72 => "fcntl",
        73 => "flock",
        74 => "fsync",
        75 => "fdatasync",
        76 => "truncate",
        77 => "ftruncate",
        78 => "getdents",
        79 => "getcwd",
        80 => "chdir",
        81 => "fchdir",
        82 => "rename",
        83 => "mkdir",
        84 => "rmdir",
        85 => "creat",
        86 => "link",
        87 => "unlink",
        88 => "symlink",
        89 => "readlink",
        90 => "chmod",
        91 => "fchmod",
        92 => "chown",
        93 => "fchown",
        94 => "lchown",
        95 => "umask",
        96 => "gettimeofday",
        97 => "getrlimit",
        98 => "getrusage",
        99 => "sysinfo",
        100 => "times",
        101 => "ptrace",
        102 => "getuid",
        103 => "syslog",
        104 => "getgid",
        105 => "setuid",
        106 => "setgid",
        107 => "geteuid",
        108 => "getegid",
        109 => "setpgid",
        110 => "getppid",
        111 => "getpgrp",
        112 => "setsid",
        113 => "setreuid",
        114 => "setregid",
        115 => "getgroups",
        116 => "setgroups",
        117 => "setresuid",
        118 => "getresuid",
        119 => "setresgid",
        120 => "getresgid",
        121 => "getpgid",
        122 => "setfsuid",
        123 => "setfsgid",
        124 => "getsid",
        125 => "capget",
        126 => "capset",
        127 => "rt_sigpending",
        128 => "rt_sigtimedwait",
        129 => "rt_sigqueueinfo",
        130 => "rt_sigsuspend",
        131 => "sigaltstack",
        132 => "utime",
        133 => "mknod",
        134 => "uselib",
        135 => "personality",
        136 => "ustat",
        137 => "statfs",
        138 => "fstatfs",
        139 => "sysfs",
        140 => "getpriority",
        141 => "setpriority",
        142 => "sched_setparam",
        143 => "sched_getparam",
        144 => "sched_setscheduler",
        145 => "sched_getscheduler",
        146 => "sched_get_priority_max",
        147 => "sched_get_priority_min",
        148 => "sched_rr_get_interval",
        149 => "mlock",
        150 => "munlock",
        151 => "mlockall",
        152 => "munlockall",
        153 => "vhangup",
        154 => "modify_ldt",
        155 => "pivot_root",
        156 => "_sysctl",
        157 => "prctl",
        158 => "arch_prctl",
        159 => "adjtimex",
        160 => "setrlimit",
        161 => "chroot",
        162 => "sync",
        163 => "acct",
        164 => "settimeofday",
        165 => "mount",
        166 => "umount2",
        167 => "swapon",
        168 => "swapoff",
        169 => "reboot",
        170 => "sethostname",
        171 => "setdomainname",
        172 => "iopl",
        173 => "ioperm",
        174 => "create_module",
        175 => "init_module",
        176 => "delete_module",
        177 => "get_kernel_syms",
        178 => "query_module",
        179 => "quotactl",
        180 => "nfsservctl",
        181 => "getpmsg",
        182 => "putpmsg",
        183 => "afs_syscall",
        184 => "tuxcall",
        185 => "security",
        186 => "gettid",
        187 => "readahead",
        188 => "setxattr",
        189 => "lsetxattr",
        190 => "fsetxattr",
        191 => "getxattr",
        192 => "lgetxattr",
        193 => "fgetxattr",
        194 => "listxattr",
        195 => "llistxattr",
        196 => "flistxattr",
        197 => "removexattr",
        198 => "lremovexattr",
        199 => "fremovexattr",
        200 => "tkill",
        201 => "time",
        202 => "futex",
        203 => "sched_setaffinity",
        204 => "sched_getaffinity",
        205 => "set_thread_area",
        206 => "io_setup",
        207 => "io_destroy",
        208 => "io_getevents",
        209 => "io_submit",
        210 => "io_cancel",
        211 => "get_thread_area",
        212 => "lookup_dcookie",
        213 => "epoll_create",
        214 => "epoll_ctl_old",
        215 => "epoll_wait_old",
        216 => "remap_file_pages",
        217 => "getdents64",
        218 => "set_tid_address",
        219 => "restart_syscall",
        220 => "semtimedop",
        221 => "fadvise64",
        222 => "timer_create",
        223 => "timer_settime",
        224 => "timer_gettime",
        225 => "timer_getoverrun",
        226 => "timer_delete",
        227 => "clock_settime",
        228 => "clock_gettime",
        229 => "clock_getres",
        230 => "clock_nanosleep",
        231 => "exit_group",
        232 => "epoll_wait",
        233 => "epoll_ctl",
        234 => "tgkill",
        235 => "utimes",
        236 => "vserver",
        237 => "mbind",
        238 => "set_mempolicy",
        239 => "get_mempolicy",
        240 => "mq_open",
        241 => "mq_unlink",
        242 => "mq_timedsend",
        243 => "mq_timedreceive",
        244 => "mq_notify",
        245 => "mq_getsetattr",
        246 => "kexec_load",
        247 => "waitid",
        248 => "add_key",
        249 => "request_key",
        250 => "keyctl",
        251 => "ioprio_set",
        252 => "ioprio_get",
        253 => "inotify_init",
        254 => "inotify_add_watch",
        255 => "inotify_rm_watch",
        256 => "migrate_pages",
        257 => "openat",
        258 => "mkdirat",
        259 => "mknodat",
        260 => "fchownat",
        261 => "futimesat",
        262 => "newfstatat",
        263 => "unlinkat",
        264 => "renameat",
        265 => "linkat",
        266 => "symlinkat",
        267 => "readlinkat",
        268 => "fchmodat",
        269 => "faccessat",
        270 => "pselect6",
        271 => "ppoll",
        272 => "unshare",
        273 => "set_robust_list",
        274 => "get_robust_list",
        275 => "splice",
        276 => "tee",
        277 => "sync_file_range",
        278 => "vmsplice",
        279 => "move_pages",
        280 => "utimensat",
        281 => "epoll_pwait",
        282 => "signalfd",
        283 => "timerfd_create",
        284 => "eventfd",
        285 => "fallocate",
        286 => "timerfd_settime",
        287 => "timerfd_gettime",
        288 => "accept4",
        289 => "signalfd4",
        290 => "eventfd2",
        291 => "epoll_create1",
        292 => "dup3",
        293 => "pipe2",
        294 => "inotify_init1",
        295 => "preadv",
        296 => "pwritev",
        297 => "rt_tgsigqueueinfo",
        298 => "perf_event_open",
        299 => "recvmmsg",
        300 => "fanotify_init",
        301 => "fanotify_mark",
        302 => "prlimit64",
        303 => "name_to_handle_at",
        304 => "open_by_handle_at",
        305 => "clock_adjtime",
        306 => "syncfs",
        307 => "sendmmsg",
        308 => "setns",
        309 => "getcpu",
        310 => "process_vm_readv",
        311 => "process_vm_writev",
        312 => "kcmp",
        313 => "finit_module",
        314 => "sched_setattr",
        315 => "sched_getattr",
        316 => "renameat2",
        317 => "seccomp",
        318 => "getrandom",
        319 => "memfd_create",
        320 => "kexec_file_load",
        321 => "bpf",
        322 => "execveat",
        323 => "userfaultfd",
        324 => "membarrier",
        325 => "mlock2",
        326 => "copy_file_range",
        327 => "preadv2",
        328 => "pwritev2",
        329 => "pkey_mprotect",
        330 => "pkey_alloc",
        331 => "pkey_free",
        332 => "statx",
        333 => "io_pgetevents",
        334 => "rseq",
        _ => "",
    }
}

/// The number of the system call that `name` names, if it names one: the
/// lowest number that the table lists under that name.
pub fn number_of(name: &str) -> (found: Option<u64>)
    ensures
        found is Some <==> is_syscall_name(name@),
        found matches Some(nr) ==> {
            &&& nr < SYSCALL_COUNT
            &&& syscall_name(nr as int) == name@
            &&& forall|lower: int| 0 <= lower < nr ==> syscall_name(lower) != name@
        },
{
    let mut nr: u64 = 0;
    while nr < SYSCALL_COUNT
        invariant
            nr <= SYSCALL_COUNT,
            forall|lower: int| 0 <= lower < nr ==> syscall_name(lower) != name@,
        decreases SYSCALL_COUNT - nr,
    {
        if name_for(nr).eq(name) {
            return Some(nr);
        }
        nr += 1;
    }
    None
}


/// Every system call in the table has a name of at least one character.
pub proof fn names_are_nonempty(nr: int)
    requires
        0 <= nr < SYSCALL_COUNT,
    ensures
        syscall_name(nr).len() > 0,
{
    reveal_strlit("read");
    reveal_strlit("write");
    reveal_strlit("open");
    reveal_strlit("close");
    reveal_strlit("stat");
    reveal_strlit("fstat");
    reveal_strlit("lstat");
    reveal_strlit("poll");
    reveal_strlit("lseek");
    reveal_strlit("mmap");
    reveal_strlit("mprotect");
    reveal_strlit("munmap");
    reveal_strlit("brk");
    reveal_strlit("rt_sigaction");
    reveal_strlit("rt_sigprocmask");
    reveal_strlit("rt_sigreturn");
    reveal_strlit("ioctl");
    reveal_strlit("pread64");
    reveal_strlit("pwrite64");
    reveal_strlit("readv");
    reveal_strlit("writev");
    reveal_strlit("access");
    reveal_strlit("pipe");
    reveal_strlit("select");
    reveal_strlit("sched_yield");
    reveal_strlit("mremap");
    reveal_strlit("msync");
    reveal_strlit("mincore");
    reveal_strlit("madvise");
    reveal_strlit("shmget");
    reveal_strlit("shmat");
    reveal_strlit("shmctl");
    reveal_strlit("dup");
    reveal_strlit("dup2");
    reveal_strlit("pause");
    reveal_strlit("nanosleep");
    reveal_strlit("getitimer");
    reveal_strlit("alarm");
    reveal_strlit("setitimer");
    reveal_strlit("getpid");
    reveal_strlit("sendfile");
    reveal_strlit("socket");
    reveal_strlit("connect");
    reveal_strlit("accept");
    reveal_strlit("sendto");
    reveal_strlit("recvfrom");
    reveal_strlit("sendmsg");
    reveal_strlit("recvmsg");
    reveal_strlit("shutdown");
    reveal_strlit("bind");
    reveal_strlit("listen");
    reveal_strlit("getsockname");
    reveal_strlit("getpeername");
    reveal_strlit("socketpair");
    reveal_strlit("setsockopt");
    reveal_strlit("getsockopt");
    reveal_strlit("clone");
    reveal_strlit("fork");
    reveal_strlit("vfork");
    reveal_strlit("execve");
    reveal_strlit("exit");
    reveal_strlit("wait4");
    reveal_strlit("kill");
    reveal_strlit("uname");
    reveal_strlit("semget");
    reveal_strlit("semop");
    reveal_strlit("semctl");
    reveal_strlit("shmdt");
    reveal_strlit("msgget");
    reveal_strlit("msgsnd");
    reveal_strlit("msgrcv");
    reveal_strlit("msgctl");
    reveal_strlit("fcntl");
    reveal_strlit("flock");
    reveal_strlit("fsync");
    reveal_strlit("fdatasync");
    reveal_strlit("truncate");
    reveal_strlit("ftruncate");
    reveal_strlit("getdents");
    reveal_strlit("getcwd");
    reveal_strlit("chdir");
    reveal_strlit("fchdir");
    reveal_strlit("rename");
    reveal_strlit("mkdir");
    reveal_strlit("rmdir");
    reveal_strlit("creat");
    reveal_strlit("link");
    reveal_strlit("unlink");
    reveal_strlit("symlink");
    reveal_strlit("readlink");
    reveal_strlit("chmod");
    reveal_strlit("fchmod");
    reveal_strlit("chown");
    reveal_strlit("fchown");
    reveal_strlit("lchown");
    reveal_strlit("umask");
    reveal_strlit("gettimeofday");
    reveal_strlit("getrlimit");
    reveal_strlit("getrusage");
    reveal_strlit("sysinfo");
    reveal_strlit("times");
    reveal_strlit("ptrace");
    reveal_strlit("getuid");
    reveal_strlit("syslog");
    reveal_strlit("getgid");
    reveal_strlit("setuid");
    reveal_strlit("setgid");
    reveal_strlit("geteuid");
    reveal_strlit("getegid");
    reveal_strlit("setpgid");
    reveal_strlit("getppid");
    reveal_strlit("getpgrp");
    reveal_strlit("setsid");
    reveal_strlit("setreuid");
    reveal_strlit("setregid");
    reveal_strlit("getgroups");
    reveal_strlit("setgroups");
    reveal_strlit("setresuid");
    reveal_strlit("getresuid");
    reveal_strlit("setresgid");
    reveal_strlit("getresgid");
    reveal_strlit("getpgid");
    reveal_strlit("setfsuid");
    reveal_strlit("setfsgid");
    reveal_strlit("getsid");
    reveal_strlit("capget");
    reveal_strlit("capset");
    reveal_strlit("rt_sigpending");
    reveal_strlit("rt_sigtimedwait");
    reveal_strlit("rt_sigqueueinfo");
    reveal_strlit("rt_sigsuspend");
    reveal_strlit("sigaltstack");
    reveal_strlit("utime");
    reveal_strlit("mknod");
    reveal_strlit("uselib");
    reveal_strlit("personality");
    reveal_strlit("ustat");
    reveal_strlit("statfs");
    reveal_strlit("fstatfs");
    reveal_strlit("sysfs");
    reveal_strlit("getpriority");
    reveal_strlit("setpriority");
    reveal_strlit("sched_setparam");
    reveal_strlit("sched_getparam");
    reveal_strlit("sched_setscheduler");
    reveal_strlit("sched_getscheduler");
    reveal_strlit("sched_get_priority_max");
    reveal_strlit("sched_get_priority_min");
    reveal_strlit("sched_rr_get_interval");
    reveal_strlit("mlock");
    reveal_strlit("munlock");
    reveal_strlit("mlockall");
    reveal_strlit("munlockall");
    reveal_strlit("vhangup");
    reveal_strlit("modify_ldt");
    reveal_strlit("pivot_root");
    reveal_strlit("_sysctl");
    reveal_strlit("prctl");
    reveal_strlit("arch_prctl");
    reveal_strlit("adjtimex");
    reveal_strlit("setrlimit");
    reveal_strlit("chroot");
    reveal_strlit("sync");
    reveal_strlit("acct");
    reveal_strlit("settimeofday");
    reveal_strlit("mount");
    reveal_strlit("umount2");
    reveal_strlit("swapon");
    reveal_strlit("swapoff");
    reveal_strlit("reboot");
    reveal_strlit("sethostname");
    reveal_strlit("setdomainname");
    reveal_strlit("iopl");
    reveal_strlit("ioperm");
    reveal_strlit("create_module");
    reveal_strlit("init_module");
    reveal_strlit("delete_module");
    reveal_strlit("get_kernel_syms");
    reveal_strlit("query_module");
    reveal_strlit("quotactl");
    reveal_strlit("nfsservctl");
    reveal_strlit("getpmsg");
    reveal_strlit("putpmsg");
    reveal_strlit("afs_syscall");
    reveal_strlit("tuxcall");
    reveal_strlit("security");
    reveal_strlit("gettid");
    reveal_strlit("readahead");
    reveal_strlit("setxattr");
    reveal_strlit("lsetxattr");
    reveal_strlit("fsetxattr");
    reveal_strlit("getxattr");
    reveal_strlit("lgetxattr");
    reveal_strlit("fgetxattr");
    reveal_strlit("listxattr");
    reveal_strlit("llistxattr");
    reveal_strlit("flistxattr");
    reveal_strlit("removexattr");
    reveal_strlit("lremovexattr");
    reveal_strlit("fremovexattr");
    reveal_strlit("tkill");
    reveal_strlit("time");
    reveal_strlit("futex");
    reveal_strlit("sched_setaffinity");
    reveal_strlit("sched_getaffinity");
    reveal_strlit("set_thread_area");
    reveal_strlit("io_setup");
    reveal_strlit("io_destroy");
    reveal_strlit("io_getevents");
    reveal_strlit("io_submit");
    reveal_strlit("io_cancel");
    reveal_strlit("get_thread_area");
    reveal_strlit("lookup_dcookie");
    reveal_strlit("epoll_create");
    reveal_strlit("epoll_ctl_old");
    reveal_strlit("epoll_wait_old");
    reveal_strlit("remap_file_pages");
    reveal_strlit("getdents64");
    reveal_strlit("set_tid_address");
    reveal_strlit("restart_syscall");
    reveal_strlit("semtimedop");
    reveal_strlit("fadvise64");
    reveal_strlit("timer_create");
    reveal_strlit("timer_settime");
    reveal_strlit("timer_gettime");
    reveal_strlit("timer_getoverrun");
    reveal_strlit("timer_delete");
    reveal_strlit("clock_settime");
    reveal_strlit("clock_gettime");
    reveal_strlit("clock_getres");
    reveal_strlit("clock_nanosleep");
    reveal_strlit("exit_group");
    reveal_strlit("epoll_wait");
    reveal_strlit("epoll_ctl");
    reveal_strlit("tgkill");
    reveal_strlit("utimes");
    reveal_strlit("vserver");
    reveal_strlit("mbind");
    reveal_strlit("set_mempolicy");
    reveal_strlit("get_mempolicy");
    reveal_strlit("mq_open");
    reveal_strlit("mq_unlink");
    reveal_strlit("mq_timedsend");
    reveal_strlit("mq_timedreceive");
    reveal_strlit("mq_notify");
    reveal_strlit("mq_getsetattr");
    reveal_strlit("kexec_load");
    reveal_strlit("waitid");
    reveal_strlit("add_key");
    reveal_strlit("request_key");
    reveal_strlit("keyctl");
    reveal_strlit("ioprio_set");
    reveal_strlit("ioprio_get");
    reveal_strlit("inotify_init");
    reveal_strlit("inotify_add_watch");
    reveal_strlit("inotify_rm_watch");
    reveal_strlit("migrate_pages");
    reveal_strlit("openat");
    reveal_strlit("mkdirat");
    reveal_strlit("mknodat");
    reveal_strlit("fchownat");
    reveal_strlit("futimesat");
    reveal_strlit("newfstatat");
    reveal_strlit("unlinkat");
    reveal_strlit("renameat");
    reveal_strlit("linkat");
    reveal_strlit("symlinkat");
    reveal_strlit("readlinkat");
    reveal_strlit("fchmodat");
    reveal_strlit("faccessat");
    reveal_strlit("pselect6");
    reveal_strlit("ppoll");
    reveal_strlit("unshare");
    reveal_strlit("set_robust_list");
    reveal_strlit("get_robust_list");
    reveal_strlit("splice");
    reveal_strlit("tee");
    reveal_strlit("sync_file_range");
    reveal_strlit("vmsplice");
    reveal_strlit("move_pages");
    reveal_strlit("utimensat");
    reveal_strlit("epoll_pwait");
    reveal_strlit("signalfd");
    reveal_strlit("timerfd_create");
    reveal_strlit("eventfd");
    reveal_strlit("fallocate");
    reveal_strlit("timerfd_settime");
    reveal_strlit("timerfd_gettime");
    reveal_strlit("accept4");
    reveal_strlit("signalfd4");
    reveal_strlit("eventfd2");
    reveal_strlit("epoll_create1");
    reveal_strlit("dup3");
    reveal_strlit("pipe2");
    reveal_strlit("inotify_init1");
    reveal_strlit("preadv");
    reveal_strlit("pwritev");
    reveal_strlit("rt_tgsigqueueinfo");
    reveal_strlit("perf_event_open");
    reveal_strlit("recvmmsg");
    reveal_strlit("fanotify_init");
    reveal_strlit("fanotify_mark");
    reveal_strlit("prlimit64");
    reveal_strlit("name_to_handle_at");
    reveal_strlit("open_by_handle_at");
    reveal_strlit("clock_adjtime");
    reveal_strlit("syncfs");
    reveal_strlit("sendmmsg");
    reveal_strlit("setns");
    reveal_strlit("getcpu");
    reveal_strlit("process_vm_readv");
    reveal_strlit("process_vm_writev");
    reveal_strlit("kcmp");
    reveal_strlit("finit_module");
    reveal_strlit("sched_setattr");
    reveal_strlit("sched_getattr");
    reveal_strlit("renameat2");
    reveal_strlit("seccomp");
    reveal_strlit("getrandom");
    reveal_strlit("memfd_create");
    reveal_strlit("kexec_file_load");
    reveal_strlit("bpf");
    reveal_strlit("execveat");
    reveal_strlit("userfaultfd");
    reveal_strlit("membarrier");
    reveal_strlit("mlock2");
    reveal_strlit("copy_file_range");
    reveal_strlit("preadv2");
    reveal_strlit("pwritev2");
    reveal_strlit("pkey_mprotect");
    reveal_strlit("pkey_alloc");
    reveal_strlit("pkey_free");
    reveal_strlit("statx");
    reveal_strlit("io_pgetevents");
    reveal_strlit("rseq");
}

} // verus!
