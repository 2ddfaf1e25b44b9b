use strace::flags::{
    EVENT_ALL_BITS, EVENT_CLONE_BITS, FLAG_IGNORE_BITS, STOP_BREAKPOINT_BITS, STOP_EXIT_BITS,
    STOP_POST_SYSCALL_BITS, STOP_PRE_SYSCALL_BITS, STOP_SIGNAL_BITS, STOP_SINGLESTEP_BITS,
};
use strace::event::EVENT_RECORD_SIZE;
use strace::numbers;
use syscall::number as n;
use strace::regs::{FLOAT_REGISTERS_SIZE, INT_REGISTERS_SIZE};

#[test]
fn flag_bits_match_the_platform() {
    assert_eq!(STOP_PRE_SYSCALL_BITS, syscall::PTRACE_STOP_PRE_SYSCALL.bits());
    assert_eq!(STOP_POST_SYSCALL_BITS, syscall::PTRACE_STOP_POST_SYSCALL.bits());
    assert_eq!(STOP_SINGLESTEP_BITS, syscall::PTRACE_STOP_SINGLESTEP.bits());
    assert_eq!(STOP_SIGNAL_BITS, syscall::PTRACE_STOP_SIGNAL.bits());
    assert_eq!(STOP_BREAKPOINT_BITS, syscall::PTRACE_STOP_BREAKPOINT.bits());
    assert_eq!(STOP_EXIT_BITS, syscall::PTRACE_STOP_EXIT.bits());
    assert_eq!(EVENT_CLONE_BITS, syscall::PTRACE_EVENT_CLONE.bits());
    assert_eq!(EVENT_ALL_BITS, syscall::PTRACE_EVENT_CLONE.bits());
    assert_eq!(FLAG_IGNORE_BITS, syscall::PTRACE_FLAG_IGNORE.bits());
    assert_eq!(numbers::O_NONBLOCK, syscall::O_NONBLOCK);
}

#[test]
fn record_sizes_match_the_platform() {
    assert_eq!(EVENT_RECORD_SIZE, std::mem::size_of::<syscall::PtraceEvent>());
    assert_eq!(numbers::MAP_SIZE, std::mem::size_of::<syscall::data::Map>());
    assert_eq!(numbers::STAT_SIZE, std::mem::size_of::<syscall::data::Stat>());
    assert_eq!(numbers::TIMESPEC_SIZE, std::mem::size_of::<syscall::data::TimeSpec>());
    assert_eq!(INT_REGISTERS_SIZE, 21 * 8);
    assert_eq!(FLOAT_REGISTERS_SIZE, 416);
}

#[test]
fn constants_match_the_platform() {
    let pairs = [
        (numbers::SYS_OPEN, n::SYS_OPEN), (numbers::SYS_CHMOD, n::SYS_CHMOD),
        (numbers::SYS_RMDIR, n::SYS_RMDIR), (numbers::SYS_UNLINK, n::SYS_UNLINK),
        (numbers::SYS_CLOSE, n::SYS_CLOSE), (numbers::SYS_DUP, n::SYS_DUP),
        (numbers::SYS_DUP2, n::SYS_DUP2), (numbers::SYS_READ, n::SYS_READ),
        (numbers::SYS_WRITE, n::SYS_WRITE), (numbers::SYS_LSEEK, n::SYS_LSEEK),
        (numbers::SYS_FCHMOD, n::SYS_FCHMOD), (numbers::SYS_FCHOWN, n::SYS_FCHOWN),
        (numbers::SYS_FCNTL, n::SYS_FCNTL), (numbers::SYS_FEXEC, n::SYS_FEXEC),
        (numbers::SYS_FMAP, n::SYS_FMAP), (numbers::SYS_FUNMAP, n::SYS_FUNMAP),
        (numbers::SYS_FPATH, n::SYS_FPATH), (numbers::SYS_FRENAME, n::SYS_FRENAME),
        (numbers::SYS_FSTAT, n::SYS_FSTAT), (numbers::SYS_FSTATVFS, n::SYS_FSTATVFS),
        (numbers::SYS_FSYNC, n::SYS_FSYNC), (numbers::SYS_FTRUNCATE, n::SYS_FTRUNCATE),
        (numbers::SYS_FUTIMENS, n::SYS_FUTIMENS), (numbers::SYS_CHDIR, n::SYS_CHDIR),
        (numbers::SYS_CLOCK_GETTIME, n::SYS_CLOCK_GETTIME), (numbers::SYS_CLONE, n::SYS_CLONE),
        (numbers::SYS_EXIT, n::SYS_EXIT), (numbers::SYS_FUTEX, n::SYS_FUTEX),
        (numbers::SYS_GETCWD, n::SYS_GETCWD), (numbers::SYS_GETEGID, n::SYS_GETEGID),
        (numbers::SYS_GETENS, n::SYS_GETENS), (numbers::SYS_GETEUID, n::SYS_GETEUID),
        (numbers::SYS_GETGID, n::SYS_GETGID), (numbers::SYS_GETNS, n::SYS_GETNS),
        (numbers::SYS_GETPID, n::SYS_GETPID), (numbers::SYS_GETPGID, n::SYS_GETPGID),
        (numbers::SYS_GETPPID, n::SYS_GETPPID), (numbers::SYS_GETUID, n::SYS_GETUID),
        (numbers::SYS_IOPL, n::SYS_IOPL), (numbers::SYS_KILL, n::SYS_KILL),
        (numbers::SYS_MPROTECT, n::SYS_MPROTECT), (numbers::SYS_MKNS, n::SYS_MKNS),
        (numbers::SYS_NANOSLEEP, n::SYS_NANOSLEEP), (numbers::SYS_PHYSALLOC, n::SYS_PHYSALLOC),
        (numbers::SYS_PHYSFREE, n::SYS_PHYSFREE), (numbers::SYS_PHYSMAP, n::SYS_PHYSMAP),
        (numbers::SYS_PHYSUNMAP, n::SYS_PHYSUNMAP), (numbers::SYS_VIRTTOPHYS, n::SYS_VIRTTOPHYS),
        (numbers::SYS_PIPE2, n::SYS_PIPE2), (numbers::SYS_SETREGID, n::SYS_SETREGID),
        (numbers::SYS_SETRENS, n::SYS_SETRENS), (numbers::SYS_SETREUID, n::SYS_SETREUID),
        (numbers::SYS_SIGACTION, n::SYS_SIGACTION), (numbers::SYS_SIGPROCMASK, n::SYS_SIGPROCMASK),
        (numbers::SYS_SIGRETURN, n::SYS_SIGRETURN), (numbers::SYS_UMASK, n::SYS_UMASK),
        (numbers::SYS_WAITPID, n::SYS_WAITPID), (numbers::SYS_YIELD, n::SYS_YIELD),
        (numbers::SEEK_SET, syscall::SEEK_SET), (numbers::SEEK_CUR, syscall::SEEK_CUR),
        (numbers::SEEK_END, syscall::SEEK_END), (numbers::F_DUPFD, syscall::F_DUPFD),
        (numbers::F_GETFD, syscall::F_GETFD), (numbers::F_SETFD, syscall::F_SETFD),
        (numbers::F_GETFL, syscall::F_GETFL), (numbers::F_SETFL, syscall::F_SETFL),
    ];
    for (ours, theirs) in pairs {
        assert_eq!(ours, theirs);
    }
    assert_eq!(numbers::ERRNO_LIMIT as usize, syscall::error::STR_ERROR.len());
}
