use strace::decode::{
    decode_call, first_reads, format_call, format_call_bare, second_reads, MemRead, RawCall,
};
use strace::numbers;
use strace::outcome::{demux, format_return, Outcome};
use strace::regs::IntRegisters;

fn call(a: usize, b: usize, c: usize, d: usize, e: usize, f: usize) -> RawCall {
    RawCall { a, b, c, d, e, f }
}

fn words(ws: &[u64]) -> Vec<u8> {
    ws.iter().flat_map(|w| w.to_le_bytes()).collect()
}

#[test]
fn open_renders_path_and_hex_flags() {
    let c = call(numbers::SYS_OPEN, 0x1000, 4, 0x20, 0, 0);
    assert_eq!(first_reads(&c), vec![Some(MemRead { address: 0x1000, length: 4 }), None]);
    let first = vec![Some(b"/etc".to_vec()), None];
    assert_eq!(format_call(&c, &first, &vec![]), "open(\"/etc\", 0x20)");
}

#[test]
fn unresolvable_path_leaves_other_arguments() {
    let c = call(numbers::SYS_CHMOD, 0x1000, 4, 0o755, 0, 0);
    assert_eq!(format_call(&c, &vec![None, None], &vec![]), "chmod(error, 0o755)");
    let c = call(numbers::SYS_DUP2, 3, 4, 0x1000, 2, 0);
    assert_eq!(format_call(&c, &vec![None, None, None], &vec![]), "dup2(3, 4, error)");
}

#[test]
fn answer_of_wrong_length_is_an_error() {
    let c = call(numbers::SYS_UNLINK, 0x1000, 4, 0, 0, 0);
    assert_eq!(format_call(&c, &vec![Some(b"abc".to_vec())], &vec![]), "unlink(error)");
}

#[test]
fn unknown_syscall_shows_all_words() {
    let c = call(5, 1, 2, 3, 4, 0xff);
    assert!(first_reads(&c).is_empty());
    assert_eq!(format_call_bare(&c), "UNKNOWN5 0x5(0x1, 0x2, 0x3, 0x4, 0xFF)");
    let d = decode_call(&c, &vec![], &vec![]);
    assert_eq!(d.name, "UNKNOWN5 0x5");
    assert_eq!(d.args.len(), 5);
    assert_eq!(d.render(), "UNKNOWN5 0x5(0x1, 0x2, 0x3, 0x4, 0xFF)");
}

#[test]
fn byte_strings_are_escaped() {
    let c = call(numbers::SYS_RMDIR, 0x1000, 6, 0, 0, 0);
    let first = vec![Some(vec![b'a', b'"', b'\n', 1, b'\\', 0xff])];
    assert_eq!(format_call(&c, &first, &vec![]), "rmdir(\"a\\\"\\n\\x01\\\\\\xff\")");
}

#[test]
fn lseek_and_fcntl_name_their_constants() {
    let c = call(numbers::SYS_LSEEK, 3, usize::MAX, 2, 0, 0);
    assert_eq!(format_call_bare(&c), "lseek(3, -1, SEEK_END (2))");
    let c = call(numbers::SYS_LSEEK, 3, 10, 9, 0, 0);
    assert_eq!(format_call_bare(&c), "lseek(3, 10, UNKNOWN (9))");
    let c = call(numbers::SYS_FCNTL, 3, 3, 0x40000, 0, 0);
    assert_eq!(format_call_bare(&c), "fcntl(3, F_GETFL (3), 0x40000)");
}

#[test]
fn fexec_resolves_each_string() {
    let c = call(numbers::SYS_FEXEC, 3, 0x2000, 2, 0x3000, 0);
    assert_eq!(
        first_reads(&c),
        vec![
            None,
            Some(MemRead { address: 0x2000, length: 32 }),
            Some(MemRead { address: 0x3000, length: 0 }),
        ]
    );
    let first = vec![None, Some(words(&[0x5000, 2, 0x6000, 3])), Some(vec![])];
    let second = second_reads(&c, &first);
    assert_eq!(
        second,
        vec![
            vec![],
            vec![MemRead { address: 0x5000, length: 2 }, MemRead { address: 0x6000, length: 3 }],
            vec![],
        ]
    );
    let answers = vec![vec![], vec![Some(b"ls".to_vec()), None], vec![]];
    assert_eq!(format_call(&c, &first, &answers), "fexec(3, [\"ls\", unresolvable], [])");
    assert_eq!(format_call(&c, &vec![], &vec![]), "fexec(3, error, error)");
    let answers = vec![vec![], vec![Some(vec![0xff, b'a']), Some("\u{e9}\t".as_bytes().to_vec())], vec![]];
    assert_eq!(format_call(&c, &first, &answers), "fexec(3, [unresolvable, \"\u{e9}\\t\"], [])");
}

#[test]
fn word_arrays_render_in_decimal() {
    let c = call(numbers::SYS_FUTEX, 0x7000, 0, 1, 0, 0);
    assert_eq!(format_call(&c, &vec![Some(vec![0xfe, 0xff, 0xff, 0xff])], &vec![]), "futex(0x7000 [-2], 0, 1, 0, 0)");
    assert_eq!(format_call_bare(&c), "futex(0x7000 [error], 0, 1, 0, 0)");
    let c = call(numbers::SYS_SIGPROCMASK, 0, 0x10, 0x20, 0, 0);
    assert_eq!(format_call(&c, &vec![None, Some(words(&[1, 2])), None], &vec![]), "sigprocmask(0, [[1, 2]], error)");
    let c = call(numbers::SYS_PIPE2, 0x10, 0, 0, 0, 0);
    assert_eq!(format_call(&c, &vec![Some(words(&[3, 4])), None], &vec![]), "pipe2([3, 4], 0)");
    let c = call(numbers::SYS_MKNS, 0x10, 2, 0, 0, 0);
    assert_eq!(first_reads(&c), vec![Some(MemRead { address: 0x10, length: 32 })]);
    assert_eq!(format_call(&c, &vec![Some(words(&[1, 2, 3, 4]))], &vec![]), "mkns([[1, 2], [3, 4]])");
}

#[test]
fn oversized_array_is_not_read() {
    let c = call(numbers::SYS_MKNS, 0x10, usize::MAX, 0, 0, 0);
    assert_eq!(first_reads(&c), vec![None]);
    assert_eq!(format_call_bare(&c), "mkns(error)");
}

#[test]
fn records_render_through_platform_debug() {
    let c = call(numbers::SYS_NANOSLEEP, 0x10, 7, 8, 0, 0);
    let mut ts = vec![0u8; 16];
    ts[0] = 1;
    ts[8] = 0xf4;
    ts[9] = 0x01;
    assert_eq!(
        format_call(&c, &vec![Some(ts), None], &vec![]),
        "nanosleep([TimeSpec { tv_sec: 1, tv_nsec: 500 }], (7, 8))"
    );
    let c = call(numbers::SYS_FSTAT, 3, 0x10, 2 * numbers::STAT_SIZE + 1, 0, 0);
    assert_eq!(first_reads(&c)[1], Some(MemRead { address: 0x10, length: 2 * numbers::STAT_SIZE }));
    let text = format_call(&c, &vec![None, Some(vec![0u8; 2 * numbers::STAT_SIZE])], &vec![]);
    assert!(text.starts_with("fstat(3, [Stat { st_dev: 0"));
    assert_eq!(text.matches("Stat {").count(), 2);
    let c = call(numbers::SYS_FMAP, 3, 0x10, numbers::MAP_SIZE, 0, 0);
    let text = format_call(&c, &vec![None, Some(vec![0u8; numbers::MAP_SIZE])], &vec![]);
    assert!(text.starts_with("fmap(3, [Map { offset: 0"));
}

#[test]
fn flag_sets_render_by_name() {
    assert_eq!(format_call_bare(&call(numbers::SYS_CLONE, 0x100, 0, 0, 0, 0)), "clone(Some(CLONE_VM))");
    assert_eq!(format_call_bare(&call(numbers::SYS_CLONE, 0x1, 0, 0, 0, 0)), "clone(None)");
    assert_eq!(
        format_call_bare(&call(numbers::SYS_WAITPID, 4, 0x10, 1, 0, 0)),
        "waitpid(4, 0x10, Some(WNOHANG))"
    );
    assert!(format_call_bare(&call(numbers::SYS_MPROTECT, 0x1000, 4096, 0, 0, 0)).starts_with("mprotect(0x1000, 4096, Some("));
    assert!(format_call_bare(&call(numbers::SYS_PHYSMAP, 0x1000, 4096, 0, 0, 0)).starts_with("physmap(0x1000, 4096, Some("));
}

#[test]
fn calls_without_arguments() {
    assert_eq!(format_call_bare(&call(numbers::SYS_GETPID, 0, 0, 0, 0, 0)), "getpid()");
    assert_eq!(format_call_bare(&call(numbers::SYS_YIELD, 9, 9, 9, 9, 9)), "yield()");
    assert_eq!(format_call_bare(&call(numbers::SYS_UMASK, 0o22, 0, 0, 0, 0)), "umask(0o22)");
}

#[test]
fn integer_registers_hold_the_call() {
    let mut ws = [0u64; 21];
    ws[10] = numbers::SYS_CLOSE as u64; // rax
    ws[14] = 7; // rdi
    let raw = words(&ws);
    let regs = IntRegisters::from_bytes(&raw).unwrap();
    assert_eq!(regs.rax, numbers::SYS_CLOSE);
    assert_eq!(regs.rdi, 7);
    assert_eq!(regs.format_syscall_bare(), "close(7)");
    assert_eq!(regs.return_value(), numbers::SYS_CLOSE);
    assert_eq!(regs.to_bytes(), raw);
    assert!(IntRegisters::from_bytes(&raw[..167]).is_none());
}

#[test]
fn return_values_split_into_success_and_error() {
    assert_eq!(format_return(3), "Ok(3 (0x3))");
    assert_eq!(
        format_return(-2isize as usize),
        "Err(\"No such file or directory\" (0x2)) (0xFFFFFFFFFFFFFFFE)"
    );
    assert_eq!(demux(-131isize as usize), Outcome::Failure(131));
    assert_eq!(demux(-132isize as usize), Outcome::Success(-132isize as usize));
    assert_eq!(demux(0x8000_0000), Outcome::Success(0x8000_0000));
}

#[test]
fn demux_agrees_with_the_platform() {
    let samples: [usize; 9] = [0, 1, 4095, usize::MAX, usize::MAX - 130, usize::MAX - 131, 0xffff_ffff, 0x1_ffff_fffe, 12345];
    for v in samples {
        let ours = demux(v);
        match syscall::Error::demux(v) {
            Ok(x) => assert_eq!(ours, Outcome::Success(x)),
            Err(e) => assert_eq!(ours, Outcome::Failure(e.errno)),
        }
    }
}
