use strace::cli::{parse_args, ArgError};

fn args(v: &[&str]) -> Vec<String> {
    v.iter().map(|s| s.to_string()).collect()
}

#[test]
fn plain_command() {
    let opt = parse_args(&args(&["ls", "/tmp"])).unwrap();
    assert!(!opt.recursive);
    assert_eq!(opt.cmd, args(&["ls", "/tmp"]));
}

#[test]
fn recursive_flags() {
    let opt = parse_args(&args(&["-r", "sh", "--", "-c", "true"])).unwrap();
    assert!(opt.recursive);
    assert_eq!(opt.cmd, args(&["sh", "-c", "true"]));
    let opt = parse_args(&args(&["--recursive", "--", "-weird"])).unwrap();
    assert!(opt.recursive);
    assert_eq!(opt.cmd, args(&["-weird"]));
}

#[test]
fn recursive_flag_after_command_word() {
    let opt = parse_args(&args(&["ls", "-r"])).unwrap();
    assert!(opt.recursive);
    assert_eq!(opt.cmd, args(&["ls"]));
}

#[test]
fn options_end_at_double_dash() {
    let opt = parse_args(&args(&["sh", "--", "-c", "-r"])).unwrap();
    assert!(!opt.recursive);
    assert_eq!(opt.cmd, args(&["sh", "-c", "-r"]));
}

#[test]
fn refused_arguments() {
    assert_eq!(parse_args(&args(&["ls", "-l"])).err(), Some(ArgError::UnknownOption(1)));
    assert_eq!(parse_args(&args(&[])).err(), Some(ArgError::MissingCommand));
    assert_eq!(parse_args(&args(&["-r"])).err(), Some(ArgError::MissingCommand));
    assert_eq!(parse_args(&args(&["--"])).err(), Some(ArgError::MissingCommand));
    assert_eq!(parse_args(&args(&["-r", "-x", "ls"])).err(), Some(ArgError::UnknownOption(1)));
}

#[test]
fn lone_dash_is_a_command() {
    let opt = parse_args(&args(&["-"])).unwrap();
    assert_eq!(opt.cmd, args(&["-"]));
}
