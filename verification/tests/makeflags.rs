use buildsys::error::{Error, FdHalf};
use buildsys::makeflags::{makeflags_string, parse_makeflags};

#[test]
fn makeflags_valid() {
    let result = parse_makeflags("-j --jobserver-fds=3,4 --jobserver-auth=3,4");
    let (read_fd, write_fd) = result.unwrap();
    assert_eq!(read_fd, 3);
    assert_eq!(write_fd, 4);
}

#[test]
fn makeflags_empty() {
    let result = parse_makeflags("");
    assert_eq!(result, Err(Error::HandshakeMatch));
}

#[test]
fn makeflags_mismatched() {
    let result = parse_makeflags("-j --jobserver-fds=3,4 --jobserver-auth=5,4");
    assert_eq!(result, Err(Error::FileDescriptorMismatch { what: FdHalf::Read }));

    let result = parse_makeflags("-j --jobserver-fds=3,4 --jobserver-auth=3,5");
    assert_eq!(result, Err(Error::FileDescriptorMismatch { what: FdHalf::Write }));
}

#[test]
fn makeflags_out_of_range() {
    let fd = u64::MAX;

    let input = format!("-j --jobserver-fds={fd},4 --jobserver-auth={fd},4");
    let result = parse_makeflags(&input);
    assert_eq!(result, Err(Error::FileDescriptorParse));

    let input = format!("-j --jobserver-fds=3,{fd} --jobserver-auth=3,{fd}");
    let result = parse_makeflags(&input);
    assert_eq!(result, Err(Error::FileDescriptorParse));
}

#[test]
fn makeflags_round_trip() {
    let s = makeflags_string(3, 4);
    assert_eq!(s, "-j --jobserver-fds=3,4 --jobserver-auth=3,4");
    assert_eq!(parse_makeflags(&s), Ok((3, 4)));

    let s = makeflags_string(17, 230);
    assert_eq!(s, "-j --jobserver-fds=17,230 --jobserver-auth=17,230");
    assert_eq!(parse_makeflags(&s), Ok((17, 230)));
}

#[test]
fn makeflags_rejects_trailing_text() {
    let result = parse_makeflags("-j --jobserver-fds=3,4 --jobserver-auth=3,4 ");
    assert_eq!(result, Err(Error::HandshakeMatch));
}

#[test]
fn makeflags_accepts_leading_zeros() {
    let result = parse_makeflags("-j --jobserver-fds=03,4 --jobserver-auth=03,4");
    assert_eq!(result, Ok((3, 4)));
}

#[test]
fn makeflags_boundary_value() {
    let max = i32::MAX;
    let input = format!("-j --jobserver-fds={max},4 --jobserver-auth={max},4");
    assert_eq!(parse_makeflags(&input), Ok((max, 4)));

    let over = i32::MAX as u64 + 1;
    let input = format!("-j --jobserver-fds={over},4 --jobserver-auth={over},4");
    assert_eq!(parse_makeflags(&input), Err(Error::FileDescriptorParse));
}
