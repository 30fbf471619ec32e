use git_eq::Error;
use git_eq::build_branch_name;
use git_eq::read_git_info;
use git_eq::trim_line_ending;
use git_eq::u64_to_dec_string;

#[test]
fn decimal_rendering() {
    assert_eq!(u64_to_dec_string(0), "0");
    assert_eq!(u64_to_dec_string(7), "7");
    assert_eq!(u64_to_dec_string(10), "10");
    assert_eq!(u64_to_dec_string(1652438295), "1652438295");
    assert_eq!(u64_to_dec_string(u64::MAX), "18446744073709551615");
}

#[test]
fn branch_name_formula() {
    assert_eq!(
        build_branch_name(&"main".to_string(), &"bob@x.com".to_string(), 1652438295),
        "earthquake/main-bob@x.com-1652438295"
    );
}

#[test]
fn branch_name_with_empty_branch() {
    assert_eq!(
        build_branch_name(&"".to_string(), &"bob@x.com".to_string(), 1652438295),
        "earthquake/-bob@x.com-1652438295"
    );
}

#[test]
fn trim_crlf() {
    assert_eq!(trim_line_ending(&"foo\r\n".to_string()), "foo");
}

#[test]
fn trim_lf() {
    assert_eq!(trim_line_ending(&"foo\n".to_string()), "foo");
}

#[test]
fn trim_without_terminator_is_identity() {
    assert_eq!(trim_line_ending(&"foo".to_string()), "foo");
    assert_eq!(trim_line_ending(&"".to_string()), "");
}

#[test]
fn trim_only_one_terminator() {
    assert_eq!(trim_line_ending(&"foo\n\n".to_string()), "foo\n");
    assert_eq!(trim_line_ending(&"foo\r".to_string()), "foo\r");
    assert_eq!(trim_line_ending(&"foo \n".to_string()), "foo ");
}

#[test]
fn read_git_info_decodes_and_trims() {
    assert_eq!(read_git_info(b"main\n".to_vec()), Ok("main".to_string()));
    assert_eq!(read_git_info(b"main\r\n".to_vec()), Ok("main".to_string()));
    assert_eq!(read_git_info(b"main".to_vec()), Ok("main".to_string()));
    assert_eq!(read_git_info(Vec::new()), Ok("".to_string()));
}

#[test]
fn read_git_info_rejects_invalid_utf8() {
    assert_eq!(read_git_info(vec![0xff, 0xfe]), Err(Error::Encoding));
}

#[test]
fn error_descriptions_name_each_failure() {
    assert_eq!(
        Error::NoRemoteConfigured.describe(),
        "No remote branch is configured"
    );
    assert_eq!(
        Error::NoIdentityConfigured.describe(),
        "No user email is configured"
    );
    assert_eq!(Error::Process.describe(), "Failed to run the git command");
    assert_eq!(
        Error::Encoding.describe(),
        "The git command produced output that is not valid UTF-8"
    );
    assert_eq!(
        Error::Clock.describe(),
        "The system clock is set before the Unix epoch"
    );
}
