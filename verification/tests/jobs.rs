use jobdash::job::{BazelJvmBinary, Launch, YarnScript};

fn binary() -> BazelJvmBinary {
    BazelJvmBinary { target: "//server:main".to_string() }
}

fn script() -> YarnScript {
    YarnScript { workspace: "web".to_string(), script: "start".to_string() }
}

#[test]
fn bazel_table_alone_is_a_bazel_launch() {
    assert_eq!(Launch::from_tables(Some(binary()), None), Launch::Bazel(binary()));
}

#[test]
fn yarn_table_alone_is_a_yarn_launch() {
    assert_eq!(Launch::from_tables(None, Some(script())), Launch::Yarn(script()));
}

#[test]
fn no_table_is_an_unspecified_launch() {
    assert_eq!(Launch::from_tables(None, None), Launch::Unspecified);
}

#[test]
fn bazel_table_takes_precedence_over_yarn_table() {
    assert_eq!(Launch::from_tables(Some(binary()), Some(script())), Launch::Bazel(binary()));
}
