use dwl_launcher::error::LaunchError;

#[test]
fn each_error_has_its_line() {
    let user = LaunchError::UserResolution { cause: "no passwd entry".to_string() };
    assert_eq!(user.message(), "cannot determine the user: no passwd entry");
    let read = LaunchError::ConfigRead { path: "/c/envs".to_string(), cause: "denied".to_string() };
    assert_eq!(read.message(), "cannot read /c/envs: denied");
    let parse =
        LaunchError::ConfigParse { path: "/c/services".to_string(), cause: "bad".to_string() };
    assert_eq!(parse.message(), "cannot parse /c/services: bad");
    let io = LaunchError::Io { path: "/tmp/x".to_string(), cause: "full".to_string() };
    assert_eq!(io.message(), "cannot write /tmp/x: full");
    let spawn = LaunchError::Spawn { program: "/bin/dwl".to_string(), cause: "missing".to_string() };
    assert_eq!(spawn.message(), "cannot start /bin/dwl: missing");
}

#[test]
fn clone_of_an_error_is_equal() {
    let errors = vec![
        LaunchError::UserResolution { cause: "a".to_string() },
        LaunchError::ConfigRead { path: "p".to_string(), cause: "b".to_string() },
        LaunchError::ConfigParse { path: "q".to_string(), cause: "c".to_string() },
        LaunchError::Io { path: "r".to_string(), cause: "d".to_string() },
        LaunchError::Spawn { program: "s".to_string(), cause: "e".to_string() },
    ];
    for error in errors {
        assert_eq!(error.clone(), error);
    }
}
