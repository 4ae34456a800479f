use ls_effector::{
    contains_parent_segment, entry_names, failure_message, list_vault_finish, list_vault_step, ls_arguments,
    ls_output, resolve, BinaryOutput, CallContext, ListError, ListResult, ListStep,
};

fn ctx(id: &str, token: &str) -> CallContext {
    CallContext { id: id.to_string(), token: token.to_string() }
}

fn ok_output(stdout: &str) -> BinaryOutput {
    BinaryOutput {
        ret_code: 0,
        error: String::new(),
        stdout: stdout.as_bytes().to_vec(),
        stderr: Vec::new(),
    }
}

fn failed_output(ret_code: i32, error: &str, stderr: &str) -> BinaryOutput {
    BinaryOutput {
        ret_code,
        error: error.to_string(),
        stdout: Vec::new(),
        stderr: stderr.as_bytes().to_vec(),
    }
}

/// Runs a whole listing, with `ls` replaced by a function of its arguments.
fn list_with(c: &CallContext, requested: &str, ls: impl Fn(&[String]) -> BinaryOutput) -> ListResult {
    match list_vault_step(c, &requested.to_string()) {
        ListStep::Done(r) => r,
        ListStep::Invoke { path, args } => list_vault_finish(&path, ls(&args)),
    }
}

#[test]
fn test_ls() {
    let c = ctx("test_id", "token");
    let result = list_with(&c, "/tmp/vault/test_id-token", |args| {
        assert_eq!(args, &["-1".to_string(), "/tmp/vault/test_id-token".to_string()]);
        ok_output("test_file\ntest_file2\n")
    });
    assert!(result.success, "got {:?}", result);
    assert_eq!(result.error, "");
    assert_eq!(result.result, vec!["test_file".to_string(), "test_file2".to_string()]);
}

#[test]
fn resolve_convention_path_gives_vault() {
    let r = resolve(&ctx("test_id", "token"), &"/tmp/vault/test_id-token".to_string());
    assert_eq!(r.unwrap(), "/tmp/vault/test_id-token");
}

#[test]
fn resolve_empty_path_gives_vault() {
    let r = resolve(&ctx("test_id", "token"), &String::new());
    assert_eq!(r.unwrap(), "/tmp/vault/test_id-token");
}

#[test]
fn resolve_trailing_slash_gives_vault() {
    let r = resolve(&ctx("test_id", "token"), &"/tmp/vault/test_id-token/".to_string());
    assert_eq!(r.unwrap(), "/tmp/vault/test_id-token");
}

#[test]
fn resolve_subdirectory_below_vault() {
    let c = ctx("test_id", "token");
    let r = resolve(&c, &"/tmp/vault/test_id-token/sub/dir".to_string());
    assert_eq!(r.unwrap(), "/tmp/vault/test_id-token/sub/dir");
    let r = resolve(&c, &"sub".to_string());
    assert_eq!(r.unwrap(), "/tmp/vault/test_id-token/sub");
}

#[test]
fn resolve_refuses_parent_segments() {
    let c = ctx("test_id", "token");
    for p in ["..", "../other", "/tmp/vault/test_id-token/..", "a/../../b", "/tmp/vault/test_id-token/x/../.."] {
        assert!(matches!(resolve(&c, &p.to_string()), Err(ListError::InvalidPath)), "{p}");
    }
    // A name that merely holds dots is no parent segment.
    assert_eq!(resolve(&c, &"..hidden".to_string()).unwrap(), "/tmp/vault/test_id-token/..hidden");
    assert_eq!(resolve(&c, &"a..".to_string()).unwrap(), "/tmp/vault/test_id-token/a..");
}

#[test]
fn resolve_refuses_absolute_path_outside_vault() {
    let c = ctx("test_id", "token");
    for p in ["/etc", "/tmp/vault", "/tmp/vault/other-token", "/tmp/vault/test_id-tokenX", "/"] {
        assert!(matches!(resolve(&c, &p.to_string()), Err(ListError::InvalidPath)), "{p}");
    }
}

#[test]
fn resolve_refuses_context_without_own_vault() {
    for (id, token) in [("", "token"), ("id", ""), ("a/b", "token"), ("id", "x/y"), ("id", "to-ken")] {
        assert!(matches!(resolve(&ctx(id, token), &String::new()), Err(ListError::InvalidContext)));
    }
    // A parent segment is refused as a path, whatever the context.
    assert!(matches!(resolve(&ctx("", "to-ken"), &"..".to_string()), Err(ListError::InvalidPath)));
    // An identifier may hold '-'.
    let r = resolve(&ctx("a-b", "token"), &String::new());
    assert_eq!(r.unwrap(), "/tmp/vault/a-b-token");
}

#[test]
fn parent_segment_detection() {
    assert!(contains_parent_segment(".."));
    assert!(contains_parent_segment("a/.."));
    assert!(contains_parent_segment("../a"));
    assert!(contains_parent_segment("a/../b"));
    assert!(!contains_parent_segment("a..b"));
    assert!(!contains_parent_segment("..."));
    assert!(!contains_parent_segment("."));
    assert!(!contains_parent_segment(""));
}

#[test]
fn parent_segment_listing_never_runs_ls() {
    let r = list_with(&ctx("test_id", "token"), "/tmp/vault/test_id-token/../other-token", |_| {
        panic!("ls must not run")
    });
    assert!(!r.success);
    assert_eq!(r.error, "path does not resolve inside the vault");
    assert!(r.result.is_empty());
}

#[test]
fn listing_twice_gives_same_result() {
    let c = ctx("test_id", "token");
    let a = list_with(&c, "", |_| ok_output("b\na\n"));
    let b = list_with(&c, "", |_| ok_output("b\na\n"));
    assert_eq!(a.success, b.success);
    assert_eq!(a.result, b.result);
    assert_eq!(a.result, vec!["b".to_string(), "a".to_string()]);
}

#[test]
fn empty_vault_lists_nothing() {
    let r = list_with(&ctx("test_id", "token"), "/tmp/vault/test_id-token", |_| ok_output(""));
    assert!(r.success);
    assert_eq!(r.error, "");
    assert!(r.result.is_empty());
}

#[test]
fn failed_call_reports_error() {
    let r = list_with(&ctx("test_id", "token"), "missing", |_| {
        failed_output(2, "exit 2", "ls: cannot access 'missing'")
    });
    assert!(!r.success);
    assert!(r.result.is_empty());
    assert_eq!(r.error, "ls: cannot access 'missing'");
    // With nothing on stderr the error names the command and the host's error.
    let r = list_with(&ctx("test_id", "token"), "missing", |_| failed_output(2, "exit 2", ""));
    assert!(!r.success);
    assert!(r.result.is_empty());
    assert_eq!(r.error, "ls call failed \n\"-1 /tmp/vault/test_id-token/missing\": error: exit 2, stderr: ");
}

#[test]
fn non_utf8_output_is_an_error() {
    let out = BinaryOutput { ret_code: 0, error: String::new(), stdout: vec![0xff, 0x0a], stderr: Vec::new() };
    let r = list_vault_finish(&"/tmp/vault/a-b".to_string(), out);
    assert!(!r.success);
    assert_eq!(r.error, "non-decodable output");
    assert!(r.result.is_empty());
    let bad_stderr = BinaryOutput { ret_code: 1, error: String::new(), stdout: Vec::new(), stderr: vec![0xc3] };
    assert!(matches!(ls_output(&"/p".to_string(), bad_stderr), Err(ListError::NonUtf8Output)));
}

#[test]
fn ls_output_decodes_text() {
    let r = ls_output(&"/p".to_string(), ok_output("é\n"));
    assert_eq!(r.unwrap(), "é\n");
    let r = ls_output(&"/p".to_string(), failed_output(1, "boom", "bad"));
    match r {
        Err(ListError::CallFailed(m)) => assert_eq!(m, "bad"),
        other => panic!("unexpected {:?}", other),
    }
}

#[test]
fn contexts_never_see_each_other() {
    let first = ctx("id1", "tokenA");
    let second = ctx("id2", "tokenB");
    let vault_of = |c: &CallContext| resolve(c, &String::new()).unwrap();
    let ls_fake = |args: &[String]| {
        if args[1] == "/tmp/vault/id1-tokenA" {
            ok_output("one\n")
        } else if args[1] == "/tmp/vault/id2-tokenB" {
            ok_output("two\n")
        } else {
            failed_output(2, "no such directory", "")
        }
    };
    assert_ne!(vault_of(&first), vault_of(&second));
    assert_eq!(list_with(&first, "", ls_fake).result, vec!["one".to_string()]);
    assert_eq!(list_with(&second, "", ls_fake).result, vec!["two".to_string()]);
    // Naming the other vault is refused.
    assert!(!list_with(&first, "/tmp/vault/id2-tokenB", ls_fake).success);
    assert!(!list_with(&second, "/tmp/vault/id1-tokenA", ls_fake).success);
}

#[test]
fn entry_names_split_lines() {
    assert!(entry_names(&String::new()).is_empty());
    assert_eq!(entry_names(&"a".to_string()), vec!["a".to_string()]);
    assert_eq!(entry_names(&"a\nb".to_string()), vec!["a".to_string(), "b".to_string()]);
    assert_eq!(entry_names(&"a\n\nb\n".to_string()), vec!["a".to_string(), String::new(), "b".to_string()]);
    assert_eq!(entry_names(&"\n".to_string()), vec![String::new()]);
    assert_eq!(entry_names(&"x\r\n".to_string()), vec!["x".to_string()]);
    assert_eq!(entry_names(&"a\r\nb\r".to_string()), vec!["a".to_string(), "b\r".to_string()]);
    assert_eq!(entry_names(&"\r\n".to_string()), vec![String::new()]);
    assert_eq!(entry_names(&"a\rb\n".to_string()), vec!["a\rb".to_string()]);
    assert_eq!(entry_names(&"a\r\r\n".to_string()), vec!["a\r".to_string()]);
}

#[test]
fn ls_arguments_list_one_per_line() {
    assert_eq!(ls_arguments(&"/tmp/vault/a-b".to_string()), vec!["-1".to_string(), "/tmp/vault/a-b".to_string()]);
}

#[test]
fn from_result_folds_outcome() {
    let ok = ListResult::from_result(Ok(vec!["x".to_string()]));
    assert!(ok.success);
    assert_eq!(ok.error, "");
    assert_eq!(ok.result, vec!["x".to_string()]);
    let err = ListResult::from_result(Err(ListError::InvalidContext));
    assert!(!err.success);
    assert_eq!(err.error, "call parameters name no vault");
    assert!(err.result.is_empty());
    assert_eq!(ListError::CallFailed("m".to_string()).message(), "m");
}

#[test]
fn failure_text_quotes_command_line() {
    let m = failure_message(&"\"-1 /x\"".to_string(), &"e".to_string());
    assert_eq!(m, "ls call failed \n\"-1 /x\": e");
    // The command line is quoted with escapes, as `{:?}` writes it.
    let r = ls_output(&"/tmp/a\"b".to_string(), failed_output(1, "x", ""));
    match r {
        Err(ListError::CallFailed(m)) => {
            assert_eq!(m, "ls call failed \n\"-1 /tmp/a\\\"b\": error: x, stderr: ")
        }
        other => panic!("unexpected {:?}", other),
    }
}
