use jni::classpath::{Bootstrap, BootstrapStatus, CallOutcome, Decision, JniCall, CALL_COUNT};

/// A stand-in for the environment: it hands out fresh handles, fails the
/// call at `fail_at` the way `failure` says, and remembers the context class
/// loader that the chain installs.
struct MockEnv {
    next_handle: u64,
    fail_at: Option<usize>,
    failure: Failure,
    calls: Vec<JniCall>,
    context_loader: u64,
    described: usize,
}

#[derive(Clone, Copy, PartialEq)]
enum Failure {
    NullResult,
    Exception,
}

const ORIGINAL_LOADER: u64 = 7;

impl MockEnv {
    fn new(fail_at: Option<usize>, failure: Failure) -> MockEnv {
        MockEnv {
            next_handle: 1000,
            fail_at,
            failure,
            calls: Vec::new(),
            context_loader: ORIGINAL_LOADER,
            described: 0,
        }
    }

    fn perform(&mut self, call: JniCall) -> CallOutcome {
        let index = self.calls.len();
        let failing = self.fail_at == Some(index);
        self.next_handle += 1;
        let handle = self.next_handle;
        if let JniCall::CallVoidMethodA { args, .. } = &call {
            if !(failing && self.failure == Failure::Exception) {
                self.context_loader = args[0];
            }
        }
        let returns_handle = !matches!(call, JniCall::CallVoidMethodA { .. });
        self.calls.push(call);
        match (failing, self.failure) {
            (true, Failure::NullResult) => CallOutcome { result: 0, exception: 0 },
            (true, Failure::Exception) => CallOutcome { result: 0, exception: 99 },
            (false, _) => CallOutcome { result: if returns_handle { handle } else { 0 }, exception: 0 },
        }
    }
}

fn run(env: &mut MockEnv, archive: &str, class_name: &str) -> (Bootstrap, Decision) {
    let mut boot = Bootstrap::new(archive, class_name);
    loop {
        let call = boot.next_call();
        let outcome = env.perform(call);
        let decision = boot.advance(outcome);
        match decision {
            Decision::Continue => {}
            Decision::Abort { describe_exception, .. } => {
                if describe_exception {
                    env.described += 1;
                }
                return (boot, decision);
            }
            Decision::Done { .. } => return (boot, decision),
        }
    }
}

#[test]
fn every_step_succeeds() {
    let mut env = MockEnv::new(None, Failure::NullResult);
    let (boot, decision) = run(&mut env, "/tmp/app.jar", "com.example.Main");
    let (class, method) = boot.result();
    assert_ne!(class, 0);
    assert_ne!(method, 0);
    assert_eq!(decision, Decision::Done { class, method });
    assert_eq!(boot.status(), BootstrapStatus::Finished);
    assert_eq!(env.calls.len(), CALL_COUNT);
    match &env.calls[0] {
        JniCall::NewStringUtf { text } => assert_eq!(text, "/tmp/app.jar"),
        other => panic!("unexpected first call {:?}", other),
    }
    match &env.calls[22] {
        JniCall::NewStringUtf { text } => assert_eq!(text, "com.example.Main"),
        other => panic!("unexpected call {:?}", other),
    }
    match &env.calls[24] {
        JniCall::GetStaticMethodId { class: c, name, sig } => {
            assert_eq!(*c, class);
            assert_eq!(name, "main");
            assert_eq!(sig, "([Ljava/lang/String;)V");
        }
        other => panic!("unexpected last call {:?}", other),
    }
    // The new loader, returned by the call at position 18, is installed.
    assert_eq!(env.context_loader, 1000 + 19);
    assert_eq!(boot.installed_loader(), Some(1000 + 19));
}

#[test]
fn url_class_lookup_fails() {
    let mut env = MockEnv::new(Some(1), Failure::NullResult);
    let (boot, decision) = run(&mut env, "/tmp/app.jar", "com.example.Main");
    assert_eq!(boot.result(), (0, 0));
    assert_eq!(decision, Decision::Abort { step: 1, describe_exception: false });
    match &env.calls[1] {
        JniCall::FindClass { name } => assert_eq!(name, "java/io/File"),
        other => panic!("unexpected call {:?}", other),
    }
    assert_eq!(env.calls.len(), 2);
    assert_eq!(env.context_loader, ORIGINAL_LOADER);
    assert_eq!(boot.installed_loader(), None);
}

#[test]
fn class_load_fails_after_loader_installed() {
    // The call at position 23 is `loadClass` on the new loader.
    let mut env = MockEnv::new(Some(23), Failure::Exception);
    let (boot, decision) = run(&mut env, "/tmp/app.jar", "com.example.Main");
    assert_eq!(boot.result(), (0, 0));
    assert_eq!(decision, Decision::Abort { step: 23, describe_exception: true });
    assert_eq!(env.described, 1);
    assert_eq!(env.calls.len(), 24);
    assert_eq!(env.context_loader, 1000 + 19);
    assert_eq!(boot.installed_loader(), Some(1000 + 19));
}

#[test]
fn injected_failure_stops_at_each_call() {
    for k in 0..CALL_COUNT {
        for failure in [Failure::NullResult, Failure::Exception] {
            let mut env = MockEnv::new(Some(k), failure);
            let (boot, decision) = run(&mut env, "/tmp/app.jar", "com.example.Main");
            if k == 20 && failure == Failure::NullResult {
                // Installing the loader returns nothing: no handle to check.
                assert_eq!(boot.status(), BootstrapStatus::Finished);
                continue;
            }
            assert_eq!(boot.result(), (0, 0));
            assert_eq!(boot.status(), BootstrapStatus::Aborted { step: k });
            assert_eq!(
                decision,
                Decision::Abort { step: k, describe_exception: failure == Failure::Exception }
            );
            assert_eq!(env.calls.len(), k + 1);
        }
    }
}

#[test]
fn result_is_null_pair_before_the_end() {
    let boot = Bootstrap::new("/tmp/app.jar", "com.example.Main");
    assert_eq!(boot.status(), BootstrapStatus::Running);
    assert_eq!(boot.result(), (0, 0));
    assert_eq!(boot.installed_loader(), None);
}

#[test]
fn loader_is_built_from_url_array_and_parent() {
    let mut env = MockEnv::new(None, Failure::NullResult);
    let _ = run(&mut env, "/tmp/app.jar", "com.example.Main");
    match &env.calls[18] {
        JniCall::CallStaticObjectMethodA { class, method, args } => {
            assert_eq!(*class, 1000 + 17);
            assert_eq!(*method, 1000 + 18);
            assert_eq!(args, &vec![1000 + 11, 1000 + 16]);
        }
        other => panic!("unexpected call {:?}", other),
    }
    match &env.calls[10] {
        JniCall::NewObjectArray { len, class, init } => {
            assert_eq!(*len, 1);
            assert_eq!(*class, 1000 + 10);
            assert_eq!(*init, 1000 + 9);
        }
        other => panic!("unexpected call {:?}", other),
    }
}
