//! Loading an application class from a user archive.
//!
//! The protocol builds a `URL` from the archive's path, asks
//! `URLClassLoader.newInstance` for a loader over that URL whose parent is
//! the thread's context class loader, installs it as the new context class
//! loader, loads the named class through it and resolves the class's
//! `static void main(String[])`.
//!
//! It is a fixed chain of calls into the environment's function table.
//! [`Bootstrap`] decides that chain: it names each call, with the handles
//! that earlier calls returned as arguments, and reads what each call
//! gave back. After every call the caller asks the environment whether an
//! exception is pending; a pending exception, or a null handle from a call
//! that returns one, ends the chain at once. Nothing is undone: once the new
//! loader is installed it stays installed, whatever fails later.

use vstd::prelude::*;
use vstd::string::*;

use crate::types::{Jclass, Jobject, Jpointer, Jsize, Jthrowable, Jvalue, JmethodID};

verus! {

/// The number of calls in the chain.
pub const CALL_COUNT: usize = 25;

/// The call that returns the new class loader.
pub const NEW_LOADER_CALL: usize = 18;

/// The call that installs the new loader as the context class loader;
/// it returns nothing.
pub const INSTALL_LOADER_CALL: usize = 20;

/// The call that loads the application class.
pub const MAIN_CLASS_CALL: usize = 23;

/// The call that resolves the application's `main` method.
pub const MAIN_METHOD_CALL: usize = 24;

/// A call into the environment's function table.
#[derive(Debug)]
pub enum JniCall {
    NewStringUtf { text: String },
    FindClass { name: String },
    GetMethodId { class: Jclass, name: String, sig: String },
    GetStaticMethodId { class: Jclass, name: String, sig: String },
    NewObjectA { class: Jclass, method: JmethodID, args: Vec<Jvalue> },
    CallObjectMethodA { obj: Jobject, method: JmethodID, args: Vec<Jvalue> },
    CallStaticObjectMethodA { class: Jclass, method: JmethodID, args: Vec<Jvalue> },
    CallVoidMethodA { obj: Jobject, method: JmethodID, args: Vec<Jvalue> },
    NewObjectArray { len: Jsize, class: Jclass, init: Jobject },
}

/// A call as the contracts see it.
pub enum CallSpec {
    NewStringUtf { text: Seq<char> },
    FindClass { name: Seq<char> },
    GetMethodId { class: Jclass, name: Seq<char>, sig: Seq<char> },
    GetStaticMethodId { class: Jclass, name: Seq<char>, sig: Seq<char> },
    NewObjectA { class: Jclass, method: JmethodID, args: Seq<Jvalue> },
    CallObjectMethodA { obj: Jobject, method: JmethodID, args: Seq<Jvalue> },
    CallStaticObjectMethodA { class: Jclass, method: JmethodID, args: Seq<Jvalue> },
    CallVoidMethodA { obj: Jobject, method: JmethodID, args: Seq<Jvalue> },
    NewObjectArray { len: Jsize, class: Jclass, init: Jobject },
}

impl View for JniCall {
    type V = CallSpec;

    open spec fn view(&self) -> CallSpec {
        match self {
            JniCall::NewStringUtf { text } => CallSpec::NewStringUtf { text: text@ },
            JniCall::FindClass { name } => CallSpec::FindClass { name: name@ },
            JniCall::GetMethodId { class, name, sig } => CallSpec::GetMethodId {
                class: *class,
                name: name@,
                sig: sig@,
            },
            JniCall::GetStaticMethodId { class, name, sig } => CallSpec::GetStaticMethodId {
                class: *class,
                name: name@,
                sig: sig@,
            },
            JniCall::NewObjectA { class, method, args } => CallSpec::NewObjectA {
                class: *class,
                method: *method,
                args: args@,
            },
            JniCall::CallObjectMethodA { obj, method, args } => CallSpec::CallObjectMethodA {
                obj: *obj,
                method: *method,
                args: args@,
            },
            JniCall::CallStaticObjectMethodA {
                class,
                method,
                args,
            } => CallSpec::CallStaticObjectMethodA { class: *class, method: *method, args: args@ },
            JniCall::CallVoidMethodA { obj, method, args } => CallSpec::CallVoidMethodA {
                obj: *obj,
                method: *method,
                args: args@,
            },
            JniCall::NewObjectArray { len, class, init } => CallSpec::NewObjectArray {
                len: *len,
                class: *class,
                init: *init,
            },
        }
    }
}

/// Whether a call gives back a handle that must not be null.
pub open spec fn returns_handle(c: CallSpec) -> bool {
    !(c is CallVoidMethodA)
}

/// The call at position `h.len()` of the chain, where `h` holds what the
/// earlier calls returned, in order.
pub open spec fn planned_call(archive: Seq<char>, class_name: Seq<char>, h: Seq<Jpointer>) -> CallSpec {
    let k = h.len();
    if k == 0 {
        CallSpec::NewStringUtf { text: archive }
    } else if k == 1 {
        CallSpec::FindClass { name: "java/io/File"@ }
    } else if k == 2 {
        CallSpec::GetMethodId { class: h[1], name: "<init>"@, sig: "(Ljava/lang/String;)V"@ }
    } else if k == 3 {
        CallSpec::NewObjectA { class: h[1], method: h[2], args: seq![h[0]] }
    } else if k == 4 {
        CallSpec::GetMethodId { class: h[1], name: "toURI"@, sig: "()Ljava/net/URI;"@ }
    } else if k == 5 {
        CallSpec::CallObjectMethodA { obj: h[3], method: h[4], args: Seq::empty() }
    } else if k == 6 {
        CallSpec::FindClass { name: "java/net/URI"@ }
    } else if k == 7 {
        CallSpec::GetMethodId { class: h[6], name: "toURL"@, sig: "()Ljava/net/URL;"@ }
    } else if k == 8 {
        CallSpec::CallObjectMethodA { obj: h[5], method: h[7], args: Seq::empty() }
    } else if k == 9 {
        CallSpec::FindClass { name: "java/net/URL"@ }
    } else if k == 10 {
        CallSpec::NewObjectArray { len: 1, class: h[9], init: h[8] }
    } else if k == 11 {
        CallSpec::FindClass { name: "java/lang/Thread"@ }
    } else if k == 12 {
        CallSpec::GetStaticMethodId {
            class: h[11],
            name: "currentThread"@,
            sig: "()Ljava/lang/Thread;"@,
        }
    } else if k == 13 {
        CallSpec::CallStaticObjectMethodA { class: h[11], method: h[12], args: Seq::empty() }
    } else if k == 14 {
        CallSpec::GetMethodId {
            class: h[11],
            name: "getContextClassLoader"@,
            sig: "()Ljava/lang/ClassLoader;"@,
        }
    } else if k == 15 {
        CallSpec::CallObjectMethodA { obj: h[13], method: h[14], args: Seq::empty() }
    } else if k == 16 {
        CallSpec::FindClass { name: "java/net/URLClassLoader"@ }
    } else if k == 17 {
        CallSpec::GetStaticMethodId {
            class: h[16],
            name: "newInstance"@,
            sig: "([Ljava/net/URL;Ljava/lang/ClassLoader;)Ljava/net/URLClassLoader;"@,
        }
    } else if k == 18 {
        CallSpec::CallStaticObjectMethodA { class: h[16], method: h[17], args: seq![h[10], h[15]] }
    } else if k == 19 {
        CallSpec::GetMethodId {
            class: h[11],
            name: "setContextClassLoader"@,
            sig: "(Ljava/lang/ClassLoader;)V"@,
        }
    } else if k == 20 {
        CallSpec::CallVoidMethodA { obj: h[13], method: h[19], args: seq![h[18]] }
    } else if k == 21 {
        CallSpec::GetMethodId {
            class: h[16],
            name: "loadClass"@,
            sig: "(Ljava/lang/String;)Ljava/lang/Class;"@,
        }
    } else if k == 22 {
        CallSpec::NewStringUtf { text: class_name }
    } else if k == 23 {
        CallSpec::CallObjectMethodA { obj: h[18], method: h[21], args: seq![h[22]] }
    } else {
        CallSpec::GetStaticMethodId { class: h[23], name: "main"@, sig: "([Ljava/lang/String;)V"@ }
    }
}

/// What a call gave back: its result, and the exception pending after it
/// (null where none is).
#[derive(Clone, Copy, Debug, PartialEq, Eq, Structural)]
pub struct CallOutcome {
    pub result: Jpointer,
    pub exception: Jthrowable,
}

/// Whether an outcome ends the chain: an exception is pending, or a call
/// that returns a handle returned the null handle.
pub open spec fn fails(c: CallSpec, o: CallOutcome) -> bool {
    o.exception != 0 || (returns_handle(c) && o.result == 0)
}

/// Where the chain stands.
#[derive(Clone, Copy, Debug, PartialEq, Eq, Structural)]
pub enum BootstrapStatus {
    /// The next call is still to be made.
    Running,
    /// The call at position `step` failed; no later call is made.
    Aborted { step: usize },
    /// Every call succeeded.
    Finished,
}

/// The protocol's state as the contracts see it.
pub struct BootstrapView {
    pub archive: Seq<char>,
    pub class_name: Seq<char>,
    pub results: Seq<Jpointer>,
    pub status: BootstrapStatus,
}

/// The state before the first call.
pub open spec fn initial(archive: Seq<char>, class_name: Seq<char>) -> BootstrapView {
    BootstrapView { archive, class_name, results: seq![], status: BootstrapStatus::Running }
}

/// The call that a running state makes next.
pub open spec fn next_of(s: BootstrapView) -> CallSpec {
    planned_call(s.archive, s.class_name, s.results)
}

/// The state after the next call gave back `o`. A state that is not running
/// stays as it is.
pub open spec fn transition(s: BootstrapView, o: CallOutcome) -> BootstrapView {
    if s.status != BootstrapStatus::Running {
        s
    } else if fails(next_of(s), o) {
        BootstrapView { status: BootstrapStatus::Aborted { step: s.results.len() as usize }, ..s }
    } else if s.results.len() + 1 == CALL_COUNT {
        BootstrapView { results: s.results.push(o.result), status: BootstrapStatus::Finished, ..s }
    } else {
        BootstrapView { results: s.results.push(o.result), ..s }
    }
}

/// The pair that the protocol hands back: the application class and its
/// `main` method once every call succeeded, else two null handles.
pub open spec fn result_of(s: BootstrapView) -> (Jclass, JmethodID) {
    if s.status == BootstrapStatus::Finished {
        (s.results[MAIN_CLASS_CALL as int], s.results[MAIN_METHOD_CALL as int])
    } else {
        (0, 0)
    }
}

/// The loader that the chain installed as the context class loader, if the
/// call that installs it succeeded.
pub open spec fn installed_loader_of(s: BootstrapView) -> Option<Jobject> {
    if s.results.len() > INSTALL_LOADER_CALL {
        Some(s.results[NEW_LOADER_CALL as int])
    } else {
        None
    }
}

/// A consistent state: the results of the calls made so far, each handle
/// non-null, and a status that agrees with their number.
pub open spec fn view_wf(s: BootstrapView) -> bool {
    &&& s.results.len() <= CALL_COUNT
    &&& forall|k: int|
        0 <= k < s.results.len() && k != INSTALL_LOADER_CALL ==> #[trigger] s.results[k] != 0
    &&& match s.status {
        BootstrapStatus::Running => s.results.len() < CALL_COUNT,
        BootstrapStatus::Aborted { step } => step == s.results.len() && step < CALL_COUNT,
        BootstrapStatus::Finished => s.results.len() == CALL_COUNT,
    }
}

/// The state after feeding `outs` to the calls in turn, from `s`; feeding
/// stops once the chain has ended.
pub open spec fn replay(s: BootstrapView, outs: Seq<CallOutcome>) -> BootstrapView
    decreases outs.len(),
{
    if outs.len() == 0 || s.status != BootstrapStatus::Running {
        s
    } else {
        replay(transition(s, outs[0]), outs.drop_first())
    }
}

/// The calls made while feeding `outs` in turn, from `s`.
pub open spec fn issued(s: BootstrapView, outs: Seq<CallOutcome>) -> Seq<CallSpec>
    decreases outs.len(),
{
    if outs.len() == 0 || s.status != BootstrapStatus::Running {
        Seq::empty()
    } else {
        seq![next_of(s)] + issued(transition(s, outs[0]), outs.drop_first())
    }
}

/// The results that a run of outcomes carries.
pub open spec fn results_of(outs: Seq<CallOutcome>) -> Seq<Jpointer> {
    outs.map_values(|o: CallOutcome| o.result)
}

/// The pair handed back is never half null: both handles are null, or
/// neither is.
pub proof fn lemma_result_both_or_neither(s: BootstrapView)
    requires
        view_wf(s),
    ensures
        (result_of(s).0 == 0) == (result_of(s).1 == 0),
        s.status == BootstrapStatus::Finished ==> result_of(s).0 != 0 && result_of(s).1 != 0,
{
    if s.status == BootstrapStatus::Finished {
        assert(s.results[MAIN_CLASS_CALL as int] != 0);
        assert(s.results[MAIN_METHOD_CALL as int] != 0);
    }
}

proof fn lemma_run_from(
    archive: Seq<char>,
    class_name: Seq<char>,
    outs: Seq<CallOutcome>,
    k: nat,
    j: nat,
)
    requires
        k < CALL_COUNT,
        k < outs.len(),
        j <= k,
        forall|i: int|
            0 <= i < k ==> !fails(
                #[trigger] planned_call(archive, class_name, results_of(outs.take(i))),
                outs[i],
            ),
        fails(planned_call(archive, class_name, results_of(outs.take(k as int))), outs[k as int]),
    ensures
        ({
            let s = BootstrapView {
                archive,
                class_name,
                results: results_of(outs.take(j as int)),
                status: BootstrapStatus::Running,
            };
            &&& replay(s, outs.skip(j as int)) == BootstrapView {
                archive,
                class_name,
                results: results_of(outs.take(k as int)),
                status: BootstrapStatus::Aborted { step: k as usize },
            }
            &&& issued(s, outs.skip(j as int)).len() == k - j + 1
            &&& issued(s, outs.skip(j as int)).last() == planned_call(
                archive,
                class_name,
                results_of(outs.take(k as int)),
            )
        }),
    decreases k - j,
{
    let s = BootstrapView {
        archive,
        class_name,
        results: results_of(outs.take(j as int)),
        status: BootstrapStatus::Running,
    };
    let rest = outs.skip(j as int);
    assert(rest[0] == outs[j as int]);
    assert(results_of(outs.take(j as int)).len() == j);
    if j == k {
        let t = transition(s, rest[0]);
        assert(t.status == BootstrapStatus::Aborted { step: k as usize });
        assert(replay(t, rest.drop_first()) == t);
        assert(issued(t, rest.drop_first()) == Seq::<CallSpec>::empty());
        assert(issued(s, rest) =~= seq![next_of(s)]);
    } else {
        assert(!fails(planned_call(archive, class_name, results_of(outs.take(j as int))), outs[j as int]));
        lemma_run_from(archive, class_name, outs, k, j + 1);
        let next = BootstrapView {
            archive,
            class_name,
            results: results_of(outs.take(j + 1 as int)),
            status: BootstrapStatus::Running,
        };
        assert(results_of(outs.take(j as int)).push(outs[j as int].result) =~= results_of(
            outs.take(j + 1 as int),
        ));
        assert(transition(s, rest[0]) == next);
        assert(rest.drop_first() =~= outs.skip(j + 1 as int));
        let tail = issued(next, outs.skip(j + 1 as int));
        assert(issued(s, rest) == seq![next_of(s)] + tail);
        assert((seq![next_of(s)] + tail).last() == tail.last());
    }
}

/// A failure at any call of the chain, a pending exception or a null
/// handle, ends the chain at that call: the calls made are the ones up to
/// and including it, none after, the pair handed back is two null handles,
/// and the results kept are those of the calls before it, so a loader
/// installed earlier is reported as still installed.
pub proof fn lemma_failure_short_circuits(
    archive: Seq<char>,
    class_name: Seq<char>,
    outs: Seq<CallOutcome>,
    k: nat,
)
    requires
        k < CALL_COUNT,
        k < outs.len(),
        forall|i: int|
            0 <= i < k ==> !fails(
                #[trigger] planned_call(archive, class_name, results_of(outs.take(i))),
                outs[i],
            ),
        fails(planned_call(archive, class_name, results_of(outs.take(k as int))), outs[k as int]),
    ensures
        replay(initial(archive, class_name), outs).status == (BootstrapStatus::Aborted {
            step: k as usize,
        }),
        replay(initial(archive, class_name), outs).results == results_of(outs.take(k as int)),
        result_of(replay(initial(archive, class_name), outs)) == (0u64, 0u64),
        issued(initial(archive, class_name), outs).len() == k + 1,
        issued(initial(archive, class_name), outs).last() == planned_call(
            archive,
            class_name,
            results_of(outs.take(k as int)),
        ),
{
    lemma_run_from(archive, class_name, outs, k, 0);
    assert(results_of(outs.take(0)) =~= Seq::<Jpointer>::empty());
    assert(outs.skip(0) =~= outs);
}

proof fn lemma_success_from(
    archive: Seq<char>,
    class_name: Seq<char>,
    outs: Seq<CallOutcome>,
    j: nat,
)
    requires
        outs.len() == CALL_COUNT,
        j < CALL_COUNT,
        forall|i: int|
            0 <= i < CALL_COUNT ==> !fails(
                #[trigger] planned_call(archive, class_name, results_of(outs.take(i))),
                outs[i],
            ),
    ensures
        ({
            let s = BootstrapView {
                archive,
                class_name,
                results: results_of(outs.take(j as int)),
                status: BootstrapStatus::Running,
            };
            &&& replay(s, outs.skip(j as int)) == BootstrapView {
                archive,
                class_name,
                results: results_of(outs),
                status: BootstrapStatus::Finished,
            }
            &&& issued(s, outs.skip(j as int)).len() == CALL_COUNT - j
        }),
    decreases CALL_COUNT - j,
{
    let s = BootstrapView {
        archive,
        class_name,
        results: results_of(outs.take(j as int)),
        status: BootstrapStatus::Running,
    };
    let rest = outs.skip(j as int);
    assert(rest[0] == outs[j as int]);
    assert(!fails(planned_call(archive, class_name, results_of(outs.take(j as int))), outs[j as int]));
    assert(results_of(outs.take(j as int)).push(outs[j as int].result) =~= results_of(
        outs.take(j + 1 as int),
    ));
    assert(rest.drop_first() =~= outs.skip(j + 1 as int));
    if j + 1 == CALL_COUNT {
        assert(outs.take(j + 1 as int) =~= outs);
        let t = transition(s, rest[0]);
        assert(t.status == BootstrapStatus::Finished);
        assert(replay(t, rest.drop_first()) == t);
        assert(issued(t, rest.drop_first()) == Seq::<CallSpec>::empty());
        assert(issued(s, rest) =~= seq![next_of(s)]);
    } else {
        lemma_success_from(archive, class_name, outs, j + 1);
        let next = BootstrapView {
            archive,
            class_name,
            results: results_of(outs.take(j + 1 as int)),
            status: BootstrapStatus::Running,
        };
        assert(transition(s, rest[0]) == next);
        let tail = issued(next, outs.skip(j + 1 as int));
        assert(issued(s, rest) == seq![next_of(s)] + tail);
    }
}

/// When every call of the chain succeeds, every call is made once, the
/// chain finishes, and the pair handed back is what the call that loads the
/// class and the call that resolves `main` returned, neither of them null.
pub proof fn lemma_all_steps_succeed(
    archive: Seq<char>,
    class_name: Seq<char>,
    outs: Seq<CallOutcome>,
)
    requires
        outs.len() == CALL_COUNT,
        forall|i: int|
            0 <= i < CALL_COUNT ==> !fails(
                #[trigger] planned_call(archive, class_name, results_of(outs.take(i))),
                outs[i],
            ),
    ensures
        replay(initial(archive, class_name), outs).status == BootstrapStatus::Finished,
        issued(initial(archive, class_name), outs).len() == CALL_COUNT,
        result_of(replay(initial(archive, class_name), outs)) == (
            outs[MAIN_CLASS_CALL as int].result,
            outs[MAIN_METHOD_CALL as int].result,
        ),
        outs[MAIN_CLASS_CALL as int].result != 0,
        outs[MAIN_METHOD_CALL as int].result != 0,
{
    lemma_success_from(archive, class_name, outs, 0);
    assert(results_of(outs.take(0)) =~= Seq::<Jpointer>::empty());
    assert(outs.skip(0) =~= outs);
    let r23 = results_of(outs.take(MAIN_CLASS_CALL as int));
    let r24 = results_of(outs.take(MAIN_METHOD_CALL as int));
    assert(r23.len() == 23);
    assert(r24.len() == 24);
    assert(!fails(planned_call(archive, class_name, r23), outs[MAIN_CLASS_CALL as int]));
    assert(!fails(planned_call(archive, class_name, r24), outs[MAIN_METHOD_CALL as int]));
}

/// What [`Bootstrap::advance`] asks the caller to do next.
#[derive(Clone, Copy, Debug, PartialEq, Eq, Structural)]
pub enum Decision {
    /// Make the next call.
    Continue,
    /// Stop. Where `describe_exception` holds, an exception is pending:
    /// describe it to the diagnostic stream, then clear it.
    Abort { step: usize, describe_exception: bool },
    /// Every call succeeded: the application class and its `main` method.
    Done { class: Jclass, method: JmethodID },
}

/// The protocol's state.
pub struct Bootstrap {
    archive: String,
    class_name: String,
    results: Vec<Jpointer>,
    status: BootstrapStatus,
}

impl View for Bootstrap {
    type V = BootstrapView;

    closed spec fn view(&self) -> BootstrapView {
        BootstrapView {
            archive: self.archive@,
            class_name: self.class_name@,
            results: self.results@,
            status: self.status,
        }
    }
}

fn no_args() -> (r: Vec<Jvalue>)
    ensures
        r@ == Seq::<Jvalue>::empty(),
{
    let r: Vec<Jvalue> = Vec::new();
    assert(r@ =~= Seq::<Jvalue>::empty());
    r
}

fn one_arg(a: Jvalue) -> (r: Vec<Jvalue>)
    ensures
        r@ == seq![a],
{
    let mut r: Vec<Jvalue> = Vec::new();
    r.push(a);
    assert(r@ =~= seq![a]);
    r
}

fn two_args(a: Jvalue, b: Jvalue) -> (r: Vec<Jvalue>)
    ensures
        r@ == seq![a, b],
{
    let mut r: Vec<Jvalue> = Vec::new();
    r.push(a);
    r.push(b);
    assert(r@ =~= seq![a, b]);
    r
}

impl Bootstrap {
    /// The protocol for the archive at `archive` and the class named
    /// `class_name`, before its first call.
    pub fn new(archive: &str, class_name: &str) -> (r: Bootstrap)
        ensures
            r@ == initial(archive@, class_name@),
            view_wf(r@),
    {
        Bootstrap {
            archive: String::from_str(archive),
            class_name: String::from_str(class_name),
            results: Vec::new(),
            status: BootstrapStatus::Running,
        }
    }

    /// Where the chain stands.
    pub fn status(&self) -> (r: BootstrapStatus)
        ensures
            r == self@.status,
    {
        self.status
    }

    /// The call to make next.
    pub fn next_call(&self) -> (r: JniCall)
        requires
            view_wf(self@),
            self@.status == BootstrapStatus::Running,
        ensures
            r@ == next_of(self@),
    {
        let k = self.results.len();
        let h = &self.results;
        if k == 0 {
            JniCall::NewStringUtf { text: self.archive.clone() }
        } else if k == 1 {
            JniCall::FindClass { name: String::from_str("java/io/File") }
        } else if k == 2 {
            JniCall::GetMethodId {
                class: h[1],
                name: String::from_str("<init>"),
                sig: String::from_str("(Ljava/lang/String;)V"),
            }
        } else if k == 3 {
            JniCall::NewObjectA { class: h[1], method: h[2], args: one_arg(h[0]) }
        } else if k == 4 {
            JniCall::GetMethodId {
                class: h[1],
                name: String::from_str("toURI"),
                sig: String::from_str("()Ljava/net/URI;"),
            }
        } else if k == 5 {
            JniCall::CallObjectMethodA { obj: h[3], method: h[4], args: no_args() }
        } else if k == 6 {
            JniCall::FindClass { name: String::from_str("java/net/URI") }
        } else if k == 7 {
            JniCall::GetMethodId {
                class: h[6],
                name: String::from_str("toURL"),
                sig: String::from_str("()Ljava/net/URL;"),
            }
        } else if k == 8 {
            JniCall::CallObjectMethodA { obj: h[5], method: h[7], args: no_args() }
        } else if k == 9 {
            JniCall::FindClass { name: String::from_str("java/net/URL") }
        } else if k == 10 {
            JniCall::NewObjectArray { len: 1, class: h[9], init: h[8] }
        } else if k == 11 {
            JniCall::FindClass { name: String::from_str("java/lang/Thread") }
        } else if k == 12 {
            JniCall::GetStaticMethodId {
                class: h[11],
                name: String::from_str("currentThread"),
                sig: String::from_str("()Ljava/lang/Thread;"),
            }
        } else if k == 13 {
            JniCall::CallStaticObjectMethodA { class: h[11], method: h[12], args: no_args() }
        } else if k == 14 {
            JniCall::GetMethodId {
                class: h[11],
                name: String::from_str("getContextClassLoader"),
                sig: String::from_str("()Ljava/lang/ClassLoader;"),
            }
        } else if k == 15 {
            JniCall::CallObjectMethodA { obj: h[13], method: h[14], args: no_args() }
        } else if k == 16 {
            JniCall::FindClass { name: String::from_str("java/net/URLClassLoader") }
        } else if k == 17 {
            JniCall::GetStaticMethodId {
                class: h[16],
                name: String::from_str("newInstance"),
                sig: String::from_str(
                    "([Ljava/net/URL;Ljava/lang/ClassLoader;)Ljava/net/URLClassLoader;",
                ),
            }
        } else if k == 18 {
            JniCall::CallStaticObjectMethodA {
                class: h[16],
                method: h[17],
                args: two_args(h[10], h[15]),
            }
        } else if k == 19 {
            JniCall::GetMethodId {
                class: h[11],
                name: String::from_str("setContextClassLoader"),
                sig: String::from_str("(Ljava/lang/ClassLoader;)V"),
            }
        } else if k == 20 {
            JniCall::CallVoidMethodA { obj: h[13], method: h[19], args: one_arg(h[18]) }
        } else if k == 21 {
            JniCall::GetMethodId {
                class: h[16],
                name: String::from_str("loadClass"),
                sig: String::from_str("(Ljava/lang/String;)Ljava/lang/Class;"),
            }
        } else if k == 22 {
            JniCall::NewStringUtf { text: self.class_name.clone() }
        } else if k == 23 {
            JniCall::CallObjectMethodA { obj: h[18], method: h[21], args: one_arg(h[22]) }
        } else {
            JniCall::GetStaticMethodId {
                class: h[23],
                name: String::from_str("main"),
                sig: String::from_str("([Ljava/lang/String;)V"),
            }
        }
    }

    /// Reads what the next call gave back, and says what to do now.
    pub fn advance(&mut self, outcome: CallOutcome) -> (d: Decision)
        requires
            view_wf(old(self)@),
            old(self)@.status == BootstrapStatus::Running,
        ensures
            final(self)@ == transition(old(self)@, outcome),
            view_wf(final(self)@),
            d == (match final(self)@.status {
                BootstrapStatus::Running => Decision::Continue,
                BootstrapStatus::Aborted { step } => Decision::Abort {
                    step,
                    describe_exception: outcome.exception != 0,
                },
                BootstrapStatus::Finished => Decision::Done {
                    class: result_of(final(self)@).0,
                    method: result_of(final(self)@).1,
                },
            }),
    {
        let k = self.results.len();
        let handle_expected = k != INSTALL_LOADER_CALL;
        assert(returns_handle(next_of(self@)) == handle_expected);
        if outcome.exception != 0 || (handle_expected && outcome.result == 0) {
            self.status = BootstrapStatus::Aborted { step: k };
            return Decision::Abort { step: k, describe_exception: outcome.exception != 0 };
        }
        self.results.push(outcome.result);
        if k + 1 == CALL_COUNT {
            self.status = BootstrapStatus::Finished;
            Decision::Done {
                class: self.results[MAIN_CLASS_CALL],
                method: self.results[MAIN_METHOD_CALL],
            }
        } else {
            Decision::Continue
        }
    }

    /// The application class and its `main` method once every call
    /// succeeded, else two null handles.
    pub fn result(&self) -> (r: (Jclass, JmethodID))
        requires
            view_wf(self@),
        ensures
            r == result_of(self@),
    {
        match self.status {
            BootstrapStatus::Finished => (self.results[MAIN_CLASS_CALL], self.results[MAIN_METHOD_CALL]),
            _ => (0, 0),
        }
    }

    /// The loader installed as the thread's context class loader, if the
    /// chain got that far. It stays installed when a later call fails.
    pub fn installed_loader(&self) -> (r: Option<Jobject>)
        requires
            view_wf(self@),
        ensures
            r == installed_loader_of(self@),
    {
        if self.results.len() > INSTALL_LOADER_CALL {
            Some(self.results[NEW_LOADER_CALL])
        } else {
            None
        }
    }
}

} // verus!
