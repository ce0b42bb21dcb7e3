//! The compilation shim: one native compile call, driven as a strict
//! allocate / invoke / extract / release sequence that never leaks the
//! native result handle.
//!
//! The native library itself is reached only through an unverified
//! driver: the shim here is the decision core. It validates the
//! request, then hands the driver one directive at a time — allocate a
//! result handle, invoke the compiler, take the output buffer, take the
//! diagnostic log, free the handle — and the driver reports each
//! outcome back as an event. The machine's well-formedness invariant
//! pins the exact directive history of every reachable state, which is
//! what the resource-pairing guarantees are proved from.

use vstd::prelude::*;
use vstd::pervasive::unreached;

verus! {

/// One compilation request: the program text and the option string,
/// both arbitrary byte sequences supplied by the caller.
pub struct CompileRequest {
    pub source: Vec<u8>,
    pub options: Vec<u8>,
}

/// A byte sequence is terminator-free when no byte is the native call
/// convention's string terminator.
pub open spec fn terminator_free(bytes: Seq<u8>) -> bool {
    forall|i: int| 0 <= i < bytes.len() ==> bytes[i] != 0
}

/// Both strings of a request are terminator-free.
pub open spec fn request_terminator_free(source: Seq<u8>, options: Seq<u8>) -> bool {
    terminator_free(source) && terminator_free(options)
}

/// Failures at the shim boundary; a non-zero native return code is not
/// among them, since it is forwarded as ordinary data.
#[derive(Clone, Copy, PartialEq, Eq, Structural, Debug)]
pub enum ShimError {
    /// An embedded terminator byte in the source or option string.
    InteriorTerminator,
    /// The native diagnostic log was not valid text.
    InvalidLogText,
}

/// Output from the compiler.
#[derive(Debug)]
pub struct Output {
    /// Exit code returned by the compiler, forwarded uninterpreted.
    pub ret_code: i32,
    /// Compiler output words (object code, intermediate code, ...).
    pub output: Vec<u32>,
    /// Compiler diagnostic log, always valid text, possibly empty.
    pub log: String,
}

fn bytes_terminator_free(v: &Vec<u8>) -> (b: bool)
    ensures
        b == terminator_free(v@),
{
    let mut i: usize = 0;
    while i < v.len()
        invariant
            i <= v@.len(),
            forall|j: int| 0 <= j < i ==> v@[j] != 0,
        decreases v@.len() - i,
    {
        if v[i] == 0 {
            return false;
        }
        i += 1;
    }
    true
}

/// Checks that a request can cross the native call convention: rejects
/// it exactly when either string holds an embedded terminator byte.
pub fn validate(req: &CompileRequest) -> (r: Result<(), ShimError>)
    ensures
        r is Ok <==> request_terminator_free(req.source@, req.options@),
        r matches Err(e) ==> e == ShimError::InteriorTerminator,
{
    if bytes_terminator_free(&req.source) && bytes_terminator_free(&req.options) {
        Ok(())
    } else {
        Err(ShimError::InteriorTerminator)
    }
}

/// What a byte sequence decodes to as text, if it is valid.
pub uninterp spec fn utf8_decoded(bytes: Seq<u8>) -> Option<Seq<char>>;

/// Relies on String::from_utf8: it succeeds exactly on byte sequences
/// that are valid text, and the decoding is a function of the bytes
/// alone.
#[verifier::external_body]
fn decode_log(bytes: Vec<u8>) -> (r: Option<String>)
    ensures
        r is Some <==> utf8_decoded(bytes@) is Some,
        r matches Some(s) ==> utf8_decoded(bytes@) == Some(s@),
{
    String::from_utf8(bytes).ok()
}

/// An output assembled from a native report carries the report exactly:
/// the forwarded return code, the reported words, and the valid-text
/// decoding of the reported log bytes.
pub open spec fn assembled_ok(ret: int, words: Seq<u32>, log: Seq<u8>, out: Output) -> bool {
    &&& out.ret_code == ret
    &&& out.output@ == words
    &&& utf8_decoded(log) == Some(out.log@)
}

/// Builds the owned compilation result from what the native calls
/// reported. The return code is forwarded untouched — interpretation
/// belongs to the caller — and the output words are exactly the
/// reported buffer. The diagnostic log must decode as valid text; an
/// invalid log is the one failure left at this point, raised only
/// after the handle was already released.
pub fn assemble_output(ret_code: i32, words: Vec<u32>, log_bytes: Vec<u8>) -> (r: Result<
    Output,
    ShimError,
>)
    ensures
        r is Ok <==> utf8_decoded(log_bytes@) is Some,
        r matches Ok(out) ==> assembled_ok(ret_code as int, words@, log_bytes@, out),
        r matches Err(e) ==> e == ShimError::InvalidLogText,
{
    match decode_log(log_bytes) {
        Some(log) => Ok(Output { ret_code, output: words, log }),
        None => Err(ShimError::InvalidLogText),
    }
}

/// A directive the shim hands its driver: one native call to make.
#[derive(Clone, Copy, PartialEq, Eq, Structural, Debug)]
pub enum Action {
    /// Allocate a fresh opaque result handle.
    AllocResult,
    /// Invoke the native compile entry point on the request and handle.
    InvokeCompile,
    /// Copy the output buffer out of the handle.
    TakeOutput,
    /// Copy the diagnostic log out of the handle.
    TakeLog,
    /// Release the handle; nothing of it may be read afterwards.
    FreeResult,
}

/// What the driver reports back after performing a directive.
#[derive(Debug)]
pub enum Event {
    /// The handle was allocated.
    AllocDone,
    /// The native compile call returned this code.
    CompileReturned(i32),
    /// The output buffer, copied into owned memory.
    OutputTaken(Vec<u32>),
    /// The diagnostic log bytes, copied into owned memory.
    LogTaken(Vec<u8>),
    /// The handle was released.
    FreeDone,
}

/// Where one compile call stands in its strict sequence.
#[derive(Debug)]
pub enum Phase {
    /// Allocation directed, not yet confirmed.
    AwaitAlloc,
    /// Native compile call directed, return code pending.
    AwaitReturn,
    /// Output-buffer copy directed.
    AwaitOutput { ret: i32 },
    /// Diagnostic-log copy directed.
    AwaitLog { ret: i32, words: Vec<u32> },
    /// Handle release directed; the native report is complete.
    AwaitFree { ret: i32, words: Vec<u32>, log: Vec<u8> },
    /// The call is over, one way or the other.
    Complete(Result<Output, ShimError>),
}

/// The directive history of a run that went all the way through.
pub open spec fn full_history() -> Seq<Action> {
    seq![
        Action::AllocResult,
        Action::InvokeCompile,
        Action::TakeOutput,
        Action::TakeLog,
        Action::FreeResult,
    ]
}

/// How often a directive occurs in a history.
pub open spec fn count_actions(h: Seq<Action>, a: Action) -> nat
    decreases h.len(),
{
    if h.len() == 0 {
        0
    } else {
        count_actions(h.drop_last(), a) + (if h.last() == a {
            1nat
        } else {
            0nat
        })
    }
}

/// The state machine of one compile call. It owns no native resource
/// itself; it decides, and remembers in ghost state which directives it
/// has issued and for which request.
pub struct Shim {
    pub phase: Phase,
    /// Every directive issued so far, in order.
    pub history: Ghost<Seq<Action>>,
    /// The request's program text, as handed to `Shim::new`.
    pub source: Ghost<Seq<u8>>,
    /// The request's option string, as handed to `Shim::new`.
    pub options: Ghost<Seq<u8>>,
}

impl Shim {
    /// The request this machine was created for is terminator-free.
    pub open spec fn valid_request(self) -> bool {
        request_terminator_free(self.source@, self.options@)
    }

    /// Well-formedness: each phase determines the exact directive
    /// history, a rejected request never left the completed phase, and
    /// only a rejected request completes with the terminator error.
    pub open spec fn wf(self) -> bool {
        match self.phase {
            Phase::AwaitAlloc => self.valid_request() && self.history@ == seq![
                Action::AllocResult,
            ],
            Phase::AwaitReturn => self.valid_request() && self.history@ == seq![
                Action::AllocResult,
                Action::InvokeCompile,
            ],
            Phase::AwaitOutput { .. } => self.valid_request() && self.history@ == seq![
                Action::AllocResult,
                Action::InvokeCompile,
                Action::TakeOutput,
            ],
            Phase::AwaitLog { .. } => self.valid_request() && self.history@ == seq![
                Action::AllocResult,
                Action::InvokeCompile,
                Action::TakeOutput,
                Action::TakeLog,
            ],
            Phase::AwaitFree { .. } => self.valid_request() && self.history@ == full_history(),
            Phase::Complete(res) => {
                if self.valid_request() {
                    &&& self.history@ == full_history()
                    &&& !(res matches Err(ShimError::InteriorTerminator))
                } else {
                    &&& self.history@ == Seq::<Action>::empty()
                    &&& res matches Err(e) && e == ShimError::InteriorTerminator
                }
            },
        }
    }

    /// The one event the current phase is waiting for.
    pub open spec fn expects_spec(self, e: Event) -> bool {
        match (self.phase, e) {
            (Phase::AwaitAlloc, Event::AllocDone) => true,
            (Phase::AwaitReturn, Event::CompileReturned(_)) => true,
            (Phase::AwaitOutput { .. }, Event::OutputTaken(_)) => true,
            (Phase::AwaitLog { .. }, Event::LogTaken(_)) => true,
            (Phase::AwaitFree { .. }, Event::FreeDone) => true,
            _ => false,
        }
    }

    /// Whether an event is the one the machine is waiting for; a driver
    /// checks this before reporting.
    pub fn expects(&self, e: &Event) -> (b: bool)
        ensures
            b == self.expects_spec(*e),
    {
        match (&self.phase, e) {
            (Phase::AwaitAlloc, Event::AllocDone) => true,
            (Phase::AwaitReturn, Event::CompileReturned(_)) => true,
            (Phase::AwaitOutput { .. }, Event::OutputTaken(_)) => true,
            (Phase::AwaitLog { .. }, Event::LogTaken(_)) => true,
            (Phase::AwaitFree { .. }, Event::FreeDone) => true,
            _ => false,
        }
    }

    /// Opens one compile call. A terminator-free request yields the
    /// allocate directive; a request with an embedded terminator is
    /// rejected on the spot, before any directive — native allocation
    /// included — is issued.
    pub fn new(req: &CompileRequest) -> (r: (Shim, Option<Action>))
        ensures
            r.0.wf(),
            r.0.source@ == req.source@,
            r.0.options@ == req.options@,
            request_terminator_free(req.source@, req.options@) ==> {
                &&& r.0.phase is AwaitAlloc
                &&& r.1 == Some(Action::AllocResult)
            },
            !request_terminator_free(req.source@, req.options@) ==> {
                &&& r.0.phase matches Phase::Complete(res) && res matches Err(e) && e
                    == ShimError::InteriorTerminator
                &&& r.1 is None
                &&& r.0.history@ == Seq::<Action>::empty()
            },
    {
        let ghost opened: Seq<Action> = seq![Action::AllocResult];
        let ghost rejected: Seq<Action> = Seq::<Action>::empty();
        let ghost src: Seq<u8> = req.source@;
        let ghost opts: Seq<u8> = req.options@;
        match validate(req) {
            Ok(_) => (
                Shim {
                    phase: Phase::AwaitAlloc,
                    history: Ghost(opened),
                    source: Ghost(src),
                    options: Ghost(opts),
                },
                Some(Action::AllocResult),
            ),
            Err(e) => (
                Shim {
                    phase: Phase::Complete(Err(e)),
                    history: Ghost(rejected),
                    source: Ghost(src),
                    options: Ghost(opts),
                },
                None,
            ),
        }
    }

    /// Takes the driver's report of the last directive's outcome and
    /// decides the next directive. The sequence is fixed: allocate,
    /// invoke, take output, take log, free — the release directive is
    /// issued whatever return code the native call reported, and the
    /// result is assembled only after the release is confirmed.
    pub fn on_event(self, e: Event) -> (r: (Shim, Option<Action>))
        requires
            self.wf(),
            self.expects_spec(e),
        ensures
            r.0.wf(),
            r.0.source@ == self.source@,
            r.0.options@ == self.options@,
            match (self.phase, e) {
                (Phase::AwaitAlloc, Event::AllocDone) => {
                    &&& r.0.phase is AwaitReturn
                    &&& r.1 == Some(Action::InvokeCompile)
                },
                (Phase::AwaitReturn, Event::CompileReturned(c)) => {
                    &&& r.0.phase matches Phase::AwaitOutput { ret } && ret == c
                    &&& r.1 == Some(Action::TakeOutput)
                },
                (Phase::AwaitOutput { ret }, Event::OutputTaken(w)) => {
                    &&& r.0.phase matches Phase::AwaitLog { ret: ret2, words } && ret2 == ret
                        && words@ == w@
                    &&& r.1 == Some(Action::TakeLog)
                },
                (Phase::AwaitLog { ret, words }, Event::LogTaken(b)) => {
                    &&& r.0.phase matches Phase::AwaitFree { ret: ret2, words: words2, log }
                        && ret2 == ret && words2@ == words@ && log@ == b@
                    &&& r.1 == Some(Action::FreeResult)
                },
                (Phase::AwaitFree { ret, words, log }, Event::FreeDone) => {
                    &&& r.0.phase matches Phase::Complete(res) && {
                        &&& res is Ok <==> utf8_decoded(log@) is Some
                        &&& res matches Ok(out) ==> assembled_ok(ret as int, words@, log@, out)
                        &&& res matches Err(err) ==> err == ShimError::InvalidLogText
                    }
                    &&& r.1 is None
                },
                _ => false,
            },
    {
        let ghost after_alloc: Seq<Action> = seq![Action::AllocResult, Action::InvokeCompile];
        let ghost after_return: Seq<Action> = seq![
            Action::AllocResult,
            Action::InvokeCompile,
            Action::TakeOutput,
        ];
        let ghost after_output: Seq<Action> = seq![
            Action::AllocResult,
            Action::InvokeCompile,
            Action::TakeOutput,
            Action::TakeLog,
        ];
        let ghost after_log: Seq<Action> = full_history();
        let Shim { phase, history: _, source, options } = self;
        match (phase, e) {
            (Phase::AwaitAlloc, Event::AllocDone) => (
                Shim { phase: Phase::AwaitReturn, history: Ghost(after_alloc), source, options },
                Some(Action::InvokeCompile),
            ),
            (Phase::AwaitReturn, Event::CompileReturned(c)) => (
                Shim {
                    phase: Phase::AwaitOutput { ret: c },
                    history: Ghost(after_return),
                    source,
                    options,
                },
                Some(Action::TakeOutput),
            ),
            (Phase::AwaitOutput { ret }, Event::OutputTaken(w)) => (
                Shim {
                    phase: Phase::AwaitLog { ret, words: w },
                    history: Ghost(after_output),
                    source,
                    options,
                },
                Some(Action::TakeLog),
            ),
            (Phase::AwaitLog { ret, words }, Event::LogTaken(b)) => (
                Shim {
                    phase: Phase::AwaitFree { ret, words, log: b },
                    history: Ghost(after_log),
                    source,
                    options,
                },
                Some(Action::FreeResult),
            ),
            (Phase::AwaitFree { ret, words, log }, Event::FreeDone) => {
                let res = assemble_output(ret, words, log);
                (
                    Shim { phase: Phase::Complete(res), history: Ghost(after_log), source, options },
                    None,
                )
            },
            _ => unreached(),
        }
    }

    /// Whether the call is over and the result can be taken.
    pub fn is_complete(&self) -> (b: bool)
        ensures
            b == (self.phase is Complete),
    {
        matches!(self.phase, Phase::Complete(_))
    }

    /// Hands the finished call's result to the caller, who owns it
    /// exclusively from here on.
    pub fn into_result(self) -> (r: Result<Output, ShimError>)
        requires
            self.phase is Complete,
        ensures
            self.phase matches Phase::Complete(res) && r == res,
    {
        match self.phase {
            Phase::Complete(res) => res,
            _ => unreached(),
        }
    }
}

proof fn lemma_full_history_counts()
    ensures
        count_actions(full_history(), Action::AllocResult) == 1,
        count_actions(full_history(), Action::FreeResult) == 1,
{
    let h5 = full_history();
    let h4 = seq![Action::AllocResult, Action::InvokeCompile, Action::TakeOutput, Action::TakeLog];
    let h3 = seq![Action::AllocResult, Action::InvokeCompile, Action::TakeOutput];
    let h2 = seq![Action::AllocResult, Action::InvokeCompile];
    let h1 = seq![Action::AllocResult];
    let h0 = Seq::<Action>::empty();
    assert(h5.drop_last() =~= h4);
    assert(h4.drop_last() =~= h3);
    assert(h3.drop_last() =~= h2);
    assert(h2.drop_last() =~= h1);
    assert(h1.drop_last() =~= h0);
    assert(count_actions(h0, Action::AllocResult) == 0);
    assert(count_actions(h1, Action::AllocResult) == 1);
    assert(count_actions(h2, Action::AllocResult) == 1);
    assert(count_actions(h3, Action::AllocResult) == 1);
    assert(count_actions(h4, Action::AllocResult) == 1);
    assert(count_actions(h5, Action::AllocResult) == 1);
    assert(count_actions(h0, Action::FreeResult) == 0);
    assert(count_actions(h1, Action::FreeResult) == 0);
    assert(count_actions(h2, Action::FreeResult) == 0);
    assert(count_actions(h3, Action::FreeResult) == 0);
    assert(count_actions(h4, Action::FreeResult) == 0);
    assert(count_actions(h5, Action::FreeResult) == 1);
}

/// Law: for any request, a completed call paired its allocations and
/// releases exactly — one allocate directive and one free directive
/// when the request reached the native library (on failing return
/// codes and invalid logs too), and none at all when it was rejected.
pub proof fn lemma_alloc_free_paired(s: Shim)
    requires
        s.wf(),
        s.phase is Complete,
    ensures
        count_actions(s.history@, Action::AllocResult) == count_actions(
            s.history@,
            Action::FreeResult,
        ),
        s.valid_request() ==> count_actions(s.history@, Action::AllocResult) == 1,
        !s.valid_request() ==> count_actions(s.history@, Action::AllocResult) == 0,
{
    lemma_full_history_counts();
    if !s.valid_request() {
        assert(count_actions(Seq::<Action>::empty(), Action::AllocResult) == 0);
        assert(count_actions(Seq::<Action>::empty(), Action::FreeResult) == 0);
    }
}

/// Law: a request with an embedded terminator byte in either string
/// fails before any native allocate directive is issued — the machine
/// stands completed with the terminator error and an empty directive
/// history, so no handle can have leaked.
pub proof fn lemma_terminator_rejected_before_alloc(s: Shim)
    requires
        s.wf(),
        !s.valid_request(),
    ensures
        count_actions(s.history@, Action::AllocResult) == 0,
        s.phase matches Phase::Complete(res) && res matches Err(e) && e
            == ShimError::InteriorTerminator,
{
    assert(count_actions(Seq::<Action>::empty(), Action::AllocResult) == 0);
}

/// Law: every result assembled from a native report reflects the
/// report exactly — the return code is the one the native call gave,
/// the output length matches the reported word count, and the
/// diagnostic log is the valid-text decoding of the reported bytes.
pub proof fn lemma_result_reflects_native_report(
    ret: int,
    words: Seq<u32>,
    log: Seq<u8>,
    out: Output,
)
    requires
        assembled_ok(ret, words, log, out),
    ensures
        out.ret_code == ret,
        out.output@.len() == words.len(),
        utf8_decoded(log) == Some(out.log@),
{
}

} // verus!

