//! The recompile session: one cycle at a time, driven by events that the
//! consumer's loop hands in, answered by the actions it must perform next.
//!
//! A cycle runs Idle, then captures the preview's text, reads the definition,
//! has the test file's language resolved, and either installs a fresh preview
//! holding the captured text or reports why it could not. Triggers that come
//! while a cycle is running wait for it to end.

use vstd::prelude::*;
use crate::compiler::{Build, Compiler, compiled};
use crate::validation::{Diagnostic, ValidationOutcome};

verus! {

/// Where the session stands in its current cycle.
#[derive(Clone, Copy, Debug, PartialEq, Eq, Structural)]
pub enum Phase {
    Idle,
    Capturing,
    Reading,
    Resolving,
}

/// The preview that is shown: its language and its text.
#[derive(Debug)]
pub struct BufferSpec {
    pub kind: String,
    pub text: String,
}

/// A request to write `definition` where the resolver looks, then to resolve
/// the language of `target`.
#[derive(Debug)]
pub struct Request {
    pub definition: String,
    pub target: String,
}

/// What the consumer's loop hands to the session.
#[derive(Debug)]
pub enum Event {
    /// A recompile was requested.
    Trigger,
    /// The text of the shown preview, or of the test file when none is shown.
    Captured(String),
    /// The definition read from disk, or why it could not be read.
    SourceRead(Result<String, String>),
    /// The file the definition was written to, and the resolver's answer:
    /// a language id, or why none was found.
    Resolved(String, Result<String, String>),
}

/// What the consumer's loop must do next, in order.
#[derive(Debug)]
pub enum Action {
    /// Hand back the preview's current text with `Event::Captured`.
    CaptureText,
    /// Read the definition file and hand it back with `Event::SourceRead`.
    ReadSource,
    /// Do the request and hand back the result with `Event::Resolved`.
    Resolve(Request),
    /// Print the diagnostic.
    Report(Diagnostic),
    /// Show a new preview, restoring its text without an undo step.
    Install(BufferSpec),
}

/// The consumer's side of the pipeline.
pub struct Session {
    pub compiler: Compiler,
    /// The definition file, named in diagnostics when it cannot be read.
    pub definition_file: String,
    pub phase: Phase,
    /// The text captured at the start of the running cycle.
    pub captured: String,
    /// The definition read in the running cycle.
    pub definition: String,
    /// Triggers that came while a cycle was running.
    pub pending: usize,
    /// The preview last installed.
    pub active: Option<BufferSpec>,
}

/// `a` installs a preview of language `kind` holding `text`.
pub open spec fn installs(a: Action, kind: Seq<char>, text: Seq<char>) -> bool {
    a is Install && a->Install_0.kind@ == kind && a->Install_0.text@ == text
}

/// `active` is a preview of language `kind` holding `text`.
pub open spec fn shows(active: Option<BufferSpec>, kind: Seq<char>, text: Seq<char>) -> bool {
    active is Some && active->Some_0.kind@ == kind && active->Some_0.text@ == text
}

/// The parts of a session that a step leaves alone unless it says otherwise.
pub open spec fn same_setup(pre: Session, post: Session) -> bool {
    post.compiler == pre.compiler && post.definition_file == pre.definition_file
}

/// How a cycle ends: the next waiting trigger starts at once, else the
/// session is idle. `tail` is what is asked for after the cycle's own actions.
pub open spec fn ended(pre: Session, post: Session, tail: Seq<Action>) -> bool {
    if pre.pending > 0 {
        post.phase == Phase::Capturing && post.pending == pre.pending - 1 && tail.len() == 1
            && tail[0] is CaptureText
    } else {
        post.phase == Phase::Idle && post.pending == 0 && tail.len() == 0
    }
}

/// A trigger starts a cycle when idle; otherwise it waits behind the running
/// cycle, which it leaves as it is.
pub open spec fn triggered(pre: Session, post: Session, acts: Seq<Action>) -> bool {
    &&& same_setup(pre, post)
    &&& post.captured == pre.captured
    &&& post.definition == pre.definition
    &&& post.active == pre.active
    &&& if pre.phase == Phase::Idle {
        post.phase == Phase::Capturing && post.pending == pre.pending && acts.len() == 1
            && acts[0] is CaptureText
    } else {
        post.phase == pre.phase && acts.len() == 0 && (pre.pending < usize::MAX ==> post.pending
            == pre.pending + 1) && (pre.pending == usize::MAX ==> post.pending == pre.pending)
    }
}

/// The captured text is kept for the new preview, and the definition is
/// asked for.
pub open spec fn took_text(pre: Session, text: String, post: Session, acts: Seq<Action>) -> bool {
    if pre.phase == Phase::Capturing {
        &&& same_setup(pre, post)
        &&& post.phase == Phase::Reading
        &&& post.captured == text
        &&& post.definition == pre.definition
        &&& post.pending == pre.pending
        &&& post.active == pre.active
        &&& acts.len() == 1 && acts[0] is ReadSource
    } else {
        post == pre && acts.len() == 0
    }
}

/// A definition that was read is sent to be resolved against the test file's
/// name; one that was not ends the cycle with one diagnostic and the preview
/// untouched.
pub open spec fn took_source(pre: Session, read: Result<String, String>, post: Session, acts: Seq<Action>) -> bool {
    if pre.phase == Phase::Reading {
        &&& same_setup(pre, post)
        &&& post.captured == pre.captured
        &&& post.active == pre.active
        &&& match read {
            Ok(src) => {
                &&& post.phase == Phase::Resolving
                &&& post.definition == src
                &&& post.pending == pre.pending
                &&& acts.len() == 1 && acts[0] is Resolve
                &&& acts[0]->Resolve_0.definition@ == src@
                &&& acts[0]->Resolve_0.target@ == pre.compiler.test_file@
            },
            Err(m) => {
                &&& post.definition == pre.definition
                &&& acts.len() >= 1 && acts[0] is Report
                &&& acts[0]->Report_0.source@ == pre.definition_file@
                &&& acts[0]->Report_0.position is None
                &&& m@.len() > 0 ==> acts[0]->Report_0.message@ == m@
                &&& acts[0]->Report_0.message@.len() > 0
                &&& ended(pre, post, acts.drop_first())
            },
        }
    } else {
        post == pre && acts.len() == 0
    }
}

/// The end of a cycle once the preview is built, or could not be: a build
/// reports what the check found, then installs the captured text under the
/// resolved language; a failure is reported and the preview left as it was.
pub open spec fn completed(pre: Session, built: Result<Build, Diagnostic>, post: Session, acts: Seq<Action>) -> bool {
    if pre.phase == Phase::Resolving {
        &&& same_setup(pre, post)
        &&& post.captured == pre.captured
        &&& post.definition == pre.definition
        &&& match built {
            Err(d) => {
                &&& post.active == pre.active
                &&& acts.len() >= 1 && acts[0] == Action::Report(d)
                &&& ended(pre, post, acts.drop_first())
            },
            Ok(b) => {
                &&& shows(post.active, b.kind@, pre.captured@)
                &&& match b.check {
                    ValidationOutcome::Valid => {
                        &&& acts.len() >= 1 && installs(acts[0], b.kind@, pre.captured@)
                        &&& ended(pre, post, acts.drop_first())
                    },
                    ValidationOutcome::Invalid(d) => {
                        &&& acts.len() >= 2 && acts[0] == Action::Report(d)
                        &&& installs(acts[1], b.kind@, pre.captured@)
                        &&& ended(pre, post, acts.skip(2))
                    },
                }
            },
        }
    } else {
        post == pre && acts.len() == 0
    }
}

impl Session {
    /// An idle session with no preview shown yet.
    pub fn new(compiler: Compiler, definition_file: String) -> (r: Session)
        ensures
            r.compiler == compiler,
            r.definition_file == definition_file,
            r.phase == Phase::Idle,
            r.pending == 0,
            r.active is None,
    {
        Session {
            compiler,
            definition_file,
            phase: Phase::Idle,
            captured: String::new(),
            definition: String::new(),
            pending: 0,
            active: None,
        }
    }

    /// Ends the running cycle and starts the next waiting one, if any.
    fn end_cycle(&mut self, acts: &mut Vec<Action>)
        ensures
            final(self).compiler == old(self).compiler,
            final(self).definition_file == old(self).definition_file,
            final(self).captured == old(self).captured,
            final(self).definition == old(self).definition,
            final(self).active == old(self).active,
            final(acts)@.len() >= old(acts)@.len(),
            final(acts)@.take(old(acts)@.len() as int) == old(acts)@,
            ended(*old(self), *final(self), final(acts)@.skip(old(acts)@.len() as int)),
    {
        let ghost start = acts@;
        if self.pending > 0 {
            self.pending = self.pending - 1;
            self.phase = Phase::Capturing;
            acts.push(Action::CaptureText);
            assert(acts@.skip(start.len() as int) =~= seq![Action::CaptureText]);
        } else {
            self.phase = Phase::Idle;
            assert(acts@.skip(start.len() as int) =~= Seq::<Action>::empty());
        }
        assert(acts@.take(start.len() as int) =~= start);
    }

    /// Handles a recompile request.
    pub fn trigger(&mut self) -> (acts: Vec<Action>)
        ensures
            triggered(*old(self), *final(self), acts@),
    {
        let mut acts: Vec<Action> = Vec::new();
        if self.phase == Phase::Idle {
            self.phase = Phase::Capturing;
            acts.push(Action::CaptureText);
        } else if self.pending < usize::MAX {
            self.pending = self.pending + 1;
        }
        acts
    }

    /// Takes the text to restore in the new preview.
    pub fn take_text(&mut self, text: String) -> (acts: Vec<Action>)
        ensures
            took_text(*old(self), text, *final(self), acts@),
    {
        let mut acts: Vec<Action> = Vec::new();
        if self.phase == Phase::Capturing {
            self.captured = text;
            self.phase = Phase::Reading;
            acts.push(Action::ReadSource);
        }
        acts
    }

    /// Takes the definition as read from disk, or the reason it was not.
    pub fn take_source(&mut self, read: Result<String, String>) -> (acts: Vec<Action>)
        ensures
            took_source(*old(self), read, *final(self), acts@),
    {
        let mut acts: Vec<Action> = Vec::new();
        if self.phase != Phase::Reading {
            return acts;
        }
        proof {
            reveal_strlit("cannot read the definition");
        }
        match read {
            Ok(src) => {
                let request = Request { definition: src.clone(), target: self.compiler.test_file.clone() };
                self.definition = src;
                self.phase = Phase::Resolving;
                acts.push(Action::Resolve(request));
            },
            Err(m) => {
                let message = if !m.as_str().is_empty() {
                    m
                } else {
                    "cannot read the definition".to_owned()
                };
                acts.push(
                    Action::Report(Diagnostic { source: self.definition_file.clone(), position: None, message }),
                );
                self.end_cycle(&mut acts);
                assert(acts@[0] == acts@.take(1)[0]);
                assert(acts@.drop_first() =~= acts@.skip(1));
            },
        }
        acts
    }

    /// Ends the running cycle with the preview that was built for it, or with
    /// the reason it could not be.
    pub fn complete(&mut self, built: Result<Build, Diagnostic>) -> (acts: Vec<Action>)
        ensures
            completed(*old(self), built, *final(self), acts@),
    {
        let mut acts: Vec<Action> = Vec::new();
        if self.phase != Phase::Resolving {
            return acts;
        }
        match built {
            Err(d) => {
                acts.push(Action::Report(d));
            },
            Ok(b) => {
                let Build { kind, check } = b;
                match check {
                    ValidationOutcome::Invalid(d) => acts.push(Action::Report(d)),
                    ValidationOutcome::Valid => {},
                }
                let shown = BufferSpec { kind: kind.clone(), text: self.captured.clone() };
                acts.push(Action::Install(BufferSpec { kind, text: self.captured.clone() }));
                self.active = Some(shown);
            },
        }
        let ghost before = acts@;
        self.end_cycle(&mut acts);
        proof {
            assert(acts@.take(before.len() as int)[0] == acts@[0]);
            if before.len() > 1 {
                assert(acts@.take(before.len() as int)[1] == acts@[1]);
            }
        }
        assert(acts@.drop_first() =~= acts@.skip(1));
        acts
    }

    /// Takes the resolver's answer for the definition written to `doc`,
    /// builds the preview and ends the cycle.
    pub fn take_resolution(&mut self, doc: String, resolved: Result<String, String>) -> (acts: Vec<Action>)
        ensures
            old(self).phase == Phase::Resolving ==> exists|built: Result<Build, Diagnostic>|
                compiled(old(self).compiler, old(self).definition@, doc@, resolved, built) && completed(
                    *old(self),
                    built,
                    *final(self),
                    acts@,
                ),
            old(self).phase != Phase::Resolving ==> *final(self) == *old(self) && acts@.len() == 0,
    {
        if self.phase != Phase::Resolving {
            return Vec::new();
        }
        let built = self.compiler.compile_buffer(self.definition.as_str(), doc.as_str(), resolved);
        let ghost b = built;
        let acts = self.complete(built);
        assert(compiled(old(self).compiler, old(self).definition@, doc@, resolved, b));
        acts
    }

    /// Hands one event to the session and returns what must be done next.
    pub fn step(&mut self, event: Event) -> (acts: Vec<Action>)
        ensures
            match event {
                Event::Trigger => triggered(*old(self), *final(self), acts@),
                Event::Captured(text) => took_text(*old(self), text, *final(self), acts@),
                Event::SourceRead(read) => took_source(*old(self), read, *final(self), acts@),
                Event::Resolved(doc, resolved) => {
                    &&& old(self).phase == Phase::Resolving ==> exists|built: Result<Build, Diagnostic>|
                        compiled(old(self).compiler, old(self).definition@, doc@, resolved, built) && completed(
                            *old(self),
                            built,
                            *final(self),
                            acts@,
                        )
                    &&& old(self).phase != Phase::Resolving ==> *final(self) == *old(self) && acts@.len() == 0
                },
            },
    {
        match event {
            Event::Trigger => self.trigger(),
            Event::Captured(text) => self.take_text(text),
            Event::SourceRead(read) => self.take_source(read),
            Event::Resolved(doc, resolved) => self.take_resolution(doc, resolved),
        }
    }
}

/// One whole cycle from an idle session `s0`: a trigger, the text `text`
/// captured, the definition `src` read, and the resolver's answer `kind` for
/// the definition written to `doc`, ending in `s4`.
pub open spec fn swapped_cycle(
    s0: Session,
    s1: Session,
    s2: Session,
    s3: Session,
    s4: Session,
    acts: (Seq<Action>, Seq<Action>, Seq<Action>, Seq<Action>),
    text: String,
    src: String,
    doc: Seq<char>,
    kind: String,
    built: Result<Build, Diagnostic>,
) -> bool {
    &&& s0.phase == Phase::Idle
    &&& triggered(s0, s1, acts.0)
    &&& took_text(s1, text, s2, acts.1)
    &&& took_source(s2, Ok(src), s3, acts.2)
    &&& compiled(s3.compiler, s3.definition@, doc, Ok(kind), built)
    &&& completed(s3, built, s4, acts.3)
}

/// The text captured at a trigger is the text of the preview installed at
/// the end of its cycle, whatever the definition now says: the installed
/// preview holds exactly that text, in the resolved language.
pub proof fn lemma_text_preserved(
    s0: Session,
    s1: Session,
    s2: Session,
    s3: Session,
    s4: Session,
    acts: (Seq<Action>, Seq<Action>, Seq<Action>, Seq<Action>),
    text: String,
    src: String,
    doc: Seq<char>,
    kind: String,
    built: Result<Build, Diagnostic>,
)
    requires
        swapped_cycle(s0, s1, s2, s3, s4, acts, text, src, doc, kind, built),
    ensures
        shows(s4.active, kind@, text@),
        exists|i: int| 0 <= i < acts.3.len() && installs(#[trigger] acts.3[i], kind@, text@),
{
    let b = built->Ok_0;
    match b.check {
        ValidationOutcome::Valid => assert(installs(acts.3[0], kind@, text@)),
        ValidationOutcome::Invalid(_) => assert(installs(acts.3[1], kind@, text@)),
    }
}

/// Recompiling again with nothing changed in between (the same definition,
/// the text captured being the text restored by the first cycle, and the
/// resolver giving the same language for the same file) installs a preview
/// equal to the first one, in language and in text.
pub proof fn lemma_recompile_idempotent(
    s0: Session,
    s1: Session,
    s2: Session,
    s3: Session,
    s4: Session,
    first: (Seq<Action>, Seq<Action>, Seq<Action>, Seq<Action>),
    t1: Session,
    t2: Session,
    t3: Session,
    t4: Session,
    second: (Seq<Action>, Seq<Action>, Seq<Action>, Seq<Action>),
    text: String,
    again: String,
    src: String,
    doc: Seq<char>,
    doc2: Seq<char>,
    kind: String,
    kind2: String,
    built: Result<Build, Diagnostic>,
    built2: Result<Build, Diagnostic>,
)
    requires
        swapped_cycle(s0, s1, s2, s3, s4, first, text, src, doc, kind, built),
        swapped_cycle(s4, t1, t2, t3, t4, second, again, src, doc2, kind2, built2),
        s4.active is Some && again@ == s4.active->Some_0.text@,
        kind2@ == kind@,
    ensures
        t4.active is Some,
        t4.active->Some_0.kind@ == s4.active->Some_0.kind@,
        t4.active->Some_0.text@ == s4.active->Some_0.text@,
        t4.active->Some_0.text@ == text@,
{
    lemma_text_preserved(s0, s1, s2, s3, s4, first, text, src, doc, kind, built);
    lemma_text_preserved(s4, t1, t2, t3, t4, second, again, src, doc2, kind2, built2);
}

/// A resolver that finds no language for the test file leaves the shown
/// preview as it was, and the cycle reports exactly one diagnostic and
/// installs nothing.
pub proof fn lemma_resolution_failure_contained(
    pre: Session,
    post: Session,
    acts: Seq<Action>,
    doc: Seq<char>,
    why: String,
    built: Result<Build, Diagnostic>,
)
    requires
        pre.phase == Phase::Resolving,
        compiled(pre.compiler, pre.definition@, doc, Err(why), built),
        completed(pre, built, post, acts),
    ensures
        post.active == pre.active,
        acts.len() >= 1 && acts[0] is Report,
        forall|i: int| 1 <= i < acts.len() ==> !(#[trigger] acts[i] is Report) && !(acts[i] is Install),
{
    assert forall|i: int| 1 <= i < acts.len() implies !(#[trigger] acts[i] is Report) && !(acts[i] is Install) by {
        assert(acts[i] == acts.drop_first()[i - 1]);
    }
}

/// A definition that breaks the schema does not stop the cycle: the new
/// preview is installed all the same, and exactly one diagnostic is reported,
/// located in the checked document and with a message.
pub proof fn lemma_validation_non_blocking(
    pre: Session,
    post: Session,
    acts: Seq<Action>,
    doc: Seq<char>,
    kind: String,
    built: Result<Build, Diagnostic>,
)
    requires
        pre.phase == Phase::Resolving,
        doc.len() > 0,
        compiled(pre.compiler, pre.definition@, doc, Ok(kind), built),
        built->Ok_0.check is Invalid,
        completed(pre, built, post, acts),
    ensures
        shows(post.active, kind@, pre.captured@),
        acts.len() >= 2 && acts[0] is Report && installs(acts[1], kind@, pre.captured@),
        acts[0]->Report_0.source@ == doc && acts[0]->Report_0.source@.len() > 0,
        acts[0]->Report_0.message@.len() > 0,
        forall|i: int| 1 <= i < acts.len() ==> !(#[trigger] acts[i] is Report),
{
    assert forall|i: int| 1 <= i < acts.len() implies !(#[trigger] acts[i] is Report) by {
        if i >= 2 {
            assert(acts[i] == acts.skip(2)[i - 2]);
        }
    }
}

/// A trigger that comes while a cycle runs does not touch it: the running
/// cycle keeps its phase, its captured text, its definition and the shown
/// preview, and the trigger is counted as waiting.
pub proof fn lemma_trigger_waits(pre: Session, post: Session, acts: Seq<Action>)
    requires
        pre.phase != Phase::Idle,
        pre.pending < usize::MAX,
        triggered(pre, post, acts),
    ensures
        post.phase == pre.phase,
        post.captured == pre.captured,
        post.definition == pre.definition,
        post.active == pre.active,
        acts.len() == 0,
        post.pending == pre.pending + 1,
{
}

/// A waiting trigger starts its own cycle only once the running one has
/// ended: after the running cycle's last action, a new capture is asked for.
pub proof fn lemma_waiting_trigger_follows(
    pre: Session,
    built: Result<Build, Diagnostic>,
    post: Session,
    acts: Seq<Action>,
)
    requires
        pre.phase == Phase::Resolving,
        pre.pending > 0,
        completed(pre, built, post, acts),
    ensures
        post.phase == Phase::Capturing,
        post.pending == pre.pending - 1,
        acts.len() >= 2,
        acts.last() is CaptureText,
        forall|i: int| 0 <= i < acts.len() - 1 ==> !(#[trigger] acts[i] is CaptureText),
{
    match built {
        Ok(b) => match b.check {
            ValidationOutcome::Invalid(_) => {
                assert(acts.last() == acts.skip(2)[0]);
            },
            ValidationOutcome::Valid => {
                assert(acts.last() == acts.drop_first()[0]);
            },
        },
        Err(_) => {
            assert(acts.last() == acts.drop_first()[0]);
        },
    }
}

/// Two triggers in quick succession run one after the other: the second,
/// arriving while the first cycle is under way, asks for nothing; every step
/// of the first cycle (its capture, its read, its build and install) happens
/// with no capture for the second in between; and only the first cycle's last
/// action hands over to the second, which then starts from its own capture,
/// with no trigger left waiting.
pub proof fn lemma_triggers_in_order(
    s0: Session,
    s1: Session,
    s2: Session,
    s3: Session,
    s4: Session,
    s5: Session,
    a: (Seq<Action>, Seq<Action>, Seq<Action>, Seq<Action>, Seq<Action>),
    text: String,
    src: String,
    doc: Seq<char>,
    kind: String,
    built: Result<Build, Diagnostic>,
)
    requires
        s0.phase == Phase::Idle,
        s0.pending == 0,
        triggered(s0, s1, a.0),
        triggered(s1, s2, a.1),
        took_text(s2, text, s3, a.2),
        took_source(s3, Ok(src), s4, a.3),
        compiled(s4.compiler, s4.definition@, doc, Ok(kind), built),
        completed(s4, built, s5, a.4),
    ensures
        a.0.len() == 1 && a.0[0] is CaptureText,
        a.1.len() == 0,
        s3.captured == text,
        a.2.len() == 1 && a.2[0] is ReadSource,
        a.3.len() == 1 && a.3[0] is Resolve,
        exists|i: int| 0 <= i < a.4.len() - 1 && installs(#[trigger] a.4[i], kind@, text@),
        forall|i: int| 0 <= i < a.4.len() - 1 ==> !(#[trigger] a.4[i] is CaptureText),
        a.4.last() is CaptureText,
        s5.phase == Phase::Capturing,
        s5.pending == 0,
        shows(s5.active, kind@, text@),
{
    lemma_waiting_trigger_follows(s4, built, s5, a.4);
    let b = built->Ok_0;
    match b.check {
        ValidationOutcome::Valid => assert(installs(a.4[0], kind@, text@)),
        ValidationOutcome::Invalid(_) => assert(installs(a.4[1], kind@, text@)),
    }
}

} // verus!
