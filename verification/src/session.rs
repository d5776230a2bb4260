//! The typing side of one data connection: each byte received is typed,
//! skipped (no key for it), or, once an ABORT has been seen, dropped.
use vstd::prelude::*;
use crate::keymap::{lookup, spec_lookup};

verus! {

/// What to do with one received byte.
#[derive(Debug, Clone, Copy, PartialEq, Eq)]
pub enum ByteAction {
    /// Press and release this key combination.
    Type { modifier: u8, keycode: u8 },
    /// The byte has no key on the table: ignore it.
    Skip,
    /// The session is aborted: drop the byte; `announce` is set on the
    /// first dropped byte only, when the abort is to be reported.
    Drop { announce: bool },
}

/// The state of a session as a model.
pub struct SessionView {
    pub aborted: bool,
    pub announced: bool,
    pub typed: nat,
    pub dropped: nat,
}

/// The state of one data connection.
pub struct Session {
    aborted: bool,
    announced_abort: bool,
    bytes_typed: u64,
    bytes_dropped: u64,
}

/// The outcome of receiving `byte` in state `s`, where `abort_requested`
/// tells whether the shared ABORT flag is set at that moment.
pub open spec fn spec_step(s: SessionView, byte: u8, abort_requested: bool) -> (
    SessionView,
    ByteAction,
) {
    if s.aborted || abort_requested {
        (
            SessionView { aborted: true, announced: true, typed: s.typed, dropped: s.dropped + 1 },
            ByteAction::Drop { announce: !s.announced },
        )
    } else {
        match spec_lookup(byte as char) {
            Some((m, k)) => (
                SessionView { typed: s.typed + 1, ..s },
                ByteAction::Type { modifier: m, keycode: k },
            ),
            None => (s, ByteAction::Skip),
        }
    }
}

/// The state after receiving `bytes` in order, where `flags[i]` is the
/// ABORT flag as seen when `bytes[i]` arrives.
pub open spec fn spec_run(s: SessionView, bytes: Seq<u8>, flags: Seq<bool>) -> SessionView
    recommends
        bytes.len() == flags.len(),
    decreases bytes.len(),
{
    if bytes.len() == 0 {
        s
    } else {
        spec_run(spec_step(s, bytes[0], flags[0]).0, bytes.drop_first(), flags.drop_first())
    }
}

/// The number of bytes in `bytes` that have a key on the table.
pub open spec fn count_mapped(bytes: Seq<u8>) -> nat
    decreases bytes.len(),
{
    if bytes.len() == 0 {
        0
    } else {
        (if spec_lookup(bytes[0] as char) is Some {
            1nat
        } else {
            0nat
        }) + count_mapped(bytes.drop_first())
    }
}

impl View for Session {
    type V = SessionView;

    closed spec fn view(&self) -> SessionView {
        SessionView {
            aborted: self.aborted,
            announced: self.announced_abort,
            typed: self.bytes_typed as nat,
            dropped: self.bytes_dropped as nat,
        }
    }
}

impl Session {
    /// The abort is announced in the same step that first observes it.
    pub closed spec fn wf(&self) -> bool {
        self.announced_abort == self.aborted
    }

    /// A new data session. It is never aborted at the start, so that an
    /// ABORT left over from an earlier session does not kill this one.
    pub fn new() -> (s: Session)
        ensures
            s.wf(),
            s@ == (SessionView { aborted: false, announced: false, typed: 0, dropped: 0 }),
    {
        Session { aborted: false, announced_abort: false, bytes_typed: 0, bytes_dropped: 0 }
    }

    /// Handles one received byte, given whether the ABORT flag is set.
    pub fn step(&mut self, byte: u8, abort_requested: bool) -> (a: ByteAction)
        requires
            old(self).wf(),
            old(self)@.aborted || abort_requested ==> old(self)@.dropped < u64::MAX,
            !(old(self)@.aborted || abort_requested) && spec_lookup(byte as char) is Some
                ==> old(self)@.typed < u64::MAX,
        ensures
            final(self).wf(),
            (final(self)@, a) == spec_step(old(self)@, byte, abort_requested),
    {
        if !self.aborted && abort_requested {
            self.aborted = true;
        }
        if self.aborted {
            let announce = !self.announced_abort;
            self.announced_abort = true;
            self.bytes_dropped = self.bytes_dropped + 1;
            return ByteAction::Drop { announce };
        }
        let ch = byte as char;
        match lookup(ch) {
            Some((modifier, keycode)) => {
                self.bytes_typed = self.bytes_typed + 1;
                ByteAction::Type { modifier, keycode }
            },
            None => ByteAction::Skip,
        }
    }

    /// Whether an ABORT has been observed in this session.
    pub fn is_aborted(&self) -> (b: bool)
        ensures
            b == self@.aborted,
    {
        self.aborted
    }

    /// The number of bytes typed so far.
    pub fn bytes_typed(&self) -> (n: u64)
        ensures
            n == self@.typed,
    {
        self.bytes_typed
    }

    /// The number of bytes dropped after an ABORT.
    pub fn bytes_dropped(&self) -> (n: u64)
        ensures
            n == self@.dropped,
    {
        self.bytes_dropped
    }
}

/// Once a session is aborted, the rest of the connection is drained
/// silently: every further byte is dropped and none is typed.
pub proof fn lemma_abort_drains(s: SessionView, bytes: Seq<u8>, flags: Seq<bool>)
    requires
        s.aborted,
        s.announced,
        bytes.len() == flags.len(),
    ensures
        spec_run(s, bytes, flags) == (SessionView {
            aborted: true,
            announced: true,
            typed: s.typed,
            dropped: s.dropped + bytes.len(),
        }),
    decreases bytes.len(),
{
    if bytes.len() > 0 {
        lemma_abort_drains(spec_step(s, bytes[0], flags[0]).0, bytes.drop_first(), flags.drop_first());
    }
}

/// With no ABORT requested, a session types exactly the bytes that have a
/// key and drops none.
pub proof fn lemma_no_abort_types_mapped(s: SessionView, bytes: Seq<u8>, flags: Seq<bool>)
    requires
        !s.aborted,
        bytes.len() == flags.len(),
        forall|i: int| 0 <= i < flags.len() ==> !#[trigger] flags[i],
    ensures
        spec_run(s, bytes, flags) == (SessionView {
            typed: s.typed + count_mapped(bytes),
            ..s
        }),
    decreases bytes.len(),
{
    if bytes.len() > 0 {
        assert(!flags[0]);
        let rest = flags.drop_first();
        assert forall|i: int| 0 <= i < rest.len() implies !#[trigger] rest[i] by {
            assert(rest[i] == flags[i + 1]);
        }
        lemma_no_abort_types_mapped(spec_step(s, bytes[0], flags[0]).0, bytes.drop_first(), rest);
    }
}

/// The abort is announced once per session: after a byte is dropped, every
/// later byte is dropped without a further announcement.
pub proof fn lemma_announce_once(s: SessionView, b1: u8, f1: bool, b2: u8, f2: bool)
    requires
        s.announced == s.aborted,
        spec_step(s, b1, f1).1 is Drop,
    ensures
        spec_step(spec_step(s, b1, f1).0, b2, f2).1 == (ByteAction::Drop { announce: false }),
{
}

/// A byte arriving while an ABORT is requested, in a session not yet
/// aborted, is dropped whatever it is: the session becomes aborted, the abort
/// is announced, nothing is typed, and the byte is counted as dropped.
pub proof fn lemma_abort_request_drops(s: SessionView, byte: u8)
    requires
        !s.aborted,
        !s.announced,
    ensures
        spec_step(s, byte, true) == (SessionView {
            aborted: true,
            announced: true,
            typed: s.typed,
            dropped: s.dropped + 1,
        }, ByteAction::Drop { announce: true }),
{
}

/// What each byte does: it is dropped exactly when the session is aborted
/// or an abort is requested; otherwise it is typed with the key the table
/// gives it, counted as typed, or skipped without any change when the table
/// has no key for it. A session stays aborted once it is.
pub proof fn lemma_step_outcomes(s: SessionView, byte: u8, abort_requested: bool)
    ensures
        ({
            let (t, a) = spec_step(s, byte, abort_requested);
            &&& (a is Drop <==> s.aborted || abort_requested)
            &&& (a is Drop ==> t.aborted && t.typed == s.typed && t.dropped == s.dropped + 1)
            &&& (a matches ByteAction::Type { modifier, keycode } ==> spec_lookup(byte as char)
                == Some((modifier, keycode)) && t == (SessionView { typed: s.typed + 1, ..s }))
            &&& (a is Skip <==> !(s.aborted || abort_requested) && spec_lookup(byte as char) is None)
            &&& (a is Skip ==> t == s)
            &&& (s.aborted ==> t.aborted)
        }),
{
}

} // verus!
