//! What becomes of the text that mimalloc produces: the strings it returns,
//! and the pieces it prints through an output callback.

use vstd::prelude::*;
use vstd::string::StringExecFns;
use crate::utf8_lossy::{lossy_utf8, to_string_lossy, write_bytes};

verus! {

/// Mimalloc could not produce the text, or the writer refused it.
#[derive(Debug, Clone, Copy, PartialEq, Eq, Structural)]
pub struct OutputError;

/// The text of a string that mimalloc allocated (`text` holds its bytes up to
/// the terminating NUL), or the empty string when mimalloc returned null.
pub fn owned_mimalloc_string(text: Option<&[u8]>) -> (s: String)
    ensures
        text is None ==> s@ == Seq::<char>::empty(),
        text matches Some(bytes) ==> s@ == lossy_utf8(bytes@),
{
    match text {
        None => String::new(),
        Some(bytes) => to_string_lossy(bytes),
    }
}

/// Appends the text of a string that mimalloc allocated to `out`; fails, and
/// leaves `out` alone, when mimalloc returned null.
pub fn write_owned_c_string(out: &mut String, text: Option<&[u8]>) -> (res: Result<(), OutputError>)
    ensures
        text is None <==> res is Err,
        text is None ==> final(out)@ == old(out)@,
        text matches Some(bytes) ==> final(out)@ == old(out)@ + lossy_utf8(bytes@),
{
    match text {
        None => Err(OutputError),
        Some(bytes) => {
            write_bytes(out, bytes);
            Ok(())
        },
    }
}

/// Forwards the pieces that mimalloc prints to a writer, and remembers
/// whether the writer has failed. After the first failure nothing more is
/// written, and the whole print fails.
pub struct Sink {
    failed: bool,
}

impl Sink {
    /// The writer has refused a piece.
    pub closed spec fn has_failed(self) -> bool {
        self.failed
    }

    /// A sink whose writer has not failed.
    pub fn new() -> (sink: Self)
        ensures
            !sink.has_failed(),
    {
        Sink { failed: false }
    }

    /// A piece `msg` that mimalloc prints (`None` for a null message or a null
    /// argument): the text to hand to the writer, or `None` when there is
    /// nothing to write or the writer has already failed.
    pub fn output_callback(&self, msg: Option<&[u8]>) -> (text: Option<String>)
        ensures
            text is Some <==> (msg is Some && !self.has_failed()),
            text matches Some(t) ==> t@ == lossy_utf8(msg->0@),
    {
        match msg {
            None => None,
            Some(bytes) => {
                if self.failed {
                    None
                } else {
                    Some(to_string_lossy(bytes))
                }
            },
        }
    }

    /// Records whether the writer accepted the last piece.
    pub fn record(&mut self, written: Result<(), OutputError>)
        ensures
            final(self).has_failed() == (old(self).has_failed() || written is Err),
    {
        if written.is_err() {
            self.failed = true;
        }
    }

    /// The result of the whole print.
    pub fn result(&self) -> (res: Result<(), OutputError>)
        ensures
            res is Ok <==> !self.has_failed(),
    {
        if self.failed {
            Err(OutputError)
        } else {
            Ok(())
        }
    }
}

/// How many bytes of printed output a bounded buffer keeps.
pub const OUTPUT_BUFFER_CAPACITY: usize = 64 * 1024;

/// The line added to collected output that did not fit in its buffer.
pub open spec fn truncation_notice() -> Seq<char> {
    "\n[truncated: mimalloc profile output exceeded internal buffer]\n"@
}

/// A buffer's bytes and truncation flag after a piece `msg` is printed into
/// it: once truncated, it takes nothing more; a piece that fits is kept
/// whole; of a piece that does not fit, the part that fits is kept and the
/// buffer becomes truncated.
pub open spec fn appended(bytes: Seq<u8>, limit: nat, truncated: bool, msg: Seq<u8>) -> (Seq<
    u8,
>, bool) {
    if truncated {
        (bytes, true)
    } else if msg.len() + bytes.len() <= limit {
        (bytes + msg, false)
    } else {
        (bytes + msg.take(limit - bytes.len()), true)
    }
}

/// The bytes and truncation flag of a buffer with room for `limit` bytes
/// after the pieces `msgs` were printed into it, in order.
pub open spec fn collected(msgs: Seq<Seq<u8>>, limit: nat) -> (Seq<u8>, bool)
    decreases msgs.len(),
{
    if msgs.len() == 0 {
        (seq![], false)
    } else {
        let (bytes, truncated) = collected(msgs.drop_last(), limit);
        appended(bytes, limit, truncated, msgs.last())
    }
}

/// Everything that was printed, in order.
pub open spec fn all_output(msgs: Seq<Seq<u8>>) -> Seq<u8>
    decreases msgs.len(),
{
    if msgs.len() == 0 {
        seq![]
    } else {
        all_output(msgs.drop_last()) + msgs.last()
    }
}

/// Collects the pieces that mimalloc prints, up to a limit on their total
/// size.
pub struct OutputBuffer {
    bytes: Vec<u8>,
    limit: usize,
    truncated: bool,
}

impl OutputBuffer {
    #[verifier::type_invariant]
    spec fn within_limit(self) -> bool {
        self.bytes.len() <= self.limit
    }

    /// The bytes collected so far.
    pub closed spec fn bytes(self) -> Seq<u8> {
        self.bytes@
    }

    /// How many bytes the buffer keeps at most.
    pub closed spec fn limit(self) -> nat {
        self.limit as nat
    }

    /// Some printed output did not fit and was dropped.
    pub closed spec fn truncated(self) -> bool {
        self.truncated
    }

    /// An empty buffer that keeps at most [`OUTPUT_BUFFER_CAPACITY`] bytes.
    pub fn new() -> (buf: Self)
        ensures
            buf.bytes() == Seq::<u8>::empty(),
            buf.limit() == OUTPUT_BUFFER_CAPACITY,
            !buf.truncated(),
    {
        OutputBuffer { bytes: Vec::new(), limit: OUTPUT_BUFFER_CAPACITY, truncated: false }
    }

    /// An empty buffer with no limit but the size of the address space.
    pub fn unbounded() -> (buf: Self)
        ensures
            buf.bytes() == Seq::<u8>::empty(),
            buf.limit() == usize::MAX,
            !buf.truncated(),
    {
        OutputBuffer { bytes: Vec::new(), limit: usize::MAX, truncated: false }
    }

    /// Takes a piece `msg` that mimalloc prints (`None` for a null message or
    /// a null argument, which is ignored).
    pub fn collect_mimalloc_output_callback(&mut self, msg: Option<&[u8]>)
        ensures
            final(self).limit() == old(self).limit(),
            msg is None ==> final(self).bytes() == old(self).bytes() && final(self).truncated()
                == old(self).truncated(),
            msg matches Some(m) ==> (final(self).bytes(), final(self).truncated()) == appended(
                old(self).bytes(),
                old(self).limit(),
                old(self).truncated(),
                m@,
            ),
    {
        proof {
            use_type_invariant(&*self);
        }
        match msg {
            None => {},
            Some(m) => {
                if self.truncated {
                    return ;
                }
                let available: usize = self.limit - self.bytes.len();
                if m.len() <= available {
                    let mut grown: Vec<u8> = Vec::new();
                    std::mem::swap(&mut grown, &mut self.bytes);
                    grown.extend_from_slice(m);
                    assert(grown@ =~= old(self).bytes() + m@);
                    self.bytes = grown;
                } else {
                    let (head, _) = m.split_at(available);
                    let mut grown: Vec<u8> = Vec::new();
                    std::mem::swap(&mut grown, &mut self.bytes);
                    grown.extend_from_slice(head);
                    assert(grown@ =~= old(self).bytes() + m@.take(available as int));
                    self.bytes = grown;
                    self.truncated = true;
                }
            },
        }
    }

    /// The collected output as text, followed by a notice when some of it
    /// did not fit.
    pub fn collect_mimalloc_output(self) -> (s: String)
        ensures
            s@ == lossy_utf8(self.bytes()) + (if self.truncated() {
                truncation_notice()
            } else {
                Seq::<char>::empty()
            }),
    {
        let mut s = to_string_lossy(self.bytes.as_slice());
        if self.truncated {
            s.append("\n[truncated: mimalloc profile output exceeded internal buffer]\n");
            assert(s@ =~= lossy_utf8(self.bytes()) + truncation_notice());
        } else {
            assert(s@ =~= lossy_utf8(self.bytes()) + Seq::<char>::empty());
        }
        s
    }
}

/// The buffer keeps a prefix of everything printed: all of it, untruncated,
/// when it fits in the limit, and otherwise exactly the first `limit` bytes,
/// marked truncated.
pub proof fn lemma_collected_output(msgs: Seq<Seq<u8>>, limit: nat)
    ensures
        collected(msgs, limit).1 <==> all_output(msgs).len() > limit,
        collected(msgs, limit).0 == (if all_output(msgs).len() > limit {
            all_output(msgs).take(limit as int)
        } else {
            all_output(msgs)
        }),
    decreases msgs.len(),
{
    if msgs.len() > 0 {
        let prev = msgs.drop_last();
        lemma_collected_output(prev, limit);
        let (b, t) = collected(prev, limit);
        let total = all_output(prev);
        let m = msgs.last();
        assert(all_output(msgs) == total + m);
        if t {
            assert(total.take(limit as int) =~= (total + m).take(limit as int));
        } else if m.len() + b.len() <= limit {
        } else {
            assert(b + m.take(limit - b.len()) =~= (total + m).take(limit as int));
        }
    }
}

} // verus!
