//! The background reader: when it stops, and what it emits for the bytes
//! that a read gave.
//!
//! A read may end in the middle of a multi-byte character. The reader keeps
//! such a beginning back and decodes it together with the next read, so the
//! sink never sees a character cut in two.

use vstd::prelude::*;

verus! {

/// Size of the buffer that the reader hands to each read.
pub const READ_BUFFER_LEN: usize = 256;

/// How one blocking read ended.
pub enum ReadOutcome {
    /// The bytes that arrived.
    Data(Vec<u8>),
    /// Nothing arrived within the timeout.
    Timeout,
    /// The provider reported an error.
    Failed,
}

/// What the reader does next.
#[derive(Clone, Copy, Debug, PartialEq, Eq, Structural)]
pub enum ReaderStep {
    /// End the task.
    Stop,
    /// Make one more read.
    Read,
}

/// The reader goes on exactly while the run flag is set.
pub open spec fn next_step(run_flag: bool) -> ReaderStep {
    if run_flag {
        ReaderStep::Read
    } else {
        ReaderStep::Stop
    }
}

/// Decides, before each read, whether the reader goes on.
pub fn poll(run_flag: bool) -> (step: ReaderStep)
    ensures
        step == next_step(run_flag),
{
    if run_flag {
        ReaderStep::Read
    } else {
        ReaderStep::Stop
    }
}

pub open spec fn is_continuation(b: u8) -> bool {
    0x80 <= b <= 0xbf
}

/// The length of the character that `lead` begins: 2, 3 or 4 for the first
/// byte of a multi-byte character, 1 for any other byte.
pub open spec fn sequence_len(lead: u8) -> int {
    if 0xc2 <= lead <= 0xdf {
        2
    } else if 0xe0 <= lead <= 0xef {
        3
    } else if 0xf0 <= lead <= 0xf4 {
        4
    } else {
        1
    }
}

/// Whether the last `k` bytes of `s` begin a multi-byte character and end
/// before it is complete: a first byte that asks for more than `k` bytes,
/// then continuation bytes only.
pub open spec fn is_split_tail(s: Seq<u8>, k: int) -> bool {
    &&& 1 <= k <= s.len()
    &&& k < sequence_len(s[s.len() - k])
    &&& forall|j: int| s.len() - k < j < s.len() ==> is_continuation(#[trigger] s[j])
}

/// How many bytes at the end of `s` belong to a character that is not
/// complete yet: 0 to 3.
pub open spec fn split_tail_len(s: Seq<u8>) -> int {
    if is_split_tail(s, 1) {
        1
    } else if is_split_tail(s, 2) {
        2
    } else if is_split_tail(s, 3) {
        3
    } else {
        0
    }
}

/// What lossy decoding makes of `bytes`: the text of `bytes` read as
/// UTF-8, with the replacement character in place of each malformed part.
pub uninterp spec fn lossy_text(bytes: Seq<u8>) -> Seq<char>;

/// Decodes with `String::from_utf8_lossy`. Nothing is proved of it: the
/// contract only says that the result is a function of the bytes alone,
/// and names it `lossy_text`.
#[verifier::external_body]
fn decode_lossy(bytes: &[u8]) -> (text: String)
    ensures
        text@ == lossy_text(bytes@),
{
    String::from_utf8_lossy(bytes).into_owned()
}

fn sequence_len_of(lead: u8) -> (n: usize)
    ensures
        n == sequence_len(lead),
{
    if 0xc2 <= lead && lead <= 0xdf {
        2
    } else if 0xe0 <= lead && lead <= 0xef {
        3
    } else if 0xf0 <= lead && lead <= 0xf4 {
        4
    } else {
        1
    }
}

/// Counts the bytes at the end of `bytes` that begin a character and do not
/// finish it.
pub fn split_tail(bytes: &Vec<u8>) -> (k: usize)
    ensures
        k == split_tail_len(bytes@),
        k <= 3,
        k <= bytes@.len(),
{
    let n: usize = bytes.len();
    let mut k: usize = 1;
    while k <= 3 && k <= n
        invariant
            n == bytes@.len(),
            1 <= k <= 4,
            forall|j: int| 1 <= j < k ==> !is_split_tail(bytes@, j),
            forall|j: int| n - k < j < n ==> is_continuation(#[trigger] bytes@[j]),
        decreases 4 - k,
    {
        let b: u8 = bytes[n - k];
        if k < sequence_len_of(b) {
            return k;
        }
        if !(0x80 <= b && b <= 0xbf) {
            proof {
                assert forall|j: int| k < j <= 3 implies !is_split_tail(bytes@, j) by {
                    if is_split_tail(bytes@, j) {
                        assert(is_continuation(bytes@[n - k]));
                    }
                }
            }
            return 0;
        }
        k += 1;
    }
    0
}

/// The state of one reader: the bytes kept back from the last read.
pub struct ReaderTask {
    pending: Vec<u8>,
}

impl View for ReaderTask {
    type V = Seq<u8>;

    closed spec fn view(&self) -> Seq<u8> {
        self.pending@
    }
}

/// The bytes that are decoded once `fresh` has arrived after `pending`:
/// both, without the beginning of a character at their end.
pub open spec fn complete_part(pending: Seq<u8>, fresh: Seq<u8>) -> Seq<u8> {
    let all = pending + fresh;
    all.subrange(0, all.len() - split_tail_len(all))
}

/// The bytes that are kept back once `fresh` has arrived after `pending`.
pub open spec fn kept_back(pending: Seq<u8>, fresh: Seq<u8>) -> Seq<u8> {
    let all = pending + fresh;
    all.subrange(all.len() - split_tail_len(all), all.len() as int)
}

impl ReaderTask {
    /// A reader that has kept nothing back.
    pub fn new() -> (task: Self)
        ensures
            task@ == Seq::<u8>::empty(),
    {
        ReaderTask { pending: Vec::new() }
    }

    /// How many bytes are kept back.
    pub fn pending_len(&self) -> (n: usize)
        ensures
            n == self@.len(),
    {
        self.pending.len()
    }

    /// Joins the bytes that arrived to those kept back and gives the part
    /// that can be decoded now; what ends in the middle of a character is
    /// kept back in turn.
    pub fn join(&mut self, fresh: Vec<u8>) -> (complete: Vec<u8>)
        ensures
            complete@ == complete_part(old(self)@, fresh@),
            final(self)@ == kept_back(old(self)@, fresh@),
    {
        let ghost arrived = fresh@;
        let mut fresh = fresh;
        let mut all: Vec<u8> = Vec::new();
        all.append(&mut self.pending);
        all.append(&mut fresh);
        assert(all@ =~= old(self)@ + arrived);
        let k: usize = split_tail(&all);
        let n: usize = all.len();
        let tail: Vec<u8> = all.split_off(n - k);
        self.pending = tail;
        all
    }

    /// Takes the outcome of one read and gives the text to emit, if any.
    /// A timeout or an error changes nothing and emits nothing. Bytes are
    /// joined to those kept back; what ends in the middle of a character is
    /// kept back in turn, and the rest, where there is any, is decoded with
    /// malformed parts replaced.
    pub fn accept(&mut self, outcome: ReadOutcome) -> (text: Option<String>)
        ensures
            match outcome {
                ReadOutcome::Data(fresh) => {
                    &&& final(self)@ == kept_back(old(self)@, fresh@)
                    &&& text.is_some() <==> complete_part(old(self)@, fresh@).len() > 0
                    &&& text.is_some() ==> text.unwrap()@ == lossy_text(
                        complete_part(old(self)@, fresh@),
                    )
                },
                _ => final(self)@ == old(self)@ && text.is_none(),
            },
    {
        match outcome {
            ReadOutcome::Data(fresh) => {
                let complete = self.join(fresh);
                if complete.len() == 0 {
                    None
                } else {
                    Some(decode_lossy(complete.as_slice()))
                }
            },
            _ => None,
        }
    }
}

} // verus!
