//! Generated practice text: words drawn from a Markov chain, joined by
//! single spaces.

use vstd::prelude::*;
use crate::glyph::SPACE;
use crate::source::{ReadOutcome, TextSource};

verus! {

/// `lipsum::MarkovChain`, of which the verifier sees nothing but the name.
#[verifier::external_type_specification]
#[verifier::external_body]
pub struct ExMarkovChain<'a>(lipsum::MarkovChain<'a>);

/// Whether `b` is one of the marks that end a sentence: `.`, `!` or `?`.
pub open spec fn ends_sentence(b: u8) -> bool {
    b == 0x2e || b == 0x21 || b == 0x3f
}

/// Whether `word` can be a sentence of the chain: nothing at all, or text
/// that ends with one of the marks.
pub open spec fn is_sentence(word: Seq<u8>) -> bool {
    word.len() > 0 ==> ends_sentence(word.last())
}

/// `lipsum::MarkovChain::generate` for one word, as bytes. The chain draws
/// the word at random and hands it back as a sentence: nothing where it has
/// learned nothing, else text that ends with a full stop, an exclamation mark
/// or a question mark. No more than that is claimed of the text.
#[verifier::external_body]
fn one_word(chain: &lipsum::MarkovChain<'_>) -> (word: Vec<u8>)
    ensures
        is_sentence(word@),
{
    chain.generate(1).into_bytes()
}

/// A read under way: the bytes gathered so far, and the bytes that wait for
/// the next round.
pub struct Filling {
    pub out: Seq<u8>,
    pub pending: Seq<u8>,
}

/// How many bytes still fit where `len` of `max` are gathered.
pub open spec fn room(len: nat, max: nat) -> nat {
    if len < max {
        (max - len) as nat
    } else {
        0
    }
}

/// The first `n` bytes of `s`, or all of `s` where it is shorter.
pub open spec fn head(s: Seq<u8>, n: nat) -> Seq<u8> {
    if n < s.len() {
        s.take(n as int)
    } else {
        s
    }
}

/// One round of a read, with `word` fresh from the chain. What waits goes
/// out as far as it fits, and what does not fit is dropped; a space takes its
/// place if anything waited. Then the word, without its last byte, waits.
pub open spec fn round(f: Filling, max: nat, word: Seq<u8>) -> Filling {
    let out = if f.pending.len() > 0 {
        f.out + head(f.pending, room(f.out.len(), max))
    } else {
        f.out
    };
    let carry = if f.pending.len() > 0 {
        seq![SPACE]
    } else {
        Seq::empty()
    };
    Filling {
        out,
        pending: if word.len() > 0 {
            carry + word.drop_last()
        } else {
            carry
        },
    }
}

/// The read after one round for each of `words`, in their order.
pub open spec fn run(f: Filling, max: nat, words: Seq<Seq<u8>>) -> Filling
    decreases words.len(),
{
    if words.len() == 0 {
        f
    } else {
        round(run(f, max, words.drop_last()), max, words.last())
    }
}

/// Whether a read that has taken a round for each of `words` ends with the
/// last of them: the chain gave nothing, or `max` bytes are gathered. A read
/// goes on for as long as the chain gives words, also where round after round
/// leaves nothing waiting; only where there are more such rounds than a
/// machine word counts does it end, which no run comes to.
pub open spec fn ends(f: Filling, max: nat, words: Seq<Seq<u8>>) -> bool
    recommends
        words.len() > 0,
{
    let after = run(f, max, words);
    ||| words.last().len() == 0
    ||| after.out.len() >= max
    ||| after.pending.len() == 0 && words.len() >= usize::MAX
}

/// Whether a read takes a round for each of `words` and goes on after them.
pub open spec fn goes_on(f: Filling, max: nat, words: Seq<Seq<u8>>) -> bool
    decreases words.len(),
{
    if words.len() == 0 {
        f.out.len() < max
    } else {
        goes_on(f, max, words.drop_last()) && !ends(f, max, words)
    }
}

/// Whether a read takes a round for each of `words` and no more.
pub open spec fn complete(f: Filling, max: nat, words: Seq<Seq<u8>>) -> bool {
    if words.len() == 0 {
        f.out.len() >= max
    } else {
        goes_on(f, max, words.drop_last()) && ends(f, max, words)
    }
}

/// Whether a read of at most `max` bytes, begun with `pending` waiting and
/// fed the sentences `words` by the chain, ends with `out` gathered and `left`
/// waiting.
pub open spec fn reads(
    pending: Seq<u8>,
    max: nat,
    words: Seq<Seq<u8>>,
    out: Seq<u8>,
    left: Seq<u8>,
) -> bool {
    let start = Filling { out: Seq::empty(), pending };
    &&& forall|i: int| 0 <= i < words.len() ==> is_sentence(#[trigger] words[i])
    &&& complete(start, max, words)
    &&& run(start, max, words) == (Filling { out, pending: left })
}

/// A text source of generated words.
pub struct Ipsum<'s> {
    mark: lipsum::MarkovChain<'s>,
    last: Vec<u8>,
}

impl<'s> View for Ipsum<'s> {
    type V = Seq<u8>;

    /// The bytes that wait for the next round.
    closed spec fn view(&self) -> Seq<u8> {
        self.last@
    }
}

impl<'s> Ipsum<'s> {
    /// The chain that the words are drawn from.
    pub closed spec fn chain(&self) -> lipsum::MarkovChain<'s> {
        self.mark
    }

    /// A source of words from `mark`, with nothing waiting.
    pub fn new(mark: lipsum::MarkovChain<'s>) -> (src: Ipsum<'s>)
        ensures
            src@ == Seq::<u8>::empty(),
            src.chain() == mark,
    {
        Ipsum { mark, last: Vec::new() }
    }

    /// The bytes that wait for the next round.
    pub fn pending(&self) -> (bytes: &Vec<u8>)
        ensures
            bytes@ == self@,
    {
        &self.last
    }

    /// Takes one round of a read of at most `max` bytes into `out`, with
    /// `word` as the chain's word.
    pub fn absorb(&mut self, out: &mut Vec<u8>, max: usize, word: &Vec<u8>)
        ensures
            final(out)@ == round(
                Filling { out: old(out)@, pending: old(self)@ },
                max as nat,
                word@,
            ).out,
            final(self)@ == round(
                Filling { out: old(out)@, pending: old(self)@ },
                max as nat,
                word@,
            ).pending,
            final(self).chain() == old(self).chain(),
    {
        if self.last.len() > 0 {
            let fits: usize = if out.len() < max { max - out.len() } else { 0 };
            let n: usize = if fits < self.last.len() { fits } else { self.last.len() };
            let mut i: usize = 0;
            while i < n
                invariant
                    i <= n <= self.last.len(),
                    self.last == old(self).last,
                    self.mark == old(self).mark,
                    out@ == old(out)@ + self.last@.take(i as int),
                decreases n - i,
            {
                out.push(self.last[i]);
                i = i + 1;
            }
            self.last.clear();
            self.last.push(SPACE);
        }
        if word.len() == 0 {
            return;
        }
        let ghost carry = self.last@;
        let keep: usize = word.len() - 1;
        let mut i: usize = 0;
        while i < keep
            invariant
                i <= keep,
                keep == word.len() - 1,
                self.mark == old(self).mark,
                self.last@ == carry + word@.take(i as int),
            decreases keep - i,
        {
            self.last.push(word[i]);
            i = i + 1;
        }
    }
}

impl<'s> TextSource for Ipsum<'s> {
    /// A read hands back the bytes that its rounds gather, for some words of
    /// the chain: `max` of them, or fewer where the chain gave nothing at
    /// all. The chain stays as it is.
    open spec fn may_yield(&self, max: usize, outcome: ReadOutcome, after: Self) -> bool {
        &&& outcome is Bytes
        &&& after.chain() == self.chain()
        &&& exists|words: Seq<Seq<u8>>| #[trigger]
            reads(self@, max as nat, words, outcome.bytes(), after@)
    }

    fn read(&mut self, max: usize) -> (outcome: ReadOutcome) {
        let mut out: Vec<u8> = Vec::new();
        let mut idle: usize = 0;
        let ghost start = Filling { out: Seq::empty(), pending: self@ };
        let ghost mut words: Seq<Seq<u8>> = Seq::empty();
        while out.len() < max
            invariant
                self.chain() == old(self).chain(),
                start == (Filling { out: Seq::empty(), pending: old(self)@ }),
                if out@.len() < max {
                    goes_on(start, max as nat, words)
                } else {
                    complete(start, max as nat, words)
                },
                out@ == run(start, max as nat, words).out,
                self@ == run(start, max as nat, words).pending,
                idle < usize::MAX,
                self@.len() == 0 ==> idle == words.len(),
                forall|i: int| 0 <= i < words.len() ==> is_sentence(#[trigger] words[i]),
            decreases max - out.len(), (if self@.len() == 0 { usize::MAX - idle } else { 0 }),
        {
            let word = one_word(&self.mark);
            self.absorb(&mut out, max, &word);
            proof {
                let before = words;
                words = before.push(word@);
                assert(words.drop_last() =~= before);
            }
            if self.last.len() == 0 {
                idle = idle + 1;
            }
            if word.len() == 0 || idle >= usize::MAX {
                let outcome = ReadOutcome::Bytes(out);
                assert(reads(old(self)@, max as nat, words, outcome.bytes(), self@));
                return outcome;
            }
        }
        let outcome = ReadOutcome::Bytes(out);
        assert(reads(old(self)@, max as nat, words, outcome.bytes(), self@));
        outcome
    }
}

} // verus!
