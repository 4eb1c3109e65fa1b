use vstd::prelude::*;
use vstd::string::StrSliceExecFns;
use vstd::string::StringExecFns;
use crate::errors::ShellError;

verus! {

/// The whitespace trimmed from captured command output: blank, tab,
/// newline and carriage return.
pub open spec fn is_space(c: char) -> bool {
    c == ' ' || c == '\t' || c == '\n' || c == '\r'
}

/// `is_space`, executably.
pub fn is_space_char(c: char) -> (r: bool)
    ensures
        r == is_space(c),
{
    c == ' ' || c == '\t' || c == '\n' || c == '\r'
}

/// A sequence with its leading whitespace removed.
pub open spec fn trim_front_spec(s: Seq<char>) -> Seq<char>
    decreases s.len(),
{
    if s.len() > 0 && is_space(s.first()) {
        trim_front_spec(s.drop_first())
    } else {
        s
    }
}

/// A sequence with its trailing whitespace removed.
pub open spec fn trim_back_spec(s: Seq<char>) -> Seq<char>
    decreases s.len(),
{
    if s.len() > 0 && is_space(s.last()) {
        trim_back_spec(s.drop_last())
    } else {
        s
    }
}

/// A sequence with whitespace removed from both ends.
pub open spec fn trimmed(s: Seq<char>) -> Seq<char> {
    trim_back_spec(trim_front_spec(s))
}

proof fn lemma_trim_front_skip(s: Seq<char>, lo: int)
    requires
        0 <= lo <= s.len(),
        forall|i: int| 0 <= i < lo ==> is_space(#[trigger] s[i]),
        lo == s.len() || !is_space(s[lo]),
    ensures
        trim_front_spec(s) == s.subrange(lo, s.len() as int),
    decreases lo,
{
    if lo == 0 {
        assert(s.subrange(0, s.len() as int) =~= s);
    } else {
        lemma_trim_front_skip(s.drop_first(), lo - 1);
        assert(s.drop_first().subrange(lo - 1, s.drop_first().len() as int) =~= s.subrange(
            lo,
            s.len() as int,
        ));
    }
}

proof fn lemma_trim_back_skip(s: Seq<char>, hi: int)
    requires
        0 <= hi <= s.len(),
        forall|i: int| hi <= i < s.len() ==> is_space(#[trigger] s[i]),
        hi == 0 || !is_space(s[hi - 1]),
    ensures
        trim_back_spec(s) == s.subrange(0, hi),
    decreases s.len() - hi,
{
    if hi == s.len() {
        assert(s.subrange(0, hi) =~= s);
    } else {
        lemma_trim_back_skip(s.drop_last(), hi);
        assert(s.drop_last().subrange(0, hi) =~= s.subrange(0, hi));
    }
}

/// Remove surrounding whitespace, exactly as `trimmed` describes.
pub fn trim_str(s: &str) -> (r: String)
    ensures
        r@ == trimmed(s@),
{
    let n = s.unicode_len();
    let mut lo: usize = 0;
    while lo < n && is_space_char(s.get_char(lo))
        invariant
            0 <= lo <= n,
            n == s@.len(),
            forall|i: int| 0 <= i < lo ==> is_space(#[trigger] s@[i]),
        decreases n - lo,
    {
        lo = lo + 1;
    }
    let mut hi: usize = n;
    while hi > lo && is_space_char(s.get_char(hi - 1))
        invariant
            lo <= hi <= n,
            n == s@.len(),
            forall|i: int| hi <= i < n ==> is_space(#[trigger] s@[i]),
        decreases hi,
    {
        hi = hi - 1;
    }
    proof {
        lemma_trim_front_skip(s@, lo as int);
        let t = s@.subrange(lo as int, n as int);
        lemma_trim_back_skip(t, hi - lo);
        assert(t.subrange(0, hi - lo) =~= s@.subrange(lo as int, hi as int));
    }
    String::from_str(s.substring_char(lo, hi))
}

/// One word of a command, as the external parser classified it.  Only
/// plain literals and escaped literals carry text the engine accepts;
/// the remaining shapes are recognised so they can be rejected with a
/// reported error.  Command substitution never reaches this type: it is
/// resolved into a `Literal` as soon as its captured text is known.
#[derive(Clone, PartialEq, Eq, Debug)]
pub enum WordNode {
    /// A plain literal word.
    Literal(String),
    /// An escaped character sequence, taken verbatim.
    Escaped(String),
    /// A double-quoted word: unsupported.
    DoubleQuoted,
    /// A single-quoted word: unsupported.
    SingleQuoted,
    /// A concatenation of several word parts: unsupported.
    Concatenation,
    /// Any other simple-word form (parameters, globs, tildes).
    OtherSimple,
    /// A parameter substitution other than command substitution.
    OtherSubstitution,
}

/// The text a word contributes to the argument list, or the error
/// reported for an unsupported word form.
pub open spec fn word_text_spec(w: WordNode) -> Result<String, ShellError> {
    match w {
        WordNode::Literal(s) => Ok(s),
        WordNode::Escaped(s) => Ok(s),
        WordNode::DoubleQuoted => Err(ShellError::UnsupportedWord),
        WordNode::SingleQuoted => Err(ShellError::UnsupportedWord),
        WordNode::Concatenation => Err(ShellError::UnsupportedWord),
        WordNode::OtherSimple => Err(ShellError::UnsupportedWord),
        WordNode::OtherSubstitution => Err(ShellError::UnsupportedSubstitution),
    }
}

/// Turn one parsed word into argument text, exactly as `word_text_spec`
/// describes.
pub fn word_text(w: WordNode) -> (r: Result<String, ShellError>)
    ensures
        r == word_text_spec(w),
{
    match w {
        WordNode::Literal(s) => Ok(s),
        WordNode::Escaped(s) => Ok(s),
        WordNode::DoubleQuoted => Err(ShellError::UnsupportedWord),
        WordNode::SingleQuoted => Err(ShellError::UnsupportedWord),
        WordNode::Concatenation => Err(ShellError::UnsupportedWord),
        WordNode::OtherSimple => Err(ShellError::UnsupportedWord),
        WordNode::OtherSubstitution => Err(ShellError::UnsupportedSubstitution),
    }
}

/// What a command substitution expands to: each nested command's captured
/// output, trimmed of surrounding whitespace, concatenated in order with
/// no added separator.  A nested command that failed contributes nothing.
pub open spec fn substitution_text_spec(pieces: Seq<Option<String>>) -> Seq<char>
    decreases pieces.len(),
{
    if pieces.len() == 0 {
        Seq::empty()
    } else {
        substitution_text_spec(pieces.drop_last()) + (match pieces.last() {
            Some(s) => trimmed(s@),
            None => Seq::empty(),
        })
    }
}

/// Concatenate the trimmed captured outputs of a substitution's nested
/// commands, exactly as `substitution_text_spec` describes.
pub fn substitution_text(pieces: &Vec<Option<String>>) -> (r: String)
    ensures
        r@ == substitution_text_spec(pieces@),
{
    let mut acc = String::new();
    let n = pieces.len();
    let mut i: usize = 0;
    while i < n
        invariant
            0 <= i <= n,
            n == pieces@.len(),
            acc@ == substitution_text_spec(pieces@.take(i as int)),
        decreases n - i,
    {
        match &pieces[i] {
            Some(s) => {
                let piece = trim_str(s.as_str());
                acc.append(piece.as_str());
            },
            None => {},
        }
        proof {
            assert(pieces@.take(i + 1).drop_last() =~= pieces@.take(i as int));
            assert(pieces@.take(i + 1).last() == pieces@[i as int]);
        }
        i = i + 1;
    }
    proof {
        assert(pieces@.take(n as int) =~= pieces@);
    }
    acc
}

/// The word a resolved command substitution becomes: a plain literal
/// holding the substitution's text.
pub fn substituted_word(pieces: &Vec<Option<String>>) -> (w: WordNode)
    ensures
        w matches WordNode::Literal(t) && t@ == substitution_text_spec(pieces@),
{
    WordNode::Literal(substitution_text(pieces))
}

/// A substitution around one succeeding command yields exactly that
/// command's captured output, trimmed; around one failed command it
/// yields empty text.
pub proof fn lemma_substitution_single(piece: Option<String>)
    ensures
        substitution_text_spec(seq![piece]) == (match piece {
            Some(s) => trimmed(s@),
            None => Seq::<char>::empty(),
        }),
{
    assert(seq![piece].drop_last() =~= Seq::<Option<String>>::empty());
    assert(substitution_text_spec(seq![piece].drop_last()) == Seq::<char>::empty());
    match piece {
        Some(s) => {
            assert(substitution_text_spec(seq![piece]) =~= trimmed(s@));
        },
        None => {
            assert(substitution_text_spec(seq![piece]) =~= Seq::<char>::empty());
        },
    }
}

} // verus!
