//! The line that the tour greets with, and what can be found in it.

use vstd::prelude::*;

verus! {

/// `word` stands in `text` from position `at` on.
pub open spec fn occurs_at(text: Seq<char>, word: Seq<char>, at: int) -> bool {
    &&& 0 <= at
    &&& at + word.len() <= text.len()
    &&& text.subrange(at, at + word.len()) == word
}

/// `word` stands somewhere in `text`.
pub open spec fn contains(text: Seq<char>, word: Seq<char>) -> bool {
    exists|at: int| occurs_at(text, word, at)
}

/// The greeting for a platform family of the given name.
pub open spec fn greeting_text(name: Seq<char>) -> Seq<char> {
    "Hello, world! Running on platform family '"@ + name + "'"@
}

/// Builds the greeting for a platform family of the given name.
pub fn greeting(name: &str) -> (line: String)
    ensures
        line@ == greeting_text(name@),
{
    let mut line = String::from_str("Hello, world! Running on platform family '");
    line.append(name);
    line.append("'");
    line
}

/// Every greeting holds the word "world", whatever name it was built for.
pub proof fn lemma_greeting_holds_world(name: Seq<char>)
    ensures
        contains(greeting_text(name), "world"@),
{
    reveal_strlit("Hello, world! Running on platform family '");
    reveal_strlit("world");
    let text = greeting_text(name);
    assert(text.subrange(7, 12) =~= "world"@);
    assert(occurs_at(text, "world"@, 7));
}

/// Every greeting holds the name it was built for, between its two quotes.
pub proof fn lemma_greeting_holds_name(name: Seq<char>)
    ensures
        occurs_at(greeting_text(name), "'"@ + name + "'"@, 41),
        contains(greeting_text(name), name),
{
    reveal_strlit("Hello, world! Running on platform family '");
    reveal_strlit("'");
    let text = greeting_text(name);
    let quoted = "'"@ + name + "'"@;
    let at: int = 41;
    assert(text.subrange(at, at + quoted.len()) =~= quoted);
    assert(text.subrange(at + 1, at + 1 + name.len()) =~= name);
    assert(occurs_at(text, name, 42));
}

} // verus!
