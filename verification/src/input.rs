//! Where the text to work on comes from.
//!
//! The library reads nothing itself. It says which source a caller is to
//! read, and puts text that was given directly back together.

use vstd::prelude::*;
use vstd::string::*;

verus! {

/// The source of the input text.
#[derive(Debug, Clone)]
pub enum InputSource {
    /// The file of this name.
    File(String),
    /// This text, which was given directly.
    Direct(String),
    /// Standard input.
    Stdin,
}

/// The parts, in order, with one space between neighbours.
pub open spec fn joined(parts: Seq<String>) -> Seq<char>
    decreases parts.len(),
{
    if parts.len() == 0 {
        Seq::empty()
    } else if parts.len() == 1 {
        parts[0]@
    } else {
        joined(parts.drop_last()) + seq![' '] + parts.last()@
    }
}

/// Joins `parts` with single spaces.
pub fn join_words(parts: &Vec<String>) -> (text: String)
    ensures
        text@ == joined(parts@),
{
    let mut text = String::new();
    let mut i: usize = 0;
    while i < parts.len()
        invariant
            i <= parts.len(),
            text@ == joined(parts@.take(i as int)),
        decreases parts.len() - i,
    {
        if i > 0 {
            proof {
                reveal_strlit(" ");
                assert(" "@ =~= seq![' ']);
            }
            text.append(" ");
        }
        text.append(parts[i].as_str());
        proof {
            let next = parts@.take(i + 1);
            assert(next.drop_last() =~= parts@.take(i as int));
            assert(next.last() == parts@[i as int]);
        }
        i = i + 1;
    }
    assert(parts@.take(i as int) =~= parts@);
    text
}

/// Chooses the source of the input: a named file before anything else, then
/// the words given directly, joined by spaces, and standard input where
/// neither was given.
pub fn get_input(file: Option<String>, direct: Vec<String>) -> (source: InputSource)
    ensures
        match source {
            InputSource::File(name) => file == Some(name),
            InputSource::Direct(text) => file is None && direct@.len() > 0 && text@ == joined(
                direct@,
            ),
            InputSource::Stdin => file is None && direct@.len() == 0,
        },
{
    match file {
        Some(name) => InputSource::File(name),
        None => if direct.len() > 0 {
            InputSource::Direct(join_words(&direct))
        } else {
            InputSource::Stdin
        },
    }
}

} // verus!
