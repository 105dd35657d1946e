//! What the environment configures: the identities to watch, where the
//! snapshot is kept, and whether values may follow the configuration.

use vstd::prelude::*;
use vstd::string::StringExecFns;

use crate::text::{same_text, strings_view};

verus! {

/// The parts of `text` between its spaces: one more than it has spaces, an
/// empty part where two spaces meet, or where `text` starts or ends with
/// one.
pub open spec fn split_spaces(text: Seq<char>) -> Seq<Seq<char>>
    decreases text.len(),
{
    if text.len() == 0 {
        seq![Seq::empty()]
    } else {
        let front = split_spaces(text.drop_last());
        if text.last() == ' ' {
            front.push(Seq::empty())
        } else {
            front.drop_last().push(front.last().push(text.last()))
        }
    }
}

/// `parts` with a space between each two of them.
pub open spec fn joined(parts: Seq<Seq<char>>) -> Seq<char>
    decreases parts.len(),
{
    if parts.len() == 0 {
        Seq::empty()
    } else if parts.len() == 1 {
        parts[0]
    } else {
        joined(parts.drop_last()) + seq![' '] + parts.last()
    }
}

/// `split_spaces` takes `text` apart at its spaces and loses nothing: there
/// is at least one part, no part holds a space, and the parts joined by
/// spaces are `text` again.
pub proof fn lemma_split_spaces(text: Seq<char>)
    ensures
        split_spaces(text).len() >= 1,
        forall|k: int, i: int|
            0 <= k < split_spaces(text).len() && 0 <= i < split_spaces(text)[k].len()
                ==> #[trigger] split_spaces(text)[k][i] != ' ',
        joined(split_spaces(text)) == text,
    decreases text.len(),
{
    if text.len() > 0 {
        let shorter = text.drop_last();
        lemma_split_spaces(shorter);
        let front = split_spaces(shorter);
        let parts = split_spaces(text);
        if text.last() == ' ' {
            assert(parts.drop_last() =~= front);
        } else {
            if front.len() > 1 {
                assert(parts.drop_last() =~= front.drop_last());
            }
            assert(shorter.push(text.last()) =~= text);
        }
    }
}

/// The identities that a configured list names. The list separates them by
/// single spaces; each part between two spaces is an identity, an empty one
/// too, and the order of the list is kept.
pub fn parse_identities(list: &str) -> (identities: Vec<String>)
    ensures
        strings_view(identities@) == split_spaces(list@),
{
    let mut identities: Vec<String> = Vec::new();
    let mut current = String::new();
    for c in iter: list.chars()
        invariant
            iter.seq() == list@,
            strings_view(identities@).push(current@) == split_spaces(
                list@.take(iter.index() as int),
            ),
    {
        assert(list@.take(iter.index() + 1).drop_last() =~= list@.take(iter.index() as int));
        if c == ' ' {
            identities.push(current);
            current = String::new();
        } else {
            current.push(c);
        }
    }
    identities.push(current);
    assert(list@.take(list@.len() as int) =~= list@);
    identities
}

/// The path of the file that holds the snapshot, below the directory that
/// the collector gives the plugin for its state.
pub fn get_state_filename(state_dir: &str) -> (path: String)
    ensures
        path@ == state_dir@ + "/pgp_expiration"@,
{
    let mut path = String::new();
    path.append(state_dir);
    path.append("/pgp_expiration");
    path
}

/// Whether the collector announced that it takes values right after the
/// configuration: its flag reads `1`.
pub fn dirty_config(flag: &str) -> (supported: bool)
    ensures
        supported == (flag@ == "1"@),
{
    same_text(flag, "1")
}

} // verus!
