//! Recognising a replay's encoding by the suffix of its file name.

use vstd::prelude::*;
use vstd::string::StrSliceExecFns;

verus! {

/// The encodings a replay file can have.
#[derive(Clone, Copy, Debug, PartialEq, Eq, Structural)]
pub enum ReplayType {
    /// Anything that is neither of the two known encodings.
    Unknown,
    /// The raw replay format created by the Forged Alliance binary.
    ForgedAlliance,
    /// The legacy replay format from FAForever: a line of JSON metadata, a
    /// line break, and the compressed replay stream in base64.
    FafLegacy,
}

/// The suffix of a raw replay: `.scfareplay`.
pub open spec fn raw_suffix() -> Seq<char> {
    seq!['.', 's', 'c', 'f', 'a', 'r', 'e', 'p', 'l', 'a', 'y']
}

/// The suffix of a legacy container: `.fafreplay`.
pub open spec fn legacy_suffix() -> Seq<char> {
    seq!['.', 'f', 'a', 'f', 'r', 'e', 'p', 'l', 'a', 'y']
}

/// The encoding that a file name stands for. Only the end of the name counts,
/// character for character; nothing is folded or trimmed.
pub open spec fn replay_type_of(file_name: Seq<char>) -> ReplayType {
    if raw_suffix().is_suffix_of(file_name) {
        ReplayType::ForgedAlliance
    } else if legacy_suffix().is_suffix_of(file_name) {
        ReplayType::FafLegacy
    } else {
        ReplayType::Unknown
    }
}

/// Whether `text` ends with the characters of `suffix`.
pub fn ends_with(text: &str, suffix: &str) -> (found: bool)
    ensures
        found == suffix@.is_suffix_of(text@),
{
    let text_len = text.unicode_len();
    let suffix_len = suffix.unicode_len();
    if suffix_len > text_len {
        return false;
    }
    let start: usize = text_len - suffix_len;
    let mut i: usize = 0;
    while i < suffix_len
        invariant
            i <= suffix_len,
            suffix_len == suffix@.len(),
            text_len == text@.len(),
            start == text_len - suffix_len,
            forall|j: int| 0 <= j < i ==> text@[start + j] == suffix@[j],
        decreases suffix_len - i,
    {
        if text.get_char(start + i) != suffix.get_char(i) {
            assert(text@.subrange(start as int, text_len as int)[i as int] != suffix@[i as int]);
            return false;
        }
        i += 1;
    }
    assert(suffix@ =~= text@.subrange(start as int, text_len as int));
    true
}

/// Classifies a file name, or a whole path, by its suffix. The file need not
/// exist, and nothing is read.
pub fn get_replay_type(file_name: &str) -> (kind: ReplayType)
    ensures
        kind == replay_type_of(file_name@),
{
    proof {
        reveal_strlit(".scfareplay");
        reveal_strlit(".fafreplay");
        assert(".scfareplay"@ =~= raw_suffix());
        assert(".fafreplay"@ =~= legacy_suffix());
    }
    if ends_with(file_name, ".scfareplay") {
        ReplayType::ForgedAlliance
    } else if ends_with(file_name, ".fafreplay") {
        ReplayType::FafLegacy
    } else {
        ReplayType::Unknown
    }
}

/// The suffix decides, and it decides one way only: every name that ends in
/// `.scfareplay` is a raw replay, every name that ends in `.fafreplay` is a
/// legacy container, and every other name is unknown. No name ends in both.
pub proof fn lemma_replay_type_by_suffix(file_name: Seq<char>)
    ensures
        raw_suffix().is_suffix_of(file_name) ==> replay_type_of(file_name)
            == ReplayType::ForgedAlliance,
        legacy_suffix().is_suffix_of(file_name) ==> replay_type_of(file_name)
            == ReplayType::FafLegacy,
        !raw_suffix().is_suffix_of(file_name) && !legacy_suffix().is_suffix_of(file_name)
            ==> replay_type_of(file_name) == ReplayType::Unknown,
        !(raw_suffix().is_suffix_of(file_name) && legacy_suffix().is_suffix_of(file_name)),
{
    if raw_suffix().is_suffix_of(file_name) && legacy_suffix().is_suffix_of(file_name) {
        let len = file_name.len() as int;
        let raw_tail = file_name.subrange(len - 11, len);
        let legacy_tail = file_name.subrange(len - 10, len);
        assert(raw_tail[1] == file_name[len - 10]);
        assert(legacy_tail[0] == file_name[len - 10]);
        assert(raw_suffix()[1] == 's');
        assert(legacy_suffix()[0] == '.');
    }
}

} // verus!
