//! The fixed table of languages that the external tool is asked to handle.

use crate::text::same_text;
use vstd::prelude::*;

verus! {

/// How many languages the table lists.
pub const LANGUAGE_COUNT: usize = 15;

/// The table, as pairs of code and display name, in declaration order.
pub open spec fn supported_languages() -> Seq<(Seq<char>, Seq<char>)> {
    seq![
        ("en"@, "English"@),
        ("es"@, "Spanish"@),
        ("fr"@, "French"@),
        ("de"@, "German"@),
        ("it"@, "Italian"@),
        ("pt"@, "Portuguese"@),
        ("ru"@, "Russian"@),
        ("ja"@, "Japanese"@),
        ("ko"@, "Korean"@),
        ("zh"@, "Chinese"@),
        ("ar"@, "Arabic"@),
        ("hi"@, "Hindi"@),
        ("nl"@, "Dutch"@),
        ("pl"@, "Polish"@),
        ("tr"@, "Turkish"@),
    ]
}

/// Whether `code` is the code of an entry of the table.
pub open spec fn is_supported_code(code: Seq<char>) -> bool {
    exists|i: int|
        0 <= i < supported_languages().len() && (#[trigger] supported_languages()[i]).0 == code
}

/// The entry at position `i` of the table.
pub fn language_at(i: usize) -> (entry: (&'static str, &'static str))
    requires
        i < LANGUAGE_COUNT,
    ensures
        (entry.0@, entry.1@) == supported_languages()[i as int],
{
    match i {
        0 => ("en", "English"),
        1 => ("es", "Spanish"),
        2 => ("fr", "French"),
        3 => ("de", "German"),
        4 => ("it", "Italian"),
        5 => ("pt", "Portuguese"),
        6 => ("ru", "Russian"),
        7 => ("ja", "Japanese"),
        8 => ("ko", "Korean"),
        9 => ("zh", "Chinese"),
        10 => ("ar", "Arabic"),
        11 => ("hi", "Hindi"),
        12 => ("nl", "Dutch"),
        13 => ("pl", "Polish"),
        _ => ("tr", "Turkish"),
    }
}

/// Looks `code` up in the table.
pub fn is_supported(code: &str) -> (found: bool)
    ensures
        found == is_supported_code(code@),
{
    let mut i: usize = 0;
    while i < LANGUAGE_COUNT
        invariant
            i <= LANGUAGE_COUNT == supported_languages().len(),
            forall|j: int| 0 <= j < i ==> (#[trigger] supported_languages()[j]).0 != code@,
        decreases LANGUAGE_COUNT - i,
    {
        if same_text(language_at(i).0, code) {
            assert(supported_languages()[i as int].0 == code@);
            return true;
        }
        i = i + 1;
    }
    false
}

/// The table holds fifteen entries, and no code occurs twice in it.
pub proof fn lemma_table_shape()
    ensures
        supported_languages().len() == LANGUAGE_COUNT,
        forall|i: int, j: int|
            0 <= i < j < supported_languages().len() ==> (#[trigger] supported_languages()[i]).0
                != (#[trigger] supported_languages()[j]).0,
{
    reveal_strlit("en");
    reveal_strlit("es");
    reveal_strlit("fr");
    reveal_strlit("de");
    reveal_strlit("it");
    reveal_strlit("pt");
    reveal_strlit("ru");
    reveal_strlit("ja");
    reveal_strlit("ko");
    reveal_strlit("zh");
    reveal_strlit("ar");
    reveal_strlit("hi");
    reveal_strlit("nl");
    reveal_strlit("pl");
    reveal_strlit("tr");
    let t = supported_languages();
    assert forall|i: int, j: int| 0 <= i < j < t.len() implies (#[trigger] t[i]).0 != (
    #[trigger] t[j]).0 by {
        assert(t[i].0.len() == 2 && t[j].0.len() == 2);
        assert(t[i].0[0] != t[j].0[0] || t[i].0[1] != t[j].0[1]);
    }
}

} // verus!
