//! Choosing an encoder from the extension of a target path.

use crate::encoder::FileEncoder;
use vstd::prelude::*;
use vstd::utf8::is_ascii_chars;

verus! {

/// The extension that `std::path::Path::extension` finds in a path made of these
/// characters, by the path syntax of the platform the library is built for.
pub uninterp spec fn extension_of(path: Seq<char>) -> Option<Seq<char>>;

/// The text that `str::to_lowercase` makes of these characters.
pub uninterp spec fn lowercase_of(text: Seq<char>) -> Seq<char>;

/// `A` to `Z` become `a` to `z`; every other character stays.
pub open spec fn ascii_lower_char(c: char) -> char {
    if 'A' <= c && c <= 'Z' {
        ((c as u32) + 32) as char
    } else {
        c
    }
}

/// The text with each of its characters lowered by [`ascii_lower_char`].
pub open spec fn ascii_lower(text: Seq<char>) -> Seq<char> {
    Seq::new(text.len(), |i: int| ascii_lower_char(text[i]))
}

/// The characters of `jpeg`, the one spelling that is folded into another.
pub open spec fn jpeg_chars() -> Seq<char> {
    seq!['j', 'p', 'e', 'g']
}

/// A lowercase extension with `jpeg` folded into `jpg`.
pub open spec fn normalized(lower: Seq<char>) -> Seq<char> {
    if lower == jpeg_chars() {
        seq!['j', 'p', 'g']
    } else {
        lower
    }
}

/// A missing extension counts as the empty one.
pub open spec fn extension_or_empty(extension: Option<Seq<char>>) -> Seq<char> {
    match extension {
        Some(chars) => chars,
        None => Seq::empty(),
    }
}

/// The first candidate whose canonical extension is `ext`, or the fallback
/// encoder where there is none.
pub open spec fn first_match(variants: Seq<FileEncoder>, ext: Seq<char>) -> FileEncoder
    decreases variants.len(),
{
    if variants.len() == 0 {
        FileEncoder::fallback()
    } else if variants[0].ext_chars() == ext {
        variants[0]
    } else {
        first_match(variants.drop_first(), ext)
    }
}

/// The encoder that a raw extension selects among the candidates.
pub open spec fn match_for_extension(variants: Seq<FileEncoder>, extension: Seq<char>) -> FileEncoder {
    first_match(variants, normalized(lowercase_of(extension)))
}

/// The encoder that a path selects among the candidates.
pub open spec fn match_for_path(variants: Seq<FileEncoder>, path: Seq<char>) -> FileEncoder {
    match_for_extension(variants, extension_or_empty(extension_of(path)))
}

/// Calls `std::path::Path::extension` on the path and hands the extension back as
/// text. Trusted: the result is what [`extension_of`] names. The path is made of a
/// `str`, so its extension is valid UTF-8 and is handed back whole.
#[verifier::external_body]
fn path_extension(path: &str) -> (extension: Option<&str>)
    ensures
        match extension {
            Some(text) => extension_of(path@) == Some(text@),
            None => extension_of(path@) is None,
        },
{
    std::path::Path::new(path).extension()?.to_str()
}

/// Calls `str::to_lowercase`. Trusted: the result is what [`lowercase_of`] names,
/// and on text that is all ASCII the Unicode lowercase mapping is the ASCII one.
#[verifier::external_body]
fn lowercase(text: &str) -> (lower: String)
    ensures
        lower@ == lowercase_of(text@),
        is_ascii_chars(text@) ==> lower@ == ascii_lower(text@),
{
    text.to_lowercase()
}

impl FileEncoder {
    /// Picks the encoder for a target path: the path's extension is lowercased,
    /// `jpeg` is read as `jpg`, and the first candidate with that canonical
    /// extension wins. Without a match, or without an extension, the result is
    /// PNG at default compression.
    pub fn matching_variant(path: &str, variants: &Vec<Self>) -> (found: Self)
        ensures
            found == match_for_path(variants@, path@),
            extension_of(path@) is None ==> found == FileEncoder::fallback(),
            extension_of(path@) matches Some(ext) ==> (is_ascii_chars(ext) ==> found
                == first_match(variants@, normalized(ascii_lower(ext)))),
            forall|only: FileEncoder|
                variants@ == seq![only] && extension_of(path@) == Some(#[trigger] only.ext_chars())
                    ==> found == only,
    {
        let extension = match path_extension(path) {
            Some(found) => found,
            None => "",
        };
        let found = Self::for_extension(extension, variants);
        proof {
            reveal_strlit("");
            assert(""@ =~= Seq::<char>::empty());
            lemma_empty_extension_falls_back(variants@);
            assert forall|only: FileEncoder|
                variants@ == seq![only] && extension_of(path@) == Some(
                    #[trigger] only.ext_chars(),
                ) implies found == only by {
                lemma_ext_is_lowercase_name(only);
                lemma_extension_round_trip(only, only.ext_chars());
            }
        }
        found
    }

    /// Picks the encoder for an extension as it stands in a path, in any case.
    pub fn for_extension(extension: &str, variants: &Vec<Self>) -> (found: Self)
        ensures
            found == match_for_extension(variants@, extension@),
            is_ascii_chars(extension@) ==> found == first_match(
                variants@,
                normalized(ascii_lower(extension@)),
            ),
    {
        let lower = lowercase(extension);
        Self::for_lowercase(lower.as_str(), variants)
    }

    /// Picks the encoder for an extension that is already lowercase.
    pub fn for_lowercase(lower: &str, variants: &Vec<Self>) -> (found: Self)
        ensures
            found == first_match(variants@, normalized(lower@)),
    {
        proof {
            reveal_strlit("jpeg");
            reveal_strlit("jpg");
        }
        let jpeg = "jpeg".to_owned();
        let jpg = "jpg".to_owned();
        let given = lower.to_owned();
        assert(jpeg@ =~= jpeg_chars());
        let wanted = if given == jpeg {
            jpg
        } else {
            given
        };
        let mut i: usize = 0;
        assert(variants@.skip(0) =~= variants@);
        while i < variants.len()
            invariant
                i <= variants.len(),
                wanted@ == normalized(lower@),
                first_match(variants@, wanted@) == first_match(variants@.skip(i as int), wanted@),
            decreases variants.len() - i,
        {
            let candidate = &variants[i];
            let ext = candidate.ext();
            assert(variants@.skip(i as int).drop_first() =~= variants@.skip(i as int + 1));
            if ext == wanted {
                return candidate.clone();
            }
            i = i + 1;
        }
        FileEncoder::default()
    }
}

/// First match wins: the candidate at `i` is selected when it has the extension
/// and no candidate before it has.
pub proof fn lemma_first_match_wins(variants: Seq<FileEncoder>, ext: Seq<char>, i: int)
    requires
        0 <= i < variants.len(),
        variants[i].ext_chars() == ext,
        forall|j: int| 0 <= j < i ==> variants[j].ext_chars() != ext,
    ensures
        first_match(variants, ext) == variants[i],
    decreases variants.len(),
{
    if i > 0 {
        let rest = variants.drop_first();
        assert forall|j: int| 0 <= j < i - 1 implies rest[j].ext_chars() != ext by {
            assert(rest[j] == variants[j + 1]);
        }
        lemma_first_match_wins(rest, ext, i - 1);
    }
}

/// Where no candidate has the extension, the fallback encoder is selected.
pub proof fn lemma_no_match_falls_back(variants: Seq<FileEncoder>, ext: Seq<char>)
    requires
        forall|i: int| 0 <= i < variants.len() ==> variants[i].ext_chars() != ext,
    ensures
        first_match(variants, ext) == FileEncoder::fallback(),
    decreases variants.len(),
{
    if variants.len() > 0 {
        let rest = variants.drop_first();
        assert forall|j: int| 0 <= j < rest.len() implies rest[j].ext_chars() != ext by {
            assert(rest[j] == variants[j + 1]);
        }
        lemma_no_match_falls_back(rest, ext);
    }
}

/// What is selected is one of the candidates with the extension, or else no
/// candidate has it and the fallback is selected.
pub proof fn lemma_match_is_candidate_or_fallback(variants: Seq<FileEncoder>, ext: Seq<char>)
    ensures
        (exists|i: int|
            0 <= i < variants.len() && variants[i].ext_chars() == ext && first_match(variants, ext)
                == #[trigger] variants[i]) || ((forall|i: int|
            0 <= i < variants.len() ==> (#[trigger] variants[i]).ext_chars() != ext) && first_match(
            variants,
            ext,
        ) == FileEncoder::fallback()),
    decreases variants.len(),
{
    if variants.len() > 0 && variants[0].ext_chars() != ext {
        let rest = variants.drop_first();
        lemma_match_is_candidate_or_fallback(rest, ext);
        if exists|i: int|
            0 <= i < rest.len() && rest[i].ext_chars() == ext && first_match(rest, ext)
                == #[trigger] rest[i] {
            let i = choose|i: int|
                0 <= i < rest.len() && rest[i].ext_chars() == ext && first_match(rest, ext)
                    == #[trigger] rest[i];
            assert(rest[i] == variants[i + 1]);
        } else {
            assert forall|i: int| 0 <= i < variants.len() implies (
            #[trigger] variants[i]).ext_chars() != ext by {
                if i > 0 {
                    assert(rest[i - 1] == variants[i]);
                }
            }
        }
    }
}

/// A canonical extension is the variant's name in lowercase, is all ASCII, and
/// neither lowercasing nor folding changes it.
pub proof fn lemma_ext_is_lowercase_name(variant: FileEncoder)
    ensures
        variant.ext_chars() == ascii_lower(variant.name_chars()),
        is_ascii_chars(variant.ext_chars()),
        ascii_lower(variant.ext_chars()) == variant.ext_chars(),
        normalized(variant.ext_chars()) == variant.ext_chars(),
{
    assert(variant.ext_chars() =~= ascii_lower(variant.name_chars()));
    assert(ascii_lower(variant.ext_chars()) =~= variant.ext_chars());
    assert(variant.ext_chars()[0] != jpeg_chars()[0] || variant.ext_chars().len()
        != jpeg_chars().len());
}

/// Extension round trip: an extension that lowercases to a variant's canonical
/// extension selects that very variant, options included, when it is the only
/// candidate. The canonical extension itself is such an extension.
pub proof fn lemma_extension_round_trip(variant: FileEncoder, extension: Seq<char>)
    requires
        ascii_lower(extension) == variant.ext_chars(),
    ensures
        first_match(seq![variant], normalized(ascii_lower(extension))) == variant,
        first_match(seq![variant], normalized(ascii_lower(variant.ext_chars()))) == variant,
{
    lemma_ext_is_lowercase_name(variant);
    lemma_first_match_wins(seq![variant], variant.ext_chars(), 0);
}

/// Extension normalization: an extension that lowercases to `jpeg` selects what
/// one that lowercases to `jpg` selects, whatever the candidates are.
pub proof fn lemma_jpeg_reads_as_jpg(
    variants: Seq<FileEncoder>,
    long_form: Seq<char>,
    short_form: Seq<char>,
)
    requires
        ascii_lower(long_form) == jpeg_chars(),
        ascii_lower(short_form) == seq!['j', 'p', 'g'],
    ensures
        first_match(variants, normalized(ascii_lower(long_form))) == first_match(
            variants,
            normalized(ascii_lower(short_form)),
        ),
{
    assert(seq!['j', 'p', 'g'].len() != jpeg_chars().len());
}

/// An extension that is, once normalized, none of the four canonical ones selects
/// the fallback whatever the candidates are.
pub proof fn lemma_unknown_extension_falls_back(variants: Seq<FileEncoder>, ext: Seq<char>)
    requires
        ext != seq!['j', 'p', 'g'],
        ext != seq!['p', 'n', 'g'],
        ext != seq!['b', 'm', 'p'],
        ext != seq!['w', 'e', 'b', 'p'],
    ensures
        first_match(variants, ext) == FileEncoder::fallback(),
{
    lemma_no_match_falls_back(variants, ext);
}

/// No canonical extension is empty, so the empty extension selects the fallback
/// whatever the candidates are.
pub proof fn lemma_empty_extension_falls_back(variants: Seq<FileEncoder>)
    ensures
        first_match(variants, normalized(ascii_lower(Seq::empty()))) == FileEncoder::fallback(),
        first_match(variants, Seq::empty()) == FileEncoder::fallback(),
{
    let empty = Seq::<char>::empty();
    assert(ascii_lower(empty) =~= empty);
    assert(jpeg_chars().len() == 4);
    assert forall|i: int| 0 <= i < variants.len() implies variants[i].ext_chars() != empty by {
        assert(variants[i].ext_chars().len() >= 3);
    }
    lemma_no_match_falls_back(variants, empty);
}

/// A selection among valid candidates is valid.
pub proof fn lemma_match_is_valid(variants: Seq<FileEncoder>, ext: Seq<char>)
    requires
        forall|i: int| 0 <= i < variants.len() ==> (#[trigger] variants[i]).valid(),
    ensures
        first_match(variants, ext).valid(),
{
    lemma_match_is_candidate_or_fallback(variants, ext);
}

/// The text with every `jpeg` in it made `jpg`, the occurrences taken from the
/// left and not overlapping.
pub open spec fn jpeg_folded_everywhere(text: Seq<char>) -> Seq<char>
    decreases text.len(),
{
    if text.len() < 4 {
        text
    } else if text.subrange(0, 4) == jpeg_chars() {
        seq!['j', 'p', 'g'] + jpeg_folded_everywhere(text.subrange(4, text.len() as int))
    } else {
        seq![text[0]] + jpeg_folded_everywhere(text.subrange(1, text.len() as int))
    }
}

/// Folding takes away at most one character in four, and adds none.
pub proof fn lemma_folding_shortens_little(text: Seq<char>)
    ensures
        jpeg_folded_everywhere(text).len() <= text.len(),
        4 * jpeg_folded_everywhere(text).len() >= 3 * text.len(),
    decreases text.len(),
{
    if text.len() >= 4 {
        if text.subrange(0, 4) == jpeg_chars() {
            lemma_folding_shortens_little(text.subrange(4, text.len() as int));
        } else {
            lemma_folding_shortens_little(text.subrange(1, text.len() as int));
        }
    }
}

/// For a canonical extension it is the same whether `jpeg` is folded wherever it
/// occurs in the text or only where it is the whole text: the one gives the
/// canonical extension exactly when the other does.
pub proof fn lemma_folding_meets_canonical(text: Seq<char>, variant: FileEncoder)
    ensures
        jpeg_folded_everywhere(text) == variant.ext_chars() <==> normalized(text)
            == variant.ext_chars(),
{
    let canonical = variant.ext_chars();
    let folded = jpeg_folded_everywhere(text);
    lemma_ext_is_lowercase_name(variant);
    lemma_folding_shortens_little(text);
    if text.len() == 4 {
        // Four characters are `jpeg`, which folds to `jpg`, or fold to themselves.
        assert(text.subrange(0, 4) =~= text);
        assert(jpeg_folded_everywhere(text.subrange(4, 4)) == text.subrange(4, 4));
        assert(jpeg_folded_everywhere(text.subrange(1, 4)) == text.subrange(1, 4));
        assert(text != jpeg_chars() ==> folded =~= text);
        assert(text == jpeg_chars() ==> folded =~= seq!['j', 'p', 'g']);
    } else if text.len() == 5 && folded == canonical {
        // Five characters fold to four only around a `jpeg`, and `webp`, the one
        // canonical extension of four, neither begins nor ends with `jpg`.
        assert(canonical =~= seq!['w', 'e', 'b', 'p']);
        let tail = text.subrange(1, 5);
        if text.subrange(0, 4) == jpeg_chars() {
            assert(folded[0] == 'j');
        } else if tail.subrange(0, 4) == jpeg_chars() {
            assert(jpeg_folded_everywhere(tail)[0] == 'j');
            assert(folded[1] == 'j');
        } else {
            assert(jpeg_folded_everywhere(tail.subrange(1, 4)) == tail.subrange(1, 4));
            assert(jpeg_folded_everywhere(tail).len() == 4);
            assert(folded.len() == 5);
        }
    }
    // Shorter text folds to itself; longer text folds to five characters or more.
}

/// The selection is the same whether `jpeg` is folded wherever it occurs in the
/// lowercase extension or only where it is the whole of it.
pub proof fn lemma_folding_everywhere_selects_the_same(variants: Seq<FileEncoder>, lower: Seq<char>)
    ensures
        first_match(variants, jpeg_folded_everywhere(lower)) == first_match(
            variants,
            normalized(lower),
        ),
    decreases variants.len(),
{
    if variants.len() > 0 {
        lemma_folding_meets_canonical(lower, variants[0]);
        lemma_folding_everywhere_selects_the_same(variants.drop_first(), lower);
    }
}

} // verus!
