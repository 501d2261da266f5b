//! Recognising image files by their extension.
use vstd::prelude::*;

verus! {

pub open spec fn is_separator(c: char) -> bool {
    c == '/' || c == '\\'
}

/// `k` is the dot that starts the extension: the last `.` of the final path
/// component, and not that component's first character.
pub open spec fn extension_dot(p: Seq<char>, k: int) -> bool {
    &&& 0 < k < p.len()
    &&& p[k] == '.'
    &&& !is_separator(p[k - 1])
    &&& forall|j: int| k < j < p.len() ==> p[j] != '.' && !is_separator(#[trigger] p[j])
}

/// `c` is the lower-case ASCII letter `lower`, or its upper-case form.
pub open spec fn same_letter(c: char, lower: char) -> bool {
    c == lower || c as u32 + 32 == lower as u32
}

pub open spec fn equals_ignoring_case(e: Seq<char>, word: Seq<char>) -> bool {
    e.len() == word.len() && forall|i: int| 0 <= i < e.len() ==> same_letter(#[trigger] e[i], word[i])
}

/// The extensions of the image formats shown: jpg, jpeg, png, gif and bmp.
pub open spec fn is_image_word(e: Seq<char>) -> bool {
    ||| equals_ignoring_case(e, seq!['j', 'p', 'g'])
    ||| equals_ignoring_case(e, seq!['j', 'p', 'e', 'g'])
    ||| equals_ignoring_case(e, seq!['p', 'n', 'g'])
    ||| equals_ignoring_case(e, seq!['g', 'i', 'f'])
    ||| equals_ignoring_case(e, seq!['b', 'm', 'p'])
}

/// The path has an extension, and it names an image format, in any case.
pub open spec fn has_image_extension(p: Seq<char>) -> bool {
    exists|k: int| extension_dot(p, k) && is_image_word(#[trigger] p.subrange(k + 1, p.len() as int))
}

fn matches_word(path: &str, from: usize, to: usize, word: &Vec<char>) -> (r: bool)
    requires
        from <= to <= path@.len(),
    ensures
        r == equals_ignoring_case(path@.subrange(from as int, to as int), word@),
{
    if to - from != word.len() {
        return false;
    }
    let ghost e = path@.subrange(from as int, to as int);
    let mut i: usize = 0;
    while i < word.len()
        invariant
            from <= to <= path@.len(),
            to - from == word@.len(),
            e == path@.subrange(from as int, to as int),
            i <= word@.len(),
            forall|j: int| 0 <= j < i ==> same_letter(#[trigger] e[j], word@[j]),
        decreases word@.len() - i,
    {
        let c = path.get_char(from + i);
        let w = word[i];
        let cu = c as u32;
        let wu = w as u32;
        if !(c == w || (wu >= 32 && cu == wu - 32)) {
            assert(!same_letter(e[i as int], word@[i as int]));
            return false;
        }
        i += 1;
    }
    true
}

fn ends_component_part(path: &str, i: usize) -> (r: bool)
    requires
        0 < i <= path@.len(),
    ensures
        r == (path@[i - 1] == '.' || is_separator(path@[i - 1])),
{
    let c = path.get_char(i - 1);
    c == '.' || c == '/' || c == '\\'
}

/// Tells whether `path` ends in one of the image extensions jpg, jpeg, png,
/// gif or bmp, ignoring ASCII case.
pub fn is_image_path(path: &str) -> (r: bool)
    ensures
        r == has_image_extension(path@),
{
    let n = path.unicode_len();
    let ghost p = path@;
    let mut i: usize = n;
    while i > 0 && !ends_component_part(path, i)
        invariant
            n == p.len(),
            p == path@,
            i <= n,
            forall|j: int| i <= j < n ==> p[j] != '.' && !is_separator(#[trigger] p[j]),
        decreases i,
    {
        i -= 1;
    }
    // No dot can start an extension except the one just before `i`.
    assert(forall|k: int| #[trigger] extension_dot(p, k) ==> k == i - 1) by {
        assert forall|k: int| #[trigger] extension_dot(p, k) implies k == i - 1 by {
            if k >= i {
                assert(p[k] != '.');
            } else if k < i - 1 {
                let j = i - 1;
                assert(k < j < p.len());
                assert(p[j] != '.' && !is_separator(p[j]));
            }
        }
    }
    if i < 2 {
        return false;
    }
    let dot = path.get_char(i - 1);
    if dot != '.' {
        return false;
    }
    let before = path.get_char(i - 2);
    if before == '/' || before == '\\' {
        return false;
    }
    assert(extension_dot(p, i - 1));
    let r = matches_word(path, i, n, &vec!['j', 'p', 'g'])
        || matches_word(path, i, n, &vec!['j', 'p', 'e', 'g'])
        || matches_word(path, i, n, &vec!['p', 'n', 'g'])
        || matches_word(path, i, n, &vec!['g', 'i', 'f'])
        || matches_word(path, i, n, &vec!['b', 'm', 'p']);
    assert(p.subrange(i as int, n as int) == p.subrange((i - 1) + 1, p.len() as int));
    r
}

} // verus!
