//! Text helpers shared by the other modules.

use vstd::prelude::*;

verus! {

/// The characters with Unicode's `White_Space` property.
pub open spec fn is_white_space(c: char) -> bool {
    ||| 0x09 <= c as u32 <= 0x0d
    ||| c as u32 == 0x20
    ||| c as u32 == 0x85
    ||| c as u32 == 0xa0
    ||| c as u32 == 0x1680
    ||| 0x2000 <= c as u32 <= 0x200a
    ||| 0x2028 <= c as u32 <= 0x2029
    ||| c as u32 == 0x202f
    ||| c as u32 == 0x205f
    ||| c as u32 == 0x3000
}

/// Whether there is nothing but white space in `s`.
pub open spec fn is_blank(s: Seq<char>) -> bool {
    forall|i: int| 0 <= i < s.len() ==> is_white_space(#[trigger] s[i])
}

/// `s` without the white space at its two ends.
pub open spec fn trimmed(s: Seq<char>) -> Seq<char>
    decreases s.len(),
{
    if s.len() == 0 {
        s
    } else if is_white_space(s.first()) {
        trimmed(s.drop_first())
    } else if is_white_space(s.last()) {
        trimmed(s.drop_last())
    } else {
        s
    }
}

/// Trimming leaves nothing exactly when there was nothing but white space.
pub proof fn trimmed_is_empty_iff_blank(s: Seq<char>)
    ensures
        trimmed(s).len() == 0 <==> is_blank(s),
    decreases s.len(),
{
    if s.len() > 0 {
        if is_white_space(s.first()) {
            let rest = s.drop_first();
            trimmed_is_empty_iff_blank(rest);
            assert forall|i: int| is_blank(rest) && 0 <= i < s.len() implies is_white_space(
                #[trigger] s[i],
            ) by {
                if i > 0 {
                    assert(s[i] == rest[i - 1]);
                }
            }
            assert forall|i: int| is_blank(s) && 0 <= i < rest.len() implies is_white_space(
                #[trigger] rest[i],
            ) by {
                assert(rest[i] == s[i + 1]);
            }
        } else {
            assert(!is_white_space(s[0]));
            if is_white_space(s.last()) {
                let rest = s.drop_last();
                assert(rest[0] == s[0]);
                trimmed_is_empty_iff_blank(rest);
            }
        }
    }
}

/// White space is the tab, the line breaks, the space, and the separators that Unicode
/// lists beside them; nothing else is.
pub proof fn white_space_is_listed(c: char)
    ensures
        is_white_space(c) <==> ({
            ||| c == '\u{9}' || c == '\u{a}' || c == '\u{b}' || c == '\u{c}' || c == '\u{d}'
            ||| c == '\u{20}' || c == '\u{85}' || c == '\u{a0}' || c == '\u{1680}'
            ||| '\u{2000}' <= c && c <= '\u{200a}'
            ||| c == '\u{2028}' || c == '\u{2029}' || c == '\u{202f}' || c == '\u{205f}'
            ||| c == '\u{3000}'
        }),
{
}

/// A text is blank exactly when it holds no character that is not white space.
pub proof fn blank_text_is_white_space(s: Seq<char>)
    ensures
        is_blank(s) <==> !(exists|i: int| 0 <= i < s.len() && !is_white_space(#[trigger] s[i])),
{
}

/// Trimming takes away white space at both ends and keeps what is between, whole.
pub proof fn trimming_strips_both_ends(before: Seq<char>, middle: Seq<char>, behind: Seq<char>)
    requires
        is_blank(before),
        is_blank(behind),
        middle.len() > 0 ==> !is_white_space(middle.first()) && !is_white_space(middle.last()),
    ensures
        trimmed(before + middle + behind) == middle,
    decreases before.len() + behind.len(),
{
    let s = before + middle + behind;
    if before.len() > 0 {
        let rest = before.drop_first();
        assert(s.first() == before[0]);
        assert(s.drop_first() =~= rest + middle + behind);
        assert forall|i: int| 0 <= i < rest.len() implies is_white_space(#[trigger] rest[i]) by {
            assert(rest[i] == before[i + 1]);
        }
        trimming_strips_both_ends(rest, middle, behind);
    } else if middle.len() == 0 {
        assert(s =~= behind);
        trimmed_is_empty_iff_blank(s);
        assert(trimmed(s) =~= middle);
    } else if behind.len() > 0 {
        let rest = behind.drop_last();
        assert(s.first() == middle.first());
        assert(s.last() == behind.last());
        assert(is_white_space(behind[behind.len() - 1]));
        assert(s.drop_last() =~= before + middle + rest);
        assert forall|i: int| 0 <= i < rest.len() implies is_white_space(#[trigger] rest[i]) by {
            assert(rest[i] == behind[i]);
        }
        trimming_strips_both_ends(before, middle, rest);
    } else {
        assert(s =~= middle);
    }
}

/// The text of a string is all of its characters, also inside an option and in a list.
pub proof fn texts_are_whole(o: Option<String>, list: Seq<String>, i: int)
    ensures
        o matches Some(t) ==> opt_text(o) == Some(t@),
        o is None ==> opt_text(o) is None,
        texts(list).len() == list.len(),
        0 <= i < list.len() ==> texts(list)[i] == list[i]@,
{
}

/// `str::trim`. Claimed of it: the result is the text without the white space at its
/// two ends, where white space is what Unicode's `White_Space` property says.
#[verifier::external_body]
pub(crate) fn trim(s: &str) -> (r: &str)
    ensures
        r@ == trimmed(s@),
{
    s.trim()
}

/// Whether two texts are the same.
pub(crate) fn same(a: &str, b: &str) -> (r: bool)
    ensures
        r == (a@ == b@),
{
    a.to_owned() == b.to_owned()
}

/// Whether `o` holds exactly the text `s`.
pub(crate) fn holds(o: &Option<String>, s: &str) -> (r: bool)
    ensures
        r == (opt_text(*o) == Some(s@)),
{
    match o {
        Some(t) => same(t.as_str(), s),
        None => false,
    }
}

/// `a` followed by `b`.
pub(crate) fn join(a: &str, b: &str) -> (r: String)
    ensures
        r@ == a@ + b@,
{
    a.to_owned().concat(b)
}

/// The text that an optional string holds, if any.
pub open spec fn opt_text(o: Option<String>) -> Option<Seq<char>> {
    match o {
        Some(s) => Some(s@),
        None => None,
    }
}

/// The texts of a list of strings.
pub open spec fn texts(s: Seq<String>) -> Seq<Seq<char>> {
    s.map_values(|t: String| t@)
}

} // verus!
