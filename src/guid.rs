//! Recognising GUIDs written as `XXXXXXXX-XXXX-XXXX-XXXX-XXXXXXXXXXXX`,
//! optionally wrapped in braces.
use vstd::prelude::*;

verus! {

/// An ASCII hexadecimal digit, either case.
pub open spec fn is_hex_char(c: char) -> bool {
    ('0' <= c <= '9') || ('a' <= c <= 'f') || ('A' <= c <= 'F')
}

/// The positions of the four hyphens in the 36-character form.
pub open spec fn is_hyphen_pos(i: int) -> bool {
    i == 8 || i == 13 || i == 18 || i == 23
}

/// Groups of 8, 4, 4, 4 and 12 hex digits separated by single hyphens.
pub open spec fn guid_shape(s: Seq<char>) -> bool {
    &&& s.len() == 36
    &&& forall|i: int|
        0 <= i < 36 ==> if is_hyphen_pos(i) {
            #[trigger] s[i] == '-'
        } else {
            is_hex_char(s[i])
        }
}

/// `s` without one leading `{` and one trailing `}`, where they are present.
pub open spec fn strip_braces(s: Seq<char>) -> Seq<char> {
    let a = if s.len() > 0 && s[0] == '{' {
        s.drop_first()
    } else {
        s
    };
    if a.len() > 0 && a.last() == '}' {
        a.drop_last()
    } else {
        a
    }
}

/// A well-formed GUID, braced or not.
pub open spec fn valid_guid(s: Seq<char>) -> bool {
    guid_shape(strip_braces(s))
}

fn is_hex_digit(c: char) -> (r: bool)
    ensures
        r == is_hex_char(c),
{
    ('0' <= c && c <= '9') || ('a' <= c && c <= 'f') || ('A' <= c && c <= 'F')
}

/// Whether `s` is a GUID: after removing at most one leading `{` and one
/// trailing `}`, exactly 36 characters in hyphen-separated groups of
/// 8, 4, 4, 4 and 12 hexadecimal digits (either case).
pub fn is_valid_guid(s: &str) -> (r: bool)
    ensures
        r == valid_guid(s@),
{
    let n = s.unicode_len();
    let start: usize = if n > 0 && s.get_char(0) == '{' {
        1
    } else {
        0
    };
    let end: usize = if n > start && s.get_char(n - 1) == '}' {
        n - 1
    } else {
        n
    };
    let ghost inner = strip_braces(s@);
    assert(inner =~= s@.subrange(start as int, end as int));
    if end - start != 36 {
        return false;
    }
    let mut i: usize = 0;
    while i < 36
        invariant
            end - start == 36,
            end <= n == s@.len(),
            inner == s@.subrange(start as int, end as int),
            inner == strip_braces(s@),
            i <= 36,
            forall|j: int|
                0 <= j < i ==> if is_hyphen_pos(j) {
                    #[trigger] inner[j] == '-'
                } else {
                    is_hex_char(inner[j])
                },
        decreases 36 - i,
    {
        let c = s.get_char(start + i);
        assert(c == inner[i as int]);
        let ok = if i == 8 || i == 13 || i == 18 || i == 23 {
            c == '-'
        } else {
            is_hex_digit(c)
        };
        if !ok {
            assert(inner.len() == 36 && !(if is_hyphen_pos(i as int) {
                inner[i as int] == '-'
            } else {
                is_hex_char(inner[i as int])
            }));
            return false;
        }
        i += 1;
    }
    true
}

} // verus!
