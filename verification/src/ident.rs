//! Stable player identifiers.
//!
//! A player identifier is a globally unique, immutable 128-bit value naming
//! a game account.  It is opaque to this core: no arithmetic or ordering is
//! ever performed on one, only equality.  The library carries it in its
//! canonical textual form: 32 lowercase hexadecimal digits in five groups
//! separated by hyphens (8-4-4-4-12).  Parsing accepts the hyphenated form
//! and the plain 32-digit form, in either case, and normalizes both.

use vstd::prelude::*;
use crate::text::chars_of;

verus! {

/// Whether `c` is a hexadecimal digit (either case).
pub open spec fn is_hex_char(c: char) -> bool {
    (48 <= c as int && c as int <= 57)  // '0'..='9'
    || (97 <= c as int && c as int <= 102)  // 'a'..='f'
    || (65 <= c as int && c as int <= 70)  // 'A'..='F'
}

/// Whether `c` is a lowercase hexadecimal digit.
pub open spec fn is_lower_hex_char(c: char) -> bool {
    (48 <= c as int && c as int <= 57) || (97 <= c as int && c as int <= 102)
}

/// The lowercase counterpart of a hexadecimal digit; other characters stay.
pub open spec fn to_lower_hex(c: char) -> char {
    if c == 'A' {
        'a'
    } else if c == 'B' {
        'b'
    } else if c == 'C' {
        'c'
    } else if c == 'D' {
        'd'
    } else if c == 'E' {
        'e'
    } else if c == 'F' {
        'f'
    } else {
        c
    }
}

/// The hyphen positions of the canonical 36-character form.
pub open spec fn uuid_hyphen_pos(i: int) -> bool {
    i == 8 || i == 13 || i == 18 || i == 23
}

/// Whether `s` is a well-formed hyphenated identifier, either case.
pub open spec fn valid_hyphenated(s: Seq<char>) -> bool {
    s.len() == 36 && forall|i: int|
        0 <= i < 36 ==> if uuid_hyphen_pos(i) {
            s[i] == '-'
        } else {
            is_hex_char(s[i])
        }
}

/// Whether `s` is a well-formed plain 32-digit identifier, either case.
pub open spec fn valid_plain(s: Seq<char>) -> bool {
    s.len() == 32 && forall|i: int| 0 <= i < 32 ==> is_hex_char(s[i])
}

/// Lowercasing of every character of a hexadecimal sequence.
pub open spec fn lower_all(s: Seq<char>) -> Seq<char> {
    Seq::new(s.len(), |i: int| to_lower_hex(s[i]))
}

/// The hyphenated arrangement of 32 digits: groups of 8, 4, 4, 4 and 12.
pub open spec fn hyphenate(s: Seq<char>) -> Seq<char> {
    s.subrange(0, 8) + seq!['-'] + s.subrange(8, 12) + seq!['-'] + s.subrange(12, 16)
        + seq!['-'] + s.subrange(16, 20) + seq!['-'] + s.subrange(20, 32)
}

/// The canonical form of a textual identifier, if it is well formed.
pub open spec fn uuid_canonical_of(s: Seq<char>) -> Option<Seq<char>> {
    if valid_hyphenated(s) {
        Some(lower_all(s))
    } else if valid_plain(s) {
        Some(hyphenate(lower_all(s)))
    } else {
        None
    }
}

/// Whether `s` is a canonical identifier text: 36 characters, hyphens at
/// the group boundaries, lowercase hexadecimal digits elsewhere.
pub open spec fn canonical_uuid(s: Seq<char>) -> bool {
    s.len() == 36 && forall|i: int|
        0 <= i < 36 ==> if uuid_hyphen_pos(i) {
            s[i] == '-'
        } else {
            is_lower_hex_char(s[i])
        }
}

/// A stable, opaque player (or admin account) identifier, held in
/// canonical textual form.
#[derive(Debug)]
pub struct PlayerIdentifier {
    canonical: String,
}

impl View for PlayerIdentifier {
    type V = Seq<char>;

    closed spec fn view(&self) -> Seq<char> {
        self.canonical@
    }
}

fn lower_hex_exec(c: char) -> (r: char)
    ensures
        r == to_lower_hex(c),
{
    if c == 'A' {
        'a'
    } else if c == 'B' {
        'b'
    } else if c == 'C' {
        'c'
    } else if c == 'D' {
        'd'
    } else if c == 'E' {
        'e'
    } else if c == 'F' {
        'f'
    } else {
        c
    }
}

fn is_hex_exec(c: char) -> (r: bool)
    ensures
        r == is_hex_char(c),
{
    let u = c as u32;
    (48 <= u && u <= 57) || (97 <= u && u <= 102) || (65 <= u && u <= 70)
}

impl PlayerIdentifier {
    /// Whether the held text is canonical; established by every constructor.
    pub open spec fn wf(&self) -> bool {
        canonical_uuid(self@)
    }

    /// Parses a textual identifier, accepting the hyphenated and the plain
    /// form, and normalizes it to the canonical lowercase hyphenated form.
    pub fn parse(s: &str) -> (r: Option<PlayerIdentifier>)
        ensures
            match r {
                Some(id) => uuid_canonical_of(s@) == Some(id@) && id.wf(),
                None => uuid_canonical_of(s@) is None,
            },
    {
        let v = chars_of(s);
        if v.len() == 36 {
            Self::parse_hyphenated(&v)
        } else if v.len() == 32 {
            Self::parse_plain(&v)
        } else {
            None
        }
    }

    fn parse_hyphenated(v: &Vec<char>) -> (r: Option<PlayerIdentifier>)
        requires
            v@.len() == 36,
        ensures
            match r {
                Some(id) => valid_hyphenated(v@) && id@ == lower_all(v@) && id.wf(),
                None => !valid_hyphenated(v@),
            },
    {
        let mut out = String::new();
        let mut i: usize = 0;
        while i < 36
            invariant
                i <= 36,
                v@.len() == 36,
                out@ =~= lower_all(v@).subrange(0, i as int),
                forall|k: int|
                    0 <= k < i ==> if uuid_hyphen_pos(k) {
                        v@[k] == '-'
                    } else {
                        is_hex_char(v@[k])
                    },
            decreases 36 - i,
        {
            let c = v[i];
            if i == 8 || i == 13 || i == 18 || i == 23 {
                if c != '-' {
                    return None;
                }
            } else {
                if !is_hex_exec(c) {
                    return None;
                }
            }
            out.push(lower_hex_exec(c));
            assert(out@ =~= lower_all(v@).subrange(0, i + 1 as int));
            i += 1;
        }
        assert(out@ =~= lower_all(v@));
        let id = PlayerIdentifier { canonical: out };
        assert forall|k: int| 0 <= k < 36 implies (if uuid_hyphen_pos(k) {
            id@[k] == '-'
        } else {
            is_lower_hex_char(id@[k])
        }) by {
            assert(id@[k] == to_lower_hex(v@[k]));
        }
        Some(id)
    }

    fn parse_plain(v: &Vec<char>) -> (r: Option<PlayerIdentifier>)
        requires
            v@.len() == 32,
        ensures
            match r {
                Some(id) => valid_plain(v@) && id@ == hyphenate(lower_all(v@)) && id.wf(),
                None => !valid_plain(v@),
            },
    {
        let mut out = String::new();
        let mut i: usize = 0;
        while i < 32
            invariant
                i <= 32,
                v@.len() == 32,
                out@ =~= hyphenate_prefix(lower_all(v@), i as int),
                forall|k: int| 0 <= k < i ==> is_hex_char(v@[k]),
            decreases 32 - i,
        {
            let c = v[i];
            if !is_hex_exec(c) {
                return None;
            }
            if i == 8 || i == 12 || i == 16 || i == 20 {
                out.push('-');
            }
            out.push(lower_hex_exec(c));
            assert(out@ =~= hyphenate_prefix(lower_all(v@), i + 1 as int));
            i += 1;
        }
        assert(out@ =~= hyphenate_prefix(lower_all(v@), 32));
        assert(out@ =~= hyphenate(lower_all(v@)));
        let id = PlayerIdentifier { canonical: out };
        assert forall|k: int| 0 <= k < 36 implies (if uuid_hyphen_pos(k) {
            id@[k] == '-'
        } else {
            is_lower_hex_char(id@[k])
        }) by {
            lemma_hyphenate_index(lower_all(v@), k);
        }
        Some(id)
    }

    /// The canonical text of the identifier.
    pub fn text(&self) -> (r: &str)
        ensures
            r@ == self@,
    {
        self.canonical.as_str()
    }

    /// A copy of the canonical text of the identifier.
    pub fn text_owned(&self) -> (r: String)
        ensures
            r@ == self@,
    {
        self.canonical.clone()
    }

    /// Equality of identifiers: equality of their canonical texts.
    pub fn same_as(&self, other: &PlayerIdentifier) -> (r: bool)
        ensures
            r == (self@ == other@),
    {
        self.canonical == other.canonical
    }

    /// A copy of the identifier.
    pub fn duplicate(&self) -> (r: PlayerIdentifier)
        ensures
            r@ == self@,
            self.wf() ==> r.wf(),
    {
        PlayerIdentifier { canonical: self.canonical.clone() }
    }
}

/// The first `i` digits of `s`, hyphenated as far as they reach.
spec fn hyphenate_prefix(s: Seq<char>, i: int) -> Seq<char> {
    if i <= 8 {
        s.subrange(0, i)
    } else if i <= 12 {
        s.subrange(0, 8) + seq!['-'] + s.subrange(8, i)
    } else if i <= 16 {
        s.subrange(0, 8) + seq!['-'] + s.subrange(8, 12) + seq!['-'] + s.subrange(12, i)
    } else if i <= 20 {
        s.subrange(0, 8) + seq!['-'] + s.subrange(8, 12) + seq!['-'] + s.subrange(12, 16)
            + seq!['-'] + s.subrange(16, i)
    } else {
        s.subrange(0, 8) + seq!['-'] + s.subrange(8, 12) + seq!['-'] + s.subrange(12, 16)
            + seq!['-'] + s.subrange(16, 20) + seq!['-'] + s.subrange(20, i)
    }
}

proof fn lemma_hyphenate_index(s: Seq<char>, k: int)
    requires
        s.len() == 32,
        0 <= k < 36,
    ensures
        uuid_hyphen_pos(k) ==> hyphenate(s)[k] == '-',
        !uuid_hyphen_pos(k) && k < 8 ==> hyphenate(s)[k] == s[k],
        !uuid_hyphen_pos(k) && 8 < k < 13 ==> hyphenate(s)[k] == s[k - 1],
        !uuid_hyphen_pos(k) && 13 < k < 18 ==> hyphenate(s)[k] == s[k - 2],
        !uuid_hyphen_pos(k) && 18 < k < 23 ==> hyphenate(s)[k] == s[k - 3],
        !uuid_hyphen_pos(k) && 23 < k ==> hyphenate(s)[k] == s[k - 4],
{
}

} // verus!
