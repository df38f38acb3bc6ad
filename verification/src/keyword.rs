use vstd::prelude::*;
use vstd::string::StringSliceAdditionalSpecFns;
use vstd::utf8::encode_utf8;
use vstd::utf8::is_ascii_chars_encode_utf8;

use aho_corasick::{AhoCorasick, AhoCorasickBuilder, BuildError, MatchKind};

verus! {

/// The reserved words of the SQL dialect.
#[derive(Debug, PartialEq, Eq, Hash, Clone, Copy, Structural)]
pub enum Keyword {
    Select,
    From,
    Where,
    Insert,
    Into,
    Values,
    Update,
    SetKw,
    Delete,
    Create,
    Table,
    Drop,
    Alter,
    Add,
    Join,
    On,
    As,
    And,
    Asc,
    Desc,
    Or,
    Not,
    Null,
    Is,
    In,
    Like,
    Order,
    By,
    Group,
    Having,
    Limit,
    Left,
    Right,
    Inner,
    Offset,
    Distinct,
    Union,
    All,
    Exists,
    Between,
    Case,
    When,
    Then,
    Else,
    End,
    Full,
    Outer,
    Cross,
    Intersect,
    Except,
    True,
    False,
    First,
    Last,
    Nulls,
    With,
    Recursive,
    Over,
    Partition,
    If,
    Default,
    Primary,
    Key,
    Unique,
    Cascade,
    Restrict,
    Column,
    Rename,
    To,
    Natural,
    Using,
}


/// The number of keywords.
pub const KEYWORD_COUNT: usize = 71;

impl Keyword {
    /// The spelling of a keyword, as it is matched (without regard to ASCII
    /// case) against the source.
    pub open spec fn spec_name(self) -> Seq<char> {
        match self {
            Keyword::Select => "Select"@,
            Keyword::From => "From"@,
            Keyword::Where => "Where"@,
            Keyword::Insert => "Insert"@,
            Keyword::Into => "Into"@,
            Keyword::Values => "Values"@,
            Keyword::Update => "Update"@,
            Keyword::SetKw => "Set"@,
            Keyword::Delete => "Delete"@,
            Keyword::Create => "Create"@,
            Keyword::Table => "Table"@,
            Keyword::Drop => "Drop"@,
            Keyword::Alter => "Alter"@,
            Keyword::Add => "Add"@,
            Keyword::Join => "Join"@,
            Keyword::On => "On"@,
            Keyword::As => "As"@,
            Keyword::And => "And"@,
            Keyword::Asc => "Asc"@,
            Keyword::Desc => "Desc"@,
            Keyword::Or => "Or"@,
            Keyword::Not => "Not"@,
            Keyword::Null => "Null"@,
            Keyword::Is => "Is"@,
            Keyword::In => "In"@,
            Keyword::Like => "Like"@,
            Keyword::Order => "Order"@,
            Keyword::By => "By"@,
            Keyword::Group => "Group"@,
            Keyword::Having => "Having"@,
            Keyword::Limit => "Limit"@,
            Keyword::Left => "Left"@,
            Keyword::Right => "Right"@,
            Keyword::Inner => "Inner"@,
            Keyword::Offset => "Offset"@,
            Keyword::Distinct => "Distinct"@,
            Keyword::Union => "Union"@,
            Keyword::All => "All"@,
            Keyword::Exists => "Exists"@,
            Keyword::Between => "Between"@,
            Keyword::Case => "Case"@,
            Keyword::When => "When"@,
            Keyword::Then => "Then"@,
            Keyword::Else => "Else"@,
            Keyword::End => "End"@,
            Keyword::Full => "Full"@,
            Keyword::Outer => "Outer"@,
            Keyword::Cross => "Cross"@,
            Keyword::Intersect => "Intersect"@,
            Keyword::Except => "Except"@,
            Keyword::True => "True"@,
            Keyword::False => "False"@,
            Keyword::First => "First"@,
            Keyword::Last => "Last"@,
            Keyword::Nulls => "Nulls"@,
            Keyword::With => "With"@,
            Keyword::Recursive => "Recursive"@,
            Keyword::Over => "Over"@,
            Keyword::Partition => "Partition"@,
            Keyword::If => "If"@,
            Keyword::Default => "Default"@,
            Keyword::Primary => "Primary"@,
            Keyword::Key => "Key"@,
            Keyword::Unique => "Unique"@,
            Keyword::Cascade => "Cascade"@,
            Keyword::Restrict => "Restrict"@,
            Keyword::Column => "Column"@,
            Keyword::Rename => "Rename"@,
            Keyword::To => "To"@,
            Keyword::Natural => "Natural"@,
            Keyword::Using => "Using"@,
        }
    }

    /// The position of a keyword in the list of all keywords.
    pub open spec fn spec_index(self) -> int {
        match self {
            Keyword::Select => 0,
            Keyword::From => 1,
            Keyword::Where => 2,
            Keyword::Insert => 3,
            Keyword::Into => 4,
            Keyword::Values => 5,
            Keyword::Update => 6,
            Keyword::SetKw => 7,
            Keyword::Delete => 8,
            Keyword::Create => 9,
            Keyword::Table => 10,
            Keyword::Drop => 11,
            Keyword::Alter => 12,
            Keyword::Add => 13,
            Keyword::Join => 14,
            Keyword::On => 15,
            Keyword::As => 16,
            Keyword::And => 17,
            Keyword::Asc => 18,
            Keyword::Desc => 19,
            Keyword::Or => 20,
            Keyword::Not => 21,
            Keyword::Null => 22,
            Keyword::Is => 23,
            Keyword::In => 24,
            Keyword::Like => 25,
            Keyword::Order => 26,
            Keyword::By => 27,
            Keyword::Group => 28,
            Keyword::Having => 29,
            Keyword::Limit => 30,
            Keyword::Left => 31,
            Keyword::Right => 32,
            Keyword::Inner => 33,
            Keyword::Offset => 34,
            Keyword::Distinct => 35,
            Keyword::Union => 36,
            Keyword::All => 37,
            Keyword::Exists => 38,
            Keyword::Between => 39,
            Keyword::Case => 40,
            Keyword::When => 41,
            Keyword::Then => 42,
            Keyword::Else => 43,
            Keyword::End => 44,
            Keyword::Full => 45,
            Keyword::Outer => 46,
            Keyword::Cross => 47,
            Keyword::Intersect => 48,
            Keyword::Except => 49,
            Keyword::True => 50,
            Keyword::False => 51,
            Keyword::First => 52,
            Keyword::Last => 53,
            Keyword::Nulls => 54,
            Keyword::With => 55,
            Keyword::Recursive => 56,
            Keyword::Over => 57,
            Keyword::Partition => 58,
            Keyword::If => 59,
            Keyword::Default => 60,
            Keyword::Primary => 61,
            Keyword::Key => 62,
            Keyword::Unique => 63,
            Keyword::Cascade => 64,
            Keyword::Restrict => 65,
            Keyword::Column => 66,
            Keyword::Rename => 67,
            Keyword::To => 68,
            Keyword::Natural => 69,
            Keyword::Using => 70,
        }
    }

    /// The spelling of the keyword.
    pub fn as_str(&self) -> (r: &'static str)
        ensures
            r@ == self.spec_name(),
    {
        match self {
            Keyword::Select => "Select",
            Keyword::From => "From",
            Keyword::Where => "Where",
            Keyword::Insert => "Insert",
            Keyword::Into => "Into",
            Keyword::Values => "Values",
            Keyword::Update => "Update",
            Keyword::SetKw => "Set",
            Keyword::Delete => "Delete",
            Keyword::Create => "Create",
            Keyword::Table => "Table",
            Keyword::Drop => "Drop",
            Keyword::Alter => "Alter",
            Keyword::Add => "Add",
            Keyword::Join => "Join",
            Keyword::On => "On",
            Keyword::As => "As",
            Keyword::And => "And",
            Keyword::Asc => "Asc",
            Keyword::Desc => "Desc",
            Keyword::Or => "Or",
            Keyword::Not => "Not",
            Keyword::Null => "Null",
            Keyword::Is => "Is",
            Keyword::In => "In",
            Keyword::Like => "Like",
            Keyword::Order => "Order",
            Keyword::By => "By",
            Keyword::Group => "Group",
            Keyword::Having => "Having",
            Keyword::Limit => "Limit",
            Keyword::Left => "Left",
            Keyword::Right => "Right",
            Keyword::Inner => "Inner",
            Keyword::Offset => "Offset",
            Keyword::Distinct => "Distinct",
            Keyword::Union => "Union",
            Keyword::All => "All",
            Keyword::Exists => "Exists",
            Keyword::Between => "Between",
            Keyword::Case => "Case",
            Keyword::When => "When",
            Keyword::Then => "Then",
            Keyword::Else => "Else",
            Keyword::End => "End",
            Keyword::Full => "Full",
            Keyword::Outer => "Outer",
            Keyword::Cross => "Cross",
            Keyword::Intersect => "Intersect",
            Keyword::Except => "Except",
            Keyword::True => "True",
            Keyword::False => "False",
            Keyword::First => "First",
            Keyword::Last => "Last",
            Keyword::Nulls => "Nulls",
            Keyword::With => "With",
            Keyword::Recursive => "Recursive",
            Keyword::Over => "Over",
            Keyword::Partition => "Partition",
            Keyword::If => "If",
            Keyword::Default => "Default",
            Keyword::Primary => "Primary",
            Keyword::Key => "Key",
            Keyword::Unique => "Unique",
            Keyword::Cascade => "Cascade",
            Keyword::Restrict => "Restrict",
            Keyword::Column => "Column",
            Keyword::Rename => "Rename",
            Keyword::To => "To",
            Keyword::Natural => "Natural",
            Keyword::Using => "Using",
        }
    }

    /// The keyword at position `index` of the list of all keywords.
    pub fn variant_at(index: usize) -> (r: Option<Keyword>)
        ensures
            r == keyword_at(index as int),
    {
        match index {
        0 => Some(Keyword::Select),
        1 => Some(Keyword::From),
        2 => Some(Keyword::Where),
        3 => Some(Keyword::Insert),
        4 => Some(Keyword::Into),
        5 => Some(Keyword::Values),
        6 => Some(Keyword::Update),
        7 => Some(Keyword::SetKw),
        8 => Some(Keyword::Delete),
        9 => Some(Keyword::Create),
        10 => Some(Keyword::Table),
        11 => Some(Keyword::Drop),
        12 => Some(Keyword::Alter),
        13 => Some(Keyword::Add),
        14 => Some(Keyword::Join),
        15 => Some(Keyword::On),
        16 => Some(Keyword::As),
        17 => Some(Keyword::And),
        18 => Some(Keyword::Asc),
        19 => Some(Keyword::Desc),
        20 => Some(Keyword::Or),
        21 => Some(Keyword::Not),
        22 => Some(Keyword::Null),
        23 => Some(Keyword::Is),
        24 => Some(Keyword::In),
        25 => Some(Keyword::Like),
        26 => Some(Keyword::Order),
        27 => Some(Keyword::By),
        28 => Some(Keyword::Group),
        29 => Some(Keyword::Having),
        30 => Some(Keyword::Limit),
        31 => Some(Keyword::Left),
        32 => Some(Keyword::Right),
        33 => Some(Keyword::Inner),
        34 => Some(Keyword::Offset),
        35 => Some(Keyword::Distinct),
        36 => Some(Keyword::Union),
        37 => Some(Keyword::All),
        38 => Some(Keyword::Exists),
        39 => Some(Keyword::Between),
        40 => Some(Keyword::Case),
        41 => Some(Keyword::When),
        42 => Some(Keyword::Then),
        43 => Some(Keyword::Else),
        44 => Some(Keyword::End),
        45 => Some(Keyword::Full),
        46 => Some(Keyword::Outer),
        47 => Some(Keyword::Cross),
        48 => Some(Keyword::Intersect),
        49 => Some(Keyword::Except),
        50 => Some(Keyword::True),
        51 => Some(Keyword::False),
        52 => Some(Keyword::First),
        53 => Some(Keyword::Last),
        54 => Some(Keyword::Nulls),
        55 => Some(Keyword::With),
        56 => Some(Keyword::Recursive),
        57 => Some(Keyword::Over),
        58 => Some(Keyword::Partition),
        59 => Some(Keyword::If),
        60 => Some(Keyword::Default),
        61 => Some(Keyword::Primary),
        62 => Some(Keyword::Key),
        63 => Some(Keyword::Unique),
        64 => Some(Keyword::Cascade),
        65 => Some(Keyword::Restrict),
        66 => Some(Keyword::Column),
        67 => Some(Keyword::Rename),
        68 => Some(Keyword::To),
        69 => Some(Keyword::Natural),
        70 => Some(Keyword::Using),
            _ => None,
        }
    }
}

/// The keyword at position `i` of the list of all keywords, in declaration order.
pub open spec fn keyword_at(i: int) -> Option<Keyword> {
    if 0 <= i < KEYWORD_COUNT {
        keyword_at_index(i as usize)
    } else {
        None
    }
}

/// The keyword at position `i` (see [`keyword_at`]).
pub open spec fn keyword_at_index(i: usize) -> Option<Keyword> {
    match i {
        0 => Some(Keyword::Select),
        1 => Some(Keyword::From),
        2 => Some(Keyword::Where),
        3 => Some(Keyword::Insert),
        4 => Some(Keyword::Into),
        5 => Some(Keyword::Values),
        6 => Some(Keyword::Update),
        7 => Some(Keyword::SetKw),
        8 => Some(Keyword::Delete),
        9 => Some(Keyword::Create),
        10 => Some(Keyword::Table),
        11 => Some(Keyword::Drop),
        12 => Some(Keyword::Alter),
        13 => Some(Keyword::Add),
        14 => Some(Keyword::Join),
        15 => Some(Keyword::On),
        16 => Some(Keyword::As),
        17 => Some(Keyword::And),
        18 => Some(Keyword::Asc),
        19 => Some(Keyword::Desc),
        20 => Some(Keyword::Or),
        21 => Some(Keyword::Not),
        22 => Some(Keyword::Null),
        23 => Some(Keyword::Is),
        24 => Some(Keyword::In),
        25 => Some(Keyword::Like),
        26 => Some(Keyword::Order),
        27 => Some(Keyword::By),
        28 => Some(Keyword::Group),
        29 => Some(Keyword::Having),
        30 => Some(Keyword::Limit),
        31 => Some(Keyword::Left),
        32 => Some(Keyword::Right),
        33 => Some(Keyword::Inner),
        34 => Some(Keyword::Offset),
        35 => Some(Keyword::Distinct),
        36 => Some(Keyword::Union),
        37 => Some(Keyword::All),
        38 => Some(Keyword::Exists),
        39 => Some(Keyword::Between),
        40 => Some(Keyword::Case),
        41 => Some(Keyword::When),
        42 => Some(Keyword::Then),
        43 => Some(Keyword::Else),
        44 => Some(Keyword::End),
        45 => Some(Keyword::Full),
        46 => Some(Keyword::Outer),
        47 => Some(Keyword::Cross),
        48 => Some(Keyword::Intersect),
        49 => Some(Keyword::Except),
        50 => Some(Keyword::True),
        51 => Some(Keyword::False),
        52 => Some(Keyword::First),
        53 => Some(Keyword::Last),
        54 => Some(Keyword::Nulls),
        55 => Some(Keyword::With),
        56 => Some(Keyword::Recursive),
        57 => Some(Keyword::Over),
        58 => Some(Keyword::Partition),
        59 => Some(Keyword::If),
        60 => Some(Keyword::Default),
        61 => Some(Keyword::Primary),
        62 => Some(Keyword::Key),
        63 => Some(Keyword::Unique),
        64 => Some(Keyword::Cascade),
        65 => Some(Keyword::Restrict),
        66 => Some(Keyword::Column),
        67 => Some(Keyword::Rename),
        68 => Some(Keyword::To),
        69 => Some(Keyword::Natural),
        70 => Some(Keyword::Using),
        _ => None,
    }
}

/// Every index below [`KEYWORD_COUNT`] holds a keyword.
proof fn lemma_keyword_at_in_range(i: int)
    requires
        0 <= i < KEYWORD_COUNT,
    ensures
        keyword_at(i) is Some,
{
}

/// Every keyword sits at its own index.
pub proof fn lemma_keyword_index(k: Keyword)
    ensures
        0 <= k.spec_index() < KEYWORD_COUNT,
        keyword_at(k.spec_index()) == Some(k),
{
}

/// The spelling of the keyword at `i`, as UTF-8 bytes; in declaration order
/// these are the patterns of a [`KeywordMap`].
pub open spec fn keyword_patterns() -> Seq<Seq<u8>> {
    Seq::new(KEYWORD_COUNT as nat, |i: int| encode_utf8(keyword_at(i).unwrap().spec_name()))
}

/// An ASCII upper-case letter mapped to lower case; other bytes unchanged.
pub open spec fn ascii_lower(b: u8) -> u8 {
    if 65 <= b <= 90 {
        (b + 32) as u8
    } else {
        b
    }
}

/// Equality of byte strings up to ASCII case.
pub open spec fn ascii_ci_eq(a: Seq<u8>, b: Seq<u8>) -> bool {
    &&& a.len() == b.len()
    &&& forall|i: int| 0 <= i < a.len() ==> #[trigger] ascii_lower(a[i]) == ascii_lower(b[i])
}

/// Pattern `p` of `patterns` occurs, up to ASCII case, at bytes `start..end`
/// of `haystack`.
pub open spec fn occurs(patterns: Seq<Seq<u8>>, haystack: Seq<u8>, p: int, start: int, end: int) -> bool {
    &&& 0 <= p < patterns.len()
    &&& 0 <= start <= end <= haystack.len()
    &&& ascii_ci_eq(haystack.subrange(start, end), patterns[p])
}

/// What a leftmost-longest search reports: `None` when no pattern occurs;
/// otherwise an occurrence `(pattern, start, end)` that starts first and,
/// among those that start there, ends last.
pub open spec fn leftmost_longest(patterns: Seq<Seq<u8>>, haystack: Seq<u8>, r: Option<(usize, usize, usize)>) -> bool {
    match r {
        None => forall|p: int, s: int, e: int| !#[trigger] occurs(patterns, haystack, p, s, e),
        Some((p, s, e)) => {
            &&& occurs(patterns, haystack, p as int, s as int, e as int)
            &&& forall|p2: int, s2: int, e2: int| #[trigger]
                occurs(patterns, haystack, p2, s2, e2) ==> s <= s2 && (s2 == s ==> e2 <= e)
        },
    }
}


/// What tells keyword spellings apart: the length and the first, second and
/// last bytes, folded to lower case.
pub open spec fn spelling_fingerprint(b: Seq<u8>) -> (int, u8, u8, u8) {
    (b.len() as int, ascii_lower(b[0]), ascii_lower(b[1]), ascii_lower(b[b.len() - 1]))
}

/// The keyword whose spelling has the fingerprint `f`, if any.
spec fn keyword_with_fingerprint(f: (int, u8, u8, u8)) -> Option<Keyword> {
    if f == (6int, 115u8, 101u8, 116u8) {
        Some(Keyword::Select)
    } else if f == (4int, 102u8, 114u8, 109u8) {
        Some(Keyword::From)
    } else if f == (5int, 119u8, 104u8, 101u8) {
        Some(Keyword::Where)
    } else if f == (6int, 105u8, 110u8, 116u8) {
        Some(Keyword::Insert)
    } else if f == (4int, 105u8, 110u8, 111u8) {
        Some(Keyword::Into)
    } else if f == (6int, 118u8, 97u8, 115u8) {
        Some(Keyword::Values)
    } else if f == (6int, 117u8, 112u8, 101u8) {
        Some(Keyword::Update)
    } else if f == (3int, 115u8, 101u8, 116u8) {
        Some(Keyword::SetKw)
    } else if f == (6int, 100u8, 101u8, 101u8) {
        Some(Keyword::Delete)
    } else if f == (6int, 99u8, 114u8, 101u8) {
        Some(Keyword::Create)
    } else if f == (5int, 116u8, 97u8, 101u8) {
        Some(Keyword::Table)
    } else if f == (4int, 100u8, 114u8, 112u8) {
        Some(Keyword::Drop)
    } else if f == (5int, 97u8, 108u8, 114u8) {
        Some(Keyword::Alter)
    } else if f == (3int, 97u8, 100u8, 100u8) {
        Some(Keyword::Add)
    } else if f == (4int, 106u8, 111u8, 110u8) {
        Some(Keyword::Join)
    } else if f == (2int, 111u8, 110u8, 110u8) {
        Some(Keyword::On)
    } else if f == (2int, 97u8, 115u8, 115u8) {
        Some(Keyword::As)
    } else if f == (3int, 97u8, 110u8, 100u8) {
        Some(Keyword::And)
    } else if f == (3int, 97u8, 115u8, 99u8) {
        Some(Keyword::Asc)
    } else if f == (4int, 100u8, 101u8, 99u8) {
        Some(Keyword::Desc)
    } else if f == (2int, 111u8, 114u8, 114u8) {
        Some(Keyword::Or)
    } else if f == (3int, 110u8, 111u8, 116u8) {
        Some(Keyword::Not)
    } else if f == (4int, 110u8, 117u8, 108u8) {
        Some(Keyword::Null)
    } else if f == (2int, 105u8, 115u8, 115u8) {
        Some(Keyword::Is)
    } else if f == (2int, 105u8, 110u8, 110u8) {
        Some(Keyword::In)
    } else if f == (4int, 108u8, 105u8, 101u8) {
        Some(Keyword::Like)
    } else if f == (5int, 111u8, 114u8, 114u8) {
        Some(Keyword::Order)
    } else if f == (2int, 98u8, 121u8, 121u8) {
        Some(Keyword::By)
    } else if f == (5int, 103u8, 114u8, 112u8) {
        Some(Keyword::Group)
    } else if f == (6int, 104u8, 97u8, 103u8) {
        Some(Keyword::Having)
    } else if f == (5int, 108u8, 105u8, 116u8) {
        Some(Keyword::Limit)
    } else if f == (4int, 108u8, 101u8, 116u8) {
        Some(Keyword::Left)
    } else if f == (5int, 114u8, 105u8, 116u8) {
        Some(Keyword::Right)
    } else if f == (5int, 105u8, 110u8, 114u8) {
        Some(Keyword::Inner)
    } else if f == (6int, 111u8, 102u8, 116u8) {
        Some(Keyword::Offset)
    } else if f == (8int, 100u8, 105u8, 116u8) {
        Some(Keyword::Distinct)
    } else if f == (5int, 117u8, 110u8, 110u8) {
        Some(Keyword::Union)
    } else if f == (3int, 97u8, 108u8, 108u8) {
        Some(Keyword::All)
    } else if f == (6int, 101u8, 120u8, 115u8) {
        Some(Keyword::Exists)
    } else if f == (7int, 98u8, 101u8, 110u8) {
        Some(Keyword::Between)
    } else if f == (4int, 99u8, 97u8, 101u8) {
        Some(Keyword::Case)
    } else if f == (4int, 119u8, 104u8, 110u8) {
        Some(Keyword::When)
    } else if f == (4int, 116u8, 104u8, 110u8) {
        Some(Keyword::Then)
    } else if f == (4int, 101u8, 108u8, 101u8) {
        Some(Keyword::Else)
    } else if f == (3int, 101u8, 110u8, 100u8) {
        Some(Keyword::End)
    } else if f == (4int, 102u8, 117u8, 108u8) {
        Some(Keyword::Full)
    } else if f == (5int, 111u8, 117u8, 114u8) {
        Some(Keyword::Outer)
    } else if f == (5int, 99u8, 114u8, 115u8) {
        Some(Keyword::Cross)
    } else if f == (9int, 105u8, 110u8, 116u8) {
        Some(Keyword::Intersect)
    } else if f == (6int, 101u8, 120u8, 116u8) {
        Some(Keyword::Except)
    } else if f == (4int, 116u8, 114u8, 101u8) {
        Some(Keyword::True)
    } else if f == (5int, 102u8, 97u8, 101u8) {
        Some(Keyword::False)
    } else if f == (5int, 102u8, 105u8, 116u8) {
        Some(Keyword::First)
    } else if f == (4int, 108u8, 97u8, 116u8) {
        Some(Keyword::Last)
    } else if f == (5int, 110u8, 117u8, 115u8) {
        Some(Keyword::Nulls)
    } else if f == (4int, 119u8, 105u8, 104u8) {
        Some(Keyword::With)
    } else if f == (9int, 114u8, 101u8, 101u8) {
        Some(Keyword::Recursive)
    } else if f == (4int, 111u8, 118u8, 114u8) {
        Some(Keyword::Over)
    } else if f == (9int, 112u8, 97u8, 110u8) {
        Some(Keyword::Partition)
    } else if f == (2int, 105u8, 102u8, 102u8) {
        Some(Keyword::If)
    } else if f == (7int, 100u8, 101u8, 116u8) {
        Some(Keyword::Default)
    } else if f == (7int, 112u8, 114u8, 121u8) {
        Some(Keyword::Primary)
    } else if f == (3int, 107u8, 101u8, 121u8) {
        Some(Keyword::Key)
    } else if f == (6int, 117u8, 110u8, 101u8) {
        Some(Keyword::Unique)
    } else if f == (7int, 99u8, 97u8, 101u8) {
        Some(Keyword::Cascade)
    } else if f == (8int, 114u8, 101u8, 116u8) {
        Some(Keyword::Restrict)
    } else if f == (6int, 99u8, 111u8, 110u8) {
        Some(Keyword::Column)
    } else if f == (6int, 114u8, 101u8, 101u8) {
        Some(Keyword::Rename)
    } else if f == (2int, 116u8, 111u8, 111u8) {
        Some(Keyword::To)
    } else if f == (7int, 110u8, 97u8, 108u8) {
        Some(Keyword::Natural)
    } else if f == (5int, 117u8, 115u8, 103u8) {
        Some(Keyword::Using)
    } else {
        None
    }
}

/// Each keyword is found again from the fingerprint of its spelling.
proof fn lemma_fingerprint(k: Keyword)
    ensures
        2 <= encode_utf8(k.spec_name()).len() <= 9,
        keyword_with_fingerprint(spelling_fingerprint(encode_utf8(k.spec_name()))) == Some(k),
{
    match k {
        Keyword::Select => {
            reveal_strlit("Select");
            is_ascii_chars_encode_utf8("Select"@);
        },
        Keyword::From => {
            reveal_strlit("From");
            is_ascii_chars_encode_utf8("From"@);
        },
        Keyword::Where => {
            reveal_strlit("Where");
            is_ascii_chars_encode_utf8("Where"@);
        },
        Keyword::Insert => {
            reveal_strlit("Insert");
            is_ascii_chars_encode_utf8("Insert"@);
        },
        Keyword::Into => {
            reveal_strlit("Into");
            is_ascii_chars_encode_utf8("Into"@);
        },
        Keyword::Values => {
            reveal_strlit("Values");
            is_ascii_chars_encode_utf8("Values"@);
        },
        Keyword::Update => {
            reveal_strlit("Update");
            is_ascii_chars_encode_utf8("Update"@);
        },
        Keyword::SetKw => {
            reveal_strlit("Set");
            is_ascii_chars_encode_utf8("Set"@);
        },
        Keyword::Delete => {
            reveal_strlit("Delete");
            is_ascii_chars_encode_utf8("Delete"@);
        },
        Keyword::Create => {
            reveal_strlit("Create");
            is_ascii_chars_encode_utf8("Create"@);
        },
        Keyword::Table => {
            reveal_strlit("Table");
            is_ascii_chars_encode_utf8("Table"@);
        },
        Keyword::Drop => {
            reveal_strlit("Drop");
            is_ascii_chars_encode_utf8("Drop"@);
        },
        Keyword::Alter => {
            reveal_strlit("Alter");
            is_ascii_chars_encode_utf8("Alter"@);
        },
        Keyword::Add => {
            reveal_strlit("Add");
            is_ascii_chars_encode_utf8("Add"@);
        },
        Keyword::Join => {
            reveal_strlit("Join");
            is_ascii_chars_encode_utf8("Join"@);
        },
        Keyword::On => {
            reveal_strlit("On");
            is_ascii_chars_encode_utf8("On"@);
        },
        Keyword::As => {
            reveal_strlit("As");
            is_ascii_chars_encode_utf8("As"@);
        },
        Keyword::And => {
            reveal_strlit("And");
            is_ascii_chars_encode_utf8("And"@);
        },
        Keyword::Asc => {
            reveal_strlit("Asc");
            is_ascii_chars_encode_utf8("Asc"@);
        },
        Keyword::Desc => {
            reveal_strlit("Desc");
            is_ascii_chars_encode_utf8("Desc"@);
        },
        Keyword::Or => {
            reveal_strlit("Or");
            is_ascii_chars_encode_utf8("Or"@);
        },
        Keyword::Not => {
            reveal_strlit("Not");
            is_ascii_chars_encode_utf8("Not"@);
        },
        Keyword::Null => {
            reveal_strlit("Null");
            is_ascii_chars_encode_utf8("Null"@);
        },
        Keyword::Is => {
            reveal_strlit("Is");
            is_ascii_chars_encode_utf8("Is"@);
        },
        Keyword::In => {
            reveal_strlit("In");
            is_ascii_chars_encode_utf8("In"@);
        },
        Keyword::Like => {
            reveal_strlit("Like");
            is_ascii_chars_encode_utf8("Like"@);
        },
        Keyword::Order => {
            reveal_strlit("Order");
            is_ascii_chars_encode_utf8("Order"@);
        },
        Keyword::By => {
            reveal_strlit("By");
            is_ascii_chars_encode_utf8("By"@);
        },
        Keyword::Group => {
            reveal_strlit("Group");
            is_ascii_chars_encode_utf8("Group"@);
        },
        Keyword::Having => {
            reveal_strlit("Having");
            is_ascii_chars_encode_utf8("Having"@);
        },
        Keyword::Limit => {
            reveal_strlit("Limit");
            is_ascii_chars_encode_utf8("Limit"@);
        },
        Keyword::Left => {
            reveal_strlit("Left");
            is_ascii_chars_encode_utf8("Left"@);
        },
        Keyword::Right => {
            reveal_strlit("Right");
            is_ascii_chars_encode_utf8("Right"@);
        },
        Keyword::Inner => {
            reveal_strlit("Inner");
            is_ascii_chars_encode_utf8("Inner"@);
        },
        Keyword::Offset => {
            reveal_strlit("Offset");
            is_ascii_chars_encode_utf8("Offset"@);
        },
        Keyword::Distinct => {
            reveal_strlit("Distinct");
            is_ascii_chars_encode_utf8("Distinct"@);
        },
        Keyword::Union => {
            reveal_strlit("Union");
            is_ascii_chars_encode_utf8("Union"@);
        },
        Keyword::All => {
            reveal_strlit("All");
            is_ascii_chars_encode_utf8("All"@);
        },
        Keyword::Exists => {
            reveal_strlit("Exists");
            is_ascii_chars_encode_utf8("Exists"@);
        },
        Keyword::Between => {
            reveal_strlit("Between");
            is_ascii_chars_encode_utf8("Between"@);
        },
        Keyword::Case => {
            reveal_strlit("Case");
            is_ascii_chars_encode_utf8("Case"@);
        },
        Keyword::When => {
            reveal_strlit("When");
            is_ascii_chars_encode_utf8("When"@);
        },
        Keyword::Then => {
            reveal_strlit("Then");
            is_ascii_chars_encode_utf8("Then"@);
        },
        Keyword::Else => {
            reveal_strlit("Else");
            is_ascii_chars_encode_utf8("Else"@);
        },
        Keyword::End => {
            reveal_strlit("End");
            is_ascii_chars_encode_utf8("End"@);
        },
        Keyword::Full => {
            reveal_strlit("Full");
            is_ascii_chars_encode_utf8("Full"@);
        },
        Keyword::Outer => {
            reveal_strlit("Outer");
            is_ascii_chars_encode_utf8("Outer"@);
        },
        Keyword::Cross => {
            reveal_strlit("Cross");
            is_ascii_chars_encode_utf8("Cross"@);
        },
        Keyword::Intersect => {
            reveal_strlit("Intersect");
            is_ascii_chars_encode_utf8("Intersect"@);
        },
        Keyword::Except => {
            reveal_strlit("Except");
            is_ascii_chars_encode_utf8("Except"@);
        },
        Keyword::True => {
            reveal_strlit("True");
            is_ascii_chars_encode_utf8("True"@);
        },
        Keyword::False => {
            reveal_strlit("False");
            is_ascii_chars_encode_utf8("False"@);
        },
        Keyword::First => {
            reveal_strlit("First");
            is_ascii_chars_encode_utf8("First"@);
        },
        Keyword::Last => {
            reveal_strlit("Last");
            is_ascii_chars_encode_utf8("Last"@);
        },
        Keyword::Nulls => {
            reveal_strlit("Nulls");
            is_ascii_chars_encode_utf8("Nulls"@);
        },
        Keyword::With => {
            reveal_strlit("With");
            is_ascii_chars_encode_utf8("With"@);
        },
        Keyword::Recursive => {
            reveal_strlit("Recursive");
            is_ascii_chars_encode_utf8("Recursive"@);
        },
        Keyword::Over => {
            reveal_strlit("Over");
            is_ascii_chars_encode_utf8("Over"@);
        },
        Keyword::Partition => {
            reveal_strlit("Partition");
            is_ascii_chars_encode_utf8("Partition"@);
        },
        Keyword::If => {
            reveal_strlit("If");
            is_ascii_chars_encode_utf8("If"@);
        },
        Keyword::Default => {
            reveal_strlit("Default");
            is_ascii_chars_encode_utf8("Default"@);
        },
        Keyword::Primary => {
            reveal_strlit("Primary");
            is_ascii_chars_encode_utf8("Primary"@);
        },
        Keyword::Key => {
            reveal_strlit("Key");
            is_ascii_chars_encode_utf8("Key"@);
        },
        Keyword::Unique => {
            reveal_strlit("Unique");
            is_ascii_chars_encode_utf8("Unique"@);
        },
        Keyword::Cascade => {
            reveal_strlit("Cascade");
            is_ascii_chars_encode_utf8("Cascade"@);
        },
        Keyword::Restrict => {
            reveal_strlit("Restrict");
            is_ascii_chars_encode_utf8("Restrict"@);
        },
        Keyword::Column => {
            reveal_strlit("Column");
            is_ascii_chars_encode_utf8("Column"@);
        },
        Keyword::Rename => {
            reveal_strlit("Rename");
            is_ascii_chars_encode_utf8("Rename"@);
        },
        Keyword::To => {
            reveal_strlit("To");
            is_ascii_chars_encode_utf8("To"@);
        },
        Keyword::Natural => {
            reveal_strlit("Natural");
            is_ascii_chars_encode_utf8("Natural"@);
        },
        Keyword::Using => {
            reveal_strlit("Using");
            is_ascii_chars_encode_utf8("Using"@);
        },
    }
}

/// No two keywords are spelled alike, even without regard to ASCII case.
pub proof fn law_keyword_spellings_distinct(k1: Keyword, k2: Keyword)
    requires
        ascii_ci_eq(encode_utf8(k1.spec_name()), encode_utf8(k2.spec_name())),
    ensures
        k1 == k2,
{
    let a = encode_utf8(k1.spec_name());
    let b = encode_utf8(k2.spec_name());
    lemma_fingerprint(k1);
    lemma_fingerprint(k2);
    assert(ascii_lower(a[0]) == ascii_lower(b[0]));
    assert(ascii_lower(a[1]) == ascii_lower(b[1]));
    assert(ascii_lower(a[a.len() - 1]) == ascii_lower(b[b.len() - 1]));
    assert(spelling_fingerprint(a) == spelling_fingerprint(b));
}

#[verifier::external_type_specification]
#[verifier::external_body]
pub struct ExAhoCorasick(AhoCorasick);

#[verifier::external_type_specification]
#[verifier::external_body]
pub struct ExBuildError(BuildError);

/// The patterns that an automaton searches for, as bytes, in the order in
/// which they were given to the builder.
pub uninterp spec fn automaton_patterns(ac: AhoCorasick) -> Seq<Seq<u8>>;

/// Whether an automaton was built to fold ASCII case and to report
/// leftmost-longest matches.
pub uninterp spec fn automaton_is_ascii_ci_leftmost_longest(ac: AhoCorasick) -> bool;

/// `AhoCorasickBuilder::new()`, configured with `ascii_case_insensitive(true)`
/// and `match_kind(MatchKind::LeftmostLongest)`, then `build(patterns)`.
/// Claimed: an automaton that it returns searches for the bytes of
/// `patterns`, in order, with that configuration; and the build succeeds for
/// at most 100 patterns of at most 100 bytes each. The crate's build fails
/// only when a pattern, state, transition or match index of its
/// non-contiguous NFA would pass its index limit (`i32::MAX - 1` on 32- and
/// 64-bit targets), or a pattern is longer than that; the faster automaton
/// kinds are only tried on top of that NFA and fall back to it.
#[verifier::external_body]
fn build_ascii_ci_leftmost_longest(patterns: Vec<String>) -> (r: Result<AhoCorasick, BuildError>)
    ensures
        patterns@.len() <= 100 && (forall|i: int|
            0 <= i < patterns@.len() ==> #[trigger] encode_utf8(patterns@[i]@).len() <= 100) ==> r is Ok,
        r matches Ok(ac) ==> {
            &&& automaton_patterns(ac) == patterns@.map_values(|p: String| encode_utf8(p@))
            &&& automaton_is_ascii_ci_leftmost_longest(ac)
        },
{
    AhoCorasickBuilder::new()
        .ascii_case_insensitive(true)
        .match_kind(MatchKind::LeftmostLongest)
        .build(patterns)
}

/// `AhoCorasick::find` on a string, with the match given as
/// `(pattern index, start byte, end byte)`. Claimed, for an automaton built
/// by [`build_ascii_ci_leftmost_longest`]: the result is a leftmost-longest
/// match of the patterns in the bytes of `haystack`, up to ASCII case (see
/// [`leftmost_longest`]). Which pattern is reported when two patterns match
/// the same bytes is not stated. The search is unanchored, which the
/// automaton supports, so `find` does not panic.
#[verifier::external_body]
fn automaton_find(ac: &AhoCorasick, haystack: &str) -> (r: Option<(usize, usize, usize)>)
    ensures
        automaton_is_ascii_ci_leftmost_longest(*ac) ==> leftmost_longest(
            automaton_patterns(*ac),
            haystack.spec_bytes(),
            r,
        ),
{
    match ac.find(haystack) {
        Some(m) => Some((m.pattern().as_usize(), m.start(), m.end())),
        None => None,
    }
}

/// The error of [`KeywordMap::new`]: the automaton could not be built.
#[derive(Debug, PartialEq, Eq)]
pub enum KeywordMapError {
    Build,
}

/// Recognises keywords in source text, without regard to ASCII case.
#[derive(Debug)]
pub struct KeywordMap {
    inner: AhoCorasick,
}

impl KeywordMap {
    #[verifier::type_invariant]
    closed spec fn searches_keywords(self) -> bool {
        &&& automaton_patterns(self.inner) == keyword_patterns()
        &&& automaton_is_ascii_ci_leftmost_longest(self.inner)
    }

    /// Builds the keyword recogniser; this succeeds.
    pub fn new() -> (r: Result<Self, KeywordMapError>)
        ensures
            r is Ok,
    {
        let mut patterns: Vec<String> = Vec::new();
        let mut i: usize = 0;
        while i < KEYWORD_COUNT
            invariant
                i <= KEYWORD_COUNT,
                patterns@.map_values(|p: String| encode_utf8(p@)) =~= keyword_patterns().take(i as int),
            decreases KEYWORD_COUNT - i,
        {
            proof {
                lemma_keyword_at_in_range(i as int);
            }
            let kw = match Keyword::variant_at(i) {
                Some(kw) => kw,
                None => {
                    return Err(KeywordMapError::Build);
                },
            };
            let ghost before = patterns@;
            patterns.push(kw.as_str().to_owned());
            assert(patterns@.map_values(|p: String| encode_utf8(p@)) =~= before.map_values(
                |p: String| encode_utf8(p@),
            ).push(encode_utf8(kw.spec_name())));
            assert(keyword_patterns().take(i + 1) =~= keyword_patterns().take(i as int).push(
                keyword_patterns()[i as int],
            ));
            i += 1;
        }
        assert(keyword_patterns().take(KEYWORD_COUNT as int) =~= keyword_patterns());
        assert forall|j: int| 0 <= j < patterns@.len() implies #[trigger] encode_utf8(patterns@[j]@).len() <= 100 by {
            assert(encode_utf8(patterns@[j]@) == keyword_patterns()[j]);
            lemma_fingerprint(keyword_at(j).unwrap());
        }
        match build_ascii_ci_leftmost_longest(patterns) {
            Ok(inner) => Ok(KeywordMap { inner }),
            Err(_) => Err(KeywordMapError::Build),
        }
    }

    /// The keyword that `source` spells, without regard to ASCII case.
    pub fn match_keyword(&self, source: &str) -> (r: Option<Keyword>)
        ensures
            forall|k: Keyword|
                (r == Some(k)) == ascii_ci_eq(source.spec_bytes(), #[trigger] encode_utf8(k.spec_name())),
    {
        proof {
            use_type_invariant(self);
        }
        let ghost h = source.spec_bytes();
        let ghost pats = keyword_patterns();
        let found = automaton_find(&self.inner, source);
        match found {
            None => {
                assert forall|k: Keyword| !ascii_ci_eq(h, #[trigger] encode_utf8(k.spec_name())) by {
                    lemma_keyword_index(k);
                    if ascii_ci_eq(h, encode_utf8(k.spec_name())) {
                        assert(h.subrange(0, h.len() as int) =~= h);
                        assert(occurs(pats, h, k.spec_index(), 0, h.len() as int));
                    }
                }
                None
            },
            Some((p, s, e)) => {
                let kw = match Keyword::variant_at(p) {
                    Some(kw) => kw,
                    None => {
                        return None;
                    },
                };
                assert(pats[p as int] == encode_utf8(kw.spec_name()));
                let name = kw.as_str();
                if name.as_bytes().len() == source.as_bytes().len() {
                    assert(h.subrange(s as int, e as int) =~= h);
                    assert forall|k: Keyword| ascii_ci_eq(h, #[trigger] encode_utf8(k.spec_name())) implies k == kw by {
                        let a = encode_utf8(k.spec_name());
                        let b = encode_utf8(kw.spec_name());
                        assert forall|i: int| 0 <= i < a.len() implies #[trigger] ascii_lower(a[i]) == ascii_lower(b[i]) by {
                            assert(ascii_lower(h[i]) == ascii_lower(a[i]));
                            assert(ascii_lower(h[i]) == ascii_lower(b[i]));
                        }
                        law_keyword_spellings_distinct(k, kw);
                    }
                    Some(kw)
                } else {
                    assert forall|k: Keyword| !ascii_ci_eq(h, #[trigger] encode_utf8(k.spec_name())) by {
                        lemma_keyword_index(k);
                        if ascii_ci_eq(h, encode_utf8(k.spec_name())) {
                            assert(h.subrange(0, h.len() as int) =~= h);
                            assert(occurs(pats, h, k.spec_index(), 0, h.len() as int));
                        }
                    }
                    None
                }
            },
        }
    }
}

} // verus!
