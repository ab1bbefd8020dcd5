//! Text as sequences of characters: decimal numerals, ASCII case and substring search.
use vstd::prelude::*;
use vstd::string::StringExecFns;

verus! {

/// The decimal digit that stands for `d`.
pub open spec fn digit(d: nat) -> char {
    ('0' as nat + d) as char
}

/// The decimal numeral of `n`, without leading zeros.
pub open spec fn decimal(n: nat) -> Seq<char>
    decreases n,
{
    if n < 10 {
        seq![digit(n)]
    } else {
        decimal(n / 10).push(digit(n % 10))
    }
}

/// `c` in lower case if it is one of the letters `A` to `Z`, else `c`.
pub open spec fn ascii_lower_char(c: char) -> char {
    if 'A' <= c && c <= 'Z' {
        (c as nat + 32) as char
    } else {
        c
    }
}

/// `s` with the letters `A` to `Z` in lower case and every other character kept.
pub open spec fn ascii_lower(s: Seq<char>) -> Seq<char> {
    s.map_values(|c: char| ascii_lower_char(c))
}

/// `needle` stands in `haystack` from position `at` on.
pub open spec fn occurs_at(haystack: Seq<char>, needle: Seq<char>, at: int) -> bool {
    &&& 0 <= at
    &&& at + needle.len() <= haystack.len()
    &&& haystack.subrange(at, at + needle.len()) == needle
}

/// `needle` is a contiguous part of `haystack`.
pub open spec fn occurs_in(haystack: Seq<char>, needle: Seq<char>) -> bool {
    exists|at: int| occurs_at(haystack, needle, at)
}

fn digit_text(d: usize) -> (text: &'static str)
    requires
        d < 10,
    ensures
        text@ == seq![digit(d as nat)],
{
    proof {
        reveal_strlit("0");
        reveal_strlit("1");
        reveal_strlit("2");
        reveal_strlit("3");
        reveal_strlit("4");
        reveal_strlit("5");
        reveal_strlit("6");
        reveal_strlit("7");
        reveal_strlit("8");
        reveal_strlit("9");
    }
    match d {
        0 => "0",
        1 => "1",
        2 => "2",
        3 => "3",
        4 => "4",
        5 => "5",
        6 => "6",
        7 => "7",
        8 => "8",
        _ => "9",
    }
}

/// The decimal numeral of `n`.
pub fn decimal_text(n: usize) -> (text: String)
    ensures
        text@ == decimal(n as nat),
    decreases n,
{
    if n < 10 {
        digit_text(n).to_owned()
    } else {
        let mut text = decimal_text(n / 10);
        text.append(digit_text(n % 10));
        assert(text@ == decimal(n as nat));
        text
    }
}

fn lower_char(c: char) -> (lower: char)
    ensures
        lower == ascii_lower_char(c),
{
    if 'A' <= c && c <= 'Z' {
        let code: u8 = c as u8;
        (code + 32) as char
    } else {
        c
    }
}

/// The characters of `s` in ASCII lower case.
pub fn ascii_lower_chars(s: &str) -> (chars: Vec<char>)
    ensures
        chars@ == ascii_lower(s@),
{
    let mut chars: Vec<char> = Vec::new();
    for c in it: s.chars()
        invariant
            it.seq() == s@,
            chars@ == ascii_lower(s@.take(it.index() as int)),
    {
        chars.push(lower_char(c));
        assert(chars@ == ascii_lower(s@.take(it.index() + 1)));
    }
    assert(s@.take(s@.len() as int) == s@);
    chars
}

fn matches_at(haystack: &Vec<char>, needle: &Vec<char>, at: usize) -> (found: bool)
    requires
        at + needle@.len() <= haystack@.len(),
    ensures
        found == occurs_at(haystack@, needle@, at as int),
{
    let end: usize = haystack.len();
    let mut i: usize = 0;
    while i < needle.len()
        invariant
            i <= needle@.len(),
            end == haystack@.len(),
            at + needle@.len() <= haystack@.len(),
            forall|j: int| 0 <= j < i ==> haystack@[at + j] == #[trigger] needle@[j],
        decreases needle@.len() - i,
    {
        if haystack[at + i] != needle[i] {
            proof {
                let part = haystack@.subrange(at as int, at + needle@.len());
                assert(part[i as int] != needle@[i as int]);
            }
            return false;
        }
        i += 1;
    }
    assert(haystack@.subrange(at as int, at + needle@.len()) =~= needle@);
    true
}

/// Whether `needle` is a contiguous part of `haystack`.
pub fn contains_chars(haystack: &Vec<char>, needle: &str) -> (found: bool)
    ensures
        found == occurs_in(haystack@, needle@),
{
    let mut wanted: Vec<char> = Vec::new();
    for c in it: needle.chars()
        invariant
            it.seq() == needle@,
            wanted@ == needle@.take(it.index() as int),
    {
        wanted.push(c);
        assert(wanted@ == needle@.take(it.index() + 1));
    }
    assert(wanted@ == needle@);
    if wanted.len() > haystack.len() {
        return false;
    }
    let last: usize = haystack.len() - wanted.len();
    let mut at: usize = 0;
    loop
        invariant
            wanted@ == needle@,
            last == haystack@.len() - wanted@.len(),
            at <= last,
            forall|j: int| 0 <= j < at ==> !occurs_at(haystack@, needle@, j),
        decreases last - at,
    {
        if matches_at(haystack, &wanted, at) {
            return true;
        }
        if at == last {
            return false;
        }
        at += 1;
    }
}

/// The number that a numeral stands for: each digit counts ten times as much as the one behind
/// it.
pub open spec fn numeral_value(numeral: Seq<char>) -> int
    decreases numeral.len(),
{
    if numeral.len() == 0 {
        0
    } else {
        10 * numeral_value(numeral.drop_last()) + (numeral.last() as int - '0' as int)
    }
}

/// The numeral of a number is made of digits, stands for that number, and does not start with a
/// zero unless it is a single digit.
pub proof fn numerals_read_back(n: nat)
    ensures
        numeral_value(decimal(n)) == n,
        decimal(n).len() >= 1,
        forall|i: int| 0 <= i < decimal(n).len() ==> '0' <= #[trigger] decimal(n)[i] <= '9',
        decimal(n).len() > 1 ==> decimal(n)[0] != '0',
    decreases n,
{
    if n < 10 {
        assert(decimal(n).drop_last() =~= Seq::<char>::empty());
        assert(numeral_value(Seq::<char>::empty()) == 0);
    } else {
        numerals_read_back(n / 10);
        assert(decimal(n).drop_last() =~= decimal(n / 10));
        if decimal(n / 10).len() == 1 {
            assert(decimal(n / 10)[0] != '0') by {
                let only = decimal(n / 10);
                assert(only.drop_last() =~= Seq::<char>::empty());
                assert(numeral_value(Seq::<char>::empty()) == 0);
            }
        }
    }
}

/// Different numbers have different numerals.
pub proof fn numerals_tell_numbers_apart(m: nat, n: nat)
    ensures
        decimal(m) == decimal(n) ==> m == n,
{
    numerals_read_back(m);
    numerals_read_back(n);
}

/// Lower case changes the letters `A` to `Z`, each into the letter 32 places on, and leaves
/// every other character and the number of characters alone.
pub proof fn lower_case_changes_capitals_only(s: Seq<char>)
    ensures
        ascii_lower(s).len() == s.len(),
        forall|i: int|
            0 <= i < s.len() && 'A' <= s[i] <= 'Z' ==> #[trigger] ascii_lower(s)[i] as int
                == s[i] as int + 32,
        forall|i: int|
            0 <= i < s.len() && !('A' <= s[i] <= 'Z') ==> #[trigger] ascii_lower(s)[i] == s[i],
{
}

/// A part is found wherever it stands.
pub proof fn parts_are_found(before: Seq<char>, part: Seq<char>, behind: Seq<char>)
    ensures
        occurs_in(before + part + behind, part),
{
    let whole = before + part + behind;
    let at = before.len() as int;
    assert(whole.subrange(at, at + part.len()) =~= part);
    assert(occurs_at(whole, part, at));
}

/// What is found is a part: something, maybe empty, stands before it and behind it.
pub proof fn found_parts_are_there(haystack: Seq<char>, needle: Seq<char>)
    requires
        occurs_in(haystack, needle),
    ensures
        exists|before: Seq<char>, behind: Seq<char>|
            haystack == #[trigger] (before + needle + behind),
{
    let at = choose|at: int| occurs_at(haystack, needle, at);
    let before = haystack.take(at);
    let behind = haystack.skip(at + needle.len());
    assert(haystack =~= before + haystack.subrange(at, at + needle.len()) + behind);
    assert(haystack == before + needle + behind);
}

} // verus!
