use vstd::prelude::*;

verus! {

/// First code recorded for `c` in `table`, looking from position `i` on.
pub open spec fn lookup_from(table: Seq<(char, Seq<char>)>, c: char, i: int) -> Option<Seq<char>>
    decreases table.len() - i,
{
    if 0 <= i < table.len() {
        if table[i].0 == c {
            Some(table[i].1)
        } else {
            lookup_from(table, c, i + 1)
        }
    } else {
        None
    }
}

/// The mapping a table of (character, code) entries describes; an earlier
/// entry for a character wins over a later one.
pub open spec fn code_map(table: Seq<(char, Seq<char>)>) -> Map<char, Seq<char>> {
    Map::new(
        |c: char| lookup_from(table, c, 0) is Some,
        |c: char| lookup_from(table, c, 0)->0,
    )
}

/// The codes of the characters of `s` that `codes` maps, in order; the
/// others are skipped.
pub open spec fn codes_for(s: Seq<char>, codes: Map<char, Seq<char>>) -> Seq<Seq<char>>
    decreases s.len(),
{
    if s.len() == 0 {
        Seq::empty()
    } else {
        let prev = codes_for(s.drop_last(), codes);
        if codes.contains_key(s.last()) {
            prev.push(codes[s.last()])
        } else {
            prev
        }
    }
}

/// The parts joined with a single space between neighbours.
pub open spec fn join_spaced(parts: Seq<Seq<char>>) -> Seq<char>
    decreases parts.len(),
{
    if parts.len() == 0 {
        Seq::empty()
    } else if parts.len() == 1 {
        parts[0]
    } else {
        join_spaced(parts.drop_last()) + seq![' '] + parts.last()
    }
}

/// The expected sequence of an already uppercased phrase.
pub open spec fn encoded(upper: Seq<char>, codes: Map<char, Seq<char>>) -> Seq<char> {
    join_spaced(codes_for(upper, codes))
}

/// What `str::to_uppercase` returns for a string.
pub uninterp spec fn upper_of(s: Seq<char>) -> Seq<char>;

/// The expected sequence of a phrase as typed: uppercased, then encoded.
pub open spec fn expected_of(phrase: Seq<char>, codes: Map<char, Seq<char>>) -> Seq<char> {
    encoded(upper_of(phrase), codes)
}

/// Relies on `str::to_uppercase`: the uppercase form of the text, which
/// depends on its characters alone.
#[verifier::external_body]
fn uppercase(s: &str) -> (r: String)
    ensures
        r@ == upper_of(s@),
{
    s.to_uppercase()
}

/// An immutable table from characters to their Morse codes, together with
/// the token that separates words.
pub struct Alphabet {
    entries: Vec<(char, String)>,
    separator: String,
}

impl Alphabet {
    /// The entries as (character, code) pairs, in the order given.
    pub closed spec fn table(&self) -> Seq<(char, Seq<char>)> {
        self.entries@.map_values(|e: (char, String)| (e.0, e.1@))
    }

    /// The code of each character the alphabet maps.
    pub open spec fn codes(&self) -> Map<char, Seq<char>> {
        code_map(self.table())
    }

    /// The token typed between words.
    pub closed spec fn separator_view(&self) -> Seq<char> {
        self.separator@
    }

    /// An alphabet from (character, code) entries and a word separator.
    /// Where a character appears twice, its first entry counts.
    pub fn from_entries(entries: Vec<(char, String)>, separator: String) -> (r: Alphabet)
        ensures
            r.table() == entries@.map_values(|e: (char, String)| (e.0, e.1@)),
            r.separator_view() == separator@,
    {
        Alphabet { entries, separator }
    }

    /// The code of `c`, if the alphabet maps it.
    pub fn get(&self, c: char) -> (r: Option<&str>)
        ensures
            r is Some <==> self.codes().contains_key(c),
            r is Some ==> r->0@ == self.codes()[c],
    {
        let mut i: usize = 0;
        while i < self.entries.len()
            invariant
                0 <= i <= self.entries@.len(),
                lookup_from(self.table(), c, 0) == lookup_from(self.table(), c, i as int),
            decreases self.entries@.len() - i,
        {
            if self.entries[i].0 == c {
                return Some(self.entries[i].1.as_str());
            }
            i = i + 1;
        }
        None
    }

    /// The word separator.
    pub fn separator(&self) -> (r: &str)
        ensures
            r@ == self.separator_view(),
    {
        self.separator.as_str()
    }
}

/// The international Morse code of the letters A to Z, with the space
/// written as `/`.
pub open spec fn morse_table() -> Seq<(char, Seq<char>)> {
    seq![
        ('A', ".-"@), ('B', "-..."@), ('C', "-.-."@), ('D', "-.."@),
        ('E', "."@), ('F', "..-."@), ('G', "--."@), ('H', "...."@),
        ('I', ".."@), ('J', ".---"@), ('K', "-.-"@), ('L', ".-.."@),
        ('M', "--"@), ('N', "-."@), ('O', "---"@), ('P', ".--."@),
        ('Q', "--.-"@), ('R', ".-."@), ('S', "..."@), ('T', "-"@),
        ('U', "..-"@), ('V', "...-"@), ('W', ".--"@), ('X', "-..-"@),
        ('Y', "-.--"@), ('Z', "--.."@), (' ', "/"@),
    ]
}

/// The standard alphabet: Morse code for A to Z, `/` for a space, and `/`
/// as the word separator.
pub fn morse_map() -> (r: Alphabet)
    ensures
        r.table() == morse_table(),
        r.separator_view() == "/"@,
{
    let mut entries: Vec<(char, String)> = Vec::new();
    entries.push(('A', String::from_str(".-")));
    entries.push(('B', String::from_str("-...")));
    entries.push(('C', String::from_str("-.-.")));
    entries.push(('D', String::from_str("-..")));
    entries.push(('E', String::from_str(".")));
    entries.push(('F', String::from_str("..-.")));
    entries.push(('G', String::from_str("--.")));
    entries.push(('H', String::from_str("....")));
    entries.push(('I', String::from_str("..")));
    entries.push(('J', String::from_str(".---")));
    entries.push(('K', String::from_str("-.-")));
    entries.push(('L', String::from_str(".-..")));
    entries.push(('M', String::from_str("--")));
    entries.push(('N', String::from_str("-.")));
    entries.push(('O', String::from_str("---")));
    entries.push(('P', String::from_str(".--.")));
    entries.push(('Q', String::from_str("--.-")));
    entries.push(('R', String::from_str(".-.")));
    entries.push(('S', String::from_str("...")));
    entries.push(('T', String::from_str("-")));
    entries.push(('U', String::from_str("..-")));
    entries.push(('V', String::from_str("...-")));
    entries.push(('W', String::from_str(".--")));
    entries.push(('X', String::from_str("-..-")));
    entries.push(('Y', String::from_str("-.--")));
    entries.push(('Z', String::from_str("--..")));
    entries.push((' ', String::from_str("/")));
    let r = Alphabet::from_entries(entries, String::from_str("/"));
    assert(r.table() =~= morse_table());
    r
}

/// The expected sequence of an already uppercased phrase: the code of each
/// character the alphabet maps, joined by single spaces; other characters
/// are dropped.
pub fn encode_upper(upper: &str, map: &Alphabet) -> (r: String)
    ensures
        r@ == encoded(upper@, map.codes()),
{
    let n = upper.unicode_len();
    let mut r = String::new();
    let mut i: usize = 0;
    let mut any = false;
    while i < n
        invariant
            n == upper@.len(),
            any == (codes_for(upper@.subrange(0, i as int), map.codes()).len() > 0),
            0 <= i <= n,
            r@ == join_spaced(codes_for(upper@.subrange(0, i as int), map.codes())),
        decreases n - i,
    {
        let c = upper.get_char(i);
        let ghost before = codes_for(upper@.subrange(0, i as int), map.codes());
        assert(upper@.subrange(0, i + 1).drop_last() =~= upper@.subrange(0, i as int));
        match map.get(c) {
            Some(code) => {
                if any {
                    proof {
                        reveal_strlit(" ");
                    }
                    r.append(" ");
                }
                r.append(code);
                any = true;
                assert(before.push(code@).drop_last() =~= before);
            },
            None => {},
        }
        i = i + 1;
    }
    assert(upper@.subrange(0, n as int) =~= upper@);
    r
}

/// The expected sequence of a phrase: the phrase is uppercased, then
/// encoded with `encode_upper`.
pub fn get_expected_morse(text: &str, map: &Alphabet) -> (r: String)
    ensures
        r@ == expected_of(text@, map.codes()),
{
    let upper = uppercase(text);
    encode_upper(upper.as_str(), map)
}

/// Removing a character the alphabet does not map leaves the codes of the
/// rest unchanged.
proof fn lemma_codes_skip(s1: Seq<char>, c: char, s2: Seq<char>, codes: Map<char, Seq<char>>)
    requires
        !codes.contains_key(c),
    ensures
        codes_for(s1 + seq![c] + s2, codes) == codes_for(s1 + s2, codes),
    decreases s2.len(),
{
    if s2.len() == 0 {
        assert((s1 + seq![c] + s2).drop_last() =~= s1);
        assert(s1 + s2 =~= s1);
    } else {
        let t = s2.drop_last();
        lemma_codes_skip(s1, c, t, codes);
        assert((s1 + seq![c] + s2).drop_last() =~= s1 + seq![c] + t);
        assert((s1 + s2).drop_last() =~= s1 + t);
    }
}

/// Encoding is deterministic: two results of `get_expected_morse` for the
/// same phrase and alphabet are the same sequence.
pub proof fn expected_is_deterministic(
    phrase: Seq<char>,
    codes: Map<char, Seq<char>>,
    first: Seq<char>,
    second: Seq<char>,
)
    requires
        first == expected_of(phrase, codes),
        second == expected_of(phrase, codes),
    ensures
        first == second,
{
}

/// Encoding ignores case: two phrases with the same uppercase form, such as
/// `hello` and `HELLO`, have the same expected sequence.
pub proof fn expected_ignores_case(p: Seq<char>, q: Seq<char>, codes: Map<char, Seq<char>>)
    requires
        upper_of(p) == upper_of(q),
    ensures
        expected_of(p, codes) == expected_of(q, codes),
{
}

/// A character the alphabet does not map is dropped: inserting it anywhere
/// into an uppercased phrase leaves the encoding unchanged.
pub proof fn encoded_drops_unmapped(
    before: Seq<char>,
    c: char,
    after: Seq<char>,
    codes: Map<char, Seq<char>>,
)
    requires
        !codes.contains_key(c),
    ensures
        encoded(before + seq![c] + after, codes) == encoded(before + after, codes),
{
    lemma_codes_skip(before, c, after, codes);
}

} // verus!
