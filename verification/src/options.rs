//! The invocation: the mode, the two addresses and the option string.
//!
//! The option string is a list of items separated by `;`. Blank space around
//! an item does not count. The item `insecure` switches off the check of the
//! server's identity. An item with a `=` has a key, the text before its
//! first `=`, and a value, the text after it, both without the blank space
//! around them. The first item with the key `sni`, or failing that the first
//! with the key `servername`, gives the server name.

use vstd::prelude::*;
use vstd::string::StrSliceExecFns;

verus! {

/// The text that is shown for a malformed invocation.
pub const USAGE: &'static str =
    "usage: tcp2quic <mode> <local_addr> <remote_addr> <options>\n\ntcp2quic -c <local_addr> <remote_addr> <options>\ntcp2quic -s <local_addr> <remote_addr> <options>";

/// Whether `c` is blank space: a character with the Unicode property
/// `White_Space`.
pub open spec fn is_whitespace(c: char) -> bool {
    let n = c as u32;
    ||| 0x09 <= n <= 0x0D
    ||| n == 0x20
    ||| n == 0x85
    ||| n == 0xA0
    ||| n == 0x1680
    ||| 0x2000 <= n <= 0x200A
    ||| n == 0x2028
    ||| n == 0x2029
    ||| n == 0x202F
    ||| n == 0x205F
    ||| n == 0x3000
}

/// The first position in `from..to` that holds no blank space, or `to`.
pub open spec fn skip_leading(s: Seq<char>, from: int, to: int) -> int
    decreases to - from,
{
    if from < to && is_whitespace(s[from]) {
        skip_leading(s, from + 1, to)
    } else {
        from
    }
}

/// The position after the last character in `from..to` that is no blank
/// space, or `from`.
pub open spec fn skip_trailing(s: Seq<char>, from: int, to: int) -> int
    decreases to - from,
{
    if from < to && is_whitespace(s[to - 1]) {
        skip_trailing(s, from, to - 1)
    } else {
        to
    }
}

/// The part of `from..to` that is left when the blank space at both ends is
/// taken away, as the pair of its bounds.
pub open spec fn trimmed(s: Seq<char>, from: int, to: int) -> (int, int) {
    let start = skip_leading(s, from, to);
    (start, skip_trailing(s, start, to))
}

/// The first position in `from..to` that holds `c`, or `to`.
pub open spec fn find_char(s: Seq<char>, c: char, from: int, to: int) -> int
    decreases to - from,
{
    if from < to && s[from] != c {
        find_char(s, c, from + 1, to)
    } else {
        from
    }
}

/// Which part of an item is held against a name.
#[derive(Clone, Copy, Debug, PartialEq, Eq, Structural)]
pub enum Part {
    /// The whole item.
    Whole,
    /// The key of the item: the text before its first `=`.
    Key,
}

/// Whether the text in `from..to` is `name`.
pub open spec fn span_is(s: Seq<char>, from: int, to: int, name: Seq<char>) -> bool {
    to - from == name.len() && s.subrange(from, to) == name
}

/// The bounds of the key of the text in `from..to`: what stands before its
/// first `=`, without the blank space around it.
pub open spec fn key_span(s: Seq<char>, from: int, to: int) -> (int, int) {
    trimmed(s, from, find_char(s, '=', from, to))
}

/// Whether the text in `from..to` matches `name`: as a whole it is `name`,
/// or it holds a `=` and its key is `name`.
pub open spec fn span_matches(s: Seq<char>, from: int, to: int, name: Seq<char>, part: Part)
    -> bool {
    match part {
        Part::Whole => span_is(s, from, to, name),
        Part::Key => find_char(s, '=', from, to) < to && span_is(
            s,
            key_span(s, from, to).0,
            key_span(s, from, to).1,
            name,
        ),
    }
}

/// The first item of the list that matches `name`, as the bounds of its text
/// without the blank space around it. The search reads an item that started
/// at `start` and has no `;` before `pos`, and then the items after it.
pub open spec fn find_item(s: Seq<char>, name: Seq<char>, part: Part, start: int, pos: int)
    -> Option<(int, int)>
    decreases s.len() - pos,
{
    if pos < s.len() && s[pos] != ';' {
        find_item(s, name, part, start, pos + 1)
    } else {
        let (from, to) = trimmed(s, start, pos);
        if span_matches(s, from, to, name, part) {
            Some((from, to))
        } else if pos < s.len() {
            find_item(s, name, part, pos + 1, pos + 1)
        } else {
            None
        }
    }
}

/// Whether the list `s` holds the item `name`.
pub open spec fn has_option(s: Seq<char>, name: Seq<char>) -> bool {
    find_item(s, name, Part::Whole, 0, 0) is Some
}

/// The bounds of the value that the list `s` gives for the key `name`: taken
/// from the first item whose key is `name`, it is the text after the first
/// `=` of that item, without the blank space around it. There is no value if
/// no item has the key `name`, or if nothing but blank space follows the `=`
/// of the first that has it.
pub open spec fn option_span(s: Seq<char>, name: Seq<char>) -> Option<(int, int)> {
    match find_item(s, name, Part::Key, 0, 0) {
        None => None,
        Some((from, to)) => {
            let (start, end) = trimmed(s, find_char(s, '=', from, to) + 1, to);
            if start < end {
                Some((start, end))
            } else {
                None
            }
        },
    }
}

/// The value that the list `s` gives for `name`.
pub open spec fn option_value(s: Seq<char>, name: Seq<char>) -> Option<Seq<char>> {
    match option_span(s, name) {
        Some((start, end)) => Some(s.subrange(start, end)),
        None => None,
    }
}

/// The server name that the list `s` asks for: the value of `sni`, else the
/// value of `servername`, else `localhost`.
pub open spec fn hostname_of(s: Seq<char>) -> Seq<char> {
    match option_value(s, "sni"@) {
        Some(name) => name,
        None => match option_value(s, "servername"@) {
            Some(name) => name,
            None => "localhost"@,
        },
    }
}

/// Whether `c` is blank space.
pub fn is_space(c: char) -> (blank: bool)
    ensures
        blank == is_whitespace(c),
{
    let n: u32 = c as u32;
    (0x09 <= n && n <= 0x0D) || n == 0x20 || n == 0x85 || n == 0xA0 || n == 0x1680 || (0x2000 <= n
        && n <= 0x200A) || n == 0x2028 || n == 0x2029 || n == 0x202F || n == 0x205F || n == 0x3000
}

/// The characters of `s`, in their order.
pub fn chars_of(s: &str) -> (chars: Vec<char>)
    ensures
        chars@ == s@,
{
    let mut chars: Vec<char> = Vec::new();
    for c in it: s.chars()
        invariant
            it.seq() == s@,
            chars@ == it.seq().take(it.index() as int),
    {
        chars.push(c);
    }
    chars
}

fn leading(chars: &Vec<char>, from: usize, to: usize) -> (start: usize)
    requires
        from <= to <= chars.len(),
    ensures
        start == skip_leading(chars@, from as int, to as int),
        from <= start <= to,
{
    let mut i: usize = from;
    while i < to && is_space(chars[i])
        invariant
            from <= i <= to <= chars.len(),
            skip_leading(chars@, from as int, to as int) == skip_leading(
                chars@,
                i as int,
                to as int,
            ),
        decreases to - i,
    {
        i += 1;
    }
    i
}

fn trailing(chars: &Vec<char>, from: usize, to: usize) -> (end: usize)
    requires
        from <= to <= chars.len(),
    ensures
        end == skip_trailing(chars@, from as int, to as int),
        from <= end <= to,
{
    let mut j: usize = to;
    while from < j && is_space(chars[j - 1])
        invariant
            from <= j <= to <= chars.len(),
            skip_trailing(chars@, from as int, to as int) == skip_trailing(
                chars@,
                from as int,
                j as int,
            ),
        decreases j - from,
    {
        j -= 1;
    }
    j
}

fn position(chars: &Vec<char>, c: char, from: usize, to: usize) -> (at: usize)
    requires
        from <= to <= chars.len(),
    ensures
        at == find_char(chars@, c, from as int, to as int),
        from <= at <= to,
{
    let mut i: usize = from;
    while i < to && chars[i] != c
        invariant
            from <= i <= to <= chars.len(),
            find_char(chars@, c, from as int, to as int) == find_char(
                chars@,
                c,
                i as int,
                to as int,
            ),
        decreases to - i,
    {
        i += 1;
    }
    i
}

fn equals(chars: &Vec<char>, from: usize, to: usize, name: &Vec<char>) -> (same: bool)
    requires
        from <= to <= chars.len(),
    ensures
        same == span_is(chars@, from as int, to as int, name@),
{
    if name.len() != to - from {
        return false;
    }
    let mut k: usize = 0;
    while k < name.len()
        invariant
            from <= to <= chars.len(),
            name.len() == to - from,
            k <= name.len(),
            forall|j: int| 0 <= j < k ==> chars@[from + j] == name@[j],
        decreases name.len() - k,
    {
        if chars[from + k] != name[k] {
            assert(chars@.subrange(from as int, to as int)[k as int] != name@[k as int]);
            return false;
        }
        k += 1;
    }
    assert(chars@.subrange(from as int, to as int) =~= name@);
    true
}

fn matches(chars: &Vec<char>, from: usize, to: usize, name: &Vec<char>, part: Part) -> (matched:
    bool)
    requires
        from <= to <= chars.len(),
    ensures
        matched == span_matches(chars@, from as int, to as int, name@, part),
{
    match part {
        Part::Whole => equals(chars, from, to, name),
        Part::Key => {
            let eq = position(chars, '=', from, to);
            if eq >= to {
                false
            } else {
                let start = leading(chars, from, eq);
                let end = trailing(chars, start, eq);
                equals(chars, start, end, name)
            }
        },
    }
}

fn item(chars: &Vec<char>, name: &Vec<char>, part: Part) -> (found: Option<(usize, usize)>)
    ensures
        match found {
            Some((from, to)) => find_item(chars@, name@, part, 0, 0) == Some(
                (from as int, to as int),
            ) && from <= to <= chars.len() && span_matches(
                chars@,
                from as int,
                to as int,
                name@,
                part,
            ),
            None => find_item(chars@, name@, part, 0, 0) is None,
        },
{
    let mut start: usize = 0;
    let mut pos: usize = 0;
    loop
        invariant
            start <= pos <= chars.len(),
            find_item(chars@, name@, part, 0, 0) == find_item(
                chars@,
                name@,
                part,
                start as int,
                pos as int,
            ),
        decreases chars.len() - pos,
    {
        if pos < chars.len() && chars[pos] != ';' {
            pos += 1;
        } else {
            let from = leading(chars, start, pos);
            let to = trailing(chars, from, pos);
            if matches(chars, from, to, name, part) {
                return Some((from, to));
            }
            if pos >= chars.len() {
                return None;
            }
            pos += 1;
            start = pos;
        }
    }
}

fn value(chars: &Vec<char>, name: &Vec<char>) -> (found: Option<(usize, usize)>)
    ensures
        match found {
            Some((start, end)) => option_span(chars@, name@) == Some((start as int, end as int))
                && start < end <= chars.len(),
            None => option_span(chars@, name@) is None,
        },
{
    match item(chars, name, Part::Key) {
        None => None,
        Some((from, to)) => {
            let eq = position(chars, '=', from, to);
            let start = leading(chars, eq + 1, to);
            let end = trailing(chars, start, to);
            if start < end {
                Some((start, end))
            } else {
                None
            }
        },
    }
}

/// Reads the option string: the server name that it asks for, and whether
/// it switches off the check of the server's identity.
pub fn parse_config(config_str: &str) -> (parsed: (String, bool))
    ensures
        parsed.0@ == hostname_of(config_str@),
        parsed.1 == has_option(config_str@, "insecure"@),
{
    let chars = chars_of(config_str);
    let sni = chars_of("sni");
    let servername = chars_of("servername");
    let insecure = chars_of("insecure");
    let hostname = match value(&chars, &sni) {
        Some((start, end)) => config_str.substring_char(start, end).to_owned(),
        None => match value(&chars, &servername) {
            Some((start, end)) => config_str.substring_char(start, end).to_owned(),
            None => "localhost".to_owned(),
        },
    };
    (hostname, item(&chars, &insecure, Part::Whole).is_some())
}

/// The role that the process plays.
#[derive(Clone, Copy, Debug, PartialEq, Eq, Structural)]
pub enum Mode {
    /// Accept plaintext connections and forward each over the tunnel.
    Client,
    /// Accept tunneled connections and forward each to the target.
    Server,
}

/// Why an invocation is malformed.
#[derive(Clone, Copy, Debug, PartialEq, Eq, Structural)]
pub enum ArgsError {
    /// The program was not given exactly four arguments.
    WrongCount,
    /// The first argument is neither `-c` nor `-s`.
    UnknownMode,
}

/// What an invocation asks for.
#[derive(Clone, Debug, PartialEq, Eq)]
pub struct Config {
    pub mode: Mode,
    /// The address to listen on, as it was written.
    pub local: String,
    /// The address to forward to, as it was written.
    pub remote: String,
    /// The name under which the server is known.
    pub hostname: String,
    /// Whether the identity of the server goes unchecked.
    pub insecure: bool,
}

/// The mode that an argument names.
pub open spec fn mode_of(arg: Seq<char>) -> Option<Mode> {
    if arg == "-s"@ {
        Some(Mode::Server)
    } else if arg == "-c"@ {
        Some(Mode::Client)
    } else {
        None
    }
}

impl Config {
    /// Reads the arguments of the process, the program's name first. There
    /// must be five of them: the name, the mode, the local address, the
    /// remote address and the option string. The addresses are taken as
    /// they are written.
    pub fn from_args(args: Vec<String>) -> (r: Result<Config, ArgsError>)
        ensures
            match r {
                Ok(config) => args.len() == 5 && mode_of(args[1]@) == Some(config.mode)
                    && config.local@ == args[2]@ && config.remote@ == args[3]@ && config.hostname@
                    == hostname_of(args[4]@) && config.insecure == has_option(
                    args[4]@,
                    "insecure"@,
                ),
                Err(ArgsError::WrongCount) => args.len() != 5,
                Err(ArgsError::UnknownMode) => args.len() == 5 && mode_of(args[1]@) is None,
            },
    {
        if args.len() != 5 {
            return Err(ArgsError::WrongCount);
        }
        let server = "-s".to_owned();
        let client = "-c".to_owned();
        let mode = if args[1] == server {
            Mode::Server
        } else if args[1] == client {
            Mode::Client
        } else {
            return Err(ArgsError::UnknownMode);
        };
        let (hostname, insecure) = parse_config(args[4].as_str());
        Ok(Config { mode, local: args[2].clone(), remote: args[3].clone(), hostname, insecure })
    }
}

/// Whether `start..end` is one item of the list `s`: it starts at the start
/// of the list or after a `;`, it ends at the end of the list or before a
/// `;`, and it holds no `;`.
pub open spec fn is_item(s: Seq<char>, start: int, end: int) -> bool {
    &&& 0 <= start <= end <= s.len()
    &&& start == 0 || s[start - 1] == ';'
    &&& end == s.len() || s[end] == ';'
    &&& forall|i: int| start <= i < end ==> s[i] != ';'
}

/// Whether the item `start..end`, without the blank space around it, matches
/// `name`.
pub open spec fn item_matches(s: Seq<char>, start: int, end: int, name: Seq<char>, part: Part)
    -> bool {
    span_matches(s, trimmed(s, start, end).0, trimmed(s, start, end).1, name, part)
}

/// Whether `found` is the first item of the list, among those that start at
/// `from` or later, that matches `name`: its bounds without the blank space
/// around it, or nothing if no such item matches.
pub open spec fn is_first_match(
    s: Seq<char>,
    name: Seq<char>,
    part: Part,
    from: int,
    found: Option<(int, int)>,
) -> bool {
    match found {
        Some(span) => exists|start: int, end: int|
            {
                &&& #[trigger] is_item(s, start, end)
                &&& from <= start
                &&& trimmed(s, start, end) == span
                &&& item_matches(s, start, end, name, part)
                &&& forall|before: int, end2: int|
                    from <= before < start && #[trigger] is_item(s, before, end2) ==> !item_matches(
                        s,
                        before,
                        end2,
                        name,
                        part,
                    )
            },
        None => forall|start: int, end: int|
            from <= start && #[trigger] is_item(s, start, end) ==> !item_matches(
                s,
                start,
                end,
                name,
                part,
            ),
    }
}

proof fn lemma_skip_leading(s: Seq<char>, from: int, to: int)
    requires
        0 <= from <= to <= s.len(),
    ensures
        from <= skip_leading(s, from, to) <= to,
        forall|i: int| from <= i < skip_leading(s, from, to) ==> is_whitespace(s[i]),
        skip_leading(s, from, to) < to ==> !is_whitespace(s[skip_leading(s, from, to)]),
    decreases to - from,
{
    if from < to && is_whitespace(s[from]) {
        lemma_skip_leading(s, from + 1, to);
    }
}

proof fn lemma_skip_trailing(s: Seq<char>, from: int, to: int)
    requires
        0 <= from <= to <= s.len(),
    ensures
        from <= skip_trailing(s, from, to) <= to,
        forall|i: int| skip_trailing(s, from, to) <= i < to ==> is_whitespace(s[i]),
        from < skip_trailing(s, from, to) ==> !is_whitespace(s[skip_trailing(s, from, to) - 1]),
    decreases to - from,
{
    if from < to && is_whitespace(s[to - 1]) {
        lemma_skip_trailing(s, from, to - 1);
    }
}

/// Trimming. The part of `from..to` that `trimmed` keeps lies within it, has
/// nothing but blank space before and after it, and neither starts nor ends
/// with blank space.
pub proof fn lemma_trimmed(s: Seq<char>, from: int, to: int)
    requires
        0 <= from <= to <= s.len(),
    ensures
        ({
            let (start, end) = trimmed(s, from, to);
            &&& from <= start <= end <= to
            &&& forall|i: int| from <= i < start ==> is_whitespace(s[i])
            &&& forall|i: int| end <= i < to ==> is_whitespace(s[i])
            &&& start < end ==> !is_whitespace(s[start]) && !is_whitespace(s[end - 1])
        }),
{
    lemma_skip_leading(s, from, to);
    lemma_skip_trailing(s, skip_leading(s, from, to), to);
}

/// Searching. `find_char` gives the first position in `from..to` that holds
/// `c`, or `to` if none does.
pub proof fn lemma_find_char(s: Seq<char>, c: char, from: int, to: int)
    requires
        0 <= from <= to <= s.len(),
    ensures
        from <= find_char(s, c, from, to) <= to,
        forall|i: int| from <= i < find_char(s, c, from, to) ==> s[i] != c,
        find_char(s, c, from, to) < to ==> s[find_char(s, c, from, to)] == c,
    decreases to - from,
{
    if from < to && s[from] != c {
        lemma_find_char(s, c, from + 1, to);
    }
}

proof fn lemma_item_is_next(s: Seq<char>, start: int, end: int, other: int, other_end: int)
    requires
        is_item(s, start, end),
        is_item(s, other, other_end),
        start <= other,
    ensures
        (other == start && other_end == end) || end < other,
{
    if other == start {
        if other_end < end {
            assert(s[other_end] == ';');
        } else if end < other_end {
            assert(s[end] == ';');
        }
    } else {
        assert(s[other - 1] == ';');
    }
}

proof fn lemma_find_item(s: Seq<char>, name: Seq<char>, part: Part, start: int, pos: int)
    requires
        0 <= start <= pos <= s.len(),
        start == 0 || s[start - 1] == ';',
        forall|i: int| start <= i < pos ==> s[i] != ';',
    ensures
        is_first_match(s, name, part, start, find_item(s, name, part, start, pos)),
    decreases s.len() - pos,
{
    if pos < s.len() && s[pos] != ';' {
        lemma_find_item(s, name, part, start, pos + 1);
    } else {
        assert(is_item(s, start, pos));
        assert forall|other: int, other_end: int|
            start <= other && #[trigger] is_item(s, other, other_end) implies (other == start
            && other_end == pos) || pos < other by {
            lemma_item_is_next(s, start, pos, other, other_end);
        }
        if item_matches(s, start, pos, name, part) {
        } else if pos < s.len() {
            lemma_find_item(s, name, part, pos + 1, pos + 1);
            let found = find_item(s, name, part, pos + 1, pos + 1);
            assert(found == find_item(s, name, part, start, pos));
            match found {
                Some(span) => {
                    let (first, first_end) = choose|first: int, first_end: int|
                        {
                            &&& #[trigger] is_item(s, first, first_end)
                            &&& pos + 1 <= first
                            &&& trimmed(s, first, first_end) == span
                            &&& item_matches(s, first, first_end, name, part)
                            &&& forall|before: int, end2: int|
                                pos + 1 <= before < first && #[trigger] is_item(s, before, end2)
                                    ==> !item_matches(s, before, end2, name, part)
                        };
                    assert(is_item(s, first, first_end));
                    assert forall|before: int, end2: int|
                        start <= before < first && #[trigger] is_item(
                            s,
                            before,
                            end2,
                        ) implies !item_matches(s, before, end2, name, part) by {
                        lemma_item_is_next(s, start, pos, before, end2);
                    }
                },
                None => {},
            }
        } else {
        }
    }
}

/// Items. `find_item` gives the first item of the list that matches `name`:
/// some item of the list, separated from the others by `;`, matches and has
/// these bounds when the blank space around it is taken away, and no item
/// before it matches; or no item of the list matches at all.
pub proof fn lemma_first_match(s: Seq<char>, name: Seq<char>, part: Part)
    ensures
        is_first_match(s, name, part, 0, find_item(s, name, part, 0, 0)),
{
    lemma_find_item(s, name, part, 0, 0);
}

/// The list holds the option `name` exactly when one of its items, without
/// the blank space around it, is `name`.
pub proof fn lemma_has_option(s: Seq<char>, name: Seq<char>)
    ensures
        has_option(s, name) <==> exists|start: int, end: int|
            #[trigger] is_item(s, start, end) && s.subrange(
                trimmed(s, start, end).0,
                trimmed(s, start, end).1,
            ) == name,
{
    lemma_first_match(s, name, Part::Whole);
    assert forall|start: int, end: int| #[trigger] is_item(s, start, end) implies (item_matches(
        s,
        start,
        end,
        name,
        Part::Whole,
    ) <==> s.subrange(trimmed(s, start, end).0, trimmed(s, start, end).1) == name) by {
        lemma_trimmed(s, start, end);
        let (a, b) = trimmed(s, start, end);
        assert(s.subrange(a, b).len() == b - a);
    }
    if has_option(s, name) {
        let span = find_item(s, name, Part::Whole, 0, 0)->Some_0;
        let (start, end) = choose|start: int, end: int|
            {
                &&& #[trigger] is_item(s, start, end)
                &&& 0 <= start
                &&& trimmed(s, start, end) == span
                &&& item_matches(s, start, end, name, Part::Whole)
                &&& forall|before: int, end2: int|
                    0 <= before < start && #[trigger] is_item(s, before, end2) ==> !item_matches(
                        s,
                        before,
                        end2,
                        name,
                        Part::Whole,
                    )
            };
        assert(is_item(s, start, end));
    }
}

/// The value of an option lies in the first item whose key is its name: the
/// item holds a `=`, the text before the first `=` is the name once the
/// blank space around it is taken away, and the value is the text after
/// that `=`, which is not empty and neither starts nor ends with blank
/// space. An item that merely starts with the letters of the name gives no
/// value.
pub proof fn lemma_option_value(s: Seq<char>, name: Seq<char>)
    ensures
        match option_span(s, name) {
            Some((start, end)) => {
                &&& find_item(s, name, Part::Key, 0, 0) matches Some((from, to))
                &&& ({
                    let eq = find_char(s, '=', from, to);
                    let (key_start, key_end) = trimmed(s, from, eq);
                    &&& 0 <= from <= key_start <= key_end <= eq < start < end <= to <= s.len()
                    &&& s[eq] == '='
                    &&& forall|i: int| from <= i < eq ==> s[i] != '='
                    &&& s.subrange(key_start, key_end) == name
                    &&& trimmed(s, eq + 1, to) == (start, end)
                })
                &&& !is_whitespace(s[start])
                &&& !is_whitespace(s[end - 1])
                &&& option_value(s, name) == Some(s.subrange(start, end))
            },
            None => option_value(s, name) is None,
        },
{
    lemma_first_match(s, name, Part::Key);
    match find_item(s, name, Part::Key, 0, 0) {
        None => {},
        Some((from, to)) => {
            let (item_start, item_end) = choose|start: int, end: int|
                {
                    &&& #[trigger] is_item(s, start, end)
                    &&& 0 <= start
                    &&& trimmed(s, start, end) == (from, to)
                    &&& item_matches(s, start, end, name, Part::Key)
                    &&& forall|before: int, end2: int|
                        0 <= before < start && #[trigger] is_item(s, before, end2)
                            ==> !item_matches(s, before, end2, name, Part::Key)
                };
            lemma_trimmed(s, item_start, item_end);
            lemma_find_char(s, '=', from, to);
            let eq = find_char(s, '=', from, to);
            lemma_trimmed(s, from, eq);
            lemma_trimmed(s, eq + 1, to);
        },
    }
}

/// The default. A list in which no item has the key `sni` or the key
/// `servername` asks for `localhost`.
pub proof fn lemma_default_hostname(s: Seq<char>)
    requires
        forall|start: int, end: int| #[trigger]
            is_item(s, start, end) ==> !item_matches(s, start, end, "sni"@, Part::Key)
                && !item_matches(s, start, end, "servername"@, Part::Key),
    ensures
        hostname_of(s) == "localhost"@,
{
    lemma_first_match(s, "sni"@, Part::Key);
    lemma_first_match(s, "servername"@, Part::Key);
    if let Some(span) = find_item(s, "sni"@, Part::Key, 0, 0) {
        let (start, end) = choose|start: int, end: int|
            {
                &&& #[trigger] is_item(s, start, end)
                &&& 0 <= start
                &&& trimmed(s, start, end) == span
                &&& item_matches(s, start, end, "sni"@, Part::Key)
                &&& forall|before: int, end2: int|
                    0 <= before < start && #[trigger] is_item(s, before, end2) ==> !item_matches(
                        s,
                        before,
                        end2,
                        "sni"@,
                        Part::Key,
                    )
            };
        assert(is_item(s, start, end));
    }
    if let Some(span) = find_item(s, "servername"@, Part::Key, 0, 0) {
        let (start, end) = choose|start: int, end: int|
            {
                &&& #[trigger] is_item(s, start, end)
                &&& 0 <= start
                &&& trimmed(s, start, end) == span
                &&& item_matches(s, start, end, "servername"@, Part::Key)
                &&& forall|before: int, end2: int|
                    0 <= before < start && #[trigger] is_item(s, before, end2) ==> !item_matches(
                        s,
                        before,
                        end2,
                        "servername"@,
                        Part::Key,
                    )
            };
        assert(is_item(s, start, end));
    }
}

/// A name that is only the beginning of a key does not select the item: an
/// item whose key is longer than `name` does not match `name`.
pub proof fn lemma_key_is_whole(s: Seq<char>, from: int, to: int, name: Seq<char>)
    requires
        key_span(s, from, to).1 - key_span(s, from, to).0 != name.len(),
    ensures
        !span_matches(s, from, to, name, Part::Key),
{
}

} // verus!
