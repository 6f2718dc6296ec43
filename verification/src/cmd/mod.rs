//! Commands that the input box offers, and how typed text selects them.
use vstd::prelude::*;

use crate::textbuffer::chars::{is_whitespace, spec_is_whitespace};

pub mod keybindings;
pub mod keyimpl;
pub mod translation;

verus! {

#[derive(Clone, Copy, PartialEq, Eq, Structural, Debug)]
pub enum CommandTag {
    Goto,
    GotoInFile,
    Find,
    OpenFile,
    SaveFile,
}

/// The commands in the order the command table lists them.
pub open spec fn command_order() -> Seq<CommandTag> {
    seq![
        CommandTag::Goto,
        CommandTag::GotoInFile,
        CommandTag::Find,
        CommandTag::OpenFile,
        CommandTag::SaveFile,
    ]
}

/// The name under which the command table lists a command.
pub open spec fn table_name(tag: CommandTag) -> Seq<char> {
    match tag {
        CommandTag::Goto => "GOTO"@,
        CommandTag::GotoInFile => "GOTOINFILE"@,
        CommandTag::Find => "FIND"@,
        CommandTag::OpenFile => "OPENFILE"@,
        CommandTag::SaveFile => "SAVEFILE"@,
    }
}

pub open spec fn spec_description(tag: CommandTag) -> Seq<char> {
    match tag {
        CommandTag::Goto => "Insert line to go to:"@,
        CommandTag::Find => "Input what to search for:"@,
        CommandTag::GotoInFile => "Insert file:line to go to:"@,
        CommandTag::OpenFile => "Open file:"@,
        CommandTag::SaveFile => "Save file:"@,
    }
}

pub open spec fn spec_name(tag: CommandTag) -> Seq<char> {
    match tag {
        CommandTag::Goto => "Go to"@,
        CommandTag::GotoInFile => "Go to in file"@,
        CommandTag::Find => "Find"@,
        CommandTag::OpenFile => "Open file"@,
        CommandTag::SaveFile => "Save file"@,
    }
}

impl CommandTag {
    /// The prompt shown while the command's parameter is typed in.
    pub fn description(tag: CommandTag) -> (r: &'static str)
        ensures
            r@ == spec_description(tag),
    {
        match tag {
            CommandTag::Goto => "Insert line to go to:",
            CommandTag::Find => "Input what to search for:",
            CommandTag::GotoInFile => "Insert file:line to go to:",
            CommandTag::OpenFile => "Open file:",
            CommandTag::SaveFile => "Save file:",
        }
    }

    /// The name shown in the list of commands.
    pub fn name(tag: CommandTag) -> (r: &'static str)
        ensures
            r@ == spec_name(tag),
    {
        match tag {
            CommandTag::Goto => "Go to",
            CommandTag::GotoInFile => "Go to in file",
            CommandTag::Find => "Find",
            CommandTag::OpenFile => "Open file",
            CommandTag::SaveFile => "Save file",
        }
    }
}

/// The name under which the command table lists `tag`.
pub fn command_table_name(tag: CommandTag) -> (r: &'static str)
    ensures
        r@ == table_name(tag),
{
    match tag {
        CommandTag::Goto => "GOTO",
        CommandTag::GotoInFile => "GOTOINFILE",
        CommandTag::Find => "FIND",
        CommandTag::OpenFile => "OPENFILE",
        CommandTag::SaveFile => "SAVEFILE",
    }
}

/// The commands, in table order.
pub fn command_list() -> (r: Vec<CommandTag>)
    ensures
        r@ == command_order(),
{
    let v = vec![
        CommandTag::Goto,
        CommandTag::GotoInFile,
        CommandTag::Find,
        CommandTag::OpenFile,
        CommandTag::SaveFile,
    ];
    proof {
        assert(v@ =~= command_order());
    }
    v
}

/// The characters of `s` that are not whitespace, in order.
pub open spec fn without_whitespace(s: Seq<char>) -> Seq<char> {
    s.filter(|c: char| !spec_is_whitespace(c))
}

/// The index of the first `c` in `name` at or after `from`.
pub open spec fn find_from(name: Seq<char>, c: char, from: int) -> Option<int>
    decreases name.len() - from,
{
    if from < 0 || from >= name.len() {
        None
    } else if name[from] == c {
        Some(from)
    } else {
        find_from(name, c, from + 1)
    }
}

proof fn lemma_find_from_bounds(name: Seq<char>, c: char, from: int)
    ensures
        find_from(name, c, from) matches Some(a) ==> from <= a < name.len() && name[a] == c,
    decreases name.len() - from,
{
    if 0 <= from < name.len() && name[from] != c {
        lemma_find_from_bounds(name, c, from + 1);
    }
}

/// Looks each character up in what is left of `name` after the position
/// found for the one before it. That position is the offset from where the
/// previous search began, not an index into `name`, as the search does it.
pub open spec fn ranked_walk(name: Seq<char>, chars: Seq<char>, pos: int) -> bool
    decreases chars.len(),
{
    if chars.len() == 0 {
        true
    } else {
        match find_from(name, chars[0], pos) {
            Some(found) => ranked_walk(name, chars.drop_first(), found - pos),
            None => false,
        }
    }
}

/// Whether typed characters select the command with this table name.
pub open spec fn name_matches(name: Seq<char>, typed: Seq<char>) -> bool {
    typed.len() > 0 && ranked_walk(name, typed, 0)
}

/// Whether input of `input_len` bytes, which reads `upper` in upper case,
/// selects the command.
pub open spec fn command_selected(tag: CommandTag, input_len: nat, upper: Seq<char>) -> bool {
    input_len <= table_name(tag).len() && name_matches(
        table_name(tag),
        without_whitespace(upper),
    )
}

/// The commands that such input selects, in table order.
pub open spec fn selected_commands(input_len: nat, upper: Seq<char>) -> Seq<CommandTag> {
    command_order().filter(|t: CommandTag| command_selected(t, input_len, upper))
}

/// `None` when no command is selected, else the selected commands.
pub open spec fn selection_result(r: Option<Vec<CommandTag>>, input_len: nat, upper: Seq<char>) -> bool {
    match r {
        None => selected_commands(input_len, upper).len() == 0,
        Some(v) => v@ == selected_commands(input_len, upper) && v@.len() > 0,
    }
}

/// What `str::to_uppercase` makes of a string: the Unicode upper case mapping
/// of each character, in order.
pub uninterp spec fn unicode_uppercase(s: Seq<char>) -> Seq<char>;

/// Calls `str::to_uppercase`. Its result depends on the string alone; the
/// Unicode case tables that decide it are not restated, only named.
#[verifier::external_body]
pub(crate) fn str_to_uppercase(s: &str) -> (r: String)
    ensures
        r@ == unicode_uppercase(s@),
{
    s.to_uppercase()
}

/// The characters of `s` that are not whitespace.
fn strip_whitespace(s: &str) -> (r: Vec<char>)
    ensures
        r@ == without_whitespace(s@),
{
    let n = s.unicode_len();
    let mut v: Vec<char> = Vec::new();
    let mut i: usize = 0;
    while i < n
        invariant
            i <= n,
            n == s@.len(),
            v@ == without_whitespace(s@.subrange(0, i as int)),
        decreases n - i,
    {
        let c = s.get_char(i);
        proof {
            reveal(Seq::filter);
            let t = s@.subrange(0, i + 1);
            assert(t.drop_last() =~= s@.subrange(0, i as int));
            assert(t.last() == c);
        }
        if !is_whitespace(c) {
            v.push(c);
        }
        i = i + 1;
    }
    proof {
        assert(s@.subrange(0, n as int) =~= s@);
    }
    v
}

/// Whether the typed characters select the command with table name `name`.
fn ranked_match(name: &str, typed: &Vec<char>) -> (r: bool)
    ensures
        r == name_matches(name@, typed@),
{
    let n = name.unicode_len();
    let mut current: usize = 0;
    let mut matched = false;
    let mut i: usize = 0;
    proof {
        assert(typed@.subrange(0, typed@.len() as int) =~= typed@);
    }
    while i < typed.len()
        invariant_except_break
            i <= typed@.len(),
            n == name@.len(),
            current <= n,
            ranked_walk(name@, typed@, 0) == ranked_walk(name@, typed@.subrange(i as int, typed@.len() as int), current as int),
            matched == (i > 0),
        ensures
            matched == name_matches(name@, typed@),
        decreases typed@.len() - i,
    {
        let c = typed[i];
        let mut j = current;
        let mut found: Option<usize> = None;
        while j < n
            invariant_except_break
                current <= j <= n,
                n == name@.len(),
                found is None,
                find_from(name@, c, current as int) == find_from(name@, c, j as int),
            ensures
                found is Some ==> found->0 < n && find_from(name@, c, current as int) == Some(found->0 as int),
                found is None ==> find_from(name@, c, current as int) is None,
            decreases n - j,
        {
            if name.get_char(j) == c {
                found = Some(j);
                break;
            }
            j = j + 1;
        }
        let ghost rest = typed@.subrange(i as int, typed@.len() as int);
        proof {
            lemma_find_from_bounds(name@, c, current as int);
            assert(rest[0] == c);
            assert(rest.drop_first() =~= typed@.subrange(i + 1, typed@.len() as int));
        }
        match found {
            Some(at) => {
                current = at - current;
                matched = true;
            },
            None => {
                matched = false;
                break;
            },
        }
        i = i + 1;
    }
    proof {
        if matched {
            assert(typed@.subrange(typed@.len() as int, typed@.len() as int).len() == 0);
        }
    }
    matched
}

/// Matches input, already in upper case, against the commands: `input_len`
/// is the byte length of the input as it was typed.
pub fn commands_matching_uppercase(input_len: usize, upper: &str) -> (r: Option<Vec<CommandTag>>)
    ensures
        selection_result(r, input_len as nat, upper@),
{
    let typed = strip_whitespace(upper);
    let tags = command_list();
    let mut result: Vec<CommandTag> = Vec::new();
    let mut k: usize = 0;
    while k < tags.len()
        invariant
            k <= tags@.len(),
            tags@ == command_order(),
            typed@ == without_whitespace(upper@),
            result@ == tags@.subrange(0, k as int).filter(
                |t: CommandTag| command_selected(t, input_len as nat, upper@),
            ),
        decreases tags@.len() - k,
    {
        let tag = tags[k];
        let name = command_table_name(tag);
        let name_len = name.unicode_len();
        if input_len <= name_len && ranked_match(name, &typed) {
            result.push(tag);
        }
        proof {
            reveal(Seq::filter);
            let t = tags@.subrange(0, k + 1);
            assert(t.drop_last() =~= tags@.subrange(0, k as int));
            assert(t.last() == tag);
        }
        k = k + 1;
    }
    proof {
        assert(tags@.subrange(0, tags@.len() as int) =~= tags@);
    }
    if result.len() == 0 {
        None
    } else {
        Some(result)
    }
}

/// Matches user input against the commands, by a rank search of its upper
/// case letters in each command's name; `None` when none matches.
pub fn commands_matching(input: &str) -> (r: Option<Vec<CommandTag>>)
    ensures
        selection_result(r, input.len() as nat, unicode_uppercase(input@)),
{
    let upper = str_to_uppercase(input);
    commands_matching_uppercase(input.len(), upper.as_str())
}

/// `c` in ASCII upper case.
pub open spec fn spec_ascii_upper(c: char) -> char {
    if 97 <= c as u32 <= 122 {
        ((c as u32) - 32) as char
    } else {
        c
    }
}

pub fn ascii_upper(c: char) -> (r: char)
    ensures
        r == spec_ascii_upper(c),
{
    let x = c as u32;
    if 97 <= x && x <= 122 {
        ((x - 32) as u8) as char
    } else {
        c
    }
}

/// The input of `get_command` as it is compared: ASCII upper case, without whitespace.
pub open spec fn command_key(input: Seq<char>) -> Seq<char> {
    without_whitespace(input.map_values(|c: char| spec_ascii_upper(c)))
}

/// Whether the characters of `v` are those of `s`.
fn chars_equal(v: &Vec<char>, s: &str) -> (r: bool)
    ensures
        r == (v@ == s@),
{
    let n = s.unicode_len();
    if v.len() != n {
        return false;
    }
    let mut i: usize = 0;
    while i < n
        invariant
            i <= n,
            n == s@.len(),
            v@.len() == n,
            forall|k: int| 0 <= k < i ==> v@[k] == s@[k],
        decreases n - i,
    {
        if v[i] != s.get_char(i) {
            return false;
        }
        i = i + 1;
    }
    proof {
        assert(v@ =~= s@);
    }
    true
}

/// The command whose table name is the input in ASCII upper case, with the
/// whitespace taken out.
pub fn get_command(input: &str) -> (r: Option<CommandTag>)
    ensures
        match r {
            Some(t) => table_name(t) == command_key(input@),
            None => forall|t: CommandTag| table_name(t) != command_key(input@),
        },
{
    let n = input.unicode_len();
    let mut key: Vec<char> = Vec::new();
    let mut i: usize = 0;
    let ghost upper = input@.map_values(|c: char| spec_ascii_upper(c));
    while i < n
        invariant
            i <= n,
            n == input@.len(),
            upper == input@.map_values(|c: char| spec_ascii_upper(c)),
            key@ == without_whitespace(upper.subrange(0, i as int)),
        decreases n - i,
    {
        let c = ascii_upper(input.get_char(i));
        proof {
            reveal(Seq::filter);
            let t = upper.subrange(0, i + 1);
            assert(t.drop_last() =~= upper.subrange(0, i as int));
            assert(t.last() == c);
        }
        if !is_whitespace(c) {
            key.push(c);
        }
        i = i + 1;
    }
    proof {
        assert(upper.subrange(0, n as int) =~= upper);
    }
    let tags = command_list();
    let mut k: usize = 0;
    while k < tags.len()
        invariant
            k <= tags@.len(),
            tags@ == command_order(),
            key@ == command_key(input@),
            forall|j: int| 0 <= j < k ==> table_name(#[trigger] tags@[j]) != key@,
        decreases tags@.len() - k,
    {
        let tag = tags[k];
        if chars_equal(&key, command_table_name(tag)) {
            return Some(tag);
        }
        k = k + 1;
    }
    proof {
        assert forall|t: CommandTag| table_name(t) != command_key(input@) by {
            match t {
                CommandTag::Goto => assert(tags@[0] == t),
                CommandTag::GotoInFile => assert(tags@[1] == t),
                CommandTag::Find => assert(tags@[2] == t),
                CommandTag::OpenFile => assert(tags@[3] == t),
                CommandTag::SaveFile => assert(tags@[4] == t),
            }
        }
    }
    None
}

} // verus!
