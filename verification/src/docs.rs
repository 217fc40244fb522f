//! Reading a function's documentation: the description before the arguments
//! heading, and the documented arguments listed under it.

use vstd::prelude::*;
use vstd::string::*;
use crate::model::{entries_view, EntryModel, TextEntry};
use crate::text::{
    has_prefix, push_char, range_equals, range_starts_with, text_of, to_chars, trim, trimmed_chars,
    trimmed_text,
};

verus! {

/// What was read from a documentation block.
#[derive(Clone, Debug, PartialEq, Eq)]
pub struct DocInfo {
    pub description: String,
    /// The documented arguments, in the order of their lines.
    pub arg_docs: Vec<TextEntry>,
}

/// Whether a line is the heading that opens the arguments block.
pub open spec fn is_arguments_heading(line: Seq<char>) -> bool {
    let t = trim(line);
    t == "# Arguments"@ || t == "## Arguments"@ || t == "# Parameters"@ || t == "## Parameters"@
        || t == "# Arguments:"@ || t == "## Arguments:"@ || t == "# Parameters:"@ || t
        == "## Parameters:"@
}

/// Whether a line is a heading of any kind.
pub open spec fn is_heading(line: Seq<char>) -> bool {
    let t = trim(line);
    t.len() > 0 && t[0] == '#'
}

/// How many lines stand before the arguments heading: all of them where
/// there is none.
pub open spec fn lines_before_arguments(lines: Seq<Seq<char>>) -> nat
    decreases lines.len(),
{
    if lines.len() == 0 || is_arguments_heading(lines[0]) {
        0
    } else {
        1 + lines_before_arguments(lines.skip(1))
    }
}

/// How many lines stand before the next heading.
pub open spec fn lines_before_heading(lines: Seq<Seq<char>>) -> nat
    decreases lines.len(),
{
    if lines.len() == 0 || is_heading(lines[0]) {
        0
    } else {
        1 + lines_before_heading(lines.skip(1))
    }
}

/// The lines one after the other, each closed by a line break.
pub open spec fn join_lines(lines: Seq<Seq<char>>) -> Seq<char>
    decreases lines.len(),
{
    if lines.len() == 0 {
        Seq::empty()
    } else {
        join_lines(lines.drop_last()) + lines.last().push('\n')
    }
}

pub open spec fn is_ident_char(c: char) -> bool {
    ('a' <= c <= 'z') || ('A' <= c <= 'Z') || ('0' <= c <= '9') || c == '_'
}

/// How many identifier characters `s` starts with.
pub open spec fn ident_len(s: Seq<char>) -> nat
    decreases s.len(),
{
    if s.len() > 0 && is_ident_char(s[0]) {
        1 + ident_len(s.skip(1))
    } else {
        0
    }
}

/// The argument that a line documents: a dash or a star, the name between
/// backticks, a dash, and the text. Any other line documents nothing.
pub open spec fn parse_item(line: Seq<char>) -> Option<EntryModel> {
    let t = trim(line);
    if t.len() >= 3 && (t[0] == '-' || t[0] == '*') && t[1] == ' ' && t[2] == '`' {
        let n = ident_len(t.skip(3)) as int;
        if n > 0 && has_prefix(t.skip(3 + n), seq!['`', ' ', '-', ' ']) {
            Some(EntryModel { key: t.subrange(3, 3 + n), value: trim(t.skip(3 + n + 4)) })
        } else {
            None
        }
    } else {
        None
    }
}

/// The arguments that the lines document, in the order of the lines.
pub open spec fn items_of(lines: Seq<Seq<char>>) -> Seq<EntryModel>
    decreases lines.len(),
{
    if lines.len() == 0 {
        Seq::empty()
    } else {
        match parse_item(lines.last()) {
            Some(e) => items_of(lines.drop_last()).push(e),
            None => items_of(lines.drop_last()),
        }
    }
}

/// The description: the lines before the arguments heading, joined and
/// trimmed.
pub open spec fn description_of(lines: Seq<Seq<char>>) -> Seq<char> {
    trim(join_lines(lines.take(lines_before_arguments(lines) as int)))
}

/// The documented arguments: the items between the arguments heading and
/// the heading after it. Nothing where there is no arguments heading.
pub open spec fn argument_docs_of(lines: Seq<Seq<char>>) -> Seq<EntryModel> {
    let h = lines_before_arguments(lines) as int;
    if h >= lines.len() {
        Seq::empty()
    } else {
        let block = lines.skip(h + 1);
        items_of(block.take(lines_before_heading(block) as int))
    }
}

/// The lines as plain values.
pub open spec fn lines_view(lines: Seq<String>) -> Seq<Seq<char>> {
    lines.map_values(|l: String| l@)
}

pub fn is_ident(c: char) -> (r: bool)
    ensures
        r == is_ident_char(c),
{
    (c >= 'a' && c <= 'z') || (c >= 'A' && c <= 'Z') || (c >= '0' && c <= '9') || c == '_'
}

pub fn line_is_arguments_heading(line: &str) -> (r: bool)
    ensures
        r == is_arguments_heading(line@),
{
    let t = trimmed_chars(line);
    let n: usize = t.len();
    assert(t@.subrange(0, n as int) =~= t@);
    range_equals(&t, 0, n, "# Arguments") || range_equals(&t, 0, n, "## Arguments")
        || range_equals(&t, 0, n, "# Parameters") || range_equals(&t, 0, n, "## Parameters")
        || range_equals(&t, 0, n, "# Arguments:") || range_equals(&t, 0, n, "## Arguments:")
        || range_equals(&t, 0, n, "# Parameters:") || range_equals(&t, 0, n, "## Parameters:")
}

pub fn line_is_heading(line: &str) -> (r: bool)
    ensures
        r == is_heading(line@),
{
    let t = trimmed_chars(line);
    t.len() > 0 && t[0] == '#'
}

/// Reads the argument that one line documents, if it documents one.
pub fn read_item(line: &str) -> (r: Option<TextEntry>)
    ensures
        match (r, parse_item(line@)) {
            (Some(e), Some(m)) => e@ == m,
            (None, None) => true,
            _ => false,
        },
{
    let t = trimmed_chars(line);
    let n: usize = t.len();
    if n < 3 || !(t[0] == '-' || t[0] == '*') || t[1] != ' ' || t[2] != '`' {
        return None;
    }
    let mut k: usize = 3;
    assert(t@.skip(3).skip(0) =~= t@.skip(3));
    while k < n && is_ident(t[k])
        invariant
            3 <= k <= n,
            n == t@.len(),
            ident_len(t@.skip(3)) == (k - 3) + ident_len(t@.skip(3).skip(k - 3)),
        decreases n - k,
    {
        assert(t@.skip(3).skip(k - 3).skip(1) =~= t@.skip(3).skip(k + 1 - 3));
        k = k + 1;
    }
    assert(ident_len(t@.skip(3).skip(k - 3)) == 0);
    if k == 3 {
        return None;
    }
    proof {
        reveal_strlit("` - ");
        assert("` - "@ =~= seq!['`', ' ', '-', ' ']);
        assert(t@.subrange(k as int, n as int) =~= t@.skip(k as int));
    }
    if !range_starts_with(&t, k, n, "` - ") {
        return None;
    }
    let key = text_of(&t, 3, k);
    let value = trimmed_text(&t, k + 4, n);
    assert(t@.subrange(k + 4, n as int) =~= t@.skip(k + 4));
    Some(TextEntry { key, value })
}

/// Reads a documentation block, given line by line. Lines that fit no
/// pattern are passed over; a block without documentation gives an empty
/// description and no arguments.
pub fn extract_docs(lines: &Vec<String>) -> (r: DocInfo)
    ensures
        r.description@ == description_of(lines_view(lines@)),
        entries_view(r.arg_docs@) == argument_docs_of(lines_view(lines@)),
{
    let ghost all = lines_view(lines@);
    let total: usize = lines.len();
    let mut h: usize = 0;
    assert(all.skip(0) =~= all);
    while h < total && !line_is_arguments_heading(lines[h].as_str())
        invariant
            h <= total,
            total == lines@.len(),
            all == lines_view(lines@),
            lines_before_arguments(all) == h + lines_before_arguments(all.skip(h as int)),
        decreases total - h,
    {
        assert(all.skip(h as int).skip(1) =~= all.skip(h + 1));
        h = h + 1;
    }
    assert(lines_before_arguments(all) == h);
    let mut joined = String::new();
    let mut i: usize = 0;
    assert(all.take(0) =~= Seq::<Seq<char>>::empty());
    while i < h
        invariant
            i <= h <= total,
            total == lines@.len(),
            all == lines_view(lines@),
            joined@ == join_lines(all.take(i as int)),
        decreases h - i,
    {
        let ghost before = joined@;
        joined.append(lines[i].as_str());
        push_char(&mut joined, '\n');
        assert(all.take(i + 1).drop_last() =~= all.take(i as int));
        assert(joined@ =~= before + all[i as int].push('\n'));
        i = i + 1;
    }
    let chars = to_chars(joined.as_str());
    let len: usize = chars.len();
    assert(chars@.subrange(0, len as int) =~= chars@);
    let description = trimmed_text(&chars, 0, len);
    let mut arg_docs: Vec<TextEntry> = Vec::new();
    if h < total {
        let ghost block = all.skip(h + 1);
        let mut e: usize = h + 1;
        assert(block.skip(0) =~= block);
        assert(block.take(0) =~= Seq::<Seq<char>>::empty());
        assert(entries_view(arg_docs@) =~= Seq::<EntryModel>::empty());
        while e < total && !line_is_heading(lines[e].as_str())
            invariant
                h < e <= total,
                total == lines@.len(),
                all == lines_view(lines@),
                block == all.skip(h + 1),
                lines_before_heading(block) == (e - h - 1) + lines_before_heading(
                    block.skip(e - h - 1),
                ),
                entries_view(arg_docs@) == items_of(block.take(e - h - 1)),
            decreases total - e,
        {
            let ghost before = entries_view(arg_docs@);
            assert(block.skip(e - h - 1).skip(1) =~= block.skip(e - h));
            assert(block.take(e - h).drop_last() =~= block.take(e - h - 1));
            assert(block.take(e - h).last() == lines@[e as int]@);
            match read_item(lines[e].as_str()) {
                Some(entry) => {
                    arg_docs.push(entry);
                    assert(entries_view(arg_docs@) =~= before.push(entry@));
                },
                None => {},
            }
            e = e + 1;
        }
    } else {
        assert(entries_view(arg_docs@) =~= Seq::<EntryModel>::empty());
    }
    DocInfo { description, arg_docs }
}

/// A function without documentation has an empty description and no
/// documented arguments.
pub proof fn lemma_no_documentation()
    ensures
        description_of(Seq::empty()) == Seq::<char>::empty(),
        argument_docs_of(Seq::empty()) == Seq::<EntryModel>::empty(),
{
    let none = Seq::<Seq<char>>::empty();
    assert(none.take(0) =~= none);
    assert(join_lines(none) == Seq::<char>::empty());
    assert(trim(Seq::<char>::empty()) =~= Seq::<char>::empty());
}

/// Documentation without an arguments heading documents no argument, and
/// all of it is description.
pub proof fn lemma_no_heading_no_arguments(lines: Seq<Seq<char>>)
    requires
        forall|i: int| 0 <= i < lines.len() ==> !is_arguments_heading(#[trigger] lines[i]),
    ensures
        lines_before_arguments(lines) == lines.len(),
        argument_docs_of(lines) == Seq::<EntryModel>::empty(),
        description_of(lines) == trim(join_lines(lines)),
    decreases lines.len(),
{
    if lines.len() > 0 {
        let rest = lines.skip(1);
        assert forall|i: int| 0 <= i < rest.len() implies !is_arguments_heading(
            #[trigger] rest[i],
        ) by {
            assert(rest[i] == lines[i + 1]);
        }
        lemma_no_heading_no_arguments(rest);
    }
    assert(lines.take(lines.len() as int) =~= lines);
}

} // verus!
