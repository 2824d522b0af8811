//! The error console: turns the lines of a script build log into console items,
//! pointing at the source location a compiler message names.
use crate::text::{
    chars_of, contains, contains_seq, is_whitespace, is_ws, matches_at, owned, push_char,
    string_from_chars, trim_start_seq,
};
use vstd::prelude::*;

verus! {

/// How serious a console item is.
#[derive(Clone, Copy, PartialEq, Eq, Structural, Debug)]
pub enum ErrorLevel {
    Error,
    Warn,
}

/// One entry of the error console.
pub struct ConsoleItem {
    pub error_level: ErrorLevel,
    pub msg: String,
    /// The source file the message points at, if any.
    pub file_location: Option<String>,
    /// `row:column` inside that file, if any.
    pub line_ref: Option<String>,
    pub id: usize,
}

/// A console item as plain values: level, message, file, `row:column`, id.
pub type ItemView = (ErrorLevel, Seq<char>, Option<Seq<char>>, Option<Seq<char>>, usize);

impl View for ConsoleItem {
    type V = ItemView;

    open spec fn view(&self) -> ItemView {
        (
            self.error_level,
            self.msg@,
            match self.file_location {
                Some(f) => Some(f@),
                None => None,
            },
            match self.line_ref {
                Some(l) => Some(l@),
                None => None,
            },
            self.id,
        )
    }
}

/// The first whitespace-separated word of `t`, where `t` starts with its word.
pub open spec fn leading_word(t: Seq<char>) -> Seq<char>
    decreases t.len(),
{
    if t.len() == 0 || is_whitespace(t[0]) {
        Seq::empty()
    } else {
        seq![t[0]] + leading_word(t.drop_first())
    }
}

/// `split_whitespace().next()`: the first word of `s`, if `s` has one.
pub open spec fn first_word(s: Seq<char>) -> Option<Seq<char>> {
    let t = trim_start_seq(s);
    if t.len() == 0 {
        None
    } else {
        Some(leading_word(t))
    }
}

/// The position of the last `:` in `s`.
pub open spec fn last_colon(s: Seq<char>) -> Option<int>
    decreases s.len(),
{
    if s.len() == 0 {
        None
    } else if s.last() == ':' {
        Some(s.len() - 1)
    } else {
        last_colon(s.drop_last())
    }
}

/// `rsplitn(3, ':')` read as `path:row:column`: the path (which may itself
/// hold colons), the row and the column; `None` unless `loc` has two colons.
pub open spec fn split_location(loc: Seq<char>) -> Option<(Seq<char>, Seq<char>, Seq<char>)> {
    match last_colon(loc) {
        None => None,
        Some(c1) => match last_colon(loc.take(c1)) {
            None => None,
            Some(c2) => Some((loc.take(c2), loc.subrange(c2 + 1, c1), loc.skip(c1 + 1))),
        },
    }
}

/// What a compiler message line names: its level, the file and `row:column`.
pub open spec fn compiler_location(line: Seq<char>) -> Option<(ErrorLevel, Seq<char>, Seq<char>)> {
    let t = trim_start_seq(line);
    let e = "e: file:///"@;
    let w = "w: file:///"@;
    let parsed = if e.is_prefix_of(t) {
        Some((ErrorLevel::Error, t.skip(e.len() as int)))
    } else if w.is_prefix_of(t) {
        Some((ErrorLevel::Warn, t.skip(w.len() as int)))
    } else {
        None
    };
    match parsed {
        None => None,
        Some((level, rest)) => match first_word(rest) {
            None => None,
            Some(location) => match split_location(location) {
                None => None,
                Some((path, row, column)) => Some((level, path, row + seq![':'] + column)),
            },
        },
    }
}

/// The last `:` of `a + b` is that of `a` when `b` has none.
proof fn lemma_last_colon_append(a: Seq<char>, b: Seq<char>)
    requires
        !b.contains(':'),
    ensures
        last_colon(a + b) == last_colon(a),
    decreases b.len(),
{
    if b.len() > 0 {
        assert((a + b).drop_last() =~= a + b.drop_last());
        assert((a + b).last() == b[b.len() - 1]);
        assert(!b.drop_last().contains(':')) by {
            if b.drop_last().contains(':') {
                let j = b.drop_last().index_of(':');
                assert(b[j] == ':');
            }
        }
        lemma_last_colon_append(a, b.drop_last());
    } else {
        assert(a + b =~= a);
    }
}

/// A location written as `path:row:column`, with no colon in the row or the
/// column, is read back as that path, row and column (the path may hold
/// colons).
pub proof fn law_split_location_round_trip(path: Seq<char>, row: Seq<char>, column: Seq<char>)
    requires
        !row.contains(':'),
        !column.contains(':'),
    ensures
        split_location(path + seq![':'] + row + seq![':'] + column) == Some((path, row, column)),
{
    let head = path + seq![':'] + row + seq![':'];
    let loc = head + column;
    lemma_last_colon_append(head, column);
    let c1 = head.len() - 1;
    assert(last_colon(head) == Some(c1));
    assert(loc.take(c1) =~= path + seq![':'] + row);
    lemma_last_colon_append(path + seq![':'], row);
    assert(last_colon(path + seq![':']) == Some(path.len() as int));
    assert(loc.take(c1).take(path.len() as int) =~= path);
    assert(loc.subrange(path.len() + 1int, c1) =~= row);
    assert(loc.skip(c1 + 1) =~= column);
}

/// The console items one log line gives: an error for a missing library,
/// then an item for a compiler message that names a location.
pub open spec fn items_for_line(line: Seq<char>) -> Seq<ItemView> {
    let missing: Seq<ItemView> = if contains_seq(line, "The required library"@) {
        seq![(ErrorLevel::Error, line, None, None, 1usize)]
    } else {
        Seq::empty()
    };
    match compiler_location(line) {
        Some((level, path, loc)) => missing.push((level, line, Some(path), Some(loc), 1usize)),
        None => missing,
    }
}

/// A line naming a missing library gives an error item holding the line,
/// before anything else; a line that is neither that nor a compiler message
/// with a location gives no item.
pub proof fn law_items_for_line(line: Seq<char>)
    ensures
        contains_seq(line, "The required library"@) ==> items_for_line(line).len() >= 1
            && items_for_line(line)[0] == (ErrorLevel::Error, line, None::<Seq<char>>, None::<
            Seq<char>,
        >, 1usize),
        !contains_seq(line, "The required library"@) && compiler_location(line) is None
            ==> items_for_line(line).len() == 0,
        compiler_location(line) matches Some((level, path, loc)) ==> items_for_line(line).last()
            == (level, line, Some(path), Some(loc), 1usize),
{
}

/// The console items of a whole log, line by line.
pub open spec fn analysed(lines: Seq<Seq<char>>) -> Seq<ItemView>
    decreases lines.len(),
{
    if lines.len() == 0 {
        Seq::empty()
    } else {
        analysed(lines.drop_last()) + items_for_line(lines.last())
    }
}

proof fn lemma_leading_word_step(t: Seq<char>, i: int)
    requires
        0 <= i < t.len(),
        forall|j: int| 0 <= j <= i ==> !is_whitespace(#[trigger] t[j]),
        leading_word(t) == t.subrange(0, i) + leading_word(t.subrange(i, t.len() as int)),
    ensures
        leading_word(t) == t.subrange(0, i + 1) + leading_word(t.subrange(i + 1, t.len() as int)),
{
    let rest = t.subrange(i, t.len() as int);
    assert(rest.drop_first() =~= t.subrange(i + 1, t.len() as int));
    assert(rest[0] == t[i]);
    assert(leading_word(rest) == seq![t[i]] + leading_word(rest.drop_first()));
    assert(t.subrange(0, i + 1) =~= t.subrange(0, i) + seq![t[i]]);
}

/// `split_whitespace().next()` on `v[from..]`.
fn first_word_of(v: &Vec<char>, from: usize) -> (r: Option<(usize, usize)>)
    requires
        from <= v@.len(),
    ensures
        match (r, first_word(v@.skip(from as int))) {
            (Some((a, b)), Some(w)) => a <= b <= v@.len() && v@.subrange(a as int, b as int) == w,
            (None, None) => true,
            _ => false,
        },
{
    let n = v.len();
    let a = skip_ws(v, from);
    let ghost t = v@.skip(a as int);
    if a == n {
        assert(t.len() == 0);
        return None;
    }
    let mut b: usize = a;
    assert(t.subrange(0, 0) =~= Seq::<char>::empty());
    assert(t.subrange(0, t.len() as int) =~= t);
    while b < n && !is_ws(v[b])
        invariant
            a <= b <= n == v@.len(),
            t == v@.skip(a as int),
            forall|j: int| a <= j < b ==> !is_whitespace(#[trigger] v@[j]),
            leading_word(t) == t.subrange(0, b - a) + leading_word(
                t.subrange(b - a, t.len() as int),
            ),
        decreases n - b,
    {
        proof {
            assert forall|j: int| 0 <= j <= b - a implies !is_whitespace(#[trigger] t[j]) by {
                assert(t[j] == v@[a + j]);
            }
            lemma_leading_word_step(t, (b - a) as int);
        }
        b = b + 1;
    }
    proof {
        let rest = t.subrange(b - a, t.len() as int);
        if b < n {
            assert(rest[0] == v@[b as int]);
        }
        assert(leading_word(rest) == Seq::<char>::empty());
        assert(t.subrange(0, b - a) =~= v@.subrange(a as int, b as int));
    }
    Some((a, b))
}

/// The position of the last `:` among `v[from..to]`.
fn last_colon_in(v: &Vec<char>, from: usize, to: usize) -> (r: Option<usize>)
    requires
        from <= to <= v@.len(),
    ensures
        match (r, last_colon(v@.subrange(from as int, to as int))) {
            (Some(i), Some(j)) => from <= i < to && i == from + j,
            (None, None) => true,
            _ => false,
        },
{
    let mut e: usize = to;
    while e > from && v[e - 1] != ':'
        invariant
            from <= e <= to <= v@.len(),
            last_colon(v@.subrange(from as int, to as int)) == last_colon(
                v@.subrange(from as int, e as int),
            ),
        decreases e - from,
    {
        assert(v@.subrange(from as int, e as int).drop_last() =~= v@.subrange(
            from as int,
            e - 1,
        ));
        e = e - 1;
    }
    if e == from {
        assert(v@.subrange(from as int, e as int).len() == 0);
        None
    } else {
        Some(e - 1)
    }
}

/// The first position at or after `from` that does not hold whitespace.
fn skip_ws(v: &Vec<char>, from: usize) -> (r: usize)
    requires
        from <= v@.len(),
    ensures
        from <= r <= v@.len(),
        trim_start_seq(v@.skip(from as int)) == v@.skip(r as int),
{
    let n = v.len();
    let mut a: usize = from;
    while a < n && is_ws(v[a])
        invariant
            from <= a <= n == v@.len(),
            trim_start_seq(v@.skip(from as int)) == trim_start_seq(v@.skip(a as int)),
        decreases n - a,
    {
        assert(v@.skip(a as int).drop_first() =~= v@.skip(a + 1));
        a = a + 1;
    }
    a
}

/// The message level named at `v[a..]` and where the location text starts.
fn message_level(v: &Vec<char>, a: usize) -> (r: Option<(ErrorLevel, usize)>)
    requires
        a <= v@.len(),
    ensures
        ({
            let t = v@.skip(a as int);
            let e = "e: file:///"@;
            let w = "w: file:///"@;
            match r {
                Some((l, start)) => a <= start <= v@.len() && if l == ErrorLevel::Error {
                    e.is_prefix_of(t) && start == a + e.len()
                } else {
                    !e.is_prefix_of(t) && w.is_prefix_of(t) && start == a + w.len()
                },
                None => !e.is_prefix_of(t) && !w.is_prefix_of(t),
            }
        }),
{
    let ghost t = v@.skip(a as int);
    let _n = v.len();
    let e = chars_of("e: file:///");
    let w = chars_of("w: file:///");
    let me = matches_at(v, a, &e);
    proof {
        if a + e@.len() <= v@.len() {
            assert(t.subrange(0, e@.len() as int) =~= v@.subrange(a as int, a + e@.len()));
        }
    }
    if me {
        return Some((ErrorLevel::Error, a + e.len()));
    }
    let mw = matches_at(v, a, &w);
    proof {
        if a + w@.len() <= v@.len() {
            assert(t.subrange(0, w@.len() as int) =~= v@.subrange(a as int, a + w@.len()));
        }
    }
    if mw {
        Some((ErrorLevel::Warn, a + w.len()))
    } else {
        None
    }
}

/// `split_location` of `v[ws..we]`: the path and `row:column`.
fn split_location_of(v: &Vec<char>, ws: usize, we: usize) -> (r: Option<(String, String)>)
    requires
        ws <= we <= v@.len(),
    ensures
        match (r, split_location(v@.subrange(ws as int, we as int))) {
            (Some((p, rc)), Some((p2, row, col))) => p@ == p2 && rc@ == row + seq![':'] + col,
            (None, None) => true,
            _ => false,
        },
{
    let ghost loc = v@.subrange(ws as int, we as int);
    match last_colon_in(v, ws, we) {
        None => None,
        Some(c1) => {
            assert(loc.take(c1 - ws) =~= v@.subrange(ws as int, c1 as int));
            match last_colon_in(v, ws, c1) {
                None => None,
                Some(c2) => {
                    let path = string_from_chars(v, ws, c2);
                    let mut row_col = string_from_chars(v, c2 + 1, c1);
                    push_char(&mut row_col, ':');
                    let ghost rc = row_col@;
                    let mut k: usize = c1 + 1;
                    while k < we
                        invariant
                            c1 + 1 <= k <= we <= v@.len(),
                            row_col@ == rc + v@.subrange(c1 + 1, k as int),
                        decreases we - k,
                    {
                        push_char(&mut row_col, v[k]);
                        k = k + 1;
                        assert(row_col@ =~= rc + v@.subrange(c1 + 1, k as int));
                    }
                    proof {
                        assert(loc.take(c2 - ws) =~= path@);
                        assert(loc.subrange(c2 - ws + 1, c1 - ws) =~= v@.subrange(
                            c2 + 1,
                            c1 as int,
                        ));
                        assert(loc.skip(c1 - ws + 1) =~= v@.subrange(c1 + 1, we as int));
                        assert(row_col@ =~= v@.subrange(c2 + 1, c1 as int) + seq![':']
                            + v@.subrange(c1 + 1, we as int));
                    }
                    Some((path, row_col))
                },
            }
        },
    }
}

/// Reads a compiler message line `e: file:///path:row:column ...` (or `w:`
/// for a warning): its level, the path and `row:column`.
pub fn parse_compiler_location(line: &str) -> (r: Option<(ErrorLevel, String, String)>)
    ensures
        match (r, compiler_location(line@)) {
            (Some((l, p, loc)), Some((l2, p2, loc2))) => l == l2 && p@ == p2 && loc@ == loc2,
            (None, None) => true,
            _ => false,
        },
{
    let v = chars_of(line);
    assert(v@.skip(0) =~= v@);
    let a = skip_ws(&v, 0);
    let ghost t = v@.skip(a as int);
    match message_level(&v, a) {
        None => None,
        Some((level, start)) => {
            proof {
                let e = "e: file:///"@;
                let w = "w: file:///"@;
                if level == ErrorLevel::Error {
                    assert(v@.skip(start as int) =~= t.skip(e.len() as int));
                } else {
                    assert(v@.skip(start as int) =~= t.skip(w.len() as int));
                }
            }
            match first_word_of(&v, start) {
                None => None,
                Some((ws, we)) => match split_location_of(&v, ws, we) {
                    None => None,
                    Some((path, row_col)) => Some((level, path, row_col)),
                },
            }
        },
    }
}

/// The console items of a build log (every item gets id 1, as the console numbers them).
pub fn analyse_error(log: &Vec<String>) -> (r: Vec<ConsoleItem>)
    ensures
        r@.map_values(|c: ConsoleItem| c@) == analysed(log@.map_values(|s: String| s@)),
{
    let mut list: Vec<ConsoleItem> = Vec::new();
    let index: usize = 0;
    let ghost lines = log@.map_values(|s: String| s@);
    let mut i: usize = 0;
    while i < log.len()
        invariant
            i <= log@.len(),
            index == 0,
            lines == log@.map_values(|s: String| s@),
            list@.map_values(|c: ConsoleItem| c@) == analysed(lines.take(i as int)),
        decreases log@.len() - i,
    {
        let line = &log[i];
        let ghost before = list@.map_values(|c: ConsoleItem| c@);
        let ghost first: Seq<ItemView> = if contains_seq(line@, "The required library"@) {
            seq![(ErrorLevel::Error, line@, None, None, 1usize)]
        } else {
            Seq::empty()
        };
        if contains(line.as_str(), "The required library") {
            list.push(
                ConsoleItem {
                    error_level: ErrorLevel::Error,
                    msg: line.clone(),
                    file_location: None,
                    line_ref: None,
                    id: index + 1,
                },
            );
        }
        assert(list@.map_values(|c: ConsoleItem| c@) =~= before + first);
        let ghost mid = before + first;
        match parse_compiler_location(line.as_str()) {
            Some((error_level, path, loc)) => {
                list.push(
                    ConsoleItem {
                        error_level,
                        msg: line.clone(),
                        file_location: Some(path),
                        line_ref: Some(loc),
                        id: index + 1,
                    },
                );
                assert(list@.map_values(|c: ConsoleItem| c@) =~= mid.push(
                    list@.last()@,
                ));
            },
            None => {},
        }
        proof {
            assert(lines.take(i + 1).drop_last() =~= lines.take(i as int));
            assert(lines.take(i + 1).last() == line@);
            assert(list@.map_values(|c: ConsoleItem| c@) =~= before + items_for_line(line@));
        }
        i = i + 1;
    }
    assert(lines.take(log@.len() as int) =~= lines);
    list
}

/// The `path:row:column` argument that opens an item's location in an editor, if it has one.
pub fn editor_location(item: &ConsoleItem) -> (r: Option<String>)
    ensures
        match (item.file_location, item.line_ref) {
            (Some(p), Some(l)) => r is Some && r->0@ == p@ + seq![':'] + l@,
            _ => r is None,
        },
{
    match (&item.file_location, &item.line_ref) {
        (Some(p), Some(l)) => {
            let mut s = owned(p.as_str());
            push_char(&mut s, ':');
            let lv = chars_of(l.as_str());
            let ghost head = s@;
            let mut k: usize = 0;
            while k < lv.len()
                invariant
                    k <= lv@.len(),
                    lv@ == l@,
                    s@ == head + lv@.subrange(0, k as int),
                decreases lv@.len() - k,
            {
                push_char(&mut s, lv[k]);
                k = k + 1;
                assert(s@ =~= head + lv@.subrange(0, k as int));
            }
            assert(lv@.subrange(0, lv@.len() as int) =~= lv@);
            Some(s)
        },
        _ => None,
    }
}

} // verus!
