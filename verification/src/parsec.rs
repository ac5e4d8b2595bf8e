//! Recognising client connections and disconnections in Parsec's log.
//!
//! A log line such as `[I 2026-04-06 10:17:53] Username#12345678 connected.`
//! names the client after the last `]` and before the marker.

use vstd::prelude::*;
use vstd::string::StringSliceAdditionalSpecFns;
use crate::text::{
    after_last, chars_of, find, find_exec, free_of, is_whitespace, lemma_after_last_append_free,
    lemma_find_from_first, lemma_find_from_none, matches_at, start_after_last, trim, trim_bounds,
    trim_end, trim_start, join_path, join_path_exec,
};

verus! {

/// A connection change reported by Parsec, with the client's name.
#[derive(Debug, Clone, PartialEq)]
pub enum ParsecEvent {
    ClientConnected(String),
    ClientDisconnected(String),
}

impl View for ParsecEvent {
    /// `(connected, client name)`
    type V = (bool, Seq<char>);

    open spec fn view(&self) -> (bool, Seq<char>) {
        match self {
            ParsecEvent::ClientConnected(u) => (true, u@),
            ParsecEvent::ClientDisconnected(u) => (false, u@),
        }
    }
}

/// The abstract value of an optional event.
pub open spec fn event_view(e: Option<ParsecEvent>) -> Option<(bool, Seq<char>)> {
    match e {
        Some(ev) => Some(ev@),
        None => None,
    }
}

/// The text that ends a connection line.
pub open spec fn connected_marker() -> Seq<char> {
    " connected."@
}

/// The text that ends a disconnection line.
pub open spec fn disconnected_marker() -> Seq<char> {
    " disconnected."@
}

/// The client name that precedes the first `marker` in `line`: the text
/// between the last `]` before the marker and the marker, trimmed; `None` when
/// the marker is absent or that text is blank.
pub open spec fn user_before(line: Seq<char>, marker: Seq<char>) -> Option<Seq<char>> {
    match find(line, marker) {
        Some(i) => {
            let u = trim(after_last(line.take(i), ']'));
            if u.len() > 0 {
                Some(u)
            } else {
                None
            }
        },
        None => None,
    }
}

/// What a log line reports: a connection when a client name precedes
/// `" connected."`, else a disconnection when one precedes `" disconnected."`,
/// else nothing.
pub open spec fn parse_line_spec(line: Seq<char>) -> Option<(bool, Seq<char>)> {
    match user_before(line, connected_marker()) {
        Some(u) => Some((true, u)),
        None => match user_before(line, disconnected_marker()) {
            Some(u) => Some((false, u)),
            None => None,
        },
    }
}

fn user_before_exec(line: &str, chars: &Vec<char>, marker: &Vec<char>) -> (r: Option<String>)
    requires
        chars@ == line@,
    ensures
        match r {
            Some(u) => user_before(line@, marker@) == Some(u@),
            None => user_before(line@, marker@) is None,
        },
{
    match find_exec(chars, marker) {
        None => None,
        Some(i) => {
            let k = start_after_last(chars, ']', i);
            let (a, b) = trim_bounds(chars, k, i);
            assert(chars@.take(i as int).len() == i);
            if a < b {
                let user = line.substring_char(a, b);
                Some(user.to_owned())
            } else {
                None
            }
        },
    }
}

/// The line that Parsec writes for a client: a header closed by `]`, a space,
/// the client's name and `marker`.
pub open spec fn log_line(header: Seq<char>, name: Seq<char>, marker: Seq<char>) -> Seq<char> {
    header + seq![']', ' '] + name + marker
}

/// A client name as Parsec writes it: not empty, free of `]`, and not
/// starting or ending with whitespace.
pub open spec fn well_formed_name(name: Seq<char>) -> bool {
    &&& name.len() > 0
    &&& free_of(name, ']')
    &&& !is_whitespace(name[0])
    &&& !is_whitespace(name.last())
}

proof fn lemma_user_of_log_line(header: Seq<char>, name: Seq<char>, marker: Seq<char>)
    requires
        well_formed_name(name),
        forall|j: int|
            0 <= j < header.len() + 2 + name.len() ==> !matches_at(
                log_line(header, name, marker),
                marker,
                j,
            ),
    ensures
        user_before(log_line(header, name, marker), marker) == Some(name),
{
    let line = log_line(header, name, marker);
    let p = (header.len() + 2 + name.len()) as int;
    assert(line.subrange(p, p + marker.len()) =~= marker);
    lemma_find_from_first(line, marker, 0, p);
    let x = header + seq![']', ' '];
    assert(line.take(p) =~= x + name);
    lemma_after_last_append_free(x, name, ']');
    assert(x.drop_last() =~= header.push(']'));
    assert(after_last(header.push(']'), ']') == Seq::<char>::empty());
    assert(after_last(x, ']') =~= seq![' ']);
    let t = seq![' '] + name;
    assert(is_whitespace(t[0]));
    assert(t.drop_first() =~= name);
    assert(trim_start(t) == trim_start(name));
    assert(trim_start(name) == name);
    assert(trim_end(name) == name);
}

/// A connection line reports its client as connected, provided the marker
/// does not already occur earlier in the line.
pub proof fn law_connected_line(header: Seq<char>, name: Seq<char>)
    requires
        well_formed_name(name),
        forall|j: int|
            0 <= j < header.len() + 2 + name.len() ==> !matches_at(
                log_line(header, name, connected_marker()),
                connected_marker(),
                j,
            ),
    ensures
        parse_line_spec(log_line(header, name, connected_marker())) == Some((true, name)),
{
    lemma_user_of_log_line(header, name, connected_marker());
}

/// A disconnection line reports its client as disconnected, provided the
/// line holds no connection marker and its own marker does not occur earlier.
pub proof fn law_disconnected_line(header: Seq<char>, name: Seq<char>)
    requires
        well_formed_name(name),
        forall|j: int| !matches_at(log_line(header, name, disconnected_marker()), connected_marker(), j),
        forall|j: int|
            0 <= j < header.len() + 2 + name.len() ==> !matches_at(
                log_line(header, name, disconnected_marker()),
                disconnected_marker(),
                j,
            ),
    ensures
        parse_line_spec(log_line(header, name, disconnected_marker())) == Some((false, name)),
{
    let line = log_line(header, name, disconnected_marker());
    lemma_find_from_none(line, connected_marker(), 0);
    lemma_user_of_log_line(header, name, disconnected_marker());
}

proof fn lemma_user_of_line_with_tail(
    header: Seq<char>,
    name: Seq<char>,
    marker: Seq<char>,
    trailing: Seq<char>,
)
    requires
        name.len() > 0,
        forall|i: int| 0 <= i < name.len() ==> name[i] != ']',
        !is_whitespace(name[0]),
        !is_whitespace(name[name.len() - 1]),
        forall|j: int|
            0 <= j < header.len() + 2 + name.len() ==> !matches_at(
                header + seq![']', ' '] + name + marker + trailing,
                marker,
                j,
            ),
    ensures
        user_before(header + seq![']', ' '] + name + marker + trailing, marker) == Some(name),
{
    let line = header + seq![']', ' '] + name + marker + trailing;
    let p = (header.len() + 2 + name.len()) as int;
    assert(line.subrange(p, p + marker.len()) =~= marker);
    lemma_find_from_first(line, marker, 0, p);
    let x = header + seq![']', ' '];
    assert(line.take(p) =~= x + name);
    assert(free_of(name, ']'));
    lemma_after_last_append_free(x, name, ']');
    assert(x.drop_last() =~= header.push(']'));
    assert(after_last(header.push(']'), ']') == Seq::<char>::empty());
    assert(after_last(x, ']') =~= seq![' ']);
    let t = seq![' '] + name;
    assert(is_whitespace(t[0]));
    assert(t.drop_first() =~= name);
    assert(trim_start(t) == trim_start(name));
    assert(trim_start(name) == name);
    assert(name.last() == name[name.len() - 1]);
    assert(trim_end(name) == name);
}

/// Whatever follows a connection line's marker (a newline, further text) does
/// not change what it reports: `[...] NAME connected.` followed by anything
/// reports NAME as connected, for every header and every well-formed name
/// (not empty, free of `]`, not starting or ending with whitespace), provided
/// the marker does not occur before NAME's own.
pub proof fn law_connected_line_any_ending(header: Seq<char>, name: Seq<char>, trailing: Seq<char>)
    requires
        name.len() > 0,
        forall|i: int| 0 <= i < name.len() ==> name[i] != ']',
        !is_whitespace(name[0]),
        !is_whitespace(name[name.len() - 1]),
        forall|j: int|
            0 <= j < header.len() + 2 + name.len() ==> !matches_at(
                header + seq![']', ' '] + name + " connected."@ + trailing,
                " connected."@,
                j,
            ),
    ensures
        parse_line_spec(header + seq![']', ' '] + name + " connected."@ + trailing) == Some(
            (true, name),
        ),
{
    lemma_user_of_line_with_tail(header, name, " connected."@, trailing);
}

/// Likewise a disconnection line `[...] NAME disconnected.` followed by
/// anything reports NAME as disconnected, provided the line holds no
/// connection marker and its own marker does not occur before NAME's.
pub proof fn law_disconnected_line_any_ending(
    header: Seq<char>,
    name: Seq<char>,
    trailing: Seq<char>,
)
    requires
        name.len() > 0,
        forall|i: int| 0 <= i < name.len() ==> name[i] != ']',
        !is_whitespace(name[0]),
        !is_whitespace(name[name.len() - 1]),
        forall|j: int|
            !matches_at(
                header + seq![']', ' '] + name + " disconnected."@ + trailing,
                " connected."@,
                j,
            ),
        forall|j: int|
            0 <= j < header.len() + 2 + name.len() ==> !matches_at(
                header + seq![']', ' '] + name + " disconnected."@ + trailing,
                " disconnected."@,
                j,
            ),
    ensures
        parse_line_spec(header + seq![']', ' '] + name + " disconnected."@ + trailing) == Some(
            (false, name),
        ),
{
    let line = header + seq![']', ' '] + name + " disconnected."@ + trailing;
    lemma_find_from_none(line, " connected."@, 0);
    lemma_user_of_line_with_tail(header, name, " disconnected."@, trailing);
}

/// Reads a Parsec log line and reports the connection change it records.
pub fn parse_line(line: &str) -> (r: Option<ParsecEvent>)
    ensures
        event_view(r) == parse_line_spec(line@),
{
    let chars = chars_of(line);
    let connected = chars_of(" connected.");
    match user_before_exec(line, &chars, &connected) {
        Some(u) => Some(ParsecEvent::ClientConnected(u)),
        None => {
            let disconnected = chars_of(" disconnected.");
            match user_before_exec(line, &chars, &disconnected) {
                Some(u) => Some(ParsecEvent::ClientDisconnected(u)),
                None => None,
            }
        },
    }
}

/// Reads a Parsec log line into `(connected, client name)`.
pub fn parse_parsec_line(line: &str) -> (r: Option<(bool, String)>)
    ensures
        match r {
            Some(p) => parse_line_spec(line@) == Some((p.0, p.1@)),
            None => parse_line_spec(line@) is None,
        },
{
    match parse_line(line) {
        Some(ParsecEvent::ClientConnected(u)) => Some((true, u)),
        Some(ParsecEvent::ClientDisconnected(u)) => Some((false, u)),
        None => None,
    }
}

/// Where Parsec writes its log: `.parsec/log.txt` under the home directory,
/// or under `.` when there is none.
pub open spec fn log_path_for(home: Option<Seq<char>>) -> Seq<char> {
    let base = match home {
        Some(h) => h,
        None => "."@,
    };
    join_path(join_path(base, ".parsec"@), "log.txt"@)
}

/// Where Parsec writes its log.
pub fn parsec_log_path(home: Option<&str>) -> (r: String)
    ensures
        r@ == log_path_for(
            match home {
                Some(h) => Some(h@),
                None => None,
            },
        ),
{
    let base = match home {
        Some(h) => h.to_owned(),
        None => ".".to_owned(),
    };
    let dir = join_path_exec(base, ".parsec");
    join_path_exec(dir, "log.txt")
}

/// The log position after reading `line` from `pos`: the line's bytes plus
/// the newline that ended it.
pub fn next_log_position(pos: u64, line: &str) -> (r: u64)
    requires
        line.spec_bytes().len() <= usize::MAX,
        pos + line.spec_bytes().len() + 1 <= u64::MAX,
    ensures
        r == pos + line.spec_bytes().len() + 1,
{
    pos + line.len() as u64 + 1
}

} // verus!
