//! Python project management: package names, `pyproject.toml` values, the
//! managed `__init__.py` header, build stamps and the files of a new project.

use crate::commands::templates::{
    generate_devcontainer, generate_docker_compose, generate_dockerfile, generate_pyproject_toml,
    generate_readme, generate_taskfile, generate_test_version, init_py_header, init_py_header_text,
    DEVCONTAINER_DOCKERFILE, GITIGNORE, PRECOMMIT_CONFIG,
};
use crate::error::RsbuildError;
use crate::text::{
    alphanumeric, ascii_alphanumeric, ascii_char, ascii_lower, ascii_text, chars_of, decimal, white_space, lemma_index_of, strip_cr, extend_chars, extend_str, find_text, find_text_exec,
    has_prefix, has_prefix_exec, index_of, index_of_from, is_alphanumeric, lemma_index_of_bound,
    lines_of, lowercase, push_padded_decimal, slice_chars, split_lines, string_of, strip_both,
    same_text, strip_end, strip_exec, strip_start, text_of, to_lowercase, trim, views, zero_pad, Strip,
};
use vstd::prelude::*;

verus! {

// ---------------------------------------------------------------------------
// Package names
// ---------------------------------------------------------------------------

/// `-` and space become `_`; every other character stays.
pub open spec fn separator_to_underscore(c: char) -> char {
    if c == '-' || c == ' ' {
        '_'
    } else {
        c
    }
}

/// A character that may stand in a package name.
pub open spec fn package_char(c: char) -> bool {
    alphanumeric(c) || c == '_'
}

/// `s` with separators turned into `_` and every other non-name character dropped.
pub open spec fn package_chars(s: Seq<char>) -> Seq<char>
    decreases s.len(),
{
    if s.len() == 0 {
        Seq::empty()
    } else {
        let c = separator_to_underscore(s.last());
        package_chars(s.drop_last()) + if package_char(c) {
            seq![c]
        } else {
            Seq::<char>::empty()
        }
    }
}

/// The package name made of `name`: lowercased, separators to `_`, only
/// alphanumerics and `_` kept.
pub open spec fn sanitized(name: Seq<char>) -> Seq<char> {
    package_chars(lowercase(name))
}

/// Sanitize a string to be a valid Python package name.
pub fn sanitize_package_name(name: &str) -> (r: String)
    ensures
        r@ == sanitized(name@),
{
    let lower = to_lowercase(name);
    let chars = chars_of(lower.as_str());
    let mut out: Vec<char> = Vec::new();
    for i in 0..chars.len()
        invariant
            chars@ == lowercase(name@),
            out@ == package_chars(chars@.take(i as int)),
    {
        assert(chars@.take(i + 1).drop_last() =~= chars@.take(i as int));
        let c = chars[i];
        let c = if c == '-' || c == ' ' { '_' } else { c };
        if is_alphanumeric(c) || c == '_' {
            out.push(c);
        }
        assert(out@ =~= package_chars(chars@.take(i + 1)));
    }
    assert(chars@.take(chars@.len() as int) =~= chars@);
    string_of(&out)
}

/// A sanitized name consists of alphanumerics and `_` only.
pub proof fn law_sanitized_chars(name: Seq<char>)
    ensures
        forall|i: int| 0 <= i < sanitized(name).len() ==> package_char(#[trigger] sanitized(name)[i]),
{
    lemma_package_chars(lowercase(name));
}

proof fn lemma_package_chars(s: Seq<char>)
    ensures
        forall|i: int| 0 <= i < package_chars(s).len() ==> package_char(#[trigger] package_chars(s)[i]),
        package_chars(s).len() <= s.len(),
    decreases s.len(),
{
    if s.len() > 0 {
        lemma_package_chars(s.drop_last());
        let p = package_chars(s.drop_last());
        let c = separator_to_underscore(s.last());
        assert forall|i: int| 0 <= i < package_chars(s).len() implies package_char(
            #[trigger] package_chars(s)[i],
        ) by {
            if i < p.len() {
                assert(package_chars(s)[i] == p[i]);
            }
        }
    }
}

/// Sanitizing keeps a text of alphanumerics and `_` as it is, once
/// lower-casing leaves it unchanged.
pub proof fn law_sanitize_keeps_clean_names(name: Seq<char>)
    requires
        lowercase(name) == name,
        forall|i: int| 0 <= i < name.len() ==> package_char(#[trigger] name[i]),
    ensures
        sanitized(name) == name,
{
    lemma_package_chars_keep(name);
}

proof fn lemma_package_chars_keep(s: Seq<char>)
    requires
        forall|i: int| 0 <= i < s.len() ==> package_char(#[trigger] s[i]),
    ensures
        package_chars(s) == s,
    decreases s.len(),
{
    if s.len() > 0 {
        let d = s.drop_last();
        assert forall|i: int| 0 <= i < d.len() implies package_char(#[trigger] d[i]) by {
            assert(d[i] == s[i]);
        }
        lemma_package_chars_keep(d);
        assert(package_char(s[s.len() - 1]));
        assert(package_chars(s) =~= s);
    }
}

/// Sanitizing a sanitized name changes nothing, wherever lower-casing leaves
/// that name unchanged (always so for ASCII input: see
/// `law_sanitize_ascii_idempotent`).
pub proof fn law_sanitize_idempotent(name: Seq<char>)
    requires
        lowercase(sanitized(name)) == sanitized(name),
    ensures
        sanitized(sanitized(name)) == sanitized(name),
{
    law_sanitized_chars(name);
    law_sanitize_keeps_clean_names(sanitized(name));
}

/// What sanitizing makes of one ASCII character: a letter or digit, made
/// small; `_` for `-`, space and `_`; nothing for any other character.
pub open spec fn ascii_name_piece(c: char) -> Seq<char> {
    if ascii_alphanumeric(c) {
        seq![ascii_lower(c)]
    } else if c == '-' || c == ' ' || c == '_' {
        seq!['_']
    } else {
        Seq::empty()
    }
}

/// The pieces of the characters of `s`, in order.
pub open spec fn ascii_name(s: Seq<char>) -> Seq<char>
    decreases s.len(),
{
    if s.len() == 0 {
        Seq::empty()
    } else {
        ascii_name(s.drop_last()) + ascii_name_piece(s.last())
    }
}

proof fn lemma_package_chars_ascii(s: Seq<char>)
    requires
        ascii_text(s),
    ensures
        package_chars(s.map_values(|c: char| ascii_lower(c))) == ascii_name(s),
    decreases s.len(),
{
    let m = s.map_values(|c: char| ascii_lower(c));
    if s.len() > 0 {
        let d = s.drop_last();
        assert(ascii_text(d)) by {
            assert forall|i: int| 0 <= i < d.len() implies ascii_char(#[trigger] d[i]) by {
                assert(d[i] == s[i]);
            }
        }
        lemma_package_chars_ascii(d);
        assert(m.drop_last() =~= d.map_values(|c: char| ascii_lower(c)));
        let c = s.last();
        assert(ascii_char(s[s.len() - 1]));
        assert(m.last() == ascii_lower(c));
        assert(package_chars(m) =~= package_chars(m.drop_last()) + ascii_name_piece(c));
    }
}

/// ASCII text is sanitized character by character: letters and digits made
/// small, `-`, space and `_` to `_`, every other character dropped.
pub proof fn law_sanitize_ascii(name: Seq<char>)
    requires
        ascii_text(name),
    ensures
        sanitized(name) == ascii_name(name),
{
    lemma_package_chars_ascii(name);
}

proof fn lemma_ascii_name_clean(s: Seq<char>)
    ensures
        forall|i: int| 0 <= i < ascii_name(s).len() ==> {
            let c = #[trigger] ascii_name(s)[i];
            &&& ascii_char(c)
            &&& ascii_lower(c) == c
            &&& package_char(c)
            &&& c != '-'
            &&& c != ' '
        },
    decreases s.len(),
{
    if s.len() > 0 {
        lemma_ascii_name_clean(s.drop_last());
        let p = ascii_name(s.drop_last());
        let q = ascii_name_piece(s.last());
        assert forall|i: int| 0 <= i < ascii_name(s).len() implies {
            let c = #[trigger] ascii_name(s)[i];
            &&& ascii_char(c)
            &&& ascii_lower(c) == c
            &&& package_char(c)
            &&& c != '-'
            &&& c != ' '
        } by {
            if i < p.len() {
                assert(ascii_name(s)[i] == p[i]);
            } else {
                assert(ascii_name(s)[i] == q[i - p.len()]);
            }
        }
    }
}

/// Sanitizing ASCII text a second time changes nothing.
pub proof fn law_sanitize_ascii_idempotent(name: Seq<char>)
    requires
        ascii_text(name),
    ensures
        sanitized(sanitized(name)) == sanitized(name),
{
    law_sanitize_ascii(name);
    let r = sanitized(name);
    lemma_ascii_name_clean(name);
    assert(ascii_text(r));
    assert(r.map_values(|c: char| ascii_lower(c)) =~= r);
    law_sanitize_keeps_clean_names(r);
}

/// The project name: the given one, else the name of the current directory,
/// sanitized; an error when neither is known.
pub fn get_project_name(name: Option<String>, dir_name: Option<String>) -> (r: Result<String, RsbuildError>)
    ensures
        name matches Some(n) ==> (r matches Ok(p) && p@ == sanitized(n@)),
        dir_name matches Some(d) ==> (name is None ==> (r matches Ok(p) && p@ == sanitized(d@))),
        name is None && dir_name is None ==> (r matches Err(RsbuildError::ExecutionFailed(m))
            && m@ == "Cannot determine project name"@),
{
    match name {
        Some(n) => Ok(sanitize_package_name(n.as_str())),
        None => match dir_name {
            Some(d) => Ok(sanitize_package_name(d.as_str())),
            None => Err(RsbuildError::ExecutionFailed(text_of("Cannot determine project name"))),
        },
    }
}

// ---------------------------------------------------------------------------
// Values in pyproject.toml
// ---------------------------------------------------------------------------

/// The text after the first `=` of `t`, up to the next `=` (`t.split('=').nth(1)`).
pub open spec fn second_field(t: Seq<char>) -> Option<Seq<char>> {
    let i = index_of(t, '=');
    if i >= t.len() {
        None
    } else {
        let rest = t.skip(i + 1);
        Some(rest.take(index_of(rest, '=')))
    }
}

/// The value that line `line` gives to `key`: the trimmed line must start with
/// `key ` or `key=`; the value is its second `=`-separated field, trimmed and
/// stripped of double and then single quotes at both ends.
pub open spec fn key_line_value(line: Seq<char>, key: Seq<char>) -> Option<Seq<char>> {
    let t = trim(line);
    if has_prefix(t, key.push(' ')) || has_prefix(t, key.push('=')) {
        match second_field(t) {
            Some(v) => Some(strip_both(strip_both(trim(v), Strip::Char('"')), Strip::Char('\''))),
            None => None,
        }
    } else {
        None
    }
}

/// The value of `key` in the first line of `lines` that gives it one.
pub open spec fn value_in_lines(lines: Seq<Seq<char>>, key: Seq<char>) -> Option<Seq<char>>
    decreases lines.len(),
{
    if lines.len() == 0 {
        None
    } else {
        match key_line_value(lines[0], key) {
            Some(v) => Some(v),
            None => value_in_lines(lines.skip(1), key),
        }
    }
}

/// The value of `key` in TOML text `content`, read line by line.
pub open spec fn toml_value(content: Seq<char>, key: Seq<char>) -> Option<Seq<char>> {
    value_in_lines(lines_of(content), key)
}

fn second_field_exec(t: &Vec<char>) -> (r: Option<Vec<char>>)
    ensures
        r matches Some(v) ==> second_field(t@) == Some(v@),
        r is None ==> second_field(t@) is None,
{
    let i = index_of_from(t, '=', 0);
    assert(t@.skip(0) =~= t@);
    if i >= t.len() {
        return None;
    }
    let j = index_of_from(t, '=', i + 1);
    let v = slice_chars(t, i + 1, j);
    assert(t@.skip(i + 1).take(j - (i + 1)) =~= t@.subrange(i + 1, j as int));
    Some(v)
}

fn key_line_value_exec(line: &Vec<char>, key_space: &Vec<char>, key_eq: &Vec<char>, Ghost(key): Ghost<Seq<char>>) -> (r: Option<Vec<char>>)
    requires
        key_space@ == key.push(' '),
        key_eq@ == key.push('='),
    ensures
        r matches Some(v) ==> key_line_value(line@, key) == Some(v@),
        r is None ==> key_line_value(line@, key) is None,
{
    let t = strip_exec(line, Strip::Whitespace);
    if has_prefix_exec(&t, key_space) || has_prefix_exec(&t, key_eq) {
        match second_field_exec(&t) {
            Some(v) => {
                let v = strip_exec(&v, Strip::Whitespace);
                let v = strip_exec(&v, Strip::Char('"'));
                let v = strip_exec(&v, Strip::Char('\''));
                Some(v)
            },
            None => None,
        }
    } else {
        None
    }
}

/// Extract a value from TOML content (simple parser for common cases).
pub fn extract_toml_value(content: &str, key: &str) -> (r: Option<String>)
    ensures
        r matches Some(v) ==> toml_value(content@, key@) == Some(v@),
        r is None ==> toml_value(content@, key@) is None,
{
    let text = chars_of(content);
    let lines = split_lines(&text);
    let mut key_space = chars_of(key);
    key_space.push(' ');
    let mut key_eq = chars_of(key);
    key_eq.push('=');
    let ghost all = views(lines@);
    assert(all.skip(0) =~= all);
    for i in 0..lines.len()
        invariant
            all == views(lines@),
            all == lines_of(text@),
            text@ == content@,
            key_space@ == key@.push(' '),
            key_eq@ == key@.push('='),
            value_in_lines(all, key@) == value_in_lines(all.skip(i as int), key@),
    {
        let ghost rest = all.skip(i as int);
        assert(rest[0] == lines@[i as int]@);
        assert(rest.skip(1) =~= all.skip(i + 1));
        match key_line_value_exec(&lines[i], &key_space, &key_eq, Ghost(key@)) {
            Some(v) => {
                return Some(string_of(&v));
            },
            None => {},
        }
    }
    None
}

// ---------------------------------------------------------------------------
// Reading back a new pyproject.toml
// ---------------------------------------------------------------------------

/// The text of `parts` joined with `sep` begins with the first two parts and `sep` between them.
proof fn lemma_join_head(parts: Seq<Seq<char>>, sep: Seq<char>)
    requires
        parts.len() >= 2,
    ensures
        exists|rest: Seq<char>| #[trigger] crate::text::join(parts, sep) == parts[0] + sep + parts[1] + rest,
    decreases parts.len(),
{
    if parts.len() == 2 {
        let d = parts.drop_last();
        assert(d.len() == 1);
        assert(crate::text::join(d, sep) == d[0]);
        assert(crate::text::join(parts, sep) == parts[0] + sep + parts[1] + Seq::<char>::empty());
    } else {
        let d = parts.drop_last();
        lemma_join_head(d, sep);
        let rest = choose|rest: Seq<char>| #[trigger] crate::text::join(d, sep) == d[0] + sep + d[1] + rest;
        let r2 = rest + sep + parts.last();
        assert(crate::text::join(parts, sep) =~= parts[0] + sep + parts[1] + r2);
    }
}

/// Lines are split at the first line feed.
proof fn lemma_lines_at(s: Seq<char>, k: int)
    requires
        0 <= k < s.len(),
        s[k] == '\n',
        forall|j: int| 0 <= j < k ==> s[j] != '\n',
    ensures
        lines_of(s) == seq![strip_cr(s.take(k))] + lines_of(s.skip(k + 1)),
{
    lemma_index_of(s, '\n', k);
}

/// A text whose ends are not white space is its own trim.
proof fn lemma_trim_fixed(t: Seq<char>)
    requires
        t.len() > 0,
        !white_space(t[0]),
        !white_space(t.last()),
    ensures
        trim(t) == t,
{
}

/// Reading a list of lines that starts with `line` looks at `line` first.
proof fn lemma_value_in_lines_cons(line: Seq<char>, rest: Seq<Seq<char>>, key: Seq<char>)
    ensures
        value_in_lines(seq![line] + rest, key) == match key_line_value(line, key) {
            Some(v) => Some(v),
            None => value_in_lines(rest, key),
        },
{
    assert((seq![line] + rest).skip(1) =~= rest);
    assert((seq![line] + rest)[0] == line);
}

/// A line that does not start with the key's first character gives it no value.
proof fn lemma_other_key(line: Seq<char>, key: Seq<char>)
    requires
        line.len() > 0,
        key.len() > 0,
        !white_space(line[0]),
        !white_space(line.last()),
        line[0] != key[0],
    ensures
        key_line_value(line, key) is None,
{
    lemma_trim_fixed(line);
    assert(key.push(' ')[0] == key[0]);
    assert(key.push('=')[0] == key[0]);
    if has_prefix(line, key.push(' ')) {
        assert(line.take(key.len() as int + 1)[0] == line[0]);
    }
    if has_prefix(line, key.push('=')) {
        assert(line.take(key.len() as int + 1)[0] == line[0]);
    }
}

/// A character that may stand inside a quoted value: no `=` and no quote.
pub open spec fn value_char(c: char) -> bool {
    c != '=' && c != '"' && c != '\''
}

/// A character that may stand in a name that reads back from its line: a
/// value character that is no line feed.
pub open spec fn name_char(c: char) -> bool {
    value_char(c) && c != '\n'
}

/// The value of a line `key = "value"`, where `value` holds no `=` and no quote.
proof fn lemma_quoted_value(key: Seq<char>, value: Seq<char>)
    requires
        key.len() > 0,
        !white_space(key[0]),
        forall|i: int| 0 <= i < key.len() ==> key[i] != '=',
        forall|i: int| 0 <= i < value.len() ==> value_char(#[trigger] value[i]),
    ensures
        key_line_value(key + " = \""@ + value + "\""@, key) == Some(value),
{
    reveal_strlit(" = \"");
    reveal_strlit("\"");
    let line = key + " = \""@ + value + "\""@;
    let k = key.len() as int;
    assert(line[0] == key[0]);
    assert(line.last() == '"');
    lemma_trim_fixed(line);
    assert(line.take(k + 1) =~= key.push(' '));
    assert forall|j: int| 0 <= j < k implies line[j] != '=' by {
        assert(line[j] == key[j]);
    }
    assert(line[k] == ' ');
    assert(line[k + 1] == '=');
    lemma_index_of(line, '=', k + 1);
    let rest = line.skip(k + 2);
    assert(rest =~= seq![' ', '"'] + value + seq!['"']);
    assert forall|j: int| 0 <= j < rest.len() implies rest[j] != '=' by {
        if 2 <= j < rest.len() - 1 {
            assert(rest[j] == value[j - 2]);
            assert(value_char(value[j - 2]));
        }
    }
    lemma_index_of(rest, '=', rest.len() as int);
    assert(rest.take(rest.len() as int) =~= rest);
    assert(second_field(line) == Some(rest));
    let quoted = seq!['"'] + value + seq!['"'];
    assert(rest.skip(1) =~= quoted);
    assert(strip_start(rest, Strip::Whitespace) == strip_start(rest.skip(1), Strip::Whitespace));
    assert(strip_start(quoted, Strip::Whitespace) == quoted);
    assert(quoted.last() == '"');
    assert(trim(rest) == quoted);
    let after = value + seq!['"'];
    assert(quoted.skip(1) =~= after);
    assert(strip_start(quoted, Strip::Char('"')) == strip_start(after, Strip::Char('"')));
    if value.len() == 0 {
        assert(after.skip(1) =~= Seq::<char>::empty());
        assert(strip_start(after, Strip::Char('"')) == strip_start(after.skip(1), Strip::Char('"')));
        assert(strip_both(quoted, Strip::Char('"')) == value);
        assert(strip_both(value, Strip::Char('\'')) =~= value);
    } else {
        assert(after[0] == value[0]);
        assert(value_char(value[0]));
        assert(strip_start(after, Strip::Char('"')) == after);
        assert(after.drop_last() =~= value);
        assert(value_char(value.last()));
        assert(strip_end(after, Strip::Char('"')) == strip_end(value, Strip::Char('"')));
        assert(strip_end(value, Strip::Char('"')) == value);
        assert(strip_both(quoted, Strip::Char('"')) == value);
        assert(strip_start(value, Strip::Char('\'')) == value);
        assert(strip_end(value, Strip::Char('\'')) == value);
    }
}

/// The line `name = "p"` of a new pyproject.toml.
pub open spec fn name_line(p: Seq<char>) -> Seq<char> {
    "name"@ + " = \""@ + p + "\""@
}

/// The line `version = "0.1.0"` of a new pyproject.toml.
pub open spec fn version_line() -> Seq<char> {
    "version"@ + " = \""@ + "0.1.0"@ + "\""@
}

/// A new pyproject.toml: the head `[project]`, the name line, the version
/// line, each ended by a line feed, and then the rest of the file.
proof fn lemma_pyproject_text(p: Seq<char>) -> (rest: Seq<char>)
    ensures
        crate::text::join(crate::commands::templates::pyproject_toml_pieces(), p)
            == "[project]"@ + seq!['\n'] + (name_line(p) + seq!['\n'] + (version_line() + seq!['\n'] + rest)),
{
    let pieces = crate::commands::templates::pyproject_toml_pieces();
    reveal_strlit("[project]\nname = \"");
    reveal_strlit("\"\nversion = \"0.1.0\"\n");
    reveal_strlit("[project]");
    reveal_strlit("name");
    reveal_strlit("version");
    reveal_strlit("0.1.0");
    reveal_strlit(" = \"");
    reveal_strlit("\"");
    lemma_join_head(pieces, p);
    let tail = choose|tail: Seq<char>| #[trigger] crate::text::join(pieces, p) == pieces[0] + p + pieces[1] + tail;
    let x0 = "[project]"@ + seq!['\n'] + "name"@ + " = \""@;
    let x1 = "\""@ + seq!['\n'] + version_line() + seq!['\n'] + crate::commands::templates::PYPROJECT_1@;
    assert(pieces[0] == crate::commands::templates::PYPROJECT_0@);
    assert(crate::commands::templates::PYPROJECT_0@ =~= x0);
    assert(pieces[1] == crate::commands::templates::PYPROJECT_VERSION@ + crate::commands::templates::PYPROJECT_1@);
    assert(crate::commands::templates::PYPROJECT_VERSION@ =~= "\""@ + seq!['\n'] + version_line() + seq!['\n']);
    assert(pieces[1] =~= x1);
    let rest = crate::commands::templates::PYPROJECT_1@ + tail;
    assert(x0 + p + x1 + tail =~= "[project]"@ + seq!['\n'] + (name_line(p) + seq!['\n'] + (version_line() + seq!['\n'] + rest)));
    rest
}

/// The first three lines of a new pyproject.toml.
proof fn lemma_pyproject_lines(p: Seq<char>) -> (later: Seq<Seq<char>>)
    requires
        forall|i: int| 0 <= i < p.len() ==> name_char(#[trigger] p[i]),
    ensures
        lines_of(crate::text::join(crate::commands::templates::pyproject_toml_pieces(), p))
            == seq!["[project]"@] + (seq![name_line(p)] + (seq![version_line()] + later)),
{
    reveal_strlit("[project]");
    reveal_strlit("name");
    reveal_strlit("version");
    reveal_strlit("0.1.0");
    reveal_strlit(" = \"");
    reveal_strlit("\"");
    let rest = lemma_pyproject_text(p);
    let head = "[project]"@;
    let text = crate::text::join(crate::commands::templates::pyproject_toml_pieces(), p);
    let s3 = version_line() + seq!['\n'] + rest;
    let s2 = name_line(p) + seq!['\n'] + s3;
    // first line
    assert(text.take(9) =~= head);
    lemma_lines_at(text, 9);
    assert(text.skip(10) =~= s2);
    assert(strip_cr(head) == head);
    // second line
    let line = name_line(p);
    let n = line.len() as int;
    assert forall|j: int| 0 <= j < n implies s2[j] != '\n' by {
        assert(s2[j] == line[j]);
        if 8 <= j < n - 1 {
            assert(line[j] == p[j - 8]);
            assert(name_char(p[j - 8]));
        }
    }
    lemma_lines_at(s2, n);
    assert(s2.take(n) =~= line);
    assert(s2.skip(n + 1) =~= s3);
    assert(line.last() == '"');
    assert(strip_cr(line) == line);
    // third line
    assert(version_line().len() == 17);
    lemma_lines_at(s3, 17);
    assert(s3.take(17) =~= version_line());
    assert(s3.skip(18) =~= rest);
    assert(strip_cr(version_line()) == version_line());
    lines_of(rest)
}

/// Reading `name` and `version` from a new project's pyproject.toml gives
/// back the package name and version 0.1.0, for every name without a line
/// feed, `=` or quote.
pub proof fn law_pyproject_round_trip(p: Seq<char>)
    requires
        forall|i: int| 0 <= i < p.len() ==> name_char(#[trigger] p[i]),
    ensures
        toml_value(crate::text::join(crate::commands::templates::pyproject_toml_pieces(), p), "name"@) == Some(p),
        toml_value(crate::text::join(crate::commands::templates::pyproject_toml_pieces(), p), "version"@)
            == Some("0.1.0"@),
{
    reveal_strlit("[project]");
    reveal_strlit("name");
    reveal_strlit("version");
    reveal_strlit("0.1.0");
    reveal_strlit(" = \"");
    reveal_strlit("\"");
    let head = "[project]"@;
    let name_key = "name"@;
    let version_key = "version"@;
    let version = "0.1.0"@;
    let later = lemma_pyproject_lines(p);
    // the key "name"
    lemma_value_in_lines_cons(head, seq![name_line(p)] + (seq![version_line()] + later), name_key);
    lemma_other_key(head, name_key);
    lemma_value_in_lines_cons(name_line(p), seq![version_line()] + later, name_key);
    lemma_quoted_value(name_key, p);
    // the key "version"
    lemma_value_in_lines_cons(head, seq![name_line(p)] + (seq![version_line()] + later), version_key);
    lemma_other_key(head, version_key);
    lemma_value_in_lines_cons(name_line(p), seq![version_line()] + later, version_key);
    assert(name_line(p)[0] == 'n');
    assert(name_line(p).last() == '"');
    lemma_other_key(name_line(p), version_key);
    lemma_value_in_lines_cons(version_line(), later, version_key);
    assert(version =~= seq!['0', '.', '1', '.', '0']);
    assert forall|i: int| 0 <= i < p.len() implies value_char(#[trigger] p[i]) by {
        assert(name_char(p[i]));
    }
    lemma_quoted_value(version_key, version);
}

/// The line `"""name - A Python package."""` that opens the header of `__init__.py`.
pub open spec fn docstring_line(name: Seq<char>) -> Seq<char> {
    "\"\"\""@ + name + " - A Python package.\"\"\""@
}

/// The line `__version__ = "version"` of the header of `__init__.py`.
pub open spec fn dunder_version_line(version: Seq<char>) -> Seq<char> {
    "__version__"@ + " = \""@ + version + "\""@
}

/// The first three lines of the header of `__init__.py`.
proof fn lemma_init_header_lines(name: Seq<char>, version: Seq<char>, build: Seq<char>) -> (later: Seq<Seq<char>>)
    requires
        forall|i: int| 0 <= i < name.len() ==> #[trigger] name[i] != '\n',
        forall|i: int| 0 <= i < version.len() ==> #[trigger] version[i] != '\n',
    ensures
        lines_of(init_py_header_text(name, version, build))
            == seq![docstring_line(name)] + (seq![Seq::<char>::empty()] + (seq![dunder_version_line(version)] + later)),
{
    reveal_strlit("\"\"\"");
    reveal_strlit(" - A Python package.\"\"\"\n\n__version__ = \"");
    reveal_strlit(" - A Python package.\"\"\"");
    reveal_strlit("\"\n__build__ = \"");
    reveal_strlit("__version__");
    reveal_strlit(" = \"");
    reveal_strlit("\"");
    let p1 = crate::commands::templates::INIT_PY_1@;
    let p2 = crate::commands::templates::INIT_PY_2@;
    assert(crate::commands::templates::INIT_PY_0@ =~= "\"\"\""@);
    assert(p1 =~= " - A Python package.\"\"\""@ + seq!['\n', '\n'] + "__version__"@ + " = \""@);
    assert(p2 =~= "\""@ + seq!['\n'] + p2.skip(2));
    let rest = p2.skip(2) + build + crate::commands::templates::INIT_PY_3@;
    let text = init_py_header_text(name, version, build);
    let l1 = docstring_line(name);
    let l3 = dunder_version_line(version);
    let s3 = l3 + seq!['\n'] + rest;
    let s2 = seq!['\n'] + s3;
    assert(text =~= l1 + seq!['\n'] + s2);
    // the docstring line
    let n1 = l1.len() as int;
    assert forall|j: int| 0 <= j < n1 implies text[j] != '\n' by {
        assert(text[j] == l1[j]);
        if 3 <= j < 3 + name.len() {
            assert(l1[j] == name[j - 3]);
        }
    }
    lemma_lines_at(text, n1);
    assert(text.take(n1) =~= l1);
    assert(text.skip(n1 + 1) =~= s2);
    assert(l1.last() == '"');
    assert(strip_cr(l1) == l1);
    // the empty line
    lemma_lines_at(s2, 0);
    assert(s2.take(0) =~= Seq::<char>::empty());
    assert(s2.skip(1) =~= s3);
    // the version line
    let n3 = l3.len() as int;
    assert forall|j: int| 0 <= j < n3 implies s3[j] != '\n' by {
        assert(s3[j] == l3[j]);
        if 15 <= j < 15 + version.len() {
            assert(l3[j] == version[j - 15]);
        }
    }
    lemma_lines_at(s3, n3);
    assert(s3.take(n3) =~= l3);
    assert(s3.skip(n3 + 1) =~= rest);
    assert(l3.last() == '"');
    assert(strip_cr(l3) == l3);
    lines_of(rest)
}

/// The header of `__init__.py` opens with the docstring line, then an empty
/// line, then `__version__ = "version"`; reading `__version__` from it line by
/// line gives the version back. This holds for project names without a line
/// feed and versions without a line feed, `=` or quote.
pub proof fn law_init_header_reads_back_version(name: Seq<char>, version: Seq<char>, build: Seq<char>)
    requires
        forall|i: int| 0 <= i < name.len() ==> #[trigger] name[i] != '\n',
        forall|i: int| 0 <= i < version.len() ==> name_char(#[trigger] version[i]),
    ensures
        lines_of(init_py_header_text(name, version, build)).len() >= 3,
        lines_of(init_py_header_text(name, version, build))[0] == docstring_line(name),
        lines_of(init_py_header_text(name, version, build))[2] == dunder_version_line(version),
        toml_value(init_py_header_text(name, version, build), "__version__"@) == Some(version),
{
    reveal_strlit("\"\"\"");
    reveal_strlit(" - A Python package.\"\"\"");
    reveal_strlit("__version__");
    reveal_strlit(" = \"");
    reveal_strlit("\"");
    assert forall|i: int| 0 <= i < version.len() implies #[trigger] version[i] != '\n' by {
        assert(name_char(version[i]));
    }
    let later = lemma_init_header_lines(name, version, build);
    let key = "__version__"@;
    let l1 = docstring_line(name);
    let empty = Seq::<char>::empty();
    let l3 = dunder_version_line(version);
    assert(lines_of(init_py_header_text(name, version, build))[2] == l3);
    lemma_value_in_lines_cons(l1, seq![empty] + (seq![l3] + later), key);
    assert(l1[0] == '"');
    assert(l1.last() == '"');
    lemma_other_key(l1, key);
    lemma_value_in_lines_cons(empty, seq![l3] + later, key);
    assert(strip_start(empty, Strip::Whitespace) == empty);
    assert(trim(empty) == empty);
    assert(key_line_value(empty, key) is None);
    lemma_value_in_lines_cons(l3, later, key);
    assert forall|i: int| 0 <= i < version.len() implies value_char(#[trigger] version[i]) by {
        assert(name_char(version[i]));
    }
    lemma_quoted_value(key, version);
}

proof fn lemma_sanitized_name_chars(name: Seq<char>)
    ensures
        forall|i: int| 0 <= i < sanitized(name).len() ==> name_char(#[trigger] sanitized(name)[i]),
{
    law_sanitized_chars(name);
    assert forall|i: int| 0 <= i < sanitized(name).len() implies name_char(#[trigger] sanitized(name)[i]) by {
        assert(package_char(sanitized(name)[i]));
    }
}

/// Reading `name` and `version` from the pyproject.toml of a new project
/// gives back the project's sanitized name and version 0.1.0, whatever name
/// the project was given.
pub proof fn law_new_project_reads_back(name: Seq<char>)
    ensures
        toml_value(crate::text::join(crate::commands::templates::pyproject_toml_pieces(), sanitized(name)), "name"@)
            == Some(sanitized(name)),
        toml_value(crate::text::join(crate::commands::templates::pyproject_toml_pieces(), sanitized(name)), "version"@)
            == Some("0.1.0"@),
{
    lemma_sanitized_name_chars(name);
    law_pyproject_round_trip(sanitized(name));
}

// ---------------------------------------------------------------------------
// Build stamps
// ---------------------------------------------------------------------------

/// The smaller of `a` and `b`.
pub open spec fn min_nat(a: nat, b: nat) -> nat {
    if a < b { a } else { b }
}

/// The build stamp `YYYYMMDDHHMMSS` for `secs` seconds after the Unix epoch,
/// with the calendar approximated by 365-day years and 30-day months (the
/// month capped at 12, the day at 31).
pub open spec fn build_timestamp(secs: nat) -> Seq<char> {
    let days = secs / 86400;
    let year = 1970 + days / 365;
    let remaining_days = days % 365;
    let month = remaining_days / 30 + 1;
    let day = remaining_days % 30 + 1;
    let day_secs = secs % 86400;
    zero_pad(decimal(year), 4) + zero_pad(decimal(min_nat(month, 12)), 2) + zero_pad(
        decimal(min_nat(day, 31)),
        2,
    ) + zero_pad(decimal(day_secs / 3600), 2) + zero_pad(decimal((day_secs % 3600) / 60), 2)
        + zero_pad(decimal(day_secs % 60), 2)
}

/// The build stamp for `secs` seconds after the Unix epoch.
pub fn format_build_timestamp(secs: u64) -> (r: String)
    ensures
        r@ == build_timestamp(secs as nat),
{
    let days = secs / 86400;
    let year = 1970 + days / 365;
    let remaining_days = days % 365;
    let month = remaining_days / 30 + 1;
    let day = remaining_days % 30 + 1;
    let day_secs = secs % 86400;
    let month = if month < 12 { month } else { 12 };
    let day = if day < 31 { day } else { 31 };
    let mut out: Vec<char> = Vec::new();
    push_padded_decimal(&mut out, year, 4);
    push_padded_decimal(&mut out, month, 2);
    push_padded_decimal(&mut out, day, 2);
    push_padded_decimal(&mut out, day_secs / 3600, 2);
    push_padded_decimal(&mut out, (day_secs % 3600) / 60, 2);
    push_padded_decimal(&mut out, day_secs % 60, 2);
    string_of(&out)
}

/// Lets the system clock's readings (`std::time::SystemTime`) pass through.
#[verifier::external_type_specification]
#[verifier::external_body]
pub struct ExSystemTime(std::time::SystemTime);

/// `SystemTime::now`: the clock's current reading. Nothing is claimed of it.
#[verifier::external_body]
fn system_now() -> std::time::SystemTime {
    std::time::SystemTime::now()
}

/// Lets the error of a clock reading before the epoch
/// (`std::time::SystemTimeError`) pass through.
#[verifier::external_type_specification]
#[verifier::external_body]
pub struct ExSystemTimeError(std::time::SystemTimeError);

/// `SystemTime::duration_since(UNIX_EPOCH)`: the time from the epoch to `t`,
/// or an error for a reading before the epoch. Nothing is claimed of either.
#[verifier::external_body]
fn duration_since_epoch(t: &std::time::SystemTime) -> Result<core::time::Duration, std::time::SystemTimeError> {
    t.duration_since(std::time::UNIX_EPOCH)
}

/// `Duration::as_secs`: the whole seconds of `d`. Nothing is claimed of the value.
#[verifier::external_body]
fn whole_secs(d: &core::time::Duration) -> u64 {
    d.as_secs()
}

/// The whole seconds from the epoch to `t`; zero (the default duration) for a
/// reading before the epoch.
fn secs_since_epoch(t: &std::time::SystemTime) -> u64 {
    match duration_since_epoch(t) {
        Ok(d) => whole_secs(&d),
        Err(_) => 0,
    }
}

/// Get current timestamp in a simple format (without external deps).
pub fn chrono_lite_now() -> (r: String)
    ensures
        exists|secs: nat| #[trigger] build_timestamp(secs) == r@,
{
    let now = system_now();
    let secs = secs_since_epoch(&now);
    let r = format_build_timestamp(secs);
    assert(build_timestamp(secs as nat) == r@);
    r
}

/// `10` to the power `k`.
pub open spec fn pow10(k: nat) -> nat
    decreases k,
{
    if k == 0 { 1 } else { 10 * pow10((k - 1) as nat) }
}

proof fn lemma_decimal_len(n: nat, k: nat)
    requires
        k >= 1,
        n < pow10(k),
    ensures
        decimal(n).len() <= k,
    decreases k,
{
    if n >= 10 {
        assert(k >= 2) by {
            if k == 1 {
                assert(pow10(1) == 10) by {
                    assert(pow10(0) == 1);
                }
            }
        }
        assert(n / 10 < pow10((k - 1) as nat)) by (nonlinear_arith)
            requires
                n < pow10(k),
                pow10(k) == 10 * pow10((k - 1) as nat),
        ;
        lemma_decimal_len(n / 10, (k - 1) as nat);
    }
}

proof fn lemma_padded_len(n: nat, k: nat)
    requires
        k >= 1,
        n < pow10(k),
    ensures
        zero_pad(decimal(n), k).len() == k,
{
    lemma_decimal_len(n, k);
}

/// Up to the year 9999 a build stamp has exactly 14 characters: four for the
/// year and two for each other field.
pub proof fn law_build_timestamp_width(secs: nat)
    requires
        secs < 8030 * 365 * 86400,
    ensures
        build_timestamp(secs).len() == 14,
{
    assert(pow10(2) == 100) by {
        assert(pow10(0) == 1);
        assert(pow10(1) == 10);
    }
    assert(pow10(4) == 10000) by {
        assert(pow10(3) == 1000) by {
            assert(pow10(0) == 1);
            assert(pow10(1) == 10);
            assert(pow10(2) == 100);
        }
    }
    let days = secs / 86400;
    assert(days / 365 < 8030) by (nonlinear_arith)
        requires
            secs < 8030 * 365 * 86400,
            days == secs / 86400,
    ;
    let remaining_days = days % 365;
    let day_secs = secs % 86400;
    lemma_padded_len(1970 + days / 365, 4);
    lemma_padded_len(min_nat(remaining_days / 30 + 1, 12), 2);
    lemma_padded_len(min_nat(remaining_days % 30 + 1, 31), 2);
    lemma_padded_len(day_secs / 3600, 2);
    lemma_padded_len((day_secs % 3600) / 60, 2);
    lemma_padded_len(day_secs % 60, 2);
}

// ---------------------------------------------------------------------------
// __init__.py
// ---------------------------------------------------------------------------

/// Generate the header portion of __init__.py, stamped with the current time.
pub fn generate_init_py_header(project_name: &str, version: &str) -> (r: String)
    ensures
        exists|secs: nat| r@ == init_py_header_text(project_name@, version@, #[trigger] build_timestamp(secs)),
{
    let build = chrono_lite_now();
    let ghost secs = choose|secs: nat| #[trigger] build_timestamp(secs) == build@;
    let r = init_py_header(project_name, version, build.as_str());
    assert(r@ == init_py_header_text(project_name@, version@, build_timestamp(secs)));
    r
}

/// The `__init__.py` of a new project: the header at version 0.1.0.
pub fn generate_init_py(project_name: &str) -> (r: String)
    ensures
        exists|secs: nat| r@ == init_py_header_text(project_name@, "0.1.0"@, #[trigger] build_timestamp(secs)),
{
    generate_init_py_header(project_name, "0.1.0")
}

/// The code that follows the managed header of `current`: whatever comes after
/// the line holding the first `__all__`, with a line feed before it, or nothing
/// when that is blank or there is no such line.
pub open spec fn custom_code(current: Seq<char>) -> Seq<char> {
    match find_text(current, "__all__"@) {
        None => Seq::empty(),
        Some(pos) => {
            let rest = current.skip(pos);
            let e = index_of(rest, '\n');
            if e >= rest.len() {
                Seq::empty()
            } else {
                let after = rest.skip(e + 1);
                if trim(after).len() == 0 {
                    Seq::empty()
                } else {
                    seq!['\n'] + after
                }
            }
        },
    }
}

/// The new `__init__.py`: the new header, then the custom code of the current one.
#[verifier::rlimit(30)]
pub fn updated_init_content(current: &str, new_header: &str) -> (r: String)
    ensures
        r@ == new_header@ + custom_code(current@),
{
    let cur = chars_of(current);
    let marker = chars_of("__all__");
    let mut out = chars_of(new_header);
    match find_text_exec(&cur, &marker) {
        None => {},
        Some(pos) => {
            let e = index_of_from(&cur, '\n', pos);
            assert(cur@.skip(pos as int).skip(0) =~= cur@.skip(pos as int));
            proof {
                lemma_index_of_bound(cur@.skip(pos as int), '\n');
            }
            if e < cur.len() {
                let after = slice_chars(&cur, e + 1, cur.len());
                assert(cur@.skip(pos as int).skip(e - pos + 1) =~= after@);
                let trimmed = strip_exec(&after, Strip::Whitespace);
                if trimmed.len() > 0 {
                    out.push('\n');
                    extend_chars(&mut out, &after);
                }
            }
        },
    }
    proof {
        let h = new_header@;
        let c = custom_code(current@);
        assert(out@ =~= h + c);
    }
    string_of(&out)
}

// ---------------------------------------------------------------------------
// Paths, files and steps
// ---------------------------------------------------------------------------

/// `base` joined with the relative `name` as `Path::join` does: no separator
/// after an empty base or one that ends with `/`.
pub open spec fn path_join(base: Seq<char>, name: Seq<char>) -> Seq<char> {
    if base.len() == 0 || base.last() == '/' {
        base + name
    } else {
        base + seq!['/'] + name
    }
}

/// `base` joined with the relative `name`.
pub fn path_join_exec(base: &str, name: &str) -> (r: String)
    ensures
        r@ == path_join(base@, name@),
{
    let mut out = chars_of(base);
    if out.len() > 0 && out[out.len() - 1] != '/' {
        out.push('/');
    }
    extend_str(&mut out, name);
    string_of(&out)
}

/// What to do about writing one file.
#[derive(Clone, Copy, Debug, PartialEq, Eq, Structural)]
pub enum WriteStep {
    /// Leave the file alone (overwriting it was not confirmed).
    Skip,
    /// Only say that the file would be created (dry run).
    Preview,
    /// Create parent directories and write the file.
    Write,
}

/// An existing file is overwritten only after confirmation, unless every
/// prompt is answered yes in advance.
pub fn needs_confirmation(exists: bool, yes: bool) -> (r: bool)
    ensures
        r == (exists && !yes),
{
    exists && !yes
}

/// An answer to an overwrite prompt agrees when, trimmed and lower-cased, it
/// is `y` or `yes`.
pub open spec fn agrees(answer: Seq<char>) -> bool {
    lowercase(trim(answer)) == "y"@ || lowercase(trim(answer)) == "yes"@
}

/// Whether `answer`, typed at an overwrite prompt, allows the overwrite.
pub fn answer_agrees(answer: &str) -> (r: bool)
    ensures
        r == agrees(answer@),
{
    let chars = chars_of(answer);
    let trimmed = string_of(&strip_exec(&chars, Strip::Whitespace));
    let lower = to_lowercase(&trimmed);
    same_text(&lower, "y") || same_text(&lower, "yes")
}

/// What `write_file` does: nothing without confirmation, only a message in a
/// dry run, else the write.
pub open spec fn write_step_of(confirmed: bool, dry_run: bool) -> WriteStep {
    if !confirmed {
        WriteStep::Skip
    } else if dry_run {
        WriteStep::Preview
    } else {
        WriteStep::Write
    }
}

/// What `write_file` does, given whether overwriting was confirmed.
pub fn write_step(confirmed: bool, dry_run: bool) -> (s: WriteStep)
    ensures
        s == write_step_of(confirmed, dry_run),
{
    if !confirmed {
        WriteStep::Skip
    } else if dry_run {
        WriteStep::Preview
    } else {
        WriteStep::Write
    }
}

/// A dry run writes no file, and no file is written without confirmation.
pub proof fn law_no_unwanted_writes(confirmed: bool, dry_run: bool)
    ensures
        dry_run ==> write_step_of(confirmed, dry_run) != WriteStep::Write,
        write_step_of(confirmed, dry_run) == WriteStep::Write ==> confirmed,
{
}

/// One step of `python init`, in the view that contracts speak of.
pub enum StepView {
    MakeDir(Seq<char>),
    WriteFile(Seq<char>, Seq<char>),
}

/// One step of `python init`.
pub enum ProjectStep {
    /// Create a directory and its parents, ignoring failure (never in a dry run).
    MakeDir(String),
    /// Write a file through `write_file`.
    WriteFile { path: String, content: String },
}

impl ProjectStep {
    /// The step with its strings as character sequences.
    pub open spec fn view(self) -> StepView {
        match self {
            ProjectStep::MakeDir(p) => StepView::MakeDir(p@),
            ProjectStep::WriteFile { path, content } => StepView::WriteFile(path@, content@),
        }
    }
}

/// Whether `python init` ends after `step` was carried out with the given
/// outcome: a failed write does; a directory that could not be made does not
/// (the write into it reports the failure), and a file left alone because
/// overwriting it was not confirmed counts as done.
pub open spec fn init_stops(step: StepView, succeeded: bool) -> bool {
    !succeeded && step is WriteFile
}

/// Whether `python init` ends after `step` was carried out with the given outcome.
pub fn init_step_stops(step: &ProjectStep, succeeded: bool) -> (stop: bool)
    ensures
        stop == init_stops(step.view(), succeeded),
{
    if succeeded {
        false
    } else {
        match step {
            ProjectStep::MakeDir(_) => false,
            ProjectStep::WriteFile { .. } => true,
        }
    }
}

/// What `python sync-version` does once the new `__init__.py` is known:
/// whether it writes it, and the message that reports it.
pub struct SyncOutcome {
    /// The file is written (not in a dry run).
    pub write: bool,
    /// "Would update ..." in a dry run, else "Updated ...".
    pub message: String,
}

/// The message that reports syncing `init_path` to `version`.
pub open spec fn sync_message(dry_run: bool, init_path: Seq<char>, version: Seq<char>) -> Seq<char> {
    if dry_run {
        "Would update "@ + init_path + " to version "@ + version
    } else {
        "Updated "@ + init_path + " to version "@ + version
    }
}

/// A dry run only reports the update; otherwise the file is written and the
/// update reported.
pub fn sync_outcome(dry_run: bool, init_path: &str, version: &str) -> (r: SyncOutcome)
    ensures
        r.write == !dry_run,
        r.message@ == sync_message(dry_run, init_path@, version@),
{
    let mut out: Vec<char> = Vec::new();
    if dry_run {
        extend_str(&mut out, "Would update ");
    } else {
        extend_str(&mut out, "Updated ");
    }
    extend_str(&mut out, init_path);
    extend_str(&mut out, " to version ");
    extend_str(&mut out, version);
    SyncOutcome { write: !dry_run, message: string_of(&out) }
}

/// Creating directory `path`, which a dry run leaves out.
pub open spec fn make_dir(dry_run: bool, path: Seq<char>) -> Seq<StepView> {
    if dry_run {
        Seq::empty()
    } else {
        seq![StepView::MakeDir(path)]
    }
}

/// The steps of `python init` for the (sanitized) project name, in order,
/// with `build` as the build stamp of the package's `__init__.py`; a dry run
/// creates no directory and only previews the files.
pub open spec fn init_project_steps(name: Seq<char>, no_tests: bool, no_devcontainer: bool, build: Seq<char>, dry_run: bool) -> Seq<StepView> {
    let tests = path_join(name, "tests"@);
    let dc = ".devcontainer"@;
    seq![
        StepView::WriteFile("pyproject.toml"@, crate::text::join(crate::commands::templates::pyproject_toml_pieces(), name)),
        StepView::WriteFile("README.md"@, crate::text::join(crate::commands::templates::readme_pieces(), name)),
        StepView::WriteFile(".pre-commit-config.yaml"@, PRECOMMIT_CONFIG@),
        StepView::WriteFile(".gitignore"@, GITIGNORE@),
        StepView::WriteFile("Taskfile.yml"@, crate::text::join(crate::commands::templates::taskfile_pieces(), name)),
    ] + make_dir(dry_run, name) + seq![
        StepView::WriteFile(path_join(name, "__init__.py"@), init_py_header_text(name, "0.1.0"@, build)),
        StepView::WriteFile(path_join(name, "py.typed"@), Seq::empty()),
    ] + (if no_tests {
        Seq::empty()
    } else {
        make_dir(dry_run, tests) + seq![
            StepView::WriteFile(path_join(tests, "__init__.py"@), Seq::empty()),
            StepView::WriteFile(path_join(tests, "test_version.py"@), crate::text::join(crate::commands::templates::test_version_pieces(), name)),
        ]
    }) + (if no_devcontainer {
        Seq::empty()
    } else {
        make_dir(dry_run, dc) + seq![
            StepView::WriteFile(path_join(dc, "devcontainer.json"@), crate::text::join(crate::commands::templates::devcontainer_pieces(), name)),
            StepView::WriteFile(path_join(dc, "Dockerfile"@), DEVCONTAINER_DOCKERFILE@),
        ]
    }) + seq![
        StepView::WriteFile("Dockerfile"@, crate::text::join(crate::commands::templates::dockerfile_pieces(), name)),
        StepView::WriteFile("docker-compose.yml"@, crate::commands::templates::DOCKER_COMPOSE_0@),
    ]
}

/// The step views of `steps`.
pub open spec fn step_views(steps: Seq<ProjectStep>) -> Seq<StepView> {
    steps.map_values(|s: ProjectStep| s.view())
}

/// The path that a step of `python init` creates or writes.
pub open spec fn step_path(s: StepView) -> Seq<char> {
    match s {
        StepView::MakeDir(p) => p,
        StepView::WriteFile(p, _) => p,
    }
}

/// A project name with no `/` and no `.` (every sanitized name is one).
pub open spec fn plain_name(name: Seq<char>) -> bool {
    forall|i: int| 0 <= i < name.len() ==> #[trigger] name[i] != '/' && name[i] != '.'
}

/// `p` holds no `/`.
pub open spec fn no_slash(p: Seq<char>) -> bool {
    forall|i: int| 0 <= i < p.len() ==> #[trigger] p[i] != '/'
}

/// `ok` holds of every step of `steps`.
pub open spec fn all_steps(steps: Seq<StepView>, ok: spec_fn(StepView) -> bool) -> bool {
    forall|i: int| 0 <= i < steps.len() ==> ok(#[trigger] steps[i])
}

proof fn lemma_all_steps_concat(a: Seq<StepView>, b: Seq<StepView>, ok: spec_fn(StepView) -> bool)
    requires
        all_steps(a, ok),
        all_steps(b, ok),
    ensures
        all_steps(a + b, ok),
{
    assert forall|i: int| 0 <= i < (a + b).len() implies ok(#[trigger] (a + b)[i]) by {
        if i < a.len() {
            assert((a + b)[i] == a[i]);
        } else {
            assert((a + b)[i] == b[i - a.len()]);
        }
    }
}

/// A text that differs from `q` at position `k` (or ends before it) does not start with `q`.
proof fn lemma_not_prefix_at(p: Seq<char>, q: Seq<char>, k: int)
    requires
        0 <= k < q.len(),
        k >= p.len() || p[k] != q[k],
    ensures
        !has_prefix(p, q),
{
    if has_prefix(p, q) {
        assert(p.take(q.len() as int)[k] == p[k]);
    }
}

/// The tests directory of the project `name`.
proof fn lemma_tests_dir(name: Seq<char>)
    requires
        plain_name(name),
    ensures
        name.len() == 0 ==> path_join(name, "tests"@) == "tests"@,
        name.len() > 0 ==> path_join(name, "tests"@) == name + seq!['/'] + "tests"@,
{
    if name.len() > 0 {
        assert(name.last() == name[name.len() - 1]);
    }
}

/// A path without `/` that does not begin with `t` lies outside the tests directory.
proof fn lemma_literal_outside_tests(p: Seq<char>, name: Seq<char>)
    requires
        plain_name(name),
        no_slash(p),
        p.len() > 0,
        p[0] != 't',
    ensures
        !has_prefix(p, path_join(name, "tests"@)),
{
    reveal_strlit("tests");
    lemma_tests_dir(name);
    let q = path_join(name, "tests"@);
    if name.len() == 0 {
        lemma_not_prefix_at(p, q, 0);
    } else {
        assert(q[name.len() as int] == '/');
        lemma_not_prefix_at(p, q, name.len() as int);
    }
}

/// A path that begins with `.` lies outside the tests directory.
proof fn lemma_dot_outside_tests(p: Seq<char>, name: Seq<char>)
    requires
        plain_name(name),
        p.len() > 0,
        p[0] == '.',
    ensures
        !has_prefix(p, path_join(name, "tests"@)),
{
    reveal_strlit("tests");
    lemma_tests_dir(name);
    let q = path_join(name, "tests"@);
    if name.len() > 0 {
        assert(q[0] == name[0]);
    }
    lemma_not_prefix_at(p, q, 0);
}

/// The files of the project directory, and the directory itself, lie outside
/// its tests directory.
proof fn lemma_package_outside_tests(name: Seq<char>, file: Seq<char>)
    requires
        plain_name(name),
        no_slash(file),
        file.len() > 0,
        file[0] != 't',
    ensures
        !has_prefix(path_join(name, file), path_join(name, "tests"@)),
        !has_prefix(name, path_join(name, "tests"@)),
{
    reveal_strlit("tests");
    lemma_tests_dir(name);
    let q = path_join(name, "tests"@);
    if name.len() == 0 {
        lemma_literal_outside_tests(file, name);
        lemma_not_prefix_at(name, q, 0);
    } else {
        assert(name.last() == name[name.len() - 1]);
        let p = path_join(name, file);
        assert(p == name + seq!['/'] + file);
        assert(p[name.len() as int + 1] == file[0]);
        assert(q[name.len() as int + 1] == 't');
        lemma_not_prefix_at(p, q, name.len() as int + 1);
        lemma_not_prefix_at(name, q, name.len() as int);
    }
}

/// A path that is empty or does not begin with `.` lies outside `.devcontainer`.
proof fn lemma_outside_devcontainer(p: Seq<char>)
    requires
        p.len() == 0 || p[0] != '.',
    ensures
        !has_prefix(p, ".devcontainer"@),
{
    reveal_strlit(".devcontainer");
    lemma_not_prefix_at(p, ".devcontainer"@, 0);
}

/// A path under the project directory, or the directory itself, lies outside `.devcontainer`.
proof fn lemma_package_outside_devcontainer(name: Seq<char>, file: Seq<char>)
    requires
        plain_name(name),
        file.len() > 0,
        file[0] != '.',
    ensures
        !has_prefix(path_join(name, file), ".devcontainer"@),
        !has_prefix(name, ".devcontainer"@),
{
    if name.len() > 0 {
        assert(name.last() == name[name.len() - 1]);
        assert(path_join(name, file)[0] == name[0]);
    } else {
        assert(path_join(name, file) == file);
    }
    lemma_outside_devcontainer(path_join(name, file));
    lemma_outside_devcontainer(name);
}

/// The flags of `python init` act on their own files: without tests no step
/// lies under the package's `tests` directory, and with tests the plan writes
/// `tests/test_version.py` there; without a dev container no step lies under
/// `.devcontainer`, and with one the plan writes
/// `.devcontainer/devcontainer.json` and `.devcontainer/Dockerfile`. Stated
/// for project names without `/` or `.`, which every sanitized name is.
pub proof fn law_init_flags(name: Seq<char>, no_tests: bool, no_devcontainer: bool, build: Seq<char>, dry_run: bool)
    requires
        plain_name(name),
    ensures
        no_tests ==> forall|i: int| 0 <= i < init_project_steps(name, no_tests, no_devcontainer, build, dry_run).len()
            ==> !has_prefix(step_path(#[trigger] init_project_steps(name, no_tests, no_devcontainer, build, dry_run)[i]),
            path_join(name, "tests"@)),
        !no_tests ==> exists|i: int| 0 <= i < init_project_steps(name, no_tests, no_devcontainer, build, dry_run).len()
            && init_project_steps(name, no_tests, no_devcontainer, build, dry_run)[i] is WriteFile
            && step_path(#[trigger] init_project_steps(name, no_tests, no_devcontainer, build, dry_run)[i])
            == path_join(path_join(name, "tests"@), "test_version.py"@),
        no_devcontainer ==> forall|i: int| 0 <= i < init_project_steps(name, no_tests, no_devcontainer, build, dry_run).len()
            ==> !has_prefix(step_path(#[trigger] init_project_steps(name, no_tests, no_devcontainer, build, dry_run)[i]),
            ".devcontainer"@),
        !no_devcontainer ==> exists|i: int| 0 <= i < init_project_steps(name, no_tests, no_devcontainer, build, dry_run).len()
            && init_project_steps(name, no_tests, no_devcontainer, build, dry_run)[i] is WriteFile
            && step_path(#[trigger] init_project_steps(name, no_tests, no_devcontainer, build, dry_run)[i])
            == ".devcontainer/devcontainer.json"@,
        !no_devcontainer ==> exists|i: int| 0 <= i < init_project_steps(name, no_tests, no_devcontainer, build, dry_run).len()
            && init_project_steps(name, no_tests, no_devcontainer, build, dry_run)[i] is WriteFile
            && step_path(#[trigger] init_project_steps(name, no_tests, no_devcontainer, build, dry_run)[i])
            == ".devcontainer/Dockerfile"@,
{
    law_init_tests_flag(name, no_tests, no_devcontainer, build, dry_run);
    law_init_devcontainer_flag(name, no_tests, no_devcontainer, build, dry_run);
}

/// Every sanitized name is a plain name: it holds no `/` and no `.`, so the
/// flags law of `python init` applies to every project that `init` creates.
pub proof fn law_sanitized_names_are_plain(raw: Seq<char>)
    ensures
        plain_name(sanitized(raw)),
{
    law_sanitized_chars(raw);
    assert forall|i: int| 0 <= i < sanitized(raw).len() implies #[trigger] sanitized(raw)[i] != '/'
        && sanitized(raw)[i] != '.' by {
        assert(package_char(sanitized(raw)[i]));
    }
}

proof fn law_init_tests_flag(name: Seq<char>, no_tests: bool, no_devcontainer: bool, build: Seq<char>, dry_run: bool)
    requires
        plain_name(name),
    ensures
        no_tests ==> forall|i: int| 0 <= i < init_project_steps(name, no_tests, no_devcontainer, build, dry_run).len()
            ==> !has_prefix(step_path(#[trigger] init_project_steps(name, no_tests, no_devcontainer, build, dry_run)[i]),
            path_join(name, "tests"@)),
        !no_tests ==> exists|i: int| 0 <= i < init_project_steps(name, no_tests, no_devcontainer, build, dry_run).len()
            && init_project_steps(name, no_tests, no_devcontainer, build, dry_run)[i] is WriteFile
            && step_path(#[trigger] init_project_steps(name, no_tests, no_devcontainer, build, dry_run)[i])
            == path_join(path_join(name, "tests"@), "test_version.py"@),
{
    reveal_strlit("pyproject.toml");
    reveal_strlit("README.md");
    reveal_strlit(".pre-commit-config.yaml");
    reveal_strlit(".gitignore");
    reveal_strlit("Taskfile.yml");
    reveal_strlit("__init__.py");
    reveal_strlit("py.typed");
    reveal_strlit(".devcontainer");
    reveal_strlit("Dockerfile");
    reveal_strlit("docker-compose.yml");
    let plan = init_project_steps(name, no_tests, no_devcontainer, build, dry_run);
    let t = path_join(name, "tests"@);
    let dc = ".devcontainer"@;
    let a = seq![
        StepView::WriteFile("pyproject.toml"@, crate::text::join(crate::commands::templates::pyproject_toml_pieces(), name)),
        StepView::WriteFile("README.md"@, crate::text::join(crate::commands::templates::readme_pieces(), name)),
        StepView::WriteFile(".pre-commit-config.yaml"@, PRECOMMIT_CONFIG@),
        StepView::WriteFile(".gitignore"@, GITIGNORE@),
        StepView::WriteFile("Taskfile.yml"@, crate::text::join(crate::commands::templates::taskfile_pieces(), name)),
    ];
    let m = make_dir(dry_run, name);
    let b = seq![
        StepView::WriteFile(path_join(name, "__init__.py"@), init_py_header_text(name, "0.1.0"@, build)),
        StepView::WriteFile(path_join(name, "py.typed"@), Seq::empty()),
    ];
    let tv = StepView::WriteFile(path_join(t, "test_version.py"@), crate::text::join(crate::commands::templates::test_version_pieces(), name));
    let ts = if no_tests {
        Seq::empty()
    } else {
        make_dir(dry_run, t) + seq![StepView::WriteFile(path_join(t, "__init__.py"@), Seq::empty()), tv]
    };
    let d = if no_devcontainer {
        Seq::empty()
    } else {
        make_dir(dry_run, dc) + seq![
            StepView::WriteFile(path_join(dc, "devcontainer.json"@), crate::text::join(crate::commands::templates::devcontainer_pieces(), name)),
            StepView::WriteFile(path_join(dc, "Dockerfile"@), DEVCONTAINER_DOCKERFILE@),
        ]
    };
    let e = seq![
        StepView::WriteFile("Dockerfile"@, crate::text::join(crate::commands::templates::dockerfile_pieces(), name)),
        StepView::WriteFile("docker-compose.yml"@, crate::commands::templates::DOCKER_COMPOSE_0@),
    ];
    assert(plan == a + m + b + ts + d + e);
    if no_tests {
        let ok = |x: StepView| !has_prefix(step_path(x), t);
        assert(no_slash("pyproject.toml"@));
        assert(no_slash("README.md"@));
        assert(no_slash("Taskfile.yml"@));
        assert(no_slash("Dockerfile"@));
        assert(no_slash("docker-compose.yml"@));
        lemma_literal_outside_tests("pyproject.toml"@, name);
        lemma_literal_outside_tests("README.md"@, name);
        lemma_dot_outside_tests(".pre-commit-config.yaml"@, name);
        lemma_dot_outside_tests(".gitignore"@, name);
        lemma_literal_outside_tests("Taskfile.yml"@, name);
        lemma_literal_outside_tests("Dockerfile"@, name);
        lemma_literal_outside_tests("docker-compose.yml"@, name);
        assert(no_slash("__init__.py"@));
        assert(no_slash("py.typed"@));
        lemma_package_outside_tests(name, "__init__.py"@);
        lemma_package_outside_tests(name, "py.typed"@);
        assert(all_steps(a, ok));
        assert(all_steps(m, ok));
        assert(all_steps(b, ok));
        assert(all_steps(ts, ok));
        if !no_devcontainer {
            assert(path_join(dc, "devcontainer.json"@)[0] == '.');
            assert(path_join(dc, "Dockerfile"@)[0] == '.');
            lemma_dot_outside_tests(dc, name);
            lemma_dot_outside_tests(path_join(dc, "devcontainer.json"@), name);
            lemma_dot_outside_tests(path_join(dc, "Dockerfile"@), name);
        }
        assert(all_steps(d, ok));
        assert(all_steps(e, ok));
        lemma_all_steps_concat(a, m, ok);
        lemma_all_steps_concat(a + m, b, ok);
        lemma_all_steps_concat(a + m + b, ts, ok);
        lemma_all_steps_concat(a + m + b + ts, d, ok);
        lemma_all_steps_concat(a + m + b + ts + d, e, ok);
        assert forall|i: int| 0 <= i < plan.len() implies !has_prefix(step_path(#[trigger] plan[i]), t) by {
            assert(ok(plan[i]));
        }
    } else {
        let k: int = (a.len() + m.len() + b.len() + make_dir(dry_run, t).len() + 1) as int;
        assert(plan[k] == tv);
        assert(step_path(plan[k]) == path_join(t, "test_version.py"@));
    }
}

proof fn law_init_devcontainer_flag(name: Seq<char>, no_tests: bool, no_devcontainer: bool, build: Seq<char>, dry_run: bool)
    requires
        plain_name(name),
    ensures
        no_devcontainer ==> forall|i: int| 0 <= i < init_project_steps(name, no_tests, no_devcontainer, build, dry_run).len()
            ==> !has_prefix(step_path(#[trigger] init_project_steps(name, no_tests, no_devcontainer, build, dry_run)[i]),
            ".devcontainer"@),
        !no_devcontainer ==> exists|i: int| 0 <= i < init_project_steps(name, no_tests, no_devcontainer, build, dry_run).len()
            && init_project_steps(name, no_tests, no_devcontainer, build, dry_run)[i] is WriteFile
            && step_path(#[trigger] init_project_steps(name, no_tests, no_devcontainer, build, dry_run)[i])
            == ".devcontainer/devcontainer.json"@,
        !no_devcontainer ==> exists|i: int| 0 <= i < init_project_steps(name, no_tests, no_devcontainer, build, dry_run).len()
            && init_project_steps(name, no_tests, no_devcontainer, build, dry_run)[i] is WriteFile
            && step_path(#[trigger] init_project_steps(name, no_tests, no_devcontainer, build, dry_run)[i])
            == ".devcontainer/Dockerfile"@,
{
    reveal_strlit("pyproject.toml");
    reveal_strlit("README.md");
    reveal_strlit(".pre-commit-config.yaml");
    reveal_strlit(".gitignore");
    reveal_strlit("Taskfile.yml");
    reveal_strlit("__init__.py");
    reveal_strlit("py.typed");
    reveal_strlit("tests");
    reveal_strlit("test_version.py");
    reveal_strlit(".devcontainer");
    reveal_strlit("devcontainer.json");
    reveal_strlit(".devcontainer/devcontainer.json");
    reveal_strlit(".devcontainer/Dockerfile");
    reveal_strlit("Dockerfile");
    reveal_strlit("docker-compose.yml");
    let plan = init_project_steps(name, no_tests, no_devcontainer, build, dry_run);
    let t = path_join(name, "tests"@);
    let dc = ".devcontainer"@;
    let a = seq![
        StepView::WriteFile("pyproject.toml"@, crate::text::join(crate::commands::templates::pyproject_toml_pieces(), name)),
        StepView::WriteFile("README.md"@, crate::text::join(crate::commands::templates::readme_pieces(), name)),
        StepView::WriteFile(".pre-commit-config.yaml"@, PRECOMMIT_CONFIG@),
        StepView::WriteFile(".gitignore"@, GITIGNORE@),
        StepView::WriteFile("Taskfile.yml"@, crate::text::join(crate::commands::templates::taskfile_pieces(), name)),
    ];
    let m = make_dir(dry_run, name);
    let b = seq![
        StepView::WriteFile(path_join(name, "__init__.py"@), init_py_header_text(name, "0.1.0"@, build)),
        StepView::WriteFile(path_join(name, "py.typed"@), Seq::empty()),
    ];
    let ts = if no_tests {
        Seq::empty()
    } else {
        make_dir(dry_run, t) + seq![
            StepView::WriteFile(path_join(t, "__init__.py"@), Seq::empty()),
            StepView::WriteFile(path_join(t, "test_version.py"@), crate::text::join(crate::commands::templates::test_version_pieces(), name)),
        ]
    };
    let dj = StepView::WriteFile(path_join(dc, "devcontainer.json"@), crate::text::join(crate::commands::templates::devcontainer_pieces(), name));
    let dd = StepView::WriteFile(path_join(dc, "Dockerfile"@), DEVCONTAINER_DOCKERFILE@);
    let d = if no_devcontainer {
        Seq::empty()
    } else {
        make_dir(dry_run, dc) + seq![dj, dd]
    };
    let e = seq![
        StepView::WriteFile("Dockerfile"@, crate::text::join(crate::commands::templates::dockerfile_pieces(), name)),
        StepView::WriteFile("docker-compose.yml"@, crate::commands::templates::DOCKER_COMPOSE_0@),
    ];
    assert(plan == a + m + b + ts + d + e);
    if no_devcontainer {
        let ok = |x: StepView| !has_prefix(step_path(x), dc);
        lemma_outside_devcontainer("pyproject.toml"@);
        lemma_outside_devcontainer("README.md"@);
        lemma_not_prefix_at(".pre-commit-config.yaml"@, dc, 1);
        lemma_not_prefix_at(".gitignore"@, dc, 1);
        lemma_outside_devcontainer("Taskfile.yml"@);
        lemma_outside_devcontainer("Dockerfile"@);
        lemma_outside_devcontainer("docker-compose.yml"@);
        lemma_package_outside_devcontainer(name, "__init__.py"@);
        lemma_package_outside_devcontainer(name, "py.typed"@);
        lemma_package_outside_devcontainer(name, "tests"@);
        assert(all_steps(a, ok));
        assert(all_steps(m, ok));
        assert(all_steps(b, ok));
        if !no_tests {
            lemma_tests_dir(name);
            if name.len() > 0 {
                assert(t[0] == name[0]);
                assert(path_join(t, "__init__.py"@)[0] == name[0]);
                assert(path_join(t, "test_version.py"@)[0] == name[0]);
            } else {
                assert(path_join(t, "__init__.py"@)[0] == 't');
                assert(path_join(t, "test_version.py"@)[0] == 't');
            }
            lemma_outside_devcontainer(path_join(t, "__init__.py"@));
            lemma_outside_devcontainer(path_join(t, "test_version.py"@));
        }
        assert(all_steps(ts, ok));
        assert(all_steps(d, ok));
        assert(all_steps(e, ok));
        lemma_all_steps_concat(a, m, ok);
        lemma_all_steps_concat(a + m, b, ok);
        lemma_all_steps_concat(a + m + b, ts, ok);
        lemma_all_steps_concat(a + m + b + ts, d, ok);
        lemma_all_steps_concat(a + m + b + ts + d, e, ok);
        assert forall|i: int| 0 <= i < plan.len() implies !has_prefix(step_path(#[trigger] plan[i]), dc) by {
            assert(ok(plan[i]));
        }
    } else {
        assert(path_join(dc, "devcontainer.json"@) =~= ".devcontainer/devcontainer.json"@);
        assert(path_join(dc, "Dockerfile"@) =~= ".devcontainer/Dockerfile"@);
        let k: int = (a.len() + m.len() + b.len() + ts.len() + make_dir(dry_run, dc).len()) as int;
        assert(plan[k] == dj);
        assert(plan[k + 1] == dd);
        assert(step_path(plan[k]) == ".devcontainer/devcontainer.json"@);
        assert(step_path(plan[k + 1]) == ".devcontainer/Dockerfile"@);
    }
}

fn file_step(path: String, content: String) -> (s: ProjectStep)
    ensures
        s.view() == StepView::WriteFile(path@, content@),
{
    ProjectStep::WriteFile { path, content }
}

fn push_file(steps: &mut Vec<ProjectStep>, path: String, content: String)
    ensures
        step_views(final(steps)@) == step_views(old(steps)@) + seq![StepView::WriteFile(path@, content@)],
{
    let ghost before = steps@;
    steps.push(file_step(path, content));
    assert(step_views(steps@) =~= step_views(before) + seq![StepView::WriteFile(path@, content@)]);
}

fn push_dir(steps: &mut Vec<ProjectStep>, dry_run: bool, path: String)
    ensures
        step_views(final(steps)@) == step_views(old(steps)@) + make_dir(dry_run, path@),
{
    let ghost before = steps@;
    if !dry_run {
        steps.push(ProjectStep::MakeDir(path));
    }
    assert(step_views(steps@) =~= step_views(before) + make_dir(dry_run, path@));
}

/// The files and directories that `python init` creates, in order; in a dry
/// run no directory is created.
pub fn init_project_plan(project_name: &str, no_tests: bool, no_devcontainer: bool, build: &str, dry_run: bool) -> (steps: Vec<ProjectStep>)
    ensures
        step_views(steps@) == init_project_steps(project_name@, no_tests, no_devcontainer, build@, dry_run),
        dry_run ==> forall|i: int| 0 <= i < steps@.len() ==> !(#[trigger] steps@[i] is MakeDir),
{
    let mut steps: Vec<ProjectStep> = Vec::new();
    push_file(&mut steps, text_of("pyproject.toml"), generate_pyproject_toml(project_name));
    push_file(&mut steps, text_of("README.md"), generate_readme(project_name));
    push_file(&mut steps, text_of(".pre-commit-config.yaml"), text_of(PRECOMMIT_CONFIG));
    push_file(&mut steps, text_of(".gitignore"), text_of(GITIGNORE));
    push_file(&mut steps, text_of("Taskfile.yml"), generate_taskfile(project_name));
    push_dir(&mut steps, dry_run, text_of(project_name));
    push_file(&mut steps, path_join_exec(project_name, "__init__.py"), init_py_header(project_name, "0.1.0", build));
    push_file(&mut steps, path_join_exec(project_name, "py.typed"), String::new());
    let ghost first = step_views(steps@);
    if !no_tests {
        let tests = path_join_exec(project_name, "tests");
        push_dir(&mut steps, dry_run, path_join_exec(project_name, "tests"));
        push_file(&mut steps, path_join_exec(tests.as_str(), "__init__.py"), String::new());
        push_file(&mut steps, path_join_exec(tests.as_str(), "test_version.py"), generate_test_version(project_name));
    }
    let ghost second = step_views(steps@);
    if !no_devcontainer {
        push_dir(&mut steps, dry_run, text_of(".devcontainer"));
        push_file(&mut steps, path_join_exec(".devcontainer", "devcontainer.json"), generate_devcontainer(project_name));
        push_file(&mut steps, path_join_exec(".devcontainer", "Dockerfile"), text_of(DEVCONTAINER_DOCKERFILE));
    }
    let ghost third = step_views(steps@);
    push_file(&mut steps, text_of("Dockerfile"), generate_dockerfile(project_name));
    push_file(&mut steps, text_of("docker-compose.yml"), generate_docker_compose(project_name));
    assert(step_views(steps@) =~= init_project_steps(project_name@, no_tests, no_devcontainer, build@, dry_run));
    proof {
        if dry_run {
            assert forall|i: int| 0 <= i < steps@.len() implies !(#[trigger] steps@[i] is MakeDir) by {
                assert(step_views(steps@)[i] == steps@[i].view());
            }
        }
    }
    steps
}

// ---------------------------------------------------------------------------
// sync-version
// ---------------------------------------------------------------------------

/// What `python sync-version` updates.
pub struct SyncPlan {
    /// Sanitized name of the package.
    pub package: String,
    /// Version found in pyproject.toml.
    pub version: String,
    /// Path of the package's `__init__.py`.
    pub init_path: String,
}

/// The package, version and `__init__.py` path that `pyproject` calls for;
/// an error naming the first of version and name that it lacks.
pub fn sync_version_plan(pyproject: &str) -> (r: Result<SyncPlan, RsbuildError>)
    ensures
        toml_value(pyproject@, "version"@) is None ==> (r matches Err(RsbuildError::ExecutionFailed(m))
            && m@ == "Cannot find version in pyproject.toml"@),
        toml_value(pyproject@, "version"@) is Some && toml_value(pyproject@, "name"@) is None ==> (
        r matches Err(RsbuildError::ExecutionFailed(m)) && m@ == "Cannot find name in pyproject.toml"@),
        toml_value(pyproject@, "version"@) is Some && toml_value(pyproject@, "name"@) is Some ==> (
        r matches Ok(p) && p.version@ == toml_value(pyproject@, "version"@)->0
            && p.package@ == sanitized(toml_value(pyproject@, "name"@)->0)
            && p.init_path@ == path_join(p.package@, "__init__.py"@)),
{
    let version = match extract_toml_value(pyproject, "version") {
        Some(v) => v,
        None => {
            return Err(RsbuildError::ExecutionFailed(text_of("Cannot find version in pyproject.toml")));
        },
    };
    let name = match extract_toml_value(pyproject, "name") {
        Some(n) => n,
        None => {
            return Err(RsbuildError::ExecutionFailed(text_of("Cannot find name in pyproject.toml")));
        },
    };
    let package = sanitize_package_name(name.as_str());
    let init_path = path_join_exec(package.as_str(), "__init__.py");
    Ok(SyncPlan { package, version, init_path })
}

} // verus!
