//! JSON text for request bodies.
//!
//! Request bodies are JSON objects whose members are strings, unsigned
//! numbers or nested objects.  `JsonView` is the mathematical model of such
//! a document and `render` is its compact text, written the way serde_json
//! writes it: no whitespace, `"` and `\` escaped, control characters escaped
//! as `\b \t \n \f \r` or `\u00xx`, every other character written as is.
use vstd::prelude::*;

verus! {

/// A JSON document as the library writes it.
pub enum JsonView {
    Str(Seq<char>),
    Num(u64),
    Obj(Seq<(Seq<char>, JsonView)>),
}

/// Lower-case hexadecimal digit of `d` (0..16).
pub open spec fn hex_char(d: int) -> char {
    if d == 0 { '0' } else if d == 1 { '1' } else if d == 2 { '2' } else if d == 3 { '3' }
    else if d == 4 { '4' } else if d == 5 { '5' } else if d == 6 { '6' } else if d == 7 { '7' }
    else if d == 8 { '8' } else if d == 9 { '9' } else if d == 10 { 'a' } else if d == 11 { 'b' }
    else if d == 12 { 'c' } else if d == 13 { 'd' } else if d == 14 { 'e' } else { 'f' }
}

/// Decimal digit of `d` (0..10).
pub open spec fn digit_char(d: int) -> char {
    if d == 0 { '0' } else if d == 1 { '1' } else if d == 2 { '2' } else if d == 3 { '3' }
    else if d == 4 { '4' } else if d == 5 { '5' } else if d == 6 { '6' } else if d == 7 { '7' }
    else if d == 8 { '8' } else { '9' }
}

/// The decimal text of `n`, without leading zeros.
pub open spec fn decimal(n: nat) -> Seq<char>
    decreases n,
{
    if n < 10 {
        seq![digit_char(n as int)]
    } else {
        decimal(n / 10).push(digit_char((n % 10) as int))
    }
}

/// Whether a character must be escaped inside a JSON string.
pub open spec fn needs_escape(c: char) -> bool {
    c == '"' || c == '\\' || (c as u32) < 0x20
}

/// The JSON text of one character inside a string literal.
pub open spec fn escape_char(c: char) -> Seq<char> {
    if c == '"' {
        seq!['\\', '"']
    } else if c == '\\' {
        seq!['\\', '\\']
    } else if c == '\u{8}' {
        seq!['\\', 'b']
    } else if c == '\t' {
        seq!['\\', 't']
    } else if c == '\n' {
        seq!['\\', 'n']
    } else if c == '\u{c}' {
        seq!['\\', 'f']
    } else if c == '\r' {
        seq!['\\', 'r']
    } else if (c as u32) < 0x20 {
        seq!['\\', 'u', '0', '0', hex_char((c as u32) as int / 16), hex_char((c as u32) as int % 16)]
    } else {
        seq![c]
    }
}

/// The escaped contents of a string literal.
pub open spec fn escape(s: Seq<char>) -> Seq<char>
    decreases s.len(),
{
    if s.len() == 0 {
        seq![]
    } else {
        escape(s.drop_last()) + escape_char(s.last())
    }
}

/// A string literal: the escaped contents between double quotes.
pub open spec fn quote(s: Seq<char>) -> Seq<char> {
    seq!['"'] + escape(s) + seq!['"']
}

/// The compact JSON text of a document.
pub open spec fn render(v: JsonView) -> Seq<char>
    decreases v,
{
    match v {
        JsonView::Str(s) => quote(s),
        JsonView::Num(n) => decimal(n as nat),
        JsonView::Obj(ms) => seq!['{'] + render_members(ms) + seq!['}'],
    }
}

/// The members of an object, separated by commas.
pub open spec fn render_members(ms: Seq<(Seq<char>, JsonView)>) -> Seq<char>
    decreases ms,
{
    if ms.len() == 0 {
        seq![]
    } else if ms.len() == 1 {
        quote(ms[0].0) + seq![':'] + render(ms[0].1)
    } else {
        render_members(ms.drop_last()) + seq![','] + quote(ms.last().0) + seq![':'] + render(
            ms.last().1,
        )
    }
}


/// The one-character text of a decimal digit.
fn digit_str(d: u64) -> (r: &'static str)
    requires
        d < 10,
    ensures
        r@ == seq![digit_char(d as int)],
{
    proof {
        reveal_strlit("0");
        reveal_strlit("1");
        reveal_strlit("2");
        reveal_strlit("3");
        reveal_strlit("4");
        reveal_strlit("5");
        reveal_strlit("6");
        reveal_strlit("7");
        reveal_strlit("8");
        reveal_strlit("9");
    }
    if d == 0 { "0" } else if d == 1 { "1" } else if d == 2 { "2" } else if d == 3 { "3" }
    else if d == 4 { "4" } else if d == 5 { "5" } else if d == 6 { "6" } else if d == 7 { "7" }
    else if d == 8 { "8" } else { "9" }
}

/// The one-character text of a hexadecimal digit.
fn hex_str(d: u32) -> (r: &'static str)
    requires
        d < 16,
    ensures
        r@ == seq![hex_char(d as int)],
{
    proof {
        reveal_strlit("0");
        reveal_strlit("1");
        reveal_strlit("2");
        reveal_strlit("3");
        reveal_strlit("4");
        reveal_strlit("5");
        reveal_strlit("6");
        reveal_strlit("7");
        reveal_strlit("8");
        reveal_strlit("9");
        reveal_strlit("a");
        reveal_strlit("b");
        reveal_strlit("c");
        reveal_strlit("d");
        reveal_strlit("e");
        reveal_strlit("f");
    }
    if d == 0 { "0" } else if d == 1 { "1" } else if d == 2 { "2" } else if d == 3 { "3" }
    else if d == 4 { "4" } else if d == 5 { "5" } else if d == 6 { "6" } else if d == 7 { "7" }
    else if d == 8 { "8" } else if d == 9 { "9" } else if d == 10 { "a" } else if d == 11 { "b" }
    else if d == 12 { "c" } else if d == 13 { "d" } else if d == 14 { "e" } else { "f" }
}

/// Appends the decimal text of `n`.
fn push_decimal(out: &mut String, n: u64)
    ensures
        final(out)@ == old(out)@ + decimal(n as nat),
    decreases n,
{
    if n >= 10 {
        push_decimal(out, n / 10);
    }
    out.append(digit_str(n % 10));
    proof {
        if n >= 10 {
            assert(decimal(n as nat) == decimal((n / 10) as nat).push(digit_char((n % 10) as int)));
        }
    }
}

/// Whether `c` must be escaped inside a string literal.
fn char_needs_escape(c: char) -> (r: bool)
    ensures
        r == needs_escape(c),
{
    c == '"' || c == '\\' || (c as u32) < 0x20
}

/// Appends the escape sequence of a character that needs one.
fn push_escape(out: &mut String, c: char)
    requires
        needs_escape(c),
    ensures
        final(out)@ == old(out)@ + escape_char(c),
{
    proof {
        reveal_strlit("\\\"");
        reveal_strlit("\\\\");
        reveal_strlit("\\b");
        reveal_strlit("\\t");
        reveal_strlit("\\n");
        reveal_strlit("\\f");
        reveal_strlit("\\r");
        reveal_strlit("\\u00");
    }
    if c == '"' {
        out.append("\\\"");
    } else if c == '\\' {
        out.append("\\\\");
    } else if c == '\u{8}' {
        out.append("\\b");
    } else if c == '\t' {
        out.append("\\t");
    } else if c == '\n' {
        out.append("\\n");
    } else if c == '\u{c}' {
        out.append("\\f");
    } else if c == '\r' {
        out.append("\\r");
    } else {
        let code = c as u32;
        out.append("\\u00");
        out.append(hex_str(code / 16));
        out.append(hex_str(code % 16));
        assert(final(out)@ =~= old(out)@ + escape_char(c));
    }
}

/// A run of characters that need no escape is written as is.
proof fn lemma_escape_plain_run(s: Seq<char>, start: int, i: int)
    requires
        0 <= start <= i <= s.len(),
        forall|j: int| start <= j < i ==> !needs_escape(#[trigger] s[j]),
    ensures
        escape(s.take(i)) == escape(s.take(start)) + s.subrange(start, i),
    decreases i - start,
{
    if i > start {
        lemma_escape_plain_run(s, start, i - 1);
        assert(s.take(i).drop_last() =~= s.take(i - 1));
        assert(!needs_escape(s[i - 1]));
        assert(escape_char(s[i - 1]) == seq![s[i - 1]]);
        assert(s.subrange(start, i) =~= s.subrange(start, i - 1).push(s[i - 1]));
        assert(escape(s.take(i)) =~= escape(s.take(start)) + s.subrange(start, i));
    } else {
        assert(s.subrange(start, i) =~= Seq::<char>::empty());
        assert(escape(s.take(start)) + s.subrange(start, i) =~= escape(s.take(start)));
    }
}

/// Appends the escaped contents of `s`.
fn push_escaped(out: &mut String, s: &str)
    ensures
        final(out)@ == old(out)@ + escape(s@),
{
    let ghost orig = out@;
    let n = s.unicode_len();
    let mut chars = s.chars();
    let mut i: usize = 0;
    let mut start: usize = 0;
    proof {
        broadcast use vstd::string::axiom_spec_iter;
        assert(s@.take(0) =~= Seq::<char>::empty());
        assert(s@.skip(0) =~= s@);
    }
    loop
        invariant
            n == s@.len(),
            vstd::std_specs::iter::IteratorSpec::obeys_prophetic_iter_laws(&chars),
            vstd::std_specs::iter::IteratorSpec::remaining(&chars) == s@.skip(i as int),
            start <= i <= n,
            out@ == orig + escape(s@.take(start as int)),
            forall|j: int| start <= j < i ==> !needs_escape(#[trigger] s@[j]),
        ensures
            i == n,
        decreases n - i,
    {
        let next = chars.next();
        match next {
            Some(c) => {
                assert(c == s@[i as int]);
                if char_needs_escape(c) {
                    out.append(s.substring_char(start, i));
                    proof {
                        lemma_escape_plain_run(s@, start as int, i as int);
                        assert(s@.take(i + 1).drop_last() =~= s@.take(i as int));
                    }
                    push_escape(out, c);
                    start = i + 1;
                }
                i = i + 1;
                proof {
                    assert(vstd::std_specs::iter::IteratorSpec::remaining(&chars) =~= s@.skip(i as int));
                }
            },
            None => {
                assert(s@.skip(i as int).len() == 0);
                break;
            },
        }
    }
    out.append(s.substring_char(start, i));
    proof {
        lemma_escape_plain_run(s@, start as int, i as int);
        assert(s@.take(i as int) =~= s@);
    }
}

/// Appends the string literal of `s`.
fn push_quoted(out: &mut String, s: &str)
    ensures
        final(out)@ == old(out)@ + quote(s@),
{
    proof {
        reveal_strlit("\"");
    }
    out.append("\"");
    push_escaped(out, s);
    out.append("\"");
    assert(final(out)@ =~= old(out)@ + quote(s@));
}


/// The value of the first member named `key` among `ms`.
pub open spec fn json_member_in(ms: Seq<(Seq<char>, JsonView)>, key: Seq<char>) -> Option<JsonView>
    decreases ms.len(),
{
    if ms.len() == 0 {
        None
    } else if ms[0].0 == key {
        Some(ms[0].1)
    } else {
        json_member_in(ms.drop_first(), key)
    }
}

/// The value of the member named `key` of an object, as a reader of the
/// document finds it; `None` for a missing member or a non-object.
pub open spec fn json_member(v: JsonView, key: Seq<char>) -> Option<JsonView> {
    match v {
        JsonView::Obj(ms) => json_member_in(ms, key),
        _ => None,
    }
}

/// The member names of an object, in the order they are written.
pub open spec fn json_keys(v: JsonView) -> Seq<Seq<char>> {
    match v {
        JsonView::Obj(ms) => ms.map_values(|m: (Seq<char>, JsonView)| m.0),
        _ => seq![],
    }
}

/// The value of a hexadecimal digit character.
pub open spec fn hex_value(c: char) -> int {
    if 48 <= (c as u32) <= 57 {
        (c as u32) - 48
    } else if 97 <= (c as u32) <= 102 {
        (c as u32) - 87
    } else if 65 <= (c as u32) <= 70 {
        (c as u32) - 55
    } else {
        0
    }
}

/// The contents of a JSON string literal, read back: escape sequences are
/// replaced by the characters they stand for.
pub open spec fn unescape(t: Seq<char>) -> Seq<char>
    decreases t.len(),
{
    if t.len() == 0 {
        seq![]
    } else if t[0] == '\\' && t.len() >= 6 && t[1] == 'u' {
        let code = hex_value(t[2]) * 4096 + hex_value(t[3]) * 256 + hex_value(t[4]) * 16
            + hex_value(t[5]);
        seq![(code as u32) as char] + unescape(t.skip(6))
    } else if t[0] == '\\' && t.len() >= 2 && (t[1] == '"' || t[1] == '\\' || t[1] == '/') {
        seq![t[1]] + unescape(t.skip(2))
    } else if t[0] == '\\' && t.len() >= 2 && t[1] == 'b' {
        seq!['\u{8}'] + unescape(t.skip(2))
    } else if t[0] == '\\' && t.len() >= 2 && t[1] == 't' {
        seq!['\t'] + unescape(t.skip(2))
    } else if t[0] == '\\' && t.len() >= 2 && t[1] == 'n' {
        seq!['\n'] + unescape(t.skip(2))
    } else if t[0] == '\\' && t.len() >= 2 && t[1] == 'f' {
        seq!['\u{c}'] + unescape(t.skip(2))
    } else if t[0] == '\\' && t.len() >= 2 && t[1] == 'r' {
        seq!['\r'] + unescape(t.skip(2))
    } else {
        seq![t[0]] + unescape(t.skip(1))
    }
}

/// Escaping distributes over concatenation.
proof fn lemma_escape_concat(a: Seq<char>, b: Seq<char>)
    ensures
        escape(a + b) == escape(a) + escape(b),
    decreases b.len(),
{
    if b.len() == 0 {
        assert(a + b =~= a);
        assert(escape(a) + escape(b) =~= escape(a));
    } else {
        lemma_escape_concat(a, b.drop_last());
        assert((a + b).drop_last() =~= a + b.drop_last());
        assert((a + b).last() == b.last());
        assert(escape(a + b) =~= escape(a) + escape(b));
    }
}

/// The hexadecimal digits read back as their values.
proof fn lemma_hex_value(d: int)
    requires
        0 <= d < 16,
    ensures
        hex_value(hex_char(d)) == d,
{
}

/// Reading back the escape of one character gives that character.
proof fn lemma_unescape_char(c: char, rest: Seq<char>)
    ensures
        unescape(escape_char(c) + rest) == seq![c] + unescape(rest),
{
    let t = escape_char(c) + rest;
    if needs_escape(c) {
        if c != '"' && c != '\\' && c != '\u{8}' && c != '\t' && c != '\n' && c != '\u{c}' && c
            != '\r' {
            let code = (c as u32) as int;
            lemma_hex_value(code / 16);
            lemma_hex_value(code % 16);
            assert(t[0] == '\\' && t[1] == 'u' && t.len() >= 6);
            assert(hex_value(t[2]) == 0 && hex_value(t[3]) == 0);
            assert(hex_value(t[2]) * 4096 + hex_value(t[3]) * 256 + hex_value(t[4]) * 16 + hex_value(
                t[5],
            ) == code);
            assert(t.skip(6) =~= rest);
        } else {
            assert(t.skip(2) =~= rest);
        }
    } else {
        assert(escape_char(c) == seq![c]);
        assert(t.skip(1) =~= rest);
    }
}

/// Escaping loses nothing: the contents of every string literal the library
/// writes read back as the string that was escaped.
pub proof fn law_escape_round_trip(s: Seq<char>)
    ensures
        unescape(escape(s)) == s,
    decreases s.len(),
{
    if s.len() == 0 {
        assert(escape(s) =~= Seq::<char>::empty());
    } else {
        let rest = s.skip(1);
        assert(s =~= seq![s[0]] + rest);
        lemma_escape_concat(seq![s[0]], rest);
        assert(seq![s[0]].drop_last() =~= Seq::<char>::empty());
        assert(escape(Seq::<char>::empty()) =~= Seq::<char>::empty());
        assert(seq![s[0]].last() == s[0]);
        assert(escape(seq![s[0]]) =~= escape_char(s[0]));
        lemma_unescape_char(s[0], escape(rest));
        law_escape_round_trip(rest);
    }
}

/// The shape of the text: a string is its escaped contents between double
/// quotes, an object is its members between braces, each member is its quoted
/// key, a colon and its value, and members are separated by commas.
/// Escaping works character by character: quotes, backslashes and line
/// breaks are escaped and every printable character other than `"` and `\`
/// stands for itself.
pub proof fn law_json_text(
    s: Seq<char>,
    t: Seq<char>,
    k1: Seq<char>,
    v1: JsonView,
    k2: Seq<char>,
    v2: JsonView,
    c: char,
)
    ensures
        render(JsonView::Str(s)) == seq!['"'] + escape(s) + seq!['"'],
        render(JsonView::Obj(Seq::<(Seq<char>, JsonView)>::empty())) == seq!['{', '}'],
        render(JsonView::Obj(seq![(k1, v1)])) == seq!['{', '"'] + escape(k1) + seq!['"', ':'] + render(v1)
            + seq!['}'],
        render(JsonView::Obj(seq![(k1, v1), (k2, v2)])) == seq!['{', '"'] + escape(k1) + seq!['"', ':']
            + render(v1) + seq![',', '"'] + escape(k2) + seq!['"', ':'] + render(v2) + seq!['}'],
        escape(s + t) == escape(s) + escape(t),
        (c != '"' && c != '\\' && (c as u32) >= 0x20) ==> escape(seq![c]) == seq![c],
        escape(seq!['"']) == seq!['\\', '"'],
        escape(seq!['\\']) == seq!['\\', '\\'],
        escape(seq!['\n']) == seq!['\\', 'n'],
{
    lemma_escape_concat(s, t);
    let e = Seq::<char>::empty();
    assert(escape(e) =~= e);
    assert(seq![c].drop_last() =~= e);
    assert(seq!['"'].drop_last() =~= e);
    assert(seq!['\\'].drop_last() =~= e);
    assert(seq!['\n'].drop_last() =~= e);
    assert(escape(seq![c]) =~= escape_char(c));
    assert(escape(seq!['"']) =~= escape_char('"'));
    assert(escape(seq!['\\']) =~= escape_char('\\'));
    assert(escape(seq!['\n']) =~= escape_char('\n'));
    let m0 = Seq::<(Seq<char>, JsonView)>::empty();
    assert(render_members(m0) =~= e);
    let m1 = seq![(k1, v1)];
    let m2 = seq![(k1, v1), (k2, v2)];
    assert(m2.drop_last() =~= m1);
    assert(render(JsonView::Obj(m0)) =~= seq!['{', '}']);
    assert(render(JsonView::Obj(m1)) =~= seq!['{', '"'] + escape(k1) + seq!['"', ':'] + render(v1) + seq!['}']);
    assert(render(JsonView::Obj(m2)) =~= seq!['{', '"'] + escape(k1) + seq!['"', ':'] + render(v1) + seq![',', '"']
        + escape(k2) + seq!['"', ':'] + render(v2) + seq!['}']);
}

/// The text of one member, `"key":value`.
pub open spec fn member_text(key: Seq<char>, value: JsonView) -> Seq<char> {
    quote(key) + seq![':'] + render(value)
}

/// Appending a member to an object appends its text after a comma, or
/// alone for the first member.
pub proof fn lemma_render_members_push(ms: Seq<(Seq<char>, JsonView)>, key: Seq<char>, value: JsonView)
    ensures
        render_members(ms.push((key, value))) == if ms.len() == 0 {
            member_text(key, value)
        } else {
            render_members(ms) + seq![','] + member_text(key, value)
        },
{
    let ms2 = ms.push((key, value));
    assert(ms2.drop_last() =~= ms);
    if ms.len() == 0 {
        assert(ms2[0] == (key, value));
    } else {
        assert(ms2.last() == (key, value));
        assert(render_members(ms2) =~= render_members(ms) + seq![','] + member_text(key, value));
    }
}

/// A JSON object under construction; its members keep the order in which
/// they were added.
pub struct JsonObject {
    text: String,
    is_empty: bool,
    members: Ghost<Seq<(Seq<char>, JsonView)>>,
}

impl JsonObject {
    /// The members added so far; `wf` ties the text written so far to them,
    /// and `into_text` returns their rendering.
    pub closed spec fn members(&self) -> Seq<(Seq<char>, JsonView)> {
        self.members@
    }

    /// The text written so far is the opening brace and the members.
    pub closed spec fn wf(&self) -> bool {
        &&& self.text@ == seq!['{'] + render_members(self.members@)
        &&& self.is_empty == (self.members@.len() == 0)
    }

    /// An object with no members.
    pub fn new() -> (r: Self)
        ensures
            r.wf(),
            r.members() == Seq::<(Seq<char>, JsonView)>::empty(),
    {
        proof {
            reveal_strlit("{");
        }
        let mut text = String::new();
        text.append("{");
        let r = JsonObject { text, is_empty: true, members: Ghost(Seq::empty()) };
        assert(r.text@ =~= seq!['{'] + render_members(Seq::empty()));
        r
    }

    /// Writes the separator and the key of a new member.
    fn start_member(&mut self, key: &str)
        requires
            old(self).wf(),
        ensures
            final(self).members == old(self).members,
            final(self).is_empty == old(self).is_empty,
            final(self).text@ == old(self).text@ + (if old(self).is_empty {
                Seq::<char>::empty()
            } else {
                seq![',']
            }) + quote(key@) + seq![':'],
    {
        proof {
            reveal_strlit(",");
            reveal_strlit(":");
        }
        let ghost t0 = self.text@;
        if !self.is_empty {
            self.text.append(",");
        }
        push_quoted(&mut self.text, key);
        self.text.append(":");
        assert(self.text@ =~= t0 + (if old(self).is_empty {
            Seq::<char>::empty()
        } else {
            seq![',']
        }) + quote(key@) + seq![':']);
    }

    /// Records a member whose text has just been written.
    proof fn lemma_added(ms: Seq<(Seq<char>, JsonView)>, text: Seq<char>, key: Seq<char>, value: JsonView)
        requires
            text == seq!['{'] + render_members(ms) + (if ms.len() == 0 {
                Seq::<char>::empty()
            } else {
                seq![',']
            }) + quote(key) + seq![':'] + render(value),
        ensures
            text == seq!['{'] + render_members(ms.push((key, value))),
    {
        lemma_render_members_push(ms, key, value);
        if ms.len() == 0 {
            assert(render_members(ms) =~= Seq::<char>::empty());
            assert(text =~= seq!['{'] + render_members(ms.push((key, value))));
        } else {
            assert(text =~= seq!['{'] + render_members(ms.push((key, value))));
        }
    }

    /// Adds a string member.
    pub fn push_str(&mut self, key: &str, value: &str)
        requires
            old(self).wf(),
        ensures
            final(self).wf(),
            final(self).members() == old(self).members().push((key@, JsonView::Str(value@))),
    {
        self.start_member(key);
        push_quoted(&mut self.text, value);
        proof {
            JsonObject::lemma_added(self.members@, self.text@, key@, JsonView::Str(value@));
            self.members@ = self.members@.push((key@, JsonView::Str(value@)));
        }
        self.is_empty = false;
    }

    /// Adds a number member.
    pub fn push_u64(&mut self, key: &str, value: u64)
        requires
            old(self).wf(),
        ensures
            final(self).wf(),
            final(self).members() == old(self).members().push((key@, JsonView::Num(value))),
    {
        self.start_member(key);
        push_decimal(&mut self.text, value);
        proof {
            JsonObject::lemma_added(self.members@, self.text@, key@, JsonView::Num(value));
            self.members@ = self.members@.push((key@, JsonView::Num(value)));
        }
        self.is_empty = false;
    }

    /// Adds a nested object member.
    pub fn push_object(&mut self, key: &str, value: JsonObject)
        requires
            old(self).wf(),
            value.wf(),
        ensures
            final(self).wf(),
            final(self).members() == old(self).members().push((key@, JsonView::Obj(value.members()))),
    {
        let ghost v = JsonView::Obj(value.members());
        let inner = value.into_text();
        self.start_member(key);
        self.text.append(inner.as_str());
        proof {
            JsonObject::lemma_added(self.members@, self.text@, key@, v);
            self.members@ = self.members@.push((key@, v));
        }
        self.is_empty = false;
    }

    /// The JSON text of the finished object.
    pub fn into_text(self) -> (r: String)
        requires
            self.wf(),
        ensures
            r@ == render(JsonView::Obj(self.members())),
    {
        proof {
            reveal_strlit("}");
        }
        let mut text = self.text;
        text.append("}");
        assert(text@ =~= render(JsonView::Obj(self.members())));
        text
    }
}

} // verus!
