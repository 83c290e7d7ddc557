//! Strings and lists of strings as JSON text, in the one form that this
//! crate writes: no white space between the parts, and of the characters of
//! a string only the quote, the backslash and the control characters
//! escaped. The lists in the rows of workers and tokens are written and
//! read by `serde_json`.

use crate::model::views;
use crate::text::{push_char, to_chars};
use crate::utils::hex::{hex_digit, hex_value, is_hex_digit, lemma_hex_digit};
use vstd::prelude::*;

verus! {

/// The text that stands for one character inside a JSON string.
pub open spec fn escape_char(c: char) -> Seq<char> {
    if c == '"' {
        seq!['\\', '"']
    } else if c == '\\' {
        seq!['\\', '\\']
    } else if c == '\u{8}' {
        seq!['\\', 'b']
    } else if c == '\u{c}' {
        seq!['\\', 'f']
    } else if c == '\n' {
        seq!['\\', 'n']
    } else if c == '\r' {
        seq!['\\', 'r']
    } else if c == '\t' {
        seq!['\\', 't']
    } else if (c as u32) < 0x20 {
        seq!['\\', 'u', '0', '0', hex_digit((c as u32 / 16) as nat), hex_digit((c as u32 % 16) as nat)]
    } else {
        seq![c]
    }
}

/// The text that stands for the characters of `s` inside a JSON string.
pub open spec fn escape(s: Seq<char>) -> Seq<char>
    decreases s.len(),
{
    if s.len() == 0 {
        Seq::empty()
    } else {
        escape_char(s[0]) + escape(s.skip(1))
    }
}

/// The JSON string that stands for `s`.
pub open spec fn quoted(s: Seq<char>) -> Seq<char> {
    seq!['"'] + escape(s) + seq!['"']
}

/// The character that a letter behind a backslash stands for.
pub open spec fn simple_escape(c: char) -> Option<char> {
    if c == '"' {
        Some('"')
    } else if c == '\\' {
        Some('\\')
    } else if c == '/' {
        Some('/')
    } else if c == 'b' {
        Some('\u{8}')
    } else if c == 'f' {
        Some('\u{c}')
    } else if c == 'n' {
        Some('\n')
    } else if c == 'r' {
        Some('\r')
    } else if c == 't' {
        Some('\t')
    } else {
        None
    }
}

/// A result of reading with `c` put in front of what was read.
pub open spec fn cons(c: char, r: Option<(Seq<char>, Seq<char>)>) -> Option<
    (Seq<char>, Seq<char>),
> {
    match r {
        Some((v, rest)) => Some((seq![c] + v, rest)),
        None => None,
    }
}

/// A result of reading with `prefix` put in front of what was read.
pub open spec fn prepend(prefix: Seq<char>, r: Option<(Seq<char>, Seq<char>)>) -> Option<
    (Seq<char>, Seq<char>),
> {
    match r {
        Some((v, rest)) => Some((prefix + v, rest)),
        None => None,
    }
}

/// What the inside of a JSON string reads as, up to the quote that ends
/// it, and what follows that quote. A backslash is followed by one of
/// `"\/bfnrt`, or by `u00` and two hexadecimal digits; a control character
/// cannot stand for itself.
pub open spec fn read_body(t: Seq<char>) -> Option<(Seq<char>, Seq<char>)>
    decreases t.len(),
{
    if t.len() == 0 {
        None
    } else if t[0] == '"' {
        Some((Seq::empty(), t.skip(1)))
    } else if t[0] == '\\' {
        if t.len() < 2 {
            None
        } else if simple_escape(t[1]) is Some {
            cons(simple_escape(t[1]).unwrap(), read_body(t.skip(2)))
        } else if t.len() >= 6 && t[1] == 'u' && t[2] == '0' && t[3] == '0' && is_hex_digit(t[4])
            && is_hex_digit(t[5]) {
            cons((hex_value(t[4]) * 16 + hex_value(t[5])) as u8 as char, read_body(t.skip(6)))
        } else {
            None
        }
    } else if (t[0] as u32) < 0x20 {
        None
    } else {
        cons(t[0], read_body(t.skip(1)))
    }
}

/// What a JSON string at the front of `t` reads as, and what follows it.
pub open spec fn read_quoted(t: Seq<char>) -> Option<(Seq<char>, Seq<char>)> {
    if t.len() > 0 && t[0] == '"' {
        read_body(t.skip(1))
    } else {
        None
    }
}

/// The inside of the JSON string for `s`, followed by its closing quote,
/// reads as `s`.
pub proof fn lemma_read_escaped(s: Seq<char>, tail: Seq<char>)
    ensures
        read_body(escape(s) + seq!['"'] + tail) == Some((s, tail)),
    decreases s.len(),
{
    let t = escape(s) + seq!['"'] + tail;
    if s.len() == 0 {
        assert(t =~= seq!['"'] + tail);
        assert(t.skip(1) =~= tail);
        assert(s =~= Seq::<char>::empty());
    } else {
        let c = s[0];
        let rest = escape(s.skip(1)) + seq!['"'] + tail;
        lemma_read_escaped(s.skip(1), tail);
        let e = escape_char(c);
        assert(t =~= e + rest);
        assert(t.skip(e.len() as int) =~= rest);
        assert(seq![c] + s.skip(1) =~= s);
        if (c as u32) < 0x20 && c != '\u{8}' && c != '\u{c}' && c != '\n' && c != '\r' && c
            != '\t' {
            let hi = (c as u32 / 16) as nat;
            let lo = (c as u32 % 16) as nat;
            lemma_hex_digit(hi);
            lemma_hex_digit(lo);
            assert(t[4] == hex_digit(hi) && t[5] == hex_digit(lo));
            let u: u32 = c as u32;
            assert(hi * 16 + lo == u);
            vstd::utf8::char_u32_cast(c, u);
            assert(((hi * 16 + lo) as u8 as char) == c);
            assert((hex_value(t[4]) * 16 + hex_value(t[5])) as u8 as char == c);
            assert(simple_escape(t[1]) is None);
        } else if e.len() == 2 {
            assert(t[0] == '\\');
            assert(simple_escape(t[1]) == Some(c));
        } else {
            assert(t[0] == c);
        }
    }
}

/// The JSON string for `s` reads as `s`.
pub proof fn lemma_read_quoted(s: Seq<char>, tail: Seq<char>)
    ensures
        read_quoted(quoted(s) + tail) == Some((s, tail)),
        (quoted(s) + tail)[0] == '"',
        (quoted(s) + tail).len() > 0,
{
    let t = quoted(s) + tail;
    assert(t.skip(1) =~= escape(s) + seq!['"'] + tail);
    lemma_read_escaped(s, tail);
}

/// Appends the JSON string for `s` to `out`.
pub fn push_quoted(out: &mut String, s: &str)
    ensures
        final(out)@ == old(out)@ + quoted(s@),
{
    let cs = to_chars(s);
    let ghost start = out@;
    push_char(out, '"');
    let mut i: usize = 0;
    assert(escape(cs@.skip(cs@.len() as int)) =~= Seq::<char>::empty());
    assert(cs@.skip(0) =~= cs@);
    while i < cs.len()
        invariant
            0 <= i <= cs.len(),
            cs@ == s@,
            out@ + escape(cs@.skip(i as int)) == start + seq!['"'] + escape(s@),
        decreases cs.len() - i,
    {
        let c = cs[i];
        let ghost before = out@;
        let ghost rest = cs@.skip(i as int);
        proof {
            assert(rest[0] == c);
            assert(rest.skip(1) =~= cs@.skip(i + 1));
        }
        if c == '"' {
            push_char(out, '\\');
            push_char(out, '"');
        } else if c == '\\' {
            push_char(out, '\\');
            push_char(out, '\\');
        } else if c == '\u{8}' {
            push_char(out, '\\');
            push_char(out, 'b');
        } else if c == '\u{c}' {
            push_char(out, '\\');
            push_char(out, 'f');
        } else if c == '\n' {
            push_char(out, '\\');
            push_char(out, 'n');
        } else if c == '\r' {
            push_char(out, '\\');
            push_char(out, 'r');
        } else if c == '\t' {
            push_char(out, '\\');
            push_char(out, 't');
        } else if (c as u32) < 0x20 {
            let u: u32 = c as u32;
            let n: u8 = u as u8;
            push_char(out, '\\');
            push_char(out, 'u');
            push_char(out, '0');
            push_char(out, '0');
            push_char(out, low_hex(n / 16));
            push_char(out, low_hex(n % 16));
        } else {
            push_char(out, c);
        }
        proof {
            assert(out@ =~= before + escape_char(c));
            assert(out@ + escape(cs@.skip(i + 1)) =~= before + escape(rest));
        }
        i += 1;
    }
    push_char(out, '"');
    proof {
        assert(escape(cs@.skip(cs@.len() as int)) =~= Seq::<char>::empty());
        assert(out@ =~= start + quoted(s@));
    }
}

fn low_hex(n: u8) -> (c: char)
    requires
        n < 16,
    ensures
        c == hex_digit(n as nat),
{
    if n < 10 {
        (('0' as u8) + n) as char
    } else {
        (('a' as u8) + (n - 10)) as char
    }
}

fn hex_of(c: char) -> (r: Option<u8>)
    ensures
        match r {
            Some(v) => is_hex_digit(c) && v == hex_value(c) && v < 16,
            None => !is_hex_digit(c),
        },
{
    if c >= '0' && c <= '9' {
        Some(((c as u32) - ('0' as u32)) as u8)
    } else if c >= 'a' && c <= 'f' {
        Some(((c as u32) - ('a' as u32) + 10) as u8)
    } else if c >= 'A' && c <= 'F' {
        Some(((c as u32) - ('A' as u32) + 10) as u8)
    } else {
        None
    }
}

fn simple_escape_of(c: char) -> (r: Option<char>)
    ensures
        r == simple_escape(c),
{
    if c == '"' {
        Some('"')
    } else if c == '\\' {
        Some('\\')
    } else if c == '/' {
        Some('/')
    } else if c == 'b' {
        Some('\u{8}')
    } else if c == 'f' {
        Some('\u{c}')
    } else if c == 'n' {
        Some('\n')
    } else if c == 'r' {
        Some('\r')
    } else if c == 't' {
        Some('\t')
    } else {
        None
    }
}

/// Putting a character in front of what follows a prefix is putting the
/// prefix with the character in front.
proof fn lemma_prepend_cons(prefix: Seq<char>, c: char, r: Option<(Seq<char>, Seq<char>)>)
    ensures
        prepend(prefix, cons(c, r)) == prepend(prefix.push(c), r),
{
    match r {
        Some((v, rest)) => {
            assert(prefix + (seq![c] + v) =~= prefix.push(c) + v);
        },
        None => {},
    }
}

/// Reads the JSON string that starts at `chars[from]`: what it stands for,
/// and the index behind its closing quote.
pub fn parse_quoted(chars: &Vec<char>, from: usize) -> (r: Option<(String, usize)>)
    requires
        from <= chars.len(),
    ensures
        match read_quoted(chars@.skip(from as int)) {
            Some((v, rest)) => r is Some && r.unwrap().0@ == v && from < r.unwrap().1 <= chars.len()
                && rest == chars@.skip(r.unwrap().1 as int),
            None => r is None,
        },
{
    let ghost whole = chars@.skip(from as int);
    if from >= chars.len() || chars[from] != '"' {
        proof {
            if from < chars.len() {
                assert(whole[0] == chars@[from as int]);
            }
        }
        return None;
    }
    let mut out = String::new();
    let mut i: usize = from + 1;
    proof {
        assert(whole[0] == chars@[from as int]);
        assert(whole.skip(1) =~= chars@.skip(i as int));
        let r0 = read_body(chars@.skip(i as int));
        match r0 {
            Some((v, rest)) => {
                assert(Seq::<char>::empty() + v =~= v);
            },
            None => {},
        }
    }
    while i < chars.len()
        invariant
            from < i <= chars.len(),
            read_quoted(chars@.skip(from as int)) == prepend(out@, read_body(chars@.skip(i as int))),
        decreases chars.len() - i,
    {
        let c = chars[i];
        let ghost t = chars@.skip(i as int);
        proof {
            assert(t[0] == c);
        }
        if c == '"' {
            proof {
                assert(t.skip(1) =~= chars@.skip(i + 1));
                assert(out@ + Seq::<char>::empty() =~= out@);
            }
            return Some((out, i + 1));
        } else if c == '\\' {
            if chars.len() - i < 2 {
                return None;
            }
            let e = chars[i + 1];
            proof {
                assert(t[1] == e);
            }
            match simple_escape_of(e) {
                Some(x) => {
                    proof {
                        assert(t.skip(2) =~= chars@.skip(i + 2));
                        lemma_prepend_cons(out@, x, read_body(t.skip(2)));
                    }
                    push_char(&mut out, x);
                    i += 2;
                },
                None => {
                    if chars.len() - i < 6 || e != 'u' || chars[i + 2] != '0' || chars[i + 3]
                        != '0' {
                        proof {
                            if t.len() >= 6 {
                                assert(t[2] == chars@[i + 2]);
                                assert(t[3] == chars@[i + 3]);
                            }
                        }
                        return None;
                    }
                    proof {
                        assert(t[2] == chars@[i + 2]);
                        assert(t[3] == chars@[i + 3]);
                        assert(t[4] == chars@[i + 4]);
                        assert(t[5] == chars@[i + 5]);
                    }
                    let hi = match hex_of(chars[i + 4]) {
                        Some(h) => h,
                        None => {
                            return None;
                        },
                    };
                    let lo = match hex_of(chars[i + 5]) {
                        Some(l) => l,
                        None => {
                            return None;
                        },
                    };
                    let x: char = (hi * 16 + lo) as char;
                    proof {
                        assert(t.skip(6) =~= chars@.skip(i + 6));
                        lemma_prepend_cons(out@, x, read_body(t.skip(6)));
                    }
                    push_char(&mut out, x);
                    i += 6;
                },
            }
        } else if (c as u32) < 0x20 {
            return None;
        } else {
            proof {
                assert(t.skip(1) =~= chars@.skip(i + 1));
                lemma_prepend_cons(out@, c, read_body(t.skip(1)));
            }
            push_char(&mut out, c);
            i += 1;
        }
    }
    proof {
        assert(chars@.skip(i as int).len() == 0);
    }
    None
}

/// The JSON list of the strings of `items`: the strings between square
/// brackets, set apart by commas.
pub open spec fn list_text(items: Seq<Seq<char>>) -> Seq<char> {
    seq!['['] + list_items(items) + seq![']']
}

/// The strings of a JSON list, set apart by commas.
pub open spec fn list_items(items: Seq<Seq<char>>) -> Seq<char>
    decreases items.len(),
{
    if items.len() == 0 {
        Seq::empty()
    } else if items.len() == 1 {
        quoted(items[0])
    } else {
        quoted(items[0]) + seq![','] + list_items(items.skip(1))
    }
}

/// What the strings of a JSON list read as, from behind a string of the
/// list on: each further string stands behind a comma, and the list ends
/// with a closing bracket.
pub open spec fn read_more_items(t: Seq<char>) -> Option<(Seq<Seq<char>>, Seq<char>)>
    decreases t.len(),
{
    if t.len() == 0 {
        None
    } else if t[0] == ']' {
        Some((Seq::empty(), t.skip(1)))
    } else if t[0] == ',' {
        match read_quoted(t.skip(1)) {
            Some((v, rest)) => if rest.len() < t.len() {
                match read_more_items(rest) {
                    Some((more, after)) => Some((seq![v] + more, after)),
                    None => None,
                }
            } else {
                None
            },
            None => None,
        }
    } else {
        None
    }
}

/// What a JSON list of strings at the front of `t` reads as, and what
/// follows it.
pub open spec fn read_list(t: Seq<char>) -> Option<(Seq<Seq<char>>, Seq<char>)> {
    if t.len() < 2 || t[0] != '[' {
        None
    } else if t[1] == ']' {
        Some((Seq::empty(), t.skip(2)))
    } else {
        match read_quoted(t.skip(1)) {
            Some((v, rest)) => match read_more_items(rest) {
                Some((more, after)) => Some((seq![v] + more, after)),
                None => None,
            },
            None => None,
        }
    }
}

/// Reading never gives back more than it was given.
pub proof fn lemma_read_body_shrinks(t: Seq<char>)
    ensures
        match read_body(t) {
            Some((_, rest)) => rest.len() < t.len(),
            None => true,
        },
    decreases t.len(),
{
    if t.len() > 0 && t[0] != '"' {
        if t[0] == '\\' {
            if t.len() >= 2 {
                if simple_escape(t[1]) is Some {
                    lemma_read_body_shrinks(t.skip(2));
                } else if t.len() >= 6 {
                    lemma_read_body_shrinks(t.skip(6));
                }
            }
        } else {
            lemma_read_body_shrinks(t.skip(1));
        }
    }
}

/// What follows the first string of the JSON list of `items` reads as the
/// other strings.
pub proof fn lemma_read_more(items: Seq<Seq<char>>, tail: Seq<char>)
    requires
        items.len() > 0,
    ensures
        read_quoted(list_items(items) + seq![']'] + tail) is Some,
        read_quoted(list_items(items) + seq![']'] + tail).unwrap().0 == items[0],
        read_more_items(read_quoted(list_items(items) + seq![']'] + tail).unwrap().1) == Some(
            (items.skip(1), tail),
        ),
    decreases items.len(),
{
    let t = list_items(items) + seq![']'] + tail;
    if items.len() == 1 {
        assert(t =~= quoted(items[0]) + (seq![']'] + tail));
        lemma_read_quoted(items[0], seq![']'] + tail);
        let rest = seq![']'] + tail;
        assert(rest.skip(1) =~= tail);
        assert(items.skip(1) =~= Seq::<Seq<char>>::empty());
    } else {
        let others = items.skip(1);
        let rest = seq![','] + (list_items(others) + seq![']'] + tail);
        assert(t =~= quoted(items[0]) + rest);
        lemma_read_quoted(items[0], rest);
        lemma_read_more(others, tail);
        let inner = list_items(others) + seq![']'] + tail;
        assert(rest.skip(1) =~= inner);
        let q = read_quoted(inner).unwrap();
        assert(inner.skip(1).len() < rest.len());
        lemma_read_body_shrinks(inner.skip(1));
        assert(seq![others[0]] + others.skip(1) =~= others);
    }
}

/// The JSON list of `items` reads as `items`.
pub proof fn lemma_read_list(items: Seq<Seq<char>>, tail: Seq<char>)
    ensures
        read_list(list_text(items) + tail) == Some((items, tail)),
{
    let t = list_text(items) + tail;
    if items.len() == 0 {
        assert(t =~= seq!['[', ']'] + tail);
        assert(t.skip(2) =~= tail);
        assert(items =~= Seq::<Seq<char>>::empty());
    } else {
        let inner = list_items(items) + seq![']'] + tail;
        assert(t =~= seq!['['] + inner);
        assert(t.skip(1) =~= inner);
        lemma_read_more(items, tail);
        lemma_read_quoted(items[0], Seq::empty());
        assert(inner[0] == '"') by {
            if items.len() == 1 {
                assert(inner =~= quoted(items[0]) + (seq![']'] + tail));
            } else {
                assert(inner =~= quoted(items[0]) + (seq![','] + list_items(items.skip(1))
                    + seq![']'] + tail));
            }
            lemma_read_quoted(items[0], seq![']'] + tail);
        }
        assert(t[1] == inner[0]);
        assert(seq![items[0]] + items.skip(1) =~= items);
    }
}

/// Appends the JSON list of the strings of `items` to `out`.
pub fn push_list(out: &mut String, items: &Vec<String>)
    ensures
        final(out)@ == old(out)@ + list_text(views(items@)),
{
    let ghost start = out@;
    let ghost all = views(items@);
    push_char(out, '[');
    let n = items.len();
    let mut i: usize = 0;
    assert(all.skip(0) =~= all);
    while i < n
        invariant
            0 <= i <= n,
            n == items.len(),
            all == views(items@),
            out@ + (if i == 0 || i == n {
                Seq::<char>::empty()
            } else {
                seq![',']
            }) + list_items(all.skip(i as int)) == start + seq!['['] + list_items(all),
        decreases n - i,
    {
        let ghost before = out@;
        let ghost rest = all.skip(i as int);
        if i > 0 {
            push_char(out, ',');
        }
        push_quoted(out, items[i].as_str());
        proof {
            assert(rest[0] == items@[i as int]@);
            assert(rest.skip(1) =~= all.skip(i + 1));
            if rest.len() == 1 {
                assert(list_items(rest.skip(1)) =~= Seq::<char>::empty());
            }
            assert(out@ + (if i + 1 == n {
                Seq::<char>::empty()
            } else {
                seq![',']
            }) + list_items(all.skip(i + 1)) =~= before + (if i == 0 {
                Seq::<char>::empty()
            } else {
                seq![',']
            }) + list_items(rest));
        }
        i += 1;
    }
    push_char(out, ']');
    proof {
        assert(list_items(all.skip(n as int)) =~= Seq::<char>::empty());
        assert(out@ =~= start + list_text(all));
    }
}

/// Reads the JSON list of strings that starts at `chars[from]`: the
/// strings, and the index behind its closing bracket.
pub fn parse_list(chars: &Vec<char>, from: usize) -> (r: Option<(Vec<String>, usize)>)
    requires
        from <= chars.len(),
    ensures
        match read_list(chars@.skip(from as int)) {
            Some((v, rest)) => r is Some && views(r.unwrap().0@) == v && from < r.unwrap().1
                <= chars.len() && rest == chars@.skip(r.unwrap().1 as int),
            None => r is None,
        },
{
    let ghost t = chars@.skip(from as int);
    if chars.len() - from < 2 || chars[from] != '[' {
        proof {
            if t.len() >= 2 {
                assert(t[0] == chars@[from as int]);
            }
        }
        return None;
    }
    proof {
        assert(t[0] == chars@[from as int]);
        assert(t[1] == chars@[from + 1]);
        assert(t.skip(1) =~= chars@.skip(from + 1));
        assert(t.skip(2) =~= chars@.skip(from + 2));
    }
    let mut out: Vec<String> = Vec::new();
    if chars[from + 1] == ']' {
        assert(views(out@) =~= Seq::<Seq<char>>::empty());
        return Some((out, from + 2));
    }
    let (first, mut i) = match parse_quoted(chars, from + 1) {
        Some(x) => x,
        None => {
            return None;
        },
    };
    out.push(first);
    proof {
        let m = read_more_items(chars@.skip(i as int));
        match m {
            Some((more, after)) => {
                assert(views(out@) =~= seq![first@]);
            },
            None => {},
        }
    }
    while i < chars.len()
        invariant
            from < i <= chars.len(),
            out@.len() > 0,
            read_list(chars@.skip(from as int)) == (match read_more_items(chars@.skip(i as int)) {
                Some((more, after)) => Some((views(out@) + more, after)),
                None => None,
            }),
        decreases chars.len() - i,
    {
        let c = chars[i];
        let ghost u = chars@.skip(i as int);
        proof {
            assert(u[0] == c);
            assert(u.skip(1) =~= chars@.skip(i + 1));
        }
        if c == ']' {
            proof {
                assert(views(out@) + Seq::<Seq<char>>::empty() =~= views(out@));
            }
            return Some((out, i + 1));
        } else if c == ',' {
            let (item, j) = match parse_quoted(chars, i + 1) {
                Some(x) => x,
                None => {
                    return None;
                },
            };
            let ghost before = views(out@);
            out.push(item);
            proof {
                let rest = chars@.skip(j as int);
                assert(rest.len() < u.len());
                match read_more_items(rest) {
                    Some((more, after)) => {
                        assert(views(out@) =~= before.push(item@));
                        assert(before + (seq![item@] + more) =~= views(out@) + more);
                    },
                    None => {},
                }
            }
            i = j;
        } else {
            return None;
        }
    }
    proof {
        assert(chars@.skip(i as int).len() == 0);
    }
    None
}

/// The list of strings that a JSON text stands for, where it stands for
/// one and nothing follows it.
pub open spec fn parse_list_text(t: Seq<char>) -> Option<Seq<Seq<char>>> {
    match read_list(t) {
        Some((items, rest)) => if rest.len() == 0 {
            Some(items)
        } else {
            None
        },
        None => None,
    }
}

/// Reading the JSON list of `items` gives `items` back.
pub proof fn lemma_parse_list_text(items: Seq<Seq<char>>)
    ensures
        parse_list_text(list_text(items)) == Some(items),
{
    lemma_read_list(items, Seq::empty());
    assert(list_text(items) + Seq::<char>::empty() =~= list_text(items));
}

/// The JSON list of the strings of `items`.
pub fn to_json_list(items: &Vec<String>) -> (r: String)
    ensures
        r@ == list_text(views(items@)),
{
    let mut out = String::new();
    push_list(&mut out, items);
    assert(out@ =~= list_text(views(items@)));
    out
}

/// The list of strings that a JSON text stands for.
pub fn from_json_list(text: &str) -> (r: Option<Vec<String>>)
    ensures
        match parse_list_text(text@) {
            Some(items) => r is Some && views(r.unwrap()@) == items,
            None => r is None,
        },
{
    let cs = to_chars(text);
    assert(cs@.skip(0) =~= cs@);
    match parse_list(&cs, 0) {
        Some((items, i)) => if i == cs.len() {
            Some(items)
        } else {
            None
        },
        None => None,
    }
}

/// The JSON text that `serde_json::to_string` writes for a list of
/// strings, or nothing where it writes none.
pub uninterp spec fn serde_list_text(items: Seq<Seq<char>>) -> Option<Seq<char>>;

/// Writes a list of strings as JSON with `serde_json`. Trusted: the
/// result is what `serde_json::to_string` gives for the list, a function
/// of the strings alone, and nothing where it fails.
#[verifier::external_body]
pub(crate) fn write_string_list(items: &Vec<String>) -> (r: Option<String>)
    ensures
        match r {
            Some(text) => serde_list_text(views(items@)) == Some(text@),
            None => serde_list_text(views(items@)) is None,
        },
{
    match serde_json::to_string(items) {
        Ok(text) => Some(text),
        Err(_) => None,
    }
}

/// The list of strings that `serde_json::from_str` reads from a text, or
/// nothing where it reads none.
pub uninterp spec fn serde_list_items(text: Seq<char>) -> Option<Seq<Seq<char>>>;

/// Reads a list of strings from JSON with `serde_json`. Trusted: the
/// result is what `serde_json::from_str` reads from the text as a list of
/// strings, a function of the text alone, and nothing where it refuses
/// the text.
#[verifier::external_body]
pub(crate) fn read_string_list(text: &str) -> (r: Option<Vec<String>>)
    ensures
        match r {
            Some(items) => serde_list_items(text@) == Some(views(items@)),
            None => serde_list_items(text@) is None,
        },
{
    match serde_json::from_str::<Vec<String>>(text) {
        Ok(items) => Some(items),
        Err(_) => None,
    }
}

} // verus!
