//! The text of JSON strings, objects and arrays: strings are escaped as
//! serde_json writes them, and objects and arrays are built from members whose
//! values are already encoded.
use vstd::prelude::*;

verus! {

/// The lowercase hexadecimal digit for `n`, below 16.
pub open spec fn hex_digit(n: int) -> char {
    seq!['0', '1', '2', '3', '4', '5', '6', '7', '8', '9', 'a', 'b', 'c', 'd', 'e', 'f'][n]
}

/// How one character is written inside a JSON string: `"` and `\` behind a
/// backslash; backspace, tab, line feed, form feed and carriage return as
/// `\b`, `\t`, `\n`, `\f`, `\r`; the other characters below U+0020 as
/// `\u00` and two lowercase hexadecimal digits; every other character as it
/// is.
pub open spec fn escaped_char(c: char) -> Seq<char> {
    if c == '"' {
        seq!['\\', '"']
    } else if c == '\\' {
        seq!['\\', '\\']
    } else if c == '\u{8}' {
        seq!['\\', 'b']
    } else if c == '\t' {
        seq!['\\', 't']
    } else if c == '\n' {
        seq!['\\', 'n']
    } else if c == '\u{c}' {
        seq!['\\', 'f']
    } else if c == '\r' {
        seq!['\\', 'r']
    } else if (c as u32) < 0x20 {
        seq!['\\', 'u', '0', '0', hex_digit((c as u32) as int / 16), hex_digit((c as u32) as int % 16)]
    } else {
        seq![c]
    }
}

/// The characters of `s`, each written as inside a JSON string.
pub open spec fn escaped(s: Seq<char>) -> Seq<char>
    decreases s.len(),
{
    if s.len() == 0 {
        Seq::empty()
    } else {
        escaped(s.drop_last()) + escaped_char(s.last())
    }
}

/// The JSON string literal that encodes `s`: `s` escaped, between quotes.
pub open spec fn json_string_of(s: Seq<char>) -> Seq<char> {
    seq!['"'] + escaped(s) + seq!['"']
}

/// No character of `s` needs escaping.
pub open spec fn plain(s: Seq<char>) -> bool {
    forall|i: int|
        0 <= i < s.len() ==> #[trigger] s[i] != '"' && s[i] != '\\' && (s[i] as u32) >= 0x20
}

proof fn lemma_plain_escaped(s: Seq<char>)
    requires
        plain(s),
    ensures
        escaped(s) == s,
    decreases s.len(),
{
    if s.len() > 0 {
        let t = s.drop_last();
        assert(plain(t)) by {
            assert forall|i: int| 0 <= i < t.len() implies #[trigger] t[i] != '"' && t[i] != '\\' && (
            t[i] as u32) >= 0x20 by {
                assert(t[i] == s[i]);
            }
        }
        lemma_plain_escaped(t);
        assert(s.last() == s[s.len() - 1]);
        assert(escaped_char(s.last()) == seq![s.last()]);
        assert(escaped(s) =~= s);
    }
}

/// A string that needs no escaping is written as it is, between quotes.
pub proof fn lemma_plain_string(s: Seq<char>)
    requires
        plain(s),
    ensures
        json_string_of(s) == seq!['"'] + s + seq!['"'],
{
    lemma_plain_escaped(s);
}

#[verifier::external_type_specification]
#[verifier::external_body]
pub struct ExJsonError(serde_json::Error);

/// Relies on `serde_json::to_string` applied to a `str`: the result is the JSON
/// string literal for `s`, written by the escape table of its serializer into
/// a `Vec<u8>`, so it is always `Ok`.
#[verifier::external_body]
fn quote(s: &str) -> (r: Result<String, serde_json::Error>)
    ensures
        r is Ok,
        r matches Ok(q) ==> q@ == json_string_of(s@),
{
    serde_json::to_string(s)
}

/// The JSON string literal for `s`.
pub fn json_string(s: &str) -> (r: String)
    ensures
        r@ == json_string_of(s@),
{
    match quote(s) {
        Ok(q) => q,
        Err(_) => {
            proof {
                assert(false);
            }
            String::new()
        },
    }
}

/// Parts separated by commas.
pub open spec fn joined(parts: Seq<Seq<char>>) -> Seq<char>
    decreases parts.len(),
{
    if parts.len() == 0 {
        Seq::empty()
    } else if parts.len() == 1 {
        parts[0]
    } else {
        joined(parts.drop_last()) + seq![','] + parts.last()
    }
}

/// One member of an object: the quoted key, a colon, the encoded value.
pub open spec fn member_text(m: (Seq<char>, Seq<char>)) -> Seq<char> {
    seq!['"'] + m.0 + seq!['"', ':'] + m.1
}

/// An object with the given members, in the given order.
pub open spec fn object(members: Seq<(Seq<char>, Seq<char>)>) -> Seq<char> {
    seq!['{'] + joined(members.map_values(|m: (Seq<char>, Seq<char>)| member_text(m))) + seq!['}']
}

/// An array of the given encoded elements, in the given order.
pub open spec fn array(elems: Seq<Seq<char>>) -> Seq<char> {
    seq!['['] + joined(elems) + seq![']']
}

/// The view of members whose values are encoded text.
pub open spec fn members_view(m: Seq<(&str, String)>) -> Seq<(Seq<char>, Seq<char>)> {
    m.map_values(|p: (&str, String)| (p.0@, p.1@))
}

/// The views of the strings, in order.
pub open spec fn strings_view(v: Seq<String>) -> Seq<Seq<char>> {
    v.map_values(|s: String| s@)
}

proof fn lemma_joined_push(parts: Seq<Seq<char>>, p: Seq<char>)
    ensures
        joined(parts.push(p)) == if parts.len() == 0 {
            p
        } else {
            joined(parts) + seq![','] + p
        },
{
    assert(parts.push(p).drop_last() =~= parts);
}

/// Appends `parts`, separated by commas, to `out`.
fn append_joined(out: &mut String, parts: &Vec<String>)
    ensures
        final(out)@ == old(out)@ + joined(strings_view(parts@)),
{
    let ghost start = out@;
    let mut i: usize = 0;
    while i < parts.len()
        invariant
            i <= parts.len(),
            out@ == start + joined(strings_view(parts@.take(i as int))),
        decreases parts.len() - i,
    {
        proof {
            reveal_strlit(",");
            assert(strings_view(parts@.take(i as int + 1)) =~= strings_view(parts@.take(i as int)).push(
                parts@[i as int]@,
            ));
            lemma_joined_push(strings_view(parts@.take(i as int)), parts@[i as int]@);
        }
        if i > 0 {
            out.append(",");
        }
        out.append(parts[i].as_str());
        i = i + 1;
    }
    assert(parts@.take(parts.len() as int) =~= parts@);
}

/// The text of one member.
fn member(key: &str, value: &String) -> (r: String)
    ensures
        r@ == member_text((key@, value@)),
{
    let mut r = String::from_str("\"");
    r.append(key);
    r.append("\":");
    r.append(value.as_str());
    proof {
        reveal_strlit("\"");
        reveal_strlit("\":");
    }
    r
}

/// The text of an object with the given members.
pub(crate) fn render_object(members: &Vec<(&str, String)>) -> (r: String)
    ensures
        r@ == object(members_view(members@)),
{
    let mut parts: Vec<String> = Vec::new();
    let mut i: usize = 0;
    while i < members.len()
        invariant
            i <= members.len(),
            strings_view(parts@) =~= members_view(members@.take(i as int)).map_values(
                |m: (Seq<char>, Seq<char>)| member_text(m),
            ),
        decreases members.len() - i,
    {
        let (k, v) = &members[i];
        let t = member(k, v);
        proof {
            assert(members@.take(i as int + 1) =~= members@.take(i as int).push(members@[i as int]));
        }
        let ghost before = parts@;
        parts.push(t);
        proof {
            assert(parts@ =~= before.push(t));
            assert(t@ == member_text((members@[i as int].0@, members@[i as int].1@)));
            assert(members_view(members@.take(i as int + 1)) =~= members_view(
                members@.take(i as int),
            ).push((members@[i as int].0@, members@[i as int].1@)));
            assert(strings_view(before.push(t)) =~= strings_view(before).push(t@));
            let mv = members_view(members@.take(i as int));
            let m = (members@[i as int].0@, members@[i as int].1@);
            assert(mv.push(m).map_values(|m: (Seq<char>, Seq<char>)| member_text(m)) =~= mv.map_values(
                |m: (Seq<char>, Seq<char>)| member_text(m),
            ).push(member_text(m)));
            assert(strings_view(parts@) =~= members_view(members@.take(i as int + 1)).map_values(
                |m: (Seq<char>, Seq<char>)| member_text(m),
            ));
        }
        i = i + 1;
    }
    assert(members@.take(members.len() as int) =~= members@);
    let mut r = String::from_str("{");
    append_joined(&mut r, &parts);
    r.append("}");
    proof {
        reveal_strlit("{");
        reveal_strlit("}");
    }
    r
}

/// The text of an array of the given encoded elements.
pub(crate) fn render_array(elems: &Vec<String>) -> (r: String)
    ensures
        r@ == array(strings_view(elems@)),
{
    let mut r = String::from_str("[");
    append_joined(&mut r, elems);
    r.append("]");
    proof {
        reveal_strlit("[");
        reveal_strlit("]");
    }
    r
}

} // verus!
