//! Serialization of request bodies as JSON text: string escaping, string
//! arrays, and object members. The serializer is written here and verified
//! against the spec-level rendering, so a body's exact wire text is pinned
//! down by the contracts.

use vstd::prelude::*;

verus! {

/// The character of a single hexadecimal digit.
pub open spec fn hex_digit(d: nat) -> char
    recommends
        d < 16,
{
    if d == 0 {
        '0'
    } else if d == 1 {
        '1'
    } else if d == 2 {
        '2'
    } else if d == 3 {
        '3'
    } else if d == 4 {
        '4'
    } else if d == 5 {
        '5'
    } else if d == 6 {
        '6'
    } else if d == 7 {
        '7'
    } else if d == 8 {
        '8'
    } else if d == 9 {
        '9'
    } else if d == 10 {
        'a'
    } else if d == 11 {
        'b'
    } else if d == 12 {
        'c'
    } else if d == 13 {
        'd'
    } else if d == 14 {
        'e'
    } else {
        'f'
    }
}

/// How one character is written inside a JSON string: quote and backslash
/// get a backslash escape, control characters a `\u00XX` escape, and every
/// other character stands as itself.
pub open spec fn escaped_char(c: char) -> Seq<char> {
    if c == '"' {
        seq!['\\', '"']
    } else if c == '\\' {
        seq!['\\', '\\']
    } else if (c as u32) < 32 {
        seq!['\\', 'u', '0', '0', hex_digit((c as u32 / 16) as nat), hex_digit(
            (c as u32 % 16) as nat,
        )]
    } else {
        seq![c]
    }
}

/// A character sequence with every character escaped for JSON.
pub open spec fn escaped(s: Seq<char>) -> Seq<char>
    decreases s.len(),
{
    if s.len() == 0 {
        Seq::empty()
    } else {
        escaped_char(s[0]) + escaped(s.drop_first())
    }
}

/// A JSON string literal: the escaped characters between quotes.
pub open spec fn quoted(s: Seq<char>) -> Seq<char> {
    seq!['"'] + escaped(s) + seq!['"']
}

/// The JSON rendering of a boolean.
pub open spec fn bool_text(b: bool) -> Seq<char> {
    if b {
        "true"@
    } else {
        "false"@
    }
}

/// The items of a JSON array of strings, comma-separated.
pub open spec fn string_array_items(elems: Seq<Seq<char>>) -> Seq<char>
    decreases elems.len(),
{
    if elems.len() == 0 {
        Seq::empty()
    } else if elems.len() == 1 {
        quoted(elems[0])
    } else {
        quoted(elems[0]) + seq![','] + string_array_items(elems.drop_first())
    }
}

/// A JSON array of strings.
pub open spec fn string_array(elems: Seq<Seq<char>>) -> Seq<char> {
    seq!['['] + string_array_items(elems) + seq![']']
}

/// An object member: the quoted key, a colon, and the already rendered
/// value.
pub open spec fn member(key: Seq<char>, value: Seq<char>) -> Seq<char> {
    quoted(key) + seq![':'] + value
}

/// Escaping distributes over appending one character.
proof fn lemma_escaped_snoc(s: Seq<char>, c: char)
    ensures
        escaped(s.push(c)) == escaped(s) + escaped_char(c),
    decreases s.len(),
{
    if s.len() == 0 {
        assert(s.push(c).len() == 1);
        assert(s.push(c)[0] == c);
        assert(s.push(c).drop_first() =~= Seq::<char>::empty());
        assert(escaped(s.push(c).drop_first()) =~= Seq::<char>::empty());
        assert(escaped(s.push(c)) =~= escaped(s) + escaped_char(c));
    } else {
        assert(s.push(c)[0] == s[0]);
        assert(s.push(c).drop_first() =~= s.drop_first().push(c));
        lemma_escaped_snoc(s.drop_first(), c);
        assert(escaped(s.push(c)) =~= escaped(s) + escaped_char(c));
    }
}

/// The items of an array grow by a comma and one more item.
proof fn lemma_items_snoc(elems: Seq<Seq<char>>, x: Seq<char>)
    ensures
        string_array_items(elems.push(x)) == if elems.len() == 0 {
            quoted(x)
        } else {
            string_array_items(elems) + seq![','] + quoted(x)
        },
    decreases elems.len(),
{
    if elems.len() == 0 {
        assert(elems.push(x)[0] == x);
        assert(string_array_items(elems.push(x)) =~= quoted(x));
    } else {
        assert(elems.push(x).drop_first() =~= elems.drop_first().push(x));
        lemma_items_snoc(elems.drop_first(), x);
        assert(string_array_items(elems.push(x)) =~= string_array_items(elems) + seq![',']
            + quoted(x));
    }
}

/// The one-character string of a single hexadecimal digit.
fn hex_str(d: u32) -> (r: &'static str)
    requires
        d < 16,
    ensures
        r@ == seq![hex_digit(d as nat)],
{
    proof {
        reveal_strlit("0");
        reveal_strlit("1");
        reveal_strlit("2");
        reveal_strlit("3");
        reveal_strlit("4");
        reveal_strlit("5");
        reveal_strlit("6");
        reveal_strlit("7");
        reveal_strlit("8");
        reveal_strlit("9");
        reveal_strlit("a");
        reveal_strlit("b");
        reveal_strlit("c");
        reveal_strlit("d");
        reveal_strlit("e");
        reveal_strlit("f");
    }
    let r: &'static str = match d {
        0 => "0",
        1 => "1",
        2 => "2",
        3 => "3",
        4 => "4",
        5 => "5",
        6 => "6",
        7 => "7",
        8 => "8",
        9 => "9",
        10 => "a",
        11 => "b",
        12 => "c",
        13 => "d",
        14 => "e",
        _ => "f",
    };
    proof {
        assert(r@ =~= seq![hex_digit(d as nat)]);
    }
    r
}

/// Escapes a string's characters for use inside a JSON string literal.
pub fn escape_json(s: &str) -> (r: String)
    ensures
        r@ == escaped(s@),
{
    let n = s.unicode_len();
    let mut out = String::new();
    let mut i: usize = 0;
    while i < n
        invariant
            i <= n,
            n == s@.len(),
            out@ == escaped(s@.subrange(0, i as int)),
        decreases n - i,
    {
        let c = s.get_char(i);
        if c == '"' {
            out.append("\\\"");
            proof {
                reveal_strlit("\\\"");
                assert("\\\""@ =~= escaped_char(c));
            }
        } else if c == '\\' {
            out.append("\\\\");
            proof {
                reveal_strlit("\\\\");
                assert("\\\\"@ =~= escaped_char(c));
            }
        } else if (c as u32) < 32 {
            out.append("\\u00");
            out.append(hex_str(c as u32 / 16));
            out.append(hex_str(c as u32 % 16));
            proof {
                reveal_strlit("\\u00");
                assert("\\u00"@ + seq![hex_digit((c as u32 / 16) as nat)] + seq![hex_digit(
                    (c as u32 % 16) as nat,
                )] =~= escaped_char(c));
            }
        } else {
            let piece = s.substring_char(i, i + 1);
            out.append(piece);
            proof {
                assert(piece@ =~= seq![s@[i as int]]);
            }
        }
        proof {
            assert(s@.subrange(0, i + 1 as int) =~= s@.subrange(0, i as int).push(s@[i as int]));
            lemma_escaped_snoc(s@.subrange(0, i as int), s@[i as int]);
        }
        i = i + 1;
    }
    proof {
        assert(s@.subrange(0, n as int) =~= s@);
    }
    out
}

/// Renders a string as a JSON string literal.
pub fn quote_json(s: &str) -> (r: String)
    ensures
        r@ == quoted(s@),
{
    let mut out = String::from_str("\"");
    let e = escape_json(s);
    out.append(e.as_str());
    out.append("\"");
    proof {
        reveal_strlit("\"");
        assert(out@ =~= quoted(s@));
    }
    out
}

/// Renders a boolean as JSON.
pub fn bool_json(b: bool) -> (r: &'static str)
    ensures
        r@ == bool_text(b),
{
    if b {
        "true"
    } else {
        "false"
    }
}

/// Renders a vector of strings as a JSON array.
pub fn string_array_json(v: &Vec<String>) -> (r: String)
    ensures
        r@ == string_array(v.deep_view()),
{
    let mut out = String::from_str("[");
    let mut i: usize = 0;
    proof {
        reveal_strlit("[");
        reveal_strlit("]");
        reveal_strlit(",");
        assert(v.deep_view().subrange(0, 0) =~= Seq::<Seq<char>>::empty());
        assert(string_array_items(Seq::<Seq<char>>::empty()) =~= Seq::<char>::empty());
        assert(out@ =~= seq!['['] + string_array_items(v.deep_view().subrange(0, 0)));
    }
    while i < v.len()
        invariant
            i <= v.len(),
            out@ == seq!['['] + string_array_items(v.deep_view().subrange(0, i as int)),
        decreases v.len() - i,
    {
        if i > 0 {
            out.append(",");
        }
        let q = quote_json(v[i].as_str());
        out.append(q.as_str());
        proof {
            reveal_strlit(",");
            let ghost elems = v.deep_view();
            assert(elems[i as int] == v@[i as int]@);
            assert(elems.subrange(0, i + 1 as int) =~= elems.subrange(0, i as int).push(
                elems[i as int],
            ));
            lemma_items_snoc(elems.subrange(0, i as int), elems[i as int]);
            assert(out@ =~= seq!['['] + string_array_items(elems.subrange(0, i + 1 as int)));
        }
        i = i + 1;
    }
    out.append("]");
    proof {
        reveal_strlit("]");
        assert(v.deep_view().subrange(0, v.len() as int) =~= v.deep_view());
        assert(out@ =~= string_array(v.deep_view()));
    }
    out
}

/// A member for an optional string field: absent fields contribute nothing
/// to the rendered object, never a null.
pub open spec fn opt_string_member(key: Seq<char>, o: Option<String>) -> Seq<char> {
    match o {
        Some(v) => seq![','] + member(key, quoted(v@)),
        None => Seq::empty(),
    }
}

/// A member for an optional boolean field; absent fields contribute
/// nothing.
pub open spec fn opt_bool_member(key: Seq<char>, o: Option<bool>) -> Seq<char> {
    match o {
        Some(b) => seq![','] + member(key, bool_text(b)),
        None => Seq::empty(),
    }
}

/// A member for an optional string-array field; absent fields contribute
/// nothing.
pub open spec fn opt_string_array_member(key: Seq<char>, o: Option<Vec<String>>) -> Seq<char> {
    match o {
        Some(v) => seq![','] + member(key, string_array(v.deep_view())),
        None => Seq::empty(),
    }
}

/// Appends an object member, quoting the key.
pub fn append_member(out: &mut String, key: &str, value: &str)
    ensures
        final(out)@ == old(out)@ + member(key@, value@),
{
    let q = quote_json(key);
    out.append(q.as_str());
    out.append(":");
    out.append(value);
    proof {
        reveal_strlit(":");
        assert(out@ =~= old(out)@ + member(key@, value@));
    }
}

/// Appends the member of an optional string field, or nothing.
pub fn append_opt_string_member(out: &mut String, key: &str, o: &Option<String>)
    ensures
        final(out)@ == old(out)@ + opt_string_member(key@, *o),
{
    match o {
        Some(v) => {
            out.append(",");
            let rendered = quote_json(v.as_str());
            append_member(out, key, rendered.as_str());
            proof {
                reveal_strlit(",");
                assert(out@ =~= old(out)@ + opt_string_member(key@, *o));
            }
        },
        None => {
            proof {
                assert(out@ =~= old(out)@ + opt_string_member(key@, *o));
            }
        },
    }
}

/// Appends the member of an optional boolean field, or nothing.
pub fn append_opt_bool_member(out: &mut String, key: &str, o: &Option<bool>)
    ensures
        final(out)@ == old(out)@ + opt_bool_member(key@, *o),
{
    match o {
        Some(b) => {
            out.append(",");
            append_member(out, key, bool_json(*b));
            proof {
                reveal_strlit(",");
                assert(out@ =~= old(out)@ + opt_bool_member(key@, *o));
            }
        },
        None => {
            proof {
                assert(out@ =~= old(out)@ + opt_bool_member(key@, *o));
            }
        },
    }
}

/// Appends the member of an optional string-array field, or nothing.
pub fn append_opt_string_array_member(out: &mut String, key: &str, o: &Option<Vec<String>>)
    ensures
        final(out)@ == old(out)@ + opt_string_array_member(key@, *o),
{
    match o {
        Some(v) => {
            out.append(",");
            let rendered = string_array_json(v);
            append_member(out, key, rendered.as_str());
            proof {
                reveal_strlit(",");
                assert(out@ =~= old(out)@ + opt_string_array_member(key@, *o));
            }
        },
        None => {
            proof {
                assert(out@ =~= old(out)@ + opt_string_array_member(key@, *o));
            }
        },
    }
}

} // verus!
