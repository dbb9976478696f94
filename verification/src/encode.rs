//! Building the metadata payloads of the composed store operations.
//!
//! A composed store uploads the content first and then a small JSON document
//! that names the returned identifier together with the caller's name and
//! description. That document is built here, verified down to its exact
//! bytes: a JSON object `{"name":…,"description":…,"files":…}` whose strings
//! are escaped as JSON asks — quote, backslash and the control characters,
//! the five short escapes first, `\u00XX` for the rest.
use vstd::prelude::*;

use vstd::string::{StrSliceExecFns, StringExecFns};

use crate::types::seq_view;

verus! {

broadcast use vstd::std_specs::vec::group_vec_axioms, vstd::seq::group_seq_axioms;

/// The lower-case hexadecimal digit of `n`, for `0 <= n < 16`.
pub open spec fn hex_digit(n: int) -> char {
    if n == 0 {
        '0'
    } else if n == 1 {
        '1'
    } else if n == 2 {
        '2'
    } else if n == 3 {
        '3'
    } else if n == 4 {
        '4'
    } else if n == 5 {
        '5'
    } else if n == 6 {
        '6'
    } else if n == 7 {
        '7'
    } else if n == 8 {
        '8'
    } else if n == 9 {
        '9'
    } else if n == 10 {
        'a'
    } else if n == 11 {
        'b'
    } else if n == 12 {
        'c'
    } else if n == 13 {
        'd'
    } else if n == 14 {
        'e'
    } else {
        'f'
    }
}

/// How one character reads inside a JSON string literal.
pub open spec fn escaped_char(c: char) -> Seq<char> {
    if c == '"' {
        seq!['\\', '"']
    } else if c == '\\' {
        seq!['\\', '\\']
    } else if c == '\u{8}' {
        seq!['\\', 'b']
    } else if c == '\t' {
        seq!['\\', 't']
    } else if c == '\n' {
        seq!['\\', 'n']
    } else if c == '\u{c}' {
        seq!['\\', 'f']
    } else if c == '\r' {
        seq!['\\', 'r']
    } else if (c as u32) < 0x20 {
        seq!['\\', 'u', '0', '0', hex_digit(c as u32 as int / 16), hex_digit(c as u32 as int % 16)]
    } else {
        seq![c]
    }
}

/// The characters of `s` as they read inside a JSON string literal.
pub open spec fn escaped(s: Seq<char>) -> Seq<char>
    decreases s.len(),
{
    if s.len() == 0 {
        Seq::empty()
    } else {
        escaped(s.drop_last()) + escaped_char(s.last())
    }
}

/// `s` as a JSON string literal: escaped, between quotes.
pub open spec fn json_quoted(s: Seq<char>) -> Seq<char> {
    seq!['"'] + escaped(s) + seq!['"']
}

/// The metadata document's text: name, description, and under `files`
/// whatever JSON text `files_json` holds.
pub open spec fn spec_metadata_text(
    name: Seq<char>,
    description: Seq<char>,
    files_json: Seq<char>,
) -> Seq<char> {
    "{\"name\":"@ + json_quoted(name) + ",\"description\":"@ + json_quoted(description)
        + ",\"files\":"@ + files_json + "}"@
}

/// The payload of the second upload of the composed store: the metadata
/// document naming the identifier `cid`, as UTF-8 bytes.
pub open spec fn spec_metadata_payload(
    name: Seq<char>,
    description: Seq<char>,
    cid: Seq<char>,
) -> Seq<u8> {
    vstd::utf8::encode_utf8(spec_metadata_text(name, description, json_quoted(cid)))
}

/// The items as JSON string literals, separated by commas.
pub open spec fn spec_quoted_items(items: Seq<Seq<char>>) -> Seq<char>
    decreases items.len(),
{
    if items.len() == 0 {
        Seq::empty()
    } else if items.len() == 1 {
        json_quoted(items[0])
    } else {
        spec_quoted_items(items.drop_last()) + seq![','] + json_quoted(items.last())
    }
}

/// The items as a JSON array of string literals.
pub open spec fn spec_string_array(items: Seq<Seq<char>>) -> Seq<char> {
    seq!['['] + spec_quoted_items(items) + seq![']']
}

/// The native-scheme URL of the file `name` inside the directory `cid`.
pub open spec fn ipfs_file_link(cid: Seq<char>, name: Seq<char>) -> Seq<char> {
    "ipfs://"@ + cid + "/"@ + name
}

/// The native-scheme URLs of the named files inside the directory `cid`.
pub open spec fn ipfs_file_links(cid: Seq<char>, names: Seq<Seq<char>>) -> Seq<Seq<char>> {
    Seq::new(names.len(), |i: int| ipfs_file_link(cid, names[i]))
}

/// The payload of the second upload of the composed directory store: the
/// metadata document listing, under `files`, the native-scheme URL of each
/// named file inside the directory `cid`, as UTF-8 bytes.
pub open spec fn spec_directory_metadata_payload(
    name: Seq<char>,
    description: Seq<char>,
    cid: Seq<char>,
    file_names: Seq<Seq<char>>,
) -> Seq<u8> {
    vstd::utf8::encode_utf8(
        spec_metadata_text(name, description, spec_string_array(ipfs_file_links(cid, file_names))),
    )
}

/// The lower-case hexadecimal digit of `d` as a string.
fn hex_digit_str(d: u32) -> (r: &'static str)
    requires
        d < 16,
    ensures
        r@ == seq![hex_digit(d as int)],
{
    proof {
        reveal_strlit("0");
        reveal_strlit("1");
        reveal_strlit("2");
        reveal_strlit("3");
        reveal_strlit("4");
        reveal_strlit("5");
        reveal_strlit("6");
        reveal_strlit("7");
        reveal_strlit("8");
        reveal_strlit("9");
        reveal_strlit("a");
        reveal_strlit("b");
        reveal_strlit("c");
        reveal_strlit("d");
        reveal_strlit("e");
        reveal_strlit("f");
    }
    let r: &'static str = if d == 0 {
        "0"
    } else if d == 1 {
        "1"
    } else if d == 2 {
        "2"
    } else if d == 3 {
        "3"
    } else if d == 4 {
        "4"
    } else if d == 5 {
        "5"
    } else if d == 6 {
        "6"
    } else if d == 7 {
        "7"
    } else if d == 8 {
        "8"
    } else if d == 9 {
        "9"
    } else if d == 10 {
        "a"
    } else if d == 11 {
        "b"
    } else if d == 12 {
        "c"
    } else if d == 13 {
        "d"
    } else if d == 14 {
        "e"
    } else {
        "f"
    };
    proof {
        assert(r@ =~= seq![hex_digit(d as int)]);
    }
    r
}

/// Escape `s` for a JSON string literal. Mirrors [`escaped`].
pub fn json_escape(s: &str) -> (r: String)
    ensures
        r@ == escaped(s@),
{
    let n: usize = s.unicode_len();
    let mut out = String::new();
    let mut i: usize = 0;
    proof {
        assert(s@.take(0) =~= Seq::<char>::empty());
    }
    while i < n
        invariant
            n == s@.len(),
            0 <= i <= n,
            out@ == escaped(s@.take(i as int)),
        decreases n - i,
    {
        let c = s.get_char(i);
        if c == '"' {
            proof {
                reveal_strlit("\\\"");
                assert("\\\""@ =~= escaped_char(c));
            }
            out.append("\\\"");
        } else if c == '\\' {
            proof {
                reveal_strlit("\\\\");
                assert("\\\\"@ =~= escaped_char(c));
            }
            out.append("\\\\");
        } else if c == '\u{8}' {
            proof {
                reveal_strlit("\\b");
                assert("\\b"@ =~= escaped_char(c));
            }
            out.append("\\b");
        } else if c == '\t' {
            proof {
                reveal_strlit("\\t");
                assert("\\t"@ =~= escaped_char(c));
            }
            out.append("\\t");
        } else if c == '\n' {
            proof {
                reveal_strlit("\\n");
                assert("\\n"@ =~= escaped_char(c));
            }
            out.append("\\n");
        } else if c == '\u{c}' {
            proof {
                reveal_strlit("\\f");
                assert("\\f"@ =~= escaped_char(c));
            }
            out.append("\\f");
        } else if c == '\r' {
            proof {
                reveal_strlit("\\r");
                assert("\\r"@ =~= escaped_char(c));
            }
            out.append("\\r");
        } else if (c as u32) < 0x20 {
            let hi: u32 = c as u32 / 16;
            let lo: u32 = c as u32 % 16;
            let ghost before = out@;
            proof {
                reveal_strlit("\\u00");
            }
            out.append("\\u00");
            out.append(hex_digit_str(hi));
            out.append(hex_digit_str(lo));
            proof {
                assert(out@ =~= before + escaped_char(c));
            }
        } else {
            let piece = s.substring_char(i, i + 1);
            proof {
                assert(piece@ =~= escaped_char(c));
            }
            out.append(piece);
        }
        proof {
            assert(s@.take(i + 1).drop_last() =~= s@.take(i as int));
            assert(s@.take(i + 1).last() == s@[i as int]);
        }
        i = i + 1;
    }
    proof {
        assert(s@.take(i as int) =~= s@);
    }
    out
}

/// `s` as a JSON string literal. Mirrors [`json_quoted`].
pub fn json_quote(s: &str) -> (r: String)
    ensures
        r@ == json_quoted(s@),
{
    proof {
        reveal_strlit("\"");
    }
    let mut out = String::from_str("\"");
    let escaped_s = json_escape(s);
    out.append(escaped_s.as_str());
    out.append("\"");
    proof {
        assert(out@ =~= json_quoted(s@));
    }
    out
}

/// The metadata payload of the composed store: `{"name":…,"description":…,
/// "files":"<cid>"}` as UTF-8 bytes. Mirrors [`spec_metadata_payload`].
pub fn metadata_payload(nft_name: &str, description: &str, cid: &str) -> (r: Vec<u8>)
    ensures
        r@ == spec_metadata_payload(nft_name@, description@, cid@),
{
    let mut text = String::from_str("{\"name\":");
    let quoted_name = json_quote(nft_name);
    text.append(quoted_name.as_str());
    text.append(",\"description\":");
    let quoted_description = json_quote(description);
    text.append(quoted_description.as_str());
    text.append(",\"files\":");
    let quoted_cid = json_quote(cid);
    text.append(quoted_cid.as_str());
    text.append("}");
    proof {
        assert(text@ =~= spec_metadata_text(nft_name@, description@, json_quoted(cid@)));
    }
    text.as_str().as_bytes_vec()
}

/// The metadata payload of the composed directory store: the `files` array
/// holds the native-scheme URL of each named file inside the directory
/// `cid`. Mirrors [`spec_directory_metadata_payload`].
pub fn directory_metadata_payload(
    nft_name: &str,
    description: &str,
    cid: &str,
    file_names: &Vec<String>,
) -> (r: Vec<u8>)
    ensures
        r@ == spec_directory_metadata_payload(
            nft_name@,
            description@,
            cid@,
            seq_view(file_names@),
        ),
{
    let ghost names = seq_view(file_names@);
    let ghost links = ipfs_file_links(cid@, names);
    let mut arr = String::from_str("[");
    let mut i: usize = 0;
    proof {
        reveal_strlit("[");
        assert("["@ =~= seq!['[']);
        assert(links.take(0) =~= Seq::<Seq<char>>::empty());
    }
    while i < file_names.len()
        invariant
            names == seq_view(file_names@),
            links == ipfs_file_links(cid@, names),
            0 <= i <= file_names@.len(),
            names.len() == file_names@.len(),
            links.len() == file_names@.len(),
            arr@ == seq!['['] + spec_quoted_items(links.take(i as int)),
        decreases file_names@.len() - i,
    {
        if i > 0 {
            proof {
                reveal_strlit(",");
                assert(","@ =~= seq![',']);
            }
            arr.append(",");
        }
        let link = String::from_str("ipfs://").concat(cid).concat("/").concat(
            file_names[i].as_str(),
        );
        proof {
            assert(names[i as int] == file_names@[i as int]@);
            assert(link@ == ipfs_file_link(cid@, names[i as int]));
            assert(links[i as int] == ipfs_file_link(cid@, names[i as int]));
        }
        let quoted_link = json_quote(link.as_str());
        arr.append(quoted_link.as_str());
        proof {
            assert(links.take(i + 1).drop_last() =~= links.take(i as int));
            assert(links.take(i + 1).last() == links[i as int]);
            assert(arr@ =~= seq!['['] + spec_quoted_items(links.take(i + 1)));
        }
        i = i + 1;
    }
    proof {
        reveal_strlit("]");
        assert("]"@ =~= seq![']']);
        assert(links.take(i as int) =~= links);
    }
    arr.append("]");
    proof {
        assert(arr@ =~= spec_string_array(links));
    }
    let mut text = String::from_str("{\"name\":");
    let quoted_name = json_quote(nft_name);
    text.append(quoted_name.as_str());
    text.append(",\"description\":");
    let quoted_description = json_quote(description);
    text.append(quoted_description.as_str());
    text.append(",\"files\":");
    text.append(arr.as_str());
    text.append("}");
    proof {
        assert(text@ =~= spec_metadata_text(nft_name@, description@, spec_string_array(links)));
    }
    text.as_str().as_bytes_vec()
}

} // verus!
