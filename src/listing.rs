use vstd::prelude::*;
use vstd::string::*;

use crate::command::PoolInfo;
use crate::error::{ErrorKind, PoolError, PoolResult};

verus! {

/// The lowercase hexadecimal digit of `d`, for `d < 16`.
pub open spec fn hex_digit(d: u32) -> char {
    seq!['0', '1', '2', '3', '4', '5', '6', '7', '8', '9', 'a', 'b', 'c', 'd', 'e', 'f'][d as int]
}

/// How one character stands inside a JSON string literal: a quote and a
/// backslash are escaped, backspace, tab, line feed, form feed and carriage
/// return take their short escapes, the other characters below U+0020 are
/// written `\u00` and two hexadecimal digits; every other character stands
/// as it is.
pub open spec fn escaped_char(c: char) -> Seq<char> {
    let n = c as u32;
    if c == '"' {
        seq!['\\', '"']
    } else if c == '\\' {
        seq!['\\', '\\']
    } else if n == 8 {
        seq!['\\', 'b']
    } else if n == 9 {
        seq!['\\', 't']
    } else if n == 10 {
        seq!['\\', 'n']
    } else if n == 12 {
        seq!['\\', 'f']
    } else if n == 13 {
        seq!['\\', 'r']
    } else if n < 32 {
        seq!['\\', 'u', '0', '0', hex_digit(n / 16), hex_digit(n % 16)]
    } else {
        seq![c]
    }
}

/// The characters of `s`, each escaped.
pub open spec fn escaped(s: Seq<char>) -> Seq<char>
    decreases s.len(),
{
    if s.len() == 0 {
        Seq::empty()
    } else {
        escaped(s.drop_last()) + escaped_char(s.last())
    }
}

/// The JSON string literal of the text `s`, as `serde_json` writes it.
pub open spec fn json_string_of(s: Seq<char>) -> Seq<char> {
    seq!['"'] + escaped(s) + seq!['"']
}

/// The catalog entry of one pool, whose name is already a JSON string
/// literal: `{"pool":<name>}`.
pub open spec fn entry_text(quoted: Seq<char>) -> Seq<char> {
    seq!['{', '"', 'p', 'o', 'o', 'l', '"', ':'] + quoted + seq!['}']
}

/// The entries of `quoted`, in order, separated by commas.
pub open spec fn entries_text(quoted: Seq<Seq<char>>) -> Seq<char>
    decreases quoted.len(),
{
    if quoted.len() == 0 {
        Seq::empty()
    } else if quoted.len() == 1 {
        entry_text(quoted[0])
    } else {
        entries_text(quoted.drop_last()) + seq![','] + entry_text(quoted.last())
    }
}

/// The JSON array of the catalog entries of `quoted`.
pub open spec fn listing_text(quoted: Seq<Seq<char>>) -> Seq<char> {
    seq!['['] + entries_text(quoted) + seq![']']
}

/// The names of `pools`, each as a JSON string literal.
pub open spec fn quoted_names(pools: Seq<PoolInfo>) -> Seq<Seq<char>> {
    pools.map_values(|p: PoolInfo| json_string_of(p.pool@))
}

pub open spec fn string_views(v: Seq<String>) -> Seq<Seq<char>> {
    v.map_values(|s: String| s@)
}

/// The error type of `serde_json`, carried through as it is.
#[verifier::external_type_specification]
#[verifier::external_body]
pub struct ExJsonError(serde_json::Error);

/// Relies on `serde_json::to_string` on a `str`: it writes into a `Vec`,
/// which cannot fail, and gives the JSON string literal of `s`.
#[verifier::external_body]
fn to_json_string(s: &str) -> (r: Result<String, serde_json::Error>)
    ensures
        r is Ok,
        r->Ok_0@ == json_string_of(s@),
{
    serde_json::to_string(s)
}

/// Writes the catalog listing from pool names that are already JSON string
/// literals.
pub fn frame_listing(quoted: &Vec<String>) -> (r: String)
    ensures
        r@ == listing_text(string_views(quoted@)),
{
    let ghost views = string_views(quoted@);
    let mut out = String::from_str("[");
    proof {
        reveal_strlit("[");
        assert(views.take(0) =~= Seq::<Seq<char>>::empty());
    }
    let mut i: usize = 0;
    while i < quoted.len()
        invariant
            i <= quoted@.len(),
            views == string_views(quoted@),
            out@ == seq!['['] + entries_text(views.take(i as int)),
        decreases quoted@.len() - i,
    {
        if i > 0 {
            out.append(",");
        }
        out.append("{\"pool\":");
        out.append(quoted[i].as_str());
        out.append("}");
        proof {
            reveal_strlit("{\"pool\":");
            reveal_strlit("}");
            reveal_strlit(",");
            let next = views.take(i + 1);
            assert(next.drop_last() =~= views.take(i as int));
            assert(next.last() == quoted@[i as int]@);
            assert(out@ =~= seq!['['] + entries_text(next));
        }
        i = i + 1;
    }
    proof {
        assert(views.take(quoted@.len() as int) =~= views);
    }
    out.append("]");
    proof {
        reveal_strlit("]");
        assert(out@ =~= listing_text(views));
    }
    out
}

/// Whether `r` is what a `List` command delivers when the pool service
/// listed `pools`. A service error is passed on as it is; otherwise the
/// listing, in which an empty catalog is `[]`.
pub open spec fn lists_as(pools: PoolResult<Vec<PoolInfo>>, r: PoolResult<String>) -> bool {
    match pools {
        Err(e) => r == Err::<String, PoolError>(e),
        Ok(v) => {
            &&& r is Ok
            &&& r->Ok_0@ == listing_text(quoted_names(v@))
            &&& v@.len() == 0 ==> r->Ok_0@ == seq!['[', ']']
        },
    }
}

/// Each pool name as a JSON string literal; nothing only where `serde_json`
/// could not write one, which its contract rules out.
fn quote_names(list: &Vec<PoolInfo>) -> (r: Option<Vec<String>>)
    ensures
        r is Some,
        string_views(r->0@) == quoted_names(list@),
{
    let mut quoted: Vec<String> = Vec::new();
    let mut i: usize = 0;
    while i < list.len()
        invariant
            i <= list@.len(),
            quoted@.len() == i,
            string_views(quoted@) =~= quoted_names(list@).take(i as int),
        decreases list@.len() - i,
    {
        match to_json_string(list[i].pool.as_str()) {
            Ok(q) => {
                quoted.push(q);
            },
            Err(_) => {
                return None;
            },
        }
        i = i + 1;
    }
    proof {
        assert(quoted_names(list@).take(list@.len() as int) =~= quoted_names(list@));
    }
    Some(quoted)
}

/// The result that a `List` command delivers, from what the pool service
/// listed.
pub fn list_result(pools: PoolResult<Vec<PoolInfo>>) -> (r: PoolResult<String>)
    ensures
        lists_as(pools, r),
{
    match pools {
        Err(e) => Err(e),
        Ok(list) => match quote_names(&list) {
            None => Err(
                PoolError::new(ErrorKind::InvalidState, String::from_str("Can't serialize pools list")),
            ),
            Some(quoted) => {
                let text = frame_listing(&quoted);
                proof {
                    if list@.len() == 0 {
                        assert(quoted@.len() == 0);
                        assert(string_views(quoted@) =~= Seq::<Seq<char>>::empty());
                        assert(text@ =~= seq!['[', ']']);
                    }
                }
                Ok(text)
            },
        },
    }
}

} // verus!
