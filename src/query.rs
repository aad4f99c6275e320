//! The search text sent to the MusicBrainz recording search.
use vstd::prelude::*;
use vstd::string::StringExecFns;

verus! {

/// One character as it stands inside a quoted search term.
pub open spec fn escape_char(c: char) -> Seq<char> {
    if c == '\\' {
        seq!['\\', '\\']
    } else if c == '"' {
        seq!['\\', '"']
    } else {
        seq![c]
    }
}

/// `s` with every backslash and double quote preceded by a backslash.
pub open spec fn escaped(s: Seq<char>) -> Seq<char>
    decreases s.len(),
{
    if s.len() == 0 {
        Seq::empty()
    } else {
        escaped(s.drop_last()) + escape_char(s.last())
    }
}

/// Relies on `ToString::to_string` for `char`: the one-character string.
#[verifier::external_body]
fn char_text(c: char) -> (r: String)
    ensures
        r@ == seq![c],
{
    c.to_string()
}

/// Escapes a value for use inside a quoted search term.
pub fn escape_query(s: &str) -> (r: String)
    ensures
        r@ == escaped(s@),
{
    let mut out = String::new();
    let n = s.unicode_len();
    let mut i: usize = 0;
    while i < n
        invariant
            i <= n,
            n == s@.len(),
            out@ == escaped(s@.take(i as int)),
        decreases n - i,
    {
        let c = s.get_char(i);
        proof {
            reveal_strlit("\\\\");
            reveal_strlit("\\\"");
            assert(s@.take(i + 1).drop_last() == s@.take(i as int));
            assert(s@.take(i + 1).last() == c);
        }
        if c == '\\' {
            out.append("\\\\");
        } else if c == '"' {
            out.append("\\\"");
        } else {
            let t = char_text(c);
            out.append(t.as_str());
        }
        i = i + 1;
    }
    assert(s@.take(n as int) == s@);
    out
}

/// `field:"value"`, the value escaped.
pub open spec fn query_term(field: Seq<char>, value: Seq<char>) -> Seq<char> {
    field + seq![':', '"'] + escaped(value) + seq!['"']
}

/// The terms present, in order.
pub open spec fn query_terms(title: Option<Seq<char>>, artist: Option<Seq<char>>, album: Option<Seq<char>>) -> Seq<Seq<char>> {
    let t = match title {
        Some(v) => seq![query_term("recording"@, v)],
        None => Seq::empty(),
    };
    let a = match artist {
        Some(v) => seq![query_term("artist"@, v)],
        None => Seq::empty(),
    };
    let r = match album {
        Some(v) => seq![query_term("release"@, v)],
        None => Seq::empty(),
    };
    t + a + r
}

/// The terms joined by ` AND `.
pub open spec fn joined(terms: Seq<Seq<char>>) -> Seq<char>
    decreases terms.len(),
{
    if terms.len() == 0 {
        Seq::empty()
    } else if terms.len() == 1 {
        terms[0]
    } else {
        joined(terms.drop_last()) + " AND "@ + terms.last()
    }
}

pub open spec fn opt_view(o: Option<&str>) -> Option<Seq<char>> {
    match o {
        Some(s) => Some(s@),
        None => None,
    }
}

fn append_term(query: &mut String, field: &str, value: &str)
    ensures
        final(query)@ == old(query)@ + query_term(field@, value@),
{
    proof {
        reveal_strlit(":\"");
        reveal_strlit("\"");
    }
    query.append(field);
    query.append(":\"");
    let v = escape_query(value);
    query.append(v.as_str());
    query.append("\"");
}

/// The search text for a recording: a term for each of title, artist and
/// album that is known, joined by ` AND `.
pub fn build_query(title: Option<&str>, artist: Option<&str>, album: Option<&str>) -> (r: String)
    ensures
        r@ == joined(query_terms(opt_view(title), opt_view(artist), opt_view(album))),
{
    let ghost mut terms: Seq<Seq<char>> = Seq::empty();
    let mut query = String::new();
    let mut any = false;
    proof {
        reveal_strlit(" AND ");
        reveal_strlit("recording");
        reveal_strlit("artist");
        reveal_strlit("release");
    }
    if let Some(v) = title {
        let ghost before = terms;
        append_term(&mut query, "recording", v);
        any = true;
        proof {
            terms = terms.push(query_term("recording"@, v@));
            assert(terms.drop_last() == before);
        }
    }
    assert(query@ == joined(terms) && any == (terms.len() > 0));
    if let Some(v) = artist {
        let ghost before = terms;
        if any {
            query.append(" AND ");
        }
        append_term(&mut query, "artist", v);
        any = true;
        proof {
            terms = terms.push(query_term("artist"@, v@));
            assert(terms.drop_last() == before);
        }
    }
    assert(query@ == joined(terms) && any == (terms.len() > 0));
    if let Some(v) = album {
        let ghost before = terms;
        if any {
            query.append(" AND ");
        }
        append_term(&mut query, "release", v);
        proof {
            terms = terms.push(query_term("release"@, v@));
            assert(terms.drop_last() == before);
        }
    }
    assert(terms == query_terms(opt_view(title), opt_view(artist), opt_view(album)));
    query
}

} // verus!
