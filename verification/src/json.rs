//! Text as a JSON string, and the error envelope framed from such strings.

use vstd::prelude::*;
use vstd::string::*;

verus! {

/// The hexadecimal digit for a number below sixteen, in lower case.
pub open spec fn hex_digit(n: int) -> char {
    if n < 10 {
        ('0' as int + n) as char
    } else {
        ('a' as int + n - 10) as char
    }
}

/// How one character stands inside a JSON string: the quotation mark, the
/// reverse solidus and the control characters below U+0020 are escaped,
/// every other character stands for itself.
pub open spec fn escaped_char(c: char) -> Seq<char> {
    let n = c as int;
    if c == '"' {
        seq!['\\', '"']
    } else if c == '\\' {
        seq!['\\', '\\']
    } else if n == 0x08 {
        seq!['\\', 'b']
    } else if n == 0x09 {
        seq!['\\', 't']
    } else if n == 0x0A {
        seq!['\\', 'n']
    } else if n == 0x0C {
        seq!['\\', 'f']
    } else if n == 0x0D {
        seq!['\\', 'r']
    } else if n < 0x20 {
        seq!['\\', 'u', '0', '0', hex_digit(n / 16), hex_digit(n % 16)]
    } else {
        seq![c]
    }
}

/// The characters of a text, each as it stands inside a JSON string.
pub open spec fn escaped(s: Seq<char>) -> Seq<char>
    decreases s.len(),
{
    if s.len() == 0 {
        Seq::empty()
    } else {
        escaped(s.drop_last()) + escaped_char(s.last())
    }
}

/// The JSON string that holds the text `s`.
pub open spec fn json_string(s: Seq<char>) -> Seq<char> {
    seq!['"'] + escaped(s) + seq!['"']
}

/// Calls `serde_json::to_string` on a `str`, which writes the text between
/// quotation marks and escapes it as `escaped_char` says. For a `str` the
/// call does not fail: nothing is written but to memory.
#[verifier::external_body]
pub(crate) fn quote(s: &str) -> (q: String)
    ensures
        q@ == json_string(s@),
{
    serde_json::to_string(s).unwrap_or_default()
}

/// One member of a JSON object: the key and the value as JSON strings,
/// with a colon between them.
pub open spec fn member_text(pair: (String, String)) -> Seq<char> {
    json_string(pair.0@) + seq![':'] + json_string(pair.1@)
}

/// The members of a JSON object, with commas between them.
pub open spec fn members_text(pairs: Seq<(String, String)>) -> Seq<char>
    decreases pairs.len(),
{
    if pairs.len() == 0 {
        Seq::empty()
    } else if pairs.len() == 1 {
        member_text(pairs[0])
    } else {
        members_text(pairs.drop_last()) + seq![','] + member_text(pairs.last())
    }
}

/// The JSON object that holds the pairs given as its members, in their
/// order.
pub open spec fn object_text(pairs: Seq<(String, String)>) -> Seq<char> {
    seq!['{'] + members_text(pairs) + seq!['}']
}

/// The pairs of a list whose value is not empty, in their order.
pub open spec fn with_values(pairs: Seq<(String, String)>) -> Seq<(String, String)>
    decreases pairs.len(),
{
    if pairs.len() == 0 {
        Seq::empty()
    } else if pairs.last().1@.len() == 0 {
        with_values(pairs.drop_last())
    } else {
        with_values(pairs.drop_last()).push(pairs.last())
    }
}

/// The keys and values of a list of pairs, as texts.
pub open spec fn pairs_text(pairs: Seq<(String, String)>) -> Seq<(Seq<char>, Seq<char>)> {
    Seq::new(pairs.len(), |i: int| (pairs[i].0@, pairs[i].1@))
}

/// The pairs whose value is not empty, in their order.
pub fn keep_values(pairs: &Vec<(String, String)>) -> (kept: Vec<(String, String)>)
    ensures
        pairs_text(kept@) == pairs_text(with_values(pairs@)),
{
    let mut kept: Vec<(String, String)> = Vec::new();
    let mut i: usize = 0;
    assert(pairs@.take(0) == Seq::<(String, String)>::empty());
    assert(pairs_text(kept@) =~= pairs_text(with_values(pairs@.take(0))));
    while i < pairs.len()
        invariant
            i <= pairs@.len(),
            pairs_text(kept@) == pairs_text(with_values(pairs@.take(i as int))),
        decreases pairs@.len() - i,
    {
        let ghost done = with_values(pairs@.take(i as int));
        proof {
            let next = pairs@.take(i + 1);
            assert(next.drop_last() == pairs@.take(i as int));
            assert(next.last() == pairs@[i as int]);
        }
        if !pairs[i].1.as_str().is_empty() {
            let ghost before = kept@;
            kept.push((pairs[i].0.clone(), pairs[i].1.clone()));
            assert(pairs_text(kept@) =~= pairs_text(done.push(pairs@[i as int]))) by {
                assert(pairs_text(before) == pairs_text(done));
                assert(pairs_text(before).len() == before.len());
                assert(pairs_text(done).len() == done.len());
                assert forall|j: int| 0 <= j < kept@.len() implies pairs_text(kept@)[j]
                    == pairs_text(done.push(pairs@[i as int]))[j] by {
                    if j < before.len() {
                        assert(pairs_text(before)[j] == pairs_text(done)[j]);
                    }
                }
            }
        }
        i += 1;
    }
    assert(pairs@.take(i as int) == pairs@);
    kept
}

/// Writes the pairs whose value is not empty as a JSON object, without
/// white space.
pub fn object(pairs: &Vec<(String, String)>) -> (text: String)
    ensures
        text@ == object_text(with_values(pairs@)),
{
    let mut text = "{".to_owned();
    let ghost mut written: Seq<(String, String)> = Seq::empty();
    let mut first = true;
    let mut i: usize = 0;
    proof {
        reveal_strlit("{");
        reveal_strlit("}");
        reveal_strlit(",");
        reveal_strlit(":");
        assert(pairs@.take(0) == Seq::<(String, String)>::empty());
        assert(text@ =~= seq!['{'] + members_text(written));
    }
    while i < pairs.len()
        invariant
            i <= pairs@.len(),
            written == with_values(pairs@.take(i as int)),
            first == (written.len() == 0),
            text@ == seq!['{'] + members_text(written),
            ","@ == seq![','],
            ":"@ == seq![':'],
        decreases pairs@.len() - i,
    {
        proof {
            let next = pairs@.take(i + 1);
            assert(next.drop_last() == pairs@.take(i as int));
            assert(next.last() == pairs@[i as int]);
        }
        if !pairs[i].1.as_str().is_empty() {
            let ghost before = text@;
            if !first {
                text.append(",");
            }
            text.append(quote(pairs[i].0.as_str()).as_str());
            text.append(":");
            text.append(quote(pairs[i].1.as_str()).as_str());
            proof {
                let grown = written.push(pairs@[i as int]);
                assert(grown.drop_last() == written);
                assert(grown.last() == pairs@[i as int]);
                if written.len() == 0 {
                    assert(grown[0] == pairs@[i as int]);
                    assert(text@ =~= seq!['{'] + members_text(grown));
                } else {
                    assert(text@ =~= seq!['{'] + members_text(grown));
                }
                written = grown;
            }
            first = false;
        }
        i += 1;
    }
    assert(pairs@.take(i as int) == pairs@);
    text.append("}");
    text
}

} // verus!
