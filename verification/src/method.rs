//! Request methods and the case-insensitive classification of a method token.

use vstd::prelude::*;
use vstd::std_specs::convert::FromSpecImpl;
use vstd::string::*;
use vstd::utf8::is_ascii_chars;

verus! {

/// The HTTP verb of a request. A token that is none of the nine known verbs is
/// kept as it was written, borrowed from where it was read.
#[derive(Debug, Clone, Copy, PartialEq, Eq)]
pub enum Method<'a> {
    Options,
    Get,
    Post,
    Put,
    Delete,
    Head,
    Trace,
    Connect,
    Patch,
    Extension(&'a str),
}

/// A method as a mathematical value: a known verb, or the characters of an
/// extension token.
pub enum Verb {
    Options,
    Get,
    Post,
    Put,
    Delete,
    Head,
    Trace,
    Connect,
    Patch,
    Extension(Seq<char>),
}

impl<'a> View for Method<'a> {
    type V = Verb;

    open spec fn view(&self) -> Verb {
        match *self {
            Method::Options => Verb::Options,
            Method::Get => Verb::Get,
            Method::Post => Verb::Post,
            Method::Put => Verb::Put,
            Method::Delete => Verb::Delete,
            Method::Head => Verb::Head,
            Method::Trace => Verb::Trace,
            Method::Connect => Verb::Connect,
            Method::Patch => Verb::Patch,
            Method::Extension(token) => Verb::Extension(token@),
        }
    }
}

/// The ASCII lower-case form of a character: `A`..`Z` move to `a`..`z`, every
/// other character stays.
pub open spec fn lower(c: char) -> char {
    if 'A' <= c && c <= 'Z' {
        ((c as u8 + 32) as u8) as char
    } else {
        c
    }
}

/// A token with each character in ASCII lower case.
pub open spec fn folded(token: Seq<char>) -> Seq<char> {
    Seq::new(token.len(), |i: int| lower(token[i]))
}

/// The verb that a token stands for: one of the nine known verbs where the
/// token spells it in any mix of upper and lower case, the token itself
/// otherwise.
pub open spec fn verb(token: Seq<char>) -> Verb {
    let t = folded(token);
    if t == "options"@ {
        Verb::Options
    } else if t == "get"@ {
        Verb::Get
    } else if t == "post"@ {
        Verb::Post
    } else if t == "put"@ {
        Verb::Put
    } else if t == "delete"@ {
        Verb::Delete
    } else if t == "head"@ {
        Verb::Head
    } else if t == "trace"@ {
        Verb::Trace
    } else if t == "connect"@ {
        Verb::Connect
    } else if t == "patch"@ {
        Verb::Patch
    } else {
        Verb::Extension(token)
    }
}

/// The method that a borrowed token stands for. An extension keeps the very
/// token it was given.
pub open spec fn classify<'a>(token: &'a str) -> Method<'a> {
    match verb(token@) {
        Verb::Options => Method::Options,
        Verb::Get => Method::Get,
        Verb::Post => Method::Post,
        Verb::Put => Method::Put,
        Verb::Delete => Method::Delete,
        Verb::Head => Method::Head,
        Verb::Trace => Method::Trace,
        Verb::Connect => Method::Connect,
        Verb::Patch => Method::Patch,
        Verb::Extension(_) => Method::Extension(token),
    }
}

/// The ASCII lower-case form of an ASCII byte.
fn lower_byte(b: u8) -> (r: u8)
    requires
        b < 128,
    ensures
        r < 128,
        r as char == lower(b as char),
{
    // 'A' is 65, 'Z' is 90, and 'a' lies 32 above 'A'.
    if 65 <= b && b <= 90 {
        b + 32
    } else {
        b
    }
}

/// Whether `token`, read without regard to ASCII case, spells `word`.
fn spells(token: &str, word: &str) -> (r: bool)
    requires
        is_ascii(token),
        is_ascii(word),
    ensures
        r == (folded(token@) == word@),
{
    broadcast use is_ascii_spec_bytes;

    let t = token.as_bytes();
    let w = word.as_bytes();
    if t.len() != w.len() {
        return false;
    }
    let mut i: usize = 0;
    while i < t.len()
        invariant
            i <= t@.len(),
            t@.len() == w@.len(),
            t@ == token.spec_bytes(),
            w@ == word.spec_bytes(),
            is_ascii(token),
            is_ascii(word),
            forall|j: int| 0 <= j < i ==> lower(token@[j]) == word@[j],
        decreases t@.len() - i,
    {
        if lower_byte(t[i]) != w[i] {
            assert(folded(token@)[i as int] != word@[i as int]);
            return false;
        }
        i += 1;
    }
    assert(folded(token@) =~= word@);
    true
}

impl<'a> From<&'a str> for Method<'a> {
    /// Classifies a method token without regard to ASCII case.
    fn from(x: &'a str) -> (r: Self) {
        proof {
            reveal_strlit("options");
            reveal_strlit("get");
            reveal_strlit("post");
            reveal_strlit("put");
            reveal_strlit("delete");
            reveal_strlit("head");
            reveal_strlit("trace");
            reveal_strlit("connect");
            reveal_strlit("patch");
        }
        if !x.is_ascii() {
            proof {
                lemma_folded_keeps_ascii(x@);
            }
            return Method::Extension(x);
        }
        if spells(x, "options") {
            Method::Options
        } else if spells(x, "get") {
            Method::Get
        } else if spells(x, "post") {
            Method::Post
        } else if spells(x, "put") {
            Method::Put
        } else if spells(x, "delete") {
            Method::Delete
        } else if spells(x, "head") {
            Method::Head
        } else if spells(x, "trace") {
            Method::Trace
        } else if spells(x, "connect") {
            Method::Connect
        } else if spells(x, "patch") {
            Method::Patch
        } else {
            Method::Extension(x)
        }
    }
}

impl<'a> FromSpecImpl<&'a str> for Method<'a> {
    open spec fn obeys_from_spec() -> bool {
        true
    }

    open spec fn from_spec(x: &'a str) -> Self {
        classify(x)
    }
}

/// Folding the case of a token neither makes it ASCII nor stops it being so.
pub proof fn lemma_folded_keeps_ascii(token: Seq<char>)
    ensures
        is_ascii_chars(folded(token)) == is_ascii_chars(token),
{
    if is_ascii_chars(token) {
        assert forall|i: int| 0 <= i < folded(token).len() implies '\0' <= #[trigger] folded(
            token,
        )[i] <= '\u{7f}' by {
            assert('\0' <= token[i] <= '\u{7f}');
        }
    } else {
        let i = choose|i: int| 0 <= i < token.len() && !('\0' <= #[trigger] token[i] <= '\u{7f}');
        assert(folded(token)[i] == token[i]);
    }
}

/// The view of the method that a token is classified as is the verb of the
/// token's characters.
pub proof fn lemma_classify_view(token: &str)
    ensures
        classify(token)@ == verb(token@),
{
}

/// Classification is blind to ASCII case: two tokens that differ only in the
/// case of their letters are either both extensions or the same known verb.
pub proof fn lemma_verb_ignores_case(a: Seq<char>, b: Seq<char>)
    requires
        folded(a) == folded(b),
    ensures
        verb(a) is Extension <==> verb(b) is Extension,
        !(verb(a) is Extension) ==> verb(a) == verb(b),
{
}

/// A token that is no known verb is kept as it was written, in its own case.
pub proof fn lemma_extension_is_verbatim(token: &str)
    requires
        classify(token) is Extension,
    ensures
        classify(token) == Method::Extension(token),
        verb(token@) == Verb::Extension(token@),
{
}

/// Each known verb is what exactly the tokens that spell it are classified as,
/// whatever their case.
pub proof fn lemma_known_verbs(token: Seq<char>)
    ensures
        verb(token) == Verb::Options <==> folded(token) == "options"@,
        verb(token) == Verb::Get <==> folded(token) == "get"@,
        verb(token) == Verb::Post <==> folded(token) == "post"@,
        verb(token) == Verb::Put <==> folded(token) == "put"@,
        verb(token) == Verb::Delete <==> folded(token) == "delete"@,
        verb(token) == Verb::Head <==> folded(token) == "head"@,
        verb(token) == Verb::Trace <==> folded(token) == "trace"@,
        verb(token) == Verb::Connect <==> folded(token) == "connect"@,
        verb(token) == Verb::Patch <==> folded(token) == "patch"@,
{
    reveal_strlit("options");
    reveal_strlit("get");
    reveal_strlit("post");
    reveal_strlit("put");
    reveal_strlit("delete");
    reveal_strlit("head");
    reveal_strlit("trace");
    reveal_strlit("connect");
    reveal_strlit("patch");
    assert("options"@.len() == 7 && "connect"@.len() == 7 && "options"@[0] != "connect"@[0]);
    assert("get"@.len() == 3 && "put"@.len() == 3 && "get"@[0] != "put"@[0]);
    assert("post"@.len() == 4 && "head"@.len() == 4 && "post"@[0] != "head"@[0]);
    assert("trace"@.len() == 5 && "patch"@.len() == 5 && "trace"@[0] != "patch"@[0]);
    assert("delete"@.len() == 6);
}

} // verus!
