//! Build-trigger parameters: key/value pairs, `@file` value expansion,
//! construction from `key=value` tokens or from a JSON document, and the JSON
//! serialization sent to the server when triggering a build.
//!
//! Reading a referenced file is the caller's work: constructors take the file
//! content, if one was read, and [`Parameter::file_reference_of`] says which
//! file a raw value asks for.

use vstd::prelude::*;
use vstd::string::*;
use crate::json::{array_len, array_len_of, element_pair, pair_of};
use crate::text::{push_char, spec_split_pair, split_pair};

verus! {

/// The stored value of a parameter: a raw value beginning with `@` names a
/// file and is replaced by that file's content, or by nothing when the file
/// was unreadable; any other raw value is stored as it is.
pub open spec fn resolved_value(raw: Seq<char>, content: Option<Seq<char>>) -> Seq<char> {
    if raw.len() > 0 && raw[0] == '@' {
        match content {
            Some(c) => c,
            None => Seq::empty(),
        }
    } else {
        raw
    }
}

/// A raw value that does not begin with `@` is stored exactly as given,
/// whatever file content a caller supplies alongside it.
pub proof fn lemma_plain_value_identity(raw: Seq<char>, content: Option<Seq<char>>)
    requires
        raw.len() == 0 || raw[0] != '@',
    ensures
        resolved_value(raw, content) == raw,
{
}

/// A raw value that begins with `@` is stored as the file content that was
/// read for it, and as nothing at all when no content could be read.
pub proof fn lemma_file_value_substitution(raw: Seq<char>, content: Option<Seq<char>>)
    requires
        raw.len() > 0 && raw[0] == '@',
    ensures
        resolved_value(raw, content) == (match content {
            Some(c) => c,
            None => Seq::<char>::empty(),
        }),
{
}

/// The file a raw value refers to: the rest of the value after a leading `@`.
pub open spec fn file_reference(raw: Seq<char>) -> Option<Seq<char>> {
    if raw.len() > 0 && raw[0] == '@' {
        Some(raw.subrange(1, raw.len() as int))
    } else {
        None
    }
}

/// One build-trigger key/value pair. The value is always fully resolved: it
/// never holds an unexpanded `@file` reference.
pub struct Parameter {
    pub name: String,
    pub value: String,
}

impl View for Parameter {
    type V = (Seq<char>, Seq<char>);

    open spec fn view(&self) -> (Seq<char>, Seq<char>) {
        (self.name@, self.value@)
    }
}

impl Parameter {
    /// Builds one parameter, expanding a `@file` raw value into the supplied
    /// file content (or into nothing when none could be read).
    pub fn new(name: &str, raw_value: &str, file_content: Option<&str>) -> (p: Parameter)
        ensures
            p@.0 == name@,
            p@.1 == resolved_value(raw_value@, file_content.deep_view()),
    {
        let n: usize = raw_value.unicode_len();
        let value: String = if n > 0 && raw_value.get_char(0) == '@' {
            match file_content {
                Some(c) => c.to_owned(),
                None => String::new(),
            }
        } else {
            raw_value.to_owned()
        };
        proof {
            assert(value@ =~= resolved_value(raw_value@, file_content.deep_view()));
        }
        Parameter { name: name.to_owned(), value }
    }

    /// The file a raw value asks to be expanded from, if any.
    pub fn file_reference_of(raw_value: &str) -> (r: Option<String>)
        ensures
            r.deep_view() == file_reference(raw_value@),
    {
        let n: usize = raw_value.unicode_len();
        if n > 0 && raw_value.get_char(0) == '@' {
            Some(raw_value.substring_char(1, n).to_owned())
        } else {
            None
        }
    }
}

/// The pairs an ordered token list yields: each token holding an `=` is split
/// at its first one and its value resolved against the matching content entry;
/// a token without an `=` is dropped.
pub open spec fn keyed_pairs(tokens: Seq<Seq<char>>, contents: Seq<Option<Seq<char>>>) -> Seq<
    (Seq<char>, Seq<char>),
>
    recommends
        tokens.len() == contents.len(),
    decreases tokens.len(),
{
    if tokens.len() == 0 {
        Seq::empty()
    } else {
        let front = keyed_pairs(tokens.drop_last(), contents.drop_last());
        match spec_split_pair(tokens.last()) {
            Some(p) => front.push((p.0, resolved_value(p.1, contents.last()))),
            None => front,
        }
    }
}

/// The character standing for a hex digit below sixteen, lower case.
pub open spec fn hex_digit_char(d: u64) -> char
    recommends
        d < 16,
{
    if d < 10 {
        ((d + 0x30) as u8) as char
    } else {
        ((d + 0x57) as u8) as char
    }
}

/// The JSON string-literal escape of one character: the two-character escapes
/// JSON names, a `\u00..` escape for the remaining control characters, and
/// the character itself otherwise.
pub open spec fn escaped_char(c: char) -> Seq<char> {
    if c == '"' {
        seq!['\\', '"']
    } else if c == '\\' {
        seq!['\\', '\\']
    } else if c == '\n' {
        seq!['\\', 'n']
    } else if c == '\r' {
        seq!['\\', 'r']
    } else if c == '\t' {
        seq!['\\', 't']
    } else if (c as u32) < 0x20 {
        seq!['\\', 'u', '0', '0', hex_digit_char(((c as u32) / 16) as u64), hex_digit_char(
            ((c as u32) % 16) as u64,
        )]
    } else {
        seq![c]
    }
}

/// The body of the JSON string literal for `s`: every character escaped.
pub open spec fn escaped(s: Seq<char>) -> Seq<char>
    decreases s.len(),
{
    if s.len() == 0 {
        Seq::empty()
    } else {
        escaped(s.drop_last()) + escaped_char(s.last())
    }
}

/// The JSON object one parameter serializes to.
pub open spec fn parameter_json(p: (Seq<char>, Seq<char>)) -> Seq<char> {
    "{\"name\":\""@ + escaped(p.0) + "\",\"value\":\""@ + escaped(p.1) + "\"}"@
}

/// The comma-separated serializations of a parameter sequence, in order.
pub open spec fn parameters_json(ps: Seq<(Seq<char>, Seq<char>)>) -> Seq<char>
    decreases ps.len(),
{
    if ps.len() == 0 {
        Seq::empty()
    } else if ps.len() == 1 {
        parameter_json(ps[0])
    } else {
        parameters_json(ps.drop_last()) + seq![','] + parameter_json(ps.last())
    }
}

/// The single JSON object a parameter list serializes to: one named
/// `parameter` array.
pub open spec fn list_json(ps: Seq<(Seq<char>, Seq<char>)>) -> Seq<char> {
    "{\"parameter\":["@ + parameters_json(ps) + "]}"@
}

fn push_hex_digit(s: &mut String, d: u64)
    requires
        d < 16,
    ensures
        final(s)@ == old(s)@.push(hex_digit_char(d)),
{
    if d < 10 {
        push_char(s, (0x30u8 + d as u8) as char);
    } else {
        push_char(s, (0x57u8 + d as u8) as char);
    }
}

fn push_escaped_char(s: &mut String, c: char)
    ensures
        final(s)@ == old(s)@ + escaped_char(c),
{
    if c == '"' {
        push_char(s, '\\');
        push_char(s, '"');
    } else if c == '\\' {
        push_char(s, '\\');
        push_char(s, '\\');
    } else if c == '\n' {
        push_char(s, '\\');
        push_char(s, 'n');
    } else if c == '\r' {
        push_char(s, '\\');
        push_char(s, 'r');
    } else if c == '\t' {
        push_char(s, '\\');
        push_char(s, 't');
    } else if (c as u32) < 0x20 {
        let u: u32 = c as u32;
        push_char(s, '\\');
        push_char(s, 'u');
        push_char(s, '0');
        push_char(s, '0');
        push_hex_digit(s, (u / 16) as u64);
        push_hex_digit(s, (u % 16) as u64);
    } else {
        push_char(s, c);
    }
    proof {
        assert(s@ =~= old(s)@ + escaped_char(c));
    }
}

fn push_escaped(s: &mut String, t: &str)
    ensures
        final(s)@ == old(s)@ + escaped(t@),
{
    let n: usize = t.unicode_len();
    let mut i: usize = 0;
    while i < n
        invariant
            i <= n,
            n == t@.len(),
            s@ == old(s)@ + escaped(t@.subrange(0, i as int)),
        decreases n - i,
    {
        let c = t.get_char(i);
        push_escaped_char(s, c);
        proof {
            assert(t@.subrange(0, i + 1 as int).drop_last() =~= t@.subrange(0, i as int));
            assert(t@.subrange(0, i + 1 as int).last() == t@[i as int]);
            assert(s@ =~= old(s)@ + escaped(t@.subrange(0, i + 1 as int)));
        }
        i += 1;
    }
    proof {
        assert(t@.subrange(0, n as int) =~= t@);
    }
}

fn push_parameter_json(s: &mut String, p: &Parameter)
    ensures
        final(s)@ == old(s)@ + parameter_json(p@),
{
    s.append("{\"name\":\"");
    push_escaped(s, p.name.as_str());
    s.append("\",\"value\":\"");
    push_escaped(s, p.value.as_str());
    s.append("\"}");
    proof {
        assert(s@ =~= old(s)@ + parameter_json(p@));
    }
}

/// The parameter pairs a JSON document yields: for a top-level array whose
/// every element holds string `name` and `value` fields, the pairs in order;
/// an empty sequence for any other document — the lenient-by-default policy.
pub open spec fn decoded_pairs_of(body: Seq<char>) -> Seq<(Seq<char>, Seq<char>)> {
    match array_len_of(body) {
        Some(n) => if forall|i: int| 0 <= i < n ==> (#[trigger] pair_of(body, i)) is Some {
            Seq::new(
                n as nat,
                |i: int|
                    match pair_of(body, i) {
                        Some(p) => p,
                        None => (Seq::empty(), Seq::empty()),
                    },
            )
        } else {
            Seq::empty()
        },
        None => Seq::empty(),
    }
}

/// An ordered sequence of parameters, sent to the server as one JSON object
/// holding a single `parameter` array.
pub struct ParameterList {
    pub parameters: Vec<Parameter>,
}

impl View for ParameterList {
    type V = Seq<(Seq<char>, Seq<char>)>;

    open spec fn view(&self) -> Seq<(Seq<char>, Seq<char>)> {
        Seq::new(self.parameters@.len(), |i: int| self.parameters@[i]@)
    }
}

impl ParameterList {
    pub fn new() -> (l: ParameterList)
        ensures
            l@ == Seq::<(Seq<char>, Seq<char>)>::empty(),
    {
        let l = ParameterList { parameters: Vec::new() };
        proof {
            assert(l@ =~= Seq::<(Seq<char>, Seq<char>)>::empty());
        }
        l
    }

    /// Appends one parameter built from a raw value and the content of the
    /// file it references, if it references one and the file was readable.
    pub fn add(&mut self, name: &str, raw_value: &str, file_content: Option<&str>)
        ensures
            final(self)@ == old(self)@.push(
                (name@, resolved_value(raw_value@, file_content.deep_view())),
            ),
    {
        self.parameters.push(Parameter::new(name, raw_value, file_content));
        proof {
            assert(self@ =~= old(self)@.push(
                (name@, resolved_value(raw_value@, file_content.deep_view())),
            ));
        }
    }

    /// Appends one parameter per pair, resolving each value against the
    /// matching content entry.
    pub fn add_list(&mut self, pairs: &Vec<(String, String)>, contents: &Vec<Option<String>>)
        requires
            pairs@.len() == contents@.len(),
        ensures
            final(self)@ == old(self)@ + Seq::new(
                pairs@.len(),
                |i: int| (pairs@[i].0@, resolved_value(pairs@[i].1@, contents@[i].deep_view())),
            ),
    {
        let ghost target = Seq::new(
            pairs@.len(),
            |i: int| (pairs@[i].0@, resolved_value(pairs@[i].1@, contents@[i].deep_view())),
        );
        let mut i: usize = 0;
        while i < pairs.len()
            invariant
                i <= pairs@.len(),
                pairs@.len() == contents@.len(),
                target == Seq::new(
                    pairs@.len(),
                    |i: int| (pairs@[i].0@, resolved_value(pairs@[i].1@, contents@[i].deep_view())),
                ),
                self@ == old(self)@ + target.subrange(0, i as int),
            decreases pairs@.len() - i,
        {
            let content: Option<&str> = match &contents[i] {
                Some(c) => Some(c.as_str()),
                None => None,
            };
            self.add(pairs[i].0.as_str(), pairs[i].1.as_str(), content);
            proof {
                assert(self@ =~= old(self)@ + target.subrange(0, i + 1 as int));
            }
            i += 1;
        }
        proof {
            assert(target.subrange(0, pairs@.len() as int) =~= target);
        }
    }

    /// Builds a list from `key=value` command-line tokens, dropping every
    /// token that holds no `=`; each content entry resolves the matching
    /// token's value.
    pub fn from_key_value_pairs(tokens: &Vec<String>, contents: &Vec<Option<String>>) -> (l:
        ParameterList)
        requires
            tokens@.len() == contents@.len(),
        ensures
            l@ == keyed_pairs(tokens.deep_view(), contents.deep_view()),
    {
        let mut l = ParameterList::new();
        let mut i: usize = 0;
        while i < tokens.len()
            invariant
                i <= tokens@.len(),
                tokens@.len() == contents@.len(),
                l@ == keyed_pairs(
                    tokens.deep_view().subrange(0, i as int),
                    contents.deep_view().subrange(0, i as int),
                ),
            decreases tokens@.len() - i,
        {
            let ghost tprefix = tokens.deep_view().subrange(0, i + 1 as int);
            let ghost cprefix = contents.deep_view().subrange(0, i + 1 as int);
            proof {
                assert(tprefix.drop_last() =~= tokens.deep_view().subrange(0, i as int));
                assert(cprefix.drop_last() =~= contents.deep_view().subrange(0, i as int));
                assert(tprefix.last() == tokens@[i as int]@);
                assert(cprefix.last() == contents@[i as int].deep_view());
            }
            match split_pair(tokens[i].as_str()) {
                Some((name, value)) => {
                    let content: Option<&str> = match &contents[i] {
                        Some(c) => Some(c.as_str()),
                        None => None,
                    };
                    l.add(name.as_str(), value.as_str(), content);
                },
                None => {},
            }
            proof {
                assert(l@ =~= keyed_pairs(tprefix, cprefix));
            }
            i += 1;
        }
        proof {
            assert(tokens.deep_view().subrange(0, tokens@.len() as int) =~= tokens.deep_view());
            assert(contents.deep_view().subrange(0, contents@.len() as int)
                =~= contents.deep_view());
        }
        l
    }

    /// Builds a list that holds exactly the given pairs, in order, values
    /// stored raw.
    pub fn from_raw_pairs(pairs: Vec<(String, String)>) -> (l: ParameterList)
        ensures
            l@ == Seq::new(pairs@.len(), |i: int| (pairs@[i].0@, pairs@[i].1@)),
    {
        let ghost target = Seq::new(pairs@.len(), |i: int| (pairs@[i].0@, pairs@[i].1@));
        let mut l = ParameterList::new();
        let mut i: usize = 0;
        while i < pairs.len()
            invariant
                i <= pairs@.len(),
                l@.len() == i,
                target == Seq::new(pairs@.len(), |i: int| (pairs@[i].0@, pairs@[i].1@)),
                forall|j: int| 0 <= j < i ==> l@[j] == target[j],
            decreases pairs@.len() - i,
        {
            let name = pairs[i].0.clone();
            let value = pairs[i].1.clone();
            l.parameters.push(Parameter { name, value });
            i += 1;
        }
        proof {
            assert(l@ =~= target);
        }
        l
    }

    /// Decodes an array of `{name, value}` objects. Malformed input — text
    /// that is not JSON, a document that is not an array, or an element
    /// without both fields as strings — yields an empty list rather than
    /// failing. Values are stored raw; apply [`ParameterList::resolve_files`]
    /// afterwards to expand `@file` references.
    pub fn from_string(s: &str) -> (l: ParameterList)
        ensures
            l@ == decoded_pairs_of(s@),
    {
        let n: usize = match array_len(s) {
            Some(n) => n,
            None => {
                let l = ParameterList::new();
                proof {
                    assert(l@ =~= decoded_pairs_of(s@));
                }
                return l;
            },
        };
        let mut pairs: Vec<(String, String)> = Vec::new();
        let mut i: usize = 0;
        while i < n
            invariant
                i <= n,
                array_len_of(s@) == Some(n as int),
                pairs@.len() == i,
                forall|j: int|
                    0 <= j < i ==> ((#[trigger] pair_of(s@, j)) matches Some(p)
                        && pairs.deep_view()[j] == p),
            decreases n - i,
        {
            match element_pair(s, i) {
                Some(p) => {
                    pairs.push(p);
                },
                None => {
                    let l = ParameterList::new();
                    proof {
                        assert(pair_of(s@, i as int) is None);
                        assert(!(forall|k: int|
                            0 <= k < n ==> (#[trigger] pair_of(s@, k)) is Some));
                        assert(l@ =~= decoded_pairs_of(s@));
                    }
                    return l;
                },
            }
            i += 1;
        }
        let l = ParameterList::from_raw_pairs(pairs);
        proof {
            assert(l@ =~= decoded_pairs_of(s@));
        }
        l
    }

    /// The file each parameter's value refers to, position by position.
    pub fn file_references(&self) -> (r: Vec<Option<String>>)
        ensures
            r.deep_view() == Seq::new(self@.len(), |i: int| file_reference(self@[i].1)),
    {
        let ghost target = Seq::new(self@.len(), |i: int| file_reference(self@[i].1));
        let mut r: Vec<Option<String>> = Vec::new();
        let mut i: usize = 0;
        while i < self.parameters.len()
            invariant
                i <= self@.len(),
                r@.len() == i,
                target == Seq::new(self@.len(), |i: int| file_reference(self@[i].1)),
                forall|j: int| 0 <= j < i ==> r@[j].deep_view() == target[j],
            decreases self@.len() - i,
        {
            r.push(Parameter::file_reference_of(self.parameters[i].value.as_str()));
            i += 1;
        }
        proof {
            assert(r.deep_view() =~= target);
        }
        r
    }

    /// The JSON document sent as the `json` query value when triggering a
    /// build with these parameters, in the order they were added.
    pub fn to_json(&self) -> (r: String)
        ensures
            r@ == list_json(self@),
    {
        let mut s = "{\"parameter\":[".to_owned();
        let n: usize = self.parameters.len();
        let mut i: usize = 0;
        while i < n
            invariant
                i <= n,
                n == self@.len(),
                s@ == "{\"parameter\":["@ + parameters_json(self@.subrange(0, i as int)),
            decreases n - i,
        {
            if i > 0 {
                push_char(&mut s, ',');
            }
            push_parameter_json(&mut s, &self.parameters[i]);
            proof {
                assert(self@.subrange(0, i + 1 as int).drop_last() =~= self@.subrange(0, i as int));
                assert(self@.subrange(0, i + 1 as int).last() == self@[i as int]);
                assert(self@.subrange(0, i + 1 as int)[0] == self@[0]);
                assert(s@ =~= "{\"parameter\":["@ + parameters_json(
                    self@.subrange(0, i + 1 as int),
                ));
            }
            i += 1;
        }
        s.append("]}");
        proof {
            assert(self@.subrange(0, n as int) =~= self@);
            assert(s@ =~= list_json(self@));
        }
        s
    }

    /// Expands every `@file` value against the matching content entry; other
    /// values and all names stay as they are.
    pub fn resolve_files(&mut self, contents: &Vec<Option<String>>)
        requires
            old(self)@.len() == contents@.len(),
        ensures
            final(self)@ == Seq::new(
                old(self)@.len(),
                |i: int| (old(self)@[i].0, resolved_value(old(self)@[i].1, contents@[i].deep_view())),
            ),
    {
        let ghost target = Seq::new(
            old(self)@.len(),
            |i: int| (old(self)@[i].0, resolved_value(old(self)@[i].1, contents@[i].deep_view())),
        );
        let n: usize = self.parameters.len();
        let mut i: usize = 0;
        while i < n
            invariant
                i <= n,
                n == self@.len(),
                self@.len() == old(self)@.len(),
                contents@.len() == old(self)@.len(),
                target == Seq::new(
                    old(self)@.len(),
                    |i: int|
                        (old(self)@[i].0, resolved_value(old(self)@[i].1, contents@[i].deep_view())),
                ),
                forall|j: int| i <= j < n ==> self@[j] == old(self)@[j],
                forall|j: int| 0 <= j < i ==> self@[j] == target[j],
            decreases n - i,
        {
            let content: Option<&str> = match &contents[i] {
                Some(c) => Some(c.as_str()),
                None => None,
            };
            let name = self.parameters[i].name.clone();
            let raw = self.parameters[i].value.clone();
            let resolved = Parameter::new(name.as_str(), raw.as_str(), content);
            self.parameters.set(i, resolved);
            i += 1;
        }
        proof {
            assert(self@ =~= target);
        }
    }
}

} // verus!
