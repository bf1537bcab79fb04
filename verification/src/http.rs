//! Plain-value model of the HTTP boundary: methods, headers, requests and
//! responses, with the header bookkeeping that the middleware stages rely on.
//! Header names are kept lowercase by convention; the helpers compare them
//! exactly.

use vstd::prelude::*;

verus! {

/// Request methods distinguished by the router and the middleware stages.
#[derive(Clone, Copy, PartialEq, Eq, Structural, Debug)]
pub enum Method {
    Get,
    Post,
    Put,
    Delete,
    Patch,
    Head,
    Options,
}

/// One metadata entry of a request or a response.
pub struct Header {
    pub name: String,
    pub value: String,
}

/// An incoming request, after the listener has read it off the wire.
pub struct Request {
    pub method: Method,
    pub path: String,
    pub headers: Vec<Header>,
    pub body: Vec<u8>,
}

/// An outgoing response, before the listener writes it to the wire.
pub struct Response {
    pub status: u16,
    pub headers: Vec<Header>,
    pub body: Vec<u8>,
}

/// The values of the headers named `name`, in the order they stand.
pub open spec fn values_of(hs: Seq<Header>, name: Seq<char>) -> Seq<Seq<char>>
    decreases hs.len(),
{
    if hs.len() == 0 {
        Seq::empty()
    } else if hs.last().name@ == name {
        values_of(hs.drop_last(), name).push(hs.last().value@)
    } else {
        values_of(hs.drop_last(), name)
    }
}

/// The headers not named `name`, in the order they stand.
pub open spec fn without_name(hs: Seq<Header>, name: Seq<char>) -> Seq<Header>
    decreases hs.len(),
{
    if hs.len() == 0 {
        Seq::empty()
    } else if hs.last().name@ == name {
        without_name(hs.drop_last(), name)
    } else {
        without_name(hs.drop_last(), name).push(hs.last())
    }
}

pub open spec fn has_name(hs: Seq<Header>, name: Seq<char>) -> bool {
    values_of(hs, name).len() > 0
}

/// How the header bookkeeping grows when one header is appended.
pub proof fn lemma_push(hs: Seq<Header>, h: Header, name: Seq<char>)
    ensures
        h.name@ == name ==> values_of(hs.push(h), name) == values_of(hs, name).push(h.value@),
        h.name@ != name ==> values_of(hs.push(h), name) == values_of(hs, name),
        h.name@ == name ==> without_name(hs.push(h), name) == without_name(hs, name),
        h.name@ != name ==> without_name(hs.push(h), name) == without_name(hs, name).push(h),
{
    assert(hs.push(h).drop_last() =~= hs);
    assert(hs.push(h).last() == h);
}

/// The same, phrased over prefixes, for loops that scan headers in order.
pub proof fn lemma_take_succ(hs: Seq<Header>, i: int, name: Seq<char>)
    requires
        0 <= i < hs.len(),
    ensures
        hs[i].name@ == name ==> values_of(hs.take(i + 1), name) == values_of(
            hs.take(i),
            name,
        ).push(hs[i].value@),
        hs[i].name@ != name ==> values_of(hs.take(i + 1), name) == values_of(hs.take(i), name),
        hs[i].name@ == name ==> without_name(hs.take(i + 1), name) == without_name(
            hs.take(i),
            name,
        ),
        hs[i].name@ != name ==> without_name(hs.take(i + 1), name) == without_name(
            hs.take(i),
            name,
        ).push(hs[i]),
{
    assert(hs.take(i + 1) =~= hs.take(i).push(hs[i]));
    lemma_push(hs.take(i), hs[i], name);
}

/// The values found in a prefix of the headers stand, in the same places, in
/// the values found in the whole.
pub proof fn lemma_values_prefix(hs: Seq<Header>, i: int, name: Seq<char>)
    requires
        0 <= i <= hs.len(),
    ensures
        values_of(hs, name).len() >= values_of(hs.take(i), name).len(),
        forall|k: int|
            0 <= k < values_of(hs.take(i), name).len() ==> values_of(hs, name)[k] == values_of(
                hs.take(i),
                name,
            )[k],
    decreases hs.len() - i,
{
    if i == hs.len() {
        assert(hs.take(i) =~= hs);
    } else {
        lemma_take_succ(hs, i, name);
        lemma_values_prefix(hs, i + 1, name);
    }
}

/// No headers, no values.
pub proof fn lemma_values_empty(name: Seq<char>)
    ensures
        values_of(Seq::<Header>::empty(), name) == Seq::<Seq<char>>::empty(),
        without_name(Seq::<Header>::empty(), name) == Seq::<Header>::empty(),
{
}

/// Removing headers of one name leaves the values of every other name as they
/// were.
pub proof fn lemma_without_other(hs: Seq<Header>, m: Seq<char>, n: Seq<char>)
    requires
        m != n,
    ensures
        values_of(without_name(hs, m), n) == values_of(hs, n),
    decreases hs.len(),
{
    if hs.len() > 0 {
        lemma_without_other(hs.drop_last(), m, n);
        if hs.last().name@ != m {
            lemma_push(without_name(hs.drop_last(), m), hs.last(), n);
        }
    }
}

/// After removing headers of one name, none of that name is left.
pub proof fn lemma_without_self(hs: Seq<Header>, m: Seq<char>)
    ensures
        values_of(without_name(hs, m), m).len() == 0,
    decreases hs.len(),
{
    if hs.len() > 0 {
        lemma_without_self(hs.drop_last(), m);
        if hs.last().name@ != m {
            lemma_push(without_name(hs.drop_last(), m), hs.last(), m);
        }
    }
}

impl Header {
    /// A copy of this header; both fields keep their values.
    pub fn duplicate(&self) -> (h: Header)
        ensures
            h == *self,
    {
        Header { name: self.name.clone(), value: self.value.clone() }
    }
}

/// Character-by-character string equality, proved against the views.
pub fn str_eq(a: &str, b: &str) -> (r: bool)
    ensures
        r == (a@ == b@),
{
    let la: usize = a.unicode_len();
    let lb: usize = b.unicode_len();
    if la != lb {
        return false;
    }
    let mut i: usize = 0;
    while i < la
        invariant
            a@.len() == la,
            b@.len() == la,
            0 <= i <= la,
            forall|k: int| 0 <= k < i ==> a@[k] == b@[k],
        decreases la - i,
    {
        if a.get_char(i) != b.get_char(i) {
            return false;
        }
        i = i + 1;
    }
    proof {
        assert(a@ =~= b@);
    }
    true
}

/// Does `s` begin with `p`?
pub fn str_has_prefix(s: &str, p: &str) -> (r: bool)
    ensures
        r == (p@.len() <= s@.len() && s@.take(p@.len() as int) == p@),
{
    let ls: usize = s.unicode_len();
    let lp: usize = p.unicode_len();
    if lp > ls {
        return false;
    }
    let mut i: usize = 0;
    while i < lp
        invariant
            s@.len() == ls,
            p@.len() == lp,
            lp <= ls,
            0 <= i <= lp,
            forall|k: int| 0 <= k < i ==> s@[k] == p@[k],
        decreases lp - i,
    {
        if s.get_char(i) != p.get_char(i) {
            assert(s@.take(lp as int)[i as int] != p@[i as int]);
            return false;
        }
        i = i + 1;
    }
    proof {
        assert(s@.take(lp as int) =~= p@);
    }
    true
}

/// The value of the first header named `name`, if any.
pub fn first_value(hs: &Vec<Header>, name: &str) -> (r: Option<String>)
    ensures
        match r {
            Some(v) => has_name(hs@, name@) && v@ == values_of(hs@, name@)[0],
            None => !has_name(hs@, name@),
        },
{
    let mut i: usize = 0;
    while i < hs.len()
        invariant
            0 <= i <= hs@.len(),
            values_of(hs@.take(i as int), name@).len() == 0,
        decreases hs@.len() - i,
    {
        if str_eq(hs[i].name.as_str(), name) {
            proof {
                lemma_take_succ(hs@, i as int, name@);
                lemma_values_prefix(hs@, i as int + 1, name@);
            }
            return Some(hs[i].value.clone());
        }
        proof {
            lemma_take_succ(hs@, i as int, name@);
        }
        i = i + 1;
    }
    proof {
        assert(hs@.take(hs@.len() as int) =~= hs@);
    }
    None
}

/// Append a header built from the two given strings.
pub fn push_header(hs: &mut Vec<Header>, name: &str, value: &str)
    ensures
        final(hs)@.len() == old(hs)@.len() + 1,
        final(hs)@.drop_last() == old(hs)@,
        final(hs)@.last().name@ == name@,
        final(hs)@.last().value@ == value@,
{
    hs.push(Header { name: name.to_owned(), value: value.to_owned() });
    proof {
        assert(hs@.drop_last() =~= old(hs)@);
    }
}

/// Replace every header named `name` by a single one carrying `value`; every
/// other name keeps its values.
pub fn set_header(hs: &mut Vec<Header>, name: &str, value: &str)
    ensures
        values_of(final(hs)@, name@) == seq![value@],
        forall|n: Seq<char>|
            n != name@ ==> #[trigger] values_of(final(hs)@, n) == values_of(old(hs)@, n),
{
    let mut out: Vec<Header> = Vec::new();
    let mut i: usize = 0;
    while i < hs.len()
        invariant
            hs@ == old(hs)@,
            0 <= i <= hs@.len(),
            out@ == without_name(hs@.take(i as int), name@),
        decreases hs@.len() - i,
    {
        proof {
            lemma_take_succ(hs@, i as int, name@);
        }
        if !str_eq(hs[i].name.as_str(), name) {
            out.push(hs[i].duplicate());
        }
        i = i + 1;
    }
    proof {
        assert(hs@.take(hs@.len() as int) =~= hs@);
    }
    let ghost scrubbed = out@;
    out.push(Header { name: name.to_owned(), value: value.to_owned() });
    proof {
        let h = out@.last();
        lemma_without_self(old(hs)@, name@);
        lemma_push(scrubbed, h, name@);
        assert(values_of(out@, name@) =~= seq![value@]);
        assert forall|n: Seq<char>| n != name@ implies #[trigger] values_of(out@, n) == values_of(
            old(hs)@,
            n,
        ) by {
            lemma_without_other(old(hs)@, name@, n);
            lemma_push(scrubbed, h, n);
        }
    }
    *hs = out;
}

} // verus!
