//! A plain model of an HTTP response: status code, header list and body
//! bytes, with the header-map `insert` that replaces every earlier value of
//! the same name.

use vstd::prelude::*;

verus! {

/// A header list as text pairs `(name, value)`.
pub open spec fn headers_view(headers: Seq<(String, String)>) -> Seq<(Seq<char>, Seq<char>)> {
    headers.map_values(|h: (String, String)| (h.0@, h.1@))
}

/// The header list after inserting `(name, value)`: earlier entries with that
/// name are dropped and the new one goes last.
pub open spec fn header_insert(
    headers: Seq<(Seq<char>, Seq<char>)>,
    name: Seq<char>,
    value: Seq<char>,
) -> Seq<(Seq<char>, Seq<char>)> {
    headers.filter(other_name(name)).push((name, value))
}

/// Holds for entries whose name is not `name`.
pub open spec fn other_name(name: Seq<char>) -> spec_fn((Seq<char>, Seq<char>)) -> bool {
    |h: (Seq<char>, Seq<char>)| h.0 != name
}


/// After inserting `(name, value)`, the list holds exactly the new entry and
/// the earlier entries with other names.
pub proof fn lemma_header_insert_contains(
    headers: Seq<(Seq<char>, Seq<char>)>,
    name: Seq<char>,
    value: Seq<char>,
    entry: (Seq<char>, Seq<char>),
)
    ensures
        header_insert(headers, name, value).contains(entry) <==> (entry == (name, value) || (
        headers.contains(entry) && entry.0 != name)),
{
    let keep = other_name(name);
    let f = headers.filter(keep);
    let r = header_insert(headers, name, value);
    assert(r == f.push((name, value)));
    if r.contains(entry) {
        let i = choose|i: int| 0 <= i < r.len() && r[i] == entry;
        if i < f.len() {
            assert(f.contains(entry));
            headers.lemma_filter_contains_rev(keep, entry);
            headers.lemma_filter_pred(keep, i);
        }
    }
    if headers.contains(entry) && entry.0 != name {
        let j = choose|j: int| 0 <= j < headers.len() && headers[j] == entry;
        headers.lemma_filter_contains(keep, j);
        let k = choose|k: int| 0 <= k < f.len() && f[k] == entry;
        assert(r[k] == entry);
    }
    if entry == (name, value) {
        assert(r[f.len() as int] == entry);
    }
}

/// An HTTP response: status, headers in order, body bytes.
pub struct HttpResponse {
    pub status: u16,
    pub headers: Vec<(String, String)>,
    pub body: Vec<u8>,
}

/// The mathematical content of an [`HttpResponse`].
pub struct ResponseModel {
    pub status: u16,
    pub headers: Seq<(Seq<char>, Seq<char>)>,
    pub body: Seq<u8>,
}

impl View for HttpResponse {
    type V = ResponseModel;

    open spec fn view(&self) -> ResponseModel {
        ResponseModel { status: self.status, headers: headers_view(self.headers@), body: self.body@ }
    }
}

/// Replaces every header named `name` by the single header `(name, value)`.
pub fn insert_header(headers: &mut Vec<(String, String)>, name: &str, value: String)
    ensures
        headers_view(final(headers)@) == header_insert(headers_view(old(headers)@), name@, value@),
{
    let ghost before = headers_view(headers@);
    let ghost keep = other_name(name@);
    let key = name.to_string();
    let mut kept: Vec<(String, String)> = Vec::new();
    let n = headers.len();
    for i in 0..n
        invariant
            n == headers@.len(),
            before == headers_view(headers@),
            key@ == name@,
            keep == other_name(name@),
            headers_view(kept@) == before.take(i as int).filter(keep),
    {
        proof {
            before.lemma_take_succ_push(i as int);
            before.take(i as int).lemma_filter_push(before[i as int], keep);
        }
        let same = headers[i].0 == key;
        if !same {
            let entry = (headers[i].0.clone(), headers[i].1.clone());
            kept.push(entry);
            assert(headers_view(kept@) =~= before.take(i as int).filter(keep).push(before[i as int]));
        } else {
            assert(!keep(before[i as int]));
        }
        assert(before.take(i as int + 1) =~= before.take(i as int).push(before[i as int]));
    }
    assert(before.take(n as int) =~= before);
    kept.push((key, value));
    assert(headers_view(kept@) =~= header_insert(before, name@, value@));
    *headers = kept;
}

} // verus!
