use vstd::prelude::*;

verus! {

/// A character allowed in a header name: an RFC 7230 `tchar`.
pub open spec fn is_token_char(c: char) -> bool {
    let u = c as u32;
    (0x61 <= u <= 0x7a) || (0x41 <= u <= 0x5a) || (0x30 <= u <= 0x39) || u == 0x21 || u == 0x23
        || u == 0x24 || u == 0x25 || u == 0x26 || u == 0x27 || u == 0x2a || u == 0x2b || u
        == 0x2d || u == 0x2e || u == 0x5e || u == 0x5f || u == 0x60 || u == 0x7c || u == 0x7e
}

pub open spec fn is_ascii_upper(c: char) -> bool {
    0x41 <= c as u32 <= 0x5a
}

/// A text that is accepted as a header name, before case folding.
pub open spec fn valid_header_name(s: Seq<char>) -> bool {
    s.len() > 0 && forall|i: int| 0 <= i < s.len() ==> is_token_char(#[trigger] s[i])
}

/// `c` with an ASCII upper-case letter mapped to lower case.
pub open spec fn lower_char(c: char) -> char {
    if is_ascii_upper(c) {
        ((c as u32) + 32) as char
    } else {
        c
    }
}

/// `s` with every ASCII upper-case letter mapped to lower case.
pub open spec fn ascii_lower(s: Seq<char>) -> Seq<char> {
    s.map_values(|c: char| lower_char(c))
}

/// A normalized header name: valid and without upper-case letters.
pub open spec fn normal_header_name(s: Seq<char>) -> bool {
    valid_header_name(s) && forall|i: int| 0 <= i < s.len() ==> !is_ascii_upper(#[trigger] s[i])
}

/// Relies on `str::to_ascii_lowercase`: ASCII 'A'..='Z' become 'a'..='z',
/// every other character is kept.
#[verifier::external_body]
fn to_ascii_lowercase(s: &str) -> (r: String)
    ensures
        r@ == ascii_lower(s@),
{
    s.to_ascii_lowercase()
}

/// The name of a header, compared without regard to ASCII case.
pub struct HeaderName {
    name: String,
}

/// A header name that holds a character outside the token set, or is empty.
pub struct InvalidHeaderName {
    pub name: String,
}

impl View for HeaderName {
    type V = Seq<char>;

    closed spec fn view(&self) -> Seq<char> {
        self.name@
    }
}

fn is_token(c: char) -> (r: bool)
    ensures
        r == is_token_char(c),
{
    let u = c as u32;
    (0x61 <= u && u <= 0x7a) || (0x41 <= u && u <= 0x5a) || (0x30 <= u && u <= 0x39) || u == 0x21
        || u == 0x23 || u == 0x24 || u == 0x25 || u == 0x26 || u == 0x27 || u == 0x2a || u == 0x2b
        || u == 0x2d || u == 0x2e || u == 0x5e || u == 0x5f || u == 0x60 || u == 0x7c || u == 0x7e
}

impl HeaderName {
    pub open spec fn wf(&self) -> bool {
        normal_header_name(self@)
    }

    /// Checks `name` and folds it to lower case.
    pub fn new(name: String) -> (r: Result<HeaderName, InvalidHeaderName>)
        ensures
            r is Ok <==> valid_header_name(name@),
            r matches Ok(h) ==> h.wf() && h@ == ascii_lower(name@),
            r matches Err(e) ==> e.name@ == name@,
    {
        let n = name.as_str().unicode_len();
        if n == 0 {
            return Err(InvalidHeaderName { name });
        }
        let mut i: usize = 0;
        while i < n
            invariant
                n == name@.len(),
                i <= n,
                forall|j: int| 0 <= j < i ==> is_token_char(#[trigger] name@[j]),
            decreases n - i,
        {
            let c = name.as_str().get_char(i);
            if !is_token(c) {
                return Err(InvalidHeaderName { name });
            }
            i = i + 1;
        }
        let lowered = to_ascii_lowercase(name.as_str());
        proof {
            assert forall|j: int| 0 <= j < lowered@.len() implies is_token_char(#[trigger] lowered@[j])
                && !is_ascii_upper(lowered@[j]) by {
                assert(is_token_char(name@[j]));
                assert(lowered@[j] == lower_char(name@[j]));
            }
        }
        Ok(HeaderName { name: lowered })
    }

    pub fn as_str(&self) -> (r: &str)
        ensures
            r@ == self@,
    {
        self.name.as_str()
    }
}

/// The view of a list of name/value text pairs.
pub open spec fn pairs_view(s: Seq<(String, String)>) -> Seq<(Seq<char>, Seq<char>)> {
    Seq::new(s.len(), |i: int| (s[i].0@, s[i].1@))
}

/// No two entries share a name.
pub open spec fn distinct_names(s: Seq<(Seq<char>, Seq<char>)>) -> bool {
    forall|i: int, j: int| 0 <= i < j < s.len() ==> #[trigger] s[i].0 != #[trigger] s[j].0
}

/// The entries after setting `n` to `v`: an entry of that name has its value
/// replaced in place, otherwise the pair is appended.
pub open spec fn headers_insert(s: Seq<(Seq<char>, Seq<char>)>, n: Seq<char>, v: Seq<char>) -> Seq<(Seq<char>, Seq<char>)> {
    if exists|i: int| 0 <= i < s.len() && s[i].0 == n {
        let i = choose|i: int| 0 <= i < s.len() && s[i].0 == n;
        s.update(i, (n, v))
    } else {
        s.push((n, v))
    }
}

/// One header: a name and its value.
pub struct Header {
    name: HeaderName,
    value: String,
}

/// An ordered collection of headers with distinct names.
pub struct Headers {
    headers: Vec<Header>,
}

impl View for Headers {
    type V = Seq<(Seq<char>, Seq<char>)>;

    closed spec fn view(&self) -> Seq<(Seq<char>, Seq<char>)> {
        Seq::new(self.headers@.len(), |i: int| (self.headers@[i].name@, self.headers@[i].value@))
    }
}

impl Headers {
    /// Every name is normalized, and no two are equal.
    pub open spec fn wf(&self) -> bool {
        &&& forall|i: int| 0 <= i < self@.len() ==> normal_header_name(#[trigger] self@[i].0)
        &&& distinct_names(self@)
    }

    pub fn new() -> (r: Headers)
        ensures
            r.wf(),
            r@ == Seq::<(Seq<char>, Seq<char>)>::empty(),
    {
        let r = Headers { headers: Vec::new() };
        assert(r@ =~= Seq::<(Seq<char>, Seq<char>)>::empty());
        r
    }

    pub fn len(&self) -> (r: usize)
        ensures
            r == self@.len(),
    {
        self.headers.len()
    }

    /// Sets the header `name` to `value`, keeping the position of an entry
    /// of that name if there is one.
    pub fn insert(&mut self, name: HeaderName, value: String)
        requires
            old(self).wf(),
            name.wf(),
        ensures
            final(self).wf(),
            final(self)@ == headers_insert(old(self)@, name@, value@),
    {
        let n = self.headers.len();
        let mut i: usize = 0;
        while i < n
            invariant
                n == self.headers@.len(),
                i <= n,
                self@ == old(self)@,
                self.wf(),
                name.wf(),
                forall|j: int| 0 <= j < i ==> self@[j].0 != name@,
            decreases n - i,
        {
            if self.headers[i].name.name == name.name {
                let ghost before = self@;
                assert(before[i as int].0 == name@);
                self.headers[i].value = value;
                assert(self@ =~= before.update(i as int, (name@, value@)));
                proof {
                    let k = choose|k: int| 0 <= k < before.len() && before[k].0 == name@;
                    if k < i {
                        assert(before[k].0 != before[i as int].0);
                    } else if k > i {
                        assert(before[i as int].0 != before[k].0);
                    }
                    assert(self@[i as int].0 == before[i as int].0);
                }
                return;
            }
            i = i + 1;
        }
        let ghost before = self@;
        self.headers.push(Header { name, value });
        assert(self@ =~= before.push((name@, value@)));
        assert(forall|j: int| 0 <= j < before.len() ==> before[j].0 != name@);
    }

    /// The entries as name/value text pairs, in order.
    pub fn to_pairs(&self) -> (r: Vec<(String, String)>)
        ensures
            pairs_view(r@) == self@,
    {
        let mut r: Vec<(String, String)> = Vec::new();
        let n = self.headers.len();
        let mut i: usize = 0;
        while i < n
            invariant
                n == self.headers@.len(),
                i <= n,
                r@.len() == i,
                forall|j: int| 0 <= j < i ==> pairs_view(r@)[j] == #[trigger] self@[j],
            decreases n - i,
        {
            let name = self.headers[i].name.name.clone();
            let value = self.headers[i].value.clone();
            r.push((name, value));
            i = i + 1;
        }
        assert(pairs_view(r@) =~= self@);
        r
    }
}

} // verus!
